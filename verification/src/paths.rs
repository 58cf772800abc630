//! Unix paths as byte strings.
//!
//! Two byte strings name the same path when they have the same components: a
//! repeated separator, a trailing separator and a `.` that is not at the start
//! make no difference.

use crate::bytes::{append_bytes, bytes_at_most, copy_bytes, in_order, lemma_at_most_antisymmetric};
use crate::bytes::{lemma_at_most_reflexive, lemma_at_most_total, lemma_at_most_transitive};
use crate::bytes::{join_seq, same_bytes, split, split_seq, text_bytes, views};
use crate::text::lemma_split_not_empty;
use vstd::prelude::*;
use vstd::utf8::encode_utf8;

verus! {

/// A component of a path.
pub enum Part {
    /// The `/` that an absolute path starts with.
    Root,
    /// A `.` at the start of a relative path.
    Current,
    /// `..`
    Up,
    /// Any other name.
    Name(Seq<u8>),
}

/// A component of a path, in executable form.
#[derive(Debug)]
pub enum Component {
    /// The `/` that an absolute path starts with.
    Root,
    /// A `.` at the start of a relative path.
    Current,
    /// `..`
    Up,
    /// Any other name.
    Name(Vec<u8>),
}

impl View for Component {
    type V = Part;

    open spec fn view(&self) -> Part {
        match self {
            Component::Root => Part::Root,
            Component::Current => Part::Current,
            Component::Up => Part::Up,
            Component::Name(name) => Part::Name(name@),
        }
    }
}

/// The components of each element, in order.
pub open spec fn part_views(items: Seq<Component>) -> Seq<Part> {
    items.map_values(|item: Component| item@)
}

pub open spec fn dot() -> Seq<u8> {
    seq![0x2eu8]
}

pub open spec fn dot_dot() -> Seq<u8> {
    seq![0x2eu8, 0x2eu8]
}

/// Whether the path starts with `/`.
pub open spec fn absolute(path: Seq<u8>) -> bool {
    path.len() > 0 && path[0] == 0x2f
}

/// The component of a name between separators.
pub open spec fn part_of(name: Seq<u8>) -> Part {
    if name == dot_dot() {
        Part::Up
    } else {
        Part::Name(name)
    }
}

/// The components that the pieces between separators stand for: empty pieces and
/// `.` stand for none.
pub open spec fn named_parts(pieces: Seq<Seq<u8>>) -> Seq<Part>
    decreases pieces.len(),
{
    if pieces.len() == 0 {
        Seq::empty()
    } else {
        let before = named_parts(pieces.drop_last());
        if pieces.last().len() == 0 || pieces.last() == dot() {
            before
        } else {
            before.push(part_of(pieces.last()))
        }
    }
}

/// What stands before the named components.
pub open spec fn leading_parts(path: Seq<u8>) -> Seq<Part> {
    if absolute(path) {
        seq![Part::Root]
    } else if split_seq(path, 0x2f)[0] == dot() {
        seq![Part::Current]
    } else {
        Seq::empty()
    }
}

/// The components of a path.
pub open spec fn components_of(path: Seq<u8>) -> Seq<Part> {
    leading_parts(path) + named_parts(split_seq(path, 0x2f))
}

/// The path `rest` taken from `base`: `rest` itself where it is absolute.
pub open spec fn joined(base: Seq<u8>, rest: Seq<u8>) -> Seq<u8> {
    if absolute(rest) {
        rest
    } else if base.len() == 0 || base.last() == 0x2f {
        base + rest
    } else {
        base.push(0x2f) + rest
    }
}

/// The path at `rest`, a text, taken from `base`.
pub open spec fn under(base: Seq<u8>, rest: Seq<char>) -> Seq<u8> {
    joined(base, encode_utf8(rest))
}

/// The bytes of a component.
pub open spec fn part_bytes(part: Part) -> Seq<u8> {
    match part {
        Part::Root => seq![0x2fu8],
        Part::Current => dot(),
        Part::Up => dot_dot(),
        Part::Name(name) => name,
    }
}

/// The path with the given components, each joined to those before it.
pub open spec fn rendered(parts: Seq<Part>) -> Seq<u8>
    decreases parts.len(),
{
    if parts.len() == 0 {
        Seq::empty()
    } else {
        joined(rendered(parts.drop_last()), part_bytes(parts.last()))
    }
}

/// Whether a component can stand behind another.
pub open spec fn follows(part: Part) -> bool {
    match part {
        Part::Root => false,
        Part::Current => false,
        Part::Up => true,
        Part::Name(name) => {
            &&& name.len() > 0
            &&& !name.contains(0x2f)
            &&& name != dot()
            &&& name != dot_dot()
        },
    }
}

/// Whether a path with exactly these components exists.
pub open spec fn well_formed(parts: Seq<Part>) -> bool {
    forall|i: int|
        0 <= i < parts.len() ==> (follows(#[trigger] parts[i]) || (i == 0 && (parts[i] is Root
            || parts[i] is Current)))
}

/// The last component where it is a name.
pub open spec fn file_name_of(path: Seq<u8>) -> Option<Seq<u8>> {
    let parts = components_of(path);
    if parts.len() == 0 {
        None
    } else {
        match parts.last() {
            Part::Name(name) => Some(name),
            _ => None,
        }
    }
}

/// Whether the path has a parent: it is neither empty nor the root.
pub open spec fn has_parent(path: Seq<u8>) -> bool {
    components_of(path).len() > 0 && !(components_of(path).last() is Root)
}

/// Splitting what stands before a separator and what stands behind it.
pub proof fn lemma_split_concat<T>(a: Seq<T>, separator: T, b: Seq<T>)
    ensures
        split_seq(a.push(separator) + b, separator) == split_seq(a, separator) + split_seq(
            b,
            separator,
        ),
    decreases b.len(),
{
    let whole = a.push(separator) + b;
    if b.len() == 0 {
        assert(whole =~= a.push(separator));
        assert(whole.drop_last() =~= a);
        assert(split_seq(b, separator) =~= seq![Seq::<T>::empty()]);
        assert(split_seq(whole, separator) =~= split_seq(a, separator) + split_seq(b, separator));
    } else {
        lemma_split_concat(a, separator, b.drop_last());
        lemma_split_not_empty(b.drop_last(), separator);
        assert(whole.drop_last() =~= a.push(separator) + b.drop_last());
        assert(split_seq(whole, separator) =~= split_seq(a, separator) + split_seq(b, separator));
    }
}

/// A string without the separator is its own only piece.
pub proof fn lemma_split_single<T>(s: Seq<T>, separator: T)
    requires
        !s.contains(separator),
    ensures
        split_seq(s, separator) == seq![s],
    decreases s.len(),
{
    if s.len() == 0 {
        assert(s =~= Seq::<T>::empty());
    } else {
        assert(s[s.len() - 1] == s.last());
        assert(!s.drop_last().contains(separator)) by {
            if s.drop_last().contains(separator) {
                let i = choose|i: int| 0 <= i < s.len() - 1 && s.drop_last()[i] == separator;
                assert(s[i] == separator);
            }
        }
        lemma_split_single(s.drop_last(), separator);
        assert(s.drop_last().push(s.last()) =~= s);
        assert(split_seq(s, separator) =~= seq![s]);
    }
}

/// The pieces of a split hold no separator.
pub proof fn lemma_pieces_free<T>(s: Seq<T>, separator: T)
    ensures
        forall|i: int, j: int|
            0 <= i < split_seq(s, separator).len() && 0 <= j < split_seq(s, separator)[i].len()
                ==> split_seq(s, separator)[i][j] != separator,
    decreases s.len(),
{
    if s.len() > 0 {
        lemma_pieces_free(s.drop_last(), separator);
        lemma_split_not_empty(s.drop_last(), separator);
    }
}

proof fn lemma_named_concat(a: Seq<Seq<u8>>, b: Seq<Seq<u8>>)
    ensures
        named_parts(a + b) == named_parts(a) + named_parts(b),
    decreases b.len(),
{
    if b.len() == 0 {
        assert(a + b =~= a);
        assert(named_parts(a + b) =~= named_parts(a) + named_parts(b));
    } else {
        lemma_named_concat(a, b.drop_last());
        assert((a + b).drop_last() =~= a + b.drop_last());
        assert(named_parts(a + b) =~= named_parts(a) + named_parts(b));
    }
}

/// A joined path has the components of its base and then the names of the rest.
pub proof fn lemma_join_components(base: Seq<u8>, rest: Seq<u8>)
    requires
        base.len() > 0,
        !absolute(rest),
    ensures
        components_of(joined(base, rest)) == components_of(base) + named_parts(
            split_seq(rest, 0x2f),
        ),
{
    let whole = joined(base, rest);
    lemma_split_not_empty(base, 0x2fu8);
    if base.last() == 0x2f {
        let front = base.drop_last();
        assert(front.push(0x2f) =~= base);
        assert(whole =~= front.push(0x2f) + rest);
        lemma_split_concat(front, 0x2fu8, rest);
        lemma_split_not_empty(front, 0x2fu8);
        lemma_named_concat(split_seq(front, 0x2f), split_seq(rest, 0x2f));
        assert(split_seq(base, 0x2f) == split_seq(front, 0x2f).push(Seq::empty()));
        assert(split_seq(base, 0x2f).drop_last() =~= split_seq(front, 0x2f));
        assert(named_parts(split_seq(base, 0x2f)) == named_parts(split_seq(front, 0x2f)));
        assert(split_seq(whole, 0x2f)[0] == split_seq(base, 0x2f)[0]);
    } else {
        lemma_split_concat(base, 0x2fu8, rest);
        lemma_named_concat(split_seq(base, 0x2f), split_seq(rest, 0x2f));
        assert(split_seq(whole, 0x2f)[0] == split_seq(base, 0x2f)[0]);
    }
    assert(absolute(whole) == absolute(base));
    assert(components_of(whole) =~= components_of(base) + named_parts(split_seq(rest, 0x2f)));
}

/// The components of every path are well formed.
pub proof fn lemma_components_well_formed(path: Seq<u8>)
    ensures
        well_formed(components_of(path)),
        forall|i: int|
            leading_parts(path).len() <= i < components_of(path).len() ==> follows(
                #[trigger] components_of(path)[i],
            ),
{
    lemma_pieces_free(path, 0x2fu8);
    lemma_named_follow(split_seq(path, 0x2f));
    let named = named_parts(split_seq(path, 0x2f));
    let lead = leading_parts(path);
    assert forall|i: int| lead.len() <= i < components_of(path).len() implies follows(
        #[trigger] components_of(path)[i],
    ) by {
        assert(components_of(path)[i] == named[i - lead.len()]);
    }
    assert forall|i: int| 0 <= i < components_of(path).len() implies (follows(
        #[trigger] components_of(path)[i],
    ) || (i == 0 && (components_of(path)[i] is Root || components_of(path)[i] is Current))) by {
        if i < lead.len() {
            assert(components_of(path)[i] == lead[i]);
        }
    }
}

proof fn lemma_named_follow(pieces: Seq<Seq<u8>>)
    requires
        forall|i: int, j: int| 0 <= i < pieces.len() && 0 <= j < pieces[i].len() ==> pieces[i][j] != 0x2f,
    ensures
        forall|i: int| 0 <= i < named_parts(pieces).len() ==> follows(#[trigger] named_parts(pieces)[i]),
    decreases pieces.len(),
{
    if pieces.len() > 0 {
        lemma_named_follow(pieces.drop_last());
        let name = pieces.last();
        assert(!name.contains(0x2f)) by {
            if name.contains(0x2f) {
                let j = choose|j: int| 0 <= j < name.len() && name[j] == 0x2f;
                assert(pieces[pieces.len() - 1][j] != 0x2f);
            }
        }
        let before = named_parts(pieces.drop_last());
        assert forall|i: int| 0 <= i < named_parts(pieces).len() implies follows(
            #[trigger] named_parts(pieces)[i],
        ) by {
            if i < before.len() {
                assert(named_parts(pieces)[i] == before[i]);
            }
        }
    }
}

/// The path with given components has these components.
pub proof fn lemma_rendered_components(parts: Seq<Part>)
    requires
        well_formed(parts),
    ensures
        components_of(rendered(parts)) == parts,
        parts.len() > 0 ==> rendered(parts).len() > 0,
    decreases parts.len(),
{
    reveal_with_fuel(named_parts, 3);
    if parts.len() == 0 {
        let none = Seq::<u8>::empty();
        assert(named_parts(split_seq(none, 0x2f)) =~= Seq::empty()) by {
            assert(split_seq(none, 0x2f) =~= seq![none]);
            assert(seq![none].drop_last() =~= Seq::<Seq<u8>>::empty());
        }
        assert(components_of(rendered(parts)) =~= parts);
    } else {
        let before = parts.drop_last();
        let part = parts.last();
        let name = part_bytes(part);
        assert(well_formed(before)) by {
            assert forall|i: int| 0 <= i < before.len() implies (follows(#[trigger] before[i]) || (i
                == 0 && (before[i] is Root || before[i] is Current))) by {
                assert(before[i] == parts[i]);
            }
        }
        lemma_rendered_components(before);
        assert(follows(parts[parts.len() - 1]) || parts.len() == 1);
        let none = Seq::<u8>::empty();
        if part is Root {
            assert(before =~= Seq::<Part>::empty());
            assert(rendered(parts) =~= seq![0x2fu8]);
            assert(none.push(0x2f) + none =~= seq![0x2fu8]);
            lemma_split_concat(none, 0x2fu8, none);
            lemma_split_single(none, 0x2fu8);
            assert(split_seq(seq![0x2fu8], 0x2fu8) =~= seq![none, none]);
            assert(seq![none, none].drop_last() =~= seq![none]);
            assert(seq![none].drop_last() =~= Seq::<Seq<u8>>::empty());
            assert(components_of(rendered(parts)) =~= parts);
        } else {
            assert(!name.contains(0x2f)) by {
                if part is Name {
                } else {
                    assert(name.len() <= 2);
                }
            }
            assert(!absolute(name)) by {
                if absolute(name) {
                    assert(name.contains(name[0]));
                }
            }
            lemma_split_single(name, 0x2fu8);
            assert(seq![name].drop_last() =~= Seq::<Seq<u8>>::empty());
            if before.len() == 0 {
                assert(rendered(before) =~= none);
                assert(rendered(parts) =~= name);
                if part is Current {
                    assert(components_of(name) =~= seq![Part::Current]);
                } else {
                    assert(name != dot());
                    assert(dot_dot().len() == 2 && dot().len() == 1);
                    assert(components_of(name) =~= seq![part]);
                }
                assert(parts =~= seq![part]);
            } else {
                lemma_join_components(rendered(before), name);
                assert(dot_dot().len() == 2 && dot().len() == 1);
                assert(named_parts(seq![name]) =~= seq![part]);
                assert(components_of(rendered(parts)) =~= parts);
            }
        }
    }
}

/// Joining a path that is not absolute keeps the base's components in front.
pub proof fn lemma_join_keeps_base(base: Seq<u8>, rest: Seq<u8>)
    requires
        base.len() > 0,
        !absolute(rest),
    ensures
        components_of(base).is_prefix_of(components_of(joined(base, rest))),
{
    lemma_join_components(base, rest);
}

/// Whether the path starts with `/`.
pub fn is_absolute(path: &[u8]) -> (yes: bool)
    ensures
        yes == absolute(path@),
{
    path.len() > 0 && path[0] == 0x2f
}

/// The path `rest` taken from `base`.
pub fn join(base: &[u8], rest: &[u8]) -> (path: Vec<u8>)
    ensures
        path@ == joined(base@, rest@),
{
    if is_absolute(rest) {
        return copy_bytes(rest);
    }
    let mut path = copy_bytes(base);
    if path.len() > 0 && path[path.len() - 1] != 0x2f {
        path.push(0x2f);
    }
    append_bytes(&mut path, rest);
    path
}

/// The path at a text taken from `base`.
pub fn join_text(base: &[u8], rest: &str) -> (path: Vec<u8>)
    ensures
        path@ == under(base@, rest@),
{
    join(base, &text_bytes(rest))
}

proof fn lemma_part_views_push(items: Seq<Component>, item: Component)
    ensures
        part_views(items.push(item)) == part_views(items).push(item@),
{
    assert(part_views(items.push(item)) =~= part_views(items).push(item@));
}

/// The components of a path.
pub fn components(path: &[u8]) -> (parts: Vec<Component>)
    ensures
        part_views(parts@) == components_of(path@),
{
    let pieces = split(path, 0x2f);
    let ghost found = split_seq(path@, 0x2f);
    proof {
        lemma_split_not_empty(path@, 0x2fu8);
    }
    assert(pieces@.len() == views(pieces@).len());
    assert(views(pieces@)[0] == pieces@[0]@);
    let mut parts: Vec<Component> = Vec::new();
    let ghost none = part_views(parts@);
    assert(none =~= Seq::<Part>::empty());
    if is_absolute(path) {
        parts.push(Component::Root);
        assert(part_views(parts@) =~= leading_parts(path@));
    } else if is_dot(&pieces[0]) {
        parts.push(Component::Current);
        assert(part_views(parts@) =~= leading_parts(path@));
    } else {
        assert(part_views(parts@) =~= leading_parts(path@));
    }
    let mut index: usize = 0;
    assert(found.take(0) =~= Seq::<Seq<u8>>::empty());
    assert(part_views(parts@) =~= leading_parts(path@) + named_parts(found.take(0)));
    while index < pieces.len()
        invariant
            index <= pieces.len(),
            views(pieces@) == found,
            part_views(parts@) == leading_parts(path@) + named_parts(found.take(index as int)),
        decreases pieces.len() - index,
    {
        let piece = &pieces[index];
        assert(views(pieces@)[index as int] == piece@);
        let ghost before = parts@;
        assert(found.take(index + 1).drop_last() =~= found.take(index as int));
        assert(found.take(index + 1).last() == piece@);
        if piece.len() > 0 && !is_dot(piece) {
            let part = if is_dot_dot(piece) {
                Component::Up
            } else {
                Component::Name(copy_bytes(piece))
            };
            proof {
                lemma_part_views_push(before, part);
            }
            parts.push(part);
        }
        index = index + 1;
        assert(part_views(parts@) =~= leading_parts(path@) + named_parts(found.take(index as int)));
    }
    assert(found.take(index as int) =~= found);
    parts
}

fn is_dot(name: &[u8]) -> (yes: bool)
    ensures
        yes == (name@ == dot()),
{
    let yes = name.len() == 1 && name[0] == 0x2e;
    assert(yes ==> name@ =~= dot());
    yes
}

fn is_dot_dot(name: &[u8]) -> (yes: bool)
    ensures
        yes == (name@ == dot_dot()),
{
    let yes = name.len() == 2 && name[0] == 0x2e && name[1] == 0x2e;
    assert(yes ==> name@ =~= dot_dot());
    yes
}

/// The path with the first `count` of the given components.
pub fn render(parts: &Vec<Component>, count: usize) -> (path: Vec<u8>)
    requires
        count <= parts@.len(),
    ensures
        path@ == rendered(part_views(parts@).take(count as int)),
{
    let mut path: Vec<u8> = Vec::new();
    let mut index: usize = 0;
    assert(part_views(parts@).take(0) =~= Seq::<Part>::empty());
    assert(path@ =~= Seq::<u8>::empty());
    while index < count
        invariant
            index <= count <= parts@.len(),
            path@ == rendered(part_views(parts@).take(index as int)),
        decreases count - index,
    {
        assert(part_views(parts@).take(index + 1).drop_last() =~= part_views(parts@).take(index as int));
        assert(part_views(parts@).take(index + 1).last() == parts@[index as int]@);
        path = push_component(&path, &parts[index]);
        index = index + 1;
    }
    path
}

/// The path with one more component.
pub fn push_component(path: &[u8], part: &Component) -> (longer: Vec<u8>)
    ensures
        longer@ == joined(path@, part_bytes(part@)),
{
    match part {
        Component::Root => {
            let root: Vec<u8> = vec![0x2fu8];
            assert(root@ =~= seq![0x2fu8]);
            join(path, &root)
        },
        Component::Current => {
            let name: Vec<u8> = vec![0x2eu8];
            assert(name@ =~= dot());
            join(path, &name)
        },
        Component::Up => {
            let name: Vec<u8> = vec![0x2eu8, 0x2eu8];
            assert(name@ =~= dot_dot());
            join(path, &name)
        },
        Component::Name(name) => join(path, name),
    }
}

/// Whether the two components are the same.
pub fn same_component(left: &Component, right: &Component) -> (same: bool)
    ensures
        same == (left@ == right@),
{
    match (left, right) {
        (Component::Root, Component::Root) => true,
        (Component::Current, Component::Current) => true,
        (Component::Up, Component::Up) => true,
        (Component::Name(a), Component::Name(b)) => same_bytes(a, b),
        _ => false,
    }
}

/// Whether the components of `base` are the first components of `path`.
pub fn path_starts_with(path: &[u8], base: &[u8]) -> (yes: bool)
    ensures
        yes == components_of(base@).is_prefix_of(components_of(path@)),
{
    let parts = components(path);
    let front = components(base);
    assert(parts@.len() == part_views(parts@).len() && front@.len() == part_views(front@).len());
    if front.len() > parts.len() {
        return false;
    }
    let mut index: usize = 0;
    while index < front.len()
        invariant
            index <= front.len() <= parts.len(),
            part_views(parts@) == components_of(path@),
            part_views(front@) == components_of(base@),
            forall|i: int| 0 <= i < index ==> part_views(front@)[i] == part_views(parts@)[i],
        decreases front.len() - index,
    {
        if !same_component(&front[index], &parts[index]) {
            assert(part_views(front@)[index as int] != part_views(parts@)[index as int]);
            return false;
        }
        assert(part_views(front@)[index as int] == part_views(parts@)[index as int]);
        index = index + 1;
    }
    assert(components_of(base@) =~= components_of(path@).take(front@.len() as int));
    true
}

/// A copy of a component.
pub fn copy_component(part: &Component) -> (copy: Component)
    ensures
        copy@ == part@,
{
    match part {
        Component::Root => Component::Root,
        Component::Current => Component::Current,
        Component::Up => Component::Up,
        Component::Name(name) => Component::Name(copy_bytes(name)),
    }
}

/// The components of `path` behind those of `base`; nothing where `path` does not
/// begin with the components of `base`.
pub fn strip_prefix(path: &[u8], base: &[u8]) -> (rest: Option<Vec<Component>>)
    ensures
        rest is Some <==> components_of(base@).is_prefix_of(components_of(path@)),
        rest is Some ==> part_views(rest->0@) == components_of(path@).skip(
            components_of(base@).len() as int,
        ),
{
    if !path_starts_with(path, base) {
        return None;
    }
    let parts = components(path);
    let front = components(base);
    assert(parts@.len() == part_views(parts@).len() && front@.len() == part_views(front@).len());
    let ghost all = components_of(path@);
    let start: usize = front.len();
    let mut index: usize = start;
    let mut rest: Vec<Component> = Vec::new();
    assert(part_views(rest@) =~= all.subrange(start as int, start as int));
    while index < parts.len()
        invariant
            start <= index <= parts.len(),
            parts@.len() == all.len(),
            part_views(parts@) == all,
            part_views(rest@) == all.subrange(start as int, index as int),
        decreases parts.len() - index,
    {
        let part = copy_component(&parts[index]);
        assert(all[index as int] == parts@[index as int]@);
        proof {
            lemma_part_views_push(rest@, part);
        }
        rest.push(part);
        index = index + 1;
        assert(all.subrange(start as int, index as int) =~= all.subrange(
            start as int,
            index - 1,
        ).push(all[index - 1]));
    }
    assert(all.subrange(start as int, index as int) =~= all.skip(start as int));
    Some(rest)
}

/// Whether the two byte strings name the same path.
pub fn same_path(left: &[u8], right: &[u8]) -> (same: bool)
    ensures
        same == (components_of(left@) == components_of(right@)),
{
    let first = path_starts_with(left, right);
    let second = path_starts_with(right, left);
    proof {
        if first && second {
            assert(components_of(left@) =~= components_of(right@));
        }
    }
    first && second
}

/// The last component where it is a name.
pub fn file_name(path: &[u8]) -> (name: Option<Vec<u8>>)
    ensures
        name is Some <==> file_name_of(path@) is Some,
        name is Some ==> name->0@ == file_name_of(path@)->0,
{
    let parts = components(path);
    assert(parts@.len() == part_views(parts@).len());
    if parts.len() == 0 {
        return None;
    }
    assert(part_views(parts@).last() == parts@[parts@.len() - 1]@);
    match &parts[parts.len() - 1] {
        Component::Name(name) => Some(copy_bytes(name)),
        _ => None,
    }
}

/// Whether a piece between separators stands for no component.
pub open spec fn is_blank_piece(piece: Seq<u8>) -> bool {
    piece.len() == 0 || piece == dot()
}

/// The pieces without those at their end that stand for no component.
pub open spec fn without_tail(pieces: Seq<Seq<u8>>) -> Seq<Seq<u8>>
    decreases pieces.len(),
{
    if pieces.len() > 0 && is_blank_piece(pieces.last()) {
        without_tail(pieces.drop_last())
    } else {
        pieces
    }
}

/// The pieces behind the first `count` components, from the next component on.
pub open spec fn behind_parts(pieces: Seq<Seq<u8>>, count: int) -> Seq<Seq<u8>>
    decreases pieces.len(),
{
    if pieces.len() == 0 {
        pieces
    } else if is_blank_piece(pieces[0]) {
        behind_parts(pieces.drop_first(), count)
    } else if count <= 0 {
        pieces
    } else {
        behind_parts(pieces.drop_first(), count - 1)
    }
}

/// How many pieces stand before the named components: the empty one before the root's
/// separator, or the `.` at the start.
pub open spec fn lead_count(path: Seq<u8>) -> int {
    leading_parts(path).len() as int
}

/// The path made of the pieces at the start and of these.
pub open spec fn with_lead(path: Seq<u8>, body: Seq<Seq<u8>>) -> Seq<u8> {
    if absolute(path) && body.len() == 0 {
        seq![0x2fu8]
    } else {
        join_seq(split_seq(path, 0x2f).take(lead_count(path)) + body, 0x2f)
    }
}

/// The path up to its last component, as it is spelled.
pub open spec fn parent_of(path: Seq<u8>) -> Seq<u8> {
    let body = without_tail(split_seq(path, 0x2f).skip(lead_count(path)));
    if body.len() == 0 {
        Seq::empty()
    } else {
        with_lead(path, without_tail(body.drop_last()))
    }
}

/// What is left of a path behind the components of `base`, as it is spelled.
pub open spec fn rest_of(path: Seq<u8>, base: Seq<u8>) -> Seq<u8> {
    let lead = lead_count(path);
    let body = split_seq(path, 0x2f).skip(lead);
    let count = components_of(base).len() as int;
    if count == 0 {
        with_lead(path, without_tail(body))
    } else {
        join_seq(without_tail(behind_parts(body, count - lead)), 0x2f)
    }
}

/// Splitting gives back the pieces that were joined.
pub proof fn lemma_split_join(pieces: Seq<Seq<u8>>)
    requires
        pieces.len() > 0,
        forall|i: int| 0 <= i < pieces.len() ==> !(#[trigger] pieces[i]).contains(0x2f),
    ensures
        split_seq(join_seq(pieces, 0x2f), 0x2f) == pieces,
    decreases pieces.len(),
{
    if pieces.len() == 1 {
        lemma_split_single(pieces[0], 0x2fu8);
        assert(pieces =~= seq![pieces[0]]);
    } else {
        let front = pieces.drop_last();
        assert forall|i: int| 0 <= i < front.len() implies !(#[trigger] front[i]).contains(0x2f) by {
            assert(front[i] == pieces[i]);
        }
        lemma_split_join(front);
        lemma_split_concat(join_seq(front, 0x2f), 0x2fu8, pieces.last());
        lemma_split_single(pieces[pieces.len() - 1], 0x2fu8);
        assert(front + seq![pieces.last()] =~= pieces);
    }
}

proof fn lemma_without_tail(pieces: Seq<Seq<u8>>)
    ensures
        named_parts(without_tail(pieces)) == named_parts(pieces),
        without_tail(pieces).is_prefix_of(pieces),
        without_tail(pieces).len() > 0 ==> !is_blank_piece(without_tail(pieces).last()),
    decreases pieces.len(),
{
    if pieces.len() > 0 && is_blank_piece(pieces.last()) {
        lemma_without_tail(pieces.drop_last());
    }
}

proof fn lemma_behind_parts(pieces: Seq<Seq<u8>>, count: int)
    requires
        0 <= count <= named_parts(pieces).len(),
    ensures
        named_parts(behind_parts(pieces, count)) == named_parts(pieces).skip(count),
        behind_parts(pieces, count).is_suffix_of(pieces),
        behind_parts(pieces, count).len() > 0 ==> !is_blank_piece(behind_parts(pieces, count)[0]),
    decreases pieces.len(),
{
    if pieces.len() > 0 {
        let first = seq![pieces[0]];
        let rest = pieces.drop_first();
        assert(first + rest =~= pieces);
        lemma_named_concat(first, rest);
        assert(first.drop_last() =~= Seq::<Seq<u8>>::empty());
        assert(named_parts(first.drop_last()) =~= Seq::<Part>::empty());
        if is_blank_piece(pieces[0]) {
            assert(named_parts(first) =~= Seq::<Part>::empty());
            assert(named_parts(pieces) =~= named_parts(rest));
            lemma_behind_parts(rest, count);
        } else {
            assert(named_parts(first) =~= seq![part_of(pieces[0])]);
            if count > 0 {
                lemma_behind_parts(rest, count - 1);
                assert(named_parts(pieces).skip(count) =~= named_parts(rest).skip(count - 1));
            } else {
                assert(named_parts(pieces).skip(0) =~= named_parts(pieces));
            }
        }
    } else {
        assert(named_parts(pieces).skip(count) =~= named_parts(pieces));
    }
}

/// The pieces at the start of a path stand for no named component.
proof fn lemma_lead(path: Seq<u8>)
    ensures
        lead_count(path) <= split_seq(path, 0x2f).len(),
        named_parts(split_seq(path, 0x2f)) == named_parts(
            split_seq(path, 0x2f).skip(lead_count(path)),
        ),
        absolute(path) ==> split_seq(path, 0x2f)[0].len() == 0,
        path.len() > 0 && !absolute(path) ==> split_seq(path, 0x2f)[0].len() > 0,
{
    let pieces = split_seq(path, 0x2f);
    lemma_split_not_empty(path, 0x2fu8);
    lemma_first_piece(path);
    let lead = pieces.take(lead_count(path));
    assert(lead + pieces.skip(lead_count(path)) =~= pieces);
    lemma_named_concat(lead, pieces.skip(lead_count(path)));
    assert(named_parts(lead) =~= Seq::<Part>::empty()) by {
        if lead.len() > 0 {
            assert(lead.drop_last() =~= Seq::<Seq<u8>>::empty());
            assert(named_parts(lead.drop_last()) =~= Seq::<Part>::empty());
        }
    }
    assert(named_parts(pieces) =~= named_parts(pieces.skip(lead_count(path))));
}

proof fn lemma_first_piece(path: Seq<u8>)
    ensures
        absolute(path) ==> split_seq(path, 0x2f)[0].len() == 0 && split_seq(path, 0x2f).len() > 1,
        path.len() > 0 && !absolute(path) ==> split_seq(path, 0x2f)[0].len() > 0
            && split_seq(path, 0x2f)[0][0] == path[0],
    decreases path.len(),
{
    if path.len() > 0 {
        let front = path.drop_last();
        lemma_first_piece(front);
        lemma_split_not_empty(front, 0x2fu8);
        if path.len() == 1 {
            assert(front =~= Seq::<u8>::empty());
            assert(split_seq(front, 0x2f) =~= seq![Seq::<u8>::empty()]);
            assert(path.last() == path[0]);
        } else {
            assert(front[0] == path[0]);
        }
    }
}

/// The components of the pieces at the start and of some that stand behind them.
proof fn lemma_with_lead(path: Seq<u8>, body: Seq<Seq<u8>>)
    requires
        body.is_prefix_of(split_seq(path, 0x2f).skip(lead_count(path))),
    ensures
        components_of(with_lead(path, body)) == leading_parts(path) + named_parts(body),
{
    let pieces = split_seq(path, 0x2f);
    let n = lead_count(path);
    lemma_split_not_empty(path, 0x2fu8);
    lemma_lead(path);
    lemma_pieces_free(path, 0x2fu8);
    let all = pieces.take(n) + body;
    assert(body =~= pieces.skip(n).take(body.len() as int));
    assert(all =~= pieces.take(n + body.len() as int));
    assert forall|i: int| 0 <= i < all.len() implies !(#[trigger] all[i]).contains(0x2f) by {
        assert(all[i] == pieces[i]);
    }
    lemma_named_concat(pieces.take(n), body);
    assert(named_parts(pieces.take(n)) =~= Seq::<Part>::empty()) by {
        if n > 0 {
            let lead = pieces.take(n);
            assert(lead.drop_last() =~= Seq::<Seq<u8>>::empty());
            assert(named_parts(lead.drop_last()) =~= Seq::<Part>::empty());
        }
    }
    let result = with_lead(path, body);
    if absolute(path) && body.len() == 0 {
        assert(result.drop_last() =~= Seq::<u8>::empty());
        assert(split_seq(result.drop_last(), 0x2f) =~= seq![Seq::<u8>::empty()]);
        assert(split_seq(result, 0x2f) =~= seq![Seq::<u8>::empty(), Seq::<u8>::empty()]);
        let two = split_seq(result, 0x2f);
        assert(two.drop_last().drop_last() =~= Seq::<Seq<u8>>::empty());
        assert(named_parts(two.drop_last().drop_last()) =~= Seq::<Part>::empty());
        assert(named_parts(two.drop_last()) =~= Seq::<Part>::empty());
        assert(named_parts(two) =~= Seq::<Part>::empty());
        assert(named_parts(body) =~= Seq::<Part>::empty());
        assert(components_of(result) =~= leading_parts(path) + named_parts(body));
    } else if all.len() == 0 {
        assert(result =~= Seq::<u8>::empty());
        assert(split_seq(result, 0x2f) =~= seq![Seq::<u8>::empty()]);
        let one = split_seq(result, 0x2f);
        assert(one.drop_last() =~= Seq::<Seq<u8>>::empty());
        assert(named_parts(one.drop_last()) =~= Seq::<Part>::empty());
        assert(components_of(result) =~= leading_parts(path) + named_parts(body));
    } else {
        lemma_split_join(all);
        lemma_lead(result);
        assert(split_seq(result, 0x2f)[0] == pieces[0]);
        if result.len() == 0 {
            assert(split_seq(result, 0x2f) =~= seq![Seq::<u8>::empty()]);
        }
        assert(leading_parts(result) == leading_parts(path));
        assert(components_of(result) =~= leading_parts(path) + named_parts(body));
    }
}

/// The parent of a path has its components but for the last one.
pub proof fn lemma_parent_components(path: Seq<u8>)
    requires
        has_parent(path),
    ensures
        components_of(parent_of(path)) == components_of(path).drop_last(),
{
    let tail = split_seq(path, 0x2f).skip(lead_count(path));
    let body = without_tail(tail);
    lemma_lead(path);
    lemma_without_tail(tail);
    if body.len() == 0 {
        assert(named_parts(body) =~= Seq::<Part>::empty());
        assert(components_of(path) =~= leading_parts(path));
        let none = Seq::<u8>::empty();
        assert(split_seq(none, 0x2f) =~= seq![none]);
        assert(seq![none].drop_last() =~= Seq::<Seq<u8>>::empty());
        assert(named_parts(seq![none].drop_last()) =~= Seq::<Part>::empty());
        assert(components_of(none) =~= components_of(path).drop_last());
    } else {
        let left = without_tail(body.drop_last());
        lemma_without_tail(body.drop_last());
        lemma_with_lead(path, left);
        assert(named_parts(body) == named_parts(body.drop_last()).push(part_of(body.last())));
        assert(components_of(path).drop_last() =~= leading_parts(path) + named_parts(left));
    }
}

/// What is left behind a base has the components that are left.
pub proof fn the_rest_has_the_other_components(path: Seq<u8>, base: Seq<u8>)
    requires
        components_of(base).is_prefix_of(components_of(path)),
    ensures
        components_of(rest_of(path, base)) == components_of(path).skip(
            components_of(base).len() as int,
        ),
{
    let n = lead_count(path);
    let body = split_seq(path, 0x2f).skip(n);
    let count = components_of(base).len() as int;
    lemma_lead(path);
    if count == 0 {
        lemma_without_tail(body);
        lemma_with_lead(path, without_tail(body));
        assert(components_of(path).skip(0) =~= components_of(path));
    } else {
        let behind = behind_parts(body, count - n);
        let pieces = without_tail(behind);
        let rest = join_seq(pieces, 0x2f);
        lemma_behind_parts(body, count - n);
        lemma_without_tail(behind);
        assert(components_of(path).skip(count) =~= named_parts(body).skip(count - n));
        lemma_pieces_free(path, 0x2fu8);
        assert forall|i: int| 0 <= i < pieces.len() implies !(#[trigger] pieces[i]).contains(0x2f) by {
            let at = split_seq(path, 0x2f).len() - behind.len() + i;
            assert(pieces[i] == behind[i]);
            assert(body[body.len() - behind.len() + i] == behind[i]);
            assert(split_seq(path, 0x2f)[at] == pieces[i]);
        }
        if pieces.len() == 0 {
            assert(split_seq(rest, 0x2f) =~= seq![Seq::<u8>::empty()]);
            let one = split_seq(rest, 0x2f);
            assert(one.drop_last() =~= Seq::<Seq<u8>>::empty());
            assert(named_parts(one.drop_last()) =~= Seq::<Part>::empty());
            assert(named_parts(pieces) =~= Seq::<Part>::empty());
        } else {
            lemma_split_join(pieces);
            lemma_first_piece(rest);
            assert(pieces[0] == behind[0]);
        }
        assert(components_of(rest) =~= components_of(path).skip(count));
    }
}

/// The pieces from `first` to `end`, with separators between neighbours.
fn join_pieces(pieces: &Vec<Vec<u8>>, first: usize, end: usize) -> (path: Vec<u8>)
    requires
        first <= end <= pieces@.len(),
    ensures
        path@ == join_seq(views(pieces@).subrange(first as int, end as int), 0x2f),
{
    let ghost all = views(pieces@);
    let mut path: Vec<u8> = Vec::new();
    let mut index: usize = first;
    assert(all.subrange(first as int, first as int) =~= Seq::<Seq<u8>>::empty());
    assert(path@ =~= join_seq(all.subrange(first as int, first as int), 0x2f));
    while index < end
        invariant
            first <= index <= end <= pieces@.len(),
            all == views(pieces@),
            all.len() == pieces@.len(),
            path@ == join_seq(all.subrange(first as int, index as int), 0x2f),
        decreases end - index,
    {
        let ghost before = all.subrange(first as int, index as int);
        let ghost after = all.subrange(first as int, index + 1);
        assert(after.drop_last() =~= before);
        assert(after.last() == pieces@[index as int]@);
        if index > first {
            path.push(0x2f);
        }
        append_bytes(&mut path, &pieces[index]);
        assert(path@ =~= join_seq(after, 0x2f));
        index = index + 1;
    }
    path
}

fn is_blank_name(piece: &[u8]) -> (yes: bool)
    ensures
        yes == is_blank_piece(piece@),
{
    piece.len() == 0 || is_dot(piece)
}

/// Where the pieces from `first` to `end` end without those that stand for no component.
fn trim_tail(pieces: &Vec<Vec<u8>>, first: usize, end: usize) -> (left: usize)
    requires
        first <= end <= pieces@.len(),
    ensures
        first <= left <= end,
        without_tail(views(pieces@).subrange(first as int, end as int)) == views(
            pieces@,
        ).subrange(first as int, left as int),
        left > first ==> without_tail(
            views(pieces@).subrange(first as int, end as int),
        ).drop_last() == views(pieces@).subrange(first as int, left - 1),
{
    let ghost all = views(pieces@);
    let mut left: usize = end;
    while left > first && is_blank_name(&pieces[left - 1])
        invariant
            first <= left <= end <= pieces@.len(),
            all == views(pieces@),
            all.len() == pieces@.len(),
            without_tail(all.subrange(first as int, end as int)) == without_tail(
                all.subrange(first as int, left as int),
            ),
        decreases left,
    {
        assert(all.subrange(first as int, left as int).last() == pieces@[left - 1]@);
        assert(all.subrange(first as int, left as int).drop_last() =~= all.subrange(
            first as int,
            left - 1,
        ));
        left = left - 1;
    }
    if left > first {
        assert(all.subrange(first as int, left as int).last() == pieces@[left - 1]@);
        assert(all.subrange(first as int, left as int).drop_last() =~= all.subrange(
            first as int,
            left - 1,
        ));
    }
    left
}

/// How many pieces stand before the named components.
fn count_lead(path: &[u8], pieces: &Vec<Vec<u8>>) -> (count: usize)
    requires
        views(pieces@) == split_seq(path@, 0x2f),
        pieces@.len() > 0,
    ensures
        count == lead_count(path@),
{
    assert(views(pieces@)[0] == pieces@[0]@);
    if is_absolute(path) || is_dot(&pieces[0]) {
        1
    } else {
        0
    }
}

/// The pieces at the start and those behind them up to `end`, as a path.
fn render_lead(path: &[u8], pieces: &Vec<Vec<u8>>, lead: usize, end: usize) -> (result: Vec<u8>)
    requires
        views(pieces@) == split_seq(path@, 0x2f),
        lead == lead_count(path@),
        lead <= end <= pieces@.len(),
    ensures
        result@ == with_lead(path@, views(pieces@).subrange(lead as int, end as int)),
{
    let ghost all = views(pieces@);
    if is_absolute(path) && end == lead {
        let root: Vec<u8> = vec![0x2fu8];
        assert(root@ =~= seq![0x2fu8]);
        return root;
    }
    assert(all.take(lead as int) + all.subrange(lead as int, end as int) =~= all.subrange(
        0,
        end as int,
    ));
    join_pieces(pieces, 0, end)
}

/// The path without its last component; nothing for the root and for the empty path.
pub fn parent(path: &[u8]) -> (above: Option<Vec<u8>>)
    ensures
        above is Some <==> has_parent(path@),
        above is Some ==> above->0@ == parent_of(path@) && components_of(above->0@)
            == components_of(path@).drop_last(),
{
    let parts = components(path);
    assert(parts@.len() == part_views(parts@).len());
    if parts.len() == 0 {
        return None;
    }
    assert(part_views(parts@).last() == parts@[parts@.len() - 1]@);
    match &parts[parts.len() - 1] {
        Component::Root => {
            return None;
        },
        _ => {},
    }
    proof {
        lemma_parent_components(path@);
        lemma_split_not_empty(path@, 0x2fu8);
        lemma_lead(path@);
    }
    let pieces = split(path, 0x2f);
    let ghost all = views(pieces@);
    assert(all.len() == pieces@.len());
    let lead = count_lead(path, &pieces);
    assert(all.skip(lead as int) =~= all.subrange(lead as int, all.len() as int));
    let end = trim_tail(&pieces, lead, pieces.len());
    if end == lead {
        let none: Vec<u8> = Vec::new();
        assert(none@ =~= Seq::<u8>::empty());
        return Some(none);
    }
    let left = trim_tail(&pieces, lead, end - 1);
    Some(render_lead(path, &pieces, lead, left))
}

/// What is left of a path behind the components of `base`, as it is spelled; nothing
/// where the path does not begin with them.
pub fn strip_prefix_bytes(path: &[u8], base: &[u8]) -> (rest: Option<Vec<u8>>)
    ensures
        rest is Some <==> components_of(base@).is_prefix_of(components_of(path@)),
        rest is Some ==> rest->0@ == rest_of(path@, base@),
{
    if !path_starts_with(path, base) {
        return None;
    }
    let front = components(base);
    assert(front@.len() == part_views(front@).len());
    let count: usize = front.len();
    proof {
        lemma_split_not_empty(path@, 0x2fu8);
        lemma_lead(path@);
    }
    let pieces = split(path, 0x2f);
    let ghost all = views(pieces@);
    assert(all.len() == pieces@.len());
    let lead = count_lead(path, &pieces);
    assert(all.skip(lead as int) =~= all.subrange(lead as int, all.len() as int));
    if count == 0 {
        let end = trim_tail(&pieces, lead, pieces.len());
        return Some(render_lead(path, &pieces, lead, end));
    }
    assert(lead <= count) by {
        assert(components_of(path@).len() >= count);
    }
    let mut left: usize = count - lead;
    let mut start: usize = lead;
    let ghost goal = behind_parts(all.skip(lead as int), count - lead);
    while start < pieces.len() && (left > 0 || is_blank_name(&pieces[start]))
        invariant
            lead <= start <= pieces.len(),
            all == views(pieces@),
            all.len() == pieces@.len(),
            goal == behind_parts(all.skip(start as int), left as int),
        decreases pieces.len() - start,
    {
        assert(all.skip(start as int)[0] == pieces@[start as int]@);
        assert(all.skip(start as int).drop_first() =~= all.skip(start + 1));
        if !is_blank_name(&pieces[start]) {
            left = left - 1;
        }
        start = start + 1;
    }
    if start < pieces.len() {
        assert(all.skip(start as int)[0] == pieces@[start as int]@);
    }
    assert(goal =~= all.skip(start as int));
    assert(all.skip(start as int) =~= all.subrange(start as int, all.len() as int));
    let end = trim_tail(&pieces, start, pieces.len());
    Some(join_pieces(&pieces, start, end))
}

/// The place of a component in the order of components.
pub open spec fn part_rank(part: Part) -> int {
    match part {
        Part::Root => 0,
        Part::Current => 1,
        Part::Up => 2,
        Part::Name(_) => 3,
    }
}

/// The order of components: the root, `.`, `..`, then names by their bytes.
pub open spec fn part_at_most(a: Part, b: Part) -> bool {
    match (a, b) {
        (Part::Name(x), Part::Name(y)) => bytes_at_most(x, y),
        _ => part_rank(a) <= part_rank(b),
    }
}

/// Lexicographic order on components.
pub open spec fn parts_at_most(a: Seq<Part>, b: Seq<Part>) -> bool
    decreases a.len(),
{
    if a.len() == 0 {
        true
    } else if b.len() == 0 {
        false
    } else if a[0] != b[0] {
        part_at_most(a[0], b[0])
    } else {
        parts_at_most(a.drop_first(), b.drop_first())
    }
}

/// The order of paths: by their components.
pub open spec fn path_at_most(a: Seq<u8>, b: Seq<u8>) -> bool {
    parts_at_most(components_of(a), components_of(b))
}

proof fn lemma_parts_total(a: Seq<Part>, b: Seq<Part>)
    ensures
        parts_at_most(a, b) || parts_at_most(b, a),
    decreases a.len(),
{
    if a.len() > 0 && b.len() > 0 {
        if a[0] == b[0] {
            lemma_parts_total(a.drop_first(), b.drop_first());
        } else if a[0] is Name && b[0] is Name {
            lemma_at_most_total(a[0]->Name_0, b[0]->Name_0);
        }
    }
}

proof fn lemma_parts_transitive(a: Seq<Part>, b: Seq<Part>, c: Seq<Part>)
    requires
        parts_at_most(a, b),
        parts_at_most(b, c),
    ensures
        parts_at_most(a, c),
    decreases a.len(),
{
    if a.len() > 0 && b.len() > 0 && c.len() > 0 {
        if a[0] == b[0] && b[0] == c[0] {
            lemma_parts_transitive(a.drop_first(), b.drop_first(), c.drop_first());
        } else if a[0] is Name && b[0] is Name && c[0] is Name {
            let x = a[0]->Name_0;
            let y = b[0]->Name_0;
            let z = c[0]->Name_0;
            lemma_at_most_reflexive(x);
            lemma_at_most_reflexive(y);
            lemma_at_most_reflexive(z);
            lemma_at_most_transitive(x, y, z);
            if x == z {
                lemma_at_most_antisymmetric(x, y);
            }
        }
    }
}

proof fn lemma_parts_antisymmetric(a: Seq<Part>, b: Seq<Part>)
    requires
        parts_at_most(a, b),
        parts_at_most(b, a),
    ensures
        a == b,
    decreases a.len(),
{
    if a.len() > 0 && b.len() > 0 {
        if a[0] != b[0] {
            if a[0] is Name && b[0] is Name {
                lemma_at_most_antisymmetric(a[0]->Name_0, b[0]->Name_0);
            }
        }
        lemma_parts_antisymmetric(a.drop_first(), b.drop_first());
        assert(a =~= seq![a[0]] + a.drop_first());
        assert(b =~= seq![b[0]] + b.drop_first());
    } else {
        assert(a =~= b);
    }
}

/// The order of paths is total and transitive, and only the same path precedes and
/// follows a path.
pub proof fn path_order_laws(a: Seq<u8>, b: Seq<u8>, c: Seq<u8>)
    ensures
        path_at_most(a, b) || path_at_most(b, a),
        path_at_most(a, b) && path_at_most(b, c) ==> path_at_most(a, c),
        path_at_most(a, b) && path_at_most(b, a) ==> components_of(a) == components_of(b),
{
    lemma_parts_total(components_of(a), components_of(b));
    if path_at_most(a, b) && path_at_most(b, c) {
        lemma_parts_transitive(components_of(a), components_of(b), components_of(c));
    }
    if path_at_most(a, b) && path_at_most(b, a) {
        lemma_parts_antisymmetric(components_of(a), components_of(b));
    }
}

fn rank(part: &Component) -> (place: u8)
    ensures
        place == part_rank(part@),
{
    match part {
        Component::Root => 0,
        Component::Current => 1,
        Component::Up => 2,
        Component::Name(_) => 3,
    }
}

/// Whether `left` precedes `right` in the order of paths or is the same path.
pub fn paths_in_order(left: &[u8], right: &[u8]) -> (yes: bool)
    ensures
        yes == path_at_most(left@, right@),
{
    let a = components(left);
    let b = components(right);
    let ghost x = part_views(a@);
    let ghost y = part_views(b@);
    let mut index: usize = 0;
    assert(x.skip(0) =~= x && y.skip(0) =~= y);
    while index < a.len() && index < b.len() && same_component(&a[index], &b[index])
        invariant
            index <= a.len(),
            index <= b.len(),
            x == part_views(a@),
            y == part_views(b@),
            parts_at_most(x, y) == parts_at_most(x.skip(index as int), y.skip(index as int)),
        decreases a.len() - index,
    {
        assert(x.skip(index as int)[0] == a@[index as int]@);
        assert(y.skip(index as int)[0] == b@[index as int]@);
        assert(x.skip(index as int).drop_first() =~= x.skip(index + 1));
        assert(y.skip(index as int).drop_first() =~= y.skip(index + 1));
        index = index + 1;
    }
    if index >= a.len() {
        true
    } else if index >= b.len() {
        false
    } else {
        assert(x.skip(index as int)[0] == a@[index as int]@);
        assert(y.skip(index as int)[0] == b@[index as int]@);
        match (&a[index], &b[index]) {
            (Component::Name(m), Component::Name(n)) => in_order(m, n),
            (m, n) => rank(m) <= rank(n),
        }
    }
}

/// The components after `.` is dropped and every `..` has taken away what stands
/// before it, the root excepted.
pub open spec fn normalized(parts: Seq<Part>) -> Seq<Part>
    decreases parts.len(),
{
    if parts.len() == 0 {
        Seq::empty()
    } else {
        let before = normalized(parts.drop_last());
        match parts.last() {
            Part::Current => before,
            Part::Up => if before.len() > 0 && !(before.last() is Root) {
                before.drop_last()
            } else {
                before
            },
            part => before.push(part),
        }
    }
}

proof fn lemma_normalized_well_formed(parts: Seq<Part>)
    requires
        well_formed(parts),
    ensures
        well_formed(normalized(parts)),
        normalized(parts).len() <= parts.len(),
    decreases parts.len(),
{
    if parts.len() > 0 {
        let before = parts.drop_last();
        assert forall|i: int| 0 <= i < before.len() implies (follows(#[trigger] before[i]) || (i == 0
            && (before[i] is Root || before[i] is Current))) by {
            assert(before[i] == parts[i]);
        }
        lemma_normalized_well_formed(before);
        assert(follows(parts[parts.len() - 1]) || parts.len() == 1);
    }
}

/// The path without `.` and `..`, by its components alone.
pub fn lexical_normalize(path: &[u8]) -> (plain: Vec<u8>)
    ensures
        plain@ == rendered(normalized(components_of(path@))),
        components_of(plain@) == normalized(components_of(path@)),
{
    let mut parts = components(path);
    let ghost all = components_of(path@);
    let mut kept: Vec<Component> = Vec::new();
    let count: usize = parts.len();
    assert(part_views(kept@) =~= Seq::<Part>::empty());
    assert(all.take(0) =~= Seq::<Part>::empty());
    let mut index: usize = 0;
    while index < count
        invariant
            index <= count,
            count == all.len(),
            parts@.len() == count,
            part_views(parts@) == all,
            part_views(kept@) == normalized(all.take(index as int)),
        decreases count - index,
    {
        assert(all.take(index + 1).drop_last() =~= all.take(index as int));
        assert(all.take(index + 1).last() == parts@[index as int]@);
        let ghost before = kept@;
        match &parts[index] {
            Component::Current => {},
            Component::Up => {
                if kept.len() > 0 {
                    assert(part_views(kept@).last() == kept@[kept@.len() - 1]@);
                    let root = match &kept[kept.len() - 1] {
                        Component::Root => true,
                        _ => false,
                    };
                    if !root {
                        let _ = kept.pop();
                        assert(part_views(kept@) =~= part_views(before).drop_last());
                    }
                }
            },
            Component::Root => {
                proof {
                    lemma_part_views_push(before, Component::Root);
                }
                kept.push(Component::Root);
            },
            Component::Name(name) => {
                let part = Component::Name(copy_bytes(name));
                proof {
                    lemma_part_views_push(before, part);
                }
                kept.push(part);
            },
        }
        index = index + 1;
    }
    assert(all.take(index as int) =~= all);
    proof {
        lemma_components_well_formed(path@);
        lemma_normalized_well_formed(all);
        lemma_rendered_components(normalized(all));
        assert(part_views(kept@).take(kept@.len() as int) =~= normalized(all));
    }
    render(&kept, kept.len())
}

/// Of two paths the one comes first that is the start of the other, or has the earlier
/// component in the first place in which they differ: the root before `.`, that before
/// `..`, that before any name, and names in the order of their bytes.
pub proof fn the_first_component_that_differs_decides(a: Seq<u8>, b: Seq<u8>, place: int)
    requires
        0 <= place <= components_of(a).len(),
        place <= components_of(b).len(),
        components_of(a).take(place) == components_of(b).take(place),
        place < components_of(a).len() && place < components_of(b).len() ==> components_of(a)[place]
            != components_of(b)[place],
    ensures
        place == components_of(a).len() ==> path_at_most(a, b),
        place == components_of(b).len() && place < components_of(a).len() ==> !path_at_most(a, b),
        place < components_of(a).len() && place < components_of(b).len() ==> {
            let first = components_of(a)[place];
            let second = components_of(b)[place];
            path_at_most(a, b) == match (first, second) {
                (Part::Name(x), Part::Name(y)) => bytes_at_most(x, y),
                (Part::Name(_), _) => false,
                (_, Part::Name(_)) => true,
                (Part::Root, _) => true,
                (_, Part::Root) => false,
                (Part::Current, _) => true,
                (_, Part::Current) => false,
                (Part::Up, Part::Up) => true,
            }
        },
{
    lemma_first_difference(components_of(a), components_of(b), place);
}

proof fn lemma_first_difference(a: Seq<Part>, b: Seq<Part>, place: int)
    requires
        0 <= place <= a.len(),
        place <= b.len(),
        a.take(place) == b.take(place),
        place < a.len() && place < b.len() ==> a[place] != b[place],
    ensures
        place == a.len() ==> parts_at_most(a, b),
        place == b.len() && place < a.len() ==> !parts_at_most(a, b),
        place < a.len() && place < b.len() ==> parts_at_most(a, b) == part_at_most(
            a[place],
            b[place],
        ),
    decreases place,
{
    if place > 0 {
        assert(a[0] == a.take(place)[0] && b[0] == b.take(place)[0]);
        assert(a.drop_first().take(place - 1) =~= a.take(place).drop_first());
        assert(b.drop_first().take(place - 1) =~= b.take(place).drop_first());
        lemma_first_difference(a.drop_first(), b.drop_first(), place - 1);
    }
}

/// A path that starts at the root and goes through these names has the root and these
/// names as its components, however many separators stand between and behind them.
pub proof fn a_name_more_is_a_component_more(base: Seq<u8>, name: Seq<u8>)
    requires
        base.len() > 0,
        name.len() > 0,
        !name.contains(0x2f),
        name != seq![0x2eu8],
        name != seq![0x2eu8, 0x2eu8],
    ensures
        components_of(base + seq![0x2fu8] + name) == components_of(base).push(Part::Name(name)),
        components_of(base + seq![0x2fu8, 0x2fu8] + name) == components_of(base).push(
            Part::Name(name),
        ),
        components_of(base + seq![0x2fu8]) == components_of(base),
        components_of(base + seq![0x2fu8, 0x2eu8]) == components_of(base),
        components_of(base + seq![0x2fu8, 0x2eu8, 0x2eu8]) == components_of(base).push(Part::Up),
        components_of(seq![0x2fu8]) == seq![Part::Root],
{
    let separated = base.push(0x2f);
    let none = Seq::<u8>::empty();
    lemma_pieces_behind(base, name);
    lemma_pieces_behind(base, none);
    lemma_pieces_behind(base, dot());
    lemma_pieces_behind(base, dot_dot());
    lemma_pieces_behind(separated, name);
    lemma_pieces_behind(base, none);
    assert(base + seq![0x2fu8] + name =~= base.push(0x2f) + name);
    assert(base + seq![0x2fu8, 0x2fu8] + name =~= separated.push(0x2f) + name);
    assert(base + seq![0x2fu8] =~= base.push(0x2f) + none);
    assert(base + seq![0x2fu8, 0x2eu8] =~= base.push(0x2f) + dot());
    assert(base + seq![0x2fu8, 0x2eu8, 0x2eu8] =~= base.push(0x2f) + dot_dot());
    assert(separated =~= base.push(0x2f) + none);
    assert(!dot().contains(0x2f) && !dot_dot().contains(0x2f));
    assert(dot()[0] == 0x2e && dot_dot().len() == 2 && dot().len() == 1);
    assert(components_of(base) + Seq::<Part>::empty() =~= components_of(base));
    let root = seq![0x2fu8];
    lemma_split_concat(none, 0x2fu8, none);
    lemma_split_single(none, 0x2fu8);
    assert(none.push(0x2f) + none =~= root);
    assert(split_seq(root, 0x2f) =~= seq![none, none]);
    reveal_with_fuel(named_parts, 4);
    assert(seq![none, none].drop_last() =~= seq![none]);
    assert(seq![none].drop_last() =~= Seq::<Seq<u8>>::empty());
    assert(named_parts(seq![none, none]) =~= Seq::<Part>::empty());
    assert(components_of(root) =~= seq![Part::Root]);
}

/// What stands behind a separator adds its component, where it has one.
proof fn lemma_pieces_behind(base: Seq<u8>, name: Seq<u8>)
    requires
        base.len() > 0,
        !name.contains(0x2f),
    ensures
        name.len() == 0 || name == dot() ==> components_of(base.push(0x2f) + name) == components_of(
            base,
        ),
        name.len() > 0 && name != dot() ==> components_of(base.push(0x2f) + name) == components_of(
            base,
        ).push(part_of(name)),
{
    let whole = base.push(0x2f) + name;
    lemma_split_concat(base, 0x2fu8, name);
    lemma_split_single(name, 0x2fu8);
    lemma_split_not_empty(base, 0x2fu8);
    let pieces = split_seq(base, 0x2f);
    assert(split_seq(whole, 0x2f) == pieces + seq![name]);
    assert((pieces + seq![name]).drop_last() =~= pieces);
    assert((pieces + seq![name]).last() == name);
    assert(split_seq(whole, 0x2f)[0] == pieces[0]);
    assert(whole[0] == base[0]);
    assert(leading_parts(whole) == leading_parts(base));
    if name.len() == 0 || name == dot() {
        assert(components_of(whole) =~= components_of(base));
    } else {
        assert(components_of(whole) =~= components_of(base).push(part_of(name)));
    }
}

} // verus!
