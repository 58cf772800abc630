//! The links from the home directory into the dotfiles, which Stow makes.

use crate::bytes::{bytes_at_most, copy_bytes, in_order, lemma_at_most_antisymmetric};
use crate::bytes::{lemma_at_most_reflexive, lemma_at_most_total, lemma_at_most_transitive};
use crate::bytes::{split_seq, text_bytes, views};
use crate::config::ResolvedPaths;
use crate::failure::{about, Failure};
use crate::host::{add_bytes, is_executable, no_bytes, Ask, FaultKind, FileKind, Program};
use crate::host::{ProgramView, Reply, Request};
use crate::paths::{absolute, components_of, follows, has_parent, is_absolute, join, join_text};
use crate::paths::{joined, leading_parts, lemma_components_well_formed, lemma_join_components};
use crate::paths::{lemma_parent_components, lexical_normalize, named_parts, normalized, parent};
use crate::paths::{parent_of, path_at_most, path_order_laws, path_starts_with, paths_in_order};
use crate::paths::{same_path, under, Part};
use crate::script::{unanswered, verdict_on, Demand, Verdict};
use crate::text::concat;
use vstd::prelude::*;
use vstd::utf8::encode_utf8;

verus! {

// --------------------------------------------------
// Links
// --------------------------------------------------

/// Where a link leads, by its text alone.
pub open spec fn resolved_link(target: Seq<u8>, link: Seq<u8>) -> Seq<u8> {
    if absolute(link) {
        link
    } else if has_parent(target) {
        joined(parent_of(target), link)
    } else {
        joined(seq![0x2fu8], link)
    }
}

/// Whether a link at `target` leads to `source`, by its text alone.
pub open spec fn leads_to_source(target: Seq<u8>, link: Seq<u8>, source: Seq<u8>) -> bool {
    normalized(components_of(resolved_link(target, link))) == normalized(components_of(source))
}

/// Whether a link at `target` leads to `source`, by its text alone.
pub fn is_correct_stow_symlink(target: &[u8], link: &[u8], source: &[u8]) -> (yes: bool)
    ensures
        yes == leads_to_source(target@, link@, source@),
{
    let resolved = if is_absolute(link) {
        copy_bytes(link)
    } else {
        match parent(target) {
            Some(above) => join(&above, link),
            None => {
                let mut root: Vec<u8> = Vec::new();
                root.push(0x2f);
                assert(root@ =~= seq![0x2fu8]);
                join(&root, link)
            },
        }
    };
    same_path(&lexical_normalize(&resolved), &lexical_normalize(source))
}

/// A link leads to a source where the same components are left of both once `.` and
/// `..` were followed: of the link itself where it starts at the root, and otherwise
/// of the directory that holds it and the link.
pub proof fn a_link_leads_where_its_text_says(target: Seq<u8>, link: Seq<u8>, source: Seq<u8>)
    requires
        target.len() > 0 && target[0] == 0x2f,
        components_of(target).len() > 1,
    ensures
        link.len() > 0 && link[0] == 0x2f ==> (leads_to_source(target, link, source) <==> normalized(
            components_of(link),
        ) == normalized(components_of(source))),
        !(link.len() > 0 && link[0] == 0x2f) ==> (leads_to_source(target, link, source)
            <==> normalized(
            components_of(target).drop_last() + named_parts(split_seq(link, 0x2f)),
        ) == normalized(components_of(source))),
{
    lemma_components_well_formed(target);
    let parts = components_of(target);
    assert(follows(parts.last())) by {
        assert(parts[parts.len() - 1] == parts.last());
        assert(leading_parts(target).len() == 1);
    }
    assert(has_parent(target));
    lemma_parent_components(target);
    if !absolute(link) {
        if parent_of(target).len() == 0 {
            assert(split_seq(parent_of(target), 0x2f) =~= seq![Seq::<u8>::empty()]);
            assert(!absolute(parent_of(target)));
            reveal_with_fuel(named_parts, 3);
            let none = Seq::<u8>::empty();
            assert(parent_of(target) =~= none);
            assert(seq![none].drop_last() =~= Seq::<Seq<u8>>::empty());
            assert(named_parts(seq![none]) =~= Seq::<Part>::empty());
            assert(components_of(parent_of(target)).len() == 0);
        }
        lemma_join_components(parent_of(target), link);
    }
}

/// Names stay, `.` is dropped, `..` takes away the name before it, and above the root
/// there is nothing.
pub proof fn dots_are_followed(parts: Seq<Part>, name: Seq<u8>)
    ensures
        normalized(parts.push(Part::Name(name))) == normalized(parts).push(Part::Name(name)),
        normalized(parts.push(Part::Name(name)).push(Part::Up)) == normalized(parts),
        normalized(parts.push(Part::Current)) == normalized(parts),
        normalized(seq![Part::Root, Part::Up]) == seq![Part::Root],
        normalized(Seq::<Part>::empty()) == Seq::<Part>::empty(),
{
    let longer = parts.push(Part::Name(name));
    reveal_with_fuel(normalized, 3);
    assert(longer.drop_last() =~= parts);
    assert(longer.push(Part::Up).drop_last() =~= longer);
    assert(parts.push(Part::Current).drop_last() =~= parts);
    assert(normalized(parts).push(Part::Name(name)).drop_last() =~= normalized(parts));
    let root = seq![Part::Root];
    assert(seq![Part::Root, Part::Up].drop_last() =~= root);
    assert(root.drop_last() =~= Seq::<Part>::empty());
    assert(normalized(Seq::<Part>::empty()) =~= Seq::<Part>::empty());
    assert(normalized(root) =~= root);
}

// --------------------------------------------------
// Packages
// --------------------------------------------------

/// Whether names are in order.
pub open spec fn names_sorted(names: Seq<Seq<u8>>) -> bool {
    forall|i: int, j: int|
        0 <= i <= j < names.len() ==> #[trigger] bytes_at_most(names[i], names[j])
}

/// Adds a name to names that are in order, at its place.
fn insert_name(names: &mut Vec<Vec<u8>>, name: Vec<u8>)
    requires
        names_sorted(views(old(names)@)),
    ensures
        names_sorted(views(final(names)@)),
        views(final(names)@).to_multiset() == views(old(names)@).to_multiset().insert(name@),
{
    let ghost before = views(names@);
    let mut place: usize = 0;
    while place < names.len() && in_order(&names[place], &name)
        invariant
            place <= names.len(),
            before == views(names@),
            before.len() == names@.len(),
            forall|i: int| 0 <= i < place ==> bytes_at_most(#[trigger] before[i], name@),
        decreases names.len() - place,
    {
        assert(before[place as int] == names@[place as int]@);
        place = place + 1;
    }
    if place < names.len() {
        assert(before[place as int] == names@[place as int]@);
    }
    names.insert(place, name);
    let ghost after = views(names@);
    proof {
        assert(after =~= before.insert(place as int, name@));
        vstd::seq_lib::to_multiset_insert(before, place as int, name@);
        assert forall|i: int, j: int| 0 <= i <= j < after.len() implies #[trigger] bytes_at_most(
            after[i],
            after[j],
        ) by {
            let left = if i < place {
                i
            } else {
                i - 1
            };
            let right = if j < place {
                j
            } else {
                j - 1
            };
            if i == place && j == place {
                lemma_at_most_reflexive(name@);
            } else if i == place {
                lemma_at_most_total(before[place as int], name@);
                assert(bytes_at_most(before[place as int], before[right]));
                lemma_at_most_transitive(name@, before[place as int], before[right]);
            } else if j == place {
                assert(bytes_at_most(before[left], name@));
            } else {
                assert(bytes_at_most(before[left], before[right]));
            }
        }
    }
}

/// The names in order.
pub fn sort_names(names: Vec<Vec<u8>>) -> (sorted: Vec<Vec<u8>>)
    ensures
        names_sorted(views(sorted@)),
        views(sorted@).to_multiset() == views(names@).to_multiset(),
        sorted@.len() == names@.len(),
{
    let mut sorted: Vec<Vec<u8>> = Vec::new();
    let ghost all = views(names@);
    let mut index: usize = 0;
    proof {
        assert(views(sorted@) =~= all.take(0));
    }
    while index < names.len()
        invariant
            index <= names.len(),
            all == views(names@),
            all.len() == names@.len(),
            names_sorted(views(sorted@)),
            views(sorted@).to_multiset() == all.take(index as int).to_multiset(),
        decreases names.len() - index,
    {
        let name = copy_bytes(&names[index]);
        insert_name(&mut sorted, name);
        proof {
            assert(all.take(index + 1) =~= all.take(index as int).push(name@));
            vstd::seq_lib::to_multiset_build(all.take(index as int), name@);
        }
        index = index + 1;
    }
    proof {
        assert(all.take(index as int) =~= all);
        views(sorted@).to_multiset_ensures();
        all.to_multiset_ensures();
        assert(views(sorted@).len() == all.len());
    }
    sorted
}

/// There is one order: names in order are determined by which names they are.
pub proof fn one_order(a: Seq<Seq<u8>>, b: Seq<Seq<u8>>)
    requires
        names_sorted(a),
        names_sorted(b),
        a.to_multiset() == b.to_multiset(),
    ensures
        a == b,
    decreases a.len(),
{
    a.to_multiset_ensures();
    b.to_multiset_ensures();
    assert(a.len() == b.len());
    if a.len() > 0 {
        let x = a.last();
        let y = b.last();
        assert(a[a.len() - 1] == x && b[b.len() - 1] == y);
        assert(a.contains(x) && b.contains(y));
        assert(b.to_multiset().count(x) > 0);
        assert(a.to_multiset().count(y) > 0);
        assert(b.contains(x) && a.contains(y));
        let i = choose|i: int| 0 <= i < b.len() && b[i] == x;
        let j = choose|j: int| 0 <= j < a.len() && a[j] == y;
        assert(bytes_at_most(b[i], b[b.len() - 1]));
        assert(bytes_at_most(a[j], a[a.len() - 1]));
        lemma_at_most_antisymmetric(x, y);
        assert(a =~= a.drop_last().push(x));
        assert(b =~= b.drop_last().push(x));
        vstd::seq_lib::to_multiset_build(a.drop_last(), x);
        vstd::seq_lib::to_multiset_build(b.drop_last(), x);
        assert(a.drop_last().to_multiset() =~= a.to_multiset().remove(x));
        assert(b.drop_last().to_multiset() =~= b.to_multiset().remove(x));
        assert forall|i: int, j: int| 0 <= i <= j < a.drop_last().len() implies #[trigger]
            bytes_at_most(a.drop_last()[i], a.drop_last()[j]) by {
            assert(bytes_at_most(a[i], a[j]));
        }
        assert forall|i: int, j: int| 0 <= i <= j < b.drop_last().len() implies #[trigger]
            bytes_at_most(b.drop_last()[i], b.drop_last()[j]) by {
            assert(bytes_at_most(b[i], b[j]));
        }
        one_order(a.drop_last(), b.drop_last());
    } else {
        assert(a =~= b);
    }
}

/// How far the search for packages has come.
#[derive(Debug)]
pub enum PackagePhase {
    /// Stow is looked at.
    Checking,
    /// The dotfiles are listed.
    Listing,
    /// The entry with this number is looked at.
    Inspecting { names: Vec<Vec<u8>>, index: usize, found: Vec<Vec<u8>> },
    /// The packages, in order.
    Completed(Vec<Vec<u8>>),
    Failed(Failure),
}

/// The search for packages: the directories in the dotfiles.
#[derive(Debug)]
pub struct PackageScan {
    pub stow: Vec<u8>,
    pub dotfiles: Vec<u8>,
    pub phase: PackagePhase,
}

impl PackageScan {
    /// Whether nothing was looked at yet; the path of Stow has to be absolute.
    pub open spec fn begins(&self, pixi_home: Seq<u8>, dotfiles: Seq<u8>) -> bool {
        &&& self.stow@ == under(pixi_home, "bin/stow"@)
        &&& self.dotfiles@ == dotfiles
        &&& absolute(self.stow@) ==> self.phase is Checking
        &&& !absolute(self.stow@) ==> self.phase is Failed && self.phase->Failed_0.says(
            about("Stow path must be absolute: "@, self.stow@),
        )
    }
}

/// Begins to search for packages.
pub fn stow_packages(paths: &ResolvedPaths, dotfiles: &[u8]) -> (scan: PackageScan)
    ensures
        scan.begins(paths.pixi_home@, dotfiles@),
{
    let stow = join_text(&paths.pixi_home, "bin/stow");
    if !is_absolute(&stow) {
        let failure = Failure::at("Stow path must be absolute: ", &stow);
        return PackageScan {
            stow,
            dotfiles: copy_bytes(dotfiles),
            phase: PackagePhase::Failed(failure),
        };
    }
    PackageScan { stow, dotfiles: copy_bytes(dotfiles), phase: PackagePhase::Checking }
}

/// What the packages are, once every entry was looked at.
pub open spec fn packages_are(found: Seq<Seq<u8>>, next: PackagePhase) -> bool {
    if found.len() == 0 {
        next is Failed && next->Failed_0.says("dotfiles contains no Stow packages"@)
    } else {
        &&& next is Completed
        &&& names_sorted(views(next->Completed_0@))
        &&& views(next->Completed_0@).to_multiset() == found.to_multiset()
    }
}

impl PackageScan {
    pub open spec fn asks(&self) -> Ask {
        match self.phase {
            PackagePhase::Checking => Ask::Inspect(self.stow@),
            PackagePhase::Listing => Ask::List(self.dotfiles@),
            PackagePhase::Inspecting { names, index, .. } => if index < names@.len() {
                Ask::Inspect(joined(self.dotfiles@, names@[index as int]@))
            } else {
                Ask::Nothing
            },
            PackagePhase::Completed(_) => Ask::Nothing,
            PackagePhase::Failed(_) => Ask::Nothing,
        }
    }

    /// What follows once the first entries were looked at.
    pub open spec fn after_entries(
        names: Seq<Seq<u8>>,
        index: int,
        found: Seq<Seq<u8>>,
        next: PackagePhase,
    ) -> bool {
        if index < names.len() {
            next is Inspecting && views(next->names@) == names && next->index == index && views(
                next->found@,
            ) == found
        } else {
            packages_are(found, next)
        }
    }

    /// What the search does with a reply.
    pub open spec fn follows(&self, reply: Reply, next: PackagePhase) -> bool {
        match self.phase {
            PackagePhase::Checking => match verdict_on(Demand::Executable, None, reply) {
                Verdict::Accepted => next is Listing,
                Verdict::Refused(Some(fault)) => next is Failed && next->Failed_0.says(fault.text@),
                _ => next is Failed && next->Failed_0.says(
                    about("Stow must be a regular executable: "@, self.stow@),
                ),
            },
            PackagePhase::Listing => match reply {
                Reply::Names(names) => PackageScan::after_entries(
                    views(names@),
                    0,
                    Seq::empty(),
                    next,
                ),
                Reply::Failed(fault) => next is Failed && next->Failed_0.says(fault.text@),
                _ => next is Failed && next->Failed_0.says(unanswered()),
            },
            PackagePhase::Inspecting { names, index, found } => if index < names@.len() {
                match reply {
                    Reply::Found(entry) => PackageScan::after_entries(
                        views(names@),
                        index + 1,
                        if entry.kind == FileKind::Directory {
                            views(found@).push(names@[index as int]@)
                        } else {
                            views(found@)
                        },
                        next,
                    ),
                    Reply::Failed(fault) => next is Failed && next->Failed_0.says(fault.text@),
                    _ => next is Failed && next->Failed_0.says(unanswered()),
                }
            } else {
                packages_are(views(found@), next)
            },
            _ => next == self.phase,
        }
    }

    pub fn request(&self) -> (request: Request)
        ensures
            request@ == self.asks(),
    {
        match &self.phase {
            PackagePhase::Checking => Request::Inspect(copy_bytes(&self.stow)),
            PackagePhase::Listing => Request::List(copy_bytes(&self.dotfiles)),
            PackagePhase::Inspecting { names, index, .. } => if *index < names.len() {
                Request::Inspect(join(&self.dotfiles, &names[*index]))
            } else {
                Request::Nothing
            },
            PackagePhase::Completed(_) => Request::Nothing,
            PackagePhase::Failed(_) => Request::Nothing,
        }
    }

    /// Goes on with a reply.
    pub fn advance(self, reply: Reply) -> (next: PackageScan)
        ensures
            next.stow == self.stow,
            next.dotfiles == self.dotfiles,
            self.follows(reply, next.phase),
    {
        let PackageScan { stow, dotfiles, phase } = self;
        let next = match phase {
            PackagePhase::Checking => match reply {
                Reply::Found(entry) => if is_executable(&entry) {
                    PackagePhase::Listing
                } else {
                    PackagePhase::Failed(Failure::at("Stow must be a regular executable: ", &stow))
                },
                Reply::Failed(fault) => PackagePhase::Failed(Failure::plain(&fault.text)),
                _ => PackagePhase::Failed(Failure::at("Stow must be a regular executable: ", &stow)),
            },
            PackagePhase::Listing => match reply {
                Reply::Names(names) => {
                    let found = no_bytes();
                    if names.len() > 0 {
                        PackagePhase::Inspecting { names, index: 0, found }
                    } else {
                        finish_packages(found)
                    }
                },
                Reply::Failed(fault) => PackagePhase::Failed(Failure::plain(&fault.text)),
                _ => PackagePhase::Failed(Failure::plain("unexpected reply")),
            },
            PackagePhase::Inspecting { names, index, found } => {
                let mut found = found;
                if index < names.len() {
                    match reply {
                        Reply::Found(entry) => {
                            if entry.kind == FileKind::Directory {
                                add_bytes(&mut found, copy_bytes(&names[index]));
                            }
                            if index + 1 < names.len() {
                                PackagePhase::Inspecting { names, index: index + 1, found }
                            } else {
                                finish_packages(found)
                            }
                        },
                        Reply::Failed(fault) => PackagePhase::Failed(Failure::plain(&fault.text)),
                        _ => PackagePhase::Failed(Failure::plain("unexpected reply")),
                    }
                } else {
                    finish_packages(found)
                }
            },
            PackagePhase::Completed(packages) => PackagePhase::Completed(packages),
            PackagePhase::Failed(failure) => PackagePhase::Failed(failure),
        };
        PackageScan { stow, dotfiles, phase: next }
    }
}

fn finish_packages(found: Vec<Vec<u8>>) -> (phase: PackagePhase)
    ensures
        packages_are(views(found@), phase),
{
    assert(views(found@).len() == found@.len());
    if found.len() == 0 {
        return PackagePhase::Failed(Failure::plain("dotfiles contains no Stow packages"));
    }
    PackagePhase::Completed(sort_names(found))
}

// --------------------------------------------------
// Conflicts
// --------------------------------------------------

/// The paths with one more, which is left out where it is there already. Paths in
/// order stay in order.
pub open spec fn with_path(paths: Seq<Seq<u8>>, path: Seq<u8>) -> Seq<Seq<u8>>
    decreases paths.len(),
{
    if paths.len() == 0 {
        seq![path]
    } else if components_of(paths.last()) == components_of(path) {
        paths
    } else if path_at_most(paths.last(), path) {
        paths.push(path)
    } else {
        with_path(paths.drop_last(), path).push(paths.last())
    }
}

/// Whether paths are in order and no path occurs twice.
pub open spec fn paths_ascend(paths: Seq<Seq<u8>>) -> bool {
    forall|i: int, j: int|
        0 <= i < j < paths.len() ==> #[trigger] path_at_most(paths[i], paths[j]) && components_of(
            paths[i],
        ) != components_of(paths[j])
}

/// Whether a path is among others.
pub open spec fn has_path(paths: Seq<Seq<u8>>, path: Seq<u8>) -> bool {
    exists|i: int|
        0 <= i < paths.len() && components_of(#[trigger] paths[i]) == components_of(path)
}

proof fn lemma_ascend_push(paths: Seq<Seq<u8>>, path: Seq<u8>)
    requires
        paths_ascend(paths),
        paths.len() > 0,
        path_at_most(paths.last(), path),
        components_of(paths.last()) != components_of(path),
    ensures
        paths_ascend(paths.push(path)),
{
    let longer = paths.push(path);
    let last = paths.last();
    assert forall|i: int, j: int| 0 <= i < j < longer.len() implies #[trigger] path_at_most(
        longer[i],
        longer[j],
    ) && components_of(longer[i]) != components_of(longer[j]) by {
        if j < paths.len() {
            assert(path_at_most(paths[i], paths[j]));
        } else if i < paths.len() - 1 {
            assert(path_at_most(paths[i], paths[paths.len() - 1]));
            path_order_laws(paths[i], last, path);
            if components_of(paths[i]) == components_of(path) {
                path_order_laws(last, path, paths[i]);
                path_order_laws(paths[i], last, last);
                assert(path_at_most(last, paths[i]));
            }
        }
    }
}

/// Adding a path keeps the order, and afterwards the path is there, as well as those
/// that were there before, and nothing else.
pub proof fn paths_stay_in_order(paths: Seq<Seq<u8>>, path: Seq<u8>, other: Seq<u8>)
    requires
        paths_ascend(paths),
    ensures
        paths_ascend(with_path(paths, path)),
        has_path(with_path(paths, path), other) <==> has_path(paths, other) || components_of(other)
            == components_of(path),
    decreases paths.len(),
{
    let longer = with_path(paths, path);
    if paths.len() == 0 {
        assert(longer[0] == path);
        assert(paths_ascend(longer));
    } else {
        let front = paths.drop_last();
        let last = paths.last();
        assert(paths =~= front.push(last));
        assert forall|i: int, j: int| 0 <= i < j < front.len() implies #[trigger] path_at_most(
            front[i],
            front[j],
        ) && components_of(front[i]) != components_of(front[j]) by {
            assert(path_at_most(paths[i], paths[j]));
        }
        if components_of(last) == components_of(path) {
            assert(components_of(paths[paths.len() - 1]) == components_of(path));
            assert(longer == paths);
        } else if path_at_most(last, path) {
            lemma_ascend_push(paths, path);
            assert(longer == paths.push(path));
            assert(paths_ascend(longer));
            assert forall|k: int| 0 <= k < paths.len() implies #[trigger] longer[k] == paths[k] by {
            }
            assert(longer[paths.len() as int] == path);
            if has_path(longer, other) {
                let k = choose|k: int|
                    0 <= k < longer.len() && components_of(#[trigger] longer[k]) == components_of(
                        other,
                    );
                if k < paths.len() {
                    assert(components_of(paths[k]) == components_of(other));
                }
            }
            if has_path(paths, other) {
                let k = choose|k: int|
                    0 <= k < paths.len() && components_of(#[trigger] paths[k]) == components_of(
                        other,
                    );
                assert(components_of(longer[k]) == components_of(other));
            }
        } else {
            let shorter = with_path(front, path);
            paths_stay_in_order(front, path, other);
            assert(longer =~= shorter.push(last));
            assert forall|k: int| 0 <= k < shorter.len() implies path_at_most(
                #[trigger] shorter[k],
                last,
            ) && components_of(shorter[k]) != components_of(last) by {
                paths_stay_in_order(front, path, shorter[k]);
                assert(has_path(shorter, shorter[k]));
                if has_path(front, shorter[k]) {
                    let m = choose|m: int|
                        0 <= m < front.len() && components_of(#[trigger] front[m])
                            == components_of(shorter[k]);
                    assert(front[m] == paths[m]);
                    assert(path_at_most(paths[m], paths[paths.len() - 1]));
                } else {
                    path_order_laws(last, path, path);
                }
            }
            assert forall|i: int, j: int| 0 <= i < j < longer.len() implies #[trigger] path_at_most(
                longer[i],
                longer[j],
            ) && components_of(longer[i]) != components_of(longer[j]) by {
                if j < shorter.len() {
                    assert(path_at_most(shorter[i], shorter[j]));
                } else {
                    assert(longer[i] == shorter[i]);
                }
            }
            assert(paths_ascend(longer));
            if has_path(longer, other) {
                let k = choose|k: int|
                    0 <= k < longer.len() && components_of(#[trigger] longer[k]) == components_of(
                        other,
                    );
                if k < shorter.len() {
                    assert(components_of(shorter[k]) == components_of(other));
                    if has_path(front, other) {
                        let m = choose|m: int|
                            0 <= m < front.len() && components_of(#[trigger] front[m])
                                == components_of(other);
                        assert(components_of(paths[m]) == components_of(other));
                    }
                } else {
                    assert(components_of(paths[paths.len() - 1]) == components_of(other));
                }
            }
            if has_path(paths, other) {
                let k = choose|k: int|
                    0 <= k < paths.len() && components_of(#[trigger] paths[k]) == components_of(
                        other,
                    );
                if k < front.len() {
                    assert(components_of(front[k]) == components_of(other));
                    let m = choose|m: int|
                        0 <= m < shorter.len() && components_of(#[trigger] shorter[m])
                            == components_of(other);
                    assert(components_of(longer[m]) == components_of(other));
                } else {
                    assert(components_of(longer[longer.len() - 1]) == components_of(other));
                }
            } else if components_of(other) == components_of(path) {
                let m = choose|m: int|
                    0 <= m < shorter.len() && components_of(#[trigger] shorter[m])
                        == components_of(other);
                assert(components_of(longer[m]) == components_of(other));
            }
        }
    }
}

proof fn lemma_with_path_splits(paths: Seq<Seq<u8>>, path: Seq<u8>, count: int)
    requires
        0 <= count <= paths.len(),
        forall|i: int|
            count <= i < paths.len() ==> components_of(#[trigger] paths[i]) != components_of(path)
                && !path_at_most(paths[i], path),
    ensures
        with_path(paths, path) == with_path(paths.take(count), path) + paths.skip(count),
    decreases paths.len() - count,
{
    if count == paths.len() {
        assert(paths.take(count) =~= paths);
        assert(with_path(paths, path) + paths.skip(count) =~= with_path(paths, path));
    } else {
        let front = paths.drop_last();
        assert forall|i: int| count <= i < front.len() implies components_of(#[trigger] front[i])
            != components_of(path) && !path_at_most(front[i], path) by {
            assert(front[i] == paths[i]);
        }
        lemma_with_path_splits_front(paths, path, count);
    }
}

proof fn lemma_with_path_splits_front(paths: Seq<Seq<u8>>, path: Seq<u8>, count: int)
    requires
        0 <= count < paths.len(),
        forall|i: int|
            count <= i < paths.len() ==> components_of(#[trigger] paths[i]) != components_of(path)
                && !path_at_most(paths[i], path),
    ensures
        with_path(paths, path) == with_path(paths.take(count), path) + paths.skip(count),
    decreases paths.len(),
{
    let front = paths.drop_last();
    assert(paths[paths.len() - 1] == paths.last());
    assert(with_path(paths, path) == with_path(front, path).push(paths.last()));
    if count == front.len() {
        assert(paths.take(count) =~= front);
        assert(paths.skip(count) =~= seq![paths.last()]);
        assert(with_path(front, path) + seq![paths.last()] =~= with_path(front, path).push(
            paths.last(),
        ));
    } else {
        assert forall|i: int| count <= i < front.len() implies components_of(#[trigger] front[i])
            != components_of(path) && !path_at_most(front[i], path) by {
            assert(front[i] == paths[i]);
        }
        lemma_with_path_splits_front(front, path, count);
        assert(front.take(count) =~= paths.take(count));
        assert(front.skip(count).push(paths.last()) =~= paths.skip(count));
        assert(with_path(paths, path) =~= with_path(paths.take(count), path) + paths.skip(count));
    }
}

/// Adds a path, where it is not there already, at its place.
fn insert_path(paths: &mut Vec<Vec<u8>>, path: Vec<u8>)
    ensures
        views(final(paths)@) == with_path(views(old(paths)@), path@),
{
    let ghost before = views(paths@);
    let mut place: usize = paths.len();
    while place > 0 && !paths_in_order(&paths[place - 1], &path) && !same_path(
        &paths[place - 1],
        &path,
    )
        invariant
            place <= paths.len(),
            before == views(paths@),
            before.len() == paths@.len(),
            forall|i: int|
                place <= i < before.len() ==> components_of(#[trigger] before[i])
                    != components_of(path@) && !path_at_most(before[i], path@),
        decreases place,
    {
        assert(before[place - 1] == paths@[place - 1]@);
        place = place - 1;
    }
    proof {
        lemma_with_path_splits(before, path@, place as int);
    }
    if place > 0 {
        assert(before[place - 1] == paths@[place - 1]@);
        assert(before.take(place as int).last() == before[place - 1]);
        if same_path(&paths[place - 1], &path) {
            assert(before.take(place as int) + before.skip(place as int) =~= before);
            return;
        }
    } else {
        assert(before.take(0) =~= Seq::<Seq<u8>>::empty());
    }
    let ghost added = path@;
    paths.insert(place, path);
    assert(views(paths@) =~= before.take(place as int).push(added) + before.skip(place as int));
}

/// Something that is still to be looked at.
#[derive(Debug)]
pub enum Task {
    /// A directory whose entries are to be listed, and its counterpart.
    List { source: Vec<u8>, target: Vec<u8> },
    /// An entry, and its counterpart.
    Visit { source: Vec<u8>, target: Vec<u8> },
}

/// Something that is still to be looked at.
pub enum Errand {
    List { source: Seq<u8>, target: Seq<u8> },
    Visit { source: Seq<u8>, target: Seq<u8> },
}

impl View for Task {
    type V = Errand;

    open spec fn view(&self) -> Errand {
        match self {
            Task::List { source, target } => Errand::List { source: source@, target: target@ },
            Task::Visit { source, target } => Errand::Visit { source: source@, target: target@ },
        }
    }
}

/// What is still to be looked at.
pub open spec fn errands(tasks: Seq<Task>) -> Seq<Errand> {
    tasks.map_values(|task: Task| task@)
}

/// The entries of a directory as errands, the first one last: it is the next.
pub open spec fn visits(source: Seq<u8>, target: Seq<u8>, names: Seq<Seq<u8>>) -> Seq<Errand>
    decreases names.len(),
{
    if names.len() == 0 {
        Seq::empty()
    } else {
        visits(source, target, names.drop_first()).push(
            Errand::Visit {
                source: joined(source, names[0]),
                target: joined(target, names[0]),
            },
        )
    }
}

/// Adds the entries of a directory to what is still to be looked at.
pub fn add_visits(tasks: &mut Vec<Task>, source: &[u8], target: &[u8], names: &Vec<Vec<u8>>)
    ensures
        errands(final(tasks)@) == errands(old(tasks)@) + visits(source@, target@, views(names@)),
{
    let ghost start = errands(tasks@);
    let ghost all = views(names@);
    let mut index: usize = names.len();
    assert(all.skip(index as int) =~= Seq::<Seq<u8>>::empty());
    assert(errands(tasks@) =~= start + visits(source@, target@, all.skip(index as int)));
    while index > 0
        invariant
            index <= names.len(),
            all == views(names@),
            all.len() == names@.len(),
            errands(tasks@) == start + visits(source@, target@, all.skip(index as int)),
        decreases index,
    {
        index = index - 1;
        let name = &names[index];
        let task = Task::Visit { source: join(source, name), target: join(target, name) };
        let ghost before = tasks@;
        tasks.push(task);
        assert(errands(tasks@) =~= errands(before).push(task@));
        assert(all.skip(index as int).drop_first() =~= all.skip(index + 1));
        assert(all.skip(index as int)[0] == all[index as int]);
        assert(errands(tasks@) =~= start + visits(source@, target@, all.skip(index as int)));
    }
    assert(all.skip(0) =~= all);
}

/// What the search for conflicts is at.
#[derive(Debug)]
pub enum ConflictPhase {
    /// A directory is listed.
    Listing { source: Vec<u8>, target: Vec<u8> },
    /// An entry of a package is looked at.
    Source { source: Vec<u8>, target: Vec<u8> },
    /// Its counterpart in the home directory is looked at.
    Target { source: Vec<u8>, target: Vec<u8>, kind: FileKind },
    /// The link that stands there is read.
    Linking { source: Vec<u8>, target: Vec<u8> },
    Completed,
    Failed(Failure),
}

/// What the search for conflicts is at.
pub enum Stage {
    Listing { source: Seq<u8>, target: Seq<u8> },
    Source { source: Seq<u8>, target: Seq<u8> },
    Target { source: Seq<u8>, target: Seq<u8>, kind: FileKind },
    Linking { source: Seq<u8>, target: Seq<u8> },
    Completed,
    Failed(Seq<char>),
}

impl View for ConflictPhase {
    type V = Stage;

    open spec fn view(&self) -> Stage {
        match self {
            ConflictPhase::Listing { source, target } => Stage::Listing {
                source: source@,
                target: target@,
            },
            ConflictPhase::Source { source, target } => Stage::Source {
                source: source@,
                target: target@,
            },
            ConflictPhase::Target { source, target, kind } => Stage::Target {
                source: source@,
                target: target@,
                kind: *kind,
            },
            ConflictPhase::Linking { source, target } => Stage::Linking {
                source: source@,
                target: target@,
            },
            ConflictPhase::Completed => Stage::Completed,
            ConflictPhase::Failed(failure) => Stage::Failed(failure.line()),
        }
    }
}

/// The search for what stands in the way of Stow.
#[derive(Debug)]
pub struct ConflictScan {
    pub home: Vec<u8>,
    pub pending: Vec<Task>,
    /// The conflicts that were found, in order.
    pub conflicts: Vec<Vec<u8>>,
    pub phase: ConflictPhase,
}

/// The state of the search.
pub struct Search {
    pub home: Seq<u8>,
    pub pending: Seq<Errand>,
    pub conflicts: Seq<Seq<u8>>,
    pub stage: Stage,
}

impl View for ConflictScan {
    type V = Search;

    open spec fn view(&self) -> Search {
        Search {
            home: self.home@,
            pending: errands(self.pending@),
            conflicts: views(self.conflicts@),
            stage: self.phase@,
        }
    }
}

impl Search {
    /// The search goes on with what is still to be looked at. Nothing outside the home
    /// directory is looked at.
    pub open spec fn resumed(self) -> Search {
        if self.pending.len() == 0 {
            Search { stage: Stage::Completed, ..self }
        } else {
            let rest = self.pending.drop_last();
            match self.pending.last() {
                Errand::List { source, target } => Search {
                    pending: rest,
                    stage: Stage::Listing { source, target },
                    ..self
                },
                Errand::Visit { source, target } => if components_of(self.home).is_prefix_of(
                    components_of(target),
                ) {
                    Search { pending: rest, stage: Stage::Source { source, target }, ..self }
                } else {
                    Search {
                        pending: rest,
                        stage: Stage::Failed(about("Stow target escapes HOME: "@, target)),
                        ..self
                    }
                },
            }
        }
    }

    /// The search has failed.
    pub open spec fn failed(self, words: Seq<char>) -> Search {
        Search { stage: Stage::Failed(words), ..self }
    }

    /// The search has found a conflict and goes on.
    pub open spec fn conflicting(self, path: Seq<u8>) -> Search {
        Search { conflicts: with_path(self.conflicts, path), ..self }.resumed()
    }

    pub open spec fn asks(self) -> Ask {
        match self.stage {
            Stage::Listing { source, .. } => Ask::List(source),
            Stage::Source { source, .. } => Ask::Inspect(source),
            Stage::Target { target, .. } => Ask::Inspect(target),
            Stage::Linking { target, .. } => Ask::ReadLink(target),
            Stage::Completed => Ask::Nothing,
            Stage::Failed(_) => Ask::Nothing,
        }
    }

    /// The search after a reply. A directory is searched further where a directory
    /// stands in its place; a file or a link is in its place where a link leads to it;
    /// whatever else stands there is a conflict, and nothing is none.
    pub open spec fn after(self, reply: Reply) -> Search {
        match self.stage {
            Stage::Listing { source, target } => match reply {
                Reply::Names(names) => Search {
                    pending: self.pending + visits(source, target, views(names@)),
                    ..self
                }.resumed(),
                Reply::Failed(fault) => self.failed(fault.text@),
                _ => self.failed(unanswered()),
            },
            Stage::Source { source, target } => match reply {
                Reply::Found(entry) => if entry.kind == FileKind::Other {
                    self.failed(about("unsupported Stow source type: "@, source))
                } else {
                    Search { stage: Stage::Target { source, target, kind: entry.kind }, ..self }
                },
                Reply::Failed(fault) => self.failed(fault.text@),
                _ => self.failed(unanswered()),
            },
            Stage::Target { source, target, kind } => match reply {
                Reply::Found(entry) => if kind == FileKind::Directory {
                    if entry.kind == FileKind::Directory {
                        Search { stage: Stage::Listing { source, target }, ..self }
                    } else {
                        self.conflicting(target)
                    }
                } else if entry.kind == FileKind::Symlink {
                    Search { stage: Stage::Linking { source, target }, ..self }
                } else {
                    self.conflicting(target)
                },
                Reply::Failed(fault) => if fault.kind == FaultKind::NotFound {
                    self.resumed()
                } else {
                    self.failed(fault.text@)
                },
                _ => self.failed(unanswered()),
            },
            Stage::Linking { source, target } => match reply {
                Reply::Contents(link) => if leads_to_source(target, link@, source) {
                    self.resumed()
                } else {
                    self.conflicting(target)
                },
                Reply::Failed(fault) => self.failed(fault.text@),
                _ => self.failed(unanswered()),
            },
            Stage::Completed => self,
            Stage::Failed(_) => self,
        }
    }
}

/// The packages as errands, the first one last: it is the next.
pub open spec fn package_errands(dotfiles: Seq<u8>, home: Seq<u8>, packages: Seq<Seq<u8>>) -> Seq<
    Errand,
>
    decreases packages.len(),
{
    if packages.len() == 0 {
        Seq::empty()
    } else {
        package_errands(dotfiles, home, packages.drop_first()).push(
            Errand::List { source: joined(dotfiles, packages[0]), target: home },
        )
    }
}

/// A search for what stands in the way of these packages that has not begun.
pub open spec fn fresh_search(dotfiles: Seq<u8>, home: Seq<u8>, packages: Seq<Seq<u8>>) -> Search {
    Search {
        home,
        pending: package_errands(dotfiles, home, packages),
        conflicts: Seq::empty(),
        stage: Stage::Completed,
    }.resumed()
}

/// Begins to search for what stands in the way of these packages.
pub fn stow_conflicts(dotfiles: &[u8], home: &[u8], packages: &Vec<Vec<u8>>) -> (scan: ConflictScan)
    ensures
        scan@ == fresh_search(dotfiles@, home@, views(packages@)),
{
    let mut pending: Vec<Task> = Vec::new();
    let ghost all = views(packages@);
    let mut index: usize = packages.len();
    assert(all.skip(index as int) =~= Seq::<Seq<u8>>::empty());
    assert(errands(pending@) =~= package_errands(dotfiles@, home@, all.skip(index as int)));
    while index > 0
        invariant
            index <= packages.len(),
            all == views(packages@),
            all.len() == packages@.len(),
            errands(pending@) == package_errands(dotfiles@, home@, all.skip(index as int)),
        decreases index,
    {
        index = index - 1;
        let task = Task::List { source: join(dotfiles, &packages[index]), target: copy_bytes(home) };
        let ghost before = pending@;
        pending.push(task);
        assert(errands(pending@) =~= errands(before).push(task@));
        assert(all.skip(index as int).drop_first() =~= all.skip(index + 1));
        assert(all.skip(index as int)[0] == all[index as int]);
    }
    assert(all.skip(0) =~= all);
    resume(copy_bytes(home), pending, no_bytes())
}

fn resume(home: Vec<u8>, pending: Vec<Task>, conflicts: Vec<Vec<u8>>) -> (scan: ConflictScan)
    ensures
        forall|stage: Stage|
            scan@ == #[trigger] (Search {
                home: home@,
                pending: errands(pending@),
                conflicts: views(conflicts@),
                stage,
            }).resumed(),
{
    let mut pending = pending;
    let ghost before = pending@;
    match pending.pop() {
        None => {
            assert(errands(before) =~= Seq::<Errand>::empty());
            ConflictScan { home, pending, conflicts, phase: ConflictPhase::Completed }
        },
        Some(task) => {
            assert(errands(pending@) =~= errands(before).drop_last());
            assert(errands(before).last() == task@);
            match task {
                Task::List { source, target } => ConflictScan {
                    home,
                    pending,
                    conflicts,
                    phase: ConflictPhase::Listing { source, target },
                },
                Task::Visit { source, target } => if path_starts_with(&target, &home) {
                    ConflictScan {
                        home,
                        pending,
                        conflicts,
                        phase: ConflictPhase::Source { source, target },
                    }
                } else {
                    let failure = Failure::at("Stow target escapes HOME: ", &target);
                    ConflictScan { home, pending, conflicts, phase: ConflictPhase::Failed(failure) }
                },
            }
        },
    }
}

impl ConflictScan {
    pub fn request(&self) -> (request: Request)
        ensures
            request@ == self@.asks(),
    {
        match &self.phase {
            ConflictPhase::Listing { source, .. } => Request::List(copy_bytes(source)),
            ConflictPhase::Source { source, .. } => Request::Inspect(copy_bytes(source)),
            ConflictPhase::Target { target, .. } => Request::Inspect(copy_bytes(target)),
            ConflictPhase::Linking { target, .. } => Request::ReadLink(copy_bytes(target)),
            ConflictPhase::Completed => Request::Nothing,
            ConflictPhase::Failed(_) => Request::Nothing,
        }
    }

    /// Goes on with a reply.
    pub fn advance(self, reply: Reply) -> (next: ConflictScan)
        ensures
            next@ == self@.after(reply),
    {
        let ghost search = self@;
        let ConflictScan { home, pending, conflicts, phase } = self;
        match phase {
            ConflictPhase::Listing { source, target } => match reply {
                Reply::Names(names) => {
                    let mut pending = pending;
                    add_visits(&mut pending, &source, &target, &names);
                    let next = resume(home, pending, conflicts);
                    assert(next@ == (Search {
                        pending: search.pending + visits(source@, target@, views(names@)),
                        ..search
                    }).resumed());
                    next
                },
                Reply::Failed(fault) => ConflictScan {
                    home,
                    pending,
                    conflicts,
                    phase: ConflictPhase::Failed(Failure::plain(&fault.text)),
                },
                _ => ConflictScan {
                    home,
                    pending,
                    conflicts,
                    phase: ConflictPhase::Failed(Failure::plain("unexpected reply")),
                },
            },
            ConflictPhase::Source { source, target } => {
                let phase = match reply {
                    Reply::Found(entry) => if entry.kind == FileKind::Other {
                        ConflictPhase::Failed(
                            Failure::at("unsupported Stow source type: ", &source),
                        )
                    } else {
                        ConflictPhase::Target { source, target, kind: entry.kind }
                    },
                    Reply::Failed(fault) => ConflictPhase::Failed(Failure::plain(&fault.text)),
                    _ => ConflictPhase::Failed(Failure::plain("unexpected reply")),
                };
                ConflictScan { home, pending, conflicts, phase }
            },
            ConflictPhase::Target { source, target, kind } => match reply {
                Reply::Found(entry) => {
                    if kind == FileKind::Directory && entry.kind == FileKind::Directory {
                        return ConflictScan {
                            home,
                            pending,
                            conflicts,
                            phase: ConflictPhase::Listing { source, target },
                        };
                    }
                    if kind != FileKind::Directory && entry.kind == FileKind::Symlink {
                        return ConflictScan {
                            home,
                            pending,
                            conflicts,
                            phase: ConflictPhase::Linking { source, target },
                        };
                    }
                    let mut conflicts = conflicts;
                    let ghost path = target@;
                    insert_path(&mut conflicts, target);
                    let next = resume(home, pending, conflicts);
                    assert(next@ == (Search {
                        conflicts: with_path(search.conflicts, path),
                        ..search
                    }).resumed());
                    next
                },
                Reply::Failed(fault) => if fault.kind == FaultKind::NotFound {
                    let next = resume(home, pending, conflicts);
                    assert(next@ == search.resumed());
                    next
                } else {
                    ConflictScan {
                        home,
                        pending,
                        conflicts,
                        phase: ConflictPhase::Failed(Failure::plain(&fault.text)),
                    }
                },
                _ => ConflictScan {
                    home,
                    pending,
                    conflicts,
                    phase: ConflictPhase::Failed(Failure::plain("unexpected reply")),
                },
            },
            ConflictPhase::Linking { source, target } => match reply {
                Reply::Contents(link) => {
                    let mut conflicts = conflicts;
                    if is_correct_stow_symlink(&target, &link, &source) {
                        let next = resume(home, pending, conflicts);
                        assert(next@ == search.resumed());
                        return next;
                    }
                    let ghost path = target@;
                    insert_path(&mut conflicts, target);
                    let next = resume(home, pending, conflicts);
                    assert(next@ == (Search {
                        conflicts: with_path(search.conflicts, path),
                        ..search
                    }).resumed());
                    next
                },
                Reply::Failed(fault) => ConflictScan {
                    home,
                    pending,
                    conflicts,
                    phase: ConflictPhase::Failed(Failure::plain(&fault.text)),
                },
                _ => ConflictScan {
                    home,
                    pending,
                    conflicts,
                    phase: ConflictPhase::Failed(Failure::plain("unexpected reply")),
                },
            },
            ConflictPhase::Completed => ConflictScan {
                home,
                pending,
                conflicts,
                phase: ConflictPhase::Completed,
            },
            ConflictPhase::Failed(failure) => ConflictScan {
                home,
                pending,
                conflicts,
                phase: ConflictPhase::Failed(failure),
            },
        }
    }
}

/// Whether a search has looked at and found nothing but what lies in the home
/// directory, and its conflicts are in order.
pub open spec fn search_is_sound(search: Search) -> bool {
    &&& paths_ascend(search.conflicts)
    &&& forall|i: int|
        0 <= i < search.conflicts.len() ==> components_of(search.home).is_prefix_of(
            components_of(#[trigger] search.conflicts[i]),
        )
    &&& match search.stage {
        Stage::Source { target, .. } => components_of(search.home).is_prefix_of(
            components_of(target),
        ),
        Stage::Target { target, .. } => components_of(search.home).is_prefix_of(
            components_of(target),
        ),
        Stage::Linking { target, .. } => components_of(search.home).is_prefix_of(
            components_of(target),
        ),
        _ => true,
    }
}

/// Conflicts lie in the home directory, are in order, and none occurs twice.
pub proof fn conflicts_lie_in_the_home(search: Search, reply: Reply)
    requires
        search_is_sound(search),
    ensures
        search_is_sound(search.after(reply)),
{
    let next = search.after(reply);
    let target = match search.stage {
        Stage::Target { target, .. } => target,
        Stage::Linking { target, .. } => target,
        _ => Seq::empty(),
    };
    let inside = components_of(search.home).is_prefix_of(components_of(target));
    if inside {
        let longer = with_path(search.conflicts, target);
        paths_stay_in_order(search.conflicts, target, target);
        assert forall|i: int| 0 <= i < longer.len() implies components_of(
            search.home,
        ).is_prefix_of(components_of(#[trigger] longer[i])) by {
            paths_stay_in_order(search.conflicts, target, longer[i]);
            assert(has_path(longer, longer[i]));
            if has_path(search.conflicts, longer[i]) {
                let k = choose|k: int|
                    0 <= k < search.conflicts.len() && components_of(
                        #[trigger] search.conflicts[k],
                    ) == components_of(longer[i]);
                assert(components_of(search.home).is_prefix_of(
                    components_of(search.conflicts[k]),
                ));
            }
        }
    }
}

/// What stands in the place of a file or a link and is not a link to it, and what
/// stands in the place of a directory and is none, is a conflict; a link to it, a
/// directory for a directory, and nothing at all are not.
pub proof fn conflicts_are_what_stands_in_the_way(search: Search, reply: Reply)
    requires
        search_is_sound(search),
        search.stage is Target || search.stage is Linking,
    ensures
        ({
            let next = search.after(reply);
            match search.stage {
                Stage::Target { source, target, kind } => match reply {
                    Reply::Found(entry) => if kind == FileKind::Directory {
                        if entry.kind == FileKind::Directory {
                            next.conflicts == search.conflicts
                        } else {
                            has_path(next.conflicts, target)
                        }
                    } else {
                        entry.kind != FileKind::Symlink ==> has_path(next.conflicts, target)
                    },
                    _ => next.conflicts == search.conflicts,
                },
                Stage::Linking { source, target } => match reply {
                    Reply::Contents(link) => if leads_to_source(target, link@, source) {
                        next.conflicts == search.conflicts
                    } else {
                        has_path(next.conflicts, target)
                    },
                    _ => next.conflicts == search.conflicts,
                },
                _ => true,
            }
        }),
{
    match search.stage {
        Stage::Target { target, .. } => paths_stay_in_order(search.conflicts, target, target),
        Stage::Linking { target, .. } => paths_stay_in_order(search.conflicts, target, target),
        _ => {},
    }
}

// --------------------------------------------------
// Running Stow
// --------------------------------------------------

/// Stow for one package.
pub open spec fn stow_program(
    stow: Seq<u8>,
    home: Seq<u8>,
    dotfiles: Seq<u8>,
    package: Seq<u8>,
    delete: bool,
) -> ProgramView {
    let places = seq![
        encode_utf8("--target"@),
        home,
        encode_utf8("--dir"@),
        dotfiles,
        package,
    ];
    ProgramView {
        executable: stow,
        arguments: if delete {
            seq![encode_utf8("--delete"@)] + places
        } else {
            places
        },
        directory: Some(dotfiles),
        set: Seq::empty(),
        unset: Seq::empty(),
    }
}

/// Stow for one package.
pub fn stow_command(
    stow: &[u8],
    home: &[u8],
    dotfiles: &[u8],
    package: &[u8],
    delete: bool,
) -> (program: Program)
    ensures
        program@ == stow_program(stow@, home@, dotfiles@, package@, delete),
{
    let mut arguments = no_bytes();
    if delete {
        add_bytes(&mut arguments, text_bytes("--delete"));
    }
    add_bytes(&mut arguments, text_bytes("--target"));
    add_bytes(&mut arguments, copy_bytes(home));
    add_bytes(&mut arguments, text_bytes("--dir"));
    add_bytes(&mut arguments, copy_bytes(dotfiles));
    add_bytes(&mut arguments, copy_bytes(package));
    let program = Program {
        executable: copy_bytes(stow),
        arguments,
        directory: Some(copy_bytes(dotfiles)),
        set: Vec::new(),
        unset: Vec::new(),
    };
    assert(program@ =~= stow_program(stow@, home@, dotfiles@, package@, delete));
    program
}

/// How far Stow has come with a package.
#[derive(Debug)]
pub enum StowPhase {
    /// Stow is looked at.
    Checking,
    /// Stow makes the links.
    Linking,
    /// After this failure Stow takes back the links that it has made.
    Unlinking { failure: Failure },
    Completed,
    Failed(Failure),
}

/// Stow for one package. A failure takes back what was linked.
#[derive(Debug)]
pub struct StowRun {
    pub stow: Vec<u8>,
    pub home: Vec<u8>,
    pub dotfiles: Vec<u8>,
    pub package: Vec<u8>,
    pub phase: StowPhase,
}

impl StowRun {
    /// Whether nothing was done yet; the path of Stow has to be absolute.
    pub open spec fn begins(&self, pixi_home: Seq<u8>, home: Seq<u8>, package: Seq<u8>) -> bool {
        &&& self.stow@ == under(pixi_home, "bin/stow"@)
        &&& self.home@ == home
        &&& self.dotfiles@ == under(home, ".dotfiles"@)
        &&& self.package@ == package
        &&& absolute(self.stow@) ==> self.phase is Checking
        &&& !absolute(self.stow@) ==> self.phase is Unlinking
            && self.phase->Unlinking_failure.says(
            about("Stow path must be absolute: "@, self.stow@),
        )
    }
}

/// Begins to link a package.
pub fn run_stow_package(paths: &ResolvedPaths, home: &[u8], package: &[u8]) -> (run: StowRun)
    ensures
        run.begins(paths.pixi_home@, home@, package@),
{
    let stow = join_text(&paths.pixi_home, "bin/stow");
    let phase = if is_absolute(&stow) {
        StowPhase::Checking
    } else {
        StowPhase::Unlinking { failure: Failure::at("Stow path must be absolute: ", &stow) }
    };
    StowRun {
        stow,
        home: copy_bytes(home),
        dotfiles: join_text(home, ".dotfiles"),
        package: copy_bytes(package),
        phase,
    }
}

/// What a failure is called where the links could not be taken back either.
pub open spec fn unlinked_words(failure: Failure, reason: Seq<char>) -> Seq<char> {
    failure.line() + "; failed Stow cleanup: "@ + reason
}

fn not_unlinked(failure: &Failure, reason: &str) -> (worse: Failure)
    ensures
        worse.says(unlinked_words(*failure, reason@)),
{
    let mut message = failure.full_text();
    message.append("; failed Stow cleanup: ");
    message.append(reason);
    Failure::plain(&message)
}

impl StowRun {
    pub open spec fn asks(&self) -> Ask {
        match self.phase {
            StowPhase::Checking => Ask::Inspect(self.stow@),
            StowPhase::Linking => Ask::Run(
                stow_program(self.stow@, self.home@, self.dotfiles@, self.package@, false),
            ),
            StowPhase::Unlinking { .. } => Ask::Run(
                stow_program(self.stow@, self.home@, self.dotfiles@, self.package@, true),
            ),
            StowPhase::Completed => Ask::Nothing,
            StowPhase::Failed(_) => Ask::Nothing,
        }
    }

    /// What Stow does with a reply.
    pub open spec fn follows(&self, reply: Reply, next: StowPhase) -> bool {
        match self.phase {
            StowPhase::Checking => match verdict_on(Demand::Executable, None, reply) {
                Verdict::Accepted => next is Linking,
                Verdict::Refused(Some(fault)) => next is Unlinking
                    && next->Unlinking_failure.says(fault.text@),
                _ => next is Unlinking && next->Unlinking_failure.says(
                    about("Stow must be a regular executable: "@, self.stow@),
                ),
            },
            StowPhase::Linking => match reply {
                Reply::Exited { success, status, .. } => if success {
                    next is Completed
                } else {
                    next is Unlinking && next->Unlinking_failure.says("Stow failed: "@ + status@)
                },
                Reply::Failed(fault) => next is Unlinking && next->Unlinking_failure.says(
                    fault.text@,
                ),
                _ => next is Unlinking && next->Unlinking_failure.says(unanswered()),
            },
            StowPhase::Unlinking { failure } => match reply {
                Reply::Exited { success, status, .. } => if success {
                    next == StowPhase::Failed(failure)
                } else {
                    next is Failed && next->Failed_0.says(unlinked_words(failure, status@))
                },
                Reply::Failed(fault) => next is Failed && next->Failed_0.says(
                    unlinked_words(failure, fault.text@),
                ),
                _ => next is Failed && next->Failed_0.says(unlinked_words(failure, unanswered())),
            },
            StowPhase::Completed => next == self.phase,
            StowPhase::Failed(_) => next == self.phase,
        }
    }

    pub fn request(&self) -> (request: Request)
        ensures
            request@ == self.asks(),
    {
        match &self.phase {
            StowPhase::Checking => Request::Inspect(copy_bytes(&self.stow)),
            StowPhase::Linking => Request::Run(
                stow_command(&self.stow, &self.home, &self.dotfiles, &self.package, false),
            ),
            StowPhase::Unlinking { .. } => Request::Run(
                stow_command(&self.stow, &self.home, &self.dotfiles, &self.package, true),
            ),
            StowPhase::Completed => Request::Nothing,
            StowPhase::Failed(_) => Request::Nothing,
        }
    }

    /// Goes on with a reply.
    pub fn advance(self, reply: Reply) -> (next: StowRun)
        ensures
            next.stow == self.stow,
            next.home == self.home,
            next.dotfiles == self.dotfiles,
            next.package == self.package,
            self.follows(reply, next.phase),
    {
        let StowRun { stow, home, dotfiles, package, phase } = self;
        let next = match phase {
            StowPhase::Checking => match reply {
                Reply::Found(entry) => if is_executable(&entry) {
                    StowPhase::Linking
                } else {
                    StowPhase::Unlinking {
                        failure: Failure::at("Stow must be a regular executable: ", &stow),
                    }
                },
                Reply::Failed(fault) => StowPhase::Unlinking {
                    failure: Failure::plain(&fault.text),
                },
                _ => StowPhase::Unlinking {
                    failure: Failure::at("Stow must be a regular executable: ", &stow),
                },
            },
            StowPhase::Linking => match reply {
                Reply::Exited { success, status, .. } => if success {
                    StowPhase::Completed
                } else {
                    StowPhase::Unlinking {
                        failure: Failure::plain(&concat("Stow failed: ", &status)),
                    }
                },
                Reply::Failed(fault) => StowPhase::Unlinking {
                    failure: Failure::plain(&fault.text),
                },
                _ => StowPhase::Unlinking { failure: Failure::plain("unexpected reply") },
            },
            StowPhase::Unlinking { failure } => match reply {
                Reply::Exited { success, status, .. } => if success {
                    StowPhase::Failed(failure)
                } else {
                    StowPhase::Failed(not_unlinked(&failure, &status))
                },
                Reply::Failed(fault) => StowPhase::Failed(not_unlinked(&failure, &fault.text)),
                _ => StowPhase::Failed(not_unlinked(&failure, "unexpected reply")),
            },
            StowPhase::Completed => StowPhase::Completed,
            StowPhase::Failed(failure) => StowPhase::Failed(failure),
        };
        StowRun { stow, home, dotfiles, package, phase: next }
    }
}

/// Whatever goes wrong while a package is linked, its links are taken back before the
/// failure is reported.
pub proof fn failed_links_are_taken_back(run: StowRun, reply: Reply, next: StowPhase)
    requires
        run.follows(reply, next),
        next is Failed,
        !(run.phase is Failed),
    ensures
        run.phase is Unlinking,
        run.asks() == Ask::Run(
            stow_program(run.stow@, run.home@, run.dotfiles@, run.package@, true),
        ),
{
}

} // verus!
