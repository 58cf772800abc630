//! The plan by which backups are put back into the home directory.

use crate::backup_index::{decode_backup_index_entry, entry_path, EntryError, PlanError};
use crate::bytes::{bytes_at_most, contains_bytes, copy_bytes, in_order};
use crate::bytes::{lemma_at_most_antisymmetric, lemma_at_most_total, lemma_at_most_transitive};
use crate::bytes::{lemma_views_push, views};
use crate::paths::{components, components_of, part_views, path_starts_with, render, rendered};
use crate::paths::{lemma_components_well_formed, lemma_rendered_components, Component, Part};
use vstd::prelude::*;

verus! {

/// The same path with single separators. Every component has to be a name, and
/// there has to be one.
pub open spec fn normal_path(path: Seq<u8>) -> Result<Seq<u8>, PlanError> {
    let parts = components_of(path);
    if exists|i: int| 0 <= i < parts.len() && !(#[trigger] parts[i] is Name) {
        Err(PlanError::NotNormal)
    } else if parts.len() == 0 {
        Err(PlanError::Empty)
    } else {
        Ok(rendered(parts))
    }
}

/// The paths that the entries stand for, in order.
pub open spec fn plan_paths(entries: Seq<Seq<u8>>) -> Result<Seq<Seq<u8>>, PlanError>
    decreases entries.len(),
{
    if entries.len() == 0 {
        Ok(Seq::empty())
    } else {
        match plan_paths(entries.drop_last()) {
            Err(error) => Err(error),
            Ok(before) => match entry_path(entries.last()) {
                Err(error) => Err(PlanError::Entry(error)),
                Ok(path) => match normal_path(path) {
                    Err(error) => Err(error),
                    Ok(normal) => if before.contains(normal) {
                        Err(PlanError::Duplicate)
                    } else {
                        Ok(before.push(normal))
                    },
                },
            },
        }
    }
}

/// Whether `inner` lies at or below `outer`.
pub open spec fn lies_below(inner: Seq<u8>, outer: Seq<u8>) -> bool {
    components_of(outer).is_prefix_of(components_of(inner))
}

/// Whether one of the paths lies below another.
pub open spec fn has_nested(paths: Seq<Seq<u8>>) -> bool {
    exists|i: int, j: int|
        0 <= i < paths.len() && 0 <= j < paths.len() && i != j && #[trigger] lies_below(
            paths[i],
            paths[j],
        )
}

/// The order of a plan: fewer components first, then by bytes.
pub open spec fn plan_at_most(a: Seq<u8>, b: Seq<u8>) -> bool {
    let m = components_of(a).len();
    let n = components_of(b).len();
    m < n || (m == n && bytes_at_most(a, b))
}

pub open spec fn plan_sorted(paths: Seq<Seq<u8>>) -> bool {
    forall|i: int, j: int| 0 <= i < j < paths.len() ==> plan_at_most(paths[i], paths[j])
}

/// Whether the paths are a plan for the entries: the paths that the entries stand
/// for, each once, in the order of a plan.
pub open spec fn is_plan(paths: Seq<Seq<u8>>, entries: Seq<Seq<u8>>) -> bool {
    &&& plan_paths(entries) is Ok
    &&& !has_nested(plan_paths(entries)->Ok_0)
    &&& paths.to_multiset() == plan_paths(entries)->Ok_0.to_multiset()
    &&& plan_sorted(paths)
}

proof fn lemma_plan_total(a: Seq<u8>, b: Seq<u8>)
    ensures
        plan_at_most(a, b) || plan_at_most(b, a),
{
    lemma_at_most_total(a, b);
}

proof fn lemma_plan_transitive(a: Seq<u8>, b: Seq<u8>, c: Seq<u8>)
    requires
        plan_at_most(a, b),
        plan_at_most(b, c),
    ensures
        plan_at_most(a, c),
{
    if components_of(a).len() == components_of(b).len() && components_of(b).len() == components_of(
        c,
    ).len() {
        lemma_at_most_transitive(a, b, c);
    }
}

fn component_count(path: &[u8]) -> (count: usize)
    ensures
        count == components_of(path@).len(),
{
    let parts = components(path);
    assert(parts@.len() == part_views(parts@).len());
    parts.len()
}

/// Whether `left` may stand before `right` in a plan.
fn plan_in_order(left: &[u8], right: &[u8]) -> (yes: bool)
    ensures
        yes == plan_at_most(left@, right@),
{
    let first = component_count(left);
    let second = component_count(right);
    first < second || (first == second && in_order(left, right))
}

/// The same path with single separators.
pub fn normalize_relative_backup_path(path: &[u8]) -> (result: Result<Vec<u8>, PlanError>)
    ensures
        match normal_path(path@) {
            Err(error) => result == Err::<Vec<u8>, PlanError>(error),
            Ok(normal) => result is Ok && result->Ok_0@ == normal,
        },
{
    let parts = components(path);
    assert(parts@.len() == part_views(parts@).len());
    let mut index: usize = 0;
    while index < parts.len()
        invariant
            index <= parts.len(),
            parts@.len() == part_views(parts@).len(),
            part_views(parts@) == components_of(path@),
            forall|i: int| 0 <= i < index ==> #[trigger] components_of(path@)[i] is Name,
        decreases parts.len() - index,
    {
        assert(part_views(parts@)[index as int] == parts@[index as int]@);
        match &parts[index] {
            Component::Name(_) => {},
            _ => {
                assert(!(components_of(path@)[index as int] is Name));
                return Err(PlanError::NotNormal);
            },
        }
        index = index + 1;
    }
    if parts.len() == 0 {
        return Err(PlanError::Empty);
    }
    assert(part_views(parts@).take(parts@.len() as int) =~= components_of(path@));
    Ok(render(&parts, parts.len()))
}

/// Puts a path into its place in a sorted plan.
fn insert_in_order(plan: &mut Vec<Vec<u8>>, path: Vec<u8>)
    requires
        plan_sorted(views(old(plan)@)),
    ensures
        plan_sorted(views(final(plan)@)),
        views(final(plan)@).to_multiset() == views(old(plan)@).to_multiset().insert(path@),
{
    let ghost before = views(plan@);
    let mut place: usize = 0;
    while place < plan.len() && plan_in_order(&plan[place], &path)
        invariant
            place <= plan.len(),
            before == views(plan@),
            plan_sorted(before),
            forall|i: int| 0 <= i < place ==> plan_at_most(#[trigger] before[i], path@),
        decreases plan.len() - place,
    {
        assert(before[place as int] == plan@[place as int]@);
        place = place + 1;
    }
    proof {
        if place < plan.len() {
            assert(before[place as int] == plan@[place as int]@);
            lemma_plan_total(before[place as int], path@);
        }
        assert forall|i: int| place <= i < before.len() implies plan_at_most(path@, #[trigger] before[i]) by {
            if i > place {
                lemma_plan_transitive(path@, before[place as int], before[i]);
            }
        }
    }
    let ghost item = path@;
    let ghost old_plan = plan@;
    plan.insert(place, path);
    proof {
        let after = before.insert(place as int, item);
        assert(views(plan@) =~= after);
        before.insert_ensures(place as int, item);
        vstd::seq_lib::to_multiset_insert(before, place as int, item);
        assert forall|i: int, j: int| 0 <= i < j < after.len() implies plan_at_most(after[i], after[j]) by {
            if j < place {
                assert(after[i] == before[i] && after[j] == before[j]);
            } else if j == place {
                assert(after[i] == before[i]);
            } else if i < place {
                assert(after[i] == before[i] && after[j] == before[j - 1]);
            } else if i == place {
                assert(after[j] == before[j - 1]);
            } else {
                assert(after[i] == before[i - 1] && after[j] == before[j - 1]);
            }
        }
    }
}

/// What rejects the first entries rejects all of them.
proof fn lemma_plan_error_stays(entries: Seq<Seq<u8>>, count: int)
    requires
        0 <= count <= entries.len(),
        plan_paths(entries.take(count)) is Err,
    ensures
        plan_paths(entries) == plan_paths(entries.take(count)),
    decreases entries.len() - count,
{
    if count < entries.len() {
        assert(entries.take(count + 1).drop_last() =~= entries.take(count));
        lemma_plan_error_stays(entries, count + 1);
    } else {
        assert(entries.take(count) =~= entries);
    }
}

/// Whether one of the paths lies below another.
fn find_nested(paths: &Vec<Vec<u8>>) -> (found: bool)
    ensures
        found == has_nested(views(paths@)),
{
    let ghost all = views(paths@);
    let mut first: usize = 0;
    while first < paths.len()
        invariant
            first <= paths.len(),
            all == views(paths@),
            all.len() == paths@.len(),
            forall|i: int, j: int|
                0 <= i < first && 0 <= j < all.len() && i != j ==> !#[trigger] lies_below(all[i], all[j]),
        decreases paths.len() - first,
    {
        let mut second: usize = 0;
        while second < paths.len()
            invariant
                first < paths.len(),
                second <= paths.len(),
                all == views(paths@),
                all.len() == paths@.len(),
                forall|j: int|
                    0 <= j < second && first != j ==> !#[trigger] lies_below(all[first as int], all[j]),
            decreases paths.len() - second,
        {
            if first != second {
                assert(all[first as int] == paths@[first as int]@);
                assert(all[second as int] == paths@[second as int]@);
                if path_starts_with(&paths[first], &paths[second]) {
                    assert(lies_below(all[first as int], all[second as int]));
                    return true;
                }
            }
            second = second + 1;
        }
        first = first + 1;
    }
    false
}

/// The plan for the entries of an index.
pub fn backup_restore_plan(entries: &Vec<Vec<u8>>) -> (result: Result<Vec<Vec<u8>>, PlanError>)
    ensures
        match plan_paths(views(entries@)) {
            Err(error) => result == Err::<Vec<Vec<u8>>, PlanError>(error),
            Ok(paths) => if has_nested(paths) {
                result == Err::<Vec<Vec<u8>>, PlanError>(PlanError::Nested)
            } else {
                result is Ok && is_plan(views(result->Ok_0@), views(entries@))
            },
        },
{
    let ghost all = views(entries@);
    let mut paths: Vec<Vec<u8>> = Vec::new();
    let mut index: usize = 0;
    assert(all.take(0) =~= Seq::<Seq<u8>>::empty());
    assert(views(paths@) =~= Seq::<Seq<u8>>::empty());
    while index < entries.len()
        invariant
            index <= entries.len(),
            all == views(entries@),
            all.len() == entries@.len(),
            plan_paths(all.take(index as int)) == Ok::<Seq<Seq<u8>>, PlanError>(views(paths@)),
        decreases entries.len() - index,
    {
        assert(all[index as int] == entries@[index as int]@);
        assert(all.take(index + 1).drop_last() =~= all.take(index as int));
        assert(all.take(index + 1).last() == all[index as int]);
        let path = match decode_backup_index_entry(&entries[index]) {
            Err(error) => {
                proof {
                    lemma_plan_error_stays(all, index + 1);
                }
                return Err(PlanError::Entry(error));
            },
            Ok(path) => path,
        };
        let normal = match normalize_relative_backup_path(&path) {
            Err(error) => {
                proof {
                    lemma_plan_error_stays(all, index + 1);
                }
                return Err(error);
            },
            Ok(normal) => normal,
        };
        if contains_bytes(&paths, &normal) {
            proof {
                lemma_plan_error_stays(all, index + 1);
            }
            return Err(PlanError::Duplicate);
        }
        proof {
            lemma_views_push(paths@, normal);
        }
        paths.push(normal);
        index = index + 1;
    }
    assert(all.take(index as int) =~= all);
    if find_nested(&paths) {
        return Err(PlanError::Nested);
    }
    let ghost found = views(paths@);
    let mut plan: Vec<Vec<u8>> = Vec::new();
    assert(views(plan@) =~= Seq::<Seq<u8>>::empty());
    assert(found.take(0) =~= Seq::<Seq<u8>>::empty());
    let mut next: usize = 0;
    while next < paths.len()
        invariant
            next <= paths.len(),
            found == views(paths@),
            found.len() == paths@.len(),
            plan_sorted(views(plan@)),
            views(plan@).to_multiset() == found.take(next as int).to_multiset(),
        decreases paths.len() - next,
    {
        assert(found[next as int] == paths@[next as int]@);
        proof {
            assert(found.take(next + 1) =~= found.take(next as int).push(found[next as int]));
            vstd::seq_lib::to_multiset_build(found.take(next as int), found[next as int]);
        }
        insert_in_order(&mut plan, copy_bytes(&paths[next]));
        next = next + 1;
    }
    assert(found.take(next as int) =~= found);
    Ok(plan)
}

/// The paths of a plan are distinct, and none lies below another.
pub proof fn plan_paths_are_apart(paths: Seq<Seq<u8>>, entries: Seq<Seq<u8>>)
    requires
        is_plan(paths, entries),
    ensures
        paths.no_duplicates(),
        !has_nested(paths),
{
    let found = plan_paths(entries)->Ok_0;
    lemma_plan_distinct(entries);
    found.lemma_multiset_has_no_duplicates();
    paths.to_multiset_ensures();
    found.to_multiset_ensures();
    assert forall|x| #[trigger] paths.to_multiset().contains(x) implies paths.to_multiset().count(x) == 1 by {
        assert(found.to_multiset().contains(x));
    }
    paths.lemma_multiset_has_no_duplicates_conv();
    if has_nested(paths) {
        let (i, j) = choose|i: int, j: int|
            0 <= i < paths.len() && 0 <= j < paths.len() && i != j && #[trigger] lies_below(
                paths[i],
                paths[j],
            );
        assert(paths.to_multiset().contains(paths[i]) && paths.to_multiset().contains(paths[j]));
        assert(found.contains(paths[i]) && found.contains(paths[j]));
        let m = choose|m: int| 0 <= m < found.len() && found[m] == paths[i];
        let n = choose|n: int| 0 <= n < found.len() && found[n] == paths[j];
        assert(paths[i] != paths[j]);
        assert(lies_below(found[m], found[n]));
    }
}

proof fn lemma_plan_distinct(entries: Seq<Seq<u8>>)
    requires
        plan_paths(entries) is Ok,
    ensures
        plan_paths(entries)->Ok_0.no_duplicates(),
        plan_paths(entries)->Ok_0.len() == entries.len(),
    decreases entries.len(),
{
    if entries.len() > 0 {
        lemma_plan_distinct(entries.drop_last());
        let before = plan_paths(entries.drop_last())->Ok_0;
        let all = plan_paths(entries)->Ok_0;
        assert forall|i: int, j: int| 0 <= i < all.len() && 0 <= j < all.len() && i != j implies all[i]
            != all[j] by {
            if i < before.len() && j < before.len() {
                assert(before[i] != before[j]);
            } else if i < before.len() {
                assert(all[i] == before[i]);
            } else if j < before.len() {
                assert(all[j] == before[j]);
            }
        }
    }
}

/// There is one plan for the entries of an index.
pub proof fn plan_is_unique(first: Seq<Seq<u8>>, second: Seq<Seq<u8>>, entries: Seq<Seq<u8>>)
    requires
        is_plan(first, entries),
        is_plan(second, entries),
    ensures
        first == second,
{
    let leq = |a: Seq<u8>, b: Seq<u8>| plan_at_most(a, b);
    assert forall|a: Seq<u8>, b: Seq<u8>| #[trigger] leq(a, b) || leq(b, a) by {
        lemma_plan_total(a, b);
    }
    assert forall|a: Seq<u8>, b: Seq<u8>, c: Seq<u8>| #[trigger] leq(a, b) && #[trigger] leq(b, c) implies leq(
        a,
        c,
    ) by {
        lemma_plan_transitive(a, b, c);
    }
    assert forall|a: Seq<u8>, b: Seq<u8>| #[trigger] leq(a, b) && #[trigger] leq(b, a) implies a == b by {
        lemma_at_most_antisymmetric(a, b);
    }
    assert forall|a: Seq<u8>| #[trigger] leq(a, a) by {
        lemma_plan_total(a, a);
    }
    vstd::seq_lib::lemma_sorted_unique(first, second, leq);
}

/// Where a plan is found, the paths of its entries are relative, in single
/// separators, and no two are the same.
proof fn lemma_plan_path(entries: Seq<Seq<u8>>, index: int)
    requires
        plan_paths(entries) is Ok,
        0 <= index < entries.len(),
    ensures
        plan_paths(entries)->Ok_0.len() == entries.len(),
        entry_path(entries[index]) is Ok,
        components_of(entry_path(entries[index])->Ok_0).len() > 0,
        forall|k: int|
            0 <= k < components_of(entry_path(entries[index])->Ok_0).len() ==> #[trigger] components_of(
                entry_path(entries[index])->Ok_0,
            )[k] is Name,
        components_of(plan_paths(entries)->Ok_0[index]) == components_of(
            entry_path(entries[index])->Ok_0,
        ),
    decreases entries.len(),
{
    lemma_plan_distinct(entries);
    lemma_plan_distinct(entries.drop_last());
    if index + 1 < entries.len() {
        lemma_plan_path(entries.drop_last(), index);
        assert(entries.drop_last()[index] == entries[index]);
    } else {
        let path = entry_path(entries[index])->Ok_0;
        lemma_components_well_formed(path);
        lemma_rendered_components(components_of(path));
    }
}

/// One path lies at or below another exactly where it is reached from the other
/// by adding whole components, so of two different paths with the same number of
/// components neither lies below the other.
pub proof fn nesting_adds_whole_components(inner: Seq<u8>, outer: Seq<u8>)
    ensures
        lies_below(inner, outer) <==> exists|added: Seq<Part>|
            components_of(inner) == #[trigger] (components_of(outer) + added),
        components_of(inner).len() == components_of(outer).len() && components_of(inner)
            != components_of(outer) ==> !lies_below(inner, outer) && !lies_below(outer, inner),
{
    let long = components_of(inner);
    let short = components_of(outer);
    if lies_below(inner, outer) {
        assert(long =~= short + long.skip(short.len() as int));
        assert(long.len() == short.len() ==> long =~= short);
    }
    if lies_below(outer, inner) {
        assert(long.len() == short.len() ==> long =~= short);
    }
    if exists|added: Seq<Part>| long == #[trigger] (short + added) {
        let added = choose|added: Seq<Part>| long == #[trigger] (short + added);
        assert(short.is_prefix_of(short + added));
    }
}

/// An index whose entries are names of relative paths, of which none is another
/// one or starts with all the components of another one, has a plan.
pub proof fn entries_that_are_apart_have_a_plan(entries: Seq<Seq<u8>>, paths: Seq<Seq<u8>>)
    requires
        entries.len() == paths.len(),
        forall|i: int|
            0 <= i < entries.len() ==> #[trigger] entry_path(entries[i]) == Ok::<
                Seq<u8>,
                EntryError,
            >(paths[i]),
        forall|i: int| 0 <= i < paths.len() ==> components_of(#[trigger] paths[i]).len() > 0,
        forall|i: int, k: int|
            0 <= i < paths.len() && 0 <= k < components_of(paths[i]).len() ==> #[trigger] components_of(
                paths[i],
            )[k] is Name,
        forall|i: int, j: int|
            #![trigger paths[i], paths[j]]
            0 <= i < paths.len() && 0 <= j < paths.len() && i != j ==> !components_of(
                paths[i],
            ).is_prefix_of(components_of(paths[j])),
    ensures
        plan_paths(entries) is Ok,
        !has_nested(plan_paths(entries)->Ok_0),
{
    lemma_apart_paths(entries, paths);
    lemma_plan_distinct(entries);
    let found = plan_paths(entries)->Ok_0;
    if has_nested(found) {
        let (i, j) = choose|i: int, j: int|
            0 <= i < found.len() && 0 <= j < found.len() && i != j && #[trigger] lies_below(
                found[i],
                found[j],
            );
        lemma_plan_path(entries, i);
        lemma_plan_path(entries, j);
        assert(entry_path(entries[i]) == Ok::<Seq<u8>, EntryError>(paths[i]));
        assert(entry_path(entries[j]) == Ok::<Seq<u8>, EntryError>(paths[j]));
        assert(components_of(paths[j]).is_prefix_of(components_of(paths[i])));
    }
}

proof fn lemma_apart_paths(entries: Seq<Seq<u8>>, paths: Seq<Seq<u8>>)
    requires
        entries.len() == paths.len(),
        forall|i: int|
            0 <= i < entries.len() ==> #[trigger] entry_path(entries[i]) == Ok::<
                Seq<u8>,
                EntryError,
            >(paths[i]),
        forall|i: int| 0 <= i < paths.len() ==> components_of(#[trigger] paths[i]).len() > 0,
        forall|i: int, k: int|
            0 <= i < paths.len() && 0 <= k < components_of(paths[i]).len() ==> #[trigger] components_of(
                paths[i],
            )[k] is Name,
        forall|i: int, j: int|
            #![trigger paths[i], paths[j]]
            0 <= i < paths.len() && 0 <= j < paths.len() && i != j ==> !components_of(
                paths[i],
            ).is_prefix_of(components_of(paths[j])),
    ensures
        plan_paths(entries) is Ok,
    decreases entries.len(),
{
    if entries.len() > 0 {
        let front = entries.drop_last();
        let before = paths.drop_last();
        assert forall|i: int| 0 <= i < front.len() implies #[trigger] entry_path(front[i]) == Ok::<
            Seq<u8>,
            EntryError,
        >(before[i]) by {
            assert(front[i] == entries[i] && before[i] == paths[i]);
        }
        assert forall|i: int, k: int| 0 <= i < before.len() && 0 <= k < components_of(before[i]).len() implies #[trigger] components_of(
            before[i],
        )[k] is Name by {
            assert(before[i] == paths[i]);
        }
        assert forall|i: int, j: int|
            #![trigger before[i], before[j]]
            0 <= i < before.len() && 0 <= j < before.len() && i != j implies !components_of(
            before[i],
        ).is_prefix_of(components_of(before[j])) by {
            assert(before[i] == paths[i] && before[j] == paths[j]);
        }
        lemma_apart_paths(front, before);
        let last = entries.len() - 1;
        let path = paths[last];
        let found = plan_paths(front)->Ok_0;
        assert(entry_path(entries[last]) == Ok::<Seq<u8>, EntryError>(path));
        assert(entries.last() == entries[last]);
        assert(components_of(path).len() > 0);
        assert(normal_path(path) == Ok::<Seq<u8>, PlanError>(rendered(components_of(path))));
        lemma_components_well_formed(path);
        lemma_rendered_components(components_of(path));
        let normal = rendered(components_of(path));
        if found.contains(normal) {
            let i = choose|i: int| 0 <= i < found.len() && found[i] == normal;
            lemma_plan_distinct(front);
            lemma_plan_path(front, i);
            assert(entry_path(front[i]) == Ok::<Seq<u8>, EntryError>(before[i]));
            assert(before[i] == paths[i]);
            assert(components_of(paths[i]) == components_of(paths[last]));
            assert(components_of(paths[i]).is_prefix_of(components_of(paths[last])));
        }
    }
}

/// Where one entry's path starts with all the components of another one's, the
/// index has no plan.
pub proof fn entries_in_each_others_way_have_no_plan(
    entries: Seq<Seq<u8>>,
    first: int,
    second: int,
)
    requires
        0 <= first < entries.len(),
        0 <= second < entries.len(),
        first != second,
        entry_path(entries[first]) is Ok,
        entry_path(entries[second]) is Ok,
        components_of(entry_path(entries[first])->Ok_0).is_prefix_of(
            components_of(entry_path(entries[second])->Ok_0),
        ),
    ensures
        plan_paths(entries) is Err || has_nested(plan_paths(entries)->Ok_0),
{
    if plan_paths(entries) is Ok {
        lemma_plan_path(entries, first);
        lemma_plan_path(entries, second);
        let found = plan_paths(entries)->Ok_0;
        assert(lies_below(found[second], found[first]));
    }
}

/// An index with an entry that is no entry, or that stands for an absolute path, a
/// path without a name or one with `..` in it, has no plan.
pub proof fn unusual_entries_have_no_plan(entries: Seq<Seq<u8>>, index: int)
    requires
        0 <= index < entries.len(),
        match entry_path(entries[index]) {
            Err(_) => true,
            Ok(path) => components_of(path).len() == 0 || exists|k: int|
                0 <= k < components_of(path).len() && !(#[trigger] components_of(path)[k] is Name),
        },
    ensures
        plan_paths(entries) is Err,
{
    if plan_paths(entries) is Ok {
        lemma_plan_path(entries, index);
    }
}

/// A plan has for each entry the path that it stands for and no other path, and
/// what has fewer components comes first.
pub proof fn a_plan_restores_every_entry(plan: Seq<Seq<u8>>, entries: Seq<Seq<u8>>)
    requires
        is_plan(plan, entries),
    ensures
        plan.len() == entries.len(),
        forall|i: int|
            0 <= i < entries.len() ==> entry_path(#[trigger] entries[i]) is Ok && exists|j: int|
                0 <= j < plan.len() && #[trigger] components_of(plan[j]) == components_of(
                    entry_path(entries[i])->Ok_0,
                ),
        forall|j: int|
            0 <= j < plan.len() ==> exists|i: int|
                0 <= i < entries.len() && #[trigger] entry_path(entries[i]) is Ok && components_of(
                    #[trigger] plan[j],
                ) == components_of(entry_path(entries[i])->Ok_0),
        forall|i: int, j: int|
            0 <= i < j < plan.len() ==> components_of(#[trigger] plan[i]).len() <= components_of(
                #[trigger] plan[j],
            ).len(),
{
    let found = plan_paths(entries)->Ok_0;
    lemma_plan_distinct(entries);
    plan.to_multiset_ensures();
    found.to_multiset_ensures();
    assert(plan.to_multiset().len() == found.to_multiset().len());
    assert forall|i: int| 0 <= i < entries.len() implies entry_path(#[trigger] entries[i]) is Ok && exists|
        j: int,
    |
        0 <= j < plan.len() && #[trigger] components_of(plan[j]) == components_of(
            entry_path(entries[i])->Ok_0,
        ) by {
        lemma_plan_path(entries, i);
        assert(found.to_multiset().contains(found[i]));
        assert(plan.contains(found[i]));
        let j = choose|j: int| 0 <= j < plan.len() && plan[j] == found[i];
        assert(components_of(plan[j]) == components_of(entry_path(entries[i])->Ok_0));
    }
    assert forall|j: int| 0 <= j < plan.len() implies exists|i: int|
        0 <= i < entries.len() && #[trigger] entry_path(entries[i]) is Ok && components_of(
            #[trigger] plan[j],
        ) == components_of(entry_path(entries[i])->Ok_0) by {
        assert(plan.to_multiset().contains(plan[j]));
        assert(found.contains(plan[j]));
        let i = choose|i: int| 0 <= i < found.len() && found[i] == plan[j];
        lemma_plan_path(entries, i);
        assert(entry_path(entries[i]) is Ok);
    }
    assert forall|i: int, j: int| 0 <= i < j < plan.len() implies components_of(#[trigger] plan[i]).len()
        <= components_of(#[trigger] plan[j]).len() by {
        assert(plan_at_most(plan[i], plan[j]));
    }
}

} // verus!
