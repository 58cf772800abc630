//! Whole runs of the creation of managed directories: what they make, what they leave
//! as it was, and what they take back.

use crate::bytes::views;
use crate::directories::{ancestor, ancestor_count, at_level, directories_are_made_downwards};
use crate::directories::{managed_after, managed_sound, undo_made, Made, ManagedDirectories, ManagedFailure, ManagedPhase};
use crate::directories::INSTALL_DIRECTORY_MODE;
use crate::host::{Ask, Entry, FaultKind, FileKind, Reply};
use crate::paths::{components_of, has_parent, lemma_components_well_formed, lemma_parent_components};
use vstd::prelude::*;

verus! {

// --------------------------------------------------
// Runs
// --------------------------------------------------

/// Whether the creation of a directory goes through these states, with these replies.
pub open spec fn is_run(path: Seq<u8>, states: Seq<ManagedDirectories>, replies: Seq<Reply>) -> bool {
    &&& states.len() == replies.len() + 1
    &&& states[0].begins(path)
    &&& forall|i: int|
        0 <= i < replies.len() ==> states[i].follows(#[trigger] replies[i], states[i + 1])
}

/// The levels of created directories.
pub open spec fn levels_of(made: Seq<Made>) -> Seq<usize> {
    made.map_values(|directory: Made| directory.level)
}

/// The levels whose creation was answered with success among the first replies, in
/// order.
pub open spec fn levels_created(
    states: Seq<ManagedDirectories>,
    replies: Seq<Reply>,
    count: int,
) -> Seq<usize>
    decreases count,
{
    if count <= 0 {
        Seq::empty()
    } else {
        let before = levels_created(states, replies, count - 1);
        match (states[count - 1].phase, replies[count - 1]) {
            (ManagedPhase::Make { level }, Reply::Done) => before.push(level),
            _ => before,
        }
    }
}

proof fn lemma_levels_stay(
    path: Seq<u8>,
    states: Seq<ManagedDirectories>,
    replies: Seq<Reply>,
    count: int,
)
    requires
        is_run(path, states, replies),
        0 <= count <= replies.len(),
    ensures
        states[count].levels == states[0].levels,
        (states[count].phase, states[count].made@) == managed_after(
            states[0].levels@.len(),
            replies.take(count),
        ),
    decreases count,
{
    if count > 0 {
        lemma_levels_stay(path, states, replies, count - 1);
        assert(states[count - 1].follows(replies[count - 1], states[count]));
        assert(replies.take(count).drop_last() =~= replies.take(count - 1));
        assert(replies.take(count).last() == replies[count - 1]);
    }
}

/// In every state the created directories are levels of the path, from above downwards.
proof fn lemma_made_downwards(
    path: Seq<u8>,
    states: Seq<ManagedDirectories>,
    replies: Seq<Reply>,
    count: int,
)
    requires
        is_run(path, states, replies),
        0 <= count <= replies.len(),
    ensures
        managed_sound(
            ancestor_count(path),
            states[count].phase,
            states[count].made@,
        ),
        states[count].levels == states[0].levels,
        states[count].made@.len() <= ancestor_count(path) <= usize::MAX,
        ancestor_count(path) == states[0].levels@.len(),
{
    lemma_levels_stay(path, states, replies, count);
    lemma_components_well_formed(path);
    assert(states[0].levels.len() == states[0].levels@.len());
    directories_are_made_downwards(states[0].levels@.len(), replies.take(count));
}

proof fn lemma_levels_push(made: Seq<Made>, directory: Made)
    ensures
        levels_of(made.push(directory)) == levels_of(made).push(directory.level),
{
    assert(levels_of(made.push(directory)) =~= levels_of(made).push(directory.level));
}

proof fn lemma_created(
    path: Seq<u8>,
    states: Seq<ManagedDirectories>,
    replies: Seq<Reply>,
    count: int,
)
    requires
        is_run(path, states, replies),
        0 <= count <= replies.len(),
    ensures
        ({
            let created = levels_created(states, replies, count);
            let made = levels_of(states[count].made@);
            match states[count].phase {
                ManagedPhase::InspectMade { level } => created == made.push(level),
                ManagedPhase::InspectForRemoval { .. } => true,
                ManagedPhase::Remove { .. } => true,
                ManagedPhase::Failed(_) => true,
                _ => created == made,
            }
        }),
    decreases count,
{
    if count == 0 {
        assert(levels_of(states[0].made@) =~= Seq::<usize>::empty());
    } else {
        lemma_created(path, states, replies, count - 1);
        let state = states[count - 1];
        assert(state.follows(replies[count - 1], states[count]));
        match (state.phase, replies[count - 1]) {
            (ManagedPhase::InspectMade { level }, Reply::Found(entry)) => {
                lemma_levels_push(state.made@, Made { level, identity: entry.identity });
            },
            _ => {},
        }
    }
}

/// What a successful run hands back is exactly the levels whose creation was answered
/// with success, the outermost first.
pub proof fn a_successful_run_returns_what_it_made(
    path: Seq<u8>,
    states: Seq<ManagedDirectories>,
    replies: Seq<Reply>,
)
    requires
        is_run(path, states, replies),
        states.last().phase is Completed,
    ensures
        levels_of(states.last().made@) == levels_created(states, replies, replies.len() as int),
        forall|i: int, j: int|
            0 <= i < j < states.last().made@.len() ==> states.last().made@[i].level
                > states.last().made@[j].level,
{
    lemma_created(path, states, replies, replies.len() as int);
    lemma_made_downwards(path, states, replies, replies.len() as int);
}

/// A run that finds the path itself makes nothing and changes nothing: it only looks.
pub proof fn a_run_that_finds_its_path_only_looks(
    path: Seq<u8>,
    states: Seq<ManagedDirectories>,
    replies: Seq<Reply>,
    count: int,
)
    requires
        is_run(path, states, replies),
        replies.len() > 0,
        replies[0] is Found,
        0 <= count <= replies.len(),
    ensures
        states[count].made@.len() == 0,
        states[count].asks() is Inspect || states[count].asks() is Nothing,
        count == 1 ==> states[count].phase is Check,
        count > 1 ==> states[count].phase is Completed || states[count].phase is Failed,
    decreases count,
{
    if count > 0 {
        a_run_that_finds_its_path_only_looks(path, states, replies, count - 1);
        assert(states[count - 1].follows(replies[count - 1], states[count]));
    }
}

/// Whether at this point of a run the directory that was created as number `index` is
/// looked at in order to be removed, and is then removed where it is still the same.
pub open spec fn is_taken_back(
    states: Seq<ManagedDirectories>,
    replies: Seq<Reply>,
    index: int,
    point: int,
) -> bool {
    let state = states[point];
    let directory = state.made@[index];
    let place = at_level(views(state.levels@), directory.level);
    &&& state.phase is InspectForRemoval
    &&& state.phase->InspectForRemoval_left == index + 1
    &&& state.asks() == Ask::Inspect(place)
    &&& (replies[point] matches Reply::Found(entry) && entry.identity == directory.identity)
        ==> states[point + 1].asks() == Ask::RemoveDirectory(place)
}

/// Whether the directory that was created as number `index` was taken back before this
/// point.
pub open spec fn was_taken_back(
    states: Seq<ManagedDirectories>,
    replies: Seq<Reply>,
    index: int,
    point: int,
) -> bool {
    exists|earlier: int|
        0 <= earlier < point && states[earlier].made@ == states[point].made@
            && #[trigger] is_taken_back(states, replies, index, earlier)
}

/// Whether every directory from number `from` on was taken back before this point.
pub open spec fn were_taken_back(
    states: Seq<ManagedDirectories>,
    replies: Seq<Reply>,
    from: int,
    point: int,
) -> bool {
    forall|index: int|
        from <= index < states[point].made@.len() ==> #[trigger] was_taken_back(
            states,
            replies,
            index,
            point,
        )
}

proof fn lemma_still_taken_back(
    states: Seq<ManagedDirectories>,
    replies: Seq<Reply>,
    from: int,
    point: int,
)
    requires
        were_taken_back(states, replies, from, point),
        states[point + 1].made@ == states[point].made@,
    ensures
        were_taken_back(states, replies, from, point + 1),
{
    assert forall|index: int| from <= index < states[point + 1].made@.len() implies #[trigger]
        was_taken_back(states, replies, index, point + 1) by {
        assert(was_taken_back(states, replies, index, point));
        let earlier = choose|earlier: int|
            0 <= earlier < point && states[earlier].made@ == states[point].made@
                && #[trigger] is_taken_back(states, replies, index, earlier);
        assert(is_taken_back(states, replies, index, earlier));
    }
}

proof fn lemma_taken_back(
    path: Seq<u8>,
    states: Seq<ManagedDirectories>,
    replies: Seq<Reply>,
    count: int,
)
    requires
        is_run(path, states, replies),
        0 <= count <= replies.len(),
    ensures
        match states[count].phase {
            ManagedPhase::InspectForRemoval { left, .. } => were_taken_back(
                states,
                replies,
                left as int,
                count,
            ),
            ManagedPhase::Remove { left, .. } => were_taken_back(states, replies, left - 1, count),
            ManagedPhase::Failed(_) => were_taken_back(states, replies, 0, count),
            _ => true,
        },
    decreases count,
{
    if count > 0 {
        lemma_taken_back(path, states, replies, count - 1);
        lemma_made_downwards(path, states, replies, count - 1);
        lemma_made_downwards(path, states, replies, count);
        let state = states[count - 1];
        let next = states[count];
        assert(state.follows(replies[count - 1], next));
        match state.phase {
            ManagedPhase::InspectForRemoval { left, .. } => {
                lemma_still_taken_back(states, replies, left as int, count - 1);
                assert(is_taken_back(states, replies, left - 1, count - 1));
                assert(was_taken_back(states, replies, left - 1, count));
                assert(were_taken_back(states, replies, left - 1, count));
            },
            ManagedPhase::Remove { left, .. } => {
                lemma_still_taken_back(states, replies, left - 1, count - 1);
            },
            ManagedPhase::Failed(_) => {
                lemma_still_taken_back(states, replies, 0, count - 1);
            },
            _ => {},
        }
    }
}

/// After a failure every directory that was created is looked at, the latest first, and
/// is removed where it is still the same.
pub proof fn a_failed_run_takes_everything_back(
    path: Seq<u8>,
    states: Seq<ManagedDirectories>,
    replies: Seq<Reply>,
)
    requires
        is_run(path, states, replies),
        states.last().phase is Failed,
    ensures
        were_taken_back(states, replies, 0, replies.len() as int),
{
    lemma_taken_back(path, states, replies, replies.len() as int);
}

// --------------------------------------------------
// Runs on a file system that nothing else changes
// --------------------------------------------------

/// What a file system holds: the entries at their paths.
pub type Tree = Map<Seq<u8>, Entry>;

/// Whether the request was performed on a file system and answered truthfully. Whatever
/// is asked for may fail, and then nothing has changed.
pub open spec fn is_performed(before: Tree, ask: Ask, reply: Reply, after: Tree) -> bool {
    match ask {
        Ask::Inspect(path) => after == before && match reply {
            Reply::Found(entry) => before.dom().contains(path) && before[path] == entry,
            Reply::Failed(fault) => fault.kind == FaultKind::NotFound ==> !before.dom().contains(
                path,
            ),
            _ => false,
        },
        Ask::MakeDirectory { path, .. } => match reply {
            Reply::Done => {
                &&& !before.dom().contains(path)
                &&& after.dom().contains(path)
                &&& after[path].kind == FileKind::Directory
                &&& after == before.insert(path, after[path])
            },
            Reply::Failed(fault) => after == before && (fault.kind == FaultKind::AlreadyExists
                ==> before.dom().contains(path)),
            _ => false,
        },
        Ask::SetMode { path, mode } => match reply {
            Reply::Done => before.dom().contains(path) && after == before.insert(
                path,
                Entry { mode, ..before[path] },
            ),
            Reply::Failed(_) => after == before,
            _ => false,
        },
        Ask::RemoveDirectory(path) => match reply {
            Reply::Done => after == before.remove(path),
            Reply::Failed(_) => after == before,
            _ => false,
        },
        _ => after == before,
    }
}

/// Whether everything that a run asks for is performed on a file system that nothing
/// else changes; `trees` is what it holds in each state.
pub open spec fn is_performed_on(
    states: Seq<ManagedDirectories>,
    replies: Seq<Reply>,
    trees: Seq<Tree>,
) -> bool {
    &&& trees.len() == states.len()
    &&& forall|i: int|
        0 <= i < replies.len() ==> is_performed(
            trees[i],
            states[i].asks(),
            #[trigger] replies[i],
            trees[i + 1],
        )
}

/// A directory as the creation leaves it.
pub open spec fn as_made(directory: Made) -> Entry {
    Entry {
        kind: FileKind::Directory,
        mode: INSTALL_DIRECTORY_MODE,
        identity: directory.identity,
    }
}

/// A file system with the directories that were created above and at a path.
pub open spec fn with_made(tree: Tree, path: Seq<u8>, made: Seq<Made>) -> Tree
    decreases made.len(),
{
    if made.len() == 0 {
        tree
    } else {
        with_made(tree, path, made.drop_last()).insert(
            ancestor(path, made.last().level as int),
            as_made(made.last()),
        )
    }
}

proof fn lemma_ancestor_components(path: Seq<u8>, steps: int)
    requires
        0 <= steps < ancestor_count(path),
    ensures
        components_of(ancestor(path, steps)) == components_of(path).take(
            components_of(path).len() - steps,
        ),
    decreases steps,
{
    let parts = components_of(path);
    lemma_components_well_formed(path);
    if steps == 0 {
        assert(ancestor(path, 0) == path);
        assert(parts.take(parts.len() as int) =~= parts);
    } else {
        lemma_ancestor_components(path, steps - 1);
        let above = ancestor(path, steps - 1);
        let left = parts.take(parts.len() - (steps - 1));
        assert(left.last() == parts[parts.len() - steps]);
        assert(has_parent(above));
        lemma_parent_components(above);
        assert(left.drop_last() =~= parts.take(parts.len() - steps));
    }
}

/// Different levels of a path are different places.
proof fn lemma_ancestors_differ(path: Seq<u8>, first: int, second: int)
    requires
        0 <= first < ancestor_count(path),
        0 <= second < ancestor_count(path),
        first != second,
    ensures
        ancestor(path, first) != ancestor(path, second),
{
    lemma_ancestor_components(path, first);
    lemma_ancestor_components(path, second);
    assert(components_of(ancestor(path, first)).len() == components_of(path).len() - first);
    assert(components_of(ancestor(path, second)).len() == components_of(path).len() - second);
}

/// What a file system holds beside the directories that were created.
proof fn lemma_with_made(tree: Tree, path: Seq<u8>, made: Seq<Made>, place: Seq<u8>)
    requires
        forall|j: int| 0 <= j < made.len() ==> ancestor(path, (#[trigger] made[j]).level as int) != place,
    ensures
        with_made(tree, path, made).dom().contains(place) == tree.dom().contains(place),
        tree.dom().contains(place) ==> with_made(tree, path, made)[place] == tree[place],
    decreases made.len(),
{
    if made.len() > 0 {
        let front = made.drop_last();
        assert forall|j: int| 0 <= j < front.len() implies ancestor(
            path,
            (#[trigger] front[j]).level as int,
        ) != place by {
            assert(front[j] == made[j]);
        }
        lemma_with_made(tree, path, front, place);
        assert(ancestor(path, made[made.len() - 1].level as int) != place);
    }
}

/// Whether the created directories are all levels below `top`, without a gap.
pub open spec fn is_gapless(made: Seq<Made>, top: int) -> bool {
    forall|j: int| 0 <= j < made.len() ==> (#[trigger] made[j]).level == top - 1 - j
}

/// Whether this is the nearest level that exists.
pub open spec fn is_nearest(tree: Tree, path: Seq<u8>, level: int) -> bool {
    &&& 0 <= level < ancestor_count(path)
    &&& tree.dom().contains(ancestor(path, level))
    &&& forall|i: int| 0 <= i < level ==> !tree.dom().contains(#[trigger] ancestor(path, i))
}

/// Whether what a file system holds and how far the creation has come fit together.
pub open spec fn fits(path: Seq<u8>, state: ManagedDirectories, start: Tree, tree: Tree) -> bool {
    let made = state.made@;
    let count = made.len() as int;
    match state.phase {
        ManagedPhase::Search { level } => {
            &&& level < ancestor_count(path)
            &&& count == 0
            &&& tree == start
            &&& forall|i: int| 0 <= i < level ==> !start.dom().contains(#[trigger] ancestor(path, i))
        },
        ManagedPhase::Make { level } => {
            &&& is_nearest(start, path, count + level + 1)
            &&& is_gapless(made, count + level + 1)
            &&& tree == with_made(start, path, made)
        },
        ManagedPhase::InspectMade { level } => {
            let place = ancestor(path, level as int);
            &&& is_nearest(start, path, count + level + 1)
            &&& is_gapless(made, count + level + 1)
            &&& tree.dom().contains(place)
            &&& tree[place].kind == FileKind::Directory
            &&& tree == with_made(start, path, made).insert(place, tree[place])
        },
        ManagedPhase::SetMode { level } => {
            &&& is_nearest(start, path, count + level)
            &&& is_gapless(made, count + level)
            &&& is_last_made(path, made, start, tree)
            &&& tree[ancestor(path, level as int)].kind == FileKind::Directory
        },
        ManagedPhase::Verify { .. } => false,
        ManagedPhase::Check => {
            &&& is_nearest(start, path, count)
            &&& is_gapless(made, count)
            &&& tree == with_made(start, path, made)
        },
        ManagedPhase::Completed => {
            &&& is_nearest(start, path, count)
            &&& is_gapless(made, count)
            &&& tree == with_made(start, path, made)
        },
        ManagedPhase::InspectForRemoval { left, failure } => failure is InspectMade || {
            &&& 0 < left <= count
            &&& are_missing(start, path, made)
            &&& is_last_made(path, made.take(left as int), start, tree)
        },
        ManagedPhase::Remove { left, failure } => failure is InspectMade || {
            &&& 0 < left <= count
            &&& are_missing(start, path, made)
            &&& is_last_made(path, made.take(left as int), start, tree)
        },
        ManagedPhase::Failed(failure) => failure is InspectMade || tree == start,
    }
}

/// Whether the directories that were created are levels of the path at which nothing
/// stood, none twice.
pub open spec fn are_missing(start: Tree, path: Seq<u8>, made: Seq<Made>) -> bool {
    &&& forall|j: int|
        0 <= j < made.len() ==> (#[trigger] made[j]).level < ancestor_count(path)
            && !start.dom().contains(ancestor(path, made[j].level as int))
    &&& forall|i: int, j: int| 0 <= i < j < made.len() ==> made[i].level > made[j].level
}

/// Whether a file system holds the directories that were created, the last one
/// possibly with other permissions.
pub open spec fn is_last_made(path: Seq<u8>, made: Seq<Made>, start: Tree, tree: Tree) -> bool {
    let place = ancestor(path, made.last().level as int);
    &&& made.len() > 0
    &&& tree.dom().contains(place)
    &&& tree[place].identity == made.last().identity
    &&& tree == with_made(start, path, made.drop_last()).insert(place, tree[place])
}

proof fn lemma_whole_is_last(path: Seq<u8>, made: Seq<Made>, start: Tree)
    requires
        made.len() > 0,
    ensures
        is_last_made(path, made, start, with_made(start, path, made)),
{
}

proof fn lemma_gapless_missing(start: Tree, path: Seq<u8>, made: Seq<Made>, top: int)
    requires
        is_nearest(start, path, top),
        is_gapless(made, top),
        made.len() <= top,
    ensures
        are_missing(start, path, made),
{
    assert forall|j: int| 0 <= j < made.len() implies (#[trigger] made[j]).level < ancestor_count(
        path,
    ) && !start.dom().contains(ancestor(path, made[j].level as int)) by {
        assert(made[j].level == top - 1 - j);
    }
}

/// The place of a level that is above nothing that was created is free.
proof fn lemma_level_is_free(start: Tree, path: Seq<u8>, made: Seq<Made>, level: usize)
    requires
        level < ancestor_count(path),
        forall|j: int|
            0 <= j < made.len() ==> level < (#[trigger] made[j]).level < ancestor_count(path),
        !start.dom().contains(ancestor(path, level as int)),
    ensures
        !with_made(start, path, made).dom().contains(ancestor(path, level as int)),
{
    assert forall|j: int| 0 <= j < made.len() implies ancestor(
        path,
        (#[trigger] made[j]).level as int,
    ) != ancestor(path, level as int) by {
        lemma_ancestors_differ(path, made[j].level as int, level as int);
    }
    lemma_with_made(start, path, made, ancestor(path, level as int));
}

/// Taking back the last directory leaves what was there before it.
proof fn lemma_last_goes(path: Seq<u8>, made: Seq<Made>, start: Tree, tree: Tree)
    requires
        are_missing(start, path, made),
        is_last_made(path, made, start, tree),
    ensures
        tree.remove(ancestor(path, made.last().level as int)) == with_made(
            start,
            path,
            made.drop_last(),
        ),
{
    let place = ancestor(path, made.last().level as int);
    let front = made.drop_last();
    let level = made.last().level;
    assert(made[made.len() - 1] == made.last());
    assert forall|j: int| 0 <= j < front.len() implies level < (#[trigger] front[j]).level
        < ancestor_count(path) by {
        assert(front[j] == made[j]);
    }
    lemma_level_is_free(start, path, front, level);
    assert(tree.remove(place) =~= with_made(start, path, front));
}

proof fn lemma_missing_front(start: Tree, path: Seq<u8>, made: Seq<Made>, count: int)
    requires
        are_missing(start, path, made),
        0 <= count <= made.len(),
    ensures
        are_missing(start, path, made.take(count)),
{
    let front = made.take(count);
    assert forall|j: int| 0 <= j < front.len() implies (#[trigger] front[j]).level < ancestor_count(
        path,
    ) && !start.dom().contains(ancestor(path, front[j].level as int)) by {
        assert(front[j] == made[j]);
    }
}

/// Whether directories are taken back, or the creation has failed.
pub open spec fn is_undoing(phase: ManagedPhase) -> bool {
    phase is InspectForRemoval || phase is Remove || phase is Failed
}

/// Whether the levels are those of the path.
pub open spec fn has_levels(state: ManagedDirectories, path: Seq<u8>) -> bool {
    &&& state.levels@.len() == ancestor_count(path)
    &&& ancestor_count(path) <= usize::MAX
    &&& forall|i: int|
        0 <= i < state.levels@.len() ==> #[trigger] state.levels@[i]@ == ancestor(path, i)
}

proof fn lemma_at_level(state: ManagedDirectories, path: Seq<u8>, level: usize)
    requires
        has_levels(state, path),
        level < ancestor_count(path),
    ensures
        at_level(views(state.levels@), level) == ancestor(path, level as int),
{
    assert(views(state.levels@)[level as int] == state.levels@[level as int]@);
}

proof fn lemma_undo_fits(
    path: Seq<u8>,
    next: ManagedDirectories,
    failure: ManagedFailure,
    start: Tree,
    tree: Tree,
)
    requires
        next.made@.len() <= usize::MAX,
        next.phase == undo_made(next.made@.len(), failure),
        are_missing(start, path, next.made@),
        next.made@.len() == 0 ==> tree == start,
        next.made@.len() > 0 ==> is_last_made(path, next.made@, start, tree),
    ensures
        fits(path, next, start, tree),
{
    assert(next.made@.take(next.made@.len() as int) =~= next.made@);
}

proof fn lemma_fits_search(
    path: Seq<u8>,
    state: ManagedDirectories,
    reply: Reply,
    next: ManagedDirectories,
    start: Tree,
    before: Tree,
    after: Tree,
)
    requires
        has_levels(state, path),
        next.made@.len() <= usize::MAX,
        state.phase is Search,
        fits(path, state, start, before),
        state.follows(reply, next),
        is_performed(before, state.asks(), reply, after),
    ensures
        fits(path, next, start, after),
{
    let made = state.made@;
    let count = made.len() as int;
    let level = state.phase->Search_level;
    lemma_at_level(state, path, level);
    assert(with_made(start, path, made) == start);
    if next.phase is Search || next.phase is Make || next.phase is Check {
        assert(is_gapless(next.made@, level as int));
    }
}

proof fn lemma_fits_make(
    path: Seq<u8>,
    state: ManagedDirectories,
    reply: Reply,
    next: ManagedDirectories,
    start: Tree,
    before: Tree,
    after: Tree,
)
    requires
        has_levels(state, path),
        next.made@.len() <= usize::MAX,
        state.phase is Make,
        fits(path, state, start, before),
        state.follows(reply, next),
        is_performed(before, state.asks(), reply, after),
    ensures
        fits(path, next, start, after),
{
    let made = state.made@;
    let count = made.len() as int;
    let level = state.phase->Make_level;
    let top = count + level + 1;
    lemma_at_level(state, path, level);
    assert forall|j: int| 0 <= j < made.len() implies level < (#[trigger] made[j]).level
        < ancestor_count(path) by {
        assert(made[j].level == top - 1 - j);
    }
    lemma_level_is_free(start, path, made, level);
    lemma_gapless_missing(start, path, made, top);
    if is_undoing(next.phase) {
        if count > 0 {
            lemma_whole_is_last(path, made, start);
        }
        assert(reply is Failed);
        lemma_undo_fits(
            path,
            next,
            ManagedFailure::Create { level, fault: reply->Failed_0 },
            start,
            after,
        );
    }
}

proof fn lemma_fits_inspect(
    path: Seq<u8>,
    state: ManagedDirectories,
    reply: Reply,
    next: ManagedDirectories,
    start: Tree,
    before: Tree,
    after: Tree,
)
    requires
        has_levels(state, path),
        next.made@.len() <= usize::MAX,
        state.phase is InspectMade,
        fits(path, state, start, before),
        state.follows(reply, next),
        is_performed(before, state.asks(), reply, after),
    ensures
        fits(path, next, start, after),
{
    let made = state.made@;
    let count = made.len() as int;
    let level = state.phase->InspectMade_level;
    let top = count + level + 1;
    lemma_at_level(state, path, level);
    if reply is Found {
        let directory = Made { level, identity: reply->Found_0.identity };
        assert(next.made@ == made.push(directory));
        assert(next.made@.drop_last() =~= made);
        assert forall|j: int| 0 <= j < next.made@.len() implies (#[trigger] next.made@[j]).level
            == top - 1 - j by {
            if j < made.len() {
                assert(next.made@[j] == made[j]);
            }
        }
    }
}

proof fn lemma_fits_mode(
    path: Seq<u8>,
    state: ManagedDirectories,
    reply: Reply,
    next: ManagedDirectories,
    start: Tree,
    before: Tree,
    after: Tree,
)
    requires
        has_levels(state, path),
        next.made@.len() <= usize::MAX,
        state.phase is SetMode,
        fits(path, state, start, before),
        state.follows(reply, next),
        is_performed(before, state.asks(), reply, after),
    ensures
        fits(path, next, start, after),
{
    let made = state.made@;
    let count = made.len() as int;
    let level = state.phase->SetMode_level;
    let top = count + level;
    lemma_at_level(state, path, level);
    assert(made[made.len() - 1].level == top - 1 - (made.len() - 1));
    let place = ancestor(path, level as int);
    lemma_gapless_missing(start, path, made, top);
    if reply is Done {
        assert(after =~= with_made(start, path, made));
        if level > 0 {
            assert(next.phase == (ManagedPhase::Make { level: (level - 1) as usize }));
        }
    } else {
        lemma_undo_fits(
            path,
            next,
            ManagedFailure::SetMode { level, fault: reply->Failed_0 },
            start,
            after,
        );
    }
}

proof fn lemma_fits_check(
    path: Seq<u8>,
    state: ManagedDirectories,
    reply: Reply,
    next: ManagedDirectories,
    start: Tree,
    before: Tree,
    after: Tree,
)
    requires
        has_levels(state, path),
        next.made@.len() <= usize::MAX,
        state.phase is Check,
        fits(path, state, start, before),
        state.follows(reply, next),
        is_performed(before, state.asks(), reply, after),
    ensures
        fits(path, next, start, after),
{
    let made = state.made@;
    let count = made.len() as int;
    lemma_at_level(state, path, 0);
    lemma_gapless_missing(start, path, made, count);
    if is_undoing(next.phase) {
        if count > 0 {
            lemma_whole_is_last(path, made, start);
        }
        let failure = if reply is Failed {
            ManagedFailure::Inspect { level: 0, fault: reply->Failed_0 }
        } else {
            ManagedFailure::NotDirectory { level: 0 }
        };
        lemma_undo_fits(path, next, failure, start, after);
    }
}

proof fn lemma_fits_forward(
    path: Seq<u8>,
    state: ManagedDirectories,
    reply: Reply,
    next: ManagedDirectories,
    start: Tree,
    before: Tree,
    after: Tree,
)
    requires
        has_levels(state, path),
        next.made@.len() <= usize::MAX,
        !is_undoing(state.phase),
        fits(path, state, start, before),
        state.follows(reply, next),
        is_performed(before, state.asks(), reply, after),
    ensures
        fits(path, next, start, after),
{
    match state.phase {
        ManagedPhase::Search { .. } => lemma_fits_search(path, state, reply, next, start, before, after),
        ManagedPhase::Make { .. } => lemma_fits_make(path, state, reply, next, start, before, after),
        ManagedPhase::InspectMade { .. } => lemma_fits_inspect(path, state, reply, next, start, before, after),
        ManagedPhase::SetMode { .. } => lemma_fits_mode(path, state, reply, next, start, before, after),
        ManagedPhase::Check => lemma_fits_check(path, state, reply, next, start, before, after),
        _ => {},
    }
}

proof fn lemma_fits_backward(
    path: Seq<u8>,
    state: ManagedDirectories,
    reply: Reply,
    next: ManagedDirectories,
    start: Tree,
    before: Tree,
    after: Tree,
)
    requires
        has_levels(state, path),
        next.made@.len() <= usize::MAX,
        is_undoing(state.phase),
        fits(path, state, start, before),
        state.follows(reply, next),
        is_performed(before, state.asks(), reply, after),
        state.phase !is Failed ==> reply !is Failed,
    ensures
        fits(path, next, start, after),
{
    let made = state.made@;
    match state.phase {
        ManagedPhase::InspectForRemoval { left, failure } => {
            if failure !is InspectMade {
                lemma_at_level(state, path, made[left - 1].level);
                assert(made.take(left as int).last() == made[left - 1]);
            }
        },
        ManagedPhase::Remove { left, failure } => {
            if failure !is InspectMade {
                lemma_at_level(state, path, made[left - 1].level);
                let front = made.take(left as int);
                assert(front.last() == made[left - 1]);
                lemma_missing_front(start, path, made, left as int);
                lemma_last_goes(path, front, start, before);
                assert(front.drop_last() =~= made.take(left - 1));
                if left > 1 {
                    lemma_whole_is_last(path, made.take(left - 1), start);
                }
            }
        },
        _ => {},
    }
}

/// Whether nothing fails while directories are taken back.
pub open spec fn takes_back_well(states: Seq<ManagedDirectories>, replies: Seq<Reply>) -> bool {
    forall|i: int|
        0 <= i < replies.len() && is_undoing(states[i].phase) && states[i].phase !is Failed
            ==> !(#[trigger] replies[i] is Failed)
}

proof fn lemma_run_levels(
    path: Seq<u8>,
    states: Seq<ManagedDirectories>,
    replies: Seq<Reply>,
    count: int,
)
    requires
        is_run(path, states, replies),
        0 <= count <= replies.len(),
    ensures
        has_levels(states[count], path),
        states[count].made@.len() <= usize::MAX,
{
    lemma_made_downwards(path, states, replies, count);
}

proof fn lemma_run_fits(
    path: Seq<u8>,
    states: Seq<ManagedDirectories>,
    replies: Seq<Reply>,
    trees: Seq<Tree>,
    count: int,
)
    requires
        is_run(path, states, replies),
        is_performed_on(states, replies, trees),
        0 <= count <= replies.len(),
    ensures
        is_undoing(states[count].phase) || fits(path, states[count], trees[0], trees[count]),
        takes_back_well(states, replies) ==> fits(path, states[count], trees[0], trees[count]),
    decreases count,
{
    lemma_run_levels(path, states, replies, 0);
    if count > 0 {
        lemma_run_fits(path, states, replies, trees, count - 1);
        lemma_run_levels(path, states, replies, count - 1);
        lemma_run_levels(path, states, replies, count);
        let state = states[count - 1];
        let reply = replies[count - 1];
        let next = states[count];
        assert(state.follows(reply, next));
        assert(is_performed(trees[count - 1], state.asks(), reply, trees[count]));
        if !is_undoing(state.phase) {
            lemma_fits_forward(path, state, reply, next, trees[0], trees[count - 1], trees[count]);
        } else if takes_back_well(states, replies) {
            lemma_fits_backward(path, state, reply, next, trees[0], trees[count - 1], trees[count]);
        }
    }
}

proof fn lemma_made_is_there(tree: Tree, path: Seq<u8>, made: Seq<Made>, top: int, level: int)
    requires
        is_gapless(made, top),
        0 < top <= ancestor_count(path),
        top - made.len() <= level < top,
        made.len() <= top,
    ensures
        with_made(tree, path, made).dom().contains(ancestor(path, level)),
        with_made(tree, path, made)[ancestor(path, level)].kind == FileKind::Directory,
        with_made(tree, path, made)[ancestor(path, level)].mode == INSTALL_DIRECTORY_MODE,
    decreases made.len(),
{
    let front = made.drop_last();
    let last = made[made.len() - 1];
    assert(last.level == top - 1 - (made.len() - 1));
    if last.level != level {
        assert forall|j: int| 0 <= j < front.len() implies (#[trigger] front[j]).level == top - 1
            - j by {
            assert(front[j] == made[j]);
        }
        lemma_made_is_there(tree, path, front, top, level);
        lemma_ancestors_differ(path, last.level as int, level);
    }
}

/// Whether a place is none of the first levels of a path.
pub open spec fn is_elsewhere(place: Seq<u8>, path: Seq<u8>, count: int) -> bool {
    forall|i: int| 0 <= i < count ==> place != #[trigger] ancestor(path, i)
}

/// Whether the same stands at a place, or nothing still.
pub open spec fn is_unchanged(before: Tree, after: Tree, place: Seq<u8>) -> bool {
    &&& after.dom().contains(place) == before.dom().contains(place)
    &&& before.dom().contains(place) ==> after[place] == before[place]
}

/// Whether a managed directory stands at a place, with its permissions.
pub open spec fn is_managed(tree: Tree, place: Seq<u8>) -> bool {
    &&& tree.dom().contains(place)
    &&& tree[place].kind == FileKind::Directory
    &&& tree[place].mode == INSTALL_DIRECTORY_MODE
}

/// A successful run on a file system that nothing else changes makes exactly the path
/// and those of its ancestors at which nothing stood, up to the nearest that stood
/// there, the outermost first. Each of them is then a directory with the permissions of
/// a managed one, and everything else is as it was, with the permissions that it had.
/// Whether or not something was missing, the path is a directory then, and no link.
pub proof fn a_successful_run_makes_what_was_missing(
    path: Seq<u8>,
    states: Seq<ManagedDirectories>,
    replies: Seq<Reply>,
    trees: Seq<Tree>,
)
    requires
        is_run(path, states, replies),
        is_performed_on(states, replies, trees),
        states.last().phase is Completed,
    ensures
        trees.last().dom().contains(path),
        trees.last()[path].kind == FileKind::Directory,
        is_nearest(trees[0], path, states.last().made@.len() as int),
        is_gapless(states.last().made@, states.last().made@.len() as int),
        forall|i: int|
            0 <= i < states.last().made@.len() ==> is_managed(
                trees.last(),
                #[trigger] ancestor(path, i),
            ),
        forall|place: Seq<u8>|
            is_elsewhere(place, path, states.last().made@.len() as int) ==> #[trigger] is_unchanged(
                trees[0],
                trees.last(),
                place,
            ),
{
    let end = replies.len() as int;
    lemma_run_fits(path, states, replies, trees, end);
    lemma_ends_at_a_directory(path, states, replies, trees, end);
    let made = states.last().made@;
    let count = made.len() as int;
    assert(states.last() == states[end] && trees.last() == trees[end]);
    assert forall|i: int| 0 <= i < count implies is_managed(
        trees.last(),
        #[trigger] ancestor(path, i),
    ) by {
        lemma_made_is_there(trees[0], path, made, count, i);
    }
    assert forall|place: Seq<u8>| is_elsewhere(place, path, count) implies #[trigger] is_unchanged(
        trees[0],
        trees.last(),
        place,
    ) by {
        assert forall|j: int| 0 <= j < made.len() implies ancestor(
            path,
            (#[trigger] made[j]).level as int,
        ) != place by {
            assert(made[j].level == count - 1 - j);
        }
        lemma_with_made(trees[0], path, made, place);
    }
}

/// Where the path stands already, a run makes nothing and leaves everything as it is;
/// where it is a directory and nothing fails, the run is a success after two looks.
pub proof fn a_run_on_what_exists_changes_nothing(
    path: Seq<u8>,
    states: Seq<ManagedDirectories>,
    replies: Seq<Reply>,
    trees: Seq<Tree>,
    count: int,
)
    requires
        is_run(path, states, replies),
        is_performed_on(states, replies, trees),
        trees[0].dom().contains(path),
        0 <= count <= replies.len(),
    ensures
        states[count].made@.len() == 0,
        trees[count] == trees[0],
        count >= 2 && trees[0][path].kind == FileKind::Directory && !(replies[0] is Failed) && !(
        replies[1] is Failed) ==> states[count].phase is Completed,
    decreases count,
{
    lemma_run_levels(path, states, replies, 0);
    assert(ancestor(path, 0) == path);
    if count > 0 {
        a_run_on_what_exists_changes_nothing(path, states, replies, trees, count - 1);
        lemma_run_levels(path, states, replies, count - 1);
        let state = states[count - 1];
        assert(state.follows(replies[count - 1], states[count]));
        assert(is_performed(trees[count - 1], state.asks(), replies[count - 1], trees[count]));
        assert(states[0].follows(replies[0], states[1]));
        assert(is_performed(trees[0], states[0].asks(), replies[0], trees[1]));
        lemma_at_level(states[0], path, 0);
        if replies[0] is Found {
            a_run_that_finds_its_path_only_looks(path, states, replies, count - 1);
            if count > 1 {
                lemma_run_levels(path, states, replies, 1);
                lemma_at_level(states[1], path, 0);
                a_run_that_finds_its_path_only_looks(path, states, replies, 1);
                assert(states[1].follows(replies[1], states[2]));
                assert(is_performed(trees[1], states[1].asks(), replies[1], trees[2]));
                a_run_on_what_exists_changes_nothing(path, states, replies, trees, 1);
            }
        } else {
            lemma_stays_failed(path, states, replies, count - 1);
        }
    }
}

proof fn lemma_stays_failed(
    path: Seq<u8>,
    states: Seq<ManagedDirectories>,
    replies: Seq<Reply>,
    count: int,
)
    requires
        is_run(path, states, replies),
        replies.len() > 0,
        states[1].phase is Failed,
        0 <= count <= replies.len(),
    ensures
        count > 0 ==> states[count].phase is Failed,
    decreases count,
{
    if count > 1 {
        lemma_stays_failed(path, states, replies, count - 1);
        assert(states[count - 1].follows(replies[count - 1], states[count]));
    }
}

/// After a successful run the path is a directory.
proof fn lemma_ends_at_a_directory(
    path: Seq<u8>,
    states: Seq<ManagedDirectories>,
    replies: Seq<Reply>,
    trees: Seq<Tree>,
    count: int,
)
    requires
        is_run(path, states, replies),
        is_performed_on(states, replies, trees),
        0 <= count <= replies.len(),
        states[count].phase is Completed,
    ensures
        trees[count].dom().contains(path),
        trees[count][path].kind == FileKind::Directory,
    decreases count,
{
    let state = states[count - 1];
    assert(count > 0);
    lemma_run_levels(path, states, replies, count - 1);
    lemma_made_downwards(path, states, replies, count - 1);
    assert(state.follows(replies[count - 1], states[count]));
    assert(is_performed(trees[count - 1], state.asks(), replies[count - 1], trees[count]));
    assert(ancestor(path, 0) == path);
    if state.phase is Completed {
        lemma_ends_at_a_directory(path, states, replies, trees, count - 1);
    } else {
        assert(state.phase is Check);
        lemma_at_level(state, path, 0);
    }
}

/// A second run after a successful one makes nothing and leaves everything as it is;
/// where nothing fails, it is a success after two looks.
pub proof fn a_second_run_makes_nothing(
    path: Seq<u8>,
    states: Seq<ManagedDirectories>,
    replies: Seq<Reply>,
    trees: Seq<Tree>,
    later_states: Seq<ManagedDirectories>,
    later_replies: Seq<Reply>,
    later_trees: Seq<Tree>,
)
    requires
        is_run(path, states, replies),
        is_performed_on(states, replies, trees),
        states.last().phase is Completed,
        is_run(path, later_states, later_replies),
        is_performed_on(later_states, later_replies, later_trees),
        later_trees[0] == trees.last(),
    ensures
        later_states.last().made@.len() == 0,
        later_trees.last() == trees.last(),
        later_replies.len() >= 2 && !(later_replies[0] is Failed) && !(later_replies[1] is Failed)
            ==> later_states.last().phase is Completed,
{
    lemma_ends_at_a_directory(path, states, replies, trees, replies.len() as int);
    a_run_on_what_exists_changes_nothing(
        path,
        later_states,
        later_replies,
        later_trees,
        later_replies.len() as int,
    );
}

/// A failed run on a file system that nothing else changes leaves everything as it was,
/// provided that nothing fails while it takes back what it made, and that it has not
/// failed to look at a directory right after it was created.
pub proof fn a_failed_run_leaves_everything_as_it_was(
    path: Seq<u8>,
    states: Seq<ManagedDirectories>,
    replies: Seq<Reply>,
    trees: Seq<Tree>,
)
    requires
        is_run(path, states, replies),
        is_performed_on(states, replies, trees),
        takes_back_well(states, replies),
        states.last().phase is Failed,
        states.last().phase->Failed_0 !is InspectMade,
    ensures
        trees.last() == trees[0],
{
    lemma_run_fits(path, states, replies, trees, replies.len() as int);
}

} // verus!
