//! The copy of the dotfiles as a whole: what it has made when it is complete.
//!
//! The source of the copy does not change while it is copied. Its entries are named by
//! trails: the names that lead from the source to the entry.

use crate::bytes::views;
use crate::conflicts::place;
use crate::dotfiles::{fresh_copy, CopyStage, CopyState, CopyStep};
use crate::host::{Ask, FileKind, Reply};
use crate::paths::{joined, under};
use crate::stow::{visits, Errand};
use vstd::prelude::*;

verus! {

/// What stands in the source: the kind and the permissions of each entry, the names in
/// each directory, and the text of each link.
pub struct Origin {
    pub kinds: Map<Seq<u8>, FileKind>,
    pub modes: Map<Seq<u8>, u32>,
    pub names: Map<Seq<u8>, Seq<Seq<u8>>>,
    pub links: Map<Seq<u8>, Seq<u8>>,
}

/// Whether a reply tells what stands in the source, where the copy asks for that.
pub open spec fn is_told(origin: Origin, state: CopyState, reply: Reply) -> bool {
    match (state.stage, reply) {
        (CopyStage::Listing { source, .. }, Reply::Names(names)) => origin.names.dom().contains(
            source,
        ) && origin.names[source] == views(names@),
        (CopyStage::Entry { source, step, .. }, Reply::Found(entry)) => step == CopyStep::Look
            ==> origin.kinds.dom().contains(source) && origin.kinds[source] == entry.kind
            && origin.modes[source] == entry.mode & 0o7777,
        (CopyStage::Entry { source, step, .. }, Reply::Contents(link)) => step
            == CopyStep::ReadLink ==> origin.links[source] == link@,
        _ => true,
    }
}

/// Whether these are the states of a copy, each of which follows from the one before and
/// a reply that tells what stands in the source.
pub open spec fn is_copy(
    origin: Origin,
    core_root: Seq<u8>,
    home: Seq<u8>,
    states: Seq<CopyState>,
    replies: Seq<Reply>,
) -> bool {
    &&& states.len() == replies.len() + 1
    &&& states[0] == fresh_copy(core_root, home)
    &&& forall|i: int|
        0 <= i < replies.len() ==> is_told(origin, states[i], #[trigger] replies[i]) && states[i + 1]
            == states[i].after(replies[i])
}

/// Whether something was asked for and done in the first `count` steps.
pub open spec fn was_done(
    states: Seq<CopyState>,
    replies: Seq<Reply>,
    count: int,
    ask: Ask,
) -> bool {
    exists|i: int|
        0 <= i < count && i < states.len() && i < replies.len() && #[trigger] states[i].asks() == ask
            && replies[i] is Done
}

/// Whether an entry was copied: a directory was made with the permissions of its source,
/// a file was filled from its source and has its permissions, and a link was made with
/// the text of its source.
pub open spec fn was_copied(
    origin: Origin,
    states: Seq<CopyState>,
    replies: Seq<Reply>,
    count: int,
    from: Seq<u8>,
    to: Seq<u8>,
) -> bool {
    &&& origin.kinds.dom().contains(from)
    &&& match origin.kinds[from] {
        FileKind::Directory => was_done(
            states,
            replies,
            count,
            Ask::MakeDirectory { path: to, mode: origin.modes[from] },
        ),
        FileKind::Regular => was_done(
            states,
            replies,
            count,
            Ask::CopyFrom { source: from, path: to },
        ) && was_done(
            states,
            replies,
            count,
            Ask::SetOpenMode { path: to, mode: origin.modes[from] },
        ),
        FileKind::Symlink => was_done(
            states,
            replies,
            count,
            Ask::Symlink { target: origin.links[from], path: to },
        ),
        FileKind::Other => false,
    }
}

/// Whether a directory stands in the source.
pub open spec fn is_directory(origin: Origin, path: Seq<u8>) -> bool {
    origin.kinds.dom().contains(path) && origin.kinds[path] == FileKind::Directory
}

/// Whether the source holds an entry at the trail.
pub open spec fn holds(origin: Origin, source: Seq<u8>, trail: Seq<Seq<u8>>) -> bool {
    &&& forall|k: int|
        #![trigger trail.take(k)]
        0 <= k < trail.len() ==> origin.names.dom().contains(place(source, trail.take(k)))
            && origin.names[place(source, trail.take(k))].contains(trail[k])
    &&& forall|k: int|
        #![trigger trail.take(k)]
        0 < k < trail.len() ==> is_directory(origin, place(source, trail.take(k)))
}

// --------------------------------------------------
// What is still to be copied
// --------------------------------------------------

spec fn has_errand(state: CopyState, errand: Errand) -> bool {
    state.pending.contains(errand) || match state.stage {
        CopyStage::Listing { source, target } => errand == (Errand::List { source, target }),
        CopyStage::Entry { source, target, .. } => errand == (Errand::Visit { source, target }),
        CopyStage::Linking { source, target, .. } => errand == (Errand::Visit { source, target }),
        _ => false,
    }
}

spec fn covers_at(
    state: CopyState,
    source: Seq<u8>,
    target: Seq<u8>,
    trail: Seq<Seq<u8>>,
    count: int,
) -> bool {
    let from = place(source, trail.take(count));
    let to = place(target, trail.take(count));
    ||| 0 <= count < trail.len() && has_errand(state, Errand::List { source: from, target: to })
    ||| 0 < count <= trail.len() && has_errand(state, Errand::Visit { source: from, target: to })
}

spec fn accounts_for(
    origin: Origin,
    states: Seq<CopyState>,
    replies: Seq<Reply>,
    count: int,
    source: Seq<u8>,
    target: Seq<u8>,
    trail: Seq<Seq<u8>>,
) -> bool {
    ||| exists|k: int| #[trigger] covers_at(states[count], source, target, trail, k)
    ||| was_copied(origin, states, replies, count, place(source, trail), place(target, trail))
}

/// Whether the copy has not failed.
spec fn goes_well(state: CopyState) -> bool {
    !(state.stage is Undoing) && !(state.stage is Erasing) && !(state.stage is Failed)
}

/// Whether the copy has come to the entries.
spec fn is_inside(state: CopyState) -> bool {
    state.stage is Listing || state.stage is Entry || state.stage is Linking
        || state.stage is Completed
}

spec fn is_kind(origin: Origin, path: Seq<u8>, kind: FileKind) -> bool {
    origin.kinds.dom().contains(path) && origin.kinds[path] == kind
}

spec fn stage_fits(
    origin: Origin,
    states: Seq<CopyState>,
    replies: Seq<Reply>,
    count: int,
) -> bool {
    match states[count].stage {
        CopyStage::Entry { source, target, mode, step } => match step {
            CopyStep::Look => true,
            CopyStep::MakeDirectory => is_kind(origin, source, FileKind::Directory) && mode
                == origin.modes[source],
            CopyStep::KnowDirectory | CopyStep::SetDirectory => is_kind(
                origin,
                source,
                FileKind::Directory,
            ) && was_done(
                states,
                replies,
                count,
                Ask::MakeDirectory { path: target, mode: origin.modes[source] },
            ),
            CopyStep::Open | CopyStep::Create | CopyStep::KnowFile | CopyStep::Copy => is_kind(
                origin,
                source,
                FileKind::Regular,
            ) && mode == origin.modes[source],
            CopyStep::SetFile => is_kind(origin, source, FileKind::Regular) && mode
                == origin.modes[source] && was_done(
                states,
                replies,
                count,
                Ask::CopyFrom { source, path: target },
            ),
            CopyStep::Sync => is_kind(origin, source, FileKind::Regular) && was_done(
                states,
                replies,
                count,
                Ask::CopyFrom { source, path: target },
            ) && was_done(
                states,
                replies,
                count,
                Ask::SetOpenMode { path: target, mode: origin.modes[source] },
            ),
            CopyStep::ReadLink => is_kind(origin, source, FileKind::Symlink),
            CopyStep::KnowLink => is_kind(origin, source, FileKind::Symlink) && was_done(
                states,
                replies,
                count,
                Ask::Symlink { target: origin.links[source], path: target },
            ),
        },
        CopyStage::Linking { source, link, .. } => is_kind(origin, source, FileKind::Symlink)
            && origin.links[source] == link,
        _ => true,
    }
}

spec fn is_kept(
    origin: Origin,
    core_root: Seq<u8>,
    home: Seq<u8>,
    states: Seq<CopyState>,
    replies: Seq<Reply>,
    count: int,
) -> bool {
    let source = under(core_root, "dotfiles"@);
    let target = under(home, ".dotfiles"@);
    &&& states[count].source == source
    &&& states[count].target == target
    &&& stage_fits(origin, states, replies, count)
    &&& is_inside(states[count]) ==> forall|trail: Seq<Seq<u8>>|
        trail.len() > 0 && #[trigger] holds(origin, source, trail) ==> accounts_for(
            origin,
            states,
            replies,
            count,
            source,
            target,
            trail,
        )
}

proof fn lemma_done_stays(
    states: Seq<CopyState>,
    replies: Seq<Reply>,
    count: int,
    ask: Ask,
)
    ensures
        was_done(states, replies, count, ask) ==> was_done(states, replies, count + 1, ask),
        0 <= count < states.len() && count < replies.len() && states[count].asks() == ask
            && replies[count] is Done ==> was_done(states, replies, count + 1, ask),
{
    if was_done(states, replies, count, ask) {
        let i = choose|i: int|
            0 <= i < count && i < states.len() && i < replies.len() && #[trigger] states[i].asks()
                == ask && replies[i] is Done;
        assert(states[i].asks() == ask);
    }
}

proof fn lemma_copied_stays(
    origin: Origin,
    states: Seq<CopyState>,
    replies: Seq<Reply>,
    count: int,
    from: Seq<u8>,
    to: Seq<u8>,
)
    requires
        was_copied(origin, states, replies, count, from, to),
    ensures
        was_copied(origin, states, replies, count + 1, from, to),
{
    lemma_done_stays(
        states,
        replies,
        count,
        Ask::MakeDirectory { path: to, mode: origin.modes[from] },
    );
    lemma_done_stays(states, replies, count, Ask::CopyFrom { source: from, path: to });
    lemma_done_stays(
        states,
        replies,
        count,
        Ask::SetOpenMode { path: to, mode: origin.modes[from] },
    );
    lemma_done_stays(states, replies, count, Ask::Symlink { target: origin.links[from], path: to });
}

/// Whether every entry of a directory is still to be copied.
spec fn lists_all(origin: Origin, state: CopyState, source: Seq<u8>, target: Seq<u8>) -> bool {
    forall|name: Seq<u8>|
        #![trigger joined(source, name)]
        origin.names[source].contains(name) ==> has_errand(
            state,
            Errand::Visit { source: joined(source, name), target: joined(target, name) },
        )
}

/// Whether an errand is still open after the step, or was settled by it.
spec fn is_settled(
    origin: Origin,
    states: Seq<CopyState>,
    replies: Seq<Reply>,
    count: int,
    errand: Errand,
) -> bool {
    ||| has_errand(states[count + 1], errand)
    ||| match errand {
        Errand::List { source, target } => lists_all(origin, states[count + 1], source, target),
        Errand::Visit { source, target } => was_copied(
            origin,
            states,
            replies,
            count + 1,
            source,
            target,
        ) && (is_directory(origin, source) ==> has_errand(
            states[count + 1],
            Errand::List { source, target },
        )),
    }
}

proof fn lemma_place_take(base: Seq<u8>, trail: Seq<Seq<u8>>, count: int)
    requires
        0 <= count < trail.len(),
    ensures
        place(base, trail.take(count + 1)) == joined(place(base, trail.take(count)), trail[count]),
{
    assert(trail.take(count + 1).drop_last() =~= trail.take(count));
}

/// Where every errand stays open or is settled, every entry stays accounted for.
proof fn lemma_accounts(
    origin: Origin,
    states: Seq<CopyState>,
    replies: Seq<Reply>,
    count: int,
    source: Seq<u8>,
    target: Seq<u8>,
    trail: Seq<Seq<u8>>,
)
    requires
        trail.len() > 0,
        holds(origin, source, trail),
        accounts_for(origin, states, replies, count, source, target, trail),
        forall|errand: Errand| #[trigger]
            has_errand(states[count], errand) ==> is_settled(origin, states, replies, count, errand),
    ensures
        accounts_for(origin, states, replies, count + 1, source, target, trail),
{
    let state = states[count];
    let next = states[count + 1];
    if was_copied(origin, states, replies, count, place(source, trail), place(target, trail)) {
        lemma_copied_stays(
            origin,
            states,
            replies,
            count,
            place(source, trail),
            place(target, trail),
        );
    } else {
        let k = choose|k: int| #[trigger] covers_at(state, source, target, trail, k);
        let from = place(source, trail.take(k));
        let to = place(target, trail.take(k));
        let list = Errand::List { source: from, target: to };
        let visit = Errand::Visit { source: from, target: to };
        if 0 <= k < trail.len() && has_errand(state, list) {
            if has_errand(next, list) {
                assert(covers_at(next, source, target, trail, k));
            } else {
                assert(is_settled(origin, states, replies, count, list));
                assert(origin.names[from].contains(trail[k]));
                lemma_place_take(source, trail, k);
                lemma_place_take(target, trail, k);
                let entry = Errand::Visit {
                    source: joined(from, trail[k]),
                    target: joined(to, trail[k]),
                };
                assert(lists_all(origin, next, from, to));
                assert(has_errand(next, entry));
                assert(entry == (Errand::Visit {
                    source: place(source, trail.take(k + 1)),
                    target: place(target, trail.take(k + 1)),
                }));
                assert(covers_at(next, source, target, trail, k + 1));
            }
        } else {
            assert(is_settled(origin, states, replies, count, visit));
            if has_errand(next, visit) {
                assert(covers_at(next, source, target, trail, k));
            } else if k < trail.len() {
                assert(is_directory(origin, from));
                assert(covers_at(next, source, target, trail, k));
            } else {
                assert(trail.take(k) =~= trail);
            }
        }
    }
}

proof fn lemma_resumed(state: CopyState, errand: Errand)
    ensures
        has_errand(state.resumed(), errand) <==> state.pending.contains(errand),
{
    if state.pending.len() > 0 {
        let rest = state.pending.drop_last();
        let last = state.pending.last();
        assert(state.pending =~= rest.push(last));
        if rest.contains(errand) {
            let i = choose|i: int| 0 <= i < rest.len() && rest[i] == errand;
            assert(state.pending[i] == errand);
        }
        if state.pending.contains(errand) && errand != last {
            let i = choose|i: int| 0 <= i < state.pending.len() && state.pending[i] == errand;
            assert(rest[i] == errand);
        }
        assert(state.pending[state.pending.len() - 1] == last);
    }
}

proof fn lemma_visits(source: Seq<u8>, target: Seq<u8>, names: Seq<Seq<u8>>, name: Seq<u8>)
    requires
        names.contains(name),
    ensures
        visits(source, target, names).contains(
            (Errand::Visit { source: joined(source, name), target: joined(target, name) }),
        ),
    decreases names.len(),
{
    let all = visits(source, target, names);
    let rest = names.drop_first();
    let others = visits(source, target, rest);
    let errand = Errand::Visit { source: joined(source, name), target: joined(target, name) };
    let i = choose|i: int| 0 <= i < names.len() && names[i] == name;
    if names[0] == name {
        assert(all[others.len() as int] == errand);
    } else {
        assert(rest[i - 1] == name);
        lemma_visits(source, target, rest, name);
        let k = choose|k: int| 0 <= k < others.len() && others[k] == errand;
        assert(all[k] == errand);
    }
}

/// Every errand stays open or is settled by a step that goes well.
proof fn lemma_settles(
    origin: Origin,
    states: Seq<CopyState>,
    replies: Seq<Reply>,
    count: int,
    errand: Errand,
)
    requires
        0 <= count < replies.len(),
        states.len() == replies.len() + 1,
        states[count + 1] == states[count].after(replies[count]),
        is_told(origin, states[count], replies[count]),
        stage_fits(origin, states, replies, count),
        is_inside(states[count]),
        goes_well(states[count + 1]),
        has_errand(states[count], errand),
    ensures
        is_settled(origin, states, replies, count, errand),
{
    let state = states[count];
    let reply = replies[count];
    let next = states[count + 1];
    match state.stage {
        CopyStage::Listing { source, target } => {
            let names = views(reply->Names_0@);
            let longer = CopyState {
                pending: state.pending + visits(source, target, names),
                ..state
            };
            if state.pending.contains(errand) {
                let i = choose|i: int| 0 <= i < state.pending.len() && state.pending[i] == errand;
                assert(longer.pending[i] == errand);
                lemma_resumed(longer, errand);
            } else {
                assert forall|name: Seq<u8>|
                    #![trigger joined(source, name)]
                    origin.names[source].contains(name) implies has_errand(
                    next,
                    Errand::Visit { source: joined(source, name), target: joined(target, name) },
                ) by {
                    let entry = Errand::Visit {
                        source: joined(source, name),
                        target: joined(target, name),
                    };
                    lemma_visits(source, target, names, name);
                    let added = visits(source, target, names);
                    let k = choose|k: int| 0 <= k < added.len() && added[k] == entry;
                    assert(longer.pending[state.pending.len() + k] == entry);
                    lemma_resumed(longer, entry);
                }
            }
        },
        CopyStage::Entry { source, target, mode, step } => {
            lemma_done_stays(
                states,
                replies,
                count,
                Ask::MakeDirectory { path: target, mode: origin.modes[source] },
            );
            lemma_done_stays(states, replies, count, Ask::CopyFrom { source, path: target });
            lemma_done_stays(
                states,
                replies,
                count,
                Ask::SetOpenMode { path: target, mode: origin.modes[source] },
            );
            lemma_done_stays(
                states,
                replies,
                count,
                Ask::Symlink { target: origin.links[source], path: target },
            );
            match step {
                CopyStep::Sync => {
                    lemma_resumed(state, errand);
                },
                CopyStep::KnowLink => {
                    lemma_resumed(state.recorded(target, reply->Found_0, false), errand);
                },
                _ => {},
            }
        },
        _ => {},
    }
}

/// What holds of the entry that is being copied goes on to hold.
proof fn lemma_fits(
    origin: Origin,
    states: Seq<CopyState>,
    replies: Seq<Reply>,
    count: int,
)
    requires
        0 <= count < replies.len(),
        states.len() == replies.len() + 1,
        states[count + 1] == states[count].after(replies[count]),
        is_told(origin, states[count], replies[count]),
        stage_fits(origin, states, replies, count),
        goes_well(states[count + 1]),
    ensures
        stage_fits(origin, states, replies, count + 1),
{
    let state = states[count];
    match state.stage {
        CopyStage::Entry { source, target, mode, step } => {
            lemma_done_stays(
                states,
                replies,
                count,
                Ask::MakeDirectory { path: target, mode: origin.modes[source] },
            );
            lemma_done_stays(states, replies, count, Ask::CopyFrom { source, path: target });
            lemma_done_stays(
                states,
                replies,
                count,
                Ask::SetOpenMode { path: target, mode: origin.modes[source] },
            );
        },
        CopyStage::Linking { source, target, link } => {
            lemma_done_stays(states, replies, count, Ask::Symlink { target: link, path: target });
        },
        _ => {},
    }
}

proof fn lemma_run(
    origin: Origin,
    core_root: Seq<u8>,
    home: Seq<u8>,
    states: Seq<CopyState>,
    replies: Seq<Reply>,
    count: int,
)
    requires
        is_copy(origin, core_root, home, states, replies),
        0 <= count < states.len(),
        goes_well(states[count]),
    ensures
        is_kept(origin, core_root, home, states, replies, count),
        states[count].stage is Completed ==> states[count].pending.len() == 0,
    decreases count,
{
    let source = under(core_root, "dotfiles"@);
    let target = under(home, ".dotfiles"@);
    if count > 0 {
        let before = count - 1;
        let state = states[before];
        let reply = replies[before];
        assert(states[count] == state.after(reply));
        assert(goes_well(state)) by {
            if !goes_well(state) {
                assert(!goes_well(state.after(reply)));
            }
        }
        lemma_run(origin, core_root, home, states, replies, before);
        lemma_fits(origin, states, replies, before);
        if is_inside(states[count]) {
            assert forall|trail: Seq<Seq<u8>>|
                trail.len() > 0 && #[trigger] holds(origin, source, trail) implies accounts_for(
                origin,
                states,
                replies,
                count,
                source,
                target,
                trail,
            ) by {
                if is_inside(state) {
                    assert forall|errand: Errand| #[trigger] has_errand(state, errand) implies is_settled(
                        origin,
                        states,
                        replies,
                        before,
                        errand,
                    ) by {
                        lemma_settles(origin, states, replies, before, errand);
                    }
                    lemma_accounts(origin, states, replies, before, source, target, trail);
                } else {
                    assert(trail.take(0) =~= Seq::<Seq<u8>>::empty());
                    assert(covers_at(states[count], source, target, trail, 0));
                }
            }
        }
    }
}

// --------------------------------------------------
// Laws
// --------------------------------------------------

/// A complete copy has copied every entry of its source, at any depth: every directory
/// was made and every file filled, each with the permissions of its source, and every
/// link was made with the text of its source.
pub proof fn a_complete_copy_leaves_nothing_out(
    origin: Origin,
    core_root: Seq<u8>,
    home: Seq<u8>,
    states: Seq<CopyState>,
    replies: Seq<Reply>,
    trail: Seq<Seq<u8>>,
)
    requires
        is_copy(origin, core_root, home, states, replies),
        states.last().stage is Completed,
        trail.len() > 0,
        holds(origin, under(core_root, "dotfiles"@), trail),
    ensures
        was_copied(
            origin,
            states,
            replies,
            replies.len() as int,
            place(under(core_root, "dotfiles"@), trail),
            place(under(home, ".dotfiles"@), trail),
        ),
{
    let source = under(core_root, "dotfiles"@);
    let target = under(home, ".dotfiles"@);
    let last = states.len() - 1;
    lemma_run(origin, core_root, home, states, replies, last);
    assert(accounts_for(origin, states, replies, last, source, target, trail));
    if exists|k: int| #[trigger] covers_at(states[last], source, target, trail, k) {
        assert(false);
    }
}

} // verus!
