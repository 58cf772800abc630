//! What a removal comes to: what has to be there, what is taken away and what is left.

use crate::config::ResolvedPaths;
use crate::doctor::stands_ready;
use crate::failure::{earlier, Failure};
use crate::host::{Ask, FileKind, Reply};
use crate::judgements::{is_found, is_linked, is_missing};
use crate::paths::{components_of, under};
use crate::removal::{removal_steps, Removed};
use crate::script::{a_reply_is_accepted_exactly_if, asked, phase_after, progress_means_acceptance};
use crate::script::{remembered, verdict_on, Tidy};
use crate::text::{lossy_text, texts};
use crate::uninstall::{after_act, leftovers_problem, needs_problem, places_problem};
use crate::uninstall::{remainder_problem, removal_plan, RemovalConditions, RemovalDeed};
use crate::uninstall::{RemovalPhase, RemovedFacts, UnlinkPhase, Unlinking};
use vstd::prelude::*;

verus! {

/// Whether a path starts at the root.
pub open spec fn is_rooted(path: Seq<u8>) -> bool {
    path.len() > 0 && path[0] == 0x2f
}

/// A removal may begin exactly if every directory of the installation is an absolute
/// path, the dotfiles and the Pixi environment are directories, Stow is a regular
/// executable file, and the backups and their index are a directory and a regular file
/// or are not there.
pub proof fn a_removal_may_begin_exactly_if(
    paths: ResolvedPaths,
    home: Seq<u8>,
    seen: RemovalConditions,
)
    ensures
        earlier(places_problem(paths, home), needs_problem(paths, home, seen)) is None <==> {
            &&& is_rooted(home)
            &&& is_rooted(paths.config_home@)
            &&& is_rooted(paths.data_home@)
            &&& is_rooted(paths.state_home@)
            &&& is_rooted(paths.cache_home@)
            &&& is_rooted(paths.eiyah_prefix@)
            &&& is_rooted(paths.eiyah_config@)
            &&& is_rooted(paths.pixi_home@)
            &&& is_found(seen.dotfiles, FileKind::Directory)
            &&& is_found(seen.pixi_home, FileKind::Directory)
            &&& is_rooted(under(paths.pixi_home@, "bin/stow"@)) && stands_ready(seen.stow)
            &&& is_missing(seen.backup) || is_found(seen.backup, FileKind::Directory)
            &&& is_missing(seen.index) || is_found(seen.index, FileKind::Regular)
        },
{
}

/// A removal was whole exactly if everything that it takes away is missing, and the
/// program, the command link to it, the state directory and the lock are left, with no
/// backups.
pub proof fn a_removal_was_whole_exactly_if(
    paths: ResolvedPaths,
    home: Seq<u8>,
    seen: RemovedFacts,
)
    ensures
        earlier(leftovers_problem(paths, home, seen), remainder_problem(paths, home, seen)) is None
            <==> {
            let program = under(paths.eiyah_prefix@, "bin/eiyah"@);
            &&& is_missing(seen.status_entry)
            &&& is_missing(seen.status)
            &&& is_missing(seen.config)
            &&& is_missing(seen.dotfiles)
            &&& is_missing(seen.pixi_home)
            &&& is_missing(seen.metadata)
            &&& is_missing(seen.index)
            &&& is_rooted(program) && stands_ready(seen.binary)
            &&& is_linked(seen.entry, seen.entry_link, program)
            &&& is_found(seen.state_root, FileKind::Directory)
            &&& is_found(seen.lock, FileKind::Regular)
            &&& is_missing(seen.backup_root) || (is_found(seen.backup_root, FileKind::Directory)
                && seen.backups is Ok && seen.backups->Ok_0@.len() == 0)
        },
{
}

/// Whether the plan takes this away, once, at a place between others.
pub open spec fn takes(plan: Seq<RemovalDeed>, path: Seq<u8>, kind: Removed, place: int) -> bool {
    0 <= place < plan.len() && plan[place] == (RemovalDeed::Remove { path, kind })
}

/// Everything that an installation manages is taken away: the link of show-cad-status
/// before its program, the settings and the dotfiles once they are unlinked, the Pixi
/// environment once Stow has run, and what is kept with the installation after those;
/// only then are the backups restored and the removal is checked.
pub proof fn a_removal_takes_everything_away(paths: ResolvedPaths, home: Seq<u8>)
    ensures
        exists|unstow: int, link: int, status: int, config: int, dotfiles: int, pixi: int|
            #![trigger takes(
                removal_plan(paths, home),
                under(home, ".local/bin/show-cad-status"@),
                Removed::Link(under(paths.eiyah_prefix@, "bin/show-cad-status"@)),
                link,
            ), takes(
                removal_plan(paths, home),
                under(paths.eiyah_prefix@, "bin/show-cad-status"@),
                Removed::File,
                status,
            ), takes(removal_plan(paths, home), paths.eiyah_config@, Removed::File, config), takes(
                removal_plan(paths, home),
                under(home, ".dotfiles"@),
                Removed::Tree,
                dotfiles,
            ), takes(removal_plan(paths, home), paths.pixi_home@, Removed::Tree, pixi), removal_plan(
                paths,
                home,
            )[unstow]]
            {
                let plan = removal_plan(paths, home);
                &&& 0 <= unstow < link < status < config < dotfiles < pixi < plan.len()
                &&& plan[unstow] is Unstow
                &&& takes(
                    plan,
                    under(home, ".local/bin/show-cad-status"@),
                    Removed::Link(under(paths.eiyah_prefix@, "bin/show-cad-status"@)),
                    link,
                )
                &&& takes(
                    plan,
                    under(paths.eiyah_prefix@, "bin/show-cad-status"@),
                    Removed::File,
                    status,
                )
                &&& takes(plan, paths.eiyah_config@, Removed::File, config)
                &&& takes(plan, under(home, ".dotfiles"@), Removed::Tree, dotfiles)
                &&& takes(plan, paths.pixi_home@, Removed::Tree, pixi)
            },
        exists|kept: int, restore: int, check: int, cache: int|
            #![trigger takes(
                removal_plan(paths, home),
                under(paths.eiyah_prefix@, "install.toml"@),
                Removed::File,
                kept,
            ), takes(
                removal_plan(paths, home),
                under(paths.cache_home@, "eiyah"@),
                Removed::Tree,
                cache,
            ), removal_plan(paths, home)[restore], removal_plan(paths, home)[check]]
            {
                let plan = removal_plan(paths, home);
                &&& 0 <= kept < restore < check < cache < plan.len()
                &&& takes(plan, under(paths.eiyah_prefix@, "install.toml"@), Removed::File, kept)
                &&& plan[restore] is Restore
                &&& plan[check] is Validate
                &&& takes(plan, under(paths.cache_home@, "eiyah"@), Removed::Tree, cache)
            },
{
    let plan = removal_plan(paths, home);
    assert(plan[3] is Unstow);
    assert(takes(
        plan,
        under(home, ".local/bin/show-cad-status"@),
        Removed::Link(under(paths.eiyah_prefix@, "bin/show-cad-status"@)),
        6,
    ));
    assert(takes(plan, under(paths.eiyah_prefix@, "bin/show-cad-status"@), Removed::File, 7));
    assert(takes(plan, paths.eiyah_config@, Removed::File, 11));
    assert(takes(plan, under(home, ".dotfiles"@), Removed::Tree, 12));
    assert(takes(plan, paths.pixi_home@, Removed::Tree, 15));
    assert(takes(plan, under(paths.eiyah_prefix@, "install.toml"@), Removed::File, 16));
    assert(plan[17] is Restore && plan[18] is Validate);
    assert(takes(plan, under(paths.cache_home@, "eiyah"@), Removed::Tree, 19));
}

/// A removal is complete only when its last act was done, and a failure ends it.
pub proof fn a_removal_does_every_act(
    count: nat,
    position: usize,
    result: Result<(), Failure>,
)
    requires
        position < count <= usize::MAX,
    ensures
        ({
            let next = after_act(count, RemovalPhase::Working(position), result);
            &&& next is Completed <==> result is Ok && position == count - 1
            &&& next is Working <==> result is Ok && position < count - 1
            &&& next is Working ==> next->Working_0 == position + 1
            &&& next is Failed <==> result is Err
            &&& next is Failed ==> next->Failed_0 == result->Err_0
        }),
{
}

/// Every package is unlinked whatever became of the others, and what went wrong with any
/// of them is told at the end.
pub proof fn a_failed_package_is_told_at_the_end(
    unlinking: Unlinking,
    reply: Reply,
    next: UnlinkPhase,
)
    requires
        unlinking.phase is Unlinking,
        unlinking.phase->packages@.len() > 0,
        unlinking.follows(reply, next),
    ensures
        ({
            let packages = unlinking.phase->packages@;
            let failures = texts(unlinking.phase->failures@);
            let went_well = reply is Exited && reply->success;
            &&& next is Completed <==> packages.len() == 1 && failures.len() == 0 && went_well
            &&& next is Failed <==> packages.len() == 1 && !(failures.len() == 0 && went_well)
            &&& next is Unlinking <==> packages.len() > 1
            &&& next is Unlinking ==> {
                &&& next->packages@ == packages.take(packages.len() - 1)
                &&& went_well ==> texts(next->failures@) == failures
                &&& !went_well ==> texts(next->failures@).len() == failures.len() + 1
                &&& !went_well ==> lossy_text(packages.last()@).is_prefix_of(
                    texts(next->failures@).last(),
                )
            }
        }),
{
    let packages = unlinking.phase->packages@;
    assert(packages.drop_last() =~= packages.take(packages.len() - 1));
    let failures = texts(unlinking.phase->failures@);
    if next is Unlinking && !(reply is Exited && reply->success) {
        let last = texts(next->failures@).last();
        assert(lossy_text(packages.last()@).is_prefix_of(last)) by {
            assert(last.take(lossy_text(packages.last()@).len() as int) =~= lossy_text(
                packages.last()@,
            ));
        }
    }
}

/// Something is removed only where it was found to be of its kind, where it is a link
/// that leads to its target, and where the same entry still stood there when it was
/// looked at again; what is not there is left alone.
pub proof fn what_is_removed_is_what_it_should_be(
    path: Seq<u8>,
    kind: Removed,
    replies: Seq<Reply>,
)
    requires
        ({
            let ask = asked(
                removal_steps(path, kind),
                Tidy::Nothing,
                phase_after(removal_steps(path, kind), Tidy::Nothing, replies),
            );
            ask is RemoveFile || ask is RemoveTree
        }),
    ensures
        ({
            let ask = asked(
                removal_steps(path, kind),
                Tidy::Nothing,
                phase_after(removal_steps(path, kind), Tidy::Nothing, replies),
            );
            match kind {
                Removed::Tree => ask == Ask::RemoveTree(path),
                _ => ask == Ask::RemoveFile(path),
            }
        }),
        replies.len() >= 2,
        replies[0] is Found,
        replies[0]->Found_0.kind == match kind {
            Removed::Link(_) => FileKind::Symlink,
            Removed::File => FileKind::Regular,
            Removed::Tree => FileKind::Directory,
        },
        replies.last() is Found,
        replies.last()->Found_0.identity == replies[0]->Found_0.identity,
        kind is Link ==> replies.len() == 3 && replies[1] is Contents && is_rooted(kind->Link_0)
            && components_of(replies[1]->Contents_0@) == components_of(kind->Link_0),
{
    let steps = removal_steps(path, kind);
    let tidy = Tidy::Nothing;
    let phase = phase_after(steps, tidy, replies);
    assert(phase is Running) by {
        lemma_never_removing(path, kind, replies);
    }
    progress_means_acceptance(steps, tidy, replies);
    let count = replies.len();
    assert(count == steps.len() - 1);
    assert(replies.take(0) =~= Seq::<Reply>::empty());
    let first = verdict_on(steps[0].demand, remembered(steps, replies.take(0)), replies[0]);
    a_reply_is_accepted_exactly_if(
        steps[0].demand,
        remembered(steps, replies.take(0)),
        replies[0],
    );
    assert(first is Remembered);
    assert(replies.take(1).drop_last() =~= replies.take(0));
    assert(replies.take(1).last() == replies[0]);
    assert(remembered(steps, replies.take(1)) == Some(replies[0]->Found_0.identity));
    if kind is Link {
        a_reply_is_accepted_exactly_if(
            steps[1].demand,
            remembered(steps, replies.take(1)),
            replies[1],
        );
        let second = verdict_on(steps[1].demand, remembered(steps, replies.take(1)), replies[1]);
        assert(second is Accepted);
        assert(replies.take(2).drop_last() =~= replies.take(1));
        assert(replies.take(2).last() == replies[1]);
        assert(remembered(steps, replies.take(2)) == remembered(steps, replies.take(1)));
        a_reply_is_accepted_exactly_if(
            steps[2].demand,
            remembered(steps, replies.take(2)),
            replies[2],
        );
        let third = verdict_on(steps[2].demand, remembered(steps, replies.take(2)), replies[2]);
        assert(third is Accepted);
    } else {
        a_reply_is_accepted_exactly_if(
            steps[1].demand,
            remembered(steps, replies.take(1)),
            replies[1],
        );
        let second = verdict_on(steps[1].demand, remembered(steps, replies.take(1)), replies[1]);
        assert(second is Accepted);
    }
}

proof fn lemma_never_removing(path: Seq<u8>, kind: Removed, replies: Seq<Reply>)
    ensures
        !(phase_after(removal_steps(path, kind), Tidy::Nothing, replies) is Removing),
        !(phase_after(removal_steps(path, kind), Tidy::Nothing, replies) is Inspecting),
    decreases replies.len(),
{
    if replies.len() > 0 {
        lemma_never_removing(path, kind, replies.drop_last());
    }
}

} // verus!
