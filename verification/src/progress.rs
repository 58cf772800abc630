//! What goes well: each piece of work comes to its end where its requests are answered
//! as they have to be, and only there.

use crate::archive::{ArchivePhase, PrivateArchive};
use crate::backup::{backup_begins, backup_next, index_next, rollback_follows, with_entry};
use crate::backup::{AppendPhase, BackupMove, BackupPhase, IndexPhase, RollbackPhase};
use crate::backup_index::{backup_path_problem, entry_path, entry_round_trip, entry_text_round_trip};
use crate::backup_index::{index_content, index_entries, index_round_trip, index_text_round_trip};
use crate::backup_index::{occurrences, others, BackupPathError, EntryError, IndexError};
use crate::binary::BinarySetup;
use crate::bytes::{hex_encoded, lies_between, pieces_lie_between_separators, split_seq, views};
use crate::config::{change_follows, config_in, environment_homes, environment_problem, homes_in};
use crate::config::{is_command_target, ChangePhase};
use crate::dotfiles::{git_value, GitIdentity, IdentityPhase};
use crate::failure::Failure;
use crate::handoff::{meaning, Handoff, HandoffEvent};
use crate::host::{Ask, Entry, Fault, FaultKind, FileKind, Reply};
use crate::paths::{components_of, has_parent, joined, leading_parts, lemma_join_components};
use crate::paths::{named_parts, rest_of, the_rest_has_the_other_components, under};
use crate::pixi::{PixiBootstrap, PixiPhase, PixiSetup};
use crate::private_release::{ids_named, private_problem, PrivateReleaseAsset};
use crate::private_release::{PrivateReleaseResponse, StatusSetup};
use crate::release::stated_digest;
use crate::script::Phase;
use crate::ssh::{key_of, SshPhase, SshSetup};
use crate::state::{route_begins, InstallRoute, InstallState, PathSearch};
use crate::stow::{StowPhase, StowRun};
use crate::text::lemma_ascii_bytes;
use crate::transaction::{move_next, publish_next, MovePhase, PathIdentity, PublishPhase};
use crate::undo::Undo;
use crate::update::{version_answer, Update, UpdatePhase};
use vstd::prelude::*;
use vstd::utf8::{encode_utf8, valid_utf8};

verus! {

/// Whether a reply says that nothing stands there.
pub open spec fn says_missing(reply: Reply) -> bool {
    reply is Failed && reply->Failed_0.kind == FaultKind::NotFound
}

/// Whether a reply has found this entry.
pub open spec fn has_found(reply: Reply, identity: PathIdentity) -> bool {
    reply is Found && reply->Found_0.identity == identity
}

// --------------------------------------------------
// Moving and publishing
// --------------------------------------------------

/// A move is made exactly where its source stands and its destination is free.
pub proof fn a_move_is_made_exactly_if_its_destination_is_free(source: Reply, destination: Reply)
    ensures
        ({
            let looked = move_next(MovePhase::InspectSource, source);
            let next = move_next(looked, destination);
            &&& next is RenameNoReplace <==> source is Found && says_missing(destination)
            &&& next is RenameNoReplace ==> next->RenameNoReplace_identity
                == source->Found_0.identity
            &&& !(next is RenameNoReplace) ==> next is Failed
        }),
{
}

/// A move has moved exactly where afterwards nothing stands at its source and what was
/// moved stands at its destination, whatever the renaming itself has answered.
pub proof fn a_move_has_moved_exactly_if_it_arrived(
    identity: PathIdentity,
    renamed: Reply,
    source: Reply,
    destination: Reply,
)
    requires
        renamed is Done || renamed is Failed,
    ensures
        ({
            let tried = move_next(MovePhase::RenameNoReplace { identity }, renamed);
            let seen = move_next(move_next(tried, source), destination);
            seen is Moved <==> says_missing(source) && has_found(destination, identity)
        }),
        ({
            let tried = move_next(MovePhase::Rename { identity }, renamed);
            let seen = move_next(move_next(tried, source), destination);
            seen is Moved <==> says_missing(source) && has_found(destination, identity)
        }),
{
}

/// A plain renaming is tried exactly where the one that overwrites nothing is not
/// supported and has changed nothing, the source still stands and the destination is
/// still free.
pub proof fn a_plain_renaming_is_the_second_try(
    identity: PathIdentity,
    fault: Fault,
    source: Reply,
    destination: Reply,
    again: Reply,
    free: Reply,
)
    ensures
        ({
            let tried = move_next(MovePhase::RenameNoReplace { identity }, Reply::Failed(fault));
            let seen = move_next(move_next(tried, source), destination);
            let next = move_next(move_next(seen, again), free);
            next is Rename <==> {
                &&& fault.kind == FaultKind::InvalidArgument
                &&& has_found(source, identity)
                &&& says_missing(destination)
                &&& has_found(again, identity)
                &&& says_missing(free)
            }
        }),
{
}

/// A file is published exactly where its temporary file is still the one that was
/// written and the destination is that file after the link was made.
pub proof fn a_file_is_published_exactly_if_it_arrived(
    identity: PathIdentity,
    temporary: Reply,
    linked: Reply,
    destination: Reply,
)
    requires
        linked is Done || linked is Failed,
    ensures
        ({
            let first = publish_next(identity, PublishPhase::InspectTemporary, temporary);
            let second = publish_next(identity, first, linked);
            let third = publish_next(identity, second, destination);
            third == (PublishPhase::Tidy { failure: None }) <==> has_found(temporary, identity)
                && has_found(destination, identity)
        }),
{
}

/// A published file stays published whatever becomes of its temporary file, which is
/// removed exactly where it is still the one that was written.
pub proof fn a_published_file_stays_published(
    identity: PathIdentity,
    temporary: Reply,
    removed: Reply,
)
    ensures
        ({
            let next = publish_next(identity, PublishPhase::Tidy { failure: None }, temporary);
            &&& next == (PublishPhase::Remove { failure: None }) <==> has_found(temporary, identity)
            &&& next is Remove || next is Published
            &&& says_missing(temporary) ==> next == (PublishPhase::Published { leftover: None })
        }),
        publish_next(identity, PublishPhase::Remove { failure: None }, removed) is Published,
        removed is Done ==> publish_next(identity, PublishPhase::Remove { failure: None }, removed)
            == (PublishPhase::Published { leftover: None }),
{
}

// --------------------------------------------------
// Undoing
// --------------------------------------------------

/// What was created is removed exactly where it still stands there, with everything in
/// it where it is a directory that was created whole; where it is gone nothing is left
/// to be undone.
pub proof fn what_was_created_is_undone(undo: Undo, reply: Reply, next: Undo)
    requires
        undo is Created,
        undo.follows(reply, next),
    ensures
        next is Removing <==> has_found(reply, undo->Created_identity),
        next is Completed <==> says_missing(reply),
        next is Removing && reply->Found_0.kind != FileKind::Directory ==> next.asks()
            == Ask::RemoveFile(undo->Created_path@),
        next is Removing && reply->Found_0.kind == FileKind::Directory && undo->Created_recursive
            ==> next.asks() == Ask::RemoveTree(undo->Created_path@),
        next is Removing && reply->Found_0.kind == FileKind::Directory && !undo->Created_recursive
            ==> next.asks() == Ask::RemoveDirectory(undo->Created_path@),
{
}

/// What was moved goes back where it came from, and what was linked is unlinked; each is
/// undone exactly where that has succeeded.
pub proof fn what_was_moved_goes_back(undo: Undo, reply: Reply, next: Undo)
    requires
        undo is Moved || undo is Stowed || undo is Removing,
        undo.follows(reply, next),
    ensures
        undo is Moved ==> undo.asks() == (Ask::Move {
            source: undo->Moved_to@,
            destination: undo->Moved_from@,
        }),
        undo is Moved || undo is Removing ==> (next is Completed <==> reply is Done),
        undo is Stowed ==> (next is Completed <==> reply is Exited && reply->success),
        !(next is Completed) ==> next is Failed,
{
}

// --------------------------------------------------
// Backups
// --------------------------------------------------

/// A path can be an entry of the index exactly where it is relative, has no zero byte,
/// and none of its names is `.` or `..`.
pub proof fn a_path_can_be_an_entry_exactly_if(path: Seq<u8>)
    ensures
        backup_path_problem(path) is None <==> {
            &&& path.len() > 0 && path[0] != 0x2f
            &&& !path.contains(0)
            &&& forall|before: Seq<u8>, name: Seq<u8>, behind: Seq<u8>| #[trigger]
                lies_between(path, 0x2f, before, name, behind) ==> name != seq![0x2eu8] && name
                    != seq![0x2eu8, 0x2eu8]
        },
{
    let one = seq![0x2eu8];
    let two = seq![0x2eu8, 0x2eu8];
    pieces_lie_between_separators(path, 0x2fu8, one);
    pieces_lie_between_separators(path, 0x2fu8, two);
    if split_seq(path, 0x2f).contains(one) {
        let (before, behind) = choose|before: Seq<u8>, behind: Seq<u8>| #[trigger]
            lies_between(path, 0x2f, before, one, behind);
        assert(lies_between(path, 0x2f, before, one, behind));
    }
    if split_seq(path, 0x2f).contains(two) {
        let (before, behind) = choose|before: Seq<u8>, behind: Seq<u8>| #[trigger]
            lies_between(path, 0x2f, before, two, behind);
        assert(lies_between(path, 0x2f, before, two, behind));
    }
    assert forall|before: Seq<u8>, name: Seq<u8>, behind: Seq<u8>|
        !split_seq(path, 0x2f).contains(one) && !split_seq(path, 0x2f).contains(two)
            && #[trigger] lies_between(path, 0x2f, before, name, behind) implies name != one && name
        != two by {
        pieces_lie_between_separators(path, 0x2fu8, name);
    }
}

/// An entry stands for a path exactly where it is the hexadecimal digits of a path that
/// can be an entry.
pub proof fn an_entry_is_the_digits_of_its_path(entry: Seq<u8>, path: Seq<u8>)
    ensures
        entry_path(entry) == Ok::<Seq<u8>, EntryError>(path) <==> entry == hex_encoded(path)
            && backup_path_problem(path) is None,
{
    if entry_path(entry) is Ok {
        entry_text_round_trip(entry);
    }
    if backup_path_problem(path) is None {
        entry_round_trip(path);
    }
}

/// An index holds these entries exactly where it is their lines, each ended by a line
/// feed, each entry stands for a path, and none occurs twice.
pub proof fn an_index_is_the_lines_of_its_entries(content: Seq<u8>, entries: Seq<Seq<u8>>)
    ensures
        index_entries(content) == Ok::<Seq<Seq<u8>>, IndexError>(entries) <==> {
            &&& content == index_content(entries)
            &&& forall|i: int| 0 <= i < entries.len() ==> entry_path(#[trigger] entries[i]) is Ok
            &&& forall|i: int, j: int|
                0 <= i < j < entries.len() ==> #[trigger] entries[i] != #[trigger] entries[j]
        },
{
    if index_entries(content) is Ok {
        index_text_round_trip(content);
    }
    if (forall|i: int| 0 <= i < entries.len() ==> entry_path(#[trigger] entries[i]) is Ok) && (
    forall|i: int, j: int| 0 <= i < j < entries.len() ==> #[trigger] entries[i] != #[trigger] entries[j]) {
        assert(entries.no_duplicates());
        index_round_trip(entries);
    }
}

/// An index with one more entry is the index with one more line.
pub proof fn an_index_grows_by_a_line(entries: Seq<Seq<u8>>, entry: Seq<u8>)
    ensures
        index_content(Seq::<Seq<u8>>::empty()) == Seq::<u8>::empty(),
        index_content(entries.push(entry)) == index_content(entries) + entry + seq![0x0au8],
{
    assert(entries.push(entry).drop_last() =~= entries);
    assert(index_content(entries) + entry.push(0x0a) =~= index_content(entries) + entry
        + seq![0x0au8]);
}

/// An entry is added exactly where it stands for a path and is not there already; it
/// comes behind the others, which stay.
pub proof fn an_entry_is_added_behind_the_others(
    before: Seq<Seq<u8>>,
    entry: Seq<u8>,
    next: AppendPhase,
)
    requires
        with_entry(before, entry, next),
    ensures
        next is Writing <==> entry_path(entry) is Ok && forall|i: int|
            0 <= i < before.len() ==> #[trigger] before[i] != entry,
        next is Writing ==> views(next->entries@) == before + seq![entry],
        !(next is Writing) ==> next is Failed,
{
    if next is Writing {
        assert(before.push(entry) =~= before + seq![entry]);
    }
    if before.contains(entry) {
        let i = choose|i: int| 0 <= i < before.len() && before[i] == entry;
        assert(before[i] == entry);
    }
}

/// Without an entry exactly its lines are gone, and the others keep their order.
pub proof fn an_entry_is_taken_from_between_the_others(entries: Seq<Seq<u8>>, entry: Seq<u8>)
    ensures
        others(entries, entry) == entries.filter(|other: Seq<u8>| other != entry),
        occurrences(entries, entry) == entries.filter(|other: Seq<u8>| other == entry).len(),
    decreases entries.len(),
{
    reveal(Seq::filter);
    if entries.len() > 0 {
        an_entry_is_taken_from_between_the_others(entries.drop_last(), entry);
    }
}

/// The index is written to its end exactly where each request of the writing is done,
/// the temporary file is still the one that was created, and the index is a regular
/// file, which is replaced, or missing, so that it is published.
pub proof fn an_index_is_written_exactly_if(
    created: PathIdentity,
    written: Reply,
    synced: Reply,
    temporary: Reply,
    index: Reply,
)
    ensures
        ({
            let first = index_next(None, IndexPhase::Write { created }, written);
            let second = index_next(None, first, synced);
            let third = index_next(None, second, temporary);
            let fourth = index_next(None, third, index);
            &&& fourth is Replace <==> written is Done && synced is Done && has_found(
                temporary,
                created,
            ) && index is Found && index->Found_0.kind == FileKind::Regular
            &&& fourth is Publish <==> written is Done && synced is Done && has_found(
                temporary,
                created,
            ) && says_missing(index)
        }),
        index_next(None, IndexPhase::Create, Reply::Done) is InspectOpen,
        forall|entry: Entry| #[trigger]
            index_next(None, IndexPhase::InspectOpen, Reply::Found(entry)) == (
            IndexPhase::SetMode { created: entry.identity }),
        index_next(None, IndexPhase::SetMode { created }, Reply::Done) == (IndexPhase::Write {
            created,
        }),
        index_next(None, IndexPhase::Replace { created }, Reply::Done) is Written,
        forall|problem: Option<String>| #[trigger]
            index_next(
                None,
                IndexPhase::Publish { created },
                Reply::Published { cleanup_error: problem },
            ) == (IndexPhase::Written { cleanup_error: problem }),
{
}

/// A backup is made exactly where something stands at its source and can be an entry of
/// the index, its directories are made, and it is moved and entered; nothing is backed up
/// where nothing stands.
pub proof fn a_backup_is_made_exactly_if(
    entry: Result<Vec<u8>, BackupPathError>,
    source: Reply,
    made: Reply,
    moved: Reply,
    entered: Reply,
)
    ensures
        ({
            let first = backup_next(entry, BackupPhase::InspectSource, source);
            let second = backup_next(entry, first, made);
            let third = backup_next(entry, second, moved);
            let fourth = backup_next(entry, third, entered);
            &&& first is Absent <==> says_missing(source)
            &&& first is MakeDirectories <==> source is Found && entry is Ok
            &&& fourth is BackedUp <==> source is Found && entry is Ok && made is Done
                && moved is Done && entered is Published
            &&& fourth is MoveBack <==> source is Found && entry is Ok && made is Done
                && moved is Done && entered is Failed
        }),
{
}

/// A path in the home directory is backed up to the same place among the backups; a path
/// that is not in the home directory, or leaves it again, is refused.
pub proof fn a_path_in_the_home_is_backed_up(
    home: Seq<u8>,
    state_home: Seq<u8>,
    source: Seq<u8>,
    result: Result<BackupMove, Failure>,
)
    requires
        backup_begins(home, state_home, source, result),
    ensures
        !components_of(home).is_prefix_of(components_of(source)) ==> result is Err,
        components_of(home).is_prefix_of(components_of(source)) && (exists|i: int|
            components_of(home).len() <= i < components_of(source).len() && #[trigger] components_of(
                source,
            )[i] is Up) ==> result is Err,
        components_of(home).is_prefix_of(components_of(source)) && components_of(home).len()
            < components_of(source).len() && (forall|i: int|
            components_of(home).len() <= i < components_of(source).len() ==> #[trigger] components_of(
                source,
            )[i] is Name) ==> {
            &&& result is Ok
            &&& result->Ok_0.from@ == source
            &&& components_of(result->Ok_0.to@) == components_of(
                under(state_home, "eiyah/backup/home"@),
            ) + components_of(source).skip(components_of(home).len() as int)
            &&& result->Ok_0.phase is InspectSource
        },
{
    let relative = rest_of(source, home);
    let base = under(state_home, "eiyah/backup/home"@);
    let count = components_of(home).len() as int;
    if components_of(home).is_prefix_of(components_of(source)) {
        the_rest_has_the_other_components(source, home);
        let rest = components_of(relative);
        assert(rest == components_of(source).skip(count));
        if exists|i: int|
            count <= i < components_of(source).len() && #[trigger] components_of(source)[i] is Up {
            let i = choose|i: int|
                count <= i < components_of(source).len() && #[trigger] components_of(source)[i] is Up;
            assert(rest[i - count] is Up);
        }
        if count < components_of(source).len() && (forall|i: int|
            count <= i < components_of(source).len() ==> #[trigger] components_of(source)[i] is Name) {
            assert forall|i: int| 0 <= i < rest.len() implies #[trigger] rest[i] is Name by {
                assert(rest[i] == components_of(source)[i + count]);
            }
            assert(rest[0] is Name);
            if leading_parts(relative).len() > 0 {
                assert(rest[0] == leading_parts(relative)[0]);
                assert(false);
            }
            assert(rest =~= named_parts(split_seq(relative, 0x2f)));
            if relative.len() == 0 {
                assert(relative =~= Seq::<u8>::empty());
                let none = Seq::<u8>::empty();
                assert(split_seq(none, 0x2f) =~= seq![none]);
                reveal_with_fuel(named_parts, 3);
                assert(seq![none].drop_last() =~= Seq::<Seq<u8>>::empty());
                assert(false);
            }
            reveal_strlit("eiyah/backup/home");
            lemma_ascii_bytes("eiyah/backup/home"@);
            assert(base.len() > 0);
            assert(leading_parts(relative).len() == 0);
            lemma_join_components(base, relative);
            let to = joined(base, relative);
            assert(components_of(to) == components_of(base) + rest);
            assert(components_of(to).last() == rest.last());
            assert(rest.last() == rest[rest.len() - 1]);
            assert(has_parent(to));
        }
    }
}

/// A backup is moved back exactly where it can be moved and nothing stands in its old
/// place, the index is a regular file with its entry once, and it still is the backup
/// that was looked at; the index is then written without the entry.
pub proof fn a_backup_goes_back_exactly_if(
    entry: Seq<u8>,
    phase: RollbackPhase,
    reply: Reply,
    next: RollbackPhase,
)
    requires
        rollback_follows(entry, phase, reply, next),
    ensures
        phase is InspectSource ==> (next is InspectDestination <==> reply is Found && (
        reply->Found_0.kind == FileKind::Regular || reply->Found_0.kind == FileKind::Directory
            || reply->Found_0.kind == FileKind::Symlink)),
        phase is InspectDestination ==> (next is InspectIndex <==> says_missing(reply)),
        phase is InspectIndex ==> (next is ReadIndex <==> reply is Found && reply->Found_0.kind
            == FileKind::Regular),
        phase is ReadIndex ==> (next is RecheckSource <==> reply is Contents && index_entries(
            reply->Contents_0@,
        ) is Ok && occurrences(index_entries(reply->Contents_0@)->Ok_0, entry) == 1),
        phase is ReadIndex && next is RecheckSource ==> views(next->RecheckSource_rest@) == others(
            index_entries(reply->Contents_0@)->Ok_0,
            entry,
        ),
        phase is RecheckSource ==> (next is MoveBack <==> has_found(
            reply,
            phase->RecheckSource_identity,
        )),
        phase is MoveBack ==> (next is WriteIndex <==> reply is Done),
        phase is MoveBack && next is WriteIndex ==> next->WriteIndex_rest == phase->MoveBack_rest,
        phase is RecheckSource && next is MoveBack ==> next->MoveBack_rest
            == phase->RecheckSource_rest,
        phase is WriteIndex ==> (next is Restored <==> reply is Done || reply is Published),
{
}

// --------------------------------------------------
// Programs
// --------------------------------------------------

/// The program is copied exactly where its source is a regular executable file, and is
/// in its place exactly where every step of the copying was accepted.
pub proof fn a_program_is_copied_exactly_if(setup: BinarySetup, reply: Reply, next: BinarySetup)
    requires
        setup.follows(reply, next),
    ensures
        setup is Checking ==> (next is Copying <==> reply is Found && reply->Found_0.kind
            == FileKind::Regular && reply->Found_0.mode & 0o111 != 0),
        setup is Checking && !(next is Copying) ==> next is Failed,
        setup is Copying ==> (next is Completed <==> setup->Copying_0.after(reply).phase
            == Phase::Completed),
{
}

/// Pixi is set up exactly where its installer was read and is not empty, its directory
/// was created and has its permissions, the installer has ended well, and every check and
/// every step of placing the manifest was accepted.
pub proof fn pixi_is_set_up_exactly_if(setup: PixiSetup, reply: Reply, next: PixiPhase)
    requires
        setup.follows(reply, next),
    ensures
        setup.phase is Fetching ==> (next is Loading <==> reply is Done),
        setup.phase is Loading ==> (next is Making <==> reply is Contents
            && reply->Contents_0@.len() > 0),
        setup.phase is Loading && next is Making ==> next->Making_installer@ == reply->Contents_0@,
        setup.phase is Making ==> (next is Inspecting <==> reply is Done),
        setup.phase is Inspecting ==> (next is Setting <==> reply is Found),
        setup.phase is Inspecting && next is Setting ==> next->Setting_owned
            == reply->Found_0.identity,
        setup.phase is Setting ==> (next is Installing <==> reply is Done),
        setup.phase is Installing ==> (next is Checking <==> reply is Exited && reply->success),
        setup.phase is Checking ==> (next is Placing
            <==> setup.phase->Checking_script.after(reply).phase == Phase::Completed),
        setup.phase is Placing ==> (next is Identifying
            <==> setup.phase->Placing_script.after(reply).phase == Phase::Completed),
        setup.phase is Identifying ==> (next is Completed <==> reply is Found),
        setup.phase is Identifying && next is Completed ==> next->Completed_0
            == reply->Found_0.identity,
        setup.phase is Returning ==> (next is Removing <==> has_found(
            reply,
            setup.phase->Returning_owned,
        )),
{
}

/// The environment is there exactly where Pixi was set up and its packages were synced.
pub proof fn the_environment_is_synced(
    bootstrap: PixiBootstrap,
    reply: Reply,
    next: PixiBootstrap,
)
    requires
        bootstrap is Syncing,
        bootstrap.follows(reply, next),
    ensures
        next is Completed <==> reply is Exited && reply->success,
        next is Completed ==> next->Completed_0 == bootstrap->identity,
        !(next is Completed) ==> next is Failed,
{
}

/// The files of a release that have this name.
pub open spec fn files_named(assets: Seq<PrivateReleaseAsset>, name: Seq<char>) -> Seq<
    PrivateReleaseAsset,
> {
    assets.filter(|asset: PrivateReleaseAsset| asset.name@ == name)
}

proof fn lemma_ids(assets: Seq<PrivateReleaseAsset>, name: Seq<char>)
    ensures
        ids_named(assets, name) == files_named(assets, name).map_values(
            |asset: PrivateReleaseAsset| asset.id,
        ),
    decreases assets.len(),
{
    reveal(Seq::filter);
    let wanted = |asset: PrivateReleaseAsset| asset.name@ == name;
    let id = |asset: PrivateReleaseAsset| asset.id;
    if assets.len() > 0 {
        lemma_ids(assets.drop_last(), name);
        let before = assets.drop_last().filter(wanted);
        if assets.last().name@ == name {
            assert(assets.filter(wanted) == before.push(assets.last()));
            assert(before.push(assets.last()).map_values(id) =~= before.map_values(id).push(
                assets.last().id,
            ));
        }
    } else {
        assert(assets.filter(wanted).map_values(id) =~= Seq::<u64>::empty());
    }
}

/// A release of the configuration is taken exactly where it is neither a draft nor a
/// pre-release, has a tag, and has one program and one checksum file; these are what is
/// taken.
pub proof fn a_configuration_is_taken_exactly_if(release: PrivateReleaseResponse)
    ensures
        ({
            let programs = files_named(
                release.assets@,
                "show-cad-status-x86_64-unknown-linux-gnu"@,
            );
            let digests = files_named(
                release.assets@,
                "show-cad-status-x86_64-unknown-linux-gnu.sha256"@,
            );
            &&& private_problem(release) is None <==> {
                &&& !release.draft
                &&& !release.prerelease
                &&& release.tag_name@.len() > 0
                &&& programs.len() == 1
                &&& digests.len() == 1
            }
            &&& private_problem(release) is None ==> ids_named(
                release.assets@,
                "show-cad-status-x86_64-unknown-linux-gnu"@,
            )[0] == programs[0].id && ids_named(
                release.assets@,
                "show-cad-status-x86_64-unknown-linux-gnu.sha256"@,
            )[0] == digests[0].id
        }),
{
    lemma_ids(release.assets@, "show-cad-status-x86_64-unknown-linux-gnu"@);
    lemma_ids(release.assets@, "show-cad-status-x86_64-unknown-linux-gnu.sha256"@);
}

/// show-cad-status is placed exactly where its checksum file is text that states a
/// digest, and is in its place exactly where every step was accepted.
pub proof fn the_status_program_is_placed_exactly_if(
    setup: StatusSetup,
    reply: Reply,
    next: StatusSetup,
)
    requires
        setup.follows(reply, next),
    ensures
        setup is Summing ==> (next is Loading <==> reply is Done),
        setup is Loading ==> (next is Placing <==> reply is Contents && valid_utf8(
            reply->Contents_0@,
        ) && stated_digest(
            reply->Contents_0@,
            "show-cad-status-x86_64-unknown-linux-gnu"@,
        ) is Some),
        setup is Placing ==> (next is Completed <==> setup->Placing_0.after(reply).phase
            == Phase::Completed),
{
}

// --------------------------------------------------
// Downloads
// --------------------------------------------------

/// An archive is unpacked to its end exactly where its directory is new, has its
/// permissions, and every step of the download and of the unpacking was accepted; a name
/// that is taken is left for the next one.
pub proof fn an_archive_is_unpacked_exactly_if(
    archive: PrivateArchive,
    reply: Reply,
    next: ArchivePhase,
)
    requires
        archive.follows(reply, next),
    ensures
        archive.phase is Parent ==> (next is Making <==> reply is Done),
        archive.phase is Making ==> (next is Inspecting <==> reply is Done),
        archive.phase is Making ==> (next is Making <==> reply is Failed && reply->Failed_0.kind
            == FaultKind::AlreadyExists),
        archive.phase is Inspecting ==> (next is Setting <==> reply is Found),
        archive.phase is Inspecting && next is Setting ==> next->Setting_owned
            == reply->Found_0.identity,
        archive.phase is Setting ==> (next is Downloading <==> reply is Done),
        archive.phase is Downloading ==> (next is Listing
            <==> archive.phase->Downloading_script.after(reply).phase == Phase::Completed),
        archive.phase is Extracting ==> (next is Completed
            <==> archive.phase->Extracting_script.after(reply).phase == Phase::Completed),
        archive.phase is Extracting && next is Completed ==> next->Completed_0
            == archive.phase->Extracting_owned,
        archive.phase is Returning ==> (next is Removing <==> has_found(
            reply,
            archive.phase->Returning_owned,
        )),
{
}

/// An update goes on exactly where the place of the download is free or a regular file
/// that is removed, the checksum file states a digest, every step of the checking was
/// accepted, and the download, and then the new program, answer with the version.
pub proof fn an_update_goes_on_exactly_if(update: Update, reply: Reply, next: UpdatePhase)
    requires
        update.follows(reply, next),
        update.release is Some,
        "https://"@.is_prefix_of(update.release->0.binary_url@),
        "https://"@.is_prefix_of(update.release->0.checksum_url@),
    ensures
        update.phase is Looking ==> (next is Clearing <==> reply is Found && reply->Found_0.kind
            == FileKind::Regular),
        update.phase is Looking ==> (next is Downloading <==> says_missing(reply)),
        update.phase is Clearing ==> (next is Downloading <==> reply is Done),
        update.phase is Opening ==> (next is Looking <==> update.phase->Opening_0.after(reply).phase
            == Phase::Completed),
        update.phase is Downloading ==> (next is Summing <==> update.phase->Downloading_0.after(
            reply,
        ).phase == Phase::Completed),
        update.phase is Loading && reply is Text ==> (next is Verifying <==> stated_digest(
            encode_utf8(reply->Text_0@),
            "eiyah-x86_64-unknown-linux-gnu"@,
        ) is Some),
        update.phase is Verifying ==> (next is Trying <==> update.phase->Verifying_0.after(
            reply,
        ).phase == Phase::Completed),
        update.phase is Trying ==> (next is Replacing <==> version_answer(
            update.candidate@,
            update.release->0.version@,
            reply,
        ) is None),
        update.phase is Replacing ==> (next is Confirming <==> update.phase->Replacing_0.after(
            reply,
        ).phase == Phase::Completed),
        update.phase is Confirming ==> (next is Closing <==> version_answer(
            update.installed@,
            update.release->0.version@,
            reply,
        ) is None),
        update.phase is Closing ==> (next is Completed <==> update.phase->Closing_0.after(
            reply,
        ).phase == Phase::Completed),
{
}

// --------------------------------------------------
// Searches, settings and keys
// --------------------------------------------------

/// The places of an installation are found exactly where there is no command link and
/// the environment gives them, or where the command link leads to an installation that
/// keeps them.
pub proof fn places_are_found_exactly_if(search: PathSearch, reply: Reply, next: PathSearch)
    requires
        search.follows(reply, next),
    ensures
        search is Looking ==> (next is Linking <==> reply is Found),
        search is Looking ==> (next is Found <==> says_missing(reply) && environment_problem(
            search->environment,
        ) is None),
        search is Looking && next is Found ==> next->Found_0.homes() == environment_homes(
            search->environment,
        ),
        search is Linking ==> (next is Reading <==> reply is Contents && is_command_target(
            reply->Contents_0@,
        )),
        search is Reading ==> (next is Found <==> reply is Contents && homes_in(
            reply->Contents_0@,
        ) is Some),
        search is Reading && next is Found ==> Some(next->Found_0.homes()) == homes_in(
            reply->Contents_0@,
        ),
{
}

/// The route is decided by what stands before the lock is taken and after it: something
/// is installed only where nothing stands both times, and updated only where an
/// installation stands the first time or the second.
pub proof fn what_stands_decides_the_route(
    first: InstallState,
    begun: InstallRoute,
    lock: Result<(), Fault>,
    locked: InstallRoute,
    second: Result<InstallState, Failure>,
    last: InstallRoute,
)
    requires
        route_begins(first, begun),
        begun.follows_lock(lock, locked),
        locked.follows_state(second, last),
    ensures
        last is Installing <==> first is NotInstalled && lock is Ok && second
            == Ok::<InstallState, Failure>(InstallState::NotInstalled),
        last is Updating <==> lock is Ok && (first is Installed || (first is NotInstalled && second
            == Ok::<InstallState, Failure>(InstallState::Installed))),
        !(last is Installing) && !(last is Updating) ==> last is Failed,
{
}

/// The settings are changed exactly where the lock was taken, the settings that are there
/// could be read and the new ones were saved; what is saved reads back as the new setting.
pub proof fn settings_are_changed_exactly_if(
    enabled: bool,
    phase: ChangePhase,
    reply: Reply,
    next: ChangePhase,
)
    requires
        change_follows(enabled, phase, reply, next),
    ensures
        phase is Lock ==> (next is Read <==> reply is Done),
        phase is Read ==> (next is Save <==> reply is Contents && config_in(
            reply->Contents_0@,
        ) is Some),
        phase is Read && next is Save ==> config_in(next->contents@) is Some && config_in(
            next->contents@,
        )->0.show_cad_status == enabled,
        phase is Save ==> (next is Changed <==> reply is Done),
{
}

/// The question is answered exactly by a line with a meaning, and asked again after any
/// other line.
pub proof fn a_question_is_answered_exactly_if(
    handoff: Handoff,
    event: HandoffEvent,
    next: Handoff,
)
    requires
        handoff is Waiting,
        handoff.follows(event, next),
    ensures
        next is Answered <==> event is Line && meaning(event->Line_0@) is Some,
        next is Answered ==> Some(next->Answered_0) == meaning(event->Line_0@),
        next is Asking <==> event is Line && meaning(event->Line_0@) is None,
        !(next is Answered) && !(next is Asking) ==> next is Failed,
{
}

/// The setup of the keys goes on exactly where the directory is one or is made, each of
/// the files is a regular file or is missing, and the programs and the steps end well.
pub proof fn the_setup_of_keys_goes_on_exactly_if(setup: SshSetup, reply: Reply, next: SshPhase)
    requires
        setup.follows(reply, next),
    ensures
        ({
            let regular = reply is Found && reply->Found_0.kind == FileKind::Regular;
            let ended_well = reply is Exited && reply->success;
            &&& setup.phase is Directory ==> (next is Private <==> reply is Found
                && reply->Found_0.kind == FileKind::Directory)
            &&& setup.phase is Directory ==> (next is Making <==> says_missing(reply))
            &&& setup.phase is Making ==> (next is Private <==> setup.phase->Making_0.after(
                reply,
            ).phase == Phase::Completed)
            &&& setup.phase is Private ==> (next is Public <==> regular || says_missing(reply))
            &&& setup.phase is Private && next is Public ==> next->Public_private == regular
            &&& setup.phase is Public ==> (next is Keys <==> regular || says_missing(reply))
            &&& setup.phase is Public && next is Keys ==> next->Keys_public == regular
                && next->Keys_private == setup.phase->Public_private
            &&& setup.phase is Deriving ==> (next is Comparing <==> ended_well
                && setup.phase->Deriving_public && key_of(reply->output@) is Some)
            &&& setup.phase is Deriving ==> (next is Writing <==> ended_well
                && !setup.phase->Deriving_public && key_of(reply->output@) is Some)
            &&& setup.phase is Comparing ==> (next is Listing <==> reply is Contents && key_of(
                reply->Contents_0@,
            ) is Some && key_of(reply->Contents_0@)->0.key_type == setup.phase->derived.key_type@
                && key_of(reply->Contents_0@)->0.key_data == setup.phase->derived.key_data@)
            &&& setup.phase is Writing ==> (next is Listing
                <==> setup.phase->Writing_script.after(reply).phase == Phase::Completed)
            &&& setup.phase is Generating ==> (next is Checking <==> ended_well)
            &&& setup.phase is Checking ==> (next is Reading <==> setup.phase->Checking_0.after(
                reply,
            ).phase == Phase::Completed)
            &&& setup.phase is Reading ==> (next is Listing <==> reply is Contents && key_of(
                reply->Contents_0@,
            ) is Some)
            &&& setup.phase is Listing && says_missing(reply) ==> next is Measuring
            &&& setup.phase is Measuring ==> (next is Replacing <==> reply is Found
                || says_missing(reply))
        }),
{
}

/// A package is linked exactly where Stow is a regular executable file and has ended
/// well.
pub proof fn a_package_is_linked_exactly_if(run: StowRun, reply: Reply, next: StowPhase)
    requires
        run.follows(reply, next),
    ensures
        run.phase is Checking ==> (next is Linking <==> reply is Found && reply->Found_0.kind
            == FileKind::Regular && reply->Found_0.mode & 0o111 != 0),
        run.phase is Linking ==> (next is Completed <==> reply is Exited && reply->success),
        (run.phase is Checking || run.phase is Linking) && !(next is Linking) && !(
        next is Completed) ==> next is Unlinking,
{
}

/// The identity is written exactly where Git knows a name and an address, in that order.
pub proof fn an_identity_is_written_exactly_if(
    identity: GitIdentity,
    reply: Reply,
    next: IdentityPhase,
)
    requires
        identity.follows(reply, next),
    ensures
        identity.phase is Name ==> (next is Email <==> git_value("user.name"@, reply) is Ok),
        identity.phase is Name && next is Email ==> next->name@ == git_value(
            "user.name"@,
            reply,
        )->Ok_0,
        identity.phase is Email ==> (next is Writing <==> git_value("user.email"@, reply) is Ok),
        identity.phase is Writing ==> (next is Completed <==> identity.phase->Writing_0.after(
            reply,
        ).phase == Phase::Completed),
{
}

} // verus!
