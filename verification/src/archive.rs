//! The archive of the configuration: what may be in it, and how it is unpacked.

use crate::bytes::{copy_bytes, join_seq, same_bytes, text_bytes, views};
use crate::config::ResolvedPaths;
use crate::failure::{about, message_at, Failure};
use crate::host::{add_bytes, no_bytes, plain_program, Ask, FaultKind, FileKind, Program};
use crate::host::{ProgramView, Reply, Request};
use crate::paths::{absolute, components, components_of, is_absolute, join_text};
use crate::paths::{lemma_components_well_formed, part_views, under, well_formed, Component, Part};
use crate::script::{add_step, bare_deed, bare_step, no_steps, step, step_views, tells, unanswered};
use crate::script::{Check, Cleanup, Demand, Phase, Progress, Script, Step, StepView, Tidy};
use crate::text::{chars_of, concat, decimal, decimal_text, lines, lines_of, read_utf8, text_of};
use crate::text::{utf8_problem, words, words_of};
use crate::transaction::PathIdentity;
use vstd::prelude::*;
use vstd::utf8::{decode_utf8, encode_utf8, valid_utf8};

verus! {

/// The program that reads archives.
pub const TAR_PATH: &'static str = "/usr/bin/tar";

// --------------------------------------------------
// Entries
// --------------------------------------------------

/// Whether a path goes up or starts anew behind its first component.
pub open spec fn escapes(parts: Seq<Part>) -> bool {
    exists|i: int| 1 <= i < parts.len() && (#[trigger] parts[i] is Up || parts[i] is Root)
}

/// The directory that an entry lies in, or why the entry is refused; all entries have
/// to lie in one directory.
pub open spec fn entry_top(path: Seq<u8>, top: Option<Seq<u8>>) -> Result<Seq<u8>, Seq<char>> {
    let parts = components_of(path);
    if path.len() == 0 || absolute(path) || parts.len() == 0 || !(parts[0] is Name) {
        Err("invalid configuration archive path"@)
    } else if escapes(parts) {
        Err("configuration archive path escapes its top-level directory"@)
    } else if top is Some && top->0 != parts[0]->Name_0 {
        Err("configuration archive has multiple top-level directories"@)
    } else {
        Ok(parts[0]->Name_0)
    }
}

/// The directory that an entry lies in, or why the entry is refused.
pub fn validate_archive_entry(path: &[u8], top: &Option<Vec<u8>>) -> (result: Result<
    Vec<u8>,
    Failure,
>)
    ensures
        match entry_top(
            path@,
            match *top {
                Some(name) => Some(name@),
                None => None,
            },
        ) {
            Ok(name) => result is Ok && result->Ok_0@ == name,
            Err(words) => result is Err && result->Err_0.says(words),
        },
{
    if path.len() == 0 || is_absolute(path) {
        return Err(Failure::plain("invalid configuration archive path"));
    }
    let parts = components(path);
    let ghost views = part_views(parts@);
    assert(views.len() == parts@.len());
    if parts.len() == 0 {
        return Err(Failure::plain("invalid configuration archive path"));
    }
    assert(views[0] == parts@[0]@);
    let first = match &parts[0] {
        Component::Name(name) => copy_bytes(name),
        _ => {
            return Err(Failure::plain("invalid configuration archive path"));
        },
    };
    let mut index: usize = 1;
    while index < parts.len()
        invariant
            1 <= index <= parts.len(),
            views == part_views(parts@),
            views == components_of(path@),
            path@.len() > 0,
            !absolute(path@),
            views.len() == parts@.len(),
            views[0] is Name,
            forall|i: int| 1 <= i < index ==> !(#[trigger] views[i] is Up || views[i] is Root),
        decreases parts.len() - index,
    {
        assert(views[index as int] == parts@[index as int]@);
        let leaves = match &parts[index] {
            Component::Up => true,
            Component::Root => true,
            _ => false,
        };
        if leaves {
            assert(escapes(views));
            return Err(
                Failure::plain("configuration archive path escapes its top-level directory"),
            );
        }
        index = index + 1;
    }
    assert(!escapes(views));
    match top {
        Some(expected) => {
            if !same_bytes(expected, &first) {
                return Err(
                    Failure::plain("configuration archive has multiple top-level directories"),
                );
            }
        },
        None => {},
    }
    Ok(first)
}

/// The path that a line of a listing shows: what follows the first five words.
pub open spec fn listed_path(line: Seq<char>) -> Seq<u8> {
    encode_utf8(join_seq(words_of(line).skip(5), ' '))
}

/// The directory that the entry of a line lies in, or why it is refused.
pub open spec fn line_top(line: Seq<char>, top: Option<Seq<u8>>) -> Result<Seq<u8>, Seq<char>> {
    if line.len() == 0 {
        Err("empty archive listing entry"@)
    } else if line[0] != '-' && line[0] != 'd' {
        Err("unsupported configuration archive entry"@)
    } else if words_of(line).len() < 6 {
        Err("invalid configuration archive listing entry"@)
    } else {
        entry_top(listed_path(line), top)
    }
}

/// The directory that all entries lie in so far, or why one is refused.
pub open spec fn listing_top(all: Seq<Seq<char>>) -> Result<Option<Seq<u8>>, Seq<char>>
    decreases all.len(),
{
    if all.len() == 0 {
        Ok(None)
    } else {
        match listing_top(all.drop_last()) {
            Err(words) => Err(words),
            Ok(top) => match line_top(all.last(), top) {
                Err(words) => Err(words),
                Ok(name) => Ok(Some(name)),
            },
        }
    }
}

/// The directory that all entries of an archive lie in, or why the archive is refused.
pub open spec fn archive_top(listing: Seq<char>) -> Result<Seq<u8>, Seq<char>> {
    match listing_top(lines_of(listing)) {
        Err(words) => Err(words),
        Ok(None) => Err("configuration archive is empty"@),
        Ok(Some(name)) => Ok(name),
    }
}

/// The words with a blank between neighbours.
fn join_words(found: &Vec<Vec<char>>, first: usize) -> (chars: Vec<char>)
    requires
        first <= found@.len(),
    ensures
        chars@ == join_seq(views(found@).skip(first as int), ' '),
{
    let ghost tail = views(found@).skip(first as int);
    let mut chars: Vec<char> = Vec::new();
    let mut index: usize = first;
    assert(tail.take(0) =~= Seq::<Seq<char>>::empty());
    while index < found.len()
        invariant
            first <= index <= found.len(),
            tail == views(found@).skip(first as int),
            chars@ == join_seq(tail.take(index - first), ' '),
        decreases found.len() - index,
    {
        let ghost before = tail.take(index - first);
        let ghost after = tail.take(index + 1 - first);
        assert(after.drop_last() =~= before);
        assert(after.last() == found@[index as int]@);
        if index > first {
            chars.push(' ');
        }
        let mut at: usize = 0;
        let ghost start = chars@;
        assert(found@[index as int]@.take(0) =~= Seq::<char>::empty());
        assert(start + found@[index as int]@.take(0) =~= start);
        while at < found[index].len()
            invariant
                index < found.len(),
                at <= found@[index as int]@.len(),
                chars@ == start + found@[index as int]@.take(at as int),
            decreases found@[index as int]@.len() - at,
        {
            chars.push(found[index][at]);
            assert(found@[index as int]@.take(at + 1) =~= found@[index as int]@.take(
                at as int,
            ).push(found@[index as int]@[at as int]));
            assert(chars@ =~= start + found@[index as int]@.take(at + 1));
            at = at + 1;
        }
        assert(found@[index as int]@.take(at as int) =~= found@[index as int]@);
        assert(chars@ =~= join_seq(after, ' ')) by {
            if index == first {
                assert(before =~= Seq::<Seq<char>>::empty());
                assert(after =~= seq![found@[index as int]@]);
            }
        }
        index = index + 1;
    }
    assert(tail.take(index - first) =~= tail);
    chars
}

/// The directory that the entry of a line lies in, or why it is refused.
fn check_line(line: &Vec<char>, top: &Option<Vec<u8>>) -> (result: Result<Vec<u8>, Failure>)
    ensures
        match line_top(
            line@,
            match *top {
                Some(name) => Some(name@),
                None => None,
            },
        ) {
            Ok(name) => result is Ok && result->Ok_0@ == name,
            Err(words) => result is Err && result->Err_0.says(words),
        },
{
    if line.len() == 0 {
        return Err(Failure::plain("empty archive listing entry"));
    }
    if line[0] != '-' && line[0] != 'd' {
        return Err(Failure::plain("unsupported configuration archive entry"));
    }
    let found = words(line);
    assert(views(found@).len() == found@.len());
    if found.len() < 6 {
        return Err(Failure::plain("invalid configuration archive listing entry"));
    }
    let path = text_bytes(&text_of(&join_words(&found, 5)));
    validate_archive_entry(&path, top)
}

/// The directory that all entries of a listing lie in, or why one is refused.
pub fn check_listing(listing: &str) -> (result: Result<Vec<u8>, Failure>)
    ensures
        match archive_top(listing@) {
            Ok(name) => result is Ok && result->Ok_0@ == name,
            Err(words) => result is Err && result->Err_0.says(words),
        },
{
    let all = lines(&chars_of(listing));
    let ghost found = lines_of(listing@);
    assert(views(all@).len() == all@.len());
    let mut top: Option<Vec<u8>> = None;
    let mut index: usize = 0;
    assert(found.take(0) =~= Seq::<Seq<char>>::empty());
    while index < all.len()
        invariant
            index <= all.len(),
            found == views(all@),
            found == lines_of(listing@),
            found.len() == all@.len(),
            listing_top(found.take(index as int)) == Ok::<Option<Seq<u8>>, Seq<char>>(
                match top {
                    Some(name) => Some(name@),
                    None => None,
                },
            ),
        decreases all.len() - index,
    {
        assert(found.take(index + 1).drop_last() =~= found.take(index as int));
        assert(found.take(index + 1).last() == all@[index as int]@);
        match check_line(&all[index], &top) {
            Err(failure) => {
                proof {
                    lemma_refused(found, index + 1, failure.message@);
                }
                return Err(failure);
            },
            Ok(name) => {
                top = Some(name);
            },
        }
        index = index + 1;
    }
    assert(found.take(index as int) =~= found);
    match top {
        None => Err(Failure::plain("configuration archive is empty")),
        Some(name) => Ok(name),
    }
}

/// Whether this is what is said of an archive by what its listing came back with: the
/// directory that all entries lie in, or why the archive is refused.
pub open spec fn inspected(reply: Reply, result: Result<Vec<u8>, Failure>) -> bool {
    match reply {
        Reply::Failed(fault) => result is Err && result->Err_0.says(fault.text@),
        Reply::Exited { success, status, output, .. } => if !success {
            result is Err && result->Err_0.says(
                "configuration archive inspection failed: "@ + status@,
            )
        } else if !valid_utf8(output@) {
            result is Err && result->Err_0.says(utf8_problem(output@))
        } else {
            match archive_top(decode_utf8(output@)) {
                Ok(name) => result is Ok && result->Ok_0@ == name,
                Err(words) => result is Err && result->Err_0.says(words),
            }
        },
        _ => result is Err && result->Err_0.says(unanswered()),
    }
}

/// The directory that all entries of an archive lie in, or why the archive is refused,
/// by what the listing of the archive came back with.
pub fn inspect_archive(reply: Reply) -> (result: Result<Vec<u8>, Failure>)
    ensures
        inspected(reply, result),
{
    let output = match reply {
        Reply::Failed(fault) => {
            return Err(Failure::plain(&fault.text));
        },
        Reply::Exited { success, status, output, .. } => {
            if !success {
                return Err(
                    Failure::plain(&concat("configuration archive inspection failed: ", &status)),
                );
            }
            output
        },
        _ => {
            return Err(Failure::plain("unexpected reply"));
        },
    };
    let listing = match read_utf8(&output) {
        Err(problem) => {
            return Err(Failure::plain(&problem));
        },
        Ok(text) => text,
    };
    check_listing(&listing)
}

/// What is refused in the beginning of a listing is refused in all of it.
proof fn lemma_refused(all: Seq<Seq<char>>, count: int, words: Seq<char>)
    requires
        0 <= count <= all.len(),
        listing_top(all.take(count)) == Err::<Option<Seq<u8>>, Seq<char>>(words),
    ensures
        listing_top(all) == Err::<Option<Seq<u8>>, Seq<char>>(words),
    decreases all.len() - count,
{
    if count < all.len() {
        assert(all.take(count + 1).drop_last() =~= all.take(count));
        lemma_refused(all, count + 1, words);
    } else {
        assert(all.take(count) =~= all);
    }
}

/// Whether a path lies in a directory: it begins with the name and goes only down.
pub open spec fn lies_in(path: Seq<u8>, top: Seq<u8>) -> bool {
    let parts = components_of(path);
    &&& !absolute(path)
    &&& parts.len() > 0
    &&& parts[0] == Part::Name(top)
    &&& !escapes(parts)
}

/// Every entry of an archive that is accepted is a file or a directory and lies in
/// the one directory of the archive; none leads out of it.
pub proof fn accepted_entries_stay_inside(all: Seq<Seq<char>>, entry: int)
    requires
        listing_top(all) is Ok,
        0 <= entry < all.len(),
    ensures
        listing_top(all)->Ok_0 is Some,
        all[entry].len() > 0,
        all[entry][0] == '-' || all[entry][0] == 'd',
        lies_in(listed_path(all[entry]), listing_top(all)->Ok_0->0),
    decreases all.len(),
{
    if entry < all.len() - 1 {
        accepted_entries_stay_inside(all.drop_last(), entry);
        assert(all.drop_last()[entry] == all[entry]);
    }
}

// --------------------------------------------------
// Unpacking
// --------------------------------------------------

/// The program that lists an archive.
pub open spec fn list_program(archive: Seq<u8>) -> ProgramView {
    plain_program(encode_utf8(TAR_PATH@), seq![encode_utf8("-tvzf"@), archive])
}

/// The program that unpacks an archive: the entries belong to the user, and the
/// directory that they all lie in is left out.
pub open spec fn extract_program(archive: Seq<u8>, core_root: Seq<u8>) -> ProgramView {
    plain_program(
        encode_utf8(TAR_PATH@),
        seq![
            encode_utf8("-xzf"@),
            archive,
            encode_utf8("-C"@),
            core_root,
            encode_utf8("--strip-components=1"@),
            encode_utf8("--no-same-owner"@),
            encode_utf8("--no-same-permissions"@),
        ],
    )
}

/// The steps that download an archive.
pub open spec fn archive_steps(archive: Seq<u8>, url: Seq<char>) -> Seq<StepView> {
    seq![
        bare_deed(Ask::CreateFile { path: archive, mode: 0o600 }),
        bare_deed(Ask::SetOpenMode { path: archive, mode: 0o600 }),
        bare_deed(Ask::GetPrivate(url)),
        bare_deed(Ask::SaveBody(archive)),
        bare_deed(Ask::SyncOpen(archive)),
        bare_deed(Ask::Heading("Extracting configuration"@)),
    ]
}

/// The steps that unpack an archive that was accepted.
pub open spec fn extract_steps(archive: Seq<u8>, core_root: Seq<u8>) -> Seq<StepView> {
    seq![
        bare_deed(Ask::MakeDirectory { path: core_root, mode: 0o700 }),
        bare_deed(Ask::SetMode { path: core_root, mode: 0o700 }),
        bare_step(
            Ask::Run(extract_program(archive, core_root)),
            Demand::Success,
            "configuration extraction failed: "@,
        ),
        step(
            Ask::Inspect(core_root),
            Demand::Kind(FileKind::Directory),
            about("extracted configuration is unavailable: "@, core_root),
            about("extracted configuration must be a non-symlink directory: "@, core_root),
        ),
    ]
}

fn list_command(archive: &[u8]) -> (program: Program)
    ensures
        program@ == list_program(archive@),
{
    let mut arguments = no_bytes();
    add_bytes(&mut arguments, text_bytes("-tvzf"));
    add_bytes(&mut arguments, copy_bytes(archive));
    assert(views(arguments@) =~= seq![encode_utf8("-tvzf"@), archive@]);
    Program::plain(text_bytes(TAR_PATH), arguments)
}

fn extract_command(archive: &[u8], core_root: &[u8]) -> (program: Program)
    ensures
        program@ == extract_program(archive@, core_root@),
{
    let mut arguments = no_bytes();
    add_bytes(&mut arguments, text_bytes("-xzf"));
    add_bytes(&mut arguments, copy_bytes(archive));
    add_bytes(&mut arguments, text_bytes("-C"));
    add_bytes(&mut arguments, copy_bytes(core_root));
    add_bytes(&mut arguments, text_bytes("--strip-components=1"));
    add_bytes(&mut arguments, text_bytes("--no-same-owner"));
    add_bytes(&mut arguments, text_bytes("--no-same-permissions"));
    assert(views(arguments@) =~= seq![
        encode_utf8("-xzf"@),
        archive@,
        encode_utf8("-C"@),
        core_root@,
        encode_utf8("--strip-components=1"@),
        encode_utf8("--no-same-owner"@),
        encode_utf8("--no-same-permissions"@),
    ]);
    Program::plain(text_bytes(TAR_PATH), arguments)
}

fn download(archive: &[u8], url: &str) -> (script: Script)
    ensures
        script.begins(archive_steps(archive@, url@), Tidy::Nothing),
{
    let mut steps = no_steps();
    add_step(
        &mut steps,
        Step::bare_deed(Request::CreateFile { path: copy_bytes(archive), mode: 0o600 }),
    );
    add_step(
        &mut steps,
        Step::bare_deed(Request::SetOpenMode { path: copy_bytes(archive), mode: 0o600 }),
    );
    add_step(&mut steps, Step::bare_deed(Request::GetPrivate(url.to_owned())));
    add_step(&mut steps, Step::bare_deed(Request::SaveBody(copy_bytes(archive))));
    add_step(&mut steps, Step::bare_deed(Request::SyncOpen(copy_bytes(archive))));
    add_step(
        &mut steps,
        Step::bare_deed(Request::Heading("Extracting configuration".to_owned())),
    );
    assert(step_views(steps@) =~= archive_steps(archive@, url@));
    Script::new(steps, Cleanup::Nothing)
}

/// Unpacks an archive that was accepted into a new directory.
pub fn extract_private_archive(archive: &[u8], core_root: &[u8]) -> (script: Script)
    ensures
        script.begins(extract_steps(archive@, core_root@), Tidy::Nothing),
{
    let mut steps = no_steps();
    add_step(
        &mut steps,
        Step::bare_deed(Request::MakeDirectory { path: copy_bytes(core_root), mode: 0o700 }),
    );
    add_step(
        &mut steps,
        Step::bare_deed(Request::SetMode { path: copy_bytes(core_root), mode: 0o700 }),
    );
    add_step(
        &mut steps,
        Step::bare(
            Request::Run(extract_command(archive, core_root)),
            Check::Success,
            "configuration extraction failed: ".to_owned(),
        ),
    );
    add_step(
        &mut steps,
        Step::new(
            Request::Inspect(copy_bytes(core_root)),
            Check::Kind(FileKind::Directory),
            message_at("extracted configuration is unavailable: ", core_root),
            message_at("extracted configuration must be a non-symlink directory: ", core_root),
        ),
    );
    assert(step_views(steps@) =~= extract_steps(archive@, core_root@));
    Script::new(steps, Cleanup::Nothing)
}

/// How far the download of the configuration has come.
#[derive(Debug)]
pub enum ArchivePhase {
    /// The directory for temporary files is created.
    Parent,
    /// A directory of its own is created.
    Making,
    /// It is looked at.
    Inspecting,
    /// It could not be looked at and is removed again.
    Dropping { failure: Failure },
    /// Its permissions are set.
    Setting { owned: PathIdentity },
    /// The archive is downloaded.
    Downloading { script: Script, owned: PathIdentity },
    /// The archive is listed.
    Listing { owned: PathIdentity },
    /// The archive is unpacked.
    Extracting { script: Script, owned: PathIdentity },
    /// After this failure the directory is looked at before it is removed.
    Returning { owned: PathIdentity, failure: Failure },
    /// After this failure the directory is removed.
    Removing { failure: Failure },
    /// The configuration is there; this is the directory with everything in it.
    Completed(PathIdentity),
    Failed(Failure),
}

/// The download of the configuration.
#[derive(Debug)]
pub struct PrivateArchive {
    pub parent: Vec<u8>,
    pub url: String,
    pub process: u64,
    /// The number of the directory.
    pub sequence: u64,
    /// The directory.
    pub root: Vec<u8>,
    pub phase: ArchivePhase,
}

/// The directory with this number.
pub open spec fn attempt_root(parent: Seq<u8>, process: u64, sequence: u64) -> Seq<u8> {
    under(parent, "install-"@ + decimal(process as nat) + "-"@ + decimal(sequence as nat))
}

fn attempt(parent: &[u8], process: u64, sequence: u64) -> (root: Vec<u8>)
    ensures
        root@ == attempt_root(parent@, process, sequence),
{
    let mut name = "install-".to_owned();
    name.append(&decimal_text(process));
    name.append("-");
    name.append(&decimal_text(sequence));
    join_text(parent, &name)
}

/// The number behind this one; behind the last one comes the first.
pub open spec fn next_sequence(sequence: u64) -> u64 {
    if sequence == u64::MAX {
        0
    } else {
        (sequence + 1) as u64
    }
}

/// Begins to download the configuration from this address.
pub fn download_private_archive(paths: &ResolvedPaths, url: &str, process: u64, sequence: u64) -> (
archive: PrivateArchive)
    ensures
        archive.begins(paths.state_home@, url@, process, sequence),
{
    let parent = join_text(&paths.state_home, "eiyah/tmp");
    let root = attempt(&parent, process, sequence);
    PrivateArchive {
        parent,
        url: url.to_owned(),
        process,
        sequence,
        root,
        phase: ArchivePhase::Parent,
    }
}

impl PrivateArchive {
    /// Whether the download of the configuration begins.
    pub open spec fn begins(
        &self,
        state_home: Seq<u8>,
        url: Seq<char>,
        process: u64,
        sequence: u64,
    ) -> bool {
        &&& self.parent@ == under(state_home, "eiyah/tmp"@)
        &&& self.url@ == url
        &&& self.process == process
        &&& self.sequence == sequence
        &&& self.sound()
        &&& self.phase is Parent
    }

    /// Whether the directory is the one with the number.
    pub open spec fn sound(&self) -> bool {
        self.root@ == attempt_root(self.parent@, self.process, self.sequence)
    }

    /// The archive.
    pub open spec fn file(&self) -> Seq<u8> {
        under(self.root@, "eiyah-core.tar.gz"@)
    }

    /// The directory of the configuration.
    pub open spec fn core_root(&self) -> Seq<u8> {
        under(self.root@, "core"@)
    }

    pub open spec fn asks(&self) -> Ask {
        match self.phase {
            ArchivePhase::Parent => Ask::MakeManaged(self.parent@),
            ArchivePhase::Making => Ask::MakeDirectory { path: self.root@, mode: 0o700 },
            ArchivePhase::Inspecting => Ask::Inspect(self.root@),
            ArchivePhase::Dropping { .. } => Ask::RemoveDirectory(self.root@),
            ArchivePhase::Setting { .. } => Ask::SetMode { path: self.root@, mode: 0o700 },
            ArchivePhase::Downloading { script, .. } => script.asks(),
            ArchivePhase::Listing { .. } => Ask::Capture(list_program(self.file())),
            ArchivePhase::Extracting { script, .. } => script.asks(),
            ArchivePhase::Returning { .. } => Ask::Inspect(self.root@),
            ArchivePhase::Removing { .. } => Ask::RemoveTree(self.root@),
            ArchivePhase::Completed(_) => Ask::Nothing,
            ArchivePhase::Failed(_) => Ask::Nothing,
        }
    }

    /// What the download does with a reply.
    pub open spec fn follows(&self, reply: Reply, next: ArchivePhase) -> bool {
        match self.phase {
            ArchivePhase::Parent => match reply {
                Reply::Done => next is Making,
                Reply::Failed(fault) => next is Failed && next->Failed_0.says(fault.text@),
                _ => next is Failed && next->Failed_0.says(unanswered()),
            },
            ArchivePhase::Making => match reply {
                Reply::Done => next is Inspecting,
                Reply::Failed(fault) => if fault.kind == FaultKind::AlreadyExists {
                    next is Making
                } else {
                    next is Failed && next->Failed_0.says(fault.text@)
                },
                _ => next is Failed && next->Failed_0.says(unanswered()),
            },
            ArchivePhase::Inspecting => match reply {
                Reply::Found(entry) => next == (ArchivePhase::Setting { owned: entry.identity }),
                Reply::Failed(fault) => next is Dropping && next->Dropping_failure.says(fault.text@),
                _ => next is Dropping && next->Dropping_failure.says(unanswered()),
            },
            ArchivePhase::Dropping { failure } => next == ArchivePhase::Failed(failure),
            ArchivePhase::Setting { owned } => match reply {
                Reply::Done => next is Downloading && next->Downloading_owned == owned
                    && next->Downloading_script.begins(
                    archive_steps(self.file(), self.url@),
                    Tidy::Nothing,
                ),
                Reply::Failed(fault) => next is Returning && next->Returning_owned == owned
                    && next->Returning_failure.says(fault.text@),
                _ => next is Returning && next->Returning_owned == owned
                    && next->Returning_failure.says(unanswered()),
            },
            ArchivePhase::Downloading { script, owned } => match script.after(reply).phase {
                Phase::Completed => next == (ArchivePhase::Listing { owned }),
                Phase::Failed { step, fault } => next is Returning && next->Returning_owned == owned
                    && tells(step_views(script.steps@), step as int, fault, next->Returning_failure),
                _ => next == (ArchivePhase::Downloading { script: script.after(reply), owned }),
            },
            ArchivePhase::Listing { owned } => exists|result: Result<Vec<u8>, Failure>| #[trigger]
                inspected(reply, result) && match result {
                    Ok(_) => next is Extracting && next->Extracting_owned == owned
                        && next->Extracting_script.begins(
                        extract_steps(self.file(), self.core_root()),
                        Tidy::Nothing,
                    ),
                    Err(failure) => next == (ArchivePhase::Returning { owned, failure }),
                },
            ArchivePhase::Extracting { script, owned } => match script.after(reply).phase {
                Phase::Completed => next == ArchivePhase::Completed(owned),
                Phase::Failed { step, fault } => next is Returning && next->Returning_owned == owned
                    && tells(step_views(script.steps@), step as int, fault, next->Returning_failure),
                _ => next == (ArchivePhase::Extracting { script: script.after(reply), owned }),
            },
            ArchivePhase::Returning { owned, failure } => match reply {
                Reply::Found(entry) => if entry.identity == owned {
                    next == (ArchivePhase::Removing { failure })
                } else {
                    next == ArchivePhase::Failed(failure)
                },
                _ => next == ArchivePhase::Failed(failure),
            },
            ArchivePhase::Removing { failure } => next == ArchivePhase::Failed(failure),
            ArchivePhase::Completed(_) => next == self.phase,
            ArchivePhase::Failed(_) => next == self.phase,
        }
    }

    pub fn request(&self) -> (request: Request)
        ensures
            request@ == self.asks(),
    {
        match &self.phase {
            ArchivePhase::Parent => Request::MakeManaged(copy_bytes(&self.parent)),
            ArchivePhase::Making => Request::MakeDirectory {
                path: copy_bytes(&self.root),
                mode: 0o700,
            },
            ArchivePhase::Inspecting => Request::Inspect(copy_bytes(&self.root)),
            ArchivePhase::Dropping { .. } => Request::RemoveDirectory(copy_bytes(&self.root)),
            ArchivePhase::Setting { .. } => Request::SetMode {
                path: copy_bytes(&self.root),
                mode: 0o700,
            },
            ArchivePhase::Downloading { script, .. } => script.wanted(),
            ArchivePhase::Listing { .. } => Request::Capture(
                list_command(&join_text(&self.root, "eiyah-core.tar.gz")),
            ),
            ArchivePhase::Extracting { script, .. } => script.wanted(),
            ArchivePhase::Returning { .. } => Request::Inspect(copy_bytes(&self.root)),
            ArchivePhase::Removing { .. } => Request::RemoveTree(copy_bytes(&self.root)),
            ArchivePhase::Completed(_) => Request::Nothing,
            ArchivePhase::Failed(_) => Request::Nothing,
        }
    }

    /// Goes on with a reply. Where the directory exists already, the next number is
    /// tried.
    #[verifier::rlimit(40)]
    pub fn advance(self, reply: Reply) -> (next: PrivateArchive)
        requires
            self.sound(),
        ensures
            next.sound(),
            next.parent == self.parent,
            next.url == self.url,
            next.process == self.process,
            self.follows(reply, next.phase),
            self.phase is Making && next.phase is Making ==> next.sequence == next_sequence(
                self.sequence,
            ),
            !(self.phase is Making && next.phase is Making) ==> next.sequence == self.sequence
                && next.root == self.root,
    {
        let PrivateArchive { parent, url, process, sequence, root, phase } = self;
        let next = match phase {
            ArchivePhase::Parent => match reply {
                Reply::Done => ArchivePhase::Making,
                Reply::Failed(fault) => ArchivePhase::Failed(Failure::plain(&fault.text)),
                _ => ArchivePhase::Failed(Failure::plain("unexpected reply")),
            },
            ArchivePhase::Making => match reply {
                Reply::Done => ArchivePhase::Inspecting,
                Reply::Failed(fault) => {
                    if fault.kind == FaultKind::AlreadyExists {
                        let following: u64 = if sequence == u64::MAX {
                            0
                        } else {
                            sequence + 1
                        };
                        let root = attempt(&parent, process, following);
                        return PrivateArchive {
                            parent,
                            url,
                            process,
                            sequence: following,
                            root,
                            phase: ArchivePhase::Making,
                        };
                    }
                    ArchivePhase::Failed(Failure::plain(&fault.text))
                },
                _ => ArchivePhase::Failed(Failure::plain("unexpected reply")),
            },
            ArchivePhase::Inspecting => match reply {
                Reply::Found(entry) => ArchivePhase::Setting { owned: entry.identity },
                Reply::Failed(fault) => ArchivePhase::Dropping {
                    failure: Failure::plain(&fault.text),
                },
                _ => ArchivePhase::Dropping { failure: Failure::plain("unexpected reply") },
            },
            ArchivePhase::Dropping { failure } => ArchivePhase::Failed(failure),
            ArchivePhase::Setting { owned } => match reply {
                Reply::Done => ArchivePhase::Downloading {
                    script: download(&join_text(&root, "eiyah-core.tar.gz"), &url),
                    owned,
                },
                Reply::Failed(fault) => ArchivePhase::Returning {
                    owned,
                    failure: Failure::plain(&fault.text),
                },
                _ => ArchivePhase::Returning { owned, failure: Failure::plain("unexpected reply") },
            },
            ArchivePhase::Downloading { script, owned } => match script.progress(reply) {
                Progress::Going(script) => ArchivePhase::Downloading { script, owned },
                Progress::Completed => ArchivePhase::Listing { owned },
                Progress::Broken(failure) => ArchivePhase::Returning { owned, failure },
            },
            ArchivePhase::Listing { owned } => {
                let result = inspect_archive(reply);
                assert(inspected(reply, result));
                match result {
                    Err(failure) => ArchivePhase::Returning { owned, failure },
                    Ok(_) => ArchivePhase::Extracting {
                        script: extract_private_archive(
                            &join_text(&root, "eiyah-core.tar.gz"),
                            &join_text(&root, "core"),
                        ),
                        owned,
                    },
                }
            },
            ArchivePhase::Extracting { script, owned } => match script.progress(reply) {
                Progress::Going(script) => ArchivePhase::Extracting { script, owned },
                Progress::Completed => ArchivePhase::Completed(owned),
                Progress::Broken(failure) => ArchivePhase::Returning { owned, failure },
            },
            ArchivePhase::Returning { owned, failure } => match reply {
                Reply::Found(entry) => if entry.identity == owned {
                    ArchivePhase::Removing { failure }
                } else {
                    ArchivePhase::Failed(failure)
                },
                _ => ArchivePhase::Failed(failure),
            },
            ArchivePhase::Removing { failure } => ArchivePhase::Failed(failure),
            ArchivePhase::Completed(identity) => ArchivePhase::Completed(identity),
            ArchivePhase::Failed(failure) => ArchivePhase::Failed(failure),
        };
        PrivateArchive { parent, url, process, sequence, root, phase: next }
    }
}

/// An archive is unpacked only where its listing was accepted, and what was unpacked
/// in vain is removed only where the directory is still the one that was created.
pub proof fn only_an_accepted_archive_is_unpacked(
    archive: PrivateArchive,
    reply: Reply,
    next: ArchivePhase,
)
    requires
        archive.follows(reply, next),
    ensures
        next is Extracting && !(archive.phase is Extracting) ==> archive.phase is Listing && reply
            is Exited && reply->success && archive_top(decode_utf8(reply->output@)) is Ok,
        next is Removing && !(archive.phase is Removing) ==> archive.phase is Returning && reply
            is Found && reply->Found_0.identity == archive.phase->Returning_owned,
{
}

// --------------------------------------------------
// Removal
// --------------------------------------------------

/// How far the removal of a directory of one's own has come.
#[derive(Debug)]
pub enum TreeRemoval {
    /// The directory is looked at.
    Looking { path: Vec<u8>, owned: PathIdentity },
    /// The directory is removed.
    Removing { path: Vec<u8> },
    Completed,
    Failed(Failure),
}

/// Begins to remove a directory, provided that it is still this one.
pub fn remove_owned_tree(path: &[u8], owned: PathIdentity) -> (removal: TreeRemoval)
    ensures
        removal is Looking,
        removal->Looking_path@ == path@,
        removal->owned == owned,
{
    TreeRemoval::Looking { path: copy_bytes(path), owned }
}

impl TreeRemoval {
    pub open spec fn asks(&self) -> Ask {
        match self {
            TreeRemoval::Looking { path, .. } => Ask::Inspect(path@),
            TreeRemoval::Removing { path } => Ask::RemoveTree(path@),
            TreeRemoval::Completed => Ask::Nothing,
            TreeRemoval::Failed(_) => Ask::Nothing,
        }
    }

    /// What the removal does with a reply: a directory that is gone or is another one
    /// is left alone.
    pub open spec fn follows(&self, reply: Reply, next: TreeRemoval) -> bool {
        match self {
            TreeRemoval::Looking { path, owned } => match reply {
                Reply::Found(entry) => if entry.identity == *owned {
                    next == (TreeRemoval::Removing { path: *path })
                } else {
                    next is Completed
                },
                Reply::Failed(fault) => if fault.kind == FaultKind::NotFound {
                    next is Completed
                } else {
                    next is Failed && next->Failed_0.says(fault.text@)
                },
                _ => next is Failed && next->Failed_0.says(unanswered()),
            },
            TreeRemoval::Removing { .. } => match reply {
                Reply::Done => next is Completed,
                Reply::Failed(fault) => next is Failed && next->Failed_0.says(fault.text@),
                _ => next is Failed && next->Failed_0.says(unanswered()),
            },
            _ => next == *self,
        }
    }

    pub fn request(&self) -> (request: Request)
        ensures
            request@ == self.asks(),
    {
        match self {
            TreeRemoval::Looking { path, .. } => Request::Inspect(copy_bytes(path)),
            TreeRemoval::Removing { path } => Request::RemoveTree(copy_bytes(path)),
            TreeRemoval::Completed => Request::Nothing,
            TreeRemoval::Failed(_) => Request::Nothing,
        }
    }

    /// Goes on with a reply.
    pub fn advance(self, reply: Reply) -> (next: TreeRemoval)
        ensures
            self.follows(reply, next),
    {
        match self {
            TreeRemoval::Looking { path, owned } => match reply {
                Reply::Found(entry) => if entry.identity == owned {
                    TreeRemoval::Removing { path }
                } else {
                    TreeRemoval::Completed
                },
                Reply::Failed(fault) => if fault.kind == FaultKind::NotFound {
                    TreeRemoval::Completed
                } else {
                    TreeRemoval::Failed(Failure::plain(&fault.text))
                },
                _ => TreeRemoval::Failed(Failure::plain("unexpected reply")),
            },
            TreeRemoval::Removing { .. } => match reply {
                Reply::Done => TreeRemoval::Completed,
                Reply::Failed(fault) => TreeRemoval::Failed(Failure::plain(&fault.text)),
                _ => TreeRemoval::Failed(Failure::plain("unexpected reply")),
            },
            other => other,
        }
    }
}

/// Whether a line of a listing is that of a file or a directory inside the directory
/// `top`, or of that directory itself.
pub open spec fn is_entry_of(line: Seq<char>, top: Seq<u8>) -> bool {
    let path = listed_path(line);
    let parts = components_of(path);
    &&& line.len() > 0 && (line[0] == '-' || line[0] == 'd')
    &&& words_of(line).len() >= 6
    &&& path.len() > 0 && path[0] != 0x2f
    &&& parts.len() > 0 && parts[0] == Part::Name(top)
    &&& forall|i: int| 1 <= i < parts.len() ==> #[trigger] parts[i] is Name
}

/// A listing is accepted exactly if it is not empty and every line is that of a file or
/// a directory inside one and the same directory, which is then its top.
pub proof fn a_listing_is_accepted_exactly_if(all: Seq<Seq<char>>, top: Seq<u8>)
    ensures
        listing_top(all) == Ok::<Option<Seq<u8>>, Seq<char>>(Some(top)) <==> all.len() > 0
            && forall|i: int| 0 <= i < all.len() ==> is_entry_of(#[trigger] all[i], top),
        listing_top(all) == Ok::<Option<Seq<u8>>, Seq<char>>(None) <==> all.len() == 0,
    decreases all.len(),
{
    if all.len() > 0 {
        let front = all.drop_last();
        let last = all.last();
        a_listing_is_accepted_exactly_if(front, top);
        assert(last == all[all.len() - 1]);
        assert forall|i: int| 0 <= i < front.len() implies #[trigger] front[i] == all[i] by {}
        lemma_line(last, None, top);
        lemma_line(last, Some(top), top);
        match listing_top(front) {
            Ok(Some(other)) => {
                a_listing_is_accepted_exactly_if(front, other);
                lemma_line(last, Some(other), top);
                if other != top {
                    assert(is_entry_of(front[0], other));
                    assert(is_entry_of(all[0], other));
                    assert(!is_entry_of(all[0], top));
                }
                if forall|i: int| 0 <= i < all.len() ==> is_entry_of(#[trigger] all[i], top) {
                    assert(is_entry_of(all[0], top));
                    assert(is_entry_of(all[all.len() - 1], top));
                }
                if listing_top(all) == Ok::<Option<Seq<u8>>, Seq<char>>(Some(top)) {
                    assert(other == top);
                    assert forall|i: int| 0 <= i < all.len() implies is_entry_of(
                        #[trigger] all[i],
                        top,
                    ) by {
                        if i < front.len() {
                            assert(is_entry_of(front[i], top));
                        }
                    }
                }
            },
            Ok(None) => {
                if forall|i: int| 0 <= i < all.len() ==> is_entry_of(#[trigger] all[i], top) {
                    assert(is_entry_of(all[all.len() - 1], top));
                }
            },
            Err(_) => {
                if forall|i: int| 0 <= i < all.len() ==> is_entry_of(#[trigger] all[i], top) {
                    assert forall|i: int| 0 <= i < front.len() implies is_entry_of(
                        #[trigger] front[i],
                        top,
                    ) by {
                        assert(is_entry_of(all[i], top));
                    }
                    if front.len() == 0 {
                        assert(listing_top(front) == Ok::<Option<Seq<u8>>, Seq<char>>(None));
                    }
                }
            },
        }
    }
}

proof fn lemma_line(line: Seq<char>, known: Option<Seq<u8>>, top: Seq<u8>)
    ensures
        line_top(line, known) == Ok::<Seq<u8>, Seq<char>>(top) <==> is_entry_of(line, top) && (
        known is None || known->0 == top),
{
    let path = listed_path(line);
    let parts = components_of(path);
    lemma_components_well_formed(path);
    if parts.len() > 0 && parts[0] is Name {
        assert forall|i: int| 1 <= i < parts.len() implies (#[trigger] parts[i] is Name <==> !(
        parts[i] is Up || parts[i] is Root)) by {
            assert(well_formed(parts));
        }
        if escapes(parts) {
            let i = choose|i: int| 1 <= i < parts.len() && (#[trigger] parts[i] is Up || parts[i] is Root);
            assert(!(parts[i] is Name));
        }
    }
}

/// The path of an entry is what stands behind the fifth word of its line, with single
/// blanks between words.
pub proof fn the_path_stands_behind_the_fifth_word(line: Seq<char>)
    ensures
        words_of(line).len() == 6 ==> listed_path(line) == encode_utf8(words_of(line)[5]),
        words_of(line).len() == 7 ==> listed_path(line) == encode_utf8(
            words_of(line)[5] + seq![' '] + words_of(line)[6],
        ),
{
    let words = words_of(line);
    let rest = words.skip(5);
    if words.len() == 6 {
        assert(join_seq(rest, ' ') =~= words[5]);
    }
    if words.len() == 7 {
        reveal_with_fuel(join_seq, 3);
        assert(rest.drop_last() =~= seq![words[5]]);
        assert(join_seq(rest, ' ') =~= words[5] + seq![' '] + words[6]);
    }
}

/// Names are joined by one separator each.
pub proof fn joining_puts_one_separator_between<T>(items: Seq<Seq<T>>, item: Seq<T>, separator: T)
    requires
        items.len() > 0,
    ensures
        join_seq(items.push(item), separator) == join_seq(items, separator) + seq![separator] + item,
        join_seq(seq![item], separator) == item,
{
    assert(items.push(item).drop_last() =~= items);
    assert(join_seq(items, separator).push(separator) + item =~= join_seq(items, separator)
        + seq![separator] + item);
}

/// A listing that is accepted is followed by the unpacking, and one that is not is
/// followed by the removal of what was downloaded.
pub proof fn an_accepted_archive_is_unpacked(
    archive: PrivateArchive,
    reply: Reply,
    next: ArchivePhase,
)
    requires
        archive.phase is Listing,
        archive.follows(reply, next),
    ensures
        next is Extracting <==> reply is Exited && reply->success && valid_utf8(reply->output@)
            && archive_top(decode_utf8(reply->output@)) is Ok,
        !(next is Extracting) ==> next is Returning && next->Returning_owned
            == archive.phase->Listing_owned,
        archive_top(decode_utf8(reply->output@)) is Ok <==> lines_of(
            decode_utf8(reply->output@),
        ).len() > 0 && listing_top(lines_of(decode_utf8(reply->output@))) is Ok,
{
    if listing_top(lines_of(decode_utf8(reply->output@))) is Ok {
        a_listing_is_accepted_exactly_if(lines_of(decode_utf8(reply->output@)), Seq::empty());
    }
}

/// A directory is removed only where the one that was created still stands there, and is
/// then removed.
pub proof fn only_the_created_tree_is_removed(
    removal: TreeRemoval,
    reply: Reply,
    next: TreeRemoval,
)
    requires
        removal is Looking,
        removal.follows(reply, next),
    ensures
        next is Removing <==> reply is Found && reply->Found_0.identity == removal->owned,
        next is Removing ==> next->Removing_path == removal->Looking_path,
        next is Completed <==> reply is Found && reply->Found_0.identity != removal->owned || reply
            is Failed && reply->Failed_0.kind == FaultKind::NotFound,
{
}

} // verus!
