//! The removal of an installation.

use crate::bytes::{append_bytes, copy_bytes, encode_hex, hex_encoded, split_seq, text_bytes, views};
use crate::checks::{directory_problem, entry_problem, file_problem, optional_problem};
use crate::checks::{program_problem, validate_absolute_entry, validate_expected_executable};
use crate::checks::{validate_non_symlink_directory, validate_optional_directory};
use crate::checks::{validate_optional_uninstall_file, validate_regular_non_symlink};
use crate::config::ResolvedPaths;
use crate::failure::{about, earlier, first_failure, lemma_listed, list_texts, listed_words};
use crate::failure::{message_at, reports, Failure, Words};
use crate::host::{Ask, Entry, Fault, FaultKind, FileKind, Reply, Request};
use crate::paths::{absolute, has_parent, is_absolute, join_text, lemma_split_concat};
use crate::paths::{lemma_split_single, parent, parent_of, under};
use crate::removal::{ManagedRemovalKind, Removed};
use crate::script::{add_step, bare_deed, bare_step, deed, no_steps, step, step_views, unanswered};
use crate::script::{Check, Cleanup, Demand, Script, Step, StepView, Tidy};
use crate::state::{path_exists, stands};
use crate::stow::{stow_command, stow_packages, stow_program, PackagePhase, PackageScan};
use crate::survey::{add_request, asked_of, no_requests, shows_bytes, shows_entry, shows_names};
use crate::survey::{take_bytes, take_entry, take_names, Survey};
use crate::text::{add_text, concat, is_ascii_text, lemma_ascii_bytes, lossy_text, show_bytes};
use crate::text::texts;
use vstd::prelude::*;
use vstd::utf8::encode_utf8;

verus! {

// --------------------------------------------------
// Links
// --------------------------------------------------

/// How far the removal of links has come.
#[derive(Debug)]
pub enum UnlinkPhase {
    /// The dotfiles are looked at, before the packages are searched for.
    Checking(PackageScan),
    /// The packages are searched for.
    Scanning(PackageScan),
    /// The links of the last of these packages are removed; what went wrong so far.
    Unlinking { packages: Vec<Vec<u8>>, failures: Vec<String> },
    Completed,
    Failed(Failure),
}

/// The removal of the links of all packages, the last package first.
#[derive(Debug)]
pub struct Unlinking {
    pub home: Vec<u8>,
    pub stow: Vec<u8>,
    pub dotfiles: Vec<u8>,
    pub phase: UnlinkPhase,
}

/// What is said where the links of a package could not be removed.
pub open spec fn package_words(package: Seq<u8>, reason: Seq<char>) -> Seq<char> {
    lossy_text(package) + ": "@ + reason
}

/// Why the links of a package could not be removed.
pub open spec fn unlink_reason(reply: Reply) -> Option<Seq<char>> {
    match reply {
        Reply::Exited { success, status, .. } => if success {
            None
        } else {
            Some(status@)
        },
        Reply::Failed(fault) => Some(fault.text@),
        _ => Some(unanswered()),
    }
}

/// What went wrong, once this package was dealt with.
pub open spec fn with_reason(
    failures: Seq<Seq<char>>,
    package: Seq<u8>,
    reason: Option<Seq<char>>,
) -> Seq<Seq<char>> {
    match reason {
        None => failures,
        Some(reason) => failures.push(package_words(package, reason)),
    }
}

/// What came of the removal of links, once every package was dealt with.
pub open spec fn unlinked(failures: Seq<Seq<char>>, next: UnlinkPhase) -> bool {
    if failures.len() == 0 {
        next is Completed
    } else {
        next is Failed && next->Failed_0.says(
            "failed to unstow managed packages: "@ + listed_words(failures),
        )
    }
}

/// What follows once the packages are known.
pub open spec fn begins_unlinking(packages: Seq<Seq<u8>>, next: UnlinkPhase) -> bool {
    if packages.len() == 0 {
        next is Completed
    } else {
        next is Unlinking && views(next->packages@) == packages && next->failures@.len() == 0
    }
}

/// What follows once the search for packages stands like this.
pub open spec fn after_scan(scan: PackageScan, next: UnlinkPhase) -> bool {
    match scan.phase {
        PackagePhase::Failed(failure) => next == UnlinkPhase::Failed(failure),
        PackagePhase::Completed(packages) => begins_unlinking(views(packages@), next),
        _ => next == UnlinkPhase::Scanning(scan),
    }
}

/// Begins to remove the links of all packages.
pub fn unstow_managed_packages(paths: &ResolvedPaths, home: &[u8]) -> (unlinking: Unlinking)
    ensures
        unlinking.begins(paths.pixi_home@, home@),
{
    let dotfiles = join_text(home, ".dotfiles");
    let scan = stow_packages(paths, &dotfiles);
    Unlinking {
        home: copy_bytes(home),
        stow: join_text(&paths.pixi_home, "bin/stow"),
        dotfiles,
        phase: UnlinkPhase::Checking(scan),
    }
}

impl Unlinking {
    /// Whether the links of all packages begin to be removed.
    pub open spec fn begins(&self, pixi_home: Seq<u8>, home: Seq<u8>) -> bool {
        &&& self.home@ == home
        &&& self.stow@ == under(pixi_home, "bin/stow"@)
        &&& self.dotfiles@ == under(home, ".dotfiles"@)
        &&& self.phase is Checking
        &&& self.phase->Checking_0.begins(pixi_home, under(home, ".dotfiles"@))
    }

    pub open spec fn asks(&self) -> Ask {
        match self.phase {
            UnlinkPhase::Checking(_) => Ask::Inspect(self.dotfiles@),
            UnlinkPhase::Scanning(scan) => scan.asks(),
            UnlinkPhase::Unlinking { packages, .. } => if packages@.len() > 0 {
                Ask::Run(
                    stow_program(
                        self.stow@,
                        self.home@,
                        self.dotfiles@,
                        packages@.last()@,
                        true,
                    ),
                )
            } else {
                Ask::Nothing
            },
            UnlinkPhase::Completed => Ask::Nothing,
            UnlinkPhase::Failed(_) => Ask::Nothing,
        }
    }

    /// What follows a reply. A package that fails does not keep the others from being
    /// dealt with.
    pub open spec fn follows(&self, reply: Reply, next: UnlinkPhase) -> bool {
        match self.phase {
            UnlinkPhase::Checking(scan) => match reply {
                Reply::Found(entry) => if entry.kind == FileKind::Directory {
                    after_scan(scan, next)
                } else {
                    next is Failed && next->Failed_0.says(
                        about("dotfiles must be a non-symlink directory: "@, self.dotfiles@),
                    )
                },
                Reply::Failed(fault) => next is Failed && next->Failed_0.blames(
                    about("dotfiles is unavailable: "@, self.dotfiles@),
                    fault.text@,
                ),
                _ => next is Failed && next->Failed_0.says(unanswered()),
            },
            UnlinkPhase::Scanning(scan) => exists|phase: PackagePhase| {
                &&& #[trigger] scan.follows(reply, phase)
                &&& after_scan(
                    PackageScan { stow: scan.stow, dotfiles: scan.dotfiles, phase },
                    next,
                )
            },
            UnlinkPhase::Unlinking { packages, failures } => if packages@.len() == 0 {
                unlinked(texts(failures@), next)
            } else {
                let noted = with_reason(
                    texts(failures@),
                    packages@.last()@,
                    unlink_reason(reply),
                );
                if packages@.len() == 1 {
                    unlinked(noted, next)
                } else {
                    next is Unlinking && next->packages@ == packages@.drop_last() && texts(
                        next->failures@,
                    ) == noted
                }
            },
            _ => next == self.phase,
        }
    }

    /// What has to be done next.
    pub fn request(&self) -> (request: Request)
        ensures
            request@ == self.asks(),
    {
        match &self.phase {
            UnlinkPhase::Checking(_) => Request::Inspect(copy_bytes(&self.dotfiles)),
            UnlinkPhase::Scanning(scan) => scan.request(),
            UnlinkPhase::Unlinking { packages, .. } => if packages.len() > 0 {
                Request::Run(
                    stow_command(
                        &self.stow,
                        &self.home,
                        &self.dotfiles,
                        &packages[packages.len() - 1],
                        true,
                    ),
                )
            } else {
                Request::Nothing
            },
            UnlinkPhase::Completed => Request::Nothing,
            UnlinkPhase::Failed(_) => Request::Nothing,
        }
    }

    /// Goes on with a reply.
    pub fn advance(self, reply: Reply) -> (next: Unlinking)
        ensures
            next.home == self.home,
            next.stow == self.stow,
            next.dotfiles == self.dotfiles,
            self.follows(reply, next.phase),
    {
        let Unlinking { home, stow, dotfiles, phase } = self;
        let next = match phase {
            UnlinkPhase::Checking(scan) => match reply {
                Reply::Found(entry) => if entry.kind == FileKind::Directory {
                    take_scan(scan)
                } else {
                    UnlinkPhase::Failed(
                        Failure::at("dotfiles must be a non-symlink directory: ", &dotfiles),
                    )
                },
                Reply::Failed(fault) => UnlinkPhase::Failed(
                    Failure::caused_at("dotfiles is unavailable: ", &dotfiles, &fault.text),
                ),
                _ => UnlinkPhase::Failed(Failure::plain("unexpected reply")),
            },
            UnlinkPhase::Scanning(scan) => {
                let after = scan.advance(reply);
                assert(scan.follows(reply, after.phase));
                take_scan(after)
            },
            UnlinkPhase::Unlinking { packages, failures } => {
                let mut packages = packages;
                let mut failures = failures;
                let ghost before = packages@;
                match packages.pop() {
                    None => finish_unlinking(failures),
                    Some(package) => {
                        assert(packages@ =~= before.drop_last());
                        match reason_of(reply) {
                            None => {},
                            Some(reason) => {
                                let mut words = show_bytes(&package);
                                words.append(": ");
                                words.append(&reason);
                                add_text(&mut failures, words);
                            },
                        }
                        if packages.len() == 0 {
                            finish_unlinking(failures)
                        } else {
                            UnlinkPhase::Unlinking { packages, failures }
                        }
                    },
                }
            },
            UnlinkPhase::Completed => UnlinkPhase::Completed,
            UnlinkPhase::Failed(failure) => UnlinkPhase::Failed(failure),
        };
        Unlinking { home, stow, dotfiles, phase: next }
    }
}

fn take_scan(scan: PackageScan) -> (next: UnlinkPhase)
    ensures
        after_scan(scan, next),
{
    match scan.phase {
        PackagePhase::Failed(failure) => UnlinkPhase::Failed(failure),
        PackagePhase::Completed(packages) => {
            assert(views(packages@).len() == packages@.len());
            if packages.len() == 0 {
                UnlinkPhase::Completed
            } else {
                UnlinkPhase::Unlinking { packages, failures: Vec::new() }
            }
        },
        _ => UnlinkPhase::Scanning(scan),
    }
}

fn reason_of(reply: Reply) -> (reason: Option<String>)
    ensures
        match unlink_reason(reply) {
            None => reason is None,
            Some(words) => reason is Some && reason->0@ == words,
        },
{
    match reply {
        Reply::Exited { success, status, .. } => if success {
            None
        } else {
            Some(status)
        },
        Reply::Failed(fault) => Some(fault.text),
        _ => Some("unexpected reply".to_owned()),
    }
}

fn finish_unlinking(failures: Vec<String>) -> (next: UnlinkPhase)
    ensures
        unlinked(texts(failures@), next),
{
    proof {
        lemma_listed(failures@);
        assert(texts(failures@).len() == failures@.len());
    }
    if failures.len() == 0 {
        return UnlinkPhase::Completed;
    }
    UnlinkPhase::Failed(
        Failure::plain(&concat("failed to unstow managed packages: ", &list_texts(&failures))),
    )
}

/// Every package is dealt with, whatever came of those before it: with each reply one
/// package less is left, and the failure at the end names every package that failed.
pub proof fn every_package_is_unlinked(unlinking: Unlinking, reply: Reply, next: UnlinkPhase)
    requires
        unlinking.phase is Unlinking,
        unlinking.phase->packages@.len() > 0,
        unlinking.follows(reply, next),
    ensures
        unlinking.phase->packages@.len() > 1 ==> next is Unlinking && next->packages@.len()
            == unlinking.phase->packages@.len() - 1,
        next is Completed ==> unlink_reason(reply) is None
            && unlinking.phase->failures@.len() == 0,
{
}

// --------------------------------------------------
// What is left for the caller to remove
// --------------------------------------------------

/// The permission bits of the list of what is left.
pub const CLEANUP_PLAN_MODE: u32 = 0o600;

/// The bytes of a path in hexadecimal.
pub fn encode_path(path: &[u8]) -> (encoded: Vec<u8>)
    ensures
        encoded@ == hex_encoded(path@),
{
    encode_hex(path)
}

/// A line that names a path.
pub open spec fn cleanup_line(key: Seq<char>, path: Seq<u8>) -> Seq<u8> {
    encode_utf8(key) + hex_encoded(path)
}

/// What is left for the caller to remove, one path to a line.
pub open spec fn cleanup_content(paths: ResolvedPaths, home: Seq<u8>) -> Seq<u8> {
    let state_root = under(paths.state_home@, "eiyah"@);
    cleanup_line("eiyah-binary="@, under(paths.eiyah_prefix@, "bin/eiyah"@)).push(0x0a)
        + cleanup_line("eiyah-entry="@, under(home, ".local/bin/eiyah"@)).push(0x0a)
        + cleanup_line("state-root="@, state_root).push(0x0a)
        + cleanup_line("lock="@, under(state_root, "lock"@)).push(0x0a)
}

fn add_cleanup_line(content: &mut Vec<u8>, key: &str, path: &[u8])
    ensures
        final(content)@ == old(content)@ + cleanup_line(key@, path@).push(0x0a),
{
    append_bytes(content, &text_bytes(key));
    append_bytes(content, &encode_path(path));
    content.push(0x0a);
    assert(content@ =~= old(content)@ + cleanup_line(key@, path@).push(0x0a));
}

/// What is left for the caller to remove, one path to a line.
pub fn final_cleanup_plan(paths: &ResolvedPaths, home: &[u8]) -> (content: Vec<u8>)
    ensures
        content@ == cleanup_content(*paths, home@),
{
    let state_root = join_text(&paths.state_home, "eiyah");
    let mut content: Vec<u8> = Vec::new();
    add_cleanup_line(&mut content, "eiyah-binary=", &join_text(&paths.eiyah_prefix, "bin/eiyah"));
    add_cleanup_line(&mut content, "eiyah-entry=", &join_text(home, ".local/bin/eiyah"));
    add_cleanup_line(&mut content, "state-root=", &state_root);
    add_cleanup_line(&mut content, "lock=", &join_text(&state_root, "lock"));
    assert(content@ =~= cleanup_content(*paths, home@));
    content
}

/// The steps that write the list of what is left to a file that must not exist.
pub open spec fn cleanup_plan_steps(target: Seq<u8>, content: Seq<u8>) -> Seq<StepView> {
    let above = parent_of(target);
    seq![
        step(
            Ask::Inspect(above),
            Demand::Kind(FileKind::Directory),
            about("final cleanup plan parent is unavailable: "@, above),
            about("final cleanup plan parent must be a non-symlink directory: "@, above),
        ),
        bare_step(
            Ask::Inspect(target),
            Demand::Missing,
            about("final cleanup plan already exists: "@, target),
        ),
        deed(
            Ask::CreateFile { path: target, mode: CLEANUP_PLAN_MODE },
            about("failed to create final cleanup plan "@, target),
        ),
        bare_deed(Ask::SetOpenMode { path: target, mode: CLEANUP_PLAN_MODE }),
        bare_deed(Ask::Write { path: target, contents: content }),
        bare_deed(Ask::SyncOpen(target)),
    ]
}

/// Whether the list of what is left begins to be written this way.
pub open spec fn plan_begins(
    paths: ResolvedPaths,
    home: Seq<u8>,
    target: Seq<u8>,
    result: Result<Script, Failure>,
) -> bool {
    match result {
        Ok(script) => absolute(target) && has_parent(target) && script.begins(
            cleanup_plan_steps(target, cleanup_content(paths, home)),
            Tidy::Nothing,
        ),
        Err(failure) => if !absolute(target) {
            failure.says("final cleanup plan path must be absolute"@)
        } else {
            !has_parent(target) && failure.says("final cleanup plan path has no parent"@)
        },
    }
}

/// Begins to write the list of what is left to a file that must not exist.
pub fn write_final_cleanup_plan(paths: &ResolvedPaths, home: &[u8], target: &[u8]) -> (result: Result<
    Script,
    Failure,
>)
    ensures
        plan_begins(*paths, home@, target@, result),
{
    if !is_absolute(target) {
        return Err(Failure::plain("final cleanup plan path must be absolute"));
    }
    let above = match parent(target) {
        None => {
            return Err(Failure::plain("final cleanup plan path has no parent"));
        },
        Some(above) => above,
    };
    let content = final_cleanup_plan(paths, home);
    let mut steps = no_steps();
    let unavailable = message_at("final cleanup plan parent is unavailable: ", &above);
    let unfit = message_at("final cleanup plan parent must be a non-symlink directory: ", &above);
    add_step(
        &mut steps,
        Step::new(
            Request::Inspect(above),
            Check::Kind(FileKind::Directory),
            unavailable,
            unfit,
        ),
    );
    add_step(
        &mut steps,
        Step::bare(
            Request::Inspect(copy_bytes(target)),
            Check::Missing,
            message_at("final cleanup plan already exists: ", target),
        ),
    );
    add_step(
        &mut steps,
        Step::deed(
            Request::CreateFile { path: copy_bytes(target), mode: CLEANUP_PLAN_MODE },
            message_at("failed to create final cleanup plan ", target),
        ),
    );
    add_step(
        &mut steps,
        Step::bare_deed(
            Request::SetOpenMode { path: copy_bytes(target), mode: CLEANUP_PLAN_MODE },
        ),
    );
    add_step(
        &mut steps,
        Step::bare_deed(Request::Write { path: copy_bytes(target), contents: content }),
    );
    add_step(&mut steps, Step::bare_deed(Request::SyncOpen(copy_bytes(target))));
    assert(step_views(steps@) =~= cleanup_plan_steps(target@, cleanup_content(*paths, home@)));
    Ok(Script::new(steps, Cleanup::Nothing))
}

proof fn lemma_line_holds_no_end(key: Seq<char>, path: Seq<u8>)
    requires
        is_ascii_text(key),
        forall|i: int| 0 <= i < key.len() ==> #[trigger] key[i] as u32 != 0x0a,
    ensures
        !cleanup_line(key, path).contains(0x0a),
{
    lemma_ascii_bytes(key);
    let line = cleanup_line(key, path);
    assert forall|i: int| 0 <= i < line.len() implies line[i] != 0x0a by {
        if i < key.len() {
            assert(line[i] == encode_utf8(key)[i]);
        } else {
            assert(line[i] == hex_encoded(path)[i - key.len()]);
        }
    }
}

/// The caller can read the list back: it has one line for each of the four paths, in
/// this order, whatever bytes the paths hold.
pub proof fn the_cleanup_plan_can_be_read_back(paths: ResolvedPaths, home: Seq<u8>)
    ensures
        split_seq(cleanup_content(paths, home), 0x0au8) == seq![
            cleanup_line("eiyah-binary="@, under(paths.eiyah_prefix@, "bin/eiyah"@)),
            cleanup_line("eiyah-entry="@, under(home, ".local/bin/eiyah"@)),
            cleanup_line("state-root="@, under(paths.state_home@, "eiyah"@)),
            cleanup_line("lock="@, under(under(paths.state_home@, "eiyah"@), "lock"@)),
            Seq::empty(),
        ],
{
    reveal_strlit("eiyah-binary=");
    reveal_strlit("eiyah-entry=");
    reveal_strlit("state-root=");
    reveal_strlit("lock=");
    let a = cleanup_line("eiyah-binary="@, under(paths.eiyah_prefix@, "bin/eiyah"@));
    let b = cleanup_line("eiyah-entry="@, under(home, ".local/bin/eiyah"@));
    let c = cleanup_line("state-root="@, under(paths.state_home@, "eiyah"@));
    let d = cleanup_line("lock="@, under(under(paths.state_home@, "eiyah"@), "lock"@));
    lemma_line_holds_no_end("eiyah-binary="@, under(paths.eiyah_prefix@, "bin/eiyah"@));
    lemma_line_holds_no_end("eiyah-entry="@, under(home, ".local/bin/eiyah"@));
    lemma_line_holds_no_end("state-root="@, under(paths.state_home@, "eiyah"@));
    lemma_line_holds_no_end("lock="@, under(under(paths.state_home@, "eiyah"@), "lock"@));
    lemma_split_single(a, 0x0au8);
    lemma_split_single(b, 0x0au8);
    lemma_split_single(c, 0x0au8);
    lemma_split_single(d, 0x0au8);
    let none = Seq::<u8>::empty();
    lemma_split_single(none, 0x0au8);
    lemma_split_concat(d, 0x0au8, none);
    lemma_split_concat(c, 0x0au8, d.push(0x0au8) + none);
    lemma_split_concat(b, 0x0au8, c.push(0x0au8) + (d.push(0x0au8) + none));
    lemma_split_concat(a, 0x0au8, b.push(0x0au8) + (c.push(0x0au8) + (d.push(0x0au8) + none)));
    assert(cleanup_content(paths, home) =~= a.push(0x0au8) + (b.push(0x0au8) + (c.push(0x0au8) + (
    d.push(0x0au8) + none))));
    assert(split_seq(cleanup_content(paths, home), 0x0au8) =~= seq![a, b, c, d, none]);
}

// --------------------------------------------------
// Conditions
// --------------------------------------------------

/// What was seen before a removal.
#[derive(Debug)]
pub struct RemovalConditions {
    pub dotfiles: Result<Entry, Fault>,
    pub pixi_home: Result<Entry, Fault>,
    pub stow: Result<Entry, Fault>,
    pub backup: Result<Entry, Fault>,
    pub index: Result<Entry, Fault>,
}

/// What is wrong with a path that has to lead from the root.
pub open spec fn place_problem(name: Seq<char>, path: Seq<u8>) -> Option<Words> {
    if absolute(path) {
        None
    } else {
        Some((about(name + " must be an absolute non-empty path: "@, path), None))
    }
}

fn check_place(name: &str, path: &[u8]) -> (result: Result<(), Failure>)
    ensures
        reports(result, place_problem(name@, path@)),
{
    if is_absolute(path) {
        Ok(())
    } else {
        Err(Failure::at(&concat(name, " must be an absolute non-empty path: "), path))
    }
}

/// What is wrong with the places of an installation, the first that applies.
pub open spec fn places_problem(paths: ResolvedPaths, home: Seq<u8>) -> Option<Words> {
    earlier(
        if absolute(home) {
            None
        } else {
            Some(("HOME must be an absolute non-empty path"@, None))
        },
        earlier(
            place_problem("config home"@, paths.config_home@),
            earlier(
                place_problem("data home"@, paths.data_home@),
                earlier(
                    place_problem("state home"@, paths.state_home@),
                    earlier(
                        place_problem("cache home"@, paths.cache_home@),
                        earlier(
                            place_problem("Eiyah prefix"@, paths.eiyah_prefix@),
                            earlier(
                                place_problem("Eiyah config"@, paths.eiyah_config@),
                                place_problem("Pixi home"@, paths.pixi_home@),
                            ),
                        ),
                    ),
                ),
            ),
        ),
    )
}

fn check_places(paths: &ResolvedPaths, home: &[u8]) -> (result: Result<(), Failure>)
    ensures
        reports(result, places_problem(*paths, home@)),
{
    if !is_absolute(home) {
        return Err(Failure::plain("HOME must be an absolute non-empty path"));
    }
    let first = check_place("config home", &paths.config_home);
    let second = check_place("data home", &paths.data_home);
    let third = check_place("state home", &paths.state_home);
    let fourth = check_place("cache home", &paths.cache_home);
    let fifth = check_place("Eiyah prefix", &paths.eiyah_prefix);
    let sixth = check_place("Eiyah config", &paths.eiyah_config);
    let seventh = check_place("Pixi home", &paths.pixi_home);
    let last = first_failure(fifth, first_failure(sixth, seventh));
    first_failure(first, first_failure(second, first_failure(third, first_failure(fourth, last))))
}

/// What is wrong with what a removal needs, the first that applies.
pub open spec fn needs_problem(
    paths: ResolvedPaths,
    home: Seq<u8>,
    seen: RemovalConditions,
) -> Option<Words> {
    let backup = under(paths.state_home@, "eiyah/backup"@);
    let index = under(paths.state_home@, "eiyah/backup/index"@);
    earlier(
        directory_problem(under(home, ".dotfiles"@), "dotfiles"@, seen.dotfiles),
        earlier(
            directory_problem(paths.pixi_home@, "Pixi home"@, seen.pixi_home),
            earlier(
                program_problem(under(paths.pixi_home@, "bin/stow"@), "Stow"@, seen.stow),
                earlier(
                    optional_problem(
                        backup,
                        "backup directory"@ + " must be a non-symlink directory: "@,
                        FileKind::Directory,
                        seen.backup,
                    ),
                    optional_problem(
                        index,
                        "backup index"@ + " must be a regular file: "@,
                        FileKind::Regular,
                        seen.index,
                    ),
                ),
            ),
        ),
    )
}

/// Checks the conditions of a removal: every place leads from the root, and what the
/// removal needs is there.
pub fn uninstall_preflight(paths: &ResolvedPaths, home: &[u8], seen: &RemovalConditions) -> (result:
    Result<(), Failure>)
    ensures
        reports(result, earlier(places_problem(*paths, home@), needs_problem(*paths, home@, *seen))),
{
    let places = check_places(paths, home);
    let dotfiles = validate_non_symlink_directory(
        &join_text(home, ".dotfiles"),
        "dotfiles",
        &seen.dotfiles,
    );
    let pixi = validate_non_symlink_directory(&paths.pixi_home, "Pixi home", &seen.pixi_home);
    let stow = validate_expected_executable(
        &join_text(&paths.pixi_home, "bin/stow"),
        "Stow",
        &seen.stow,
    );
    let backup = validate_optional_directory(
        &join_text(&paths.state_home, "eiyah/backup"),
        "backup directory",
        &seen.backup,
    );
    let index = validate_optional_uninstall_file(
        &join_text(&paths.state_home, "eiyah/backup/index"),
        "backup index",
        &seen.index,
    );
    let needs = first_failure(
        dotfiles,
        first_failure(pixi, first_failure(stow, first_failure(backup, index))),
    );
    first_failure(places, needs)
}

// --------------------------------------------------
// The check at the end
// --------------------------------------------------

/// What was seen after a removal.
#[derive(Debug)]
pub struct RemovedFacts {
    pub status_entry: Result<Entry, Fault>,
    pub status: Result<Entry, Fault>,
    pub config: Result<Entry, Fault>,
    pub dotfiles: Result<Entry, Fault>,
    pub pixi_home: Result<Entry, Fault>,
    pub metadata: Result<Entry, Fault>,
    pub index: Result<Entry, Fault>,
    pub binary: Result<Entry, Fault>,
    pub entry: Result<Entry, Fault>,
    pub entry_link: Result<Vec<u8>, Fault>,
    pub state_root: Result<Entry, Fault>,
    pub lock: Result<Entry, Fault>,
    pub backup_root: Result<Entry, Fault>,
    /// The names in the directory of the backups.
    pub backups: Result<Vec<Vec<u8>>, Fault>,
}

/// What is wrong where nothing may be left.
pub open spec fn leftover_problem(path: Seq<u8>, found: Result<Entry, Fault>) -> Option<Words> {
    match stands(found) {
        Err(words) => Some((words, None)),
        Ok(true) => Some((about("uninstall target still exists: "@, path), None)),
        Ok(false) => None,
    }
}

fn check_gone(path: &[u8], found: &Result<Entry, Fault>) -> (result: Result<(), Failure>)
    ensures
        reports(result, leftover_problem(path@, *found)),
{
    match path_exists(found) {
        Err(failure) => Err(failure),
        Ok(true) => Err(Failure::at("uninstall target still exists: ", path)),
        Ok(false) => Ok(()),
    }
}

/// What is left of the installation, the first that applies.
pub open spec fn leftovers_problem(
    paths: ResolvedPaths,
    home: Seq<u8>,
    seen: RemovedFacts,
) -> Option<Words> {
    let prefix = paths.eiyah_prefix@;
    earlier(
        leftover_problem(under(home, ".local/bin/show-cad-status"@), seen.status_entry),
        earlier(
            leftover_problem(under(prefix, "bin/show-cad-status"@), seen.status),
            earlier(
                leftover_problem(paths.eiyah_config@, seen.config),
                earlier(
                    leftover_problem(under(home, ".dotfiles"@), seen.dotfiles),
                    earlier(
                        leftover_problem(paths.pixi_home@, seen.pixi_home),
                        earlier(
                            leftover_problem(under(prefix, "install.toml"@), seen.metadata),
                            leftover_problem(
                                under(paths.state_home@, "eiyah/backup/index"@),
                                seen.index,
                            ),
                        ),
                    ),
                ),
            ),
        ),
    )
}

fn check_leftovers(paths: &ResolvedPaths, home: &[u8], seen: &RemovedFacts) -> (result: Result<
    (),
    Failure,
>)
    ensures
        reports(result, leftovers_problem(*paths, home@, *seen)),
{
    let prefix = &paths.eiyah_prefix;
    let first = check_gone(&join_text(home, ".local/bin/show-cad-status"), &seen.status_entry);
    let second = check_gone(&join_text(prefix, "bin/show-cad-status"), &seen.status);
    let third = check_gone(&paths.eiyah_config, &seen.config);
    let fourth = check_gone(&join_text(home, ".dotfiles"), &seen.dotfiles);
    let fifth = check_gone(&paths.pixi_home, &seen.pixi_home);
    let sixth = check_gone(&join_text(prefix, "install.toml"), &seen.metadata);
    let seventh = check_gone(&join_text(&paths.state_home, "eiyah/backup/index"), &seen.index);
    let last = first_failure(fifth, first_failure(sixth, seventh));
    first_failure(first, first_failure(second, first_failure(third, first_failure(fourth, last))))
}

/// What is wrong with the directory of the backups: it may be gone, and otherwise it has
/// to be empty.
pub open spec fn backups_problem(
    path: Seq<u8>,
    found: Result<Entry, Fault>,
    names: Result<Vec<Vec<u8>>, Fault>,
) -> Option<Words> {
    match found {
        Err(fault) => if fault.kind == FaultKind::NotFound {
            None
        } else {
            Some((fault.text@, None))
        },
        Ok(entry) => if entry.kind != FileKind::Directory {
            Some((about("backup root must be a non-symlink directory: "@, path), None))
        } else {
            match names {
                Err(fault) => Some((fault.text@, None)),
                Ok(names) => if names@.len() > 0 {
                    Some((about("backup root must be empty: "@, path), None))
                } else {
                    None
                },
            }
        },
    }
}

fn check_backups(
    path: &[u8],
    found: &Result<Entry, Fault>,
    names: &Result<Vec<Vec<u8>>, Fault>,
) -> (result: Result<(), Failure>)
    ensures
        reports(result, backups_problem(path@, *found, *names)),
{
    match found {
        Err(fault) => if fault.kind == FaultKind::NotFound {
            Ok(())
        } else {
            Err(Failure::plain(&fault.text))
        },
        Ok(entry) => if entry.kind != FileKind::Directory {
            Err(Failure::at("backup root must be a non-symlink directory: ", path))
        } else {
            match names {
                Err(fault) => Err(Failure::plain(&fault.text)),
                Ok(names) => if names.len() > 0 {
                    Err(Failure::at("backup root must be empty: ", path))
                } else {
                    Ok(())
                },
            }
        },
    }
}

/// What is wrong with what has to be left for the caller, the first that applies.
pub open spec fn remainder_problem(
    paths: ResolvedPaths,
    home: Seq<u8>,
    seen: RemovedFacts,
) -> Option<Words> {
    let binary = under(paths.eiyah_prefix@, "bin/eiyah"@);
    let state_home = paths.state_home@;
    earlier(
        program_problem(binary, "Eiyah"@, seen.binary),
        earlier(
            entry_problem(under(home, ".local/bin/eiyah"@), binary, seen.entry, seen.entry_link),
            earlier(
                directory_problem(under(state_home, "eiyah"@), "state root"@, seen.state_root),
                earlier(
                    file_problem(under(state_home, "eiyah/lock"@), "operation lock"@, seen.lock),
                    backups_problem(
                        under(state_home, "eiyah/backup/home"@),
                        seen.backup_root,
                        seen.backups,
                    ),
                ),
            ),
        ),
    )
}

/// Checks what came of a removal: nothing of the installation is left but the program,
/// its command and the lock, and every backup was put back.
pub fn validate_uninstallation(paths: &ResolvedPaths, home: &[u8], seen: &RemovedFacts) -> (result:
    Result<(), Failure>)
    ensures
        reports(
            result,
            earlier(
                leftovers_problem(*paths, home@, *seen),
                remainder_problem(*paths, home@, *seen),
            ),
        ),
{
    let leftovers = check_leftovers(paths, home, seen);
    let binary = join_text(&paths.eiyah_prefix, "bin/eiyah");
    let program = validate_expected_executable(&binary, "Eiyah", &seen.binary);
    let entry = validate_absolute_entry(
        &join_text(home, ".local/bin/eiyah"),
        &binary,
        &seen.entry,
        &seen.entry_link,
    );
    let root = validate_non_symlink_directory(
        &join_text(&paths.state_home, "eiyah"),
        "state root",
        &seen.state_root,
    );
    let lock = validate_regular_non_symlink(
        &join_text(&paths.state_home, "eiyah/lock"),
        "operation lock",
        &seen.lock,
    );
    let backups = check_backups(
        &join_text(&paths.state_home, "eiyah/backup/home"),
        &seen.backup_root,
        &seen.backups,
    );
    let remainder = first_failure(
        program,
        first_failure(entry, first_failure(root, first_failure(lock, backups))),
    );
    first_failure(leftovers, remainder)
}

/// What is looked at before a removal.
pub open spec fn removal_needs(paths: ResolvedPaths, home: Seq<u8>) -> Seq<Ask> {
    seq![
        Ask::Inspect(under(home, ".dotfiles"@)),
        Ask::Inspect(paths.pixi_home@),
        Ask::Inspect(under(paths.pixi_home@, "bin/stow"@)),
        Ask::Inspect(under(paths.state_home@, "eiyah/backup"@)),
        Ask::Inspect(under(paths.state_home@, "eiyah/backup/index"@)),
    ]
}

/// Looks at what a removal needs.
pub fn preflight_survey(paths: &ResolvedPaths, home: &[u8]) -> (survey: Survey)
    ensures
        survey.begins(removal_needs(*paths, home@)),
{
    let mut requests = no_requests();
    add_request(&mut requests, Request::Inspect(join_text(home, ".dotfiles")));
    add_request(&mut requests, Request::Inspect(copy_bytes(&paths.pixi_home)));
    add_request(&mut requests, Request::Inspect(join_text(&paths.pixi_home, "bin/stow")));
    add_request(&mut requests, Request::Inspect(join_text(&paths.state_home, "eiyah/backup")));
    add_request(
        &mut requests,
        Request::Inspect(join_text(&paths.state_home, "eiyah/backup/index")),
    );
    assert(asked_of(requests@) =~= removal_needs(*paths, home@));
    Survey::new(requests)
}

/// Whether this was seen before a removal.
pub open spec fn needs_in(seen: RemovalConditions, replies: Seq<Reply>) -> bool {
    &&& replies.len() == 5
    &&& shows_entry(replies[0], seen.dotfiles)
    &&& shows_entry(replies[1], seen.pixi_home)
    &&& shows_entry(replies[2], seen.stow)
    &&& shows_entry(replies[3], seen.backup)
    &&& shows_entry(replies[4], seen.index)
}

/// Whether this is what is said of the conditions of a removal by what was seen.
pub open spec fn needs_judged(
    paths: ResolvedPaths,
    home: Seq<u8>,
    replies: Seq<Reply>,
    result: Result<(), Failure>,
) -> bool {
    if replies.len() == 5 {
        exists|seen: RemovalConditions| #[trigger]
            needs_in(seen, replies) && reports(
                result,
                earlier(places_problem(paths, home), needs_problem(paths, home, seen)),
            )
    } else {
        result is Err && result->Err_0.says(unanswered())
    }
}

/// Checks the conditions of a removal by what was seen.
pub fn check_seen_preflight(paths: &ResolvedPaths, home: &[u8], survey: Survey) -> (result: Result<
    (),
    Failure,
>)
    ensures
        needs_judged(*paths, home@, survey.replies@, result),
{
    if survey.replies.len() != 5 {
        return Err(Failure::plain("unexpected reply"));
    }
    let mut replies = survey.replies;
    let index = take_entry(&mut replies);
    let backup = take_entry(&mut replies);
    let stow = take_entry(&mut replies);
    let pixi_home = take_entry(&mut replies);
    let dotfiles = take_entry(&mut replies);
    let seen = RemovalConditions { dotfiles, pixi_home, stow, backup, index };
    assert(needs_in(seen, survey.replies@));
    uninstall_preflight(paths, home, &seen)
}

/// What is looked at after a removal.
pub open spec fn removed_places(paths: ResolvedPaths, home: Seq<u8>) -> Seq<Ask> {
    let prefix = paths.eiyah_prefix@;
    let entry = under(home, ".local/bin/eiyah"@);
    let backups = under(paths.state_home@, "eiyah/backup/home"@);
    seq![
        Ask::Inspect(under(home, ".local/bin/show-cad-status"@)),
        Ask::Inspect(under(prefix, "bin/show-cad-status"@)),
        Ask::Inspect(paths.eiyah_config@),
        Ask::Inspect(under(home, ".dotfiles"@)),
        Ask::Inspect(paths.pixi_home@),
        Ask::Inspect(under(prefix, "install.toml"@)),
        Ask::Inspect(under(paths.state_home@, "eiyah/backup/index"@)),
        Ask::Inspect(under(prefix, "bin/eiyah"@)),
        Ask::Inspect(entry),
        Ask::ReadLink(entry),
        Ask::Inspect(under(paths.state_home@, "eiyah"@)),
        Ask::Inspect(under(paths.state_home@, "eiyah/lock"@)),
        Ask::Inspect(backups),
        Ask::List(backups),
    ]
}

/// Looks at what a removal has left.
pub fn removal_survey(paths: &ResolvedPaths, home: &[u8]) -> (survey: Survey)
    ensures
        survey.begins(removed_places(*paths, home@)),
{
    let prefix = &paths.eiyah_prefix;
    let state = &paths.state_home;
    let entry = join_text(home, ".local/bin/eiyah");
    let backups = join_text(state, "eiyah/backup/home");
    let mut requests = no_requests();
    add_request(&mut requests, Request::Inspect(join_text(home, ".local/bin/show-cad-status")));
    add_request(&mut requests, Request::Inspect(join_text(prefix, "bin/show-cad-status")));
    add_request(&mut requests, Request::Inspect(copy_bytes(&paths.eiyah_config)));
    add_request(&mut requests, Request::Inspect(join_text(home, ".dotfiles")));
    add_request(&mut requests, Request::Inspect(copy_bytes(&paths.pixi_home)));
    add_request(&mut requests, Request::Inspect(join_text(prefix, "install.toml")));
    add_request(&mut requests, Request::Inspect(join_text(state, "eiyah/backup/index")));
    add_request(&mut requests, Request::Inspect(join_text(prefix, "bin/eiyah")));
    add_request(&mut requests, Request::Inspect(copy_bytes(&entry)));
    add_request(&mut requests, Request::ReadLink(entry));
    add_request(&mut requests, Request::Inspect(join_text(state, "eiyah")));
    add_request(&mut requests, Request::Inspect(join_text(state, "eiyah/lock")));
    add_request(&mut requests, Request::Inspect(copy_bytes(&backups)));
    add_request(&mut requests, Request::List(backups));
    assert(asked_of(requests@) =~= removed_places(*paths, home@));
    Survey::new(requests)
}

/// Whether this was seen after a removal.
pub open spec fn removed_in(seen: RemovedFacts, replies: Seq<Reply>) -> bool {
    &&& replies.len() == 14
    &&& shows_entry(replies[0], seen.status_entry)
    &&& shows_entry(replies[1], seen.status)
    &&& shows_entry(replies[2], seen.config)
    &&& shows_entry(replies[3], seen.dotfiles)
    &&& shows_entry(replies[4], seen.pixi_home)
    &&& shows_entry(replies[5], seen.metadata)
    &&& shows_entry(replies[6], seen.index)
    &&& shows_entry(replies[7], seen.binary)
    &&& shows_entry(replies[8], seen.entry)
    &&& shows_bytes(replies[9], seen.entry_link)
    &&& shows_entry(replies[10], seen.state_root)
    &&& shows_entry(replies[11], seen.lock)
    &&& shows_entry(replies[12], seen.backup_root)
    &&& shows_names(replies[13], seen.backups)
}

fn removed_facts(replies: Vec<Reply>) -> (seen: RemovedFacts)
    requires
        replies@.len() == 14,
    ensures
        removed_in(seen, replies@),
{
    let mut replies = replies;
    let backups = take_names(&mut replies);
    let backup_root = take_entry(&mut replies);
    let lock = take_entry(&mut replies);
    let state_root = take_entry(&mut replies);
    let entry_link = take_bytes(&mut replies);
    let entry = take_entry(&mut replies);
    let binary = take_entry(&mut replies);
    let index = take_entry(&mut replies);
    let metadata = take_entry(&mut replies);
    let pixi_home = take_entry(&mut replies);
    let dotfiles = take_entry(&mut replies);
    let config = take_entry(&mut replies);
    let status = take_entry(&mut replies);
    let status_entry = take_entry(&mut replies);
    RemovedFacts {
        status_entry,
        status,
        config,
        dotfiles,
        pixi_home,
        metadata,
        index,
        binary,
        entry,
        entry_link,
        state_root,
        lock,
        backup_root,
        backups,
    }
}

/// Whether this is what is said of a removal by what was seen.
pub open spec fn removal_judged(
    paths: ResolvedPaths,
    home: Seq<u8>,
    replies: Seq<Reply>,
    result: Result<(), Failure>,
) -> bool {
    if replies.len() == 14 {
        exists|seen: RemovedFacts| #[trigger]
            removed_in(seen, replies) && reports(
                result,
                earlier(
                    leftovers_problem(paths, home, seen),
                    remainder_problem(paths, home, seen),
                ),
            )
    } else {
        result is Err && result->Err_0.says(unanswered())
    }
}

/// Checks what came of a removal by what was seen.
pub fn validate_seen_removal(paths: &ResolvedPaths, home: &[u8], survey: Survey) -> (result: Result<
    (),
    Failure,
>)
    ensures
        removal_judged(*paths, home@, survey.replies@, result),
{
    if survey.replies.len() != 14 {
        return Err(Failure::plain("unexpected reply"));
    }
    let seen = removed_facts(survey.replies);
    assert(removed_in(seen, survey.replies@));
    validate_uninstallation(paths, home, &seen)
}

/// Whether nothing stands there.
pub open spec fn is_gone(found: Result<Entry, Fault>) -> bool {
    found is Err && found->Err_0.kind == FaultKind::NotFound
}

/// After a removal that passes its check nothing that the installation manages is left,
/// the program and its command are still there for the caller, and no backup is.
pub proof fn a_checked_removal_is_whole(paths: ResolvedPaths, home: Seq<u8>, seen: RemovedFacts)
    requires
        leftovers_problem(paths, home, seen) is None,
        remainder_problem(paths, home, seen) is None,
    ensures
        is_gone(seen.status_entry) && is_gone(seen.status) && is_gone(seen.config),
        is_gone(seen.dotfiles) && is_gone(seen.pixi_home) && is_gone(seen.metadata),
        is_gone(seen.index),
        seen.binary is Ok && seen.entry is Ok && seen.lock is Ok,
        is_gone(seen.backup_root) || (seen.backups is Ok && seen.backups->Ok_0@.len() == 0),
{
}

// --------------------------------------------------
// The removal
// --------------------------------------------------

/// A step of the removal.
#[derive(Debug)]
pub enum RemovalAct {
    /// The conditions are checked.
    Preflight,
    /// The list of what is left for the caller is written.
    CleanupPlan,
    Heading(String),
    Detail(String),
    /// The links of all packages are removed.
    Unstow,
    /// A managed path is removed.
    Remove { path: Vec<u8>, kind: ManagedRemovalKind },
    /// The backups are put back.
    Restore,
    /// The removal is checked.
    Validate,
}

/// A step of the removal.
pub enum RemovalDeed {
    Preflight,
    CleanupPlan,
    Heading(Seq<char>),
    Detail(Seq<char>),
    Unstow,
    Remove { path: Seq<u8>, kind: Removed },
    Restore,
    Validate,
}

impl View for RemovalAct {
    type V = RemovalDeed;

    open spec fn view(&self) -> RemovalDeed {
        match self {
            RemovalAct::Preflight => RemovalDeed::Preflight,
            RemovalAct::CleanupPlan => RemovalDeed::CleanupPlan,
            RemovalAct::Heading(text) => RemovalDeed::Heading(text@),
            RemovalAct::Detail(text) => RemovalDeed::Detail(text@),
            RemovalAct::Unstow => RemovalDeed::Unstow,
            RemovalAct::Remove { path, kind } => RemovalDeed::Remove { path: path@, kind: kind@ },
            RemovalAct::Restore => RemovalDeed::Restore,
            RemovalAct::Validate => RemovalDeed::Validate,
        }
    }
}

/// The steps, in order.
pub open spec fn removal_deeds(acts: Seq<RemovalAct>) -> Seq<RemovalDeed> {
    acts.map_values(|act: RemovalAct| act@)
}

/// All steps of a removal, in order.
pub open spec fn removal_plan(paths: ResolvedPaths, home: Seq<u8>) -> Seq<RemovalDeed> {
    let entry = under(home, ".local/bin/show-cad-status"@);
    let status = under(paths.eiyah_prefix@, "bin/show-cad-status"@);
    let dotfiles = under(home, ".dotfiles"@);
    seq![
        RemovalDeed::Preflight,
        RemovalDeed::CleanupPlan,
        RemovalDeed::Heading("Unlinking configuration files"@),
        RemovalDeed::Unstow,
        RemovalDeed::Heading("Removing show-cad-status"@),
        RemovalDeed::Detail(lossy_text(entry)),
        RemovalDeed::Remove { path: entry, kind: Removed::Link(status) },
        RemovalDeed::Remove { path: status, kind: Removed::File },
        RemovalDeed::Heading("Removing Eiyah configuration"@),
        RemovalDeed::Detail(lossy_text(paths.eiyah_config@)),
        RemovalDeed::Detail(lossy_text(dotfiles)),
        RemovalDeed::Remove { path: paths.eiyah_config@, kind: Removed::File },
        RemovalDeed::Remove { path: dotfiles, kind: Removed::Tree },
        RemovalDeed::Heading("Removing Pixi environment"@),
        RemovalDeed::Detail(lossy_text(paths.pixi_home@)),
        RemovalDeed::Remove { path: paths.pixi_home@, kind: Removed::Tree },
        RemovalDeed::Remove {
            path: under(paths.eiyah_prefix@, "install.toml"@),
            kind: Removed::File,
        },
        RemovalDeed::Restore,
        RemovalDeed::Validate,
        RemovalDeed::Remove { path: under(paths.cache_home@, "eiyah"@), kind: Removed::Tree },
    ]
}

fn add_act(acts: &mut Vec<RemovalAct>, act: RemovalAct)
    ensures
        removal_deeds(final(acts)@) == removal_deeds(old(acts)@).push(act@),
{
    acts.push(act);
    assert(removal_deeds(acts@) =~= removal_deeds(old(acts)@).push(act@));
}

/// How far the removal has come.
#[derive(Debug)]
pub enum RemovalPhase {
    /// The step with this number is to be made.
    Working(usize),
    Completed,
    Failed(Failure),
}

/// The removal of an installation.
#[derive(Debug)]
pub struct Uninstallation {
    pub acts: Vec<RemovalAct>,
    pub phase: RemovalPhase,
}

/// Begins the removal of an installation whose lock is held.
pub fn uninstall_locked(paths: &ResolvedPaths, home: &[u8]) -> (removal: Uninstallation)
    ensures
        removal_deeds(removal.acts@) == removal_plan(*paths, home@),
        removal.phase == RemovalPhase::Working(0),
{
    let entry = join_text(home, ".local/bin/show-cad-status");
    let status = join_text(&paths.eiyah_prefix, "bin/show-cad-status");
    let dotfiles = join_text(home, ".dotfiles");
    let mut acts: Vec<RemovalAct> = Vec::new();
    assert(removal_deeds(acts@) =~= Seq::<RemovalDeed>::empty());
    add_act(&mut acts, RemovalAct::Preflight);
    add_act(&mut acts, RemovalAct::CleanupPlan);
    add_act(&mut acts, RemovalAct::Heading("Unlinking configuration files".to_owned()));
    add_act(&mut acts, RemovalAct::Unstow);
    add_act(&mut acts, RemovalAct::Heading("Removing show-cad-status".to_owned()));
    add_act(&mut acts, RemovalAct::Detail(show_bytes(&entry)));
    let link = ManagedRemovalKind::ExactSymlink(copy_bytes(&status));
    add_act(&mut acts, RemovalAct::Remove { path: entry, kind: link });
    add_act(&mut acts, RemovalAct::Remove { path: status, kind: ManagedRemovalKind::RegularFile });
    add_act(&mut acts, RemovalAct::Heading("Removing Eiyah configuration".to_owned()));
    add_act(&mut acts, RemovalAct::Detail(show_bytes(&paths.eiyah_config)));
    add_act(&mut acts, RemovalAct::Detail(show_bytes(&dotfiles)));
    let config = copy_bytes(&paths.eiyah_config);
    add_act(&mut acts, RemovalAct::Remove { path: config, kind: ManagedRemovalKind::RegularFile });
    add_act(&mut acts, RemovalAct::Remove { path: dotfiles, kind: ManagedRemovalKind::Directory });
    add_act(&mut acts, RemovalAct::Heading("Removing Pixi environment".to_owned()));
    add_act(&mut acts, RemovalAct::Detail(show_bytes(&paths.pixi_home)));
    let pixi = copy_bytes(&paths.pixi_home);
    add_act(&mut acts, RemovalAct::Remove { path: pixi, kind: ManagedRemovalKind::Directory });
    let metadata = join_text(&paths.eiyah_prefix, "install.toml");
    add_act(&mut acts, RemovalAct::Remove { path: metadata, kind: ManagedRemovalKind::RegularFile });
    add_act(&mut acts, RemovalAct::Restore);
    add_act(&mut acts, RemovalAct::Validate);
    let cache = join_text(&paths.cache_home, "eiyah");
    add_act(&mut acts, RemovalAct::Remove { path: cache, kind: ManagedRemovalKind::Directory });
    assert(removal_deeds(acts@) =~= removal_plan(*paths, home@));
    Uninstallation { acts, phase: RemovalPhase::Working(0) }
}

/// What follows once a step was made.
pub open spec fn after_act(count: nat, phase: RemovalPhase, result: Result<(), Failure>) -> RemovalPhase {
    match phase {
        RemovalPhase::Working(position) => match result {
            Err(failure) => RemovalPhase::Failed(failure),
            Ok(()) => if position + 1 < count {
                RemovalPhase::Working((position + 1) as usize)
            } else {
                RemovalPhase::Completed
            },
        },
        _ => phase,
    }
}

impl Uninstallation {
    /// The next step.
    pub fn next_act(&self) -> (act: Option<&RemovalAct>)
        ensures
            match self.phase {
                RemovalPhase::Working(position) => if position < self.acts@.len() {
                    act == Some(&self.acts@[position as int])
                } else {
                    act is None
                },
                _ => act is None,
            },
    {
        match &self.phase {
            RemovalPhase::Working(position) => if *position < self.acts.len() {
                Some(&self.acts[*position])
            } else {
                None
            },
            _ => None,
        }
    }

    /// Goes on with what came of the step. The first step that fails ends the removal.
    pub fn advance(self, result: Result<(), Failure>) -> (next: Uninstallation)
        ensures
            next.acts == self.acts,
            next.phase == after_act(self.acts@.len(), self.phase, result),
    {
        let Uninstallation { acts, phase } = self;
        let next = match phase {
            RemovalPhase::Working(position) => match result {
                Err(failure) => RemovalPhase::Failed(failure),
                Ok(()) => if position < acts.len() && position + 1 < acts.len() {
                    RemovalPhase::Working(position + 1)
                } else {
                    RemovalPhase::Completed
                },
            },
            other => other,
        };
        Uninstallation { acts, phase: next }
    }
}

/// Nothing is removed before the conditions were checked and the caller was told what is
/// left, the backups are put back only once everything managed is gone, and the
/// downloads are removed last, behind the check.
pub proof fn the_removal_keeps_its_order(paths: ResolvedPaths, home: Seq<u8>)
    ensures
        ({
            let plan = removal_plan(paths, home);
            &&& plan[0] is Preflight
            &&& plan[1] is CleanupPlan
            &&& forall|i: int|
                0 <= i < plan.len() && #[trigger] plan[i] is Remove ==> 3 < i && (i == plan.len() - 1
                    || i < plan.len() - 3)
            &&& plan[plan.len() - 3] is Restore
            &&& plan[plan.len() - 2] is Validate
            &&& plan[plan.len() - 1] == RemovalDeed::Remove {
                path: under(paths.cache_home@, "eiyah"@),
                kind: Removed::Tree,
            }
        }),
{
}

/// Nothing but these paths is removed: what the installation manages and its downloads.
pub proof fn only_managed_paths_are_removed(paths: ResolvedPaths, home: Seq<u8>, i: int)
    requires
        0 <= i < removal_plan(paths, home).len(),
        removal_plan(paths, home)[i] is Remove,
    ensures
        ({
            let path = removal_plan(paths, home)[i]->path;
            ||| path == under(home, ".local/bin/show-cad-status"@)
            ||| path == under(paths.eiyah_prefix@, "bin/show-cad-status"@)
            ||| path == paths.eiyah_config@
            ||| path == under(home, ".dotfiles"@)
            ||| path == paths.pixi_home@
            ||| path == under(paths.eiyah_prefix@, "install.toml"@)
            ||| path == under(paths.cache_home@, "eiyah"@)
        }),
{
}

} // verus!
