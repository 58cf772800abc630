//! What the scripts leave behind: each request does to the files what it says, so that a
//! script that was carried out has written, kept, renamed or removed what it is for, and
//! nothing else.

use crate::accounts::is_run_of;
use crate::archive::{archive_steps, extract_program, extract_steps, list_program};
use crate::binary::binary_steps;
use crate::clearance::is_rooted;
use crate::dotfiles::identity_steps;
use crate::host::{Ask, FileKind};
use crate::paths::parent_of;
use crate::pixi::{check_steps, manifest_steps};
use crate::private_release::{asset_address, status_steps};
use crate::removal::{index_removal_steps, removal_steps, Removed};
use crate::script::{Demand, StepView};
use crate::ssh::{derive_program, directory_steps, generate_program, pair_steps, public_key_steps};
use crate::ssh::replace_steps;
use crate::storage::{has_place, save_checks, save_work, SaveMode};
use crate::uninstall::cleanup_plan_steps;
use crate::update::{download_steps, notice_steps, opening_steps, replacing_steps, verifying_steps};
use vstd::prelude::*;
use vstd::utf8::encode_utf8;

verus! {

/// A file as it stands.
#[verifier::ext_equal]
pub struct StoredFile {
    pub mode: u32,
    pub contents: Seq<u8>,
    /// Whether what was written is safe on the disk.
    pub is_safe: bool,
}

/// The files and directories of a host, and what it was last sent.
#[verifier::ext_equal]
pub struct Store {
    pub files: Map<Seq<u8>, StoredFile>,
    pub directories: Map<Seq<u8>, u32>,
    pub body: Seq<u8>,
}

/// What a host adds to its requests: the permissions that a new entry may have, and what
/// servers send.
pub struct Surroundings {
    pub mask: u32,
    pub sent: spec_fn(Ask) -> Seq<u8>,
}

impl Store {
    pub open spec fn with_file(self, path: Seq<u8>, file: StoredFile) -> Store {
        Store { files: self.files.insert(path, file), ..self }
    }

    pub open spec fn without_file(self, path: Seq<u8>) -> Store {
        Store { files: self.files.remove(path), ..self }
    }

    pub open spec fn written(self, path: Seq<u8>, contents: Seq<u8>) -> Store {
        let file = self.files[path];
        self.with_file(
            path,
            StoredFile { contents: file.contents + contents, is_safe: false, ..file },
        )
    }

    pub open spec fn kept(self, path: Seq<u8>) -> Store {
        self.with_file(path, StoredFile { is_safe: true, ..self.files[path] })
    }

    pub open spec fn allowed(self, path: Seq<u8>, mode: u32) -> Store {
        if self.directories.dom().contains(path) {
            Store { directories: self.directories.insert(path, mode), ..self }
        } else {
            self.with_file(path, StoredFile { mode, ..self.files[path] })
        }
    }

    pub open spec fn renamed(self, source: Seq<u8>, destination: Seq<u8>) -> Store {
        self.without_file(source).with_file(destination, self.files[source])
    }

    /// What stands after a request was carried out.
    pub open spec fn after(self, around: Surroundings, ask: Ask) -> Store {
        match ask {
            Ask::CreateFile { path, mode } => self.with_file(
                path,
                StoredFile { mode: mode & around.mask, contents: Seq::empty(), is_safe: false },
            ),
            Ask::SetMode { path, mode } => self.allowed(path, mode),
            Ask::SetOpenMode { path, mode } => self.allowed(path, mode),
            Ask::Write { path, contents } => self.written(path, contents),
            Ask::CopyFrom { source, path } => self.written(path, self.files[source].contents),
            Ask::Get(_) => Store { body: (around.sent)(ask), ..self },
            Ask::GetPrivate(_) => Store { body: (around.sent)(ask), ..self },
            Ask::GetAsset(_) => Store { body: (around.sent)(ask), ..self },
            Ask::SaveBody(path) => self.written(path, self.body),
            Ask::SyncOpen(path) => self.kept(path),
            Ask::Sync(path) => self.kept(path),
            Ask::MakeDirectory { path, mode } => Store {
                directories: self.directories.insert(path, mode & around.mask),
                ..self
            },
            Ask::Rename { source, destination } => self.renamed(source, destination),
            Ask::RenameNoReplace { source, destination } => self.renamed(source, destination),
            Ask::RemoveFile(path) => self.without_file(path),
            Ask::RemoveTree(path) => Store {
                directories: self.directories.remove(path),
                ..self
            },
            _ => self,
        }
    }

    /// What stands after so many steps of a script were carried out.
    pub open spec fn after_steps(
        self,
        around: Surroundings,
        steps: Seq<StepView>,
        count: nat,
    ) -> Store
        decreases count,
    {
        if count == 0 {
            self
        } else {
            self.after_steps(around, steps, (count - 1) as nat).after(
                around,
                steps[count - 1].ask,
            )
        }
    }

    /// What stands after a script was carried out.
    pub open spec fn carried_out(self, around: Surroundings, steps: Seq<StepView>) -> Store {
        self.after_steps(around, steps, steps.len())
    }
}

/// Whether a step asks for this and demands this of the reply.
pub open spec fn demands(steps: Seq<StepView>, place: int, ask: Ask, demand: Demand) -> bool {
    0 <= place < steps.len() && steps[place].ask == ask && steps[place].demand == demand
}

// --------------------------------------------------
// Files that are written
// --------------------------------------------------

/// The identity is written to its file, which only its owner can read.
pub proof fn an_identity_is_written_to_its_file(
    around: Surroundings,
    store: Store,
    path: Seq<u8>,
    contents: Seq<u8>,
)
    requires
        !store.directories.dom().contains(path),
    ensures
        store.carried_out(around, identity_steps(path, contents)) == store.with_file(
            path,
            StoredFile { mode: 0o600, contents, is_safe: true },
        ),
        demands(identity_steps(path, contents), 1, Ask::InspectOpen(path), Demand::Remember),
{
    let steps = identity_steps(path, contents);
    reveal_with_fuel(Store::after_steps, 6);
    assert(steps.len() == 5);
    assert(Seq::<u8>::empty() + contents =~= contents);
    assert(store.carried_out(around, steps).files =~= store.with_file(
        path,
        StoredFile { mode: 0o600, contents, is_safe: true },
    ).files);
}

/// The program is copied whole, and everyone can execute it.
pub proof fn the_program_is_copied_to_its_place(
    around: Surroundings,
    store: Store,
    source: Seq<u8>,
    target: Seq<u8>,
)
    requires
        source != target,
        !store.directories.dom().contains(target),
    ensures
        store.carried_out(around, binary_steps(source, target)) == store.with_file(
            target,
            StoredFile { mode: 0o755, contents: store.files[source].contents, is_safe: true },
        ),
        demands(binary_steps(source, target), 0, Ask::Open(source), Demand::Done),
        demands(binary_steps(source, target), 2, Ask::InspectOpen(target), Demand::Remember),
{
    let steps = binary_steps(source, target);
    let contents = store.files[source].contents;
    reveal_with_fuel(Store::after_steps, 7);
    assert(steps.len() == 6);
    assert(Seq::<u8>::empty() + contents =~= contents);
    assert(store.carried_out(around, steps).files =~= store.with_file(
        target,
        StoredFile { mode: 0o755, contents, is_safe: true },
    ).files);
}

/// The manifest is copied whole, from a regular file.
pub proof fn the_manifest_is_copied_to_its_place(
    around: Surroundings,
    store: Store,
    source: Seq<u8>,
    target: Seq<u8>,
)
    requires
        source != target,
        !store.directories.dom().contains(target),
    ensures
        store.carried_out(around, manifest_steps(source, target)) == store.with_file(
            target,
            StoredFile { mode: 0o644, contents: store.files[source].contents, is_safe: true },
        ),
        demands(
            manifest_steps(source, target),
            0,
            Ask::Inspect(source),
            Demand::Kind(FileKind::Regular),
        ),
        demands(manifest_steps(source, target), 1, Ask::Open(source), Demand::Done),
        demands(manifest_steps(source, target), 3, Ask::InspectOpen(target), Demand::Remember),
{
    let steps = manifest_steps(source, target);
    let contents = store.files[source].contents;
    reveal_with_fuel(Store::after_steps, 8);
    assert(steps.len() == 7);
    assert(Seq::<u8>::empty() + contents =~= contents);
    assert(store.carried_out(around, steps).files =~= store.with_file(
        target,
        StoredFile { mode: 0o644, contents, is_safe: true },
    ).files);
}

/// The cleanup plan is written to its file in a directory, where nothing stood before.
pub proof fn the_cleanup_plan_is_written_to_its_file(
    around: Surroundings,
    store: Store,
    path: Seq<u8>,
    contents: Seq<u8>,
)
    requires
        !store.directories.dom().contains(path),
    ensures
        store.carried_out(around, cleanup_plan_steps(path, contents)) == store.with_file(
            path,
            StoredFile { mode: 0o600, contents, is_safe: true },
        ),
        demands(
            cleanup_plan_steps(path, contents),
            0,
            Ask::Inspect(parent_of(path)),
            Demand::Kind(FileKind::Directory),
        ),
        demands(cleanup_plan_steps(path, contents), 1, Ask::Inspect(path), Demand::Missing),
{
    let steps = cleanup_plan_steps(path, contents);
    reveal_with_fuel(Store::after_steps, 7);
    assert(steps.len() == 6);
    assert(Seq::<u8>::empty() + contents =~= contents);
    assert(store.carried_out(around, steps).files =~= store.with_file(
        path,
        StoredFile { mode: 0o600, contents, is_safe: true },
    ).files);
}

/// A saved file holds what it should, only its owner can read it, and its temporary file
/// is gone; it is put in place only as long as the temporary file is the one that was
/// written, and the target is still what it has to be.
pub proof fn a_saved_file_holds_what_it_should(
    around: Surroundings,
    store: Store,
    mode: SaveMode,
    target: Seq<u8>,
    contents: Seq<u8>,
    temporary: Seq<u8>,
)
    requires
        target != temporary,
        !store.directories.dom().contains(temporary),
    ensures
        ({
            let steps = save_work(mode, target, contents, temporary);
            &&& store.carried_out(around, steps) == store.without_file(temporary).with_file(
                target,
                StoredFile { mode: 0o600, contents, is_safe: true },
            )
            &&& steps.len() == 8
            &&& demands(steps, 1, Ask::InspectOpen(temporary), Demand::Remember)
            &&& demands(
                steps,
                5,
                Ask::Inspect(target),
                match mode {
                    SaveMode::Replace => Demand::MissingOr(FileKind::Regular),
                    SaveMode::Initial => Demand::Missing,
                },
            )
            &&& demands(steps, 6, Ask::Inspect(temporary), Demand::Same)
            &&& mode == SaveMode::Initial ==> steps[7].ask is RenameNoReplace
            &&& demands(
                save_checks(mode, target),
                0,
                Ask::Inspect(target),
                match mode {
                    SaveMode::Replace => Demand::MissingOr(FileKind::Regular),
                    SaveMode::Initial => Demand::Missing,
                },
            )
            &&& mode == SaveMode::Initial && has_place(target) ==> demands(
                save_checks(mode, target),
                1,
                Ask::Inspect(parent_of(target)),
                Demand::Kind(FileKind::Directory),
            )
            &&& !has_place(target) ==> save_checks(mode, target).last().demand == Demand::Never
            &&& has_place(target) ==> forall|i: int|
                0 <= i < save_checks(mode, target).len() ==> (#[trigger] save_checks(
                    mode,
                    target,
                )[i]).demand != Demand::Never
        }),
{
    let steps = save_work(mode, target, contents, temporary);
    reveal_with_fuel(Store::after_steps, 9);
    assert(steps.len() == 8);
    assert(Seq::<u8>::empty() + contents =~= contents);
    assert(store.carried_out(around, steps).files =~= store.without_file(temporary).with_file(
        target,
        StoredFile { mode: 0o600, contents, is_safe: true },
    ).files);
}

// --------------------------------------------------
// Keys
// --------------------------------------------------

/// The directory of the keys is for its owner alone.
pub proof fn the_directory_of_the_keys_is_private(
    around: Surroundings,
    store: Store,
    path: Seq<u8>,
)
    ensures
        store.carried_out(around, directory_steps(path)) == (Store {
            directories: store.directories.insert(path, 0o700),
            ..store
        }),
{
    reveal_with_fuel(Store::after_steps, 3);
    assert(directory_steps(path).len() == 2);
    assert(store.carried_out(around, directory_steps(path)).directories
        =~= store.directories.insert(path, 0o700));
}

/// The public key is written on a line of its own.
pub proof fn the_public_key_is_written_on_a_line(
    around: Surroundings,
    store: Store,
    path: Seq<u8>,
    line: Seq<u8>,
)
    requires
        !store.directories.dom().contains(path),
    ensures
        store.carried_out(around, public_key_steps(path, line)) == store.with_file(
            path,
            StoredFile { mode: 0o644, contents: line + seq![0x0au8], is_safe: true },
        ),
{
    let steps = public_key_steps(path, line);
    reveal_with_fuel(Store::after_steps, 5);
    assert(steps.len() == 4);
    assert(Seq::<u8>::empty() + line.push(0x0a) =~= line + seq![0x0au8]);
    assert(store.carried_out(around, steps).files =~= store.with_file(
        path,
        StoredFile { mode: 0o644, contents: line + seq![0x0au8], is_safe: true },
    ).files);
}

/// A new pair of keys stands as regular files, the private one for its owner alone, and
/// neither is changed otherwise.
pub proof fn a_new_pair_of_keys_is_protected(
    around: Surroundings,
    store: Store,
    private: Seq<u8>,
    public: Seq<u8>,
)
    requires
        private != public,
        !store.directories.dom().contains(private),
        !store.directories.dom().contains(public),
    ensures
        store.carried_out(around, pair_steps(private, public)) == store.with_file(
            private,
            StoredFile { mode: 0o600, ..store.files[private] },
        ).with_file(public, StoredFile { mode: 0o644, ..store.files[public] }),
        demands(
            pair_steps(private, public),
            0,
            Ask::Inspect(private),
            Demand::Kind(FileKind::Regular),
        ),
        demands(
            pair_steps(private, public),
            1,
            Ask::Inspect(public),
            Demand::Kind(FileKind::Regular),
        ),
{
    reveal_with_fuel(Store::after_steps, 5);
    assert(pair_steps(private, public).len() == 4);
    assert(store.carried_out(around, pair_steps(private, public)).files =~= store.with_file(
        private,
        StoredFile { mode: 0o600, ..store.files[private] },
    ).with_file(public, StoredFile { mode: 0o644, ..store.files[public] }).files);
}

/// The list of keys is replaced by the new one with the mode it should have, and its
/// temporary file is gone.
pub proof fn the_list_of_keys_is_replaced(
    around: Surroundings,
    store: Store,
    path: Seq<u8>,
    temporary: Seq<u8>,
    contents: Seq<u8>,
    mode: u32,
)
    requires
        path != temporary,
        !store.directories.dom().contains(temporary),
    ensures
        store.carried_out(around, replace_steps(path, temporary, contents, mode))
            == store.without_file(temporary).with_file(
            path,
            StoredFile { mode, contents, is_safe: true },
        ),
{
    let steps = replace_steps(path, temporary, contents, mode);
    reveal_with_fuel(Store::after_steps, 6);
    assert(steps.len() == 5);
    assert(Seq::<u8>::empty() + contents =~= contents);
    assert(store.carried_out(around, steps).files =~= store.without_file(temporary).with_file(
        path,
        StoredFile { mode, contents, is_safe: true },
    ).files);
}

/// A key is derived from the private one, and a new one is of the kind that is wanted,
/// stands at its place, has no password and is marked with its user.
pub proof fn keys_are_made_by_ssh_keygen(private: Seq<u8>, user: Seq<u8>)
    ensures
        ({
            let derive = derive_program(private);
            let generate = generate_program(private, user);
            &&& derive.executable == encode_utf8("ssh-keygen"@)
            &&& generate.executable == encode_utf8("ssh-keygen"@)
            &&& derive.directory is None && generate.directory is None
            &&& derive.arguments.len() == 3
            &&& derive.arguments[0] == encode_utf8("-y"@)
            &&& derive.arguments[1] == encode_utf8("-f"@)
            &&& derive.arguments[2] == private
            &&& generate.arguments.len() == 8
            &&& generate.arguments[0] == encode_utf8("-t"@)
            &&& generate.arguments[1] == encode_utf8("ed25519"@)
            &&& generate.arguments[2] == encode_utf8("-f"@)
            &&& generate.arguments[3] == private
            &&& generate.arguments[4] == encode_utf8("-N"@)
            &&& generate.arguments[5].len() == 0
            &&& generate.arguments[6] == encode_utf8("-C"@)
            &&& generate.arguments[7] == user + encode_utf8("@cad"@)
        }),
{
}

// --------------------------------------------------
// Downloads
// --------------------------------------------------

/// The archive is what the address sends, for its owner alone.
pub proof fn the_archive_is_what_was_sent(
    around: Surroundings,
    store: Store,
    archive: Seq<u8>,
    url: Seq<char>,
)
    requires
        !store.directories.dom().contains(archive),
    ensures
        ({
            let sent = (around.sent)(Ask::GetPrivate(url));
            store.carried_out(around, archive_steps(archive, url)) == (Store {
                body: sent,
                ..store
            }).with_file(archive, StoredFile { mode: 0o600, contents: sent, is_safe: true })
        }),
{
    let steps = archive_steps(archive, url);
    let sent = (around.sent)(Ask::GetPrivate(url));
    reveal_with_fuel(Store::after_steps, 7);
    assert(steps.len() == 6);
    assert(Seq::<u8>::empty() + sent =~= sent);
    assert(store.carried_out(around, steps).files =~= store.with_file(
        archive,
        StoredFile { mode: 0o600, contents: sent, is_safe: true },
    ).files);
}

/// An archive is unpacked into a directory of its own for its owner alone, by a program
/// that has to end well and that leaves out the top of the tree and what the archive says
/// of owners and permissions; afterwards the directory still has to be one.
pub proof fn an_archive_is_unpacked_into_its_directory(
    around: Surroundings,
    store: Store,
    archive: Seq<u8>,
    root: Seq<u8>,
)
    ensures
        store.carried_out(around, extract_steps(archive, root)) == (Store {
            directories: store.directories.insert(root, 0o700),
            ..store
        }),
        demands(
            extract_steps(archive, root),
            2,
            Ask::Run(extract_program(archive, root)),
            Demand::Success,
        ),
        demands(
            extract_steps(archive, root),
            3,
            Ask::Inspect(root),
            Demand::Kind(FileKind::Directory),
        ),
        ({
            let list = list_program(archive);
            let extract = extract_program(archive, root);
            &&& list.executable == encode_utf8("/usr/bin/tar"@)
            &&& list.arguments == seq![encode_utf8("-tvzf"@), archive]
            &&& extract.executable == encode_utf8("/usr/bin/tar"@)
            &&& extract.arguments.len() == 7
            &&& extract.arguments[0] == encode_utf8("-xzf"@)
            &&& extract.arguments[1] == archive
            &&& extract.arguments[2] == encode_utf8("-C"@)
            &&& extract.arguments[3] == root
            &&& extract.arguments[4] == encode_utf8("--strip-components=1"@)
            &&& extract.arguments[5] == encode_utf8("--no-same-owner"@)
            &&& extract.arguments[6] == encode_utf8("--no-same-permissions"@)
        }),
{
    let steps = extract_steps(archive, root);
    reveal_with_fuel(Store::after_steps, 5);
    assert(steps.len() == 4);
    assert(store.carried_out(around, steps).directories =~= store.directories.insert(root, 0o700));
}

/// The program that shows the status is what its asset holds; it can be executed only
/// once the digest was found to be right.
pub proof fn the_status_program_is_what_was_sent(
    around: Surroundings,
    store: Store,
    target: Seq<u8>,
    asset: u64,
    digest: Seq<u8>,
)
    requires
        !store.directories.dom().contains(target),
    ensures
        ({
            let sent = (around.sent)(Ask::GetAsset(asset_address(asset)));
            let steps = status_steps(target, asset, digest);
            &&& store.carried_out(around, steps) == (Store { body: sent, ..store }).with_file(
                target,
                StoredFile { mode: 0o755, contents: sent, is_safe: true },
            )
            &&& store.after_steps(around, steps, 8) == (Store { body: sent, ..store }).with_file(
                target,
                StoredFile { mode: 0o600, contents: sent, is_safe: true },
            )
            &&& demands(steps, 1, Ask::InspectOpen(target), Demand::Remember)
            &&& demands(steps, 6, Ask::Open(target), Demand::Done)
            &&& demands(steps, 7, Ask::ReadOpened(target), Demand::Digest(digest))
            &&& demands(steps, 10, Ask::InspectOpen(target), Demand::ExecutableMode)
        }),
{
    let steps = status_steps(target, asset, digest);
    let sent = (around.sent)(Ask::GetAsset(asset_address(asset)));
    reveal_with_fuel(Store::after_steps, 12);
    assert(steps.len() == 11);
    assert(Seq::<u8>::empty() + sent =~= sent);
    assert(store.after_steps(around, steps, 8).files =~= store.with_file(
        target,
        StoredFile { mode: 0o600, contents: sent, is_safe: true },
    ).files);
    assert(store.carried_out(around, steps).files =~= store.with_file(
        target,
        StoredFile { mode: 0o755, contents: sent, is_safe: true },
    ).files);
}

/// An update puts what the address of the release sends in the place of the program,
/// executable by everyone, once its digest was found to be right; nothing else is left of
/// the download.
pub proof fn an_update_puts_the_download_in_place(
    around: Surroundings,
    store: Store,
    url: Seq<char>,
    candidate: Seq<u8>,
    installed: Seq<u8>,
    digest: Seq<u8>,
)
    requires
        candidate != installed,
        !store.directories.dom().contains(candidate),
    ensures
        ({
            let sent = (around.sent)(Ask::Get(url));
            store.carried_out(around, download_steps(url, candidate)).carried_out(
                around,
                verifying_steps(candidate, digest),
            ).carried_out(around, replacing_steps(candidate, installed)) == (Store {
                body: sent,
                ..store
            }).without_file(candidate).with_file(
                installed,
                StoredFile { mode: 0o755, contents: sent, is_safe: true },
            )
        }),
        demands(verifying_steps(candidate, digest), 0, Ask::Open(candidate), Demand::Done),
        demands(
            verifying_steps(candidate, digest),
            1,
            Ask::ReadOpened(candidate),
            Demand::Digest(digest),
        ),
        forall|i: int| 0 <= i < 3 ==> (#[trigger] replacing_steps(candidate, installed)[i]).demand
            == Demand::Done,
{
    let sent = (around.sent)(Ask::Get(url));
    let first = store.carried_out(around, download_steps(url, candidate));
    let second = first.carried_out(around, verifying_steps(candidate, digest));
    let third = second.carried_out(around, replacing_steps(candidate, installed));
    let made = StoredFile {
        mode: 0o600u32 & around.mask,
        contents: sent,
        is_safe: true,
    };
    assert(Seq::<u8>::empty() + sent =~= sent);
    assert(first == (Store { body: sent, ..store }).with_file(candidate, made)) by {
        reveal_with_fuel(Store::after_steps, 5);
        assert(download_steps(url, candidate).len() == 4);
        assert(first.files =~= store.with_file(candidate, made).files);
    }
    assert(second == (Store { body: sent, ..store }).with_file(
        candidate,
        StoredFile { mode: 0o755, ..made },
    )) by {
        reveal_with_fuel(Store::after_steps, 8);
        assert(verifying_steps(candidate, digest).len() == 7);
        assert(second.files =~= store.with_file(
            candidate,
            StoredFile { mode: 0o755, ..made },
        ).files);
    }
    reveal_with_fuel(Store::after_steps, 4);
    assert(replacing_steps(candidate, installed).len() == 3);
    assert(third.files =~= store.without_file(candidate).with_file(
        installed,
        StoredFile { mode: 0o755, contents: sent, is_safe: true },
    ).files);
}

/// An update is announced with the versions, and begins only where the program stands as
/// a regular file that can be executed.
pub proof fn an_update_begins_with_the_program(
    version: Seq<char>,
    url: Seq<char>,
    installed: Seq<u8>,
    blank: bool,
    current: Seq<char>,
)
    ensures
        demands(
            opening_steps(version, url, installed),
            0,
            Ask::Heading("Downloading Eiyah "@ + version),
            Demand::Done,
        ),
        demands(opening_steps(version, url, installed), 1, Ask::Detail(url), Demand::Done),
        demands(
            opening_steps(version, url, installed),
            2,
            Ask::Inspect(installed),
            Demand::Executable,
        ),
        ({
            let steps = notice_steps(blank, current, version);
            &&& steps.len() == 3
            &&& blank ==> demands(
                steps,
                0,
                Ask::Heading("Checking for Eiyah updates"@),
                Demand::Done,
            )
            &&& !blank ==> demands(
                steps,
                0,
                Ask::FirstHeading("Checking for Eiyah updates"@),
                Demand::Done,
            )
            &&& demands(steps, 1, Ask::Detail("Current: "@ + current), Demand::Done)
            &&& demands(steps, 2, Ask::Detail("Latest:  "@ + version), Demand::Done)
        }),
{
}

/// The environment is checked before anything is made in it: its program can be executed
/// and tells its version, and the manifest that is to be copied is a regular file.
pub proof fn the_environment_is_checked_first(
    around: Surroundings,
    store: Store,
    pixi: Seq<u8>,
    source: Seq<u8>,
    manifests: Seq<u8>,
)
    ensures
        ({
            let steps = check_steps(pixi, source, manifests);
            &&& store.carried_out(around, steps) == store
            &&& steps.len() == 4
            &&& demands(steps, 0, Ask::Inspect(pixi), Demand::Executable)
            &&& steps[1].demand == Demand::Prints
            &&& is_run_of(steps[1].ask, pixi, "--version"@)
            &&& demands(steps, 2, Ask::Inspect(source), Demand::Kind(FileKind::Regular))
            &&& demands(steps, 3, Ask::MakeManaged(manifests), Demand::Done)
        }),
{
    reveal_with_fuel(Store::after_steps, 5);
    assert(check_steps(pixi, source, manifests).len() == 4);
}

// --------------------------------------------------
// Removals
// --------------------------------------------------

/// The index is removed, and only as long as it is the regular file that was looked at.
pub proof fn the_index_is_removed(around: Surroundings, store: Store, index: Seq<u8>)
    ensures
        store.carried_out(around, index_removal_steps(index)) == store.without_file(index),
        demands(
            index_removal_steps(index),
            0,
            Ask::Inspect(index),
            Demand::RememberKind(FileKind::Regular),
        ),
        demands(index_removal_steps(index), 1, Ask::Inspect(index), Demand::Same),
{
    reveal_with_fuel(Store::after_steps, 4);
    assert(index_removal_steps(index).len() == 3);
}

/// A managed entry is removed whole, and nothing else is.
pub proof fn a_managed_entry_is_removed(
    around: Surroundings,
    store: Store,
    path: Seq<u8>,
    kind: Removed,
)
    ensures
        store.carried_out(around, removal_steps(path, kind)) == match kind {
            Removed::Tree => Store { directories: store.directories.remove(path), ..store },
            _ => store.without_file(path),
        },
        demands(
            removal_steps(path, kind),
            0,
            Ask::Inspect(path),
            Demand::RememberIfPresent(
                match kind {
                    Removed::Link(_) => FileKind::Symlink,
                    Removed::File => FileKind::Regular,
                    Removed::Tree => FileKind::Directory,
                },
            ),
        ),
        demands(
            removal_steps(path, kind),
            removal_steps(path, kind).len() - 2,
            Ask::Inspect(path),
            Demand::Same,
        ),
        kind is Link && is_rooted(kind->Link_0) ==> demands(
            removal_steps(path, kind),
            1,
            Ask::ReadLink(path),
            Demand::LeadsTo(kind->Link_0),
        ),
        kind is Link && !is_rooted(kind->Link_0) ==> removal_steps(path, kind)[1].demand
            == Demand::Never,
{
    reveal_with_fuel(Store::after_steps, 5);
    assert(removal_steps(path, kind).len() == if kind is Link {
        4nat
    } else {
        3
    });
}

} // verus!
