//! The SSH key of the user and the keys that may log in.

use crate::bytes::{append_bytes, are_blank, byte_fields, contains_byte, copy_bytes, fields};
use crate::bytes::{fields_are_the_words_between_blanks, is_ascii_space, is_word, lemma_first_field};
use crate::bytes::{lies_between, pieces_lie_between_separators, same_bytes, split, split_seq};
use crate::bytes::{text_bytes, trim_ascii_whitespace, trim_back, trim_front};
use crate::bytes::{trimming_takes_the_blanks_around, views};
use crate::failure::{about, is_failure, message_at, Failure};
use crate::host::{add_bytes, no_bytes, plain_program, Ask, FaultKind, FileKind, Program};
use crate::host::{ProgramView, Reply, Request};
use crate::installed::{contents_of, read_reply};
use crate::paths::{join_text, lemma_split_concat, lemma_split_single, under};
use crate::script::{add_step, bare_deed, no_steps, step, step_views, tells, unanswered, Check};
use crate::script::{Cleanup, Demand, Phase, Progress, Script, Step, StepView, Tidy};
use crate::text::{chars_of, concat, decimal, decimal_text, lemma_split_not_empty, lossy_text};
use crate::text::{show_bytes, text_of, trim, trimmed};
use crate::ui::UserFacingError;
use vstd::prelude::*;
use vstd::utf8::encode_utf8;

verus! {

/// The permissions of the directory.
pub const SSH_DIRECTORY_MODE: u32 = 0o700;

/// The permissions of a private key.
pub const SSH_PRIVATE_KEY_MODE: u32 = 0o600;

/// The permissions of a public key.
pub const SSH_PUBLIC_KEY_MODE: u32 = 0o644;

/// The permissions of a new list of keys.
pub const AUTHORIZED_KEYS_MODE: u32 = 0o600;

// --------------------------------------------------
// Public keys
// --------------------------------------------------

/// A public key.
#[derive(Debug, PartialEq, Eq)]
pub struct SshPublicKey {
    pub key_type: Vec<u8>,
    pub key_data: Vec<u8>,
    /// The line that it stands on, with what else stands there.
    pub line: Vec<u8>,
}

/// A public key.
#[verifier::ext_equal]
pub struct Key {
    pub key_type: Seq<u8>,
    pub key_data: Seq<u8>,
    pub line: Seq<u8>,
}

impl View for SshPublicKey {
    type V = Key;

    open spec fn view(&self) -> Key {
        Key { key_type: self.key_type@, key_data: self.key_data@, line: self.line@ }
    }
}

/// The text without the blanks around it.
pub open spec fn key_line(content: Seq<u8>) -> Seq<u8> {
    trim_back(trim_front(content))
}

/// The public key that a text holds: one line with the type and the data first.
pub open spec fn key_of(content: Seq<u8>) -> Option<Key> {
    let line = key_line(content);
    if line.len() == 0 || line.contains(0x0a) || line.contains(0x0d) || byte_fields(line).len()
        < 2 {
        None
    } else {
        Some(Key { key_type: byte_fields(line)[0], key_data: byte_fields(line)[1], line })
    }
}

/// Why a text holds no public key.
pub open spec fn key_problem(content: Seq<u8>) -> Seq<char> {
    let line = key_line(content);
    if line.len() == 0 || line.contains(0x0a) || line.contains(0x0d) {
        "SSH public key must contain exactly one valid line"@
    } else if byte_fields(line).len() == 0 {
        "SSH public key type is missing"@
    } else {
        "SSH public key data is missing"@
    }
}

/// The public key that a text holds.
pub fn parse_public_key(content: &[u8]) -> (result: Result<SshPublicKey, Failure>)
    ensures
        match key_of(content@) {
            Some(key) => result is Ok && result->Ok_0@ == key,
            None => result is Err && result->Err_0.says(key_problem(content@)),
        },
{
    let line = trim_ascii_whitespace(content);
    if line.len() == 0 || contains_byte(line, 0x0a) || contains_byte(line, 0x0d) {
        return Err(Failure::plain("SSH public key must contain exactly one valid line"));
    }
    let runs = fields(line);
    assert(views(runs@).len() == runs@.len());
    if runs.len() == 0 {
        return Err(Failure::plain("SSH public key type is missing"));
    }
    if runs.len() == 1 {
        return Err(Failure::plain("SSH public key data is missing"));
    }
    assert(views(runs@)[0] == runs@[0]@ && views(runs@)[1] == runs@[1]@);
    Ok(
        SshPublicKey {
            key_type: copy_bytes(&runs[0]),
            key_data: copy_bytes(&runs[1]),
            line: copy_bytes(line),
        },
    )
}

/// Whether two public keys are the same key, whatever else stands on their lines.
pub open spec fn same_key(left: Key, right: Key) -> bool {
    left.key_type == right.key_type && left.key_data == right.key_data
}

/// Whether two public keys are the same key.
pub fn same_public_key(left: &SshPublicKey, right: &SshPublicKey) -> (same: bool)
    ensures
        same == same_key(left@, right@),
{
    same_bytes(&left.key_type, &right.key_type) && same_bytes(&left.key_data, &right.key_data)
}

// --------------------------------------------------
// Authorized keys
// --------------------------------------------------

/// Whether a line holds this key.
pub open spec fn holds_key(line: Seq<u8>, key: Key) -> bool {
    key_of(line) is Some && same_key(key_of(line)->0, key)
}

/// Whether a list of keys holds this one.
pub open spec fn authorizes(contents: Seq<u8>, key: Key) -> bool {
    exists|i: int|
        0 <= i < split_seq(contents, 0x0a).len() && holds_key(
            #[trigger] split_seq(contents, 0x0a)[i],
            key,
        )
}

/// Whether a list of keys holds this one.
pub fn is_authorized(contents: &[u8], key: &SshPublicKey) -> (yes: bool)
    ensures
        yes == authorizes(contents@, key@),
{
    let lines = split(contents, 0x0a);
    let ghost pieces = split_seq(contents@, 0x0a);
    assert(views(lines@).len() == lines@.len());
    let mut index: usize = 0;
    while index < lines.len()
        invariant
            index <= lines.len(),
            views(lines@) == pieces,
            pieces == split_seq(contents@, 0x0a),
            pieces.len() == lines@.len(),
            forall|i: int| 0 <= i < index ==> !holds_key(#[trigger] pieces[i], key@),
        decreases lines.len() - index,
    {
        assert(pieces[index as int] == lines@[index as int]@);
        match parse_public_key(&lines[index]) {
            Ok(found) => {
                if same_public_key(&found, key) {
                    assert(holds_key(pieces[index as int], key@));
                    return true;
                }
            },
            Err(_) => {},
        }
        index = index + 1;
    }
    false
}

/// A list of keys with one more line.
pub open spec fn with_key(contents: Seq<u8>, line: Seq<u8>) -> Seq<u8> {
    if contents.len() > 0 && contents.last() != 0x0a {
        contents.push(0x0a) + line.push(0x0a)
    } else {
        contents + line.push(0x0a)
    }
}

/// A list of keys with one more line.
fn append_key(contents: &[u8], line: &[u8]) -> (longer: Vec<u8>)
    ensures
        longer@ == with_key(contents@, line@),
{
    let mut longer = copy_bytes(contents);
    if contents.len() > 0 && contents[contents.len() - 1] != 0x0a {
        longer.push(0x0a);
    }
    append_bytes(&mut longer, line);
    longer.push(0x0a);
    assert(longer@ =~= with_key(contents@, line@));
    longer
}

/// Whether a public key is one that was read: its line holds it.
pub open spec fn is_read_key(key: Key) -> bool {
    key_of(key.line) == Some(key)
}

proof fn lemma_trim_front_stays(s: Seq<u8>)
    ensures
        trim_front(trim_front(s)) == trim_front(s),
        trim_front(s).len() > 0 ==> !is_ascii_space(trim_front(s)[0]),
    decreases s.len(),
{
    if s.len() > 0 && is_ascii_space(s[0]) {
        lemma_trim_front_stays(s.drop_first());
    }
}

proof fn lemma_trim_back_stays(s: Seq<u8>)
    ensures
        trim_back(trim_back(s)) == trim_back(s),
        trim_back(s).len() > 0 ==> trim_back(s)[0] == s[0],
        trim_back(s).len() > 0 ==> !is_ascii_space(trim_back(s).last()),
        trim_back(s).len() <= s.len(),
    decreases s.len(),
{
    if s.len() > 0 && is_ascii_space(s.last()) {
        lemma_trim_back_stays(s.drop_last());
    }
}

/// A key that was read from a text is read again from its line.
pub proof fn a_read_key_is_read_again(content: Seq<u8>)
    requires
        key_of(content) is Some,
    ensures
        is_read_key(key_of(content)->0),
{
    lemma_trim_front_stays(content);
    lemma_trim_back_stays(trim_front(content));
    let line = key_line(content);
    assert(trim_front(line) == line);
    assert(key_line(line) == line);
}

/// A key that was added is authorized, and so is every key that was authorized before.
pub proof fn an_added_key_is_authorized(contents: Seq<u8>, key: Key, other: Key)
    requires
        is_read_key(key),
    ensures
        authorizes(with_key(contents, key.line), key),
        authorizes(contents, other) ==> authorizes(with_key(contents, key.line), other),
{
    let line = key.line;
    lemma_split_single(line, 0x0au8);
    let empty = Seq::<u8>::empty();
    lemma_split_single(empty, 0x0au8);
    lemma_split_concat(line, 0x0au8, empty);
    assert(line.push(0x0a) + empty =~= line.push(0x0a));
    let tail = split_seq(line.push(0x0a), 0x0a);
    assert(tail =~= seq![line, empty]);
    let longer = with_key(contents, line);
    let pieces = split_seq(longer, 0x0a);
    let before = split_seq(contents, 0x0a);
    lemma_split_not_empty(contents, 0x0au8);
    if contents.len() > 0 && contents.last() != 0x0a {
        lemma_split_concat(contents, 0x0au8, line.push(0x0a));
        assert(pieces == before + tail);
        assert(pieces[before.len() as int] == line);
        assert(holds_key(pieces[before.len() as int], key));
        if authorizes(contents, other) {
            let i = choose|i: int| 0 <= i < before.len() && holds_key(#[trigger] before[i], other);
            assert(pieces[i] == before[i]);
        }
    } else if contents.len() == 0 {
        assert(contents =~= empty);
        assert(longer =~= line.push(0x0a));
        assert(pieces[0] == line);
        assert(holds_key(pieces[0], key));
        if authorizes(contents, other) {
            assert(before =~= seq![empty]);
            let i = choose|i: int| 0 <= i < before.len() && holds_key(#[trigger] before[i], other);
            assert(before[i] == empty);
            assert(key_line(empty).len() == 0);
        }
    } else {
        let head = contents.drop_last();
        assert(head.push(0x0a) =~= contents);
        lemma_split_concat(head, 0x0au8, line.push(0x0a));
        lemma_split_concat(head, 0x0au8, empty);
        assert(head.push(0x0a) + empty =~= contents);
        let first = split_seq(head, 0x0a);
        assert(before == first + seq![empty]);
        assert(pieces == first + tail);
        assert(pieces[first.len() as int] == line);
        assert(holds_key(pieces[first.len() as int], key));
        if authorizes(contents, other) {
            let i = choose|i: int| 0 <= i < before.len() && holds_key(#[trigger] before[i], other);
            if i < first.len() {
                assert(pieces[i] == before[i]);
            } else {
                assert(before[i] == empty);
                assert(key_line(empty).len() == 0);
            }
        }
    }
}

// --------------------------------------------------
// Steps
// --------------------------------------------------

/// The steps that create the directory.
pub open spec fn directory_steps(path: Seq<u8>) -> Seq<StepView> {
    seq![
        bare_deed(Ask::MakeDirectory { path, mode: SSH_DIRECTORY_MODE }),
        bare_deed(Ask::SetMode { path, mode: SSH_DIRECTORY_MODE }),
    ]
}

/// The steps that write a public key.
pub open spec fn public_key_steps(path: Seq<u8>, line: Seq<u8>) -> Seq<StepView> {
    seq![
        bare_deed(Ask::CreateFile { path, mode: SSH_PUBLIC_KEY_MODE }),
        bare_deed(Ask::SetMode { path, mode: SSH_PUBLIC_KEY_MODE }),
        bare_deed(Ask::Write { path, contents: line.push(0x0a) }),
        bare_deed(Ask::SyncOpen(path)),
    ]
}

/// The check that a key was created.
pub open spec fn created_key_step(path: Seq<u8>) -> StepView {
    step(
        Ask::Inspect(path),
        Demand::Kind(FileKind::Regular),
        about("SSH key was not created: "@, path),
        about("SSH key must be a non-symlink regular file: "@, path),
    )
}

/// The steps that follow the generation of a pair of keys.
pub open spec fn pair_steps(private: Seq<u8>, public: Seq<u8>) -> Seq<StepView> {
    seq![
        created_key_step(private),
        created_key_step(public),
        bare_deed(Ask::SetMode { path: private, mode: SSH_PRIVATE_KEY_MODE }),
        bare_deed(Ask::SetMode { path: public, mode: SSH_PUBLIC_KEY_MODE }),
    ]
}

/// The steps that replace the list of keys.
pub open spec fn replace_steps(
    path: Seq<u8>,
    temporary: Seq<u8>,
    contents: Seq<u8>,
    mode: u32,
) -> Seq<StepView> {
    seq![
        bare_deed(Ask::CreateFile { path: temporary, mode }),
        bare_deed(Ask::SetMode { path: temporary, mode }),
        bare_deed(Ask::Write { path: temporary, contents }),
        bare_deed(Ask::SyncOpen(temporary)),
        bare_deed(Ask::Rename { source: temporary, destination: path }),
    ]
}

fn make_directory(path: &[u8]) -> (script: Script)
    ensures
        script.begins(directory_steps(path@), Tidy::Nothing),
{
    let mut steps = no_steps();
    add_step(
        &mut steps,
        Step::bare_deed(
            Request::MakeDirectory { path: copy_bytes(path), mode: SSH_DIRECTORY_MODE },
        ),
    );
    add_step(
        &mut steps,
        Step::bare_deed(Request::SetMode { path: copy_bytes(path), mode: SSH_DIRECTORY_MODE }),
    );
    assert(step_views(steps@) =~= directory_steps(path@));
    Script::new(steps, Cleanup::Nothing)
}

/// Writes a public key to a path that must be free; the file is removed after a
/// failure.
pub fn write_new_public_key(path: &[u8], key: &SshPublicKey) -> (script: Script)
    ensures
        script.begins(
            public_key_steps(path@, key.line@),
            Tidy::From { remove: Ask::RemoveFile(path@), step: 1 },
        ),
{
    let mut contents = copy_bytes(&key.line);
    contents.push(0x0a);
    let mut steps = no_steps();
    add_step(
        &mut steps,
        Step::bare_deed(Request::CreateFile { path: copy_bytes(path), mode: SSH_PUBLIC_KEY_MODE }),
    );
    add_step(
        &mut steps,
        Step::bare_deed(Request::SetMode { path: copy_bytes(path), mode: SSH_PUBLIC_KEY_MODE }),
    );
    add_step(&mut steps, Step::bare_deed(Request::Write { path: copy_bytes(path), contents }));
    add_step(&mut steps, Step::bare_deed(Request::SyncOpen(copy_bytes(path))));
    assert(step_views(steps@) =~= public_key_steps(path@, key.line@));
    Script::new(steps, Cleanup::From { remove: Request::RemoveFile(copy_bytes(path)), step: 1 })
}

fn created_key(path: &[u8]) -> (made: Step)
    ensures
        made@ == created_key_step(path@),
{
    Step::new(
        Request::Inspect(copy_bytes(path)),
        Check::Kind(FileKind::Regular),
        message_at("SSH key was not created: ", path),
        message_at("SSH key must be a non-symlink regular file: ", path),
    )
}

fn check_pair(private: &[u8], public: &[u8]) -> (script: Script)
    ensures
        script.begins(pair_steps(private@, public@), Tidy::Nothing),
{
    let mut steps = no_steps();
    add_step(&mut steps, created_key(private));
    add_step(&mut steps, created_key(public));
    add_step(
        &mut steps,
        Step::bare_deed(Request::SetMode { path: copy_bytes(private), mode: SSH_PRIVATE_KEY_MODE }),
    );
    add_step(
        &mut steps,
        Step::bare_deed(Request::SetMode { path: copy_bytes(public), mode: SSH_PUBLIC_KEY_MODE }),
    );
    assert(step_views(steps@) =~= pair_steps(private@, public@));
    Script::new(steps, Cleanup::Nothing)
}

/// Replaces the list of keys by one with one more key; the temporary file is removed
/// after a failure.
pub fn replace_authorized_keys(
    path: &[u8],
    temporary: &[u8],
    existing: &[u8],
    key: &SshPublicKey,
    mode: u32,
) -> (script: Script)
    ensures
        script.begins(
            replace_steps(path@, temporary@, with_key(existing@, key.line@), mode),
            Tidy::From { remove: Ask::RemoveFile(temporary@), step: 1 },
        ),
{
    let contents = append_key(existing, &key.line);
    let mut steps = no_steps();
    add_step(
        &mut steps,
        Step::bare_deed(Request::CreateFile { path: copy_bytes(temporary), mode }),
    );
    add_step(&mut steps, Step::bare_deed(Request::SetMode { path: copy_bytes(temporary), mode }));
    add_step(&mut steps, Step::bare_deed(Request::Write { path: copy_bytes(temporary), contents }));
    add_step(&mut steps, Step::bare_deed(Request::SyncOpen(copy_bytes(temporary))));
    add_step(
        &mut steps,
        Step::bare_deed(
            Request::Rename { source: copy_bytes(temporary), destination: copy_bytes(path) },
        ),
    );
    assert(step_views(steps@) =~= replace_steps(
        path@,
        temporary@,
        with_key(existing@, key.line@),
        mode,
    ));
    Script::new(
        steps,
        Cleanup::From { remove: Request::RemoveFile(copy_bytes(temporary)), step: 1 },
    )
}

// --------------------------------------------------
// Programs
// --------------------------------------------------

/// The program that derives the public key of a private one.
pub open spec fn derive_program(private: Seq<u8>) -> ProgramView {
    plain_program(
        encode_utf8("ssh-keygen"@),
        seq![encode_utf8("-y"@), encode_utf8("-f"@), private],
    )
}

/// The program that generates a pair of keys.
pub open spec fn generate_program(private: Seq<u8>, user: Seq<u8>) -> ProgramView {
    plain_program(
        encode_utf8("ssh-keygen"@),
        seq![
            encode_utf8("-t"@),
            encode_utf8("ed25519"@),
            encode_utf8("-f"@),
            private,
            encode_utf8("-N"@),
            Seq::empty(),
            encode_utf8("-C"@),
            user + encode_utf8("@cad"@),
        ],
    )
}

fn derive_command(private: &[u8]) -> (program: Program)
    ensures
        program@ == derive_program(private@),
{
    let mut arguments = no_bytes();
    add_bytes(&mut arguments, text_bytes("-y"));
    add_bytes(&mut arguments, text_bytes("-f"));
    add_bytes(&mut arguments, copy_bytes(private));
    assert(views(arguments@) =~= seq![encode_utf8("-y"@), encode_utf8("-f"@), private@]);
    Program::plain(text_bytes("ssh-keygen"), arguments)
}

fn generate_command(private: &[u8], user: &[u8]) -> (program: Program)
    ensures
        program@ == generate_program(private@, user@),
{
    let mut comment = copy_bytes(user);
    append_bytes(&mut comment, &text_bytes("@cad"));
    let mut arguments = no_bytes();
    add_bytes(&mut arguments, text_bytes("-t"));
    add_bytes(&mut arguments, text_bytes("ed25519"));
    add_bytes(&mut arguments, text_bytes("-f"));
    add_bytes(&mut arguments, copy_bytes(private));
    add_bytes(&mut arguments, text_bytes("-N"));
    add_bytes(&mut arguments, Vec::new());
    add_bytes(&mut arguments, text_bytes("-C"));
    add_bytes(&mut arguments, comment);
    assert(views(arguments@) =~= seq![
        encode_utf8("-t"@),
        encode_utf8("ed25519"@),
        encode_utf8("-f"@),
        private@,
        encode_utf8("-N"@),
        Seq::empty(),
        encode_utf8("-C"@),
        user@ + encode_utf8("@cad"@),
    ]);
    Program::plain(text_bytes("ssh-keygen"), arguments)
}

/// Why a program that was run has no result: what is said where it could not be run,
/// and where it failed.
pub open spec fn run_problem(reply: Reply, unstarted: Seq<char>, failed: Seq<char>) -> Option<
    (Seq<char>, Option<Seq<char>>),
> {
    match reply {
        Reply::Failed(fault) => Some((unstarted, Some(fault.text@))),
        Reply::Exited { success, errors, .. } => if success {
            None
        } else {
            Some((failed + trimmed(lossy_text(errors@)), None))
        },
        _ => Some((unanswered(), None)),
    }
}

/// What a program that was run has printed, or why there is nothing.
pub fn run_output(reply: Reply, unstarted: &str, failed: &str) -> (result: Result<Vec<u8>, Failure>)
    ensures
        match run_problem(reply, unstarted@, failed@) {
            Some(words) => result is Err && is_failure(result->Err_0, words),
            None => reply is Exited && result == Ok::<Vec<u8>, Failure>(reply->output),
        },
{
    match reply {
        Reply::Failed(fault) => Err(Failure::caused(unstarted, &fault.text)),
        Reply::Exited { success, output, errors, .. } => {
            if success {
                return Ok(output);
            }
            let shown = show_bytes(&errors);
            let chars = chars_of(&shown);
            Err(Failure::plain(&concat(failed, &text_of(trim(&chars)))))
        },
        _ => Err(Failure::plain("unexpected reply")),
    }
}

// --------------------------------------------------
// The setup
// --------------------------------------------------

/// Where the key of the user comes from.
#[derive(Clone, Copy, Debug, PartialEq, Eq, Structural)]
pub enum KeyOrigin {
    /// Both keys were there.
    Existing,
    /// The public key was derived from the private one.
    Derived,
    /// Both keys are new.
    Generated,
}

/// What the setup has come to.
#[derive(Clone, Copy, Debug, PartialEq, Eq, Structural)]
pub enum SshSetupResult {
    ExistingAuthorized,
    CreatedPublic { authorization_added: bool },
    Generated { authorization_added: bool },
    ExistingAuthorizedAdded,
}

/// What the setup has come to.
pub open spec fn setup_result(origin: KeyOrigin, added: bool) -> SshSetupResult {
    match origin {
        KeyOrigin::Existing => if added {
            SshSetupResult::ExistingAuthorizedAdded
        } else {
            SshSetupResult::ExistingAuthorized
        },
        KeyOrigin::Derived => SshSetupResult::CreatedPublic { authorization_added: added },
        KeyOrigin::Generated => SshSetupResult::Generated { authorization_added: added },
    }
}

fn result_of(origin: KeyOrigin, added: bool) -> (result: SshSetupResult)
    ensures
        result == setup_result(origin, added),
{
    match origin {
        KeyOrigin::Existing => if added {
            SshSetupResult::ExistingAuthorizedAdded
        } else {
            SshSetupResult::ExistingAuthorized
        },
        KeyOrigin::Derived => SshSetupResult::CreatedPublic { authorization_added: added },
        KeyOrigin::Generated => SshSetupResult::Generated { authorization_added: added },
    }
}

/// How far the setup has come.
#[derive(Debug)]
pub enum SshPhase {
    /// The directory is looked at.
    Directory,
    /// The directory is created.
    Making(Script),
    /// The private key is looked at.
    Private,
    /// The public key is looked at.
    Public { private: bool },
    /// The list of keys is looked at.
    Keys { private: bool, public: bool },
    /// The public key is derived from the private one.
    Deriving { public: bool },
    /// The public key that is there is read.
    Comparing { derived: SshPublicKey },
    /// The derived public key is written.
    Writing { script: Script, key: SshPublicKey },
    /// A pair of keys is generated.
    Generating,
    /// The new keys are checked.
    Checking(Script),
    /// The new public key is read.
    Reading,
    /// The list of keys is read.
    Listing { key: SshPublicKey, origin: KeyOrigin },
    /// The permissions of the list are looked at.
    Measuring { key: SshPublicKey, origin: KeyOrigin, existing: Vec<u8> },
    /// The list is replaced.
    Replacing { script: Script, origin: KeyOrigin },
    /// The new private key is removed after this failure.
    RemovingPrivate(Failure),
    /// The new public key is removed after this failure.
    RemovingPublic(Failure),
    Completed(SshSetupResult),
    Failed(Failure),
}

/// The setup of the key of the user.
#[derive(Debug)]
pub struct SshSetup {
    pub directory: Vec<u8>,
    pub private_key: Vec<u8>,
    pub public_key: Vec<u8>,
    pub authorized_keys: Vec<u8>,
    pub temporary: Vec<u8>,
    pub user: Option<Vec<u8>>,
    pub phase: SshPhase,
}

/// The name of the temporary list of keys.
pub open spec fn temporary_name(process: u64, sequence: u64) -> Seq<char> {
    ".authorized_keys.eiyah."@ + decimal(process as nat) + "."@ + decimal(sequence as nat)
}

/// Begins to set up the key of a user; numbers tell the temporary file apart.
pub fn bootstrap_ssh(home: &[u8], user: Option<Vec<u8>>, process: u64, sequence: u64) -> (setup:
    SshSetup)
    ensures
        setup.begins(home@, user, process, sequence),
{
    let directory = join_text(home, ".ssh");
    let mut name = ".authorized_keys.eiyah.".to_owned();
    name.append(&decimal_text(process));
    name.append(".");
    name.append(&decimal_text(sequence));
    let private_key = join_text(&directory, "id_ed25519");
    let public_key = join_text(&directory, "id_ed25519.pub");
    let authorized_keys = join_text(&directory, "authorized_keys");
    let temporary = join_text(&directory, &name);
    let named = match user {
        Some(user) => if user.len() > 0 {
            Some(user)
        } else {
            None
        },
        None => None,
    };
    SshSetup {
        directory,
        private_key,
        public_key,
        authorized_keys,
        temporary,
        user: named,
        phase: SshPhase::Directory,
    }
}

/// Whether an optional file is there; an error where something else is.
pub open spec fn optional_file(path: Seq<u8>, reply: Reply) -> Result<bool, Seq<char>> {
    match reply {
        Reply::Found(entry) => if entry.kind == FileKind::Regular {
            Ok(true)
        } else {
            Err(about("SSH path must be a non-symlink regular file: "@, path))
        },
        Reply::Failed(fault) => if fault.kind == FaultKind::NotFound {
            Ok(false)
        } else {
            Err(fault.text@)
        },
        _ => Err(unanswered()),
    }
}

/// Whether an optional file is there; an error where something else is.
pub fn validate_optional_regular_file(path: &[u8], reply: Reply) -> (result: Result<bool, Failure>)
    ensures
        match optional_file(path@, reply) {
            Ok(there) => result == Ok::<bool, Failure>(there),
            Err(words) => result is Err && result->Err_0.says(words),
        },
{
    match reply {
        Reply::Found(entry) => if entry.kind == FileKind::Regular {
            Ok(true)
        } else {
            Err(Failure::at("SSH path must be a non-symlink regular file: ", path))
        },
        Reply::Failed(fault) => if fault.kind == FaultKind::NotFound {
            Ok(false)
        } else {
            Err(Failure::plain(&fault.text))
        },
        _ => Err(Failure::plain("unexpected reply")),
    }
}

impl SshSetup {
    /// Whether the setup of the key of a user begins.
    pub open spec fn begins(
        &self,
        home: Seq<u8>,
        user: Option<Vec<u8>>,
        process: u64,
        sequence: u64,
    ) -> bool {
        &&& self.directory@ == under(home, ".ssh"@)
        &&& self.private_key@ == under(under(home, ".ssh"@), "id_ed25519"@)
        &&& self.public_key@ == under(under(home, ".ssh"@), "id_ed25519.pub"@)
        &&& self.authorized_keys@ == under(under(home, ".ssh"@), "authorized_keys"@)
        &&& self.temporary@ == under(under(home, ".ssh"@), temporary_name(process, sequence))
        &&& user is Some && user->0@.len() > 0 ==> self.user == user
        &&& !(user is Some && user->0@.len() > 0) ==> self.user is None
        &&& self.phase is Directory
    }

    pub open spec fn asks(&self) -> Ask {
        match self.phase {
            SshPhase::Directory => Ask::Inspect(self.directory@),
            SshPhase::Making(script) => script.asks(),
            SshPhase::Private => Ask::Inspect(self.private_key@),
            SshPhase::Public { .. } => Ask::Inspect(self.public_key@),
            SshPhase::Keys { .. } => Ask::Inspect(self.authorized_keys@),
            SshPhase::Deriving { .. } => Ask::Capture(derive_program(self.private_key@)),
            SshPhase::Comparing { .. } => Ask::Read(self.public_key@),
            SshPhase::Writing { script, .. } => script.asks(),
            SshPhase::Generating => match self.user {
                Some(user) => Ask::Capture(generate_program(self.private_key@, user@)),
                None => Ask::Nothing,
            },
            SshPhase::Checking(script) => script.asks(),
            SshPhase::Reading => Ask::Read(self.public_key@),
            SshPhase::Listing { .. } => Ask::Read(self.authorized_keys@),
            SshPhase::Measuring { .. } => Ask::Inspect(self.authorized_keys@),
            SshPhase::Replacing { script, .. } => script.asks(),
            SshPhase::RemovingPrivate(_) => Ask::RemoveFile(self.private_key@),
            SshPhase::RemovingPublic(_) => Ask::RemoveFile(self.public_key@),
            SshPhase::Completed(_) => Ask::Nothing,
            SshPhase::Failed(_) => Ask::Nothing,
        }
    }

    /// What the keys that are there call for.
    pub open spec fn after_look(&self, private: bool, public: bool, next: SshPhase) -> bool {
        if private {
            next == (SshPhase::Deriving { public })
        } else if public {
            next is Failed && next->Failed_0.says("SSH public key exists without its private key"@)
        } else if self.user is None {
            next is Failed && next->Failed_0.says("USER is unavailable"@)
        } else {
            next is Generating
        }
    }

    /// What follows once the permissions of the list are known.
    pub open spec fn replaces(
        &self,
        key: SshPublicKey,
        origin: KeyOrigin,
        existing: Vec<u8>,
        mode: u32,
        next: SshPhase,
    ) -> bool {
        &&& next is Replacing
        &&& next->Replacing_origin == origin
        &&& next->Replacing_script.begins(
            replace_steps(
                self.authorized_keys@,
                self.temporary@,
                with_key(existing@, key.line@),
                mode,
            ),
            Tidy::From { remove: Ask::RemoveFile(self.temporary@), step: 1 },
        )
    }

    /// What the setup does with a reply.
    pub open spec fn follows(&self, reply: Reply, next: SshPhase) -> bool {
        match self.phase {
            SshPhase::Directory => match reply {
                Reply::Found(entry) => if entry.kind == FileKind::Directory {
                    next is Private
                } else {
                    next is Failed && next->Failed_0.says(
                        about("SSH path must be a non-symlink directory: "@, self.directory@),
                    )
                },
                Reply::Failed(fault) => if fault.kind == FaultKind::NotFound {
                    next is Making && next->Making_0.begins(
                        directory_steps(self.directory@),
                        Tidy::Nothing,
                    )
                } else {
                    next is Failed && next->Failed_0.says(fault.text@)
                },
                _ => next is Failed && next->Failed_0.says(unanswered()),
            },
            SshPhase::Making(script) => match script.after(reply).phase {
                Phase::Completed => next is Private,
                Phase::Failed { step, fault } => next is Failed && tells(
                    step_views(script.steps@),
                    step as int,
                    fault,
                    next->Failed_0,
                ),
                _ => next == SshPhase::Making(script.after(reply)),
            },
            SshPhase::Private => match optional_file(self.private_key@, reply) {
                Ok(private) => next == (SshPhase::Public { private }),
                Err(words) => next is Failed && next->Failed_0.says(words),
            },
            SshPhase::Public { private } => match optional_file(self.public_key@, reply) {
                Ok(public) => next == (SshPhase::Keys { private, public }),
                Err(words) => next is Failed && next->Failed_0.says(words),
            },
            SshPhase::Keys { private, public } => match optional_file(self.authorized_keys@, reply) {
                Ok(_) => self.after_look(private, public, next),
                Err(words) => next is Failed && next->Failed_0.says(words),
            },
            SshPhase::Deriving { public } => match run_problem(
                reply,
                "failed to execute ssh-keygen -y"@,
                "ssh-keygen -y failed: "@,
            ) {
                Some(words) => next is Failed && is_failure(next->Failed_0, words),
                None => match key_of(reply->output@) {
                    None => next is Failed && next->Failed_0.says(key_problem(reply->output@)),
                    Some(key) => if public {
                        next is Comparing && next->derived@ == key
                    } else {
                        next is Writing && next->Writing_key@ == key
                            && next->Writing_script.begins(
                            public_key_steps(self.public_key@, key.line),
                            Tidy::From { remove: Ask::RemoveFile(self.public_key@), step: 1 },
                        )
                    },
                },
            },
            SshPhase::Comparing { derived } => match read_reply(reply) {
                None => next is Failed && next->Failed_0.says(unanswered()),
                Some(Err(fault)) => next is Failed && next->Failed_0.says(fault.text@),
                Some(Ok(contents)) => match key_of(contents@) {
                    None => next is Failed && next->Failed_0.says(key_problem(contents@)),
                    Some(key) => if same_key(derived@, key) {
                        next is Listing && next->Listing_key@ == key && next->Listing_origin
                            == KeyOrigin::Existing
                    } else {
                        next is Failed && next->Failed_0.says(
                            "SSH private and public keys do not match"@,
                        )
                    },
                },
            },
            SshPhase::Writing { script, key } => match script.after(reply).phase {
                Phase::Completed => next == (SshPhase::Listing { key, origin: KeyOrigin::Derived }),
                Phase::Failed { step, fault } => next is Failed && tells(
                    step_views(script.steps@),
                    step as int,
                    fault,
                    next->Failed_0,
                ),
                _ => next == (SshPhase::Writing { script: script.after(reply), key }),
            },
            SshPhase::Generating => match run_problem(
                reply,
                "failed to execute ssh-keygen"@,
                "ssh-keygen failed: "@,
            ) {
                Some(words) => next is Failed && is_failure(next->Failed_0, words),
                None => next is Checking && next->Checking_0.begins(
                    pair_steps(self.private_key@, self.public_key@),
                    Tidy::Nothing,
                ),
            },
            SshPhase::Checking(script) => match script.after(reply).phase {
                Phase::Completed => next is Reading,
                Phase::Failed { step, fault } => next is RemovingPrivate && tells(
                    step_views(script.steps@),
                    step as int,
                    fault,
                    next->RemovingPrivate_0,
                ),
                _ => next == SshPhase::Checking(script.after(reply)),
            },
            SshPhase::Reading => match read_reply(reply) {
                None => next is RemovingPrivate && next->RemovingPrivate_0.says(unanswered()),
                Some(Err(fault)) => next is RemovingPrivate && next->RemovingPrivate_0.says(
                    fault.text@,
                ),
                Some(Ok(contents)) => match key_of(contents@) {
                    None => next is RemovingPrivate && next->RemovingPrivate_0.says(
                        key_problem(contents@),
                    ),
                    Some(key) => next is Listing && next->Listing_key@ == key
                        && next->Listing_origin == KeyOrigin::Generated,
                },
            },
            SshPhase::Listing { key, origin } => match read_reply(reply) {
                None => next is Failed && next->Failed_0.says(unanswered()),
                Some(Err(fault)) => if fault.kind == FaultKind::NotFound {
                    next is Measuring && next->Measuring_key == key && next->Measuring_origin
                        == origin && next->existing@.len() == 0
                } else {
                    next is Failed && next->Failed_0.says(fault.text@)
                },
                Some(Ok(existing)) => if authorizes(existing@, key@) {
                    next == SshPhase::Completed(setup_result(origin, false))
                } else {
                    next == (SshPhase::Measuring { key, origin, existing })
                },
            },
            SshPhase::Measuring { key, origin, existing } => match reply {
                Reply::Found(entry) => self.replaces(
                    key,
                    origin,
                    existing,
                    entry.mode & 0o7777,
                    next,
                ),
                Reply::Failed(fault) => if fault.kind == FaultKind::NotFound {
                    self.replaces(key, origin, existing, AUTHORIZED_KEYS_MODE, next)
                } else {
                    next is Failed && next->Failed_0.says(fault.text@)
                },
                _ => next is Failed && next->Failed_0.says(unanswered()),
            },
            SshPhase::Replacing { script, origin } => match script.after(reply).phase {
                Phase::Completed => next == SshPhase::Completed(setup_result(origin, true)),
                Phase::Failed { step, fault } => next is Failed && tells(
                    step_views(script.steps@),
                    step as int,
                    fault,
                    next->Failed_0,
                ),
                _ => next == (SshPhase::Replacing { script: script.after(reply), origin }),
            },
            SshPhase::RemovingPrivate(failure) => next == SshPhase::RemovingPublic(failure),
            SshPhase::RemovingPublic(failure) => next == SshPhase::Failed(failure),
            SshPhase::Completed(_) => next == self.phase,
            SshPhase::Failed(_) => next == self.phase,
        }
    }

    pub fn request(&self) -> (request: Request)
        ensures
            request@ == self.asks(),
    {
        match &self.phase {
            SshPhase::Directory => Request::Inspect(copy_bytes(&self.directory)),
            SshPhase::Making(script) => script.wanted(),
            SshPhase::Private => Request::Inspect(copy_bytes(&self.private_key)),
            SshPhase::Public { .. } => Request::Inspect(copy_bytes(&self.public_key)),
            SshPhase::Keys { .. } => Request::Inspect(copy_bytes(&self.authorized_keys)),
            SshPhase::Deriving { .. } => Request::Capture(derive_command(&self.private_key)),
            SshPhase::Comparing { .. } => Request::Read(copy_bytes(&self.public_key)),
            SshPhase::Writing { script, .. } => script.wanted(),
            SshPhase::Generating => match &self.user {
                Some(user) => Request::Capture(generate_command(&self.private_key, user)),
                None => Request::Nothing,
            },
            SshPhase::Checking(script) => script.wanted(),
            SshPhase::Reading => Request::Read(copy_bytes(&self.public_key)),
            SshPhase::Listing { .. } => Request::Read(copy_bytes(&self.authorized_keys)),
            SshPhase::Measuring { .. } => Request::Inspect(copy_bytes(&self.authorized_keys)),
            SshPhase::Replacing { script, .. } => script.wanted(),
            SshPhase::RemovingPrivate(_) => Request::RemoveFile(copy_bytes(&self.private_key)),
            SshPhase::RemovingPublic(_) => Request::RemoveFile(copy_bytes(&self.public_key)),
            SshPhase::Completed(_) => Request::Nothing,
            SshPhase::Failed(_) => Request::Nothing,
        }
    }

    /// Goes on with a reply.
    #[verifier::rlimit(60)]
    pub fn advance(self, reply: Reply) -> (next: SshSetup)
        ensures
            next.directory == self.directory,
            next.private_key == self.private_key,
            next.public_key == self.public_key,
            next.authorized_keys == self.authorized_keys,
            next.temporary == self.temporary,
            next.user == self.user,
            self.follows(reply, next.phase),
    {
        let SshSetup {
            directory,
            private_key,
            public_key,
            authorized_keys,
            temporary,
            user,
            phase,
        } = self;
        let next = match phase {
            SshPhase::Directory => match reply {
                Reply::Found(entry) => if entry.kind == FileKind::Directory {
                    SshPhase::Private
                } else {
                    SshPhase::Failed(
                        Failure::at("SSH path must be a non-symlink directory: ", &directory),
                    )
                },
                Reply::Failed(fault) => if fault.kind == FaultKind::NotFound {
                    SshPhase::Making(make_directory(&directory))
                } else {
                    SshPhase::Failed(Failure::plain(&fault.text))
                },
                _ => SshPhase::Failed(Failure::plain("unexpected reply")),
            },
            SshPhase::Making(script) => match script.progress(reply) {
                Progress::Going(script) => SshPhase::Making(script),
                Progress::Completed => SshPhase::Private,
                Progress::Broken(failure) => SshPhase::Failed(failure),
            },
            SshPhase::Private => match validate_optional_regular_file(&private_key, reply) {
                Ok(private) => SshPhase::Public { private },
                Err(failure) => SshPhase::Failed(failure),
            },
            SshPhase::Public { private } => match validate_optional_regular_file(
                &public_key,
                reply,
            ) {
                Ok(public) => SshPhase::Keys { private, public },
                Err(failure) => SshPhase::Failed(failure),
            },
            SshPhase::Keys { private, public } => match validate_optional_regular_file(
                &authorized_keys,
                reply,
            ) {
                Err(failure) => SshPhase::Failed(failure),
                Ok(_) => if private {
                    SshPhase::Deriving { public }
                } else if public {
                    SshPhase::Failed(
                        Failure::plain("SSH public key exists without its private key"),
                    )
                } else {
                    match &user {
                        None => SshPhase::Failed(Failure::plain("USER is unavailable")),
                        Some(_) => SshPhase::Generating,
                    }
                },
            },
            SshPhase::Deriving { public } => match run_output(
                reply,
                "failed to execute ssh-keygen -y",
                "ssh-keygen -y failed: ",
            ) {
                Err(failure) => SshPhase::Failed(failure),
                Ok(output) => match parse_public_key(&output) {
                    Err(failure) => SshPhase::Failed(failure),
                    Ok(key) => if public {
                        SshPhase::Comparing { derived: key }
                    } else {
                        SshPhase::Writing { script: write_new_public_key(&public_key, &key), key }
                    },
                },
            },
            SshPhase::Comparing { derived } => match contents_of(reply) {
                None => SshPhase::Failed(Failure::plain("unexpected reply")),
                Some(Err(fault)) => SshPhase::Failed(Failure::plain(&fault.text)),
                Some(Ok(contents)) => match parse_public_key(&contents) {
                    Err(failure) => SshPhase::Failed(failure),
                    Ok(key) => if same_public_key(&derived, &key) {
                        SshPhase::Listing { key, origin: KeyOrigin::Existing }
                    } else {
                        SshPhase::Failed(Failure::plain("SSH private and public keys do not match"))
                    },
                },
            },
            SshPhase::Writing { script, key } => match script.progress(reply) {
                Progress::Going(script) => SshPhase::Writing { script, key },
                Progress::Completed => SshPhase::Listing { key, origin: KeyOrigin::Derived },
                Progress::Broken(failure) => SshPhase::Failed(failure),
            },
            SshPhase::Generating => match run_output(
                reply,
                "failed to execute ssh-keygen",
                "ssh-keygen failed: ",
            ) {
                Err(failure) => SshPhase::Failed(failure),
                Ok(_) => SshPhase::Checking(check_pair(&private_key, &public_key)),
            },
            SshPhase::Checking(script) => match script.progress(reply) {
                Progress::Going(script) => SshPhase::Checking(script),
                Progress::Completed => SshPhase::Reading,
                Progress::Broken(failure) => SshPhase::RemovingPrivate(failure),
            },
            SshPhase::Reading => match contents_of(reply) {
                None => SshPhase::RemovingPrivate(Failure::plain("unexpected reply")),
                Some(Err(fault)) => SshPhase::RemovingPrivate(Failure::plain(&fault.text)),
                Some(Ok(contents)) => match parse_public_key(&contents) {
                    Err(failure) => SshPhase::RemovingPrivate(failure),
                    Ok(key) => SshPhase::Listing { key, origin: KeyOrigin::Generated },
                },
            },
            SshPhase::Listing { key, origin } => match contents_of(reply) {
                None => SshPhase::Failed(Failure::plain("unexpected reply")),
                Some(Err(fault)) => if fault.kind == FaultKind::NotFound {
                    SshPhase::Measuring { key, origin, existing: Vec::new() }
                } else {
                    SshPhase::Failed(Failure::plain(&fault.text))
                },
                Some(Ok(existing)) => if is_authorized(&existing, &key) {
                    SshPhase::Completed(result_of(origin, false))
                } else {
                    SshPhase::Measuring { key, origin, existing }
                },
            },
            SshPhase::Measuring { key, origin, existing } => match reply {
                Reply::Found(entry) => SshPhase::Replacing {
                    script: replace_authorized_keys(
                        &authorized_keys,
                        &temporary,
                        &existing,
                        &key,
                        entry.mode & 0o7777,
                    ),
                    origin,
                },
                Reply::Failed(fault) => if fault.kind == FaultKind::NotFound {
                    SshPhase::Replacing {
                        script: replace_authorized_keys(
                            &authorized_keys,
                            &temporary,
                            &existing,
                            &key,
                            AUTHORIZED_KEYS_MODE,
                        ),
                        origin,
                    }
                } else {
                    SshPhase::Failed(Failure::plain(&fault.text))
                },
                _ => SshPhase::Failed(Failure::plain("unexpected reply")),
            },
            SshPhase::Replacing { script, origin } => match script.progress(reply) {
                Progress::Going(script) => SshPhase::Replacing { script, origin },
                Progress::Completed => SshPhase::Completed(result_of(origin, true)),
                Progress::Broken(failure) => SshPhase::Failed(failure),
            },
            SshPhase::RemovingPrivate(failure) => SshPhase::RemovingPublic(failure),
            SshPhase::RemovingPublic(failure) => SshPhase::Failed(failure),
            SshPhase::Completed(result) => SshPhase::Completed(result),
            SshPhase::Failed(failure) => SshPhase::Failed(failure),
        };
        SshSetup {
            directory,
            private_key,
            public_key,
            authorized_keys,
            temporary,
            user,
            phase: next,
        }
    }
}

/// The setup is complete only where the key is authorized: it was found in the list,
/// or the list with it has taken the place of the old one.
pub proof fn a_completed_setup_is_authorized(setup: SshSetup, reply: Reply, next: SshPhase)
    requires
        setup.follows(reply, next),
        next is Completed,
        !(setup.phase is Completed),
    ensures
        (setup.phase is Listing && reply is Contents && authorizes(
            reply->Contents_0@,
            setup.phase->Listing_key@,
        )) || (setup.phase is Replacing && setup.phase->Replacing_script.after(reply).phase
            == Phase::Completed),
{
}

/// Keys that were there are never removed or written over: the requests that could do
/// so are made only behind the generation of a pair, for which both were missing.
pub proof fn existing_keys_are_kept(setup: SshSetup, reply: Reply, next: SshPhase)
    requires
        setup.follows(reply, next),
        next is Generating && !(setup.phase is Generating) || next is RemovingPrivate && !(
        setup.phase is RemovingPrivate) || next is Checking && !(setup.phase is Checking),
    ensures
        next is Generating ==> setup.phase == (SshPhase::Keys { private: false, public: false }),
        next is Checking ==> setup.phase is Generating,
        next is RemovingPrivate ==> setup.phase is Checking || setup.phase is Reading,
{
}

/// Whether the line has the type as its first field and the data as its second one.
pub open spec fn carries(line: Seq<u8>, kind: Seq<u8>, data: Seq<u8>) -> bool {
    exists|lead: Seq<u8>, gap: Seq<u8>, rest: Seq<u8>| #[trigger]
        carries_between(line, kind, data, lead, gap, rest)
}

/// Whether the line is the type and the data with these blanks around them and this
/// rest behind them.
pub open spec fn carries_between(
    line: Seq<u8>,
    kind: Seq<u8>,
    data: Seq<u8>,
    lead: Seq<u8>,
    gap: Seq<u8>,
    rest: Seq<u8>,
) -> bool {
    &&& line == lead + kind + gap + data + rest
    &&& are_blank(lead)
    &&& is_word(kind)
    &&& are_blank(gap)
    &&& gap.len() > 0
    &&& is_word(data)
    &&& rest.len() > 0 ==> are_blank(seq![rest[0]])
}

/// A text that holds a key has the key's type as its first field and the key's data
/// as its second one, byte for byte.
pub proof fn a_key_is_carried_by_its_text(content: Seq<u8>)
    requires
        key_of(content) is Some,
    ensures
        carries(content, key_of(content)->0.key_type, key_of(content)->0.key_data),
{
    let line = key_line(content);
    let key = key_of(content)->0;
    let first = lemma_first_field(line);
    assert(byte_fields(line)[0] == first.1);
    assert(byte_fields(line)[1] == byte_fields(first.2)[0]);
    let second = lemma_first_field(first.2);
    assert(byte_fields(first.2)[0] == second.1);
    if second.0.len() == 0 {
        assert(first.2[0] == second.1[0]);
        assert(seq![first.2[0]][0] == first.2[0]);
        assert(false);
    }
    let (front, back) = lemma_key_line(content);
    let lead = front + first.0;
    let rest = second.2 + back;
    assert(content =~= lead + key.key_type + second.0 + key.key_data + rest);
    assert forall|i: int| #![trigger lead[i]] 0 <= i < lead.len() implies are_blank(seq![lead[i]]) by {
        if i < front.len() {
            assert(lead[i] == front[i]);
        } else {
            assert(lead[i] == first.0[i - front.len()]);
        }
    }
    assert(are_blank(lead)) by {
        assert forall|i: int| #![trigger lead[i]] 0 <= i < lead.len() implies is_ascii_space(lead[i]) by {
            assert(are_blank(seq![lead[i]]));
            assert(seq![lead[i]][0] == lead[i]);
        }
    }
    if rest.len() > 0 {
        if second.2.len() > 0 {
            assert(rest[0] == second.2[0]);
        } else {
            assert(rest[0] == back[0]);
        }
    }
    assert(carries_between(content, key.key_type, key.key_data, lead, second.0, rest));
}

/// What is trimmed from a text are blanks.
proof fn lemma_key_line(content: Seq<u8>) -> (around: (Seq<u8>, Seq<u8>))
    ensures
        content == around.0 + key_line(content) + around.1,
        are_blank(around.0),
        are_blank(around.1),
{
    let front = lemma_trimmed_front(content);
    let back = lemma_trimmed_back(trim_front(content));
    assert(content =~= front + key_line(content) + back);
    (front, back)
}

proof fn lemma_trimmed_front(s: Seq<u8>) -> (front: Seq<u8>)
    ensures
        s == front + trim_front(s),
        are_blank(front),
    decreases s.len(),
{
    if s.len() > 0 && is_ascii_space(s[0]) {
        let rest = lemma_trimmed_front(s.drop_first());
        let front = seq![s[0]] + rest;
        assert(s =~= seq![s[0]] + s.drop_first());
        assert(front + trim_front(s) =~= seq![s[0]] + (rest + trim_front(s.drop_first())));
        assert forall|i: int| #![trigger front[i]] 0 <= i < front.len() implies is_ascii_space(front[i]) by {
            if i > 0 {
                assert(front[i] == rest[i - 1]);
            }
        }
        front
    } else {
        assert(s =~= Seq::<u8>::empty() + s);
        Seq::empty()
    }
}

proof fn lemma_trimmed_back(s: Seq<u8>) -> (back: Seq<u8>)
    ensures
        s == trim_back(s) + back,
        are_blank(back),
    decreases s.len(),
{
    if s.len() > 0 && is_ascii_space(s.last()) {
        let rest = lemma_trimmed_back(s.drop_last());
        let back = rest.push(s.last());
        assert(s =~= s.drop_last().push(s.last()));
        assert(trim_back(s) + back =~= (trim_back(s.drop_last()) + rest).push(s.last()));
        assert forall|i: int| #![trigger back[i]] 0 <= i < back.len() implies is_ascii_space(back[i]) by {
            if i < rest.len() {
                assert(back[i] == rest[i]);
            }
        }
        back
    } else {
        assert(s =~= s + Seq::<u8>::empty());
        Seq::empty()
    }
}

/// A line without line breaks that has a type and data as its first two fields holds
/// that key.
pub proof fn a_carried_key_is_read(line: Seq<u8>, kind: Seq<u8>, data: Seq<u8>)
    requires
        carries(line, kind, data),
        !line.contains(0x0a),
        !line.contains(0x0d),
    ensures
        key_of(line) is Some,
        key_of(line)->0.key_type == kind,
        key_of(line)->0.key_data == data,
{
    let (lead, gap, rest) = choose|lead: Seq<u8>, gap: Seq<u8>, rest: Seq<u8>| #[trigger]
        carries_between(line, kind, data, lead, gap, rest);
    let back = lemma_trimmed_back(rest);
    let tail = trim_back(rest);
    let middle = kind + gap + data + tail;
    assert(line =~= lead + middle + back);
    assert(seq![middle[0]][0] == kind[0]);
    assert(is_word(seq![middle[0]]));
    if tail.len() > 0 {
        lemma_trim_back_stays(rest);
        assert(middle.last() == tail.last());
        assert(!is_ascii_space(tail.last()));
    } else {
        assert(middle.last() == data.last());
        assert(data.last() == data[data.len() - 1]);
    }
    assert(is_word(seq![middle.last()])) by {
        assert(seq![middle.last()][0] == middle.last());
    }
    trimming_takes_the_blanks_around(lead, middle, back);
    assert(key_line(line) == middle);
    let second = data + tail;
    let none = Seq::<u8>::empty();
    assert(middle =~= none + kind + (gap + data + tail));
    assert(seq![(gap + data + tail)[0]][0] == gap[0]);
    fields_are_the_words_between_blanks(none, kind, gap + data + tail);
    if tail.len() > 0 {
        lemma_trim_back_stays(rest);
        assert(tail[0] == rest[0]);
    }
    fields_are_the_words_between_blanks(gap, data, tail);
    assert forall|byte: u8| #[trigger] middle.contains(byte) implies line.contains(byte) by {
        let i = choose|i: int| 0 <= i < middle.len() && middle[i] == byte;
        assert(line[lead.len() + i] == byte);
    }
}

/// A list authorizes a key only if one of its lines has the key's type as its first
/// field and the key's data as its second one, byte for byte.
pub proof fn an_authorized_key_stands_on_a_line(contents: Seq<u8>, key: Key)
    requires
        authorizes(contents, key),
    ensures
        exists|before: Seq<u8>, line: Seq<u8>, behind: Seq<u8>| #[trigger]
            lies_between(contents, 0x0a, before, line, behind) && carries(
                line,
                key.key_type,
                key.key_data,
            ),
{
    let pieces = split_seq(contents, 0x0a);
    let i = choose|i: int| 0 <= i < pieces.len() && holds_key(#[trigger] pieces[i], key);
    let line = pieces[i];
    a_key_is_carried_by_its_text(line);
    assert(pieces.contains(line));
    pieces_lie_between_separators(contents, 0x0au8, line);
    let (before, behind) = choose|before: Seq<u8>, behind: Seq<u8>| #[trigger]
        lies_between(contents, 0x0a, before, line, behind);
    assert(lies_between(contents, 0x0a, before, line, behind));
}

/// A key is authorized by a list with a line, free of carriage returns, that has the
/// key's type as its first field and the key's data as its second one.
pub proof fn a_key_on_a_line_is_authorized(
    contents: Seq<u8>,
    before: Seq<u8>,
    line: Seq<u8>,
    behind: Seq<u8>,
    key: Key,
)
    requires
        lies_between(contents, 0x0a, before, line, behind),
        carries(line, key.key_type, key.key_data),
        !line.contains(0x0d),
    ensures
        authorizes(contents, key),
{
    a_carried_key_is_read(line, key.key_type, key.key_data);
    pieces_lie_between_separators(contents, 0x0au8, line);
    let pieces = split_seq(contents, 0x0a);
    let i = choose|i: int| 0 <= i < pieces.len() && pieces[i] == line;
    assert(holds_key(pieces[i], key));
}

/// Where no line of the list carries the key, the setup goes on to write the list
/// with the key's line behind it, under the name of the list.
pub proof fn a_missing_key_is_appended(
    setup: SshSetup,
    reply: Reply,
    next: SshPhase,
    found: Reply,
    last: SshPhase,
)
    requires
        setup.phase is Listing,
        reply is Contents,
        setup.follows(reply, next),
        forall|before: Seq<u8>, line: Seq<u8>, behind: Seq<u8>| #[trigger]
            lies_between(reply->Contents_0@, 0x0a, before, line, behind) ==> !carries(
                line,
                setup.phase->Listing_key.key_type@,
                setup.phase->Listing_key.key_data@,
            ),
        found is Found || (found is Failed && found->Failed_0.kind == FaultKind::NotFound),
        (SshSetup { phase: next, ..setup }).follows(found, last),
    ensures
        next is Measuring,
        last is Replacing,
        exists|mark: Seq<u8>|
            mark.len() <= 1 && last->Replacing_script.steps@.len() == 5
                && last->Replacing_script.steps@[2].request@ == (Ask::Write {
                path: setup.temporary@,
                contents: reply->Contents_0@ + #[trigger] (mark + setup.phase->Listing_key.line@
                    + seq![0x0au8]),
            }) && (mark.len() == 1 ==> mark[0] == 0x0a),
        last->Replacing_script.steps@[4].request@ == (Ask::Rename {
            source: setup.temporary@,
            destination: setup.authorized_keys@,
        }),
{
    let key = setup.phase->Listing_key;
    let contents = reply->Contents_0@;
    if authorizes(contents, key@) {
        an_authorized_key_stands_on_a_line(contents, key@);
    }
    let script = last->Replacing_script;
    let none = Seq::<u8>::empty();
    let views = step_views(script.steps@);
    assert(views.len() == 5);
    assert(views[2] == script.steps@[2]@ && views[4] == script.steps@[4]@);
    let mark = if contents.len() > 0 && contents.last() != 0x0a {
        seq![0x0au8]
    } else {
        none
    };
    assert(with_key(contents, key.line@) =~= contents + (mark + key.line@ + seq![0x0au8]));
}

/// A setup goes on with a key only where it belongs to the private key: it was derived
/// from it, or it was read and has the type and the data of the derived one, or the
/// pair was just generated.
pub proof fn only_a_matching_key_is_authorized(setup: SshSetup, reply: Reply, next: SshPhase)
    requires
        setup.follows(reply, next),
        next is Listing,
    ensures
        setup.phase is Comparing ==> next->Listing_key.key_type@ == setup.phase->derived.key_type@
            && next->Listing_key.key_data@ == setup.phase->derived.key_data@
            && next->Listing_origin == KeyOrigin::Existing,
        setup.phase is Writing ==> next->Listing_key == setup.phase->Writing_key
            && next->Listing_origin == KeyOrigin::Derived,
        setup.phase is Reading ==> next->Listing_origin == KeyOrigin::Generated,
        setup.phase is Comparing || setup.phase is Writing || setup.phase is Reading,
{
}

/// What the files that are there call for: a private key is asked for its public one,
/// a public key alone is refused, and a pair is generated only where neither is there
/// and the user is known.
pub proof fn the_keys_decide(setup: SshSetup, reply: Reply, next: SshPhase)
    requires
        setup.phase is Keys,
        setup.follows(reply, next),
    ensures
        next is Deriving <==> setup.phase->Keys_private && (reply is Found
            && reply->Found_0.kind == FileKind::Regular || reply is Failed
            && reply->Failed_0.kind == FaultKind::NotFound),
        next is Deriving ==> next->Deriving_public == setup.phase->Keys_public,
        next is Generating <==> !setup.phase->Keys_private && !setup.phase->Keys_public
            && setup.user is Some && (reply is Found && reply->Found_0.kind == FileKind::Regular
            || reply is Failed && reply->Failed_0.kind == FaultKind::NotFound),
        !(next is Deriving) && !(next is Generating) ==> next is Failed,
{
}

/// What the report says: whether a key was generated, whether its public part was
/// written and whether the list of keys was changed.
pub proof fn the_result_tells_what_was_done(origin: KeyOrigin, added: bool)
    ensures
        setup_result(origin, added) is Generated <==> origin == KeyOrigin::Generated,
        setup_result(origin, added) is CreatedPublic <==> origin == KeyOrigin::Derived,
        setup_result(origin, added) is ExistingAuthorized <==> origin == KeyOrigin::Existing
            && !added,
        setup_result(origin, added) is ExistingAuthorizedAdded <==> origin == KeyOrigin::Existing
            && added,
        setup_result(origin, added) is Generated ==> setup_result(
            origin,
            added,
        )->Generated_authorization_added == added,
        setup_result(origin, added) is CreatedPublic ==> setup_result(
            origin,
            added,
        )->CreatedPublic_authorization_added == added,
        setup_result(origin, added).has_changed() <==> origin != KeyOrigin::Existing || added,
{
}

// --------------------------------------------------
// Reports
// --------------------------------------------------

impl SshSetupResult {
    /// Whether the setup has changed anything.
    pub open spec fn has_changed(&self) -> bool {
        !(self is ExistingAuthorized)
    }

    /// Whether the setup has changed anything.
    pub fn changed(&self) -> (yes: bool)
        ensures
            yes == self.has_changed(),
    {
        match self {
            SshSetupResult::ExistingAuthorized => false,
            _ => true,
        }
    }
}

/// What is said of the list of keys.
pub open spec fn authorization_line(authorized_keys: Seq<u8>, added: bool) -> Seq<char> {
    if added {
        about("Added SSH key to: "@, authorized_keys) + "\n"@
    } else {
        "SSH key is already authorized.\n"@
    }
}

/// The report of a setup.
pub open spec fn setup_report(home: Seq<u8>, result: SshSetupResult) -> Seq<char> {
    let existing = about("Using existing SSH key: "@, under(home, ".ssh/id_ed25519"@)) + "\n"@;
    let keys = under(home, ".ssh/authorized_keys"@);
    match result {
        SshSetupResult::ExistingAuthorized => existing + authorization_line(keys, false),
        SshSetupResult::CreatedPublic { authorization_added } => existing + about(
            "Created: "@,
            under(home, ".ssh/id_ed25519.pub"@),
        ) + "\n"@ + authorization_line(keys, authorization_added),
        SshSetupResult::Generated { authorization_added } => about(
            "Generated ED25519 SSH key: "@,
            under(home, ".ssh/id_ed25519"@),
        ) + "\n"@ + authorization_line(keys, authorization_added),
        SshSetupResult::ExistingAuthorizedAdded => existing + authorization_line(keys, true),
    }
}

fn authorization(authorized_keys: &[u8], added: bool) -> (line: String)
    ensures
        line@ == authorization_line(authorized_keys@, added),
{
    if added {
        let mut line = message_at("Added SSH key to: ", authorized_keys);
        line.append("\n");
        line
    } else {
        "SSH key is already authorized.\n".to_owned()
    }
}

/// The report of a setup.
pub fn write_ssh_setup(home: &[u8], result: SshSetupResult) -> (text: String)
    ensures
        text@ == setup_report(home@, result),
{
    let private_key = join_text(home, ".ssh/id_ed25519");
    let public_key = join_text(home, ".ssh/id_ed25519.pub");
    let keys = join_text(home, ".ssh/authorized_keys");
    let mut existing = message_at("Using existing SSH key: ", &private_key);
    existing.append("\n");
    match result {
        SshSetupResult::ExistingAuthorized => {
            existing.append(&authorization(&keys, false));
            existing
        },
        SshSetupResult::CreatedPublic { authorization_added } => {
            existing.append(&message_at("Created: ", &public_key));
            existing.append("\n");
            existing.append(&authorization(&keys, authorization_added));
            existing
        },
        SshSetupResult::Generated { authorization_added } => {
            let mut text = message_at("Generated ED25519 SSH key: ", &private_key);
            text.append("\n");
            text.append(&authorization(&keys, authorization_added));
            text
        },
        SshSetupResult::ExistingAuthorizedAdded => {
            existing.append(&authorization(&keys, true));
            existing
        },
    }
}

/// Says of a failure behind the setup that the setup stays, where it has changed
/// anything.
pub fn add_ssh_residual_warning(result: Result<(), UserFacingError>, ssh: SshSetupResult) -> (
warned: Result<(), UserFacingError>)
    ensures
        match result {
            Ok(()) => warned is Ok,
            Err(error) => if ssh.has_changed() {
                &&& warned is Err
                &&& warned->Err_0.message == error.message
                &&& warned->Err_0.warnings@.len() == error.warnings@.len() + 1
                &&& warned->Err_0.warnings@.drop_last() == error.warnings@
                &&& warned->Err_0.warnings@.last()@
                    == "SSH changes made during setup were not reverted."@
                &&& warned->Err_0.hints == error.hints
            } else {
                warned == result
            },
        },
{
    match result {
        Ok(()) => Ok(()),
        Err(error) => {
            if ssh.changed() {
                let ghost before = error.warnings@;
                let warned = error.with_warning(
                    "SSH changes made during setup were not reverted.".to_owned(),
                );
                assert(warned.warnings@.drop_last() =~= before);
                return Err(warned);
            }
            Err(error)
        },
    }
}

} // verus!
