//! What is told of the host and the installation, and where it comes from: each value
//! stands behind its label, and each is taken from the answer that was asked for.

use crate::backup::index_temporary_name;
use crate::backup_index::{entry_path, index_content, rendered_index, sound_until, EntryError};
use crate::config::{homes_problem, keep_problem, DiscoverError, Homes, LoadError, ResolvedPaths};
use crate::device::{instructions, DeviceCodeResponse};
use crate::doctor::{diagnosis_places, found_in, managed_in, replies_needed, Findings};
use crate::host::{Ask, Entry, Fault, FaultKind, Reply};
use crate::paths::under;
use crate::private_release::{archive_address, asset_address, latest_address};
use crate::storage::temporary_name;
use crate::system::{config_report, first_line_of, os_release_field, report_in, report_questions};
use crate::system::{HostReport, SystemConfig};
use crate::text::{decimal, lossy_text, numbers_are_read_back};
use crate::ui::{diagnostic_line, operation_line};
use vstd::prelude::*;
use vstd::utf8::{decode_utf8, encode_utf8, valid_utf8};

verus! {

// --------------------------------------------------
// Reports
// --------------------------------------------------

/// Every value stands behind its label, one to a line and in this order; a value that is
/// not known is shown as such.
pub proof fn each_value_stands_behind_its_label(config: SystemConfig)
    ensures
        ({
            let known = |value: Option<String>|
                if value is Some {
                    value->0@
                } else {
                    "N/A"@
                };
            let lines = config_report(config);
            lines == ("EIYAH_VERSION: "@ + config.eiyah_version@ + "\n"@)
                + ("ORIGIN: "@ + config.origin@ + "\n"@)
                + ("EIYAH_PREFIX: "@ + lossy_text(config.eiyah_prefix@) + "\n"@)
                + ("EIYAH_CONFIG: "@ + lossy_text(config.eiyah_config@) + "\n"@)
                + ("DOTFILES: "@ + lossy_text(config.dotfiles@) + "\n"@)
                + ("PIXI_HOME: "@ + lossy_text(config.pixi_home@) + "\n"@)
                + "\n"@
                + ("Pixi: "@ + known(config.pixi) + "\n"@)
                + ("Zsh: "@ + known(config.zsh) + "\n"@)
                + ("Login shell: "@ + known(config.login_shell) + "\n"@)
                + ("Bash: "@ + known(config.bash) + "\n"@)
                + ("Curl: "@ + known(config.curl) + "\n"@)
                + "\n"@
                + ("OS: "@ + known(config.os) + "\n"@)
                + ("Kernel: "@ + known(config.kernel) + "\n"@)
                + ("Architecture: "@ + known(config.architecture) + "\n"@)
                + ("Host glibc: "@ + known(config.host_glibc) + "\n"@)
        }),
{
}

/// Whether a program that was run at this place with this argument is asked for.
pub open spec fn is_run_of(asked: Ask, executable: Seq<u8>, argument: Seq<char>) -> bool {
    match asked {
        Ask::Capture(program) => {
            &&& program.executable == executable
            &&& program.arguments.len() == 1
            &&& program.arguments[0] == encode_utf8(argument)
            &&& program.directory is None
            &&& program.set.len() == 0
            &&& program.unset.len() == 0
        },
        _ => false,
    }
}

/// Whether a value is the first line that a program has printed: there is one exactly
/// where the program has ended well and printed a line with something on it.
pub open spec fn is_first_printed(value: Option<String>, reply: Reply) -> bool {
    &&& value is Some <==> reply is Exited && first_line_of(
        reply->success,
        reply->output@,
    ) is Some
    &&& value is Some ==> value->0@ == first_line_of(reply->success, reply->output@)->0
}

/// Whether a value is that of a field in the description of the operating system.
pub open spec fn is_field_value(value: Option<String>, reply: Reply, name: Seq<char>) -> bool {
    &&& value is Some <==> reply is Contents && valid_utf8(reply->Contents_0@)
        && os_release_field(decode_utf8(reply->Contents_0@), name) is Some
    &&& value is Some ==> value->0@ == os_release_field(
        decode_utf8(reply->Contents_0@),
        name,
    )->0
}

/// Each value of a report is the answer to the question that asks for it: the version of
/// a program is what that program says of itself.
pub proof fn a_report_takes_each_value_from_its_answer(
    paths: ResolvedPaths,
    report: HostReport,
    shell: Option<Vec<u8>>,
    replies: Seq<Reply>,
)
    requires
        report_in(report, shell, replies),
    ensures
        ({
            let asked = report_questions(paths);
            &&& asked.len() == replies.len() == 8
            &&& is_run_of(asked[0], under(paths.pixi_home@, "bin/pixi"@), "--version"@)
            &&& is_run_of(asked[1], under(paths.pixi_home@, "bin/zsh"@), "--version"@)
            &&& is_run_of(asked[2], encode_utf8("/usr/bin/bash"@), "--version"@)
            &&& is_run_of(asked[3], encode_utf8("curl"@), "--version"@)
            &&& asked[4] == Ask::Read(encode_utf8("/etc/os-release"@))
            &&& is_run_of(asked[5], encode_utf8("uname"@), "-r"@)
            &&& is_run_of(asked[6], encode_utf8("uname"@), "-m"@)
            &&& is_run_of(asked[7], encode_utf8("getconf"@), "GNU_LIBC_VERSION"@)
        }),
        is_first_printed(report.pixi, replies[0]),
        is_first_printed(report.zsh, replies[1]),
        is_first_printed(report.bash, replies[2]),
        is_first_printed(report.curl, replies[3]),
        is_field_value(report.os, replies[4], "PRETTY_NAME"@),
        is_first_printed(report.kernel, replies[5]),
        is_first_printed(report.architecture, replies[6]),
        is_first_printed(report.host_glibc, replies[7]),
        report.login_shell is Some <==> shell is Some && shell->0@.len() > 0 && valid_utf8(
            shell->0@,
        ),
        report.login_shell is Some ==> encode_utf8(report.login_shell->0@) == shell->0@,
{
    broadcast use vstd::utf8::decode_utf8_encode_utf8;

}

/// A diagnosis needs the answers to all that it asks, and what it finds of the host, of
/// the dotfiles and of the installation is what those answers say.
pub proof fn a_diagnosis_finds_what_it_was_answered(
    found: Findings,
    home: Result<Vec<u8>, String>,
    installed: Result<ResolvedPaths, String>,
    shell: Option<Vec<u8>>,
    replies: Seq<Reply>,
)
    requires
        found_in(found, home, installed, shell, replies),
    ensures
        home is Err ==> replies_needed(home, installed) == diagnosis_places(None, None).len(),
        home is Ok && installed is Err ==> replies_needed(home, installed) == diagnosis_places(
            Some(home->Ok_0@),
            None,
        ).len(),
        home is Ok && installed is Ok ==> replies_needed(home, installed) == diagnosis_places(
            Some(home->Ok_0@),
            Some(installed->Ok_0),
        ).len(),
        found.shell == shell,
        ({
            let asked = diagnosis_places(
                if home is Ok {
                    Some(home->Ok_0@)
                } else {
                    None
                },
                if installed is Ok {
                    Some(installed->Ok_0)
                } else {
                    None
                },
            );
            &&& asked[0] == Ask::Read(encode_utf8("/etc/os-release"@))
            &&& is_run_of(asked[1], encode_utf8("uname"@), "-m"@)
            &&& is_run_of(asked[2], encode_utf8("getconf"@), "GNU_LIBC_VERSION"@)
            &&& home is Ok ==> asked[3] == Ask::InspectTarget(under(home->Ok_0@, ".dotfiles"@))
        }),
        is_field_value(found.host.os, replies[0], "PRETTY_NAME"@),
        is_field_value(found.host.os_id, replies[0], "ID"@),
        is_field_value(found.host.os_version, replies[0], "VERSION_ID"@),
        is_first_printed(found.host.architecture, replies[1]),
        is_first_printed(found.host.glibc, replies[2]),
        match found.home {
            Err(reason) => home == Err::<Vec<u8>, String>(reason),
            Ok((place, dotfiles, installation)) => {
                &&& home == Ok::<Vec<u8>, String>(place)
                &&& replies[3] is Found ==> dotfiles == Ok::<Entry, Fault>(replies[3]->Found_0)
                &&& !(replies[3] is Found) ==> dotfiles is Err
                &&& match installation {
                    Err(reason) => installed == Err::<ResolvedPaths, String>(reason),
                    Ok((paths, managed)) => installed == Ok::<ResolvedPaths, String>(paths)
                        && managed_in(managed, replies),
                }
            },
        },
{
}

// --------------------------------------------------
// Messages
// --------------------------------------------------

/// A user is shown the code and the address to enter it at, each as it was given; the
/// style only surrounds the code.
pub proof fn a_code_is_shown_with_its_address(device: DeviceCodeResponse)
    ensures
        instructions(device, false) == "First copy your one-time code: "@ + device.user_code@
            + "\n"@ + "Then open "@ + device.verification_uri@ + " in your browser.\n"@
            + "Waiting for authorization...\n"@,
        instructions(device, true) == "First copy your one-time code: "@ + ("\x1b[1m"@
            + device.user_code@ + "\x1b[0m"@) + "\n"@ + "Then open "@ + device.verification_uri@
            + " in your browser.\n"@ + "Waiting for authorization...\n"@,
{
}

/// An operation is announced on a line of its own behind an arrow.
pub proof fn an_operation_is_announced_behind_an_arrow(message: Seq<char>)
    ensures
        operation_line(message, false) == "==> "@ + message + "\n"@,
        operation_line(message, true) == "\x1b[94m"@ + "==>"@ + "\x1b[0m"@ + " "@ + "\x1b[1m"@
            + message + "\x1b[0m"@ + "\n"@,
{
}

/// A styled message differs from a plain one by the style of its label alone.
pub proof fn a_label_has_its_style(message: Seq<char>)
    ensures
        diagnostic_line("Error"@, message, true) == "\x1b[1;91m"@ + "Error"@ + "\x1b[0m"@ + ": "@
            + message + "\n"@,
        diagnostic_line("Warning"@, message, true) == "\x1b[1;93m"@ + "Warning"@ + "\x1b[0m"@
            + ": "@ + message + "\n"@,
        diagnostic_line("Hint"@, message, true) == "\x1b[1;96m"@ + "Hint"@ + "\x1b[0m"@ + ": "@
            + message + "\n"@,
        forall|label: Seq<char>| #[trigger]
            diagnostic_line(label, message, false) == label + ": "@ + message + "\n"@,
{
    reveal_strlit("Error");
    reveal_strlit("Warning");
    reveal_strlit("Hint");
    assert("Error"@[0] != "Warning"@[0]);
    assert("Error"@[0] != "Hint"@[0]);
    assert("Warning"@[0] != "Hint"@[0]);
}

/// The release, its archive and its assets are fetched from one repository; an asset is
/// named by its number and an archive by its tag.
pub proof fn a_release_is_fetched_from_its_repository(tag: Seq<char>, id: u64)
    ensures
        ({
            let repository = "https://api.github.com/repos/"@ + "su-ito-lab/eiyah-core"@;
            &&& latest_address() == repository + "/releases/latest"@
            &&& archive_address(tag) == repository + "/tarball/"@ + tag
            &&& asset_address(id) == repository + "/releases/assets/"@ + decimal(id as nat)
        }),
{
}

// --------------------------------------------------
// Names of temporary files
// --------------------------------------------------

proof fn lemma_numbers_apart(first: u64, second: u64, third: u64, fourth: u64, between: char)
    requires
        !('0' <= between <= '9'),
        decimal(first as nat) + seq![between] + decimal(second as nat) == decimal(third as nat)
            + seq![between] + decimal(fourth as nat),
    ensures
        first == third,
        second == fourth,
{
    numbers_are_read_back(first);
    numbers_are_read_back(second);
    numbers_are_read_back(third);
    numbers_are_read_back(fourth);
    let left = decimal(first as nat) + seq![between] + decimal(second as nat);
    let right = decimal(third as nat) + seq![between] + decimal(fourth as nat);
    let a = decimal(first as nat);
    let c = decimal(third as nat);
    assert(left[a.len() as int] == between);
    assert(right[c.len() as int] == between);
    if a.len() < c.len() {
        assert(right[a.len() as int] == c[a.len() as int]);
        assert(false);
    }
    if c.len() < a.len() {
        assert(left[c.len() as int] == a[c.len() as int]);
        assert(false);
    }
    assert(a =~= left.take(a.len() as int));
    assert(c =~= right.take(a.len() as int));
    assert(decimal(second as nat) =~= left.skip(a.len() as int + 1));
    assert(decimal(fourth as nat) =~= right.skip(a.len() as int + 1));
}

/// Two temporary indexes have one name only where the process and the number are the
/// same.
pub proof fn a_temporary_index_has_its_own_name(
    process: u64,
    sequence: u64,
    other_process: u64,
    other_sequence: u64,
)
    requires
        index_temporary_name(process, sequence) == index_temporary_name(
            other_process,
            other_sequence,
        ),
    ensures
        process == other_process,
        sequence == other_sequence,
        ".index.tmp-"@.is_prefix_of(index_temporary_name(process, sequence)),
{
    reveal_strlit("-");
    let start = ".index.tmp-"@;
    let name = index_temporary_name(process, sequence);
    let other = index_temporary_name(other_process, other_sequence);
    assert("-"@ =~= seq!['-']);
    assert(name =~= start + (decimal(process as nat) + seq!['-'] + decimal(sequence as nat)));
    assert(other =~= start + (decimal(other_process as nat) + seq!['-'] + decimal(
        other_sequence as nat,
    )));
    assert(name.skip(start.len() as int) =~= decimal(process as nat) + seq!['-'] + decimal(
        sequence as nat,
    ));
    assert(other.skip(start.len() as int) =~= decimal(other_process as nat) + seq!['-'] + decimal(
        other_sequence as nat,
    ));
    lemma_numbers_apart(process, sequence, other_process, other_sequence, '-');
    assert(name.take(start.len() as int) =~= start);
}

/// Two temporary lists of keys have one name only where the process and the number are
/// the same.
pub proof fn a_temporary_list_of_keys_has_its_own_name(
    process: u64,
    sequence: u64,
    other_process: u64,
    other_sequence: u64,
)
    requires
        crate::ssh::temporary_name(process, sequence) == crate::ssh::temporary_name(
            other_process,
            other_sequence,
        ),
    ensures
        process == other_process,
        sequence == other_sequence,
        ".authorized_keys.eiyah."@.is_prefix_of(crate::ssh::temporary_name(process, sequence)),
{
    reveal_strlit(".");
    let start = ".authorized_keys.eiyah."@;
    let name = crate::ssh::temporary_name(process, sequence);
    let other = crate::ssh::temporary_name(other_process, other_sequence);
    assert("."@ =~= seq!['.']);
    assert(name =~= start + (decimal(process as nat) + seq!['.'] + decimal(sequence as nat)));
    assert(other =~= start + (decimal(other_process as nat) + seq!['.'] + decimal(
        other_sequence as nat,
    )));
    assert(name.skip(start.len() as int) =~= decimal(process as nat) + seq!['.'] + decimal(
        sequence as nat,
    ));
    assert(other.skip(start.len() as int) =~= decimal(other_process as nat) + seq!['.'] + decimal(
        other_sequence as nat,
    ));
    lemma_numbers_apart(process, sequence, other_process, other_sequence, '.');
    assert(name.take(start.len() as int) =~= start);
}

/// Two temporary files for one file have one name only where the process and the number
/// are the same, and the name is the file's own behind a dot with an ending.
pub proof fn a_temporary_file_has_its_own_name(
    file: Seq<u8>,
    process: u64,
    sequence: u64,
    other_process: u64,
    other_sequence: u64,
)
    requires
        temporary_name(file, process, sequence) == temporary_name(
            file,
            other_process,
            other_sequence,
        ),
    ensures
        process == other_process,
        sequence == other_sequence,
        (seq![0x2eu8] + file).is_prefix_of(temporary_name(file, process, sequence)),
{
    broadcast use vstd::utf8::encode_utf8_decode_utf8;

    reveal_strlit("-");
    let front = seq![0x2eu8] + file;
    let start = ".tmp-"@;
    let name = start + decimal(process as nat) + "-"@ + decimal(sequence as nat);
    let other = start + decimal(other_process as nat) + "-"@ + decimal(other_sequence as nat);
    let path = temporary_name(file, process, sequence);
    let other_path = temporary_name(file, other_process, other_sequence);
    assert(path =~= front + encode_utf8(name));
    assert(other_path =~= front + encode_utf8(other));
    assert(path.skip(front.len() as int) =~= encode_utf8(name));
    assert(other_path.skip(front.len() as int) =~= encode_utf8(other));
    assert(decode_utf8(encode_utf8(name)) == name);
    assert(decode_utf8(encode_utf8(other)) == other);
    assert(name == other);
    assert("-"@ =~= seq!['-']);
    assert(name =~= start + (decimal(process as nat) + seq!['-'] + decimal(sequence as nat)));
    assert(other =~= start + (decimal(other_process as nat) + seq!['-'] + decimal(
        other_sequence as nat,
    )));
    assert(name.skip(start.len() as int) =~= decimal(process as nat) + seq!['-'] + decimal(
        sequence as nat,
    ));
    assert(other.skip(start.len() as int) =~= decimal(other_process as nat) + seq!['-'] + decimal(
        other_sequence as nat,
    ));
    lemma_numbers_apart(process, sequence, other_process, other_sequence, '-');
    assert(path.take(front.len() as int) =~= front);
}

// --------------------------------------------------
// Errors and indexes
// --------------------------------------------------

/// An installation that cannot be read counts as a damaged one exactly where something
/// is missing or has the wrong shape, not where reading it went wrong otherwise.
pub proof fn only_a_wrong_shape_is_damage(discover: DiscoverError, load: LoadError)
    ensures
        ({
            let wrong = |kind: FaultKind|
                kind == FaultKind::NotFound || kind == FaultKind::InvalidArgument || kind
                    == FaultKind::InvalidInput || kind == FaultKind::InvalidData;
            &&& discover.structural() <==> (discover matches DiscoverError::Unreadable(fault)
                ==> wrong(fault.kind))
            &&& load.structural() <==> (load matches LoadError::Unreadable(fault) ==> wrong(
                fault.kind,
            ))
        }),
{
}

/// The directories of an installation are kept exactly where all four are absolute and
/// are text.
pub proof fn only_absolute_text_is_kept(homes: Homes)
    ensures
        !keep_problem(homes) <==> homes_problem(homes) is None && valid_utf8(homes.config_home)
            && valid_utf8(homes.data_home) && valid_utf8(homes.state_home) && valid_utf8(
            homes.cache_home,
        ),
{
}

/// An index is written whole exactly where every entry is sound, and with the entries
/// before the first one that is not otherwise.
pub proof fn an_index_is_written_up_to_the_first_fault(
    entries: Seq<Seq<u8>>,
    content: Seq<u8>,
    refusal: Option<EntryError>,
    index: int,
)
    requires
        rendered_index(entries, content, refusal),
        0 <= index < entries.len(),
    ensures
        (forall|i: int| 0 <= i < entries.len() ==> entry_path(#[trigger] entries[i]) is Ok)
            ==> refusal is None && content == index_content(entries),
        entry_path(entries[index]) is Err && (forall|i: int|
            0 <= i < index ==> entry_path(#[trigger] entries[i]) is Ok) ==> {
            &&& refusal == Some(entry_path(entries[index])->Err_0)
            &&& content == index_content(entries.take(index))
        },
{
    let count = choose|count: int| #[trigger]
        sound_until(entries, count, refusal) && content == index_content(entries.take(count));
    assert(entries.take(entries.len() as int) =~= entries);
    if count < index {
        assert(refusal is Some);
        assert(entry_path(entries[count]) is Err);
    }
}

} // verus!
