//! What the host says about itself.

use crate::bytes::{copy_bytes, split_seq, text_bytes, views};
use crate::config::{ResolvedPaths, ORIGIN};
use crate::host::{program_with, run_with_argument, Ask, Reply, Request};
use crate::paths::{join_text, under};
use crate::survey::{add_request, asked_of, no_requests, Survey};
use crate::text::{chars_of, decode_text, has_prefix, lines, lines_of, lossy_text, number_of};
use crate::text::{parse_number, show_bytes, split_chars, text_of, trim, trimmed, words, words_of};
use vstd::prelude::*;
use vstd::utf8::{decode_utf8, encode_utf8, valid_utf8};

verus! {

/// The first of the lines with this prefix, without the prefix.
pub open spec fn value_behind(all: Seq<Seq<char>>, prefix: Seq<char>) -> Option<Seq<char>>
    decreases all.len(),
{
    if all.len() == 0 {
        None
    } else if prefix.is_prefix_of(all[0]) {
        Some(all[0].skip(prefix.len() as int))
    } else {
        value_behind(all.drop_first(), prefix)
    }
}

/// A text without the double quotes around it.
pub open spec fn unquoted(value: Seq<char>) -> Seq<char> {
    if value.len() >= 2 && value[0] == '"' && value.last() == '"' {
        value.subrange(1, value.len() - 1)
    } else {
        value
    }
}

/// The value of a field of an os-release file.
pub open spec fn os_release_field(contents: Seq<char>, name: Seq<char>) -> Option<Seq<char>> {
    match value_behind(lines_of(contents), name + "="@) {
        None => None,
        Some(value) => {
            let plain = unquoted(trimmed(value));
            if plain.len() == 0 {
                None
            } else {
                Some(plain)
            }
        },
    }
}

pub open spec fn is_quote(c: char) -> bool {
    c == '\'' || c == '"'
}

/// A text without the quotes before it.
pub open spec fn without_front_quotes(value: Seq<char>) -> Seq<char>
    decreases value.len(),
{
    if value.len() > 0 && is_quote(value[0]) {
        without_front_quotes(value.drop_first())
    } else {
        value
    }
}

/// A text without the quotes behind it.
pub open spec fn without_back_quotes(value: Seq<char>) -> Seq<char>
    decreases value.len(),
{
    if value.len() > 0 && is_quote(value.last()) {
        without_back_quotes(value.drop_last())
    } else {
        value
    }
}

/// The value of a field of an os-release file, without any quotes around it.
pub open spec fn os_release_raw(contents: Seq<char>, name: Seq<char>) -> Option<Seq<char>> {
    match value_behind(lines_of(contents), name + "="@) {
        None => None,
        Some(value) => Some(without_back_quotes(without_front_quotes(value))),
    }
}

/// The first of the lines with this prefix, without the prefix.
fn find_value(all: &Vec<Vec<char>>, prefix: &Vec<char>) -> (value: Option<Vec<char>>)
    ensures
        match value_behind(views(all@), prefix@) {
            Some(found) => value is Some && value->0@ == found,
            None => value is None,
        },
{
    let ghost list = views(all@);
    let mut index: usize = 0;
    assert(list.skip(0) =~= list);
    while index < all.len()
        invariant
            index <= all.len(),
            list == views(all@),
            value_behind(list, prefix@) == value_behind(list.skip(index as int), prefix@),
        decreases all.len() - index,
    {
        let line = &all[index];
        assert(list.skip(index as int)[0] == line@);
        assert(list.skip(index as int).drop_first() =~= list.skip(index + 1));
        if has_prefix(line, prefix) {
            let rest = vstd::slice::slice_subrange(line.as_slice(), prefix.len(), line.len());
            assert(rest@ =~= line@.skip(prefix@.len() as int));
            return Some(vstd::slice::slice_to_vec(rest));
        }
        index = index + 1;
    }
    None
}

fn field_prefix(name: &str) -> (prefix: Vec<char>)
    ensures
        prefix@ == name@ + "="@,
{
    let mut text = name.to_owned();
    text.append("=");
    chars_of(&text)
}

/// The value of a field of an os-release file; nothing where it is missing or empty.
pub fn parse_os_release_value(contents: &str, name: &str) -> (value: Option<String>)
    ensures
        match os_release_field(contents@, name@) {
            Some(found) => value is Some && value->0@ == found,
            None => value is None,
        },
{
    let all = lines(&chars_of(contents));
    match find_value(&all, &field_prefix(name)) {
        None => None,
        Some(value) => {
            let inner = trim(&value);
            let plain = if inner.len() >= 2 && inner[0] == '"' && inner[inner.len() - 1] == '"' {
                vstd::slice::slice_subrange(inner, 1, inner.len() - 1)
            } else {
                inner
            };
            if plain.len() == 0 {
                None
            } else {
                Some(text_of(plain))
            }
        },
    }
}

/// The value of a field of an os-release file, without any quotes around it.
pub fn os_release_value_from(contents: &str, name: &str) -> (value: Option<String>)
    ensures
        match os_release_raw(contents@, name@) {
            Some(found) => value is Some && value->0@ == found,
            None => value is None,
        },
{
    let all = lines(&chars_of(contents));
    match find_value(&all, &field_prefix(name)) {
        None => None,
        Some(value) => {
            let mut start: usize = 0;
            assert(value@.skip(0) =~= value@);
            while start < value.len() && (value[start] == '\'' || value[start] == '"')
                invariant
                    start <= value.len(),
                    without_front_quotes(value@) == without_front_quotes(value@.skip(start as int)),
                decreases value.len() - start,
            {
                assert(value@.skip(start as int)[0] == value@[start as int]);
                assert(value@.skip(start as int).drop_first() =~= value@.skip(start + 1));
                start = start + 1;
            }
            if start < value.len() {
                assert(value@.skip(start as int)[0] == value@[start as int]);
            }
            let ghost front = value@.skip(start as int);
            let mut end: usize = value.len();
            assert(value@.subrange(start as int, end as int) =~= front);
            while start < end && (value[end - 1] == '\'' || value[end - 1] == '"')
                invariant
                    start <= end <= value.len(),
                    without_back_quotes(front) == without_back_quotes(
                        value@.subrange(start as int, end as int),
                    ),
                decreases end - start,
            {
                let ghost rest = value@.subrange(start as int, end as int);
                assert(rest.last() == value@[end - 1]);
                assert(rest.drop_last() =~= value@.subrange(start as int, end - 1));
                end = end - 1;
            }
            if start < end {
                assert(value@.subrange(start as int, end as int).last() == value@[end - 1]);
            }
            Some(text_of(vstd::slice::slice_subrange(value.as_slice(), start, end)))
        },
    }
}

/// The first line that a program has printed, without the white space around it.
pub open spec fn first_line_of(success: bool, output: Seq<u8>) -> Option<Seq<char>> {
    if !success || !valid_utf8(output) {
        None
    } else {
        let all = lines_of(decode_utf8(output));
        if all.len() == 0 || trimmed(all[0]).len() == 0 {
            None
        } else {
            Some(trimmed(all[0]))
        }
    }
}

/// The first line that a program has printed; nothing where it failed or the line
/// is blank.
pub fn command_first_line(success: bool, output: &[u8]) -> (line: Option<String>)
    ensures
        match first_line_of(success, output@) {
            Some(found) => line is Some && line->0@ == found,
            None => line is None,
        },
{
    if !success {
        return None;
    }
    let text = match decode_text(output) {
        None => {
            return None;
        },
        Some(text) => text,
    };
    let all = lines(&chars_of(&text));
    assert(views(all@).len() == all@.len());
    if all.len() == 0 {
        return None;
    }
    assert(views(all@)[0] == all@[0]@);
    let line = trim(&all[0]);
    if line.len() == 0 {
        None
    } else {
        Some(text_of(line))
    }
}

/// The value of an environment variable; nothing where it is empty or not UTF-8.
pub fn optional_environment_string(value: Option<Vec<u8>>) -> (text: Option<String>)
    ensures
        text is Some <==> value is Some && value->0@.len() > 0 && valid_utf8(value->0@),
        text is Some ==> text->0@ == decode_utf8(value->0@),
{
    match value {
        None => None,
        Some(bytes) => if bytes.len() == 0 {
            None
        } else {
            decode_text(&bytes)
        },
    }
}

/// The two numbers before the first and the second dot.
pub open spec fn major_minor(value: Seq<char>) -> Option<(u64, u64)> {
    let fields = split_seq(value, '.');
    if fields.len() < 2 || number_of(fields[0]) is None || number_of(fields[1]) is None {
        None
    } else {
        Some((number_of(fields[0])->0, number_of(fields[1])->0))
    }
}

/// The two numbers that a version begins with.
pub fn parse_major_minor(value: &str) -> (version: Option<(u64, u64)>)
    ensures
        version == major_minor(value@),
{
    let fields = split_chars(&chars_of(value), '.');
    assert(views(fields@).len() == fields@.len());
    if fields.len() < 2 {
        return None;
    }
    assert(views(fields@)[0] == fields@[0]@ && views(fields@)[1] == fields@[1]@);
    match (parse_number(&fields[0]), parse_number(&fields[1])) {
        (Some(major), Some(minor)) => Some((major, minor)),
        _ => None,
    }
}

/// Whether a version is this one or a later one.
pub open spec fn at_least(version: Option<(u64, u64)>, major: u64, minor: u64) -> bool {
    match version {
        None => false,
        Some((found_major, found_minor)) => found_major > major || (found_major == major
            && found_minor >= minor),
    }
}

/// Whether a version is this one or a later one; one that cannot be read is not.
pub fn version_at_least(value: &str, major: u64, minor: u64) -> (yes: bool)
    ensures
        yes == at_least(major_minor(value@), major, minor),
{
    match parse_major_minor(value) {
        None => false,
        Some((actual_major, actual_minor)) => actual_major > major || (actual_major == major
            && actual_minor >= minor),
    }
}

/// The last word of a text; empty where there is none.
pub open spec fn last_word_of(text: Seq<char>) -> Seq<char> {
    if words_of(text).len() == 0 {
        Seq::empty()
    } else {
        words_of(text).last()
    }
}

/// The last word of a text; empty where there is none.
pub fn last_word(text: &str) -> (word: String)
    ensures
        word@ == last_word_of(text@),
{
    let found = words(&chars_of(text));
    assert(views(found@).len() == found@.len());
    if found.len() == 0 {
        let none = String::new();
        assert(none@ =~= Seq::<char>::empty());
        return none;
    }
    assert(views(found@).last() == found@[found@.len() - 1]@);
    text_of(&found[found.len() - 1])
}

// --------------------------------------------------
// The system configuration
// --------------------------------------------------

/// What is shown of the installation and the host.
#[derive(Debug, PartialEq, Eq)]
pub struct SystemConfig {
    pub eiyah_version: String,
    pub origin: String,
    pub eiyah_prefix: Vec<u8>,
    pub eiyah_config: Vec<u8>,
    pub dotfiles: Vec<u8>,
    pub pixi_home: Vec<u8>,
    pub pixi: Option<String>,
    pub zsh: Option<String>,
    pub login_shell: Option<String>,
    pub bash: Option<String>,
    pub curl: Option<String>,
    pub os: Option<String>,
    pub kernel: Option<String>,
    pub architecture: Option<String>,
    pub host_glibc: Option<String>,
}

/// What the host has said about itself.
#[derive(Debug)]
pub struct HostReport {
    pub pixi: Option<String>,
    pub zsh: Option<String>,
    pub login_shell: Option<String>,
    pub bash: Option<String>,
    pub curl: Option<String>,
    pub os: Option<String>,
    pub kernel: Option<String>,
    pub architecture: Option<String>,
    pub host_glibc: Option<String>,
}

/// Puts together what is shown of the installation and the host.
pub fn collect_system_config(version: &str, home: &[u8], paths: &ResolvedPaths, host: HostReport) -> (
config: SystemConfig)
    ensures
        config.eiyah_version@ == version@,
        config.origin@ == ORIGIN@,
        config.eiyah_prefix@ == paths.eiyah_prefix@,
        config.eiyah_config@ == paths.eiyah_config@,
        config.dotfiles@ == under(home@, ".dotfiles"@),
        config.pixi_home@ == paths.pixi_home@,
        config.pixi == host.pixi,
        config.zsh == host.zsh,
        config.login_shell == host.login_shell,
        config.bash == host.bash,
        config.curl == host.curl,
        config.os == host.os,
        config.kernel == host.kernel,
        config.architecture == host.architecture,
        config.host_glibc == host.host_glibc,
{
    SystemConfig {
        eiyah_version: version.to_owned(),
        origin: ORIGIN.to_owned(),
        eiyah_prefix: copy_bytes(&paths.eiyah_prefix),
        eiyah_config: copy_bytes(&paths.eiyah_config),
        dotfiles: join_text(home, ".dotfiles"),
        pixi_home: copy_bytes(&paths.pixi_home),
        pixi: host.pixi,
        zsh: host.zsh,
        login_shell: host.login_shell,
        bash: host.bash,
        curl: host.curl,
        os: host.os,
        kernel: host.kernel,
        architecture: host.architecture,
        host_glibc: host.host_glibc,
    }
}

/// The first line that a program has printed, by its reply.
pub open spec fn printed(reply: Reply) -> Option<Seq<char>> {
    match reply {
        Reply::Exited { success, output, .. } => first_line_of(success, output@),
        _ => None,
    }
}

/// A field of `/etc/os-release`, by the reply to reading it.
pub open spec fn system_field(reply: Reply, name: Seq<char>) -> Option<Seq<char>> {
    match reply {
        Reply::Contents(contents) => if valid_utf8(contents@) {
            os_release_field(decode_utf8(contents@), name)
        } else {
            None
        },
        _ => None,
    }
}

/// Whether a value is this text, or missing.
pub open spec fn is_text(value: Option<String>, text: Option<Seq<char>>) -> bool {
    match text {
        Some(text) => value is Some && value->0@ == text,
        None => value is None,
    }
}

/// Takes the last reply as that of a program that prints a line.
pub fn take_line(replies: &mut Vec<Reply>) -> (line: Option<String>)
    ensures
        old(replies)@.len() > 0 ==> is_text(line, printed(old(replies)@.last()))
            && final(replies)@ == old(replies)@.drop_last(),
        old(replies)@.len() == 0 ==> line is None && final(replies)@ == old(replies)@,
{
    match replies.pop() {
        Some(Reply::Exited { success, output, .. }) => command_first_line(success, &output),
        _ => None,
    }
}

/// A field of `/etc/os-release`; nothing where it could not be read.
pub fn os_release_value(reply: &Reply, name: &str) -> (value: Option<String>)
    ensures
        is_text(value, system_field(*reply, name@)),
{
    match reply {
        Reply::Contents(contents) => match decode_text(contents) {
            Some(text) => parse_os_release_value(&text, name),
            None => None,
        },
        _ => None,
    }
}

/// What the host is asked for the system configuration.
pub open spec fn report_questions(paths: ResolvedPaths) -> Seq<Ask> {
    seq![
        Ask::Capture(program_with(under(paths.pixi_home@, "bin/pixi"@), "--version"@)),
        Ask::Capture(program_with(under(paths.pixi_home@, "bin/zsh"@), "--version"@)),
        Ask::Capture(program_with(encode_utf8("/usr/bin/bash"@), "--version"@)),
        Ask::Capture(program_with(encode_utf8("curl"@), "--version"@)),
        Ask::Read(encode_utf8("/etc/os-release"@)),
        Ask::Capture(program_with(encode_utf8("uname"@), "-r"@)),
        Ask::Capture(program_with(encode_utf8("uname"@), "-m"@)),
        Ask::Capture(program_with(encode_utf8("getconf"@), "GNU_LIBC_VERSION"@)),
    ]
}

/// Asks the host for the system configuration.
pub fn report_survey(paths: &ResolvedPaths) -> (survey: Survey)
    ensures
        survey.begins(report_questions(*paths)),
{
    let pixi = join_text(&paths.pixi_home, "bin/pixi");
    let zsh = join_text(&paths.pixi_home, "bin/zsh");
    let mut requests = no_requests();
    add_request(&mut requests, Request::Capture(run_with_argument(&pixi, "--version")));
    add_request(&mut requests, Request::Capture(run_with_argument(&zsh, "--version")));
    add_request(
        &mut requests,
        Request::Capture(run_with_argument(&text_bytes("/usr/bin/bash"), "--version")),
    );
    add_request(
        &mut requests,
        Request::Capture(run_with_argument(&text_bytes("curl"), "--version")),
    );
    add_request(&mut requests, Request::Read(text_bytes("/etc/os-release")));
    add_request(&mut requests, Request::Capture(run_with_argument(&text_bytes("uname"), "-r")));
    add_request(&mut requests, Request::Capture(run_with_argument(&text_bytes("uname"), "-m")));
    add_request(
        &mut requests,
        Request::Capture(run_with_argument(&text_bytes("getconf"), "GNU_LIBC_VERSION")),
    );
    assert(asked_of(requests@) =~= report_questions(*paths));
    Survey::new(requests)
}

/// Whether the host has said this about itself.
pub open spec fn report_in(report: HostReport, shell: Option<Vec<u8>>, replies: Seq<Reply>) -> bool {
    &&& replies.len() == 8
    &&& is_text(report.pixi, printed(replies[0]))
    &&& is_text(report.zsh, printed(replies[1]))
    &&& is_text(report.bash, printed(replies[2]))
    &&& is_text(report.curl, printed(replies[3]))
    &&& is_text(report.os, system_field(replies[4], "PRETTY_NAME"@))
    &&& is_text(report.kernel, printed(replies[5]))
    &&& is_text(report.architecture, printed(replies[6]))
    &&& is_text(report.host_glibc, printed(replies[7]))
    &&& report.login_shell is Some <==> shell is Some && shell->0@.len() > 0 && valid_utf8(
        shell->0@,
    )
    &&& report.login_shell is Some ==> report.login_shell->0@ == decode_utf8(shell->0@)
}

/// What the host has said about itself; nothing where it was not asked everything.
pub fn host_report(shell: Option<Vec<u8>>, survey: Survey) -> (report: Option<HostReport>)
    ensures
        report is Some <==> survey.replies@.len() == 8,
        report is Some ==> report_in(report->0, shell, survey.replies@),
{
    if survey.replies.len() != 8 {
        return None;
    }
    let mut replies = survey.replies;
    let host_glibc = take_line(&mut replies);
    let architecture = take_line(&mut replies);
    let kernel = take_line(&mut replies);
    let os = os_release_value(&replies[4], "PRETTY_NAME");
    let _read = replies.pop();
    let curl = take_line(&mut replies);
    let bash = take_line(&mut replies);
    let zsh = take_line(&mut replies);
    let pixi = take_line(&mut replies);
    let login_shell = optional_environment_string(shell);
    Some(
        HostReport {
            pixi,
            zsh,
            login_shell,
            bash,
            curl,
            os,
            kernel,
            architecture,
            host_glibc,
        },
    )
}

/// A value that may be missing.
pub open spec fn shown(value: Option<String>) -> Seq<char> {
    match value {
        Some(text) => text@,
        None => "N/A"@,
    }
}

/// A value that may be missing.
pub fn option_display(value: &Option<String>) -> (text: String)
    ensures
        text@ == shown(*value),
{
    match value {
        Some(text) => text.clone(),
        None => "N/A".to_owned(),
    }
}

/// A label and its value on a line.
pub open spec fn labelled_line(label: Seq<char>, value: Seq<char>) -> Seq<char> {
    label + value + "\n"@
}

/// The system configuration as it is shown.
pub open spec fn config_report(config: SystemConfig) -> Seq<char> {
    labelled_line("EIYAH_VERSION: "@, config.eiyah_version@)
        + labelled_line("ORIGIN: "@, config.origin@)
        + labelled_line("EIYAH_PREFIX: "@, lossy_text(config.eiyah_prefix@))
        + labelled_line("EIYAH_CONFIG: "@, lossy_text(config.eiyah_config@))
        + labelled_line("DOTFILES: "@, lossy_text(config.dotfiles@))
        + labelled_line("PIXI_HOME: "@, lossy_text(config.pixi_home@))
        + "\n"@
        + labelled_line("Pixi: "@, shown(config.pixi))
        + labelled_line("Zsh: "@, shown(config.zsh))
        + labelled_line("Login shell: "@, shown(config.login_shell))
        + labelled_line("Bash: "@, shown(config.bash))
        + labelled_line("Curl: "@, shown(config.curl))
        + "\n"@
        + labelled_line("OS: "@, shown(config.os))
        + labelled_line("Kernel: "@, shown(config.kernel))
        + labelled_line("Architecture: "@, shown(config.architecture))
        + labelled_line("Host glibc: "@, shown(config.host_glibc))
}

fn line_of(label: &str, value: &str) -> (line: String)
    ensures
        line@ == labelled_line(label@, value@),
{
    let mut line = label.to_owned();
    line.append(value);
    line.append("\n");
    line
}

/// The system configuration as it is shown.
pub fn print_config(config: &SystemConfig) -> (text: String)
    ensures
        text@ == config_report(*config),
{
    let mut text = line_of("EIYAH_VERSION: ", &config.eiyah_version);
    text.append(&line_of("ORIGIN: ", &config.origin));
    text.append(&line_of("EIYAH_PREFIX: ", &show_bytes(&config.eiyah_prefix)));
    text.append(&line_of("EIYAH_CONFIG: ", &show_bytes(&config.eiyah_config)));
    text.append(&line_of("DOTFILES: ", &show_bytes(&config.dotfiles)));
    text.append(&line_of("PIXI_HOME: ", &show_bytes(&config.pixi_home)));
    text.append("\n");
    text.append(&line_of("Pixi: ", &option_display(&config.pixi)));
    text.append(&line_of("Zsh: ", &option_display(&config.zsh)));
    text.append(&line_of("Login shell: ", &option_display(&config.login_shell)));
    text.append(&line_of("Bash: ", &option_display(&config.bash)));
    text.append(&line_of("Curl: ", &option_display(&config.curl)));
    text.append("\n");
    text.append(&line_of("OS: ", &option_display(&config.os)));
    text.append(&line_of("Kernel: ", &option_display(&config.kernel)));
    text.append(&line_of("Architecture: ", &option_display(&config.architecture)));
    text.append(&line_of("Host glibc: ", &option_display(&config.host_glibc)));
    text
}

} // verus!
