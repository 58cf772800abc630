//! The words on the terminal.

use crate::failure::Failure;
use crate::text::same_text;
use vstd::prelude::*;

verus! {

/// Ends a style.
pub const ANSI_RESET: &'static str = "\x1b[0m";

/// The arrow before an operation: bright blue.
pub const ANSI_OPERATION: &'static str = "\x1b[94m";

/// An operation: bold.
pub const ANSI_BOLD: &'static str = "\x1b[1m";

/// The label of an error: bold bright red.
pub const ANSI_ERROR: &'static str = "\x1b[1;91m";

/// The label of a warning: bold bright yellow.
pub const ANSI_WARNING: &'static str = "\x1b[1;93m";

/// The label of a hint: bold bright cyan.
pub const ANSI_HINT: &'static str = "\x1b[1;96m";

/// Whether styles are used: on a terminal, unless colours are not wanted.
pub fn style_enabled(is_terminal: bool, no_color: bool) -> (enabled: bool)
    ensures
        enabled == (is_terminal && !no_color),
{
    is_terminal && !no_color
}

/// The heading of an operation.
pub open spec fn operation_line(message: Seq<char>, styled: bool) -> Seq<char> {
    if styled {
        ANSI_OPERATION@ + "==>"@ + ANSI_RESET@ + " "@ + ANSI_BOLD@ + message + ANSI_RESET@ + "\n"@
    } else {
        "==> "@ + message + "\n"@
    }
}

/// The style of a label.
pub open spec fn label_style(label: Seq<char>) -> Seq<char> {
    if label == "Error"@ {
        ANSI_ERROR@
    } else if label == "Warning"@ {
        ANSI_WARNING@
    } else if label == "Hint"@ {
        ANSI_HINT@
    } else {
        ""@
    }
}

/// A message behind its label.
pub open spec fn diagnostic_line(label: Seq<char>, message: Seq<char>, styled: bool) -> Seq<char> {
    if styled {
        label_style(label) + label + ANSI_RESET@ + ": "@ + message + "\n"@
    } else {
        label + ": "@ + message + "\n"@
    }
}

/// The heading of an operation.
pub fn write_operation(message: &str, styled: bool) -> (line: String)
    ensures
        line@ == operation_line(message@, styled),
{
    if styled {
        let mut line = ANSI_OPERATION.to_owned();
        line.append("==>");
        line.append(ANSI_RESET);
        line.append(" ");
        line.append(ANSI_BOLD);
        line.append(message);
        line.append(ANSI_RESET);
        line.append("\n");
        line
    } else {
        let mut line = "==> ".to_owned();
        line.append(message);
        line.append("\n");
        line
    }
}

/// The heading of an operation that follows other output: an empty line comes first.
pub fn next_operation(message: &str, styled: bool) -> (text: String)
    ensures
        text@ == "\n"@ + operation_line(message@, styled),
{
    let mut text = "\n".to_owned();
    text.append(&write_operation(message, styled));
    text
}

/// A line of detail below an operation.
pub fn detail(message: &str) -> (line: String)
    ensures
        line@ == message@ + "\n"@,
{
    let mut line = message.to_owned();
    line.append("\n");
    line
}

/// A message behind its label; only the label is styled.
pub fn write_diagnostic(label: &str, message: &str, styled: bool) -> (line: String)
    ensures
        line@ == diagnostic_line(label@, message@, styled),
{
    if styled {
        let mut line = if same_text(label, "Error") {
            ANSI_ERROR.to_owned()
        } else if same_text(label, "Warning") {
            ANSI_WARNING.to_owned()
        } else if same_text(label, "Hint") {
            ANSI_HINT.to_owned()
        } else {
            "".to_owned()
        };
        line.append(label);
        line.append(ANSI_RESET);
        line.append(": ");
        line.append(message);
        line.append("\n");
        line
    } else {
        let mut line = label.to_owned();
        line.append(": ");
        line.append(message);
        line.append("\n");
        line
    }
}

/// A text in bold where styles are used.
pub fn write_bold(text: &str, styled: bool) -> (line: String)
    ensures
        line@ == if styled {
            ANSI_BOLD@ + text@ + ANSI_RESET@
        } else {
            text@
        },
{
    if styled {
        let mut line = ANSI_BOLD.to_owned();
        line.append(text);
        line.append(ANSI_RESET);
        line
    } else {
        text.to_owned()
    }
}

/// An error that ends a command, with what the user should know besides.
#[derive(Debug)]
pub struct UserFacingError {
    pub message: String,
    pub warnings: Vec<String>,
    pub hints: Vec<String>,
}

/// Whether the error has this message and nothing else.
pub open spec fn plain_error(error: UserFacingError, message: Seq<char>) -> bool {
    error.message@ == message && error.warnings@.len() == 0 && error.hints@.len() == 0
}

impl UserFacingError {
    /// The error of a failure, with its cause in the same line.
    pub fn from_failure(failure: &Failure) -> (error: UserFacingError)
        ensures
            plain_error(error, failure.line()),
    {
        UserFacingError { message: failure.full_text(), warnings: Vec::new(), hints: Vec::new() }
    }

    /// The error with one more warning behind those it has.
    pub fn with_warning(self, warning: String) -> (error: UserFacingError)
        ensures
            error.message == self.message,
            error.warnings@ == self.warnings@.push(warning),
            error.hints == self.hints,
    {
        let mut warnings = self.warnings;
        warnings.push(warning);
        UserFacingError { message: self.message, warnings, hints: self.hints }
    }
}

/// The lines of messages that share a label.
pub open spec fn labelled(label: Seq<char>, messages: Seq<String>, styled: bool) -> Seq<char>
    decreases messages.len(),
{
    if messages.len() == 0 {
        Seq::empty()
    } else {
        labelled(label, messages.drop_last(), styled) + diagnostic_line(
            label,
            messages.last()@,
            styled,
        )
    }
}

/// The lines of messages that share a label.
pub fn write_labelled(label: &str, messages: &Vec<String>, styled: bool) -> (text: String)
    ensures
        text@ == labelled(label@, messages@, styled),
{
    let mut text = String::new();
    let mut index: usize = 0;
    assert(messages@.take(0) =~= Seq::<String>::empty());
    assert(text@ =~= labelled(label@, messages@.take(0), styled));
    while index < messages.len()
        invariant
            index <= messages.len(),
            text@ == labelled(label@, messages@.take(index as int), styled),
        decreases messages.len() - index,
    {
        assert(messages@.take(index + 1).drop_last() =~= messages@.take(index as int));
        text.append(&write_diagnostic(label, &messages[index], styled));
        index = index + 1;
    }
    assert(messages@.take(index as int) =~= messages@);
    text
}

/// An error with its warnings and hints, each on a line of its own.
pub fn write_error_report(error: &UserFacingError, styled: bool) -> (text: String)
    ensures
        text@ == diagnostic_line("Error"@, error.message@, styled) + labelled(
            "Warning"@,
            error.warnings@,
            styled,
        ) + labelled("Hint"@, error.hints@, styled),
{
    let mut text = write_diagnostic("Error", &error.message, styled);
    text.append(&write_labelled("Warning", &error.warnings, styled));
    text.append(&write_labelled("Hint", &error.hints, styled));
    text
}

/// Messages are shown one behind the other, each on a line of its own with its label
/// before it.
pub proof fn every_message_has_its_line(
    label: Seq<char>,
    first: Seq<String>,
    second: Seq<String>,
    styled: bool,
)
    ensures
        labelled(label, first + second, styled) == labelled(label, first, styled) + labelled(
            label,
            second,
            styled,
        ),
        first.len() == 1 ==> labelled(label, first, false) == label + ": "@ + first[0]@ + "\n"@,
        first.len() == 1 ==> (": "@ + first[0]@ + "\n"@).is_suffix_of(
            labelled(label, first, styled),
        ),
    decreases second.len(),
{
    if second.len() > 0 {
        every_message_has_its_line(label, first, second.drop_last(), styled);
        assert((first + second).drop_last() =~= first + second.drop_last());
        assert(labelled(label, first + second, styled) =~= labelled(label, first, styled) + labelled(
            label,
            second,
            styled,
        ));
    } else {
        assert(first + second =~= first);
        assert(labelled(label, first, styled) + labelled(label, second, styled) =~= labelled(
            label,
            first,
            styled,
        ));
    }
    if first.len() == 1 {
        reveal_with_fuel(labelled, 2);
        assert(first.drop_last() =~= Seq::<String>::empty());
        assert(first.last() == first[0]);
        let none = Seq::<char>::empty();
        assert(labelled(label, first, styled) == none + diagnostic_line(label, first[0]@, styled));
        assert(labelled(label, first, false) == none + diagnostic_line(label, first[0]@, false));
        let tail = ": "@ + first[0]@ + "\n"@;
        let plain = labelled(label, first, false);
        assert(plain =~= label + ": "@ + first[0]@ + "\n"@);
        let shown = labelled(label, first, styled);
        assert(shown =~= (if styled {
            label_style(label) + label + ANSI_RESET@
        } else {
            label
        }) + tail);
        assert(shown.subrange(shown.len() - tail.len(), shown.len() as int) =~= tail);
    }
}

} // verus!
