//! The commands and their exit statuses.

use crate::text::{decimal, decimal_text};
use vstd::prelude::*;

verus! {

/// What is done with the setting that shows the status of the CAD servers.
#[derive(Clone, Copy, Debug, PartialEq, Eq, Structural)]
pub enum ShowCadStatusAction {
    Enable,
    Disable,
}

/// A command of the program.
#[derive(Debug)]
pub enum Command {
    /// Installs the environment.
    Install,
    /// Removes the environment; what is left for the shell goes to this path.
    Uninstall { cleanup_plan: Vec<u8> },
    /// Installs the latest release.
    Update,
    /// Shows the installation and the host.
    Config,
    /// Diagnoses the installation.
    Doctor,
    /// Shows the status of the CAD servers, or changes whether it is shown.
    ShowCadStatus { action: Option<ShowCadStatusAction> },
    /// Asks whether to change to Zsh.
    Handoff,
    /// Answers whether the status of the CAD servers is shown.
    ShowCadStatusEnabled,
}

/// What a command has run.
#[derive(Debug)]
pub enum Operation {
    Install,
    Uninstall(Vec<u8>),
    Update,
    Config,
    Doctor,
    Status,
    SetStatus(bool),
    Handoff,
    StatusEnabled,
}

/// What an operation came back with.
#[derive(Debug)]
pub enum Outcome {
    /// It was done.
    Done,
    /// It was answered.
    Answer(bool),
    /// A program has ended with this status.
    Status(u8),
    /// It failed.
    Failed(String),
}

/// How the program ends.
#[derive(Debug)]
pub struct Ending {
    pub status: u8,
    /// The error that is shown.
    pub error: Option<String>,
}

/// What a command runs.
pub open spec fn operation_of(command: Command) -> Operation {
    match command {
        Command::Install => Operation::Install,
        Command::Uninstall { cleanup_plan } => Operation::Uninstall(cleanup_plan),
        Command::Update => Operation::Update,
        Command::Config => Operation::Config,
        Command::Doctor => Operation::Doctor,
        Command::ShowCadStatus { action: None } => Operation::Status,
        Command::ShowCadStatus { action: Some(ShowCadStatusAction::Enable) } =>
            Operation::SetStatus(true),
        Command::ShowCadStatus { action: Some(ShowCadStatusAction::Disable) } =>
            Operation::SetStatus(false),
        Command::Handoff => Operation::Handoff,
        Command::ShowCadStatusEnabled => Operation::StatusEnabled,
    }
}

/// What a command runs.
pub fn dispatch(command: Command) -> (operation: Operation)
    ensures
        operation == operation_of(command),
{
    match command {
        Command::Install => Operation::Install,
        Command::Uninstall { cleanup_plan } => Operation::Uninstall(cleanup_plan),
        Command::Update => Operation::Update,
        Command::Config => Operation::Config,
        Command::Doctor => Operation::Doctor,
        Command::ShowCadStatus { action } => match action {
            None => Operation::Status,
            Some(ShowCadStatusAction::Enable) => Operation::SetStatus(true),
            Some(ShowCadStatusAction::Disable) => Operation::SetStatus(false),
        },
        Command::Handoff => Operation::Handoff,
        Command::ShowCadStatusEnabled => Operation::StatusEnabled,
    }
}

/// Whether an operation answers by its exit status alone.
pub open spec fn is_protocol(operation: Operation) -> bool {
    operation is Handoff || operation is StatusEnabled
}

/// The exit status of what an operation came back with; an error where the operation
/// failed. The operations that answer by their exit status do not fail: an error of
/// theirs is a status of its own.
pub open spec fn status_of(operation: Operation, outcome: Outcome) -> Result<u8, ()> {
    match (operation, outcome) {
        (Operation::Handoff, Outcome::Failed(_)) | (Operation::StatusEnabled, Outcome::Failed(_)) =>
            Ok(2),
        (_, Outcome::Failed(_)) => Err(()),
        (Operation::Status, Outcome::Status(status)) => Ok(status),
        (Operation::Doctor, Outcome::Answer(healthy)) => Ok(
            if healthy {
                0
            } else {
                1
            },
        ),
        (Operation::Handoff, Outcome::Answer(yes)) | (Operation::StatusEnabled, Outcome::Answer(
            yes,
        )) => Ok(
            if yes {
                0
            } else {
                1
            },
        ),
        _ => Ok(0),
    }
}

/// Ends a command with what its operation came back with; an error where the
/// operation failed.
pub fn run_with(operation: &Operation, outcome: Outcome) -> (result: Result<Ending, String>)
    ensures
        match status_of(*operation, outcome) {
            Err(_) => outcome is Failed && result == Err::<Ending, String>(outcome->Failed_0),
            Ok(status) => result is Ok && result->Ok_0.status == status && result->Ok_0.error
                == match outcome {
                Outcome::Failed(message) => Some(message),
                _ => None,
            },
        },
{
    match outcome {
        Outcome::Failed(message) => match operation {
            Operation::Handoff => Ok(Ending { status: 2, error: Some(message) }),
            Operation::StatusEnabled => Ok(Ending { status: 2, error: Some(message) }),
            _ => Err(message),
        },
        Outcome::Status(status) => match operation {
            Operation::Status => Ok(Ending { status, error: None }),
            _ => Ok(Ending { status: 0, error: None }),
        },
        Outcome::Answer(yes) => match operation {
            Operation::Doctor => Ok(Ending { status: if yes { 0 } else { 1 }, error: None }),
            Operation::Handoff => Ok(Ending { status: if yes { 0 } else { 1 }, error: None }),
            Operation::StatusEnabled => Ok(Ending { status: if yes { 0 } else { 1 }, error: None }),
            _ => Ok(Ending { status: 0, error: None }),
        },
        Outcome::Done => Ok(Ending { status: 0, error: None }),
    }
}

/// How the program ends: a command that failed shows its error and ends with 1.
pub fn finish(result: Result<Ending, String>) -> (ending: Ending)
    ensures
        match result {
            Ok(found) => ending == found,
            Err(message) => ending.status == 1 && ending.error == Some(message),
        },
{
    match result {
        Ok(ending) => ending,
        Err(message) => Ending { status: 1, error: Some(message) },
    }
}

/// The decimal numeral of an integer.
pub open spec fn integer(value: i32) -> Seq<char> {
    if value < 0 {
        "-"@ + decimal((-value) as nat)
    } else {
        decimal(value as nat)
    }
}

/// The exit status of a program as a status of this one; `None` where a signal has
/// ended it.
pub fn child_exit_status(code: Option<i32>) -> (result: Result<u8, String>)
    ensures
        match code {
            Some(code) => if 0 <= code <= 255 {
                result == Ok::<u8, String>(code as u8)
            } else {
                result is Err && result->Err_0@ == "show-cad-status returned unsupported exit status "@
                    + integer(code)
            },
            None => result is Err && result->Err_0@ == "show-cad-status terminated by signal"@,
        },
{
    match code {
        Some(code) => {
            if 0 <= code && code <= 255 {
                return Ok(code as u8);
            }
            let mut message = "show-cad-status returned unsupported exit status ".to_owned();
            if code < 0 {
                let size: i64 = -(code as i64);
                let mut number = "-".to_owned();
                number.append(&decimal_text(size as u64));
                message.append(&number);
            } else {
                message.append(&decimal_text(code as u64));
            }
            Err(message)
        },
        None => Err("show-cad-status terminated by signal".to_owned()),
    }
}

/// An answer by exit status is never confused: yes, no and an error have three
/// different statuses, and an error is always told apart from an answer.
pub proof fn protocol_statuses_differ(operation: Operation, yes: Outcome, no: Outcome, bad: Outcome)
    requires
        is_protocol(operation),
        yes == Outcome::Answer(true),
        no == Outcome::Answer(false),
        bad is Failed,
    ensures
        status_of(operation, yes) == Ok::<u8, ()>(0),
        status_of(operation, no) == Ok::<u8, ()>(1),
        status_of(operation, bad) == Ok::<u8, ()>(2),
{
}

/// Different commands are different operations, and an operation keeps what its command
/// was given.
pub proof fn commands_are_told_apart(first: Command, second: Command)
    ensures
        operation_of(first) == operation_of(second) ==> first == second,
        operation_of(first) is Uninstall <==> first is Uninstall,
        first is Uninstall ==> operation_of(first)->Uninstall_0 == first->cleanup_plan,
        operation_of(first) is SetStatus <==> first is ShowCadStatus && first->action is Some,
        operation_of(first) is SetStatus ==> operation_of(first)->SetStatus_0 == (
        first->action->0 is Enable),
        operation_of(first) is Status <==> first is ShowCadStatus && first->action is None,
        operation_of(first) is Install <==> first is Install,
        operation_of(first) is Update <==> first is Update,
        operation_of(first) is Config <==> first is Config,
        operation_of(first) is Doctor <==> first is Doctor,
        operation_of(first) is Handoff <==> first is Handoff,
        operation_of(first) is StatusEnabled <==> first is ShowCadStatusEnabled,
{
}

/// A failure has a status of its own only where a program reads it; what was answered is
/// told by nothing for a yes and by one for a no; the status of another program is handed
/// on; and everything else ends well.
pub proof fn a_status_tells_the_outcome(operation: Operation, outcome: Outcome)
    ensures
        status_of(operation, outcome) is Err <==> outcome is Failed && !(operation is Handoff)
            && !(operation is StatusEnabled),
        outcome is Failed && (operation is Handoff || operation is StatusEnabled) ==> status_of(
            operation,
            outcome,
        ) == Ok::<u8, ()>(2),
        outcome is Answer && (operation is Handoff || operation is StatusEnabled
            || operation is Doctor) ==> status_of(operation, outcome) == Ok::<u8, ()>(
            if outcome->Answer_0 {
                0
            } else {
                1
            },
        ),
        outcome is Status && operation is Status ==> status_of(operation, outcome) == Ok::<u8, ()>(
            outcome->Status_0,
        ),
        outcome is Done ==> status_of(operation, outcome) == Ok::<u8, ()>(0),
{
}

} // verus!
