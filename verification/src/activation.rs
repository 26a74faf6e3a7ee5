//! Bringing an application's window to the front: the one command that asks
//! the system for it, and what its end means. Nothing is tried twice.

use vstd::prelude::*;
use vstd::string::*;
use crate::host::names_view;

verus! {

/// Why an activation failed.
#[derive(Debug, Clone, PartialEq, Eq)]
pub enum ActivationError {
    /// The command could not be run at all, for this reason.
    SpawnFailed(String),
    /// The command ran and failed; this is what it printed as its error.
    CommandFailed(String),
}

/// An [`ActivationError`] with its text as a sequence of characters.
pub enum ActivationErrorView {
    SpawnFailed(Seq<char>),
    CommandFailed(Seq<char>),
}

impl View for ActivationError {
    type V = ActivationErrorView;

    open spec fn view(&self) -> ActivationErrorView {
        match *self {
            ActivationError::SpawnFailed(cause) => ActivationErrorView::SpawnFailed(cause@),
            ActivationError::CommandFailed(printed) => ActivationErrorView::CommandFailed(printed@),
        }
    }
}

impl ActivationErrorView {
    /// The error in words.
    pub open spec fn message(self) -> Seq<char> {
        match self {
            ActivationErrorView::SpawnFailed(cause) => "Failed to run osascript: "@ + cause,
            ActivationErrorView::CommandFailed(printed) => "osascript failed: "@ + printed,
        }
    }
}

impl ActivationError {
    /// The error in words.
    pub fn message(&self) -> (text: String)
        ensures
            text@ == self@.message(),
    {
        match self {
            ActivationError::SpawnFailed(cause) => {
                let mut text = String::from_str("Failed to run osascript: ");
                text.append(cause.as_str());
                text
            },
            ActivationError::CommandFailed(printed) => {
                let mut text = String::from_str("osascript failed: ");
                text.append(printed.as_str());
                text
            },
        }
    }
}

/// A program and its arguments.
#[derive(Debug, Clone, PartialEq, Eq)]
pub struct CommandLine {
    pub program: String,
    pub arguments: Vec<String>,
}

/// A [`CommandLine`] with its text as sequences of characters.
pub struct CommandLineView {
    pub program: Seq<char>,
    pub arguments: Seq<Seq<char>>,
}

impl View for CommandLine {
    type V = CommandLineView;

    open spec fn view(&self) -> CommandLineView {
        CommandLineView { program: self.program@, arguments: names_view(self.arguments@) }
    }
}

/// How the command ended.
#[derive(Debug, Clone, PartialEq, Eq)]
pub enum CommandOutcome {
    /// It could not be run, for this reason.
    NotRun(String),
    /// It ran: whether the system reports success, and what it printed as its
    /// error.
    Exited { success: bool, printed: String },
}

/// The script that activates the application `app_name`. The name is passed
/// through as it is.
pub open spec fn spec_activation_script(app_name: Seq<char>) -> Seq<char> {
    "tell application \""@ + app_name + "\" to activate"@
}

/// The command that activates the application `app_name`.
pub open spec fn spec_activation_command(app_name: Seq<char>) -> CommandLineView {
    CommandLineView {
        program: "osascript"@,
        arguments: seq!["-e"@, spec_activation_script(app_name)],
    }
}

/// The script that activates the application `app_name`.
pub fn activation_script(app_name: &str) -> (script: String)
    ensures
        script@ == spec_activation_script(app_name@),
{
    let mut script = String::from_str("tell application \"");
    script.append(app_name);
    script.append("\" to activate");
    script
}

/// The command that activates the application `app_name`.
pub fn activation_command(app_name: &str) -> (command: CommandLine)
    ensures
        command@ == spec_activation_command(app_name@),
{
    let mut arguments: Vec<String> = Vec::new();
    arguments.push(String::from_str("-e"));
    arguments.push(activation_script(app_name));
    assert(names_view(arguments@) =~= seq!["-e"@, spec_activation_script(app_name@)]);
    CommandLine { program: String::from_str("osascript"), arguments }
}

/// What the end of the command means: success where the system reports it,
/// else what the command printed as its error, or why it could not be run.
pub fn activation_result(outcome: CommandOutcome) -> (result: Result<(), ActivationError>)
    ensures
        match outcome {
            CommandOutcome::NotRun(cause) => result matches Err(error) && error@
                == ActivationErrorView::SpawnFailed(cause@),
            CommandOutcome::Exited { success, printed } => if success {
                result is Ok
            } else {
                result matches Err(error) && error@ == ActivationErrorView::CommandFailed(printed@)
            },
        },
{
    match outcome {
        CommandOutcome::NotRun(cause) => Err(ActivationError::SpawnFailed(cause)),
        CommandOutcome::Exited { success, printed } => if success {
            Ok(())
        } else {
            Err(ActivationError::CommandFailed(printed))
        },
    }
}

} // verus!
