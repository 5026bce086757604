//! The command-line tool: its commands and how a run goes.
use vstd::prelude::*;

pub mod devices;
pub mod filter;
pub mod record;
pub mod spot;

verus! {

/// The tool's commands.
#[derive(Clone, Copy, Debug, PartialEq, Eq, Structural)]
pub enum CommandKind {
    /// Build a wakeword reference from sample files.
    Build,
    /// List audio devices.
    Devices,
    /// Apply the audio filters to a file.
    Filter,
    /// Record a file from a device.
    Record,
    /// Spot wakewords live.
    Spot,
    /// Spot wakewords in a file.
    Test,
    /// Train a wakeword model.
    Train,
}

/// What happened in a run of the tool.
#[derive(Debug)]
pub enum CliEvent {
    /// The arguments were read; they name a command or none.
    Parsed(Option<CommandKind>),
    /// The command ran and ended with this outcome.
    Finished(Result<(), String>),
}

/// Why a run fails.
#[derive(Debug)]
pub enum CliFailure {
    /// The arguments named no command.
    MissingCommand,
    /// The command failed with this message.
    CommandFailed(String),
}

/// What the tool does next.
#[derive(Debug)]
pub enum CliAction {
    /// Run this command.
    Run(CommandKind),
    /// End successfully.
    Exit,
    /// End with this failure.
    Fail(CliFailure),
}

/// The step of a run that follows `event`: run the command that was asked for,
/// then end successfully when it succeeded and fail with its message otherwise.
pub fn run_cli(event: CliEvent) -> (r: CliAction)
    ensures
        match event {
            CliEvent::Parsed(Some(kind)) => r == CliAction::Run(kind),
            CliEvent::Parsed(None) => r == CliAction::Fail(CliFailure::MissingCommand),
            CliEvent::Finished(Ok(())) => r == CliAction::Exit,
            CliEvent::Finished(Err(message)) => r == CliAction::Fail(
                CliFailure::CommandFailed(message),
            ),
        },
{
    match event {
        CliEvent::Parsed(Some(kind)) => CliAction::Run(kind),
        CliEvent::Parsed(None) => CliAction::Fail(CliFailure::MissingCommand),
        CliEvent::Finished(Ok(())) => CliAction::Exit,
        CliEvent::Finished(Err(message)) => CliAction::Fail(CliFailure::CommandFailed(message)),
    }
}

} // verus!
