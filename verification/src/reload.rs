//! Reloading the daemon: what is run, and how its outcome is judged.
//!
//! The command is run once, without a time limit. Only its exit status
//! decides; what it printed is kept for the server's log.

use vstd::prelude::*;

verus! {

/// The program that restarts the daemon.
pub const RELOAD_PROGRAM: &'static str = "systemctl";

/// The first argument of the reload command.
pub const RELOAD_VERB: &'static str = "restart";

/// The second argument of the reload command: the unit of the daemon.
pub const RELOAD_UNIT: &'static str = "wg-quick@server";

/// What came of running the reload command.
#[derive(Clone, Debug, PartialEq, Eq)]
pub enum CommandOutcome {
    /// The command ran to its end.
    Exited { success: bool, stdout: Vec<u8>, stderr: Vec<u8> },
    /// The command could not be started; the text says why.
    NotStarted(String),
}

/// A [`CommandOutcome`] as plain sequences.
pub ghost enum CommandOutcomeView {
    Exited { success: bool, stdout: Seq<u8>, stderr: Seq<u8> },
    NotStarted(Seq<char>),
}

impl View for CommandOutcome {
    type V = CommandOutcomeView;

    open spec fn view(&self) -> CommandOutcomeView {
        match self {
            CommandOutcome::Exited { success, stdout, stderr } => CommandOutcomeView::Exited {
                success: *success,
                stdout: stdout@,
                stderr: stderr@,
            },
            CommandOutcome::NotStarted(detail) => CommandOutcomeView::NotStarted(detail@),
        }
    }
}

/// Why the daemon was not reloaded. Meant for the server's log.
#[derive(Clone, Debug, PartialEq, Eq)]
pub enum RestartError {
    /// The command could not be started.
    NotStarted(String),
    /// The command exited with a status other than zero, having printed this.
    Failed { stdout: Vec<u8>, stderr: Vec<u8> },
}

/// A [`RestartError`] as plain sequences.
pub ghost enum RestartErrorView {
    NotStarted(Seq<char>),
    Failed { stdout: Seq<u8>, stderr: Seq<u8> },
}

impl View for RestartError {
    type V = RestartErrorView;

    open spec fn view(&self) -> RestartErrorView {
        match self {
            RestartError::NotStarted(detail) => RestartErrorView::NotStarted(detail@),
            RestartError::Failed { stdout, stderr } => RestartErrorView::Failed {
                stdout: stdout@,
                stderr: stderr@,
            },
        }
    }
}

/// How an outcome of the reload command is judged: a zero exit status is the
/// only success, and a failure keeps all that the command printed.
pub open spec fn restart_verdict(outcome: CommandOutcomeView) -> Result<(), RestartErrorView> {
    match outcome {
        CommandOutcomeView::Exited { success, stdout, stderr } => if success {
            Ok(())
        } else {
            Err(RestartErrorView::Failed { stdout, stderr })
        },
        CommandOutcomeView::NotStarted(detail) => Err(RestartErrorView::NotStarted(detail)),
    }
}

/// The view of a verdict on the reload command.
pub open spec fn verdict_view(verdict: Result<(), RestartError>) -> Result<(), RestartErrorView> {
    match verdict {
        Ok(()) => Ok(()),
        Err(error) => Err(error@),
    }
}

/// Judges the outcome of the reload command.
pub fn restart_wireguard(outcome: CommandOutcome) -> (verdict: Result<(), RestartError>)
    ensures
        verdict_view(verdict) == restart_verdict(outcome@),
{
    match outcome {
        CommandOutcome::Exited { success, stdout, stderr } => {
            if success {
                Ok(())
            } else {
                Err(RestartError::Failed { stdout, stderr })
            }
        },
        CommandOutcome::NotStarted(detail) => Err(RestartError::NotStarted(detail)),
    }
}

} // verus!
