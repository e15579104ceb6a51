//! The external git client, as a command to run and an outcome to interpret.
//!
//! The library never starts a process. It says which command is to be run
//! and where, and decides what the command's outcome means.

use vstd::prelude::*;
use crate::error::CleanupError;

verus! {

/// A command for the caller to run: the program, its arguments in order and
/// the directory to run it in. Its output is captured, not shown.
#[derive(Debug, PartialEq, Eq)]
pub struct ExternalCommand {
    pub program: String,
    pub args: Vec<String>,
    pub working_dir: String,
}

/// The content of an [`ExternalCommand`] as plain character sequences.
pub struct ExternalCommandView {
    pub program: Seq<char>,
    pub args: Seq<Seq<char>>,
    pub working_dir: Seq<char>,
}

impl View for ExternalCommand {
    type V = ExternalCommandView;

    open spec fn view(&self) -> ExternalCommandView {
        ExternalCommandView {
            program: self.program@,
            args: self.args.deep_view(),
            working_dir: self.working_dir@,
        }
    }
}

impl DeepView for ExternalCommand {
    type V = ExternalCommandView;

    open spec fn deep_view(&self) -> ExternalCommandView {
        self@
    }
}

/// How an external command ended.
#[derive(Clone, Copy, Debug, PartialEq, Eq, Structural)]
pub enum CommandOutcome {
    /// The command ran to its end; `success` tells whether it exited with status zero.
    Exited { success: bool },
    /// The command could not be started, or its outcome could not be collected.
    NotRun,
}

/// `git push origin --delete <branch>`, run inside the repository: the
/// command that deletes `branch` on the remote `origin`.
pub open spec fn delete_command(repo_location: Seq<char>, branch: Seq<char>) -> ExternalCommandView {
    ExternalCommandView {
        program: "git"@,
        args: seq!["push"@, "origin"@, "--delete"@, branch],
        working_dir: repo_location,
    }
}

/// What the outcome of a delete command means for the deletion: it took
/// place exactly if the command ran and exited with status zero.
pub open spec fn deletion_result(outcome: CommandOutcome) -> Result<(), CleanupError> {
    match outcome {
        CommandOutcome::Exited { success: true } => Ok(()),
        CommandOutcome::Exited { success: false } => Err(CleanupError::DeleteCommandFailed),
        CommandOutcome::NotRun => Err(CleanupError::DeleteCommandNotRun),
    }
}

/// Builds the command that deletes `branch_name` on the remote `origin` of
/// the repository at `repo_location`.
pub fn delete_branch(repo_location: &str, branch_name: &str) -> (command: ExternalCommand)
    ensures
        command@ == delete_command(repo_location@, branch_name@),
{
    let mut args: Vec<String> = Vec::new();
    args.push("push".to_owned());
    args.push("origin".to_owned());
    args.push("--delete".to_owned());
    args.push(branch_name.to_owned());
    let command = ExternalCommand {
        program: "git".to_owned(),
        args,
        working_dir: repo_location.to_owned(),
    };
    assert(command@.args =~= delete_command(repo_location@, branch_name@).args);
    command
}

impl CommandOutcome {
    /// Interprets the outcome of a delete command.
    pub fn to_result(self) -> (result: Result<(), CleanupError>)
        ensures
            result == deletion_result(self),
    {
        match self {
            CommandOutcome::Exited { success } => {
                if success {
                    Ok(())
                } else {
                    Err(CleanupError::DeleteCommandFailed)
                }
            },
            CommandOutcome::NotRun => Err(CleanupError::DeleteCommandNotRun),
        }
    }
}

} // verus!
