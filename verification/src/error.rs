//! The ways in which a cleanup ends early.

use vstd::prelude::*;

verus! {

/// Why a cleanup stopped before it had gone through all its branches.
#[derive(Clone, Copy, Debug, PartialEq, Eq, Structural)]
pub enum CleanupError {
    /// The user's answer to a confirmation could not be obtained.
    ConfirmationFailed,
    /// The git client could not be run.
    DeleteCommandNotRun,
    /// The git client ran and exited with a status other than zero.
    DeleteCommandFailed,
}

impl CleanupError {
    /// The text that describes the error to the user.
    pub open spec fn message_text(self) -> Seq<char> {
        match self {
            CleanupError::ConfirmationFailed => "Failed to read the confirmation"@,
            CleanupError::DeleteCommandNotRun => "Failed to run the git client"@,
            CleanupError::DeleteCommandFailed => "Failed to delete branch"@,
        }
    }

    /// Describes the error to the user.
    pub fn message(&self) -> (text: String)
        ensures
            text@ == self.message_text(),
    {
        match self {
            CleanupError::ConfirmationFailed => "Failed to read the confirmation".to_owned(),
            CleanupError::DeleteCommandNotRun => "Failed to run the git client".to_owned(),
            CleanupError::DeleteCommandFailed => "Failed to delete branch".to_owned(),
        }
    }
}

} // verus!
