//! Deleting one author's remote branches, one confirmed branch at a time.
//!
//! A cleanup asks the user about each branch of the author in turn and has
//! the confirmed ones deleted on the remote. Asking and deleting are the
//! caller's work. The session here decides what is to be done next: the
//! caller performs [`CleanupSession::pending`], reports what came of it to
//! [`CleanupSession::step`], and goes on until the session finishes or aborts.

use vstd::prelude::*;
use crate::branch::BranchInfo;
use crate::command::{
    delete_branch, delete_command, deletion_result, CommandOutcome, ExternalCommand,
    ExternalCommandView,
};
use crate::error::CleanupError;
use crate::listing::{list, matching_names};

verus! {

/// Where a session stands.
#[derive(Clone, Copy, Debug, PartialEq, Eq, Structural)]
pub enum Phase {
    /// The user is being asked about the current branch.
    Confirming,
    /// The delete command for the current branch is running.
    Deleting,
    /// Every branch has been dealt with.
    Finished,
    /// The session stopped at the current branch.
    Failed(CleanupError),
}

/// What the caller reports back after performing the pending action.
#[derive(Clone, Copy, Debug, PartialEq, Eq, Structural)]
pub enum CleanupEvent {
    /// The user answered the confirmation: `delete` is true for a yes.
    Answered { delete: bool },
    /// No answer could be obtained from the user.
    PromptFailed,
    /// The delete command ended as the outcome says.
    CommandFinished(CommandOutcome),
}

/// What the caller is to do next.
#[derive(Debug, PartialEq, Eq)]
pub enum CleanupAction {
    /// Ask the user, with `prompt` as the question, whether `branch` is to be deleted.
    Confirm { branch: String, prompt: String },
    /// Run `command`, which deletes `branch` on the remote.
    Delete { branch: String, command: ExternalCommand },
    /// Nothing is left to do: the cleanup has succeeded.
    Finish,
    /// Stop: the cleanup has failed, and no further branch is touched.
    Abort(CleanupError),
}

/// The content of a [`CleanupAction`] as plain character sequences.
pub enum CleanupActionView {
    Confirm { branch: Seq<char>, prompt: Seq<char> },
    Delete { branch: Seq<char>, command: ExternalCommandView },
    Finish,
    Abort(CleanupError),
}

impl View for CleanupAction {
    type V = CleanupActionView;

    open spec fn view(&self) -> CleanupActionView {
        match self {
            CleanupAction::Confirm { branch, prompt } => CleanupActionView::Confirm {
                branch: branch@,
                prompt: prompt@,
            },
            CleanupAction::Delete { branch, command } => CleanupActionView::Delete {
                branch: branch@,
                command: command@,
            },
            CleanupAction::Finish => CleanupActionView::Finish,
            CleanupAction::Abort(error) => CleanupActionView::Abort(*error),
        }
    }
}

/// The question put to the user about `branch`.
pub open spec fn confirm_prompt(branch: Seq<char>) -> Seq<char> {
    "Do you want to delete the branch '"@ + branch + "'?"@
}

/// A session as plain values: the repository, the names of the author's
/// branches in listing order, the position of the current branch among them,
/// and the phase.
pub struct SessionView {
    pub repo_location: Seq<char>,
    pub candidates: Seq<Seq<char>>,
    pub cursor: nat,
    pub phase: Phase,
}

impl SessionView {
    /// The session is finished exactly when it has gone past its last
    /// branch; in every other phase the current branch exists.
    pub open spec fn wf(self) -> bool {
        &&& self.cursor <= self.candidates.len()
        &&& self.phase is Finished <==> self.cursor == self.candidates.len()
    }

    /// The session as it begins: about to ask about the first branch, or
    /// finished at once where the author has none.
    pub open spec fn begin(repo_location: Seq<char>, candidates: Seq<Seq<char>>) -> SessionView {
        SessionView {
            repo_location,
            candidates,
            cursor: 0,
            phase: if candidates.len() == 0 {
                Phase::Finished
            } else {
                Phase::Confirming
            },
        }
    }

    /// The session once it is done with the current branch: about to ask
    /// about the next one, or finished where there is none.
    pub open spec fn moved_on(self) -> SessionView {
        SessionView {
            cursor: self.cursor + 1,
            phase: if self.cursor + 1 >= self.candidates.len() {
                Phase::Finished
            } else {
                Phase::Confirming
            },
            ..self
        }
    }

    /// The session stopped at the current branch.
    pub open spec fn failed(self, error: CleanupError) -> SessionView {
        SessionView { phase: Phase::Failed(error), ..self }
    }

    /// The action that the session waits for.
    pub open spec fn pending(self) -> CleanupActionView {
        match self.phase {
            Phase::Confirming => CleanupActionView::Confirm {
                branch: self.candidates[self.cursor as int],
                prompt: confirm_prompt(self.candidates[self.cursor as int]),
            },
            Phase::Deleting => CleanupActionView::Delete {
                branch: self.candidates[self.cursor as int],
                command: delete_command(self.repo_location, self.candidates[self.cursor as int]),
            },
            Phase::Finished => CleanupActionView::Finish,
            Phase::Failed(error) => CleanupActionView::Abort(error),
        }
    }

    /// The session after `event`.
    ///
    /// A yes to the confirmation starts the deletion of the current branch
    /// and a no moves on to the next branch. A delete command that exits
    /// with status zero moves on as well. A confirmation that cannot be
    /// had, or a delete command that fails or cannot be run, stops the
    /// session for good. An event that does not answer the pending action
    /// changes nothing.
    pub open spec fn step(self, event: CleanupEvent) -> SessionView {
        match (self.phase, event) {
            (Phase::Confirming, CleanupEvent::Answered { delete: true }) => SessionView {
                phase: Phase::Deleting,
                ..self
            },
            (Phase::Confirming, CleanupEvent::Answered { delete: false }) => self.moved_on(),
            (Phase::Confirming, CleanupEvent::PromptFailed) => self.failed(
                CleanupError::ConfirmationFailed,
            ),
            (Phase::Deleting, CleanupEvent::CommandFinished(outcome)) => match deletion_result(
                outcome,
            ) {
                Ok(_) => self.moved_on(),
                Err(error) => self.failed(error),
            },
            _ => self,
        }
    }
}

/// A cleanup under way.
#[derive(Debug)]
pub struct CleanupSession {
    repo_location: String,
    candidates: Vec<String>,
    cursor: usize,
    phase: Phase,
}

impl View for CleanupSession {
    type V = SessionView;

    closed spec fn view(&self) -> SessionView {
        SessionView {
            repo_location: self.repo_location@,
            candidates: self.candidates.deep_view(),
            cursor: self.cursor as nat,
            phase: self.phase,
        }
    }
}

impl CleanupSession {
    #[verifier::type_invariant]
    spec fn well_formed(self) -> bool {
        self@.wf()
    }

    /// Returns the action that the session waits for.
    pub fn pending(&self) -> (action: CleanupAction)
        ensures
            self@.wf(),
            action@ == self@.pending(),
    {
        proof {
            use_type_invariant(self);
        }
        match self.phase {
            Phase::Confirming => {
                let branch: String = self.candidates[self.cursor].clone();
                let mut prompt: String = "Do you want to delete the branch '".to_owned();
                prompt.append(branch.as_str());
                prompt.append("'?");
                CleanupAction::Confirm { branch, prompt }
            },
            Phase::Deleting => {
                let branch: String = self.candidates[self.cursor].clone();
                let command = delete_branch(self.repo_location.as_str(), branch.as_str());
                CleanupAction::Delete { branch, command }
            },
            Phase::Finished => CleanupAction::Finish,
            Phase::Failed(error) => CleanupAction::Abort(error),
        }
    }

    /// Takes the session one event further and returns it with the action
    /// that it then waits for.
    pub fn step(self, event: CleanupEvent) -> (next: (CleanupSession, CleanupAction))
        ensures
            next.0@ == self@.step(event),
            next.0@.wf(),
            next.1@ == next.0@.pending(),
    {
        proof {
            use_type_invariant(&self);
        }
        let session = match (self.phase, event) {
            (Phase::Confirming, CleanupEvent::Answered { delete }) => {
                if delete {
                    CleanupSession {
                        repo_location: self.repo_location,
                        candidates: self.candidates,
                        cursor: self.cursor,
                        phase: Phase::Deleting,
                    }
                } else {
                    self.moved_on()
                }
            },
            (Phase::Confirming, CleanupEvent::PromptFailed) => self.failed(
                CleanupError::ConfirmationFailed,
            ),
            (Phase::Deleting, CleanupEvent::CommandFinished(outcome)) => {
                match outcome.to_result() {
                    Ok(_) => self.moved_on(),
                    Err(error) => self.failed(error),
                }
            },
            _ => self,
        };
        let action = session.pending();
        (session, action)
    }

    fn moved_on(self) -> (next: CleanupSession)
        requires
            self.phase is Confirming || self.phase is Deleting,
        ensures
            next@ == self@.moved_on(),
    {
        proof {
            use_type_invariant(&self);
            assert(self.candidates.deep_view().len() == self.candidates.len());
        }
        let cursor: usize = self.cursor + 1;
        let phase = if cursor >= self.candidates.len() {
            Phase::Finished
        } else {
            Phase::Confirming
        };
        CleanupSession {
            repo_location: self.repo_location,
            candidates: self.candidates,
            cursor,
            phase,
        }
    }

    fn failed(self, error: CleanupError) -> (next: CleanupSession)
        requires
            self.phase is Confirming || self.phase is Deleting,
        ensures
            next@ == self@.failed(error),
    {
        proof {
            use_type_invariant(&self);
        }
        CleanupSession {
            repo_location: self.repo_location,
            candidates: self.candidates,
            cursor: self.cursor,
            phase: Phase::Failed(error),
        }
    }
}

/// Begins the cleanup of the branches authored under `filter_email` in the
/// repository at `repo_location`.
///
/// The session goes through the branches that [`list`] gives for that email,
/// in that order.
pub fn cleanup(branches: &Vec<BranchInfo>, filter_email: &str, repo_location: &str) -> (session:
    CleanupSession)
    ensures
        session@ == SessionView::begin(
            repo_location@,
            matching_names(branches.deep_view(), filter_email@),
        ),
        session@.wf(),
{
    let candidates: Vec<String> = list(branches, filter_email);
    let phase = if candidates.len() == 0 {
        Phase::Finished
    } else {
        Phase::Confirming
    };
    CleanupSession { repo_location: repo_location.to_owned(), candidates, cursor: 0, phase }
}

} // verus!
