//! Whole runs of a cleanup.
//!
//! A run is what comes of a session when the caller performs each pending
//! action once and reports its result, from the first confirmation until
//! the session finishes or aborts. What the run meets on its way, the
//! user's answers and the outcomes of the delete commands, is its
//! [`Replies`]. The laws here say which delete commands a run has the caller
//! run, whatever the replies are.

use vstd::prelude::*;
use crate::cleanup::{CleanupActionView, CleanupEvent, Phase, SessionView};
use crate::command::{delete_command, deletion_result, CommandOutcome, ExternalCommandView};
use crate::error::CleanupError;

verus! {

/// What a run meets, by the position of the branch concerned among the
/// branches of the session.
pub struct Replies {
    /// The user's answer when asked about the branch: `Some(true)` for a
    /// yes, `Some(false)` for a no, `None` where no answer can be had.
    pub answer: spec_fn(int) -> Option<bool>,
    /// How the delete command for the branch ends when it is run.
    pub outcome: spec_fn(int) -> CommandOutcome,
}

impl Replies {
    /// The user says yes to the branch at `position`.
    pub open spec fn confirms(self, position: int) -> bool {
        (self.answer)(position) == Some(true)
    }

    /// The delete command for the branch at `position` exits with status zero.
    pub open spec fn deletes(self, position: int) -> bool {
        deletion_result((self.outcome)(position)) is Ok
    }

    /// Nothing goes wrong before `position`: every earlier question gets an
    /// answer and every earlier delete command that a yes calls for succeeds.
    pub open spec fn undisturbed_before(self, position: int) -> bool {
        forall|j: int|
            0 <= j < position ==> (#[trigger] (self.answer)(j)) is Some && (self.confirms(j)
                ==> self.deletes(j))
    }

    /// The event in which the pending action of `session` ends.
    pub open spec fn event_for(self, session: SessionView) -> CleanupEvent {
        match session.phase {
            Phase::Deleting => CleanupEvent::CommandFinished((self.outcome)(session.cursor as int)),
            _ => match (self.answer)(session.cursor as int) {
                Some(delete) => CleanupEvent::Answered { delete },
                None => CleanupEvent::PromptFailed,
            },
        }
    }
}

/// The session waits for a confirmation or a deletion of a branch that it has.
pub open spec fn active(session: SessionView) -> bool {
    &&& session.phase is Confirming || session.phase is Deleting
    &&& session.cursor < session.candidates.len()
}

/// A bound on the number of actions that a run from `session` still performs.
pub open spec fn actions_left(session: SessionView) -> nat {
    if !active(session) {
        0
    } else if session.phase is Deleting {
        (2 * (session.candidates.len() - session.cursor) - 1) as nat
    } else {
        (2 * (session.candidates.len() - session.cursor)) as nat
    }
}

/// The delete commands that the caller runs in the run from `session`, in
/// the order in which it runs them.
pub open spec fn commands_run(session: SessionView, replies: Replies) -> Seq<ExternalCommandView>
    decreases actions_left(session),
{
    if !active(session) {
        Seq::empty()
    } else {
        let rest = commands_run(session.step(replies.event_for(session)), replies);
        match session.pending() {
            CleanupActionView::Delete { command, .. } => seq![command] + rest,
            _ => rest,
        }
    }
}

/// How the run from `session` ends.
pub open spec fn run_result(session: SessionView, replies: Replies) -> Result<(), CleanupError>
    decreases actions_left(session),
{
    if active(session) {
        run_result(session.step(replies.event_for(session)), replies)
    } else {
        match session.phase {
            Phase::Failed(error) => Err(error),
            _ => Ok(()),
        }
    }
}

/// The positions of the branches that are deleted when the branches from
/// `from` up to `count` are gone through in order: the user is asked about
/// each; a yes has the branch deleted, and the next branch is taken up only
/// if that deletion succeeds; a no leaves the branch alone; a question
/// without an answer ends it all.
pub open spec fn deleted_positions(replies: Replies, count: int, from: int) -> Seq<int>
    decreases count - from,
{
    if from >= count {
        Seq::empty()
    } else {
        match (replies.answer)(from) {
            Some(true) => if replies.deletes(from) {
                seq![from] + deleted_positions(replies, count, from + 1)
            } else {
                seq![from]
            },
            Some(false) => deleted_positions(replies, count, from + 1),
            None => Seq::empty(),
        }
    }
}

/// How going through the branches from `from` up to `count` ends: with the
/// first failure met, or well if there is none.
pub open spec fn cleanup_result(replies: Replies, count: int, from: int) -> Result<
    (),
    CleanupError,
>
    decreases count - from,
{
    if from >= count {
        Ok(())
    } else {
        match (replies.answer)(from) {
            Some(true) => match deletion_result((replies.outcome)(from)) {
                Ok(_) => cleanup_result(replies, count, from + 1),
                Err(error) => Err(error),
            },
            Some(false) => cleanup_result(replies, count, from + 1),
            None => Err(CleanupError::ConfirmationFailed),
        }
    }
}

/// The delete commands for the branches at `positions`.
pub open spec fn commands_for(
    repo_location: Seq<char>,
    candidates: Seq<Seq<char>>,
    positions: Seq<int>,
) -> Seq<ExternalCommandView> {
    positions.map_values(|position: int| delete_command(repo_location, candidates[position]))
}

/// A run from a session that is about to ask about its current branch, or
/// is finished, goes through the remaining branches in order: it has the
/// delete command run for exactly the branches at `deleted_positions`, each
/// with the name of its branch, and ends as `cleanup_result` says.
pub proof fn lemma_run_goes_through_branches(session: SessionView, replies: Replies)
    requires
        session.wf(),
        session.phase is Confirming || session.phase is Finished,
    ensures
        commands_run(session, replies) == commands_for(
            session.repo_location,
            session.candidates,
            deleted_positions(replies, session.candidates.len() as int, session.cursor as int),
        ),
        run_result(session, replies) == cleanup_result(
            replies,
            session.candidates.len() as int,
            session.cursor as int,
        ),
    decreases session.candidates.len() - session.cursor,
{
    let from = session.cursor as int;
    if session.phase is Confirming {
        let asked = session.step(replies.event_for(session));
        assert(commands_run(session, replies) == commands_run(asked, replies));
        assert(run_result(session, replies) == run_result(asked, replies));
        match (replies.answer)(from) {
            Some(true) => {
                let after = asked.step(replies.event_for(asked));
                assert(commands_run(asked, replies) == seq![
                    delete_command(session.repo_location, session.candidates[from]),
                ] + commands_run(after, replies));
                assert(run_result(asked, replies) == run_result(after, replies));
                if replies.deletes(from) {
                    lemma_run_goes_through_branches(after, replies);
                }
            },
            Some(false) => {
                lemma_run_goes_through_branches(asked, replies);
            },
            None => {},
        }
    }
}

/// Every position in `deleted_positions` is that of a branch from `from` on
/// to which the user said yes, and the positions come in rising order.
pub proof fn lemma_deleted_positions_confirmed(replies: Replies, count: int, from: int)
    ensures
        forall|k: int|
            0 <= k < deleted_positions(replies, count, from).len() ==> {
                let position = #[trigger] deleted_positions(replies, count, from)[k];
                from <= position < count && replies.confirms(position)
            },
        forall|k: int, l: int|
            0 <= k < l < deleted_positions(replies, count, from).len() ==> deleted_positions(
                replies,
                count,
                from,
            )[k] < deleted_positions(replies, count, from)[l],
    decreases count - from,
{
    if from < count {
        lemma_deleted_positions_confirmed(replies, count, from + 1);
        let positions = deleted_positions(replies, count, from);
        let later = deleted_positions(replies, count, from + 1);
        if replies.confirms(from) && replies.deletes(from) {
            assert forall|k: int| 0 < k < positions.len() implies positions[k] == later[k - 1] by {}
        }
    }
}

/// A cleanup never has a branch deleted that the user did not say yes to:
/// where the answer for a branch is a no, or there is none, no delete
/// command of the run is for that branch.
pub proof fn lemma_declined_is_never_deleted(
    repo_location: Seq<char>,
    candidates: Seq<Seq<char>>,
    replies: Replies,
    position: int,
)
    requires
        !replies.confirms(position),
    ensures
        ({
            let positions = deleted_positions(replies, candidates.len() as int, 0);
            &&& commands_run(SessionView::begin(repo_location, candidates), replies)
                == commands_for(repo_location, candidates, positions)
            &&& !positions.contains(position)
        }),
{
    lemma_run_goes_through_branches(SessionView::begin(repo_location, candidates), replies);
    lemma_deleted_positions_confirmed(replies, candidates.len() as int, 0);
}

/// A cleanup in which the user says yes to nothing runs no delete command.
pub proof fn lemma_nothing_confirmed_nothing_run(
    repo_location: Seq<char>,
    candidates: Seq<Seq<char>>,
    replies: Replies,
)
    requires
        forall|i: int| 0 <= i < candidates.len() ==> !replies.confirms(i),
    ensures
        commands_run(SessionView::begin(repo_location, candidates), replies) == Seq::<
            ExternalCommandView,
        >::empty(),
{
    let session = SessionView::begin(repo_location, candidates);
    lemma_run_goes_through_branches(session, replies);
    lemma_deleted_positions_confirmed(replies, candidates.len() as int, 0);
    let positions = deleted_positions(replies, candidates.len() as int, 0);
    if positions.len() > 0 {
        assert(replies.confirms(positions[0]));
    }
}

/// A branch to which the user says yes is deleted exactly once, and under
/// its own name, provided the cleanup gets as far as that branch: the
/// delete commands of the run are those for the deleted positions, and the
/// branch's position occurs once among them.
pub proof fn lemma_confirmed_is_deleted_once(
    repo_location: Seq<char>,
    candidates: Seq<Seq<char>>,
    replies: Replies,
    position: int,
)
    requires
        0 <= position < candidates.len(),
        replies.confirms(position),
        replies.undisturbed_before(position),
    ensures
        ({
            let positions = deleted_positions(replies, candidates.len() as int, 0);
            &&& commands_run(SessionView::begin(repo_location, candidates), replies)
                == commands_for(repo_location, candidates, positions)
            &&& positions.contains(position)
            &&& positions.no_duplicates()
        }),
{
    lemma_run_goes_through_branches(SessionView::begin(repo_location, candidates), replies);
    lemma_deleted_positions_confirmed(replies, candidates.len() as int, 0);
    lemma_reached_is_deleted(replies, candidates.len() as int, 0, position);
}

proof fn lemma_reached_is_deleted(replies: Replies, count: int, from: int, position: int)
    requires
        0 <= from <= position < count,
        replies.confirms(position),
        replies.undisturbed_before(position),
    ensures
        deleted_positions(replies, count, from).contains(position),
    decreases position - from,
{
    let positions = deleted_positions(replies, count, from);
    if from == position {
        assert(positions[0] == position);
    } else {
        lemma_reached_is_deleted(replies, count, from + 1, position);
        let later = deleted_positions(replies, count, from + 1);
        let k = choose|k: int| 0 <= k < later.len() && later[k] == position;
        if replies.confirms(from) {
            assert(positions[k + 1] == position);
        }
    }
}

} // verus!
