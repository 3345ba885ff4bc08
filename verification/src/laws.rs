//! What holds of the phase state machine and of the projections whatever
//! the inputs are.

use vstd::prelude::*;
use crate::message::{AdminUpdate, BuzzerUpdate, SpectatorUpdate, optional_index_view};
use crate::session::{ActionView, Game, GameView};

verus! {

impl GameView {
    /// The session after `action` was submitted: the next state where the
    /// state machine accepts the action, the same state where it does not.
    pub open spec fn after(self, action: ActionView) -> GameView {
        match self.step(action) {
            Some(next) => next,
            None => self,
        }
    }

    /// The session after the actions were submitted one after the other.
    pub open spec fn after_all(self, actions: Seq<ActionView>) -> GameView
        decreases actions.len(),
    {
        if actions.len() == 0 {
            self
        } else {
            self.after_all(actions.drop_last()).after(actions.last())
        }
    }
}

/// A transition out of a well-formed session ends in a well-formed session:
/// the phase it produces carries exactly one activity flag per team of the
/// roster it produces, and a guessing team that exists.
pub proof fn step_keeps_session_well_formed(session: GameView, action: ActionView)
    requires
        session.wf(),
    ensures
        session.after(action).wf(),
        session.step(action) matches Some(next) ==> next.wf(),
{
}

/// A listening phase is created with one flag per team, all of them set,
/// whatever the session was before.
pub proof fn listening_starts_with_every_team_active(session: GameView, action: ActionView)
    requires
        session.phase is Selection,
        session.step(action) matches Some(next) && next.phase is Listening,
    ensures
        session.step(action).unwrap().phase->Listening_active.len() == session.step(
            action,
        ).unwrap().teams.len(),
        forall|i: int|
            0 <= i < session.teams.len() ==> session.step(action).unwrap().phase.is_active(i),
{
}

/// No sequence of actions leads a well-formed session to one that is not.
pub proof fn actions_keep_session_well_formed(session: GameView, actions: Seq<ActionView>)
    requires
        session.wf(),
    ensures
        session.after_all(actions).wf(),
    decreases actions.len(),
{
    if actions.len() > 0 {
        actions_keep_session_well_formed(session, actions.drop_last());
        step_keeps_session_well_formed(session.after_all(actions.drop_last()), actions.last());
    }
}

/// Every session that can be reached from a fresh one is well-formed.
pub proof fn reachable_sessions_are_well_formed(actions: Seq<ActionView>)
    ensures
        GameView::initial().after_all(actions).wf(),
{
    actions_keep_session_well_formed(GameView::initial(), actions);
}

/// An action that the state machine rejects leaves the session as it was,
/// however often it is submitted.
pub proof fn rejected_action_changes_nothing(session: GameView, action: ActionView, times: nat)
    requires
        session.step(action) is None,
    ensures
        session.after_all(Seq::new(times, |i: int| action)) == session,
    decreases times,
{
    let repeated = Seq::new(times, |i: int| action);
    if times > 0 {
        let shorter = Seq::new((times - 1) as nat, |i: int| action);
        assert(repeated.drop_last() =~= shorter);
        rejected_action_changes_nothing(session, action, (times - 1) as nat);
    }
}

/// The projections depend on the session alone. Two sessions with the same
/// content, such as a session and a snapshot of it, give every role the same
/// projection, field by field: the one that was pushed and the one that is
/// computed again cannot differ.
pub proof fn projections_are_determined_by_session(
    session: Game,
    snapshot: Game,
    registered: Option<usize>,
    pushed_admin: AdminUpdate,
    again_admin: AdminUpdate,
    pushed_buzzer: BuzzerUpdate,
    again_buzzer: BuzzerUpdate,
    pushed_spectator: SpectatorUpdate,
    again_spectator: SpectatorUpdate,
)
    requires
        session@ == snapshot@,
        pushed_admin@ == session@.admin_update(),
        again_admin@ == snapshot@.admin_update(),
        pushed_buzzer@ == session@.buzzer_update(optional_index_view(registered)),
        again_buzzer@ == snapshot@.buzzer_update(optional_index_view(registered)),
        pushed_spectator@ == session@.spectator_update(),
        again_spectator@ == snapshot@.spectator_update(),
    ensures
        pushed_admin@ == again_admin@,
        pushed_buzzer@ == again_buzzer@,
        pushed_spectator@ == again_spectator@,
{
}

} // verus!
