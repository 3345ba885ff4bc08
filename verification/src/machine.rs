//! The phase state machine, executable: one method of [`Game`] per action
//! and [`Game::apply`] for an action given as a value.

use vstd::prelude::*;
use crate::game::{Phase, Team, TeamView};
use crate::session::{
    all_active, any_active, optional_effect_view, Action, ActionView, Effect, Game, GameView,
    ProviderCall, Update,
};
use crate::track::TrackMetadata;

verus! {

/// The effect of an accepted action: the notification that wakes the
/// handlers, and the provider call that goes with the action.
fn announced(teams_invalidated: bool, provider: Option<ProviderCall>) -> (res: Option<Effect>)
    ensures
        res matches Some(e) && e.update.teams_invalidated == teams_invalidated && e.provider
            == provider,
{
    Some(Effect { update: Update { teams_invalidated }, provider })
}

impl Game {
    /// A fresh session: selecting, without teams and without a song.
    pub fn new() -> (res: Game)
        ensures
            res@ == GameView::initial(),
            res@.wf(),
    {
        let res = Game { phase: Phase::Selection, teams: Vec::new(), song: None };
        assert(res@.teams =~= Seq::<TeamView>::empty());
        res
    }

    /// Appends a team with the given name and no points. Ignored unless the
    /// admin is selecting.
    pub fn create_team(&mut self, name: String) -> (res: Option<Effect>)
        ensures
            old(self)@.moved(
                ActionView::CreateTeam { name: name@ },
                final(self)@,
                optional_effect_view(res),
            ),
            old(self)@.wf() ==> final(self)@.wf(),
    {
        match self.phase {
            Phase::Selection => {
                self.teams.push(Team { name, points: 0 });
                assert(self@.teams =~= old(self)@.teams.push(TeamView { name: name@, points: 0 }));
                announced(false, None)
            },
            _ => None,
        }
    }

    /// Gives the team at index `team` a new name and keeps its points.
    /// Ignored unless the admin is selecting and the team exists.
    pub fn rename_team(&mut self, team: usize, name: String) -> (res: Option<Effect>)
        ensures
            old(self)@.moved(
                ActionView::RenameTeam { team: team as nat, name: name@ },
                final(self)@,
                optional_effect_view(res),
            ),
            old(self)@.wf() ==> final(self)@.wf(),
    {
        match self.phase {
            Phase::Selection => {
                if team < self.teams.len() {
                    let points = self.teams[team].points;
                    self.teams.set(team, Team { name, points });
                    assert(self@.teams =~= old(self)@.teams.update(
                        team as int,
                        TeamView { name: name@, points: points as nat },
                    ));
                    announced(false, None)
                } else {
                    None
                }
            },
            _ => None,
        }
    }

    /// Removes the team at index `team`; the teams behind it move up by one.
    /// Ignored unless the admin is selecting and the team exists. The
    /// notification says that team indices are no longer to be trusted.
    pub fn delete_team(&mut self, team: usize) -> (res: Option<Effect>)
        ensures
            old(self)@.moved(
                ActionView::DeleteTeam { team: team as nat },
                final(self)@,
                optional_effect_view(res),
            ),
            old(self)@.wf() ==> final(self)@.wf(),
    {
        match self.phase {
            Phase::Selection => {
                if team < self.teams.len() {
                    self.teams.remove(team);
                    assert(self@.teams =~= old(self)@.teams.remove(team as int));
                    announced(true, None)
                } else {
                    None
                }
            },
            _ => None,
        }
    }

    /// Records the track the provider has started to play and begins a
    /// listening phase in which every team is active. Ignored unless the
    /// admin is selecting.
    pub fn select_track(&mut self, track: TrackMetadata) -> (res: Option<Effect>)
        ensures
            old(self)@.moved(
                ActionView::SelectTrack { track: track@ },
                final(self)@,
                optional_effect_view(res),
            ),
            old(self)@.wf() ==> final(self)@.wf(),
    {
        match self.phase {
            Phase::Selection => {
                let mut active: Vec<bool> = Vec::new();
                let count = self.teams.len();
                while active.len() < count
                    invariant
                        active.len() <= count,
                        forall|i: int| 0 <= i < active.len() ==> active[i],
                    decreases count - active.len(),
                {
                    active.push(true);
                }
                assert(active@ =~= all_active(count as nat));
                self.song = Some(track);
                self.phase = Phase::Listening { active };
                announced(false, None)
            },
            _ => None,
        }
    }

    /// Ends the listening phase without a guess and returns to selecting.
    /// Ignored unless the teams are listening.
    pub fn stop_listening(&mut self) -> (res: Option<Effect>)
        ensures
            old(self)@.moved(ActionView::StopListening, final(self)@, optional_effect_view(res)),
            old(self)@.wf() ==> final(self)@.wf(),
    {
        match self.phase {
            Phase::Listening { .. } => {
                self.phase = Phase::Selection;
                announced(false, Some(ProviderCall::Resume))
            },
            _ => None,
        }
    }

    /// Lets the team at index `team` guess. Ignored unless the teams are
    /// listening and that team is active; a team without a flag is not.
    pub fn buzz(&mut self, team: usize) -> (res: Option<Effect>)
        ensures
            old(self)@.moved(
                ActionView::Buzz { team: team as nat },
                final(self)@,
                optional_effect_view(res),
            ),
            old(self)@.wf() ==> final(self)@.wf(),
    {
        let mut phase = Phase::Selection;
        core::mem::swap(&mut self.phase, &mut phase);
        match phase {
            Phase::Listening { active } => {
                if team < active.len() && active[team] {
                    self.phase = Phase::Guessing { active, team };
                    announced(false, Some(ProviderCall::Pause))
                } else {
                    self.phase = Phase::Listening { active };
                    None
                }
            },
            other => {
                self.phase = other;
                None
            },
        }
    }

    /// Whether a guess can be accepted now without a team's points running
    /// over.
    pub fn can_accept_guess(&self) -> (res: bool)
        ensures
            res == self@.can_score(ActionView::AcceptGuess),
    {
        match self.phase {
            Phase::Guessing { team, .. } => {
                team >= self.teams.len() || self.teams[team].points < usize::MAX
            },
            _ => true,
        }
    }

    /// Scores a point for the guessing team and returns to selecting.
    /// Ignored unless a guess is being judged and the guessing team exists.
    pub fn accept_guess(&mut self) -> (res: Option<Effect>)
        requires
            old(self)@.can_score(ActionView::AcceptGuess),
        ensures
            old(self)@.moved(ActionView::AcceptGuess, final(self)@, optional_effect_view(res)),
            old(self)@.wf() ==> final(self)@.wf(),
    {
        match self.phase {
            Phase::Guessing { team, .. } => {
                if team < self.teams.len() {
                    let scored = Team {
                        name: self.teams[team].name.clone(),
                        points: self.teams[team].points + 1,
                    };
                    self.teams.set(team, scored);
                    self.phase = Phase::Selection;
                    assert(self@.teams =~= old(self)@.teams.update(
                        team as int,
                        TeamView {
                            name: old(self)@.teams[team as int].name,
                            points: old(self)@.teams[team as int].points + 1,
                        },
                    ));
                    announced(false, Some(ProviderCall::Resume))
                } else {
                    None
                }
            },
            _ => None,
        }
    }

    /// Deactivates the guessing team. The teams go on listening if an active
    /// team is left; otherwise the admin selects again. Ignored unless a
    /// guess is being judged.
    pub fn reject_guess(&mut self) -> (res: Option<Effect>)
        ensures
            old(self)@.moved(ActionView::RejectGuess, final(self)@, optional_effect_view(res)),
            old(self)@.wf() ==> final(self)@.wf(),
    {
        let mut phase = Phase::Selection;
        core::mem::swap(&mut self.phase, &mut phase);
        match phase {
            Phase::Guessing { active, team } => {
                let mut active = active;
                if team < active.len() {
                    active.set(team, false);
                }
                if has_active(&active) {
                    self.phase = Phase::Listening { active };
                }
                announced(false, Some(ProviderCall::Resume))
            },
            other => {
                self.phase = other;
                None
            },
        }
    }

    /// Feeds one action to the state machine.
    pub fn apply(&mut self, action: Action) -> (res: Option<Effect>)
        requires
            old(self)@.can_score(action@),
        ensures
            old(self)@.moved(action@, final(self)@, optional_effect_view(res)),
            old(self)@.wf() ==> final(self)@.wf(),
    {
        match action {
            Action::SelectTrack { track } => self.select_track(track),
            Action::CreateTeam { name } => self.create_team(name),
            Action::RenameTeam { team, name } => self.rename_team(team, name),
            Action::DeleteTeam { team } => self.delete_team(team),
            Action::StopListening => self.stop_listening(),
            Action::AcceptGuess => self.accept_guess(),
            Action::RejectGuess => self.reject_guess(),
            Action::Buzz { team } => self.buzz(team),
        }
    }
}

/// Whether any team is still active.
fn has_active(active: &Vec<bool>) -> (res: bool)
    ensures
        res == any_active(active@),
{
    let mut i: usize = 0;
    while i < active.len()
        invariant
            i <= active.len(),
            forall|j: int| 0 <= j < i ==> !active[j],
        decreases active.len() - i,
    {
        if active[i] {
            return true;
        }
        i += 1;
    }
    false
}

} // verus!
