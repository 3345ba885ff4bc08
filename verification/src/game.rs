//! Teams and the phase of a running game.

use vstd::prelude::*;

verus! {

/// Mathematical model of a [`Team`].
pub struct TeamView {
    pub name: Seq<char>,
    pub points: nat,
}

/// An in-game team.
#[derive(Debug, PartialEq, Eq)]
pub struct Team {
    pub name: String,
    pub points: usize,
}

impl View for Team {
    type V = TeamView;

    open spec fn view(&self) -> TeamView {
        TeamView { name: self.name@, points: self.points as nat }
    }
}

impl Clone for Team {
    fn clone(&self) -> (res: Self)
        ensures
            res == *self,
    {
        Team { name: self.name.clone(), points: self.points }
    }
}

/// The models of a roster, team by team and in roster order.
pub open spec fn roster_view(teams: Seq<Team>) -> Seq<TeamView> {
    teams.map_values(|t: Team| t@)
}

/// Mathematical model of a [`Phase`].
pub enum PhaseView {
    Selection,
    Listening { active: Seq<bool> },
    Guessing { active: Seq<bool>, team: nat },
}

impl PhaseView {
    /// Whether the team at `index` counts as active.
    ///
    /// While a song is being selected every team is active. While the teams
    /// listen, a team is active if its flag is set; an index past the flags
    /// reads as inactive. While a guess is judged only the guessing team is
    /// active.
    pub open spec fn is_active(self, index: int) -> bool {
        match self {
            PhaseView::Selection => true,
            PhaseView::Listening { active } => 0 <= index < active.len() && active[index],
            PhaseView::Guessing { team, .. } => team == index,
        }
    }
}

/// The phase a game is in. The variants are disjoint and cover every state.
#[derive(Debug, PartialEq, Eq)]
pub enum Phase {
    /// The admin is selecting a song to play.
    Selection,
    /// The teams are listening to the song and nobody has buzzed yet.
    Listening { active: Vec<bool> },
    /// One team has buzzed and the admin is judging its guess.
    Guessing { active: Vec<bool>, team: usize },
}

impl View for Phase {
    type V = PhaseView;

    open spec fn view(&self) -> PhaseView {
        match self {
            Phase::Selection => PhaseView::Selection,
            Phase::Listening { active } => PhaseView::Listening { active: active@ },
            Phase::Guessing { active, team } => PhaseView::Guessing {
                active: active@,
                team: *team as nat,
            },
        }
    }
}

impl Default for Phase {
    fn default() -> (res: Self)
        ensures
            res@ == PhaseView::Selection,
    {
        Phase::Selection
    }
}

impl Clone for Phase {
    fn clone(&self) -> (res: Self)
        ensures
            res@ == self@,
    {
        match self {
            Phase::Selection => Phase::Selection,
            Phase::Listening { active } => Phase::Listening { active: active.clone() },
            Phase::Guessing { active, team } => Phase::Guessing {
                active: active.clone(),
                team: *team,
            },
        }
    }
}

impl Phase {
    /// Checks whether the team at `index` is active in this phase.
    pub fn is_active(&self, index: usize) -> (res: bool)
        ensures
            res == self@.is_active(index as int),
    {
        match self {
            Phase::Selection => true,
            Phase::Listening { active } => {
                if index < active.len() {
                    active[index]
                } else {
                    false
                }
            },
            Phase::Guessing { team, .. } => *team == index,
        }
    }
}

} // verus!
