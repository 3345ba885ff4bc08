//! The session: the single shared record of a game, and the phase state
//! machine that is the only way it changes.

use vstd::prelude::*;
use crate::game::{roster_view, Phase, PhaseView, Team, TeamView};
use crate::track::{TrackMetadata, TrackMetadataView};

verus! {

/// A change notification. It carries no payload beyond one flag: receivers
/// re-read the session to learn what changed.
#[derive(Debug, Clone, Copy, PartialEq, Eq)]
pub struct Update {
    /// Set when the roster lost a team, so that team indices held outside the
    /// session may be stale.
    pub teams_invalidated: bool,
}

impl Default for Update {
    fn default() -> (res: Self)
        ensures
            !res.teams_invalidated,
    {
        Update { teams_invalidated: false }
    }
}

/// Mathematical model of a [`ProviderCall`].
pub enum ProviderCallView {
    Play { id: Seq<char> },
    Pause,
    Resume,
}

/// What a handler asks of the music provider.
#[derive(Debug, Clone, PartialEq, Eq)]
pub enum ProviderCall {
    /// Look up the track with this identifier and start playing it.
    Play { id: String },
    /// Pause playback.
    Pause,
    /// Resume playback.
    Resume,
}

impl View for ProviderCall {
    type V = ProviderCallView;

    open spec fn view(&self) -> ProviderCallView {
        match self {
            ProviderCall::Play { id } => ProviderCallView::Play { id: id@ },
            ProviderCall::Pause => ProviderCallView::Pause,
            ProviderCall::Resume => ProviderCallView::Resume,
        }
    }
}

/// The model of an optional provider call.
pub open spec fn optional_call_view(call: Option<ProviderCall>) -> Option<ProviderCallView> {
    match call {
        Some(c) => Some(c@),
        None => None,
    }
}

/// Mathematical model of an [`Effect`].
pub struct EffectView {
    pub update: Update,
    pub provider: Option<ProviderCallView>,
}

/// What has to happen outside the session after a transition: the
/// notification every handler is woken with, and the provider call that
/// accompanies the transition, if any.
#[derive(Debug, Clone, PartialEq, Eq)]
pub struct Effect {
    pub update: Update,
    pub provider: Option<ProviderCall>,
}

impl View for Effect {
    type V = EffectView;

    open spec fn view(&self) -> EffectView {
        EffectView { update: self.update, provider: optional_call_view(self.provider) }
    }
}

/// The model of an optional effect.
pub open spec fn optional_effect_view(effect: Option<Effect>) -> Option<EffectView> {
    match effect {
        Some(e) => Some(e@),
        None => None,
    }
}

/// Mathematical model of an [`Action`].
pub enum ActionView {
    SelectTrack { track: TrackMetadataView },
    CreateTeam { name: Seq<char> },
    RenameTeam { team: nat, name: Seq<char> },
    DeleteTeam { team: nat },
    StopListening,
    AcceptGuess,
    RejectGuess,
    Buzz { team: nat },
}

impl ActionView {
    /// What accompanies this action when the state machine accepts it. Every
    /// accepted action wakes the handlers; only the deletion of a team
    /// invalidates team indices. Leaving the listening or guessing phase
    /// resumes playback, a buzz pauses it.
    pub open spec fn effect(self) -> EffectView {
        EffectView {
            update: Update { teams_invalidated: self is DeleteTeam },
            provider: match self {
                ActionView::StopListening | ActionView::AcceptGuess | ActionView::RejectGuess => Some(
                    ProviderCallView::Resume,
                ),
                ActionView::Buzz { .. } => Some(ProviderCallView::Pause),
                _ => None,
            },
        }
    }
}

/// An input of the phase state machine.
#[derive(Debug, Clone, PartialEq, Eq)]
pub enum Action {
    /// The provider found this track and started playing it.
    SelectTrack { track: TrackMetadata },
    /// Add a team with this name.
    CreateTeam { name: String },
    /// Give the team at this index a new name.
    RenameTeam { team: usize, name: String },
    /// Remove the team at this index.
    DeleteTeam { team: usize },
    /// End the listening phase without a guess.
    StopListening,
    /// The guess was right.
    AcceptGuess,
    /// The guess was wrong.
    RejectGuess,
    /// The team at this index buzzed.
    Buzz { team: usize },
}

impl View for Action {
    type V = ActionView;

    open spec fn view(&self) -> ActionView {
        match self {
            Action::SelectTrack { track } => ActionView::SelectTrack { track: track@ },
            Action::CreateTeam { name } => ActionView::CreateTeam { name: name@ },
            Action::RenameTeam { team, name } => ActionView::RenameTeam {
                team: *team as nat,
                name: name@,
            },
            Action::DeleteTeam { team } => ActionView::DeleteTeam { team: *team as nat },
            Action::StopListening => ActionView::StopListening,
            Action::AcceptGuess => ActionView::AcceptGuess,
            Action::RejectGuess => ActionView::RejectGuess,
            Action::Buzz { team } => ActionView::Buzz { team: *team as nat },
        }
    }
}

/// The flags of a listening phase that has just begun: one per team, all set.
pub open spec fn all_active(teams: nat) -> Seq<bool> {
    Seq::new(teams, |i: int| true)
}

/// The flags after the team at `team` guessed wrong. A team index past the
/// flags changes nothing.
pub open spec fn deactivated(active: Seq<bool>, team: nat) -> Seq<bool> {
    if team < active.len() {
        active.update(team as int, false)
    } else {
        active
    }
}

/// Whether any flag is still set.
pub open spec fn any_active(active: Seq<bool>) -> bool {
    exists|i: int| 0 <= i < active.len() && active[i]
}

/// Mathematical model of a [`Game`].
pub struct GameView {
    pub phase: PhaseView,
    pub teams: Seq<TeamView>,
    pub song: Option<TrackMetadataView>,
}

impl GameView {
    /// The session as it is created: selecting, no teams, no song.
    pub open spec fn initial() -> GameView {
        GameView { phase: PhaseView::Selection, teams: Seq::empty(), song: None }
    }

    /// The invariant of a session. Where the phase carries activity flags
    /// there is exactly one per team, and the guessing team exists.
    pub open spec fn wf(self) -> bool {
        match self.phase {
            PhaseView::Selection => true,
            PhaseView::Listening { active } => active.len() == self.teams.len(),
            PhaseView::Guessing { active, team } => {
                &&& active.len() == self.teams.len()
                &&& team < self.teams.len()
            },
        }
    }

    /// The phase state machine: the session after `action`, or `None` where
    /// the action is not valid in this state and is ignored.
    ///
    /// Teams are created, renamed and deleted, and a track is selected, only
    /// while selecting. A track that was selected starts a listening phase in
    /// which every team is active. Listening ends when the admin stops it or
    /// when an active team buzzes. A guess is accepted, which scores a point
    /// for the guessing team, or rejected, which deactivates that team; the
    /// teams go on listening if an active team is left. An action that names a
    /// team that does not exist is ignored.
    pub open spec fn step(self, action: ActionView) -> Option<GameView> {
        match (self.phase, action) {
            (PhaseView::Selection, ActionView::SelectTrack { track }) => Some(
                GameView {
                    phase: PhaseView::Listening { active: all_active(self.teams.len()) },
                    song: Some(track),
                    ..self
                },
            ),
            (PhaseView::Selection, ActionView::CreateTeam { name }) => Some(
                GameView { teams: self.teams.push(TeamView { name, points: 0 }), ..self },
            ),
            (PhaseView::Selection, ActionView::RenameTeam { team, name }) => {
                if team < self.teams.len() {
                    Some(
                        GameView {
                            teams: self.teams.update(
                                team as int,
                                TeamView { name, points: self.teams[team as int].points },
                            ),
                            ..self
                        },
                    )
                } else {
                    None
                }
            },
            (PhaseView::Selection, ActionView::DeleteTeam { team }) => {
                if team < self.teams.len() {
                    Some(GameView { teams: self.teams.remove(team as int), ..self })
                } else {
                    None
                }
            },
            (PhaseView::Listening { .. }, ActionView::StopListening) => Some(
                GameView { phase: PhaseView::Selection, ..self },
            ),
            (PhaseView::Listening { active }, ActionView::Buzz { team }) => {
                if team < active.len() && active[team as int] {
                    Some(GameView { phase: PhaseView::Guessing { active, team }, ..self })
                } else {
                    None
                }
            },
            (PhaseView::Guessing { team, .. }, ActionView::AcceptGuess) => {
                if team < self.teams.len() {
                    Some(
                        GameView {
                            phase: PhaseView::Selection,
                            teams: self.teams.update(
                                team as int,
                                TeamView {
                                    name: self.teams[team as int].name,
                                    points: self.teams[team as int].points + 1,
                                },
                            ),
                            ..self
                        },
                    )
                } else {
                    None
                }
            },
            (PhaseView::Guessing { active, team }, ActionView::RejectGuess) => {
                let left = deactivated(active, team);
                if any_active(left) {
                    Some(GameView { phase: PhaseView::Listening { active: left }, ..self })
                } else {
                    Some(GameView { phase: PhaseView::Selection, ..self })
                }
            },
            _ => None,
        }
    }

    /// Whether the machine can count the point that `action` would score.
    /// It fails only where a team already holds the largest number of points
    /// the machine can represent.
    pub open spec fn can_score(self, action: ActionView) -> bool {
        match (self.phase, action) {
            (PhaseView::Guessing { team, .. }, ActionView::AcceptGuess) => team
                < self.teams.len() ==> self.teams[team as int].points < usize::MAX,
            _ => true,
        }
    }

    /// What a call that fed `action` to a session in state `self` must leave
    /// behind: the next state and the action's effect where the state machine
    /// accepts the action, the same state and no effect where it does not.
    pub open spec fn moved(self, action: ActionView, after: GameView, effect: Option<
        EffectView,
    >) -> bool {
        match self.step(action) {
            Some(next) => after == next && effect == Some(action.effect()),
            None => after == self && effect is None,
        }
    }
}

/// The model of optional track metadata.
pub open spec fn optional_metadata_view(song: Option<TrackMetadata>) -> Option<
    TrackMetadataView,
> {
    match song {
        Some(m) => Some(m@),
        None => None,
    }
}

/// The state of a game: the one record that every handler reads and that
/// changes only through the phase state machine.
#[derive(Debug, PartialEq, Eq)]
pub struct Game {
    /// Which phase the game is in.
    pub phase: Phase,
    /// Which teams exist, in the order in which they were created. A team is
    /// known to clients by its index here.
    pub teams: Vec<Team>,
    /// Which song was selected last.
    pub song: Option<TrackMetadata>,
}

impl View for Game {
    type V = GameView;

    open spec fn view(&self) -> GameView {
        GameView {
            phase: self.phase@,
            teams: roster_view(self.teams@),
            song: optional_metadata_view(self.song),
        }
    }
}

impl Clone for Game {
    fn clone(&self) -> (res: Self)
        ensures
            res@ == self@,
    {
        let res = Game {
            phase: self.phase.clone(),
            teams: self.teams.clone(),
            song: match &self.song {
                Some(metadata) => Some(metadata.clone()),
                None => None,
            },
        };
        assert(res@.teams =~= self@.teams);
        res
    }
}

} // verus!
