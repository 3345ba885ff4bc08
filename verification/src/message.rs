//! What the server pushes to each role and what each role may send back.

use vstd::prelude::*;
use crate::game::{roster_view, Phase, PhaseView, Team, TeamView};
use crate::track::{Track, TrackView};

verus! {

/// Mathematical model of a [`SpectatorUpdate`].
pub struct SpectatorUpdateView {
    pub phase: PhaseView,
    pub teams: Seq<TeamView>,
    pub revealed: Option<TrackView>,
}

/// The part of the state a spectator sees, sent to each spectator on an update.
#[derive(Debug, Clone, PartialEq, Eq)]
pub struct SpectatorUpdate {
    /// Which phase the game is in.
    pub phase: Phase,
    /// Which teams exist.
    pub teams: Vec<Team>,
    /// Which song is revealed.
    pub revealed: Option<Track>,
}

/// The model of an optional track.
pub open spec fn optional_track_view(track: Option<Track>) -> Option<TrackView> {
    match track {
        Some(t) => Some(t@),
        None => None,
    }
}

impl View for SpectatorUpdate {
    type V = SpectatorUpdateView;

    open spec fn view(&self) -> SpectatorUpdateView {
        SpectatorUpdateView {
            phase: self.phase@,
            teams: roster_view(self.teams@),
            revealed: optional_track_view(self.revealed),
        }
    }
}

/// Mathematical model of a [`BuzzerUpdate`].
pub struct BuzzerUpdateView {
    pub phase: PhaseView,
    pub teams: Seq<TeamView>,
    pub registered: Option<nat>,
}

/// The part of the state a buzzer sees, sent to each buzzer on an update.
#[derive(Debug, Clone, PartialEq, Eq)]
pub struct BuzzerUpdate {
    /// Which phase the game is in.
    pub phase: Phase,
    /// Which teams exist.
    pub teams: Vec<Team>,
    /// Which team this buzzer is registered to.
    pub registered: Option<usize>,
}

/// The model of an optional team index.
pub open spec fn optional_index_view(index: Option<usize>) -> Option<nat> {
    match index {
        Some(i) => Some(i as nat),
        None => None,
    }
}

impl View for BuzzerUpdate {
    type V = BuzzerUpdateView;

    open spec fn view(&self) -> BuzzerUpdateView {
        BuzzerUpdateView {
            phase: self.phase@,
            teams: roster_view(self.teams@),
            registered: optional_index_view(self.registered),
        }
    }
}

/// Mathematical model of a [`BuzzerInteraction`].
pub enum BuzzerInteractionView {
    Register { team: nat },
    Buzz,
}

/// An action a buzzer can take, sent by the buzzer to the server.
#[derive(Debug, Clone, PartialEq, Eq)]
pub enum BuzzerInteraction {
    /// The buzzer wants to register for the team.
    Register { team: usize },
    /// The buzzer wants to buzz for its registered team.
    Buzz,
}

impl View for BuzzerInteraction {
    type V = BuzzerInteractionView;

    open spec fn view(&self) -> BuzzerInteractionView {
        match self {
            BuzzerInteraction::Register { team } => BuzzerInteractionView::Register {
                team: *team as nat,
            },
            BuzzerInteraction::Buzz => BuzzerInteractionView::Buzz,
        }
    }
}

/// Mathematical model of an [`AdminUpdate`].
pub struct AdminUpdateView {
    pub phase: PhaseView,
    pub teams: Seq<TeamView>,
    pub song: Option<TrackView>,
}

/// The part of the state an admin sees, sent to each admin on an update.
#[derive(Debug, Clone, PartialEq, Eq)]
pub struct AdminUpdate {
    /// Which phase the game is in.
    pub phase: Phase,
    /// Which teams exist.
    pub teams: Vec<Team>,
    /// Which song is or was selected.
    pub song: Option<Track>,
}

impl View for AdminUpdate {
    type V = AdminUpdateView;

    open spec fn view(&self) -> AdminUpdateView {
        AdminUpdateView {
            phase: self.phase@,
            teams: roster_view(self.teams@),
            song: optional_track_view(self.song),
        }
    }
}

/// Mathematical model of an [`AdminInteraction`].
pub enum AdminInteractionView {
    Selection { id: Seq<char> },
    StopListening,
    AcceptGuess,
    RejectGuess,
    CreateTeam,
    RenameTeam { team: nat, name: Seq<char> },
    DeleteTeam { team: nat },
}

/// An action an admin can take, sent by the admin to the server.
#[derive(Debug, Clone, PartialEq, Eq)]
pub enum AdminInteraction {
    /// The admin has decided on the song with the given provider address.
    Selection { id: String },
    /// The admin has stopped a listening phase.
    StopListening,
    /// The admin has accepted the guess.
    AcceptGuess,
    /// The admin has rejected the guess.
    RejectGuess,
    /// The admin has created a new team.
    CreateTeam,
    /// The admin has renamed an existing team.
    RenameTeam { team: usize, name: String },
    /// The admin has deleted an existing team.
    DeleteTeam { team: usize },
}

impl View for AdminInteraction {
    type V = AdminInteractionView;

    open spec fn view(&self) -> AdminInteractionView {
        match self {
            AdminInteraction::Selection { id } => AdminInteractionView::Selection { id: id@ },
            AdminInteraction::StopListening => AdminInteractionView::StopListening,
            AdminInteraction::AcceptGuess => AdminInteractionView::AcceptGuess,
            AdminInteraction::RejectGuess => AdminInteractionView::RejectGuess,
            AdminInteraction::CreateTeam => AdminInteractionView::CreateTeam,
            AdminInteraction::RenameTeam { team, name } => AdminInteractionView::RenameTeam {
                team: *team as nat,
                name: name@,
            },
            AdminInteraction::DeleteTeam { team } => AdminInteractionView::DeleteTeam {
                team: *team as nat,
            },
        }
    }
}

} // verus!
