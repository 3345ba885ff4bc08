//! The role projections: what the admin, a buzzer and a spectator each get
//! to see of a session. Each is a function of the session alone, built anew
//! for every push and never stored back.

use vstd::prelude::*;
use crate::game::{roster_view, Phase, Team};
use crate::message::{
    optional_index_view, optional_track_view, AdminUpdate, AdminUpdateView, BuzzerUpdate, BuzzerUpdateView,
    SpectatorUpdate, SpectatorUpdateView,
};
use crate::session::{Game, GameView};
use crate::track::{Track, TrackView};

verus! {

impl GameView {
    /// The selected song as clients see it.
    pub open spec fn shown_song(self) -> Option<TrackView> {
        match self.song {
            Some(m) => Some(m.track()),
            None => None,
        }
    }

    /// What an admin sees: the phase, the roster and the selected song, in
    /// every phase.
    pub open spec fn admin_update(self) -> AdminUpdateView {
        AdminUpdateView { phase: self.phase, teams: self.teams, song: self.shown_song() }
    }

    /// What a buzzer sees: the phase, the roster and the team it registered
    /// for. The song is never shown to a buzzer.
    pub open spec fn buzzer_update(self, registered: Option<nat>) -> BuzzerUpdateView {
        BuzzerUpdateView { phase: self.phase, teams: self.teams, registered }
    }

    /// What a spectator sees: the phase, the roster, and the selected song
    /// once the round is over, that is while the admin is selecting again.
    pub open spec fn spectator_update(self) -> SpectatorUpdateView {
        SpectatorUpdateView {
            phase: self.phase,
            teams: self.teams,
            revealed: if self.phase is Selection {
                self.shown_song()
            } else {
                None
            },
        }
    }
}

/// A copy of the roster.
fn copy_roster(teams: &Vec<Team>) -> (res: Vec<Team>)
    ensures
        roster_view(res@) == roster_view(teams@),
{
    let res = teams.clone();
    assert(roster_view(res@) =~= roster_view(teams@));
    res
}

impl Game {
    /// The selected song as clients see it.
    fn shown_song(&self) -> (res: Option<Track>)
        ensures
            optional_track_view(res) == self@.shown_song(),
    {
        match &self.song {
            Some(metadata) => Some(Track::from(metadata.clone())),
            None => None,
        }
    }

    /// The projection pushed to an admin.
    pub fn admin_update(&self) -> (res: AdminUpdate)
        ensures
            res@ == self@.admin_update(),
    {
        AdminUpdate {
            phase: self.phase.clone(),
            teams: copy_roster(&self.teams),
            song: self.shown_song(),
        }
    }

    /// The projection pushed to a buzzer that holds the registration
    /// `registered`.
    pub fn buzzer_update(&self, registered: Option<usize>) -> (res: BuzzerUpdate)
        ensures
            res@ == self@.buzzer_update(optional_index_view(registered)),
    {
        BuzzerUpdate { phase: self.phase.clone(), teams: copy_roster(&self.teams), registered }
    }

    /// The projection pushed to a spectator.
    pub fn spectator_update(&self) -> (res: SpectatorUpdate)
        ensures
            res@ == self@.spectator_update(),
    {
        let revealed = match self.phase {
            Phase::Selection => self.shown_song(),
            _ => None,
        };
        SpectatorUpdate { phase: self.phase.clone(), teams: copy_roster(&self.teams), revealed }
    }
}

} // verus!
