//! The decisions of a spectator connection's handler. A spectator only
//! watches: its handler reacts to the bus and to nothing else.

use vstd::prelude::*;
use crate::bus::Signal;
use crate::message::{SpectatorUpdate, SpectatorUpdateView};
use crate::session::{Game, GameView};

verus! {

/// Mathematical model of a [`SpectatorReaction`].
pub struct SpectatorReactionView {
    pub push: Option<SpectatorUpdateView>,
    pub close: bool,
}

/// What the handler of a spectator connection has to do next.
#[derive(Debug, Clone, PartialEq, Eq)]
pub struct SpectatorReaction {
    /// The projection to send over the connection.
    pub push: Option<SpectatorUpdate>,
    /// Whether the handler ends.
    pub close: bool,
}

/// The model of an optional spectator projection.
pub open spec fn optional_spectator_update_view(update: Option<SpectatorUpdate>) -> Option<
    SpectatorUpdateView,
> {
    match update {
        Some(u) => Some(u@),
        None => None,
    }
}

impl View for SpectatorReaction {
    type V = SpectatorReactionView;

    open spec fn view(&self) -> SpectatorReactionView {
        SpectatorReactionView {
            push: optional_spectator_update_view(self.push),
            close: self.close,
        }
    }
}

impl GameView {
    /// What a spectator handler answers to a signal on the bus: it pushes the
    /// spectator's projection of the session, or ends if the bus is closed.
    pub open spec fn spectator_on_signal(self, signal: Signal) -> SpectatorReactionView {
        if signal.asks_for_push() {
            SpectatorReactionView { push: Some(self.spectator_update()), close: false }
        } else {
            SpectatorReactionView { push: None, close: true }
        }
    }
}

/// Answers a signal on the bus. The handler needs only read access to the
/// session for it.
pub fn on_signal(game: &Game, signal: Signal) -> (res: SpectatorReaction)
    ensures
        res@ == game@.spectator_on_signal(signal),
{
    match signal {
        Signal::Closed => SpectatorReaction { push: None, close: true },
        _ => SpectatorReaction { push: Some(game.spectator_update()), close: false },
    }
}

} // verus!
