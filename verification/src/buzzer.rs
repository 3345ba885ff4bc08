//! The decisions of a buzzer connection's handler.
//!
//! Besides the session, a buzzer handler has one piece of state of its own:
//! the index of the team it registered for. It is no part of the session,
//! and it goes stale when a team is deleted, which is why the notification
//! of a deletion clears it. A handler that missed notifications cannot know
//! whether a deletion was among them, so it clears its registration too.

use vstd::prelude::*;
use crate::bus::Signal;
use crate::message::{
    optional_index_view, BuzzerInteraction, BuzzerInteractionView, BuzzerUpdate, BuzzerUpdateView,
};
use crate::session::{
    optional_call_view, optional_effect_view, ActionView, Effect, EffectView, Game, GameView,
    ProviderCall, ProviderCallView, Update,
};

verus! {

/// Mathematical model of a [`BuzzerInbound`].
pub enum BuzzerInboundView {
    Interaction(BuzzerInteractionView),
    Malformed,
    Disconnected,
}

/// What waiting on the connection ended with.
#[derive(Debug, Clone, PartialEq, Eq)]
pub enum BuzzerInbound {
    /// A message that decoded as an interaction.
    Interaction(BuzzerInteraction),
    /// A message that did not decode.
    Malformed,
    /// The connection is closed or failed.
    Disconnected,
}

impl View for BuzzerInbound {
    type V = BuzzerInboundView;

    open spec fn view(&self) -> BuzzerInboundView {
        match self {
            BuzzerInbound::Interaction(interaction) => BuzzerInboundView::Interaction(
                interaction@,
            ),
            BuzzerInbound::Malformed => BuzzerInboundView::Malformed,
            BuzzerInbound::Disconnected => BuzzerInboundView::Disconnected,
        }
    }
}

/// Mathematical model of a [`BuzzerReaction`].
pub struct BuzzerReactionView {
    pub push: Option<BuzzerUpdateView>,
    pub notify: Option<Update>,
    pub provider: Option<ProviderCallView>,
    pub close: bool,
}

impl BuzzerReactionView {
    /// The reaction that does nothing.
    pub open spec fn idle() -> BuzzerReactionView {
        BuzzerReactionView { push: None, notify: None, provider: None, close: false }
    }

    /// The reaction that carries out the effect of a transition, or does
    /// nothing where the state machine rejected the action.
    pub open spec fn of_effect(effect: Option<EffectView>) -> BuzzerReactionView {
        match effect {
            Some(e) => BuzzerReactionView {
                push: None,
                notify: Some(e.update),
                provider: e.provider,
                close: false,
            },
            None => BuzzerReactionView::idle(),
        }
    }
}

/// What the handler of a buzzer connection has to do next.
#[derive(Debug, Clone, PartialEq, Eq)]
pub struct BuzzerReaction {
    /// The projection to send over the connection.
    pub push: Option<BuzzerUpdate>,
    /// The notification to send on the bus.
    pub notify: Option<Update>,
    /// The call to make to the music provider.
    pub provider: Option<ProviderCall>,
    /// Whether the handler ends.
    pub close: bool,
}

/// The model of an optional buzzer projection.
pub open spec fn optional_buzzer_update_view(update: Option<BuzzerUpdate>) -> Option<
    BuzzerUpdateView,
> {
    match update {
        Some(u) => Some(u@),
        None => None,
    }
}

impl View for BuzzerReaction {
    type V = BuzzerReactionView;

    open spec fn view(&self) -> BuzzerReactionView {
        BuzzerReactionView {
            push: optional_buzzer_update_view(self.push),
            notify: self.notify,
            provider: optional_call_view(self.provider),
            close: self.close,
        }
    }
}

impl GameView {
    /// The registration of a buzzer handler after a signal on the bus, and
    /// what the handler answers. The notification of a deleted team clears
    /// the registration first, and so do missed notifications. Then the
    /// handler pushes the buzzer's projection. A closed bus ends the handler.
    pub open spec fn buzzer_on_signal(self, registered: Option<nat>, signal: Signal) -> (
        Option<nat>,
        BuzzerReactionView,
    ) {
        if signal.asks_for_push() {
            let kept = if signal.invalidates_teams() {
                None
            } else {
                registered
            };
            (
                kept,
                BuzzerReactionView {
                    push: Some(self.buzzer_update(kept)),
                    ..BuzzerReactionView::idle()
                },
            )
        } else {
            (registered, BuzzerReactionView { close: true, ..BuzzerReactionView::idle() })
        }
    }

    /// The session and the registration after a buzzer's message, and what
    /// the handler answers to it.
    ///
    /// A buzzer registers for a team that exists, in any phase; that changes
    /// its registration and not the session, and the other handlers are woken
    /// all the same. A buzz counts for the team the buzzer registered for and
    /// goes through the state machine. A buzz without a registration, a
    /// registration for a team that does not exist and a message that did not
    /// decode are dropped. A closed connection ends the handler.
    pub open spec fn buzzer_on_inbound(
        self,
        registered: Option<nat>,
        inbound: BuzzerInboundView,
    ) -> (GameView, Option<nat>, BuzzerReactionView) {
        match inbound {
            BuzzerInboundView::Interaction(BuzzerInteractionView::Register { team }) => {
                if team < self.teams.len() {
                    (
                        self,
                        Some(team),
                        BuzzerReactionView {
                            notify: Some(Update { teams_invalidated: false }),
                            ..BuzzerReactionView::idle()
                        },
                    )
                } else {
                    (self, registered, BuzzerReactionView::idle())
                }
            },
            BuzzerInboundView::Interaction(BuzzerInteractionView::Buzz) => {
                match registered {
                    Some(team) => {
                        let action = ActionView::Buzz { team };
                        match self.step(action) {
                            Some(next) => (
                                next,
                                registered,
                                BuzzerReactionView::of_effect(Some(action.effect())),
                            ),
                            None => (self, registered, BuzzerReactionView::idle()),
                        }
                    },
                    None => (self, registered, BuzzerReactionView::idle()),
                }
            },
            BuzzerInboundView::Malformed => (self, registered, BuzzerReactionView::idle()),
            BuzzerInboundView::Disconnected => (
                self,
                registered,
                BuzzerReactionView { close: true, ..BuzzerReactionView::idle() },
            ),
        }
    }
}

/// The reaction that does nothing.
fn idle() -> (res: BuzzerReaction)
    ensures
        res@ == BuzzerReactionView::idle(),
{
    BuzzerReaction { push: None, notify: None, provider: None, close: false }
}

/// The reaction that carries out the effect of a transition.
fn carry_out(effect: Option<Effect>) -> (res: BuzzerReaction)
    ensures
        res@ == BuzzerReactionView::of_effect(optional_effect_view(effect)),
{
    match effect {
        Some(e) => BuzzerReaction {
            push: None,
            notify: Some(e.update),
            provider: e.provider,
            close: false,
        },
        None => idle(),
    }
}

/// Answers a signal on the bus. The handler needs only read access to the
/// session for it.
pub fn on_signal(game: &Game, registered: &mut Option<usize>, signal: Signal) -> (res:
    BuzzerReaction)
    ensures
        game@.buzzer_on_signal(optional_index_view(*old(registered)), signal) == (
            optional_index_view(*final(registered)),
            res@,
        ),
{
    match signal {
        Signal::Closed => BuzzerReaction { push: None, notify: None, provider: None, close: true },
        Signal::Changed(update) => {
            if update.teams_invalidated {
                *registered = None;
            }
            BuzzerReaction {
                push: Some(game.buzzer_update(*registered)),
                notify: None,
                provider: None,
                close: false,
            }
        },
        Signal::Missed => {
            *registered = None;
            BuzzerReaction {
                push: Some(game.buzzer_update(None)),
                notify: None,
                provider: None,
                close: false,
            }
        },
    }
}

/// Answers what the connection delivered. The handler holds the session
/// exclusively while this checks and changes it.
pub fn on_inbound(game: &mut Game, registered: &mut Option<usize>, inbound: BuzzerInbound) -> (res:
    BuzzerReaction)
    ensures
        old(game)@.buzzer_on_inbound(optional_index_view(*old(registered)), inbound@) == (
            final(game)@,
            optional_index_view(*final(registered)),
            res@,
        ),
        old(game)@.wf() ==> final(game)@.wf(),
{
    match inbound {
        BuzzerInbound::Interaction(BuzzerInteraction::Register { team }) => {
            if team < game.teams.len() {
                *registered = Some(team);
                BuzzerReaction {
                    push: None,
                    notify: Some(Update { teams_invalidated: false }),
                    provider: None,
                    close: false,
                }
            } else {
                idle()
            }
        },
        BuzzerInbound::Interaction(BuzzerInteraction::Buzz) => {
            match *registered {
                Some(team) => carry_out(game.buzz(team)),
                None => idle(),
            }
        },
        BuzzerInbound::Malformed => idle(),
        BuzzerInbound::Disconnected => BuzzerReaction {
            push: None,
            notify: None,
            provider: None,
            close: true,
        },
    }
}

} // verus!
