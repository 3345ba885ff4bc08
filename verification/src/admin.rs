//! The decisions of an admin connection's handler.
//!
//! The handler waits for two things at once, a signal on the bus and a
//! message from its connection, and feeds whichever comes first into the
//! functions of this module. Each answers with an [`AdminReaction`], which
//! the handler carries out.

use vstd::prelude::*;
use crate::bus::Signal;
use crate::game::{Phase, PhaseView};
use crate::message::{AdminInteraction, AdminInteractionView, AdminUpdate, AdminUpdateView};
use crate::names::{adjectives, is_generated_name, nouns, random_name};
use crate::provider::{track_id_from_uri, track_uri_id};
use crate::session::{
    optional_call_view, optional_effect_view, ActionView, Effect, EffectView, Game, GameView,
    ProviderCall, ProviderCallView, Update,
};
use crate::track::{TrackMetadata, TrackMetadataView};

verus! {

/// Mathematical model of an [`AdminInbound`].
pub enum AdminInboundView {
    Interaction(AdminInteractionView),
    Malformed,
    Disconnected,
}

/// What waiting on the connection ended with.
#[derive(Debug, Clone, PartialEq, Eq)]
pub enum AdminInbound {
    /// A message that decoded as an interaction.
    Interaction(AdminInteraction),
    /// A message that did not decode.
    Malformed,
    /// The connection is closed or failed.
    Disconnected,
}

impl View for AdminInbound {
    type V = AdminInboundView;

    open spec fn view(&self) -> AdminInboundView {
        match self {
            AdminInbound::Interaction(interaction) => AdminInboundView::Interaction(interaction@),
            AdminInbound::Malformed => AdminInboundView::Malformed,
            AdminInbound::Disconnected => AdminInboundView::Disconnected,
        }
    }
}

/// Mathematical model of an [`AdminReaction`].
pub struct AdminReactionView {
    pub push: Option<AdminUpdateView>,
    pub notify: Option<Update>,
    pub provider: Option<ProviderCallView>,
    pub close: bool,
}

impl AdminReactionView {
    /// The reaction that does nothing.
    pub open spec fn idle() -> AdminReactionView {
        AdminReactionView { push: None, notify: None, provider: None, close: false }
    }

    /// The reaction that carries out the effect of a transition, or does
    /// nothing where the state machine rejected the action.
    pub open spec fn of_effect(effect: Option<EffectView>) -> AdminReactionView {
        match effect {
            Some(e) => AdminReactionView {
                push: None,
                notify: Some(e.update),
                provider: e.provider,
                close: false,
            },
            None => AdminReactionView::idle(),
        }
    }
}

/// What the handler of an admin connection has to do next.
#[derive(Debug, Clone, PartialEq, Eq)]
pub struct AdminReaction {
    /// The projection to send over the connection.
    pub push: Option<AdminUpdate>,
    /// The notification to send on the bus.
    pub notify: Option<Update>,
    /// The call to make to the music provider.
    pub provider: Option<ProviderCall>,
    /// Whether the handler ends.
    pub close: bool,
}

/// The model of an optional admin projection.
pub open spec fn optional_admin_update_view(update: Option<AdminUpdate>) -> Option<
    AdminUpdateView,
> {
    match update {
        Some(u) => Some(u@),
        None => None,
    }
}

impl View for AdminReaction {
    type V = AdminReactionView;

    open spec fn view(&self) -> AdminReactionView {
        AdminReactionView {
            push: optional_admin_update_view(self.push),
            notify: self.notify,
            provider: optional_call_view(self.provider),
            close: self.close,
        }
    }
}

impl AdminInteractionView {
    /// The action of the state machine that this interaction asks for. A
    /// team that is created gets the name `name`. The selection of a song is
    /// no action yet: it becomes one when the provider plays the song.
    pub open spec fn action(self, name: Seq<char>) -> Option<ActionView> {
        match self {
            AdminInteractionView::Selection { .. } => None,
            AdminInteractionView::StopListening => Some(ActionView::StopListening),
            AdminInteractionView::AcceptGuess => Some(ActionView::AcceptGuess),
            AdminInteractionView::RejectGuess => Some(ActionView::RejectGuess),
            AdminInteractionView::CreateTeam => Some(ActionView::CreateTeam { name }),
            AdminInteractionView::RenameTeam { team, name: new_name } => Some(
                ActionView::RenameTeam { team, name: new_name },
            ),
            AdminInteractionView::DeleteTeam { team } => Some(ActionView::DeleteTeam { team }),
        }
    }
}

impl GameView {
    /// What an admin handler answers to a signal on the bus: it pushes the
    /// admin's projection of the session, or ends if the bus is closed.
    pub open spec fn admin_on_signal(self, signal: Signal) -> AdminReactionView {
        if signal.asks_for_push() {
            AdminReactionView { push: Some(self.admin_update()), ..AdminReactionView::idle() }
        } else {
            AdminReactionView { close: true, ..AdminReactionView::idle() }
        }
    }

    /// The session after an admin's message, and what the handler answers
    /// to it. A team that is created gets the name `name`.
    ///
    /// A selection changes nothing yet: while the admin is selecting and the
    /// message names a track, the handler asks the provider to play it. Every
    /// other interaction goes through the state machine. A message that did
    /// not decode is dropped, and a closed connection ends the handler.
    pub open spec fn admin_on_inbound(self, inbound: AdminInboundView, name: Seq<char>) -> (
        GameView,
        AdminReactionView,
    ) {
        match inbound {
            AdminInboundView::Interaction(AdminInteractionView::Selection { id }) => {
                match (self.phase, track_uri_id(id)) {
                    (PhaseView::Selection, Some(track)) => (
                        self,
                        AdminReactionView {
                            provider: Some(ProviderCallView::Play { id: track }),
                            ..AdminReactionView::idle()
                        },
                    ),
                    _ => (self, AdminReactionView::idle()),
                }
            },
            AdminInboundView::Interaction(interaction) => {
                let action = interaction.action(name).unwrap();
                match self.step(action) {
                    Some(next) => (next, AdminReactionView::of_effect(Some(action.effect()))),
                    None => (self, AdminReactionView::idle()),
                }
            },
            AdminInboundView::Malformed => (self, AdminReactionView::idle()),
            AdminInboundView::Disconnected => (
                self,
                AdminReactionView { close: true, ..AdminReactionView::idle() },
            ),
        }
    }

    /// Whether the machine can count the point that the message would score.
    pub open spec fn admin_can_score(self, inbound: AdminInboundView) -> bool {
        inbound matches AdminInboundView::Interaction(AdminInteractionView::AcceptGuess)
            ==> self.can_score(ActionView::AcceptGuess)
    }

    /// The session after the provider has started to play a track that an
    /// admin selected, and what the handler answers. The track is recorded
    /// and the teams start listening if the admin is still selecting.
    pub open spec fn admin_on_played(self, track: TrackMetadataView) -> (
        GameView,
        AdminReactionView,
    ) {
        let action = ActionView::SelectTrack { track };
        match self.step(action) {
            Some(next) => (next, AdminReactionView::of_effect(Some(action.effect()))),
            None => (self, AdminReactionView::idle()),
        }
    }
}

/// The reaction that does nothing.
fn idle() -> (res: AdminReaction)
    ensures
        res@ == AdminReactionView::idle(),
{
    AdminReaction { push: None, notify: None, provider: None, close: false }
}

/// The reaction that carries out the effect of a transition.
fn carry_out(effect: Option<Effect>) -> (res: AdminReaction)
    ensures
        res@ == AdminReactionView::of_effect(optional_effect_view(effect)),
{
    match effect {
        Some(e) => AdminReaction {
            push: None,
            notify: Some(e.update),
            provider: e.provider,
            close: false,
        },
        None => idle(),
    }
}

/// Answers a signal on the bus. The handler needs only read access to the
/// session for it.
pub fn on_signal(game: &Game, signal: Signal) -> (res: AdminReaction)
    ensures
        res@ == game@.admin_on_signal(signal),
{
    match signal {
        Signal::Closed => AdminReaction { push: None, notify: None, provider: None, close: true },
        _ => AdminReaction {
            push: Some(game.admin_update()),
            notify: None,
            provider: None,
            close: false,
        },
    }
}

/// Answers what the connection delivered. The handler holds the session
/// exclusively while this checks and changes it.
///
/// The name of a team that is created is made up here, so the contract
/// speaks of some name that can be generated.
pub fn on_inbound(game: &mut Game, inbound: AdminInbound) -> (res: AdminReaction)
    requires
        old(game)@.admin_can_score(inbound@),
    ensures
        exists|name: Seq<char>|
            is_generated_name(name) && #[trigger] old(game)@.admin_on_inbound(inbound@, name) == (
                final(game)@,
                res@,
            ),
        old(game)@.wf() ==> final(game)@.wf(),
{
    let ghost some_name = adjectives()[0] + " "@ + nouns()[0];
    assert(is_generated_name(some_name));
    match inbound {
        AdminInbound::Interaction(interaction) => match interaction {
            AdminInteraction::Selection { id } => {
                let res = match game.phase {
                    Phase::Selection => match track_id_from_uri(id.as_str()) {
                        Some(track) => AdminReaction {
                            push: None,
                            notify: None,
                            provider: Some(ProviderCall::Play { id: track }),
                            close: false,
                        },
                        None => idle(),
                    },
                    _ => idle(),
                };
                assert(old(game)@.admin_on_inbound(inbound@, some_name) == (game@, res@));
                res
            },
            AdminInteraction::CreateTeam => {
                let name = random_name();
                let ghost made = name@;
                let res = carry_out(game.create_team(name));
                assert(old(game)@.admin_on_inbound(inbound@, made) == (game@, res@));
                res
            },
            AdminInteraction::RenameTeam { team, name } => {
                let res = carry_out(game.rename_team(team, name));
                assert(old(game)@.admin_on_inbound(inbound@, some_name) == (game@, res@));
                res
            },
            AdminInteraction::DeleteTeam { team } => {
                let res = carry_out(game.delete_team(team));
                assert(old(game)@.admin_on_inbound(inbound@, some_name) == (game@, res@));
                res
            },
            AdminInteraction::StopListening => {
                let res = carry_out(game.stop_listening());
                assert(old(game)@.admin_on_inbound(inbound@, some_name) == (game@, res@));
                res
            },
            AdminInteraction::AcceptGuess => {
                let res = carry_out(game.accept_guess());
                assert(old(game)@.admin_on_inbound(inbound@, some_name) == (game@, res@));
                res
            },
            AdminInteraction::RejectGuess => {
                let res = carry_out(game.reject_guess());
                assert(old(game)@.admin_on_inbound(inbound@, some_name) == (game@, res@));
                res
            },
        },
        AdminInbound::Malformed => {
            let res = idle();
            assert(old(game)@.admin_on_inbound(inbound@, some_name) == (game@, res@));
            res
        },
        AdminInbound::Disconnected => {
            let res = AdminReaction { push: None, notify: None, provider: None, close: true };
            assert(old(game)@.admin_on_inbound(inbound@, some_name) == (game@, res@));
            res
        },
    }
}

/// Commits a selection once the provider has found the track and started to
/// play it. The handler holds the session exclusively for this call only,
/// not while it waits for the provider.
pub fn on_played(game: &mut Game, track: TrackMetadata) -> (res: AdminReaction)
    ensures
        old(game)@.admin_on_played(track@) == (final(game)@, res@),
        old(game)@.wf() ==> final(game)@.wf(),
{
    carry_out(game.select_track(track))
}

} // verus!
