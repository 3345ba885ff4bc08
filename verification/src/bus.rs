//! The handler's side of the change-notification bus.
//!
//! The bus wakes every handler whenever the session may have changed. It is
//! level-triggered: a notification says that something changed, not what,
//! and a handler that missed some of them loses nothing by re-reading the
//! session.

use vstd::prelude::*;
use crate::session::Update;

verus! {

/// What waiting on the bus ended with.
#[derive(Debug, Clone, Copy, PartialEq, Eq)]
pub enum Signal {
    /// A notification arrived.
    Changed(Update),
    /// The handler fell behind the backlog and notifications were dropped.
    Missed,
    /// The bus was closed: the session is being torn down.
    Closed,
}

impl Signal {
    /// Whether the handler has to read the session again and push what it
    /// sees. That is so after a notification and after missed ones alike; a
    /// closed bus ends the handler instead.
    pub open spec fn asks_for_push(self) -> bool {
        !(self is Closed)
    }

    /// Whether team indices held by handlers may be stale after this signal.
    /// That is so when the notification says so, and when notifications were
    /// missed: one of them may have said so.
    pub open spec fn invalidates_teams(self) -> bool {
        match self {
            Signal::Changed(update) => update.teams_invalidated,
            Signal::Missed => true,
            Signal::Closed => false,
        }
    }
}

/// The notification a handler sends on the bus right after it subscribed.
/// It wakes the handler itself, so that its first push does not wait for an
/// unrelated change.
pub fn on_subscribe() -> (update: Update)
    ensures
        !update.teams_invalidated,
{
    Update { teams_invalidated: false }
}

} // verus!
