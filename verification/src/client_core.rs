//! The state of the client between updates.

use vstd::prelude::*;

use crate::display::{distinct_items, ItemGetDisplayRestore};

verus! {

/// The core of the Archipelago client: what it remembers from one update to the
/// next. Times are in nanoseconds since some fixed moment.
pub struct Core {
    /// The time we last granted an item to the player. Used to throttle incoming
    /// item bursts without making release queues take minutes to drain.
    pub last_item_time: u64,
    /// The number of locations sent to the server in this session. This always
    /// starts at 0 when the player boots the game again to ensure that they
    /// resend any locations that may have been missed.
    pub locations_sent: usize,
    /// Whether the player has achieved their goal and sent that information to
    /// the Archipelago server. This is stored here rather than in the save data
    /// so that it's resent every time the player starts the game, just in case
    /// it got lost in transit.
    pub sent_goal: bool,
    /// Item display param rows that are currently suppressed for incoming
    /// Archipelago grants and need to be restored later.
    pub item_get_display_restores: Vec<ItemGetDisplayRestore>,
}

impl Core {
    /// No item's display is to be restored twice.
    pub open spec fn well_formed(&self) -> bool {
        distinct_items(self.item_get_display_restores@)
    }

    /// Creates a new instance of the client at the given time.
    pub fn new(now: u64) -> (core: Core)
        ensures
            core.well_formed(),
            core.last_item_time == now,
            core.locations_sent == 0,
            !core.sent_goal,
            core.item_get_display_restores@ == Seq::<ItemGetDisplayRestore>::empty(),
    {
        Core {
            last_item_time: now,
            locations_sent: 0,
            sent_goal: false,
            item_get_display_restores: Vec::new(),
        }
    }
}

} // verus!
