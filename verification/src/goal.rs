//! Detecting that the player has won.

use vstd::prelude::*;

use crate::client_core::Core;
use crate::slot_data::EventFlagId;

verus! {

/// `f` reads event flags as `values` does.
pub open spec fn reads_as<F: Fn(EventFlagId) -> Option<bool>>(
    f: F,
    values: spec_fn(EventFlagId) -> Option<bool>,
) -> bool {
    forall|flag: EventFlagId, value: Option<bool>| #[trigger]
        call_ensures(f, (flag,), value) ==> value == values(flag)
}

/// Whether all of the goal's flags are set. One that cannot be read is not.
pub open spec fn goal_reached(
    goal: Seq<EventFlagId>,
    values: spec_fn(EventFlagId) -> Option<bool>,
) -> bool {
    forall|i: int| 0 <= i < goal.len() ==> values(#[trigger] goal[i]) == Some(true)
}

/// Whether `send` answers whether `core` still has to tell the server that the player has
/// won, where `f` reads the event flags.
pub open spec fn answers_goal<F: Fn(EventFlagId) -> Option<bool>>(
    core: Core,
    goal: Option<&Vec<EventFlagId>>,
    f: F,
    send: bool,
) -> bool {
    forall|values: spec_fn(EventFlagId) -> Option<bool>| #[trigger]
        reads_as(f, values) ==> send == core.owes_goal(goal, values)
}

impl Core {
    /// Whether the server is still to be told that the player has won: there is a
    /// connection, whose `goal` is given, and all of the goal's flags are set.
    pub open spec fn owes_goal(
        &self,
        goal: Option<&Vec<EventFlagId>>,
        values: spec_fn(EventFlagId) -> Option<bool>,
    ) -> bool {
        !self.sent_goal && (goal matches Some(flags) && goal_reached(flags@, values))
    }

    /// Returns whether the server is to be told now that the player has won: it was not
    /// told yet, there is a connection, whose `goal` is given, and all of the goal's
    /// flags are set.
    pub fn handle_goal(
        &self,
        goal: Option<&Vec<EventFlagId>>,
        get_event_flag: &impl Fn(EventFlagId) -> Option<bool>,
    ) -> (send: bool)
        requires
            forall|flag: EventFlagId| #[trigger] call_requires(*get_event_flag, (flag,)),
        ensures
            answers_goal(*self, goal, *get_event_flag, send),
    {
        if self.sent_goal {
            return false;
        }
        let Some(flags) = goal else {
            return false;
        };
        let mut index: usize = 0;
        while index < flags.len()
            invariant
                index <= flags@.len(),
                goal == Some(flags),
                forall|flag: EventFlagId| #[trigger] call_requires(*get_event_flag, (flag,)),
                forall|values: spec_fn(EventFlagId) -> Option<bool>| #[trigger]
                    reads_as(*get_event_flag, values) ==> goal_reached(
                        flags@.take(index as int),
                        values,
                    ),
            decreases flags@.len() - index,
        {
            let set = match get_event_flag(flags[index]) {
                Some(value) => value,
                None => false,
            };
            if !set {
                return false;
            }
            index = index + 1;
        }
        assert(flags@.take(index as int) =~= flags@);
        true
    }

    /// Notes that the server was told that the player has won.
    pub fn note_goal_sent(&mut self)
        ensures
            *final(self) == (Core { sent_goal: true, ..*old(self) }),
    {
        self.sent_goal = true;
    }
}

/// Once the server was told that the player has won it is not told again.
pub proof fn law_goal_is_sent_once(
    before: Core,
    goal: Option<&Vec<EventFlagId>>,
    values: spec_fn(EventFlagId) -> Option<bool>,
)
    ensures
        !(Core { sent_goal: true, ..before }).owes_goal(goal, values),
{
}

} // verus!
