//! Mutual exclusion on one side of a buffer.
//!
//! Any number of tasks may use a buffer, and their calls interleave in any
//! order. This module follows one side of the buffer through such a history and
//! shows that no two calls ever have a transfer in progress on it.

use vstd::prelude::*;

use crate::error::FreeRtosError;
use crate::turn::{FreeRtosTaskHandle, Turn, Wait};

verus! {

/// One side of a buffer: who is recorded as its user, and the calls that have a
/// transfer in progress on it, each with the task that made it.
pub ghost struct Side {
    pub holder: Option<FreeRtosTaskHandle>,
    pub active: Map<int, FreeRtosTaskHandle>,
}

/// What a call does to a side.
pub ghost enum Access {
    /// The call takes a turn.
    TakeTurn { call: int, wait: Wait, current: Result<FreeRtosTaskHandle, FreeRtosError> },
    /// The call's transfer is over and it releases the side.
    Finish { call: int },
}

impl Side {
    /// At most one call has a transfer in progress, and while one does the side
    /// is recorded as used by the task that made it.
    pub open spec fn exclusive(self) -> bool {
        &&& forall|a: int, b: int|
            self.active.contains_key(a) && self.active.contains_key(b) ==> a == b
        &&& forall|a: int| #[trigger]
            self.active.contains_key(a) ==> self.holder == Some(self.active[a])
    }

    /// The side after one access. Only a call in progress has anything to finish.
    pub open spec fn after(self, access: Access) -> Side {
        match access {
            Access::TakeTurn { call, wait, current } => {
                let next = crate::turn::turn(self.holder, wait, current);
                Side {
                    holder: crate::turn::holder_after(self.holder, next),
                    active: match next {
                        Turn::Claim(task) => self.active.insert(call, task),
                        _ => self.active,
                    },
                }
            },
            Access::Finish { call } => if self.active.contains_key(call) {
                Side { holder: None, active: self.active.remove(call) }
            } else {
                self
            },
        }
    }

    /// The side after a history of accesses.
    pub open spec fn after_all(self, history: Seq<Access>) -> Side
        decreases history.len(),
    {
        if history.len() == 0 {
            self
        } else {
            self.after_all(history.drop_last()).after(history.last())
        }
    }
}

/// Only one task transfers on a side at a time: whatever the calls do, and in
/// whatever order, a side that starts with at most one transfer in progress
/// never has two, and its record always names the task whose transfer it is.
pub proof fn law_one_transfer_at_a_time(side: Side, history: Seq<Access>)
    requires
        side.exclusive(),
    ensures
        side.after_all(history).exclusive(),
    decreases history.len(),
{
    if history.len() > 0 {
        law_one_transfer_at_a_time(side, history.drop_last());
    }
}

/// While a call has a transfer in progress no other call gets the side, and a
/// call that does not get it leaves the side as it was.
pub proof fn law_side_in_use_is_not_claimed(
    side: Side,
    user: int,
    call: int,
    wait: Wait,
    current: Result<FreeRtosTaskHandle, FreeRtosError>,
)
    requires
        side.exclusive(),
        side.active.contains_key(user),
    ensures
        crate::turn::turn(side.holder, wait, current) !is Claim,
        side.after(Access::TakeTurn { call, wait, current }) == side,
{
}

/// A call that finishes frees the side: the next call with time left and a
/// known task gets it at once.
pub proof fn law_finished_side_is_free(
    side: Side,
    user: int,
    wait: Wait,
    task: FreeRtosTaskHandle,
)
    requires
        side.exclusive(),
        side.active.contains_key(user),
        wait.remaining > 0,
    ensures
        side.after(Access::Finish { call: user }).active == Map::<
            int,
            FreeRtosTaskHandle,
        >::empty(),
        crate::turn::turn(side.after(Access::Finish { call: user }).holder, wait, Ok(task))
            == Turn::Claim(task),
{
}

} // verus!
