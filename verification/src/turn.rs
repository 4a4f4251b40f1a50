//! Taking turns on one side of a buffer.
//!
//! A buffer has a sending side and a receiving side. Each side is used by at
//! most one task at a time, and the buffer records which one. A task that finds
//! the side held sleeps for one polling period and looks again; the time it
//! sleeps is taken off its timeout.

use vstd::prelude::*;

use crate::error::FreeRtosError;

verus! {

/// A task as the kernel identifies it.
pub type FreeRtosTaskHandle = usize;

/// What is left of a call's timeout, in ticks.
#[derive(Clone, Copy, Debug, PartialEq, Eq, Structural)]
pub struct Wait {
    /// Ticks that the call may still wait.
    pub remaining: u32,
    /// Ticks between two looks at a side that is held: the kernel's shortest delay.
    pub eps: u32,
}

impl Wait {
    /// The full timeout of a call that starts now.
    pub fn new(max_wait: u32, eps: u32) -> (wait: Wait)
        ensures
            wait == (Wait { remaining: max_wait, eps }),
    {
        Wait { remaining: max_wait, eps }
    }

    /// The timeout that is left after one polling period.
    pub open spec fn after_delay(self) -> Wait {
        Wait { remaining: (self.remaining - self.eps) as u32, eps: self.eps }
    }

    /// The timeout that is left after `k` polling periods.
    pub open spec fn after_delays(self, k: nat) -> Wait
        decreases k,
    {
        if k == 0 {
            self
        } else {
            self.after_delays((k - 1) as nat).after_delay()
        }
    }
}

/// What a task that wants a side of a buffer does next.
#[derive(Clone, Copy, Debug, PartialEq, Eq, Structural)]
pub enum Turn {
    /// Sleep for one polling period, then look again with this timeout.
    Delay(Wait),
    /// No time is left: the call fails.
    Timeout,
    /// The running task could not be identified: the call fails.
    Unidentified(FreeRtosError),
    /// The side now belongs to the running task, which has this handle.
    Claim(FreeRtosTaskHandle),
}

/// A polling period that is still owed fits into what is left of the timeout.
pub open spec fn can_poll(holder: Option<FreeRtosTaskHandle>, wait: Wait) -> bool {
    holder is Some && wait.remaining > 0 ==> wait.eps <= wait.remaining
}

/// What a task does that finds the side held by `holder`, if by anyone. The
/// running task, `current`, matters only once the side is free and time is left.
pub open spec fn turn(
    holder: Option<FreeRtosTaskHandle>,
    wait: Wait,
    current: Result<FreeRtosTaskHandle, FreeRtosError>,
) -> Turn {
    if wait.remaining == 0 {
        Turn::Timeout
    } else if holder is Some {
        Turn::Delay(wait.after_delay())
    } else {
        match current {
            Ok(task) => Turn::Claim(task),
            Err(e) => Turn::Unidentified(e),
        }
    }
}

/// Who holds the side after that turn: only a claim changes it.
pub open spec fn holder_after(
    holder: Option<FreeRtosTaskHandle>,
    turn: Turn,
) -> Option<FreeRtosTaskHandle> {
    match turn {
        Turn::Claim(task) => Some(task),
        _ => holder,
    }
}

/// Whether a turn depends on which task is running, so that the kernel has to be
/// asked for it first.
pub fn needs_current(holder: Option<FreeRtosTaskHandle>, wait: Wait) -> (needed: bool)
    ensures
        needed <==> holder is None && wait.remaining > 0,
        !needed ==> forall|
            a: Result<FreeRtosTaskHandle, FreeRtosError>,
            b: Result<FreeRtosTaskHandle, FreeRtosError>,
        | #[trigger] turn(holder, wait, a) == #[trigger] turn(holder, wait, b),
{
    holder.is_none() && wait.remaining > 0
}

/// Looks at a side once and claims it for the running task if it is free.
pub fn take_turn(
    side: &mut Option<FreeRtosTaskHandle>,
    wait: Wait,
    current: Result<FreeRtosTaskHandle, FreeRtosError>,
) -> (next: Turn)
    requires
        can_poll(*old(side), wait),
    ensures
        next == turn(*old(side), wait, current),
        *final(side) == holder_after(*old(side), next),
{
    if side.is_some() && wait.remaining > 0 {
        return Turn::Delay(Wait { remaining: wait.remaining - wait.eps, eps: wait.eps });
    }
    if wait.remaining == 0 {
        return Turn::Timeout;
    }
    match current {
        Ok(task) => {
            *side = Some(task);
            Turn::Claim(task)
        },
        Err(e) => Turn::Unidentified(e),
    }
}

/// A call starts with its whole timeout.
pub proof fn law_wait_starts_in_full(max_wait: u32, eps: u32, wait: Wait)
    requires
        call_ensures(Wait::new, (max_wait, eps), wait),
    ensures
        call_requires(Wait::new, (max_wait, eps)),
        wait.remaining == max_wait,
        wait.eps == eps,
{
}

/// A turn can be taken unless the next delay is longer than what is left of the
/// timeout, and it can always be asked whether it depends on the running task.
pub proof fn law_turn_accepts(
    side: &mut Option<FreeRtosTaskHandle>,
    wait: Wait,
    current: Result<FreeRtosTaskHandle, FreeRtosError>,
)
    ensures
        *old(side) is None || wait.remaining == 0 || wait.eps <= wait.remaining ==> call_requires(
            take_turn,
            (old(side), wait, current),
        ),
        call_requires(needs_current, (*old(side), wait)),
{
}

/// A turn ends in a timeout exactly when no time is left. Otherwise a side that is
/// held costs one delay, which with what is left adds up to what there was, and a
/// free side goes to the running task. A side changes hands only where it was free
/// and goes to the running task only.
pub proof fn law_turn_is_fair(
    side: &mut Option<FreeRtosTaskHandle>,
    wait: Wait,
    current: Result<FreeRtosTaskHandle, FreeRtosError>,
    next: Turn,
)
    requires
        call_ensures(take_turn, (side, wait, current), next),
        *old(side) is None || wait.remaining == 0 || wait.eps <= wait.remaining,
    ensures
        next is Timeout <==> wait.remaining == 0,
        next is Delay <==> wait.remaining > 0 && *old(side) is Some,
        next is Delay ==> next->Delay_0.remaining + wait.eps == wait.remaining
            && next->Delay_0.eps == wait.eps,
        next is Claim <==> wait.remaining > 0 && *old(side) is None && current is Ok,
        next is Claim ==> Ok::<FreeRtosTaskHandle, FreeRtosError>(next->Claim_0) == current
            && *final(side) == Some(next->Claim_0),
        next is Unidentified ==> current is Err && next->Unidentified_0 == current->Err_0,
        next !is Claim ==> *final(side) == *old(side),
{
}

/// The running task has to be known exactly for turns that find the side free and
/// time left: two turns that differ only in it come out the same on all others.
pub proof fn law_running_task_matters_only_on_a_free_side(
    one: &mut Option<FreeRtosTaskHandle>,
    other: &mut Option<FreeRtosTaskHandle>,
    wait: Wait,
    currents: (
        Result<FreeRtosTaskHandle, FreeRtosError>,
        Result<FreeRtosTaskHandle, FreeRtosError>,
    ),
    nexts: (Turn, Turn),
    needed: bool,
)
    requires
        *old(one) == *old(other),
        call_ensures(needs_current, (*old(one), wait), needed),
        call_ensures(take_turn, (one, wait, currents.0), nexts.0),
        call_ensures(take_turn, (other, wait, currents.1), nexts.1),
    ensures
        needed <==> *old(one) is None && wait.remaining > 0,
        !needed ==> nexts.0 == nexts.1,
        needed && currents.0 != currents.1 ==> nexts.0 != nexts.1,
{
}

/// The time a task spends waiting for a side is taken off its timeout: after `k`
/// polling periods exactly `k * eps` ticks are gone. For as long as the side was
/// held each look asked for one more period, and if the side is free now and
/// time is left, the task gets it.
pub proof fn law_wait_is_subtracted(
    wait: Wait,
    k: nat,
    holders: Seq<FreeRtosTaskHandle>,
    current: Result<FreeRtosTaskHandle, FreeRtosError>,
    task: FreeRtosTaskHandle,
)
    requires
        wait.eps > 0,
        k * wait.eps <= wait.remaining,
        holders.len() == k,
    ensures
        wait.after_delays(k).remaining == wait.remaining - k * wait.eps,
        wait.after_delays(k).eps == wait.eps,
        forall|i: int|
            0 <= i < k ==> can_poll(Some(#[trigger] holders[i]), wait.after_delays(i as nat))
                && turn(Some(holders[i]), wait.after_delays(i as nat), current) == Turn::Delay(
                wait.after_delays((i + 1) as nat),
            ),
        k * wait.eps < wait.remaining ==> turn(None, wait.after_delays(k), Ok(task))
            == Turn::Claim(task),
        k * wait.eps == wait.remaining ==> turn(None, wait.after_delays(k), Ok(task))
            == Turn::Timeout,
    decreases k,
{
    if k > 0 {
        let j = (k - 1) as nat;
        assert(k * wait.eps == j * wait.eps + wait.eps) by (nonlinear_arith)
            requires
                k == j + 1,
        ;
        law_wait_is_subtracted(wait, j, holders.take(j as int), current, task);
        assert forall|i: int| 0 <= i < k implies can_poll(
            Some(#[trigger] holders[i]),
            wait.after_delays(i as nat),
        ) && turn(Some(holders[i]), wait.after_delays(i as nat), current) == Turn::Delay(
            wait.after_delays((i + 1) as nat),
        ) by {
            if i < j {
                assert(holders.take(j as int)[i] == holders[i]);
            }
        }
    }
}

/// A side that is never freed costs a call its whole timeout and no more: with
/// a timeout of whole polling periods the call fails after exactly
/// `remaining / eps` of them, whoever holds the side then.
pub proof fn law_wait_ends_in_timeout(
    wait: Wait,
    holders: Seq<FreeRtosTaskHandle>,
    last: Option<FreeRtosTaskHandle>,
    current: Result<FreeRtosTaskHandle, FreeRtosError>,
)
    requires
        wait.eps > 0,
        wait.remaining as int % wait.eps as int == 0,
        holders.len() == wait.remaining as int / wait.eps as int,
    ensures
        forall|i: int|
            0 <= i < holders.len() ==> can_poll(
                Some(#[trigger] holders[i]),
                wait.after_delays(i as nat),
            ) && turn(Some(holders[i]), wait.after_delays(i as nat), current) == Turn::Delay(
                wait.after_delays((i + 1) as nat),
            ),
        turn(last, wait.after_delays(holders.len()), current) == Turn::Timeout,
{
    let k = holders.len();
    assert(k * wait.eps == wait.remaining) by (nonlinear_arith)
        requires
            wait.eps > 0,
            wait.remaining as int % wait.eps as int == 0,
            k == wait.remaining as int / wait.eps as int,
    ;
    law_wait_is_subtracted(wait, k, holders, current, 0);
}

} // verus!
