//! What a caller is told to do next, and how far a long transfer has come.

use vstd::prelude::*;

use crate::error::FreeRtosError;
use crate::turn::Wait;

verus! {

/// What the caller of a single transfer does next. `R` is what it hands to the
/// kernel.
pub enum Step<R> {
    /// Sleep for one polling period, then take another turn with this timeout.
    Delay(Wait),
    /// The side is claimed: hand this to the kernel and report its reply.
    Transfer(R),
    /// The call is over.
    Fail(FreeRtosError),
}

/// What the caller of a transfer that may take several kernel calls does next.
pub enum AllStep<R> {
    /// Sleep for one polling period, then take another turn from here.
    Delay(Progress),
    /// The side is claimed: hand this to the kernel and report its reply.
    Transfer(R),
    /// The call is over.
    Return(Result<(), FreeRtosError>),
}

/// What the number of bytes that the kernel accepted means to the sender.
pub open spec fn send_result(sent: usize) -> Result<usize, FreeRtosError> {
    if sent == 0 {
        Err(FreeRtosError::QueueFull)
    } else {
        Ok(sent)
    }
}

/// Judges what the kernel accepted.
pub(crate) fn judge_sent(sent: usize) -> (result: Result<usize, FreeRtosError>)
    ensures
        result == send_result(sent),
{
    if sent == 0 {
        Err(FreeRtosError::QueueFull)
    } else {
        Ok(sent)
    }
}

/// How far a transfer has come that goes on until every byte is moved.
#[derive(Clone, Copy, Debug, PartialEq, Eq, Structural)]
pub struct Progress {
    /// Bytes that have not been moved yet.
    pub remain: usize,
    /// What is left of the current kernel call's timeout.
    pub wait: Wait,
    /// The timeout that each kernel call starts with: the kernel's longest wait.
    pub infinite: u32,
}

impl Progress {
    /// A transfer of `len` bytes that starts now.
    pub fn new(len: usize, infinite: u32, eps: u32) -> (progress: Progress)
        ensures
            progress == (Progress {
                remain: len,
                wait: Wait { remaining: infinite, eps },
                infinite,
            }),
    {
        Progress { remain: len, wait: Wait::new(infinite, eps), infinite }
    }

    /// The same progress with another timeout left.
    pub open spec fn with_wait(self, wait: Wait) -> Progress {
        Progress { remain: self.remain, wait, infinite: self.infinite }
    }

    /// The progress after a kernel call that moved `count` bytes. The next
    /// kernel call has the full timeout again.
    pub open spec fn advanced(self, count: int) -> Progress {
        Progress {
            remain: (self.remain - count) as usize,
            wait: Wait { remaining: self.infinite, eps: self.wait.eps },
            infinite: self.infinite,
        }
    }

    /// Counts the bytes that a kernel call moved.
    pub(crate) fn advance(self, count: usize) -> (next: Progress)
        requires
            count <= self.remain,
        ensures
            next == self.advanced(count as int),
    {
        Progress::new(self.remain - count, self.infinite, self.wait.eps)
    }
}

} // verus!
