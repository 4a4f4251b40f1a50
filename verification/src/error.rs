//! The errors that buffer operations report.

use vstd::prelude::*;

verus! {

/// Why a buffer operation failed.
#[derive(Clone, Copy, Debug, PartialEq, Eq, Structural)]
pub enum FreeRtosError {
    /// The kernel had no memory for the buffer.
    OutOfMemory,
    /// The timeout ran out before the side of the buffer became free.
    QueueSendTimeout,
    /// Nothing arrived before the timeout ran out.
    QueueReceiveTimeout,
    /// The kernel accepted nothing.
    QueueFull,
    /// The kernel does not know which task is running.
    TaskNotFound,
    /// The sizes do not fit together.
    InvalidQueueSize,
}

} // verus!
