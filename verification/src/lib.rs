//! Decision logic of byte and message buffers that a FreeRTOS kernel stores.
//!
//! The kernel owns the memory, the clock and the tasks. This crate owns what is
//! decided around its calls: when a task may use a side of a buffer, how long it
//! may still wait, what is handed to the kernel and what its reply means. No
//! function here blocks or calls the kernel. Each takes what the kernel last
//! reported, updates the buffer's bookkeeping and says what to do next.

use vstd::prelude::*;

pub mod error;
pub mod exclusion;
pub mod fifo;
pub mod message_buffer;
pub mod message_operation_laws;
pub mod stream_buffer;
pub mod stream_laws;
pub mod stream_operation_laws;
pub mod transfer;
pub mod turn;

verus! {

} // verus!
