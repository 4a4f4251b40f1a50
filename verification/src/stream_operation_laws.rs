//! What each operation on a stream buffer does.
//!
//! Every law here speaks of calls: it holds of whatever an operation may return
//! and leave behind, and says so in the operation's own inputs and results.

use vstd::prelude::*;

use crate::error::FreeRtosError;
use crate::stream_buffer::{
    FreeRtosStreamBufferHandle, StreamBuffer, StreamCreateRequest, StreamIsrSendRequest,
    StreamReceiveRequest, StreamSendRequest,
};
use crate::transfer::{AllStep, Progress, Step};
use crate::turn::{FreeRtosTaskHandle, Wait};

verus! {

/// A buffer is asked of the kernel with the sizes that the caller gave, unless
/// its trigger could never be reached.
pub proof fn law_create_request_keeps_sizes(
    max_size: usize,
    trigger_size: usize,
    request: Result<StreamCreateRequest, FreeRtosError>,
)
    requires
        call_ensures(StreamBuffer::create_request, (max_size, trigger_size), request),
    ensures
        request is Ok <==> trigger_size <= max_size,
        request is Ok ==> request->Ok_0.max_size == max_size && request->Ok_0.trigger_size
            == trigger_size,
        request is Err ==> request->Err_0 == FreeRtosError::InvalidQueueSize,
{
}

/// A new buffer is the one that the kernel created, with the sizes it was asked
/// for and nobody using it. It fails with a trigger beyond its size and without a
/// handle, and only then.
pub proof fn law_new_buffer_is_the_kernels_and_idle(
    max_size: usize,
    trigger_size: usize,
    handle: FreeRtosStreamBufferHandle,
    buffer: Result<StreamBuffer, FreeRtosError>,
    raw: (
        FreeRtosStreamBufferHandle,
        usize,
        usize,
        Option<FreeRtosTaskHandle>,
        Option<FreeRtosTaskHandle>,
    ),
)
    requires
        call_ensures(StreamBuffer::new, (max_size, trigger_size, handle), buffer),
        buffer is Ok ==> call_ensures(StreamBuffer::raw_handle, (&buffer->Ok_0,), raw),
    ensures
        buffer is Ok <==> trigger_size <= max_size && handle != 0,
        buffer is Ok ==> raw == (
            handle,
            max_size,
            trigger_size,
            None::<FreeRtosTaskHandle>,
            None::<FreeRtosTaskHandle>,
        ),
        trigger_size > max_size ==> buffer->Err_0 == FreeRtosError::InvalidQueueSize,
        trigger_size <= max_size && handle == 0 ==> buffer->Err_0 == FreeRtosError::OutOfMemory,
{
}

/// A buffer that was taken over shows exactly the parts that it was given.
pub proof fn law_taken_over_buffer_shows_its_parts(
    handle: FreeRtosStreamBufferHandle,
    max_size: usize,
    trigger_size: usize,
    tx_task: Option<FreeRtosTaskHandle>,
    rx_task: Option<FreeRtosTaskHandle>,
    buffer: StreamBuffer,
    raw: (
        FreeRtosStreamBufferHandle,
        usize,
        usize,
        Option<FreeRtosTaskHandle>,
        Option<FreeRtosTaskHandle>,
    ),
)
    requires
        call_ensures(
            StreamBuffer::from_raw_handle,
            (handle, max_size, trigger_size, tx_task, rx_task),
            buffer,
        ),
        call_ensures(StreamBuffer::raw_handle, (&buffer,), raw),
    ensures
        raw == (handle, max_size, trigger_size, tx_task, rx_task),
        buffer@.handle == handle,
        buffer@.max_size == max_size,
        buffer@.trigger_size == trigger_size,
        buffer@.tx_task == tx_task,
        buffer@.rx_task == rx_task,
{
}

/// A raw handle shows every part of its buffer.
pub proof fn law_raw_handle_shows_the_buffer(
    buffer: &StreamBuffer,
    raw: (
        FreeRtosStreamBufferHandle,
        usize,
        usize,
        Option<FreeRtosTaskHandle>,
        Option<FreeRtosTaskHandle>,
    ),
)
    requires
        call_ensures(StreamBuffer::raw_handle, (buffer,), raw),
    ensures
        raw.0 == buffer@.handle,
        raw.1 == buffer@.max_size,
        raw.2 == buffer@.trigger_size,
        raw.3 == buffer@.tx_task,
        raw.4 == buffer@.rx_task,
{
}

/// Creating, taking over and showing a buffer ask nothing of the caller.
pub proof fn law_any_buffer_can_be_made(
    max_size: usize,
    trigger_size: usize,
    handle: FreeRtosStreamBufferHandle,
    tx_task: Option<FreeRtosTaskHandle>,
    rx_task: Option<FreeRtosTaskHandle>,
    buffer: &StreamBuffer,
)
    ensures
        call_requires(StreamBuffer::create_request, (max_size, trigger_size)),
        call_requires(StreamBuffer::new, (max_size, trigger_size, handle)),
        call_requires(
            StreamBuffer::from_raw_handle,
            (handle, max_size, trigger_size, tx_task, rx_task),
        ),
        call_requires(StreamBuffer::raw_handle, (buffer,)),
{
}

/// A turn at sending can be taken unless the next delay is longer than what is
/// left of the timeout.
pub proof fn law_send_accepts(
    buffer: &mut StreamBuffer,
    bytes: &[u8],
    wait: Wait,
    current: Result<FreeRtosTaskHandle, FreeRtosError>,
)
    requires
        old(buffer)@.tx_task is None || wait.remaining == 0 || wait.eps <= wait.remaining,
    ensures
        call_requires(StreamBuffer::send, (old(buffer), bytes, wait, current)),
{
}

/// A turn at sending never changes the buffer but for who is sending. Without
/// time left it is a timeout. Behind another sender it costs one delay, and the
/// delay and what is left add up to what there was. On a free side the running
/// task becomes the sender and the kernel gets all the bytes and all the time
/// that is left.
pub proof fn law_send_takes_a_turn<'a>(
    buffer: &mut StreamBuffer,
    bytes: &'a [u8],
    wait: Wait,
    current: Result<FreeRtosTaskHandle, FreeRtosError>,
    step: Step<StreamSendRequest<'a>>,
)
    requires
        call_ensures(StreamBuffer::send, (buffer, bytes, wait, current), step),
        old(buffer)@.tx_task is None || wait.remaining == 0 || wait.eps <= wait.remaining,
    ensures
        final(buffer)@.handle == old(buffer)@.handle,
        final(buffer)@.max_size == old(buffer)@.max_size,
        final(buffer)@.trigger_size == old(buffer)@.trigger_size,
        final(buffer)@.rx_task == old(buffer)@.rx_task,
        step !is Transfer ==> final(buffer)@.tx_task == old(buffer)@.tx_task,
        step is Delay <==> wait.remaining > 0 && old(buffer)@.tx_task is Some,
        step is Delay ==> step->Delay_0.remaining + wait.eps == wait.remaining
            && step->Delay_0.eps == wait.eps,
        step is Transfer <==> wait.remaining > 0 && old(buffer)@.tx_task is None && current is Ok,
        step is Transfer ==> final(buffer)@.tx_task == Some(current->Ok_0),
        step is Transfer ==> step->Transfer_0.handle == old(buffer)@.handle,
        step is Transfer ==> step->Transfer_0.bytes@ == bytes@,
        step is Transfer ==> step->Transfer_0.wait == wait.remaining,
        step is Fail ==> if wait.remaining == 0 {
            step->Fail_0 == FreeRtosError::QueueSendTimeout
        } else {
            current is Err && step->Fail_0 == current->Err_0
        },
{
}

/// The sender is told the number of bytes that the kernel accepted, and that the
/// buffer is full only where it accepted none. Either way the sending side is
/// free and nothing else has changed.
pub proof fn law_sender_is_told_what_was_accepted(
    buffer: &mut StreamBuffer,
    sent: usize,
    result: Result<usize, FreeRtosError>,
    from_isr: Result<usize, FreeRtosError>,
)
    requires
        call_ensures(StreamBuffer::finish_send, (buffer, sent), result),
        call_ensures(StreamBuffer::finish_send_from_isr, (sent,), from_isr),
    ensures
        result is Ok <==> sent > 0,
        result is Ok ==> result->Ok_0 == sent,
        result is Err ==> result->Err_0 == FreeRtosError::QueueFull,
        from_isr == result,
        final(buffer)@.tx_task is None,
        final(buffer)@.rx_task == old(buffer)@.rx_task,
        final(buffer)@.handle == old(buffer)@.handle,
        final(buffer)@.max_size == old(buffer)@.max_size,
        final(buffer)@.trigger_size == old(buffer)@.trigger_size,
{
}

/// Any reply of the kernel can be reported, and an interrupt may send at any time.
pub proof fn law_any_reply_can_be_reported(
    buffer: &mut StreamBuffer,
    shared: &StreamBuffer,
    bytes: &[u8],
    count: usize,
)
    ensures
        call_requires(StreamBuffer::finish_send, (old(buffer), count)),
        call_requires(StreamBuffer::finish_receive, (old(buffer), count)),
        call_requires(StreamBuffer::finish_send_from_isr, (count,)),
        call_requires(StreamBuffer::send_from_isr, (shared, bytes)),
{
}

/// An interrupt hands all its bytes to the buffer it was given.
pub proof fn law_interrupt_hands_over_all_bytes<'a>(
    buffer: &StreamBuffer,
    bytes: &'a [u8],
    request: StreamIsrSendRequest<'a>,
)
    requires
        call_ensures(StreamBuffer::send_from_isr, (buffer, bytes), request),
    ensures
        request.handle == buffer@.handle,
        request.bytes@ == bytes@,
{
}

/// A turn at receiving can be taken unless the next delay is longer than what is
/// left of the timeout.
pub proof fn law_receive_accepts(
    buffer: &mut StreamBuffer,
    bytes: &mut [u8],
    wait: Wait,
    current: Result<FreeRtosTaskHandle, FreeRtosError>,
)
    requires
        old(buffer)@.rx_task is None || wait.remaining == 0 || wait.eps <= wait.remaining,
    ensures
        call_requires(StreamBuffer::receive, (old(buffer), old(bytes), wait, current)),
{
}

/// A turn at receiving never changes the buffer but for who is receiving, and
/// changes no bytes but through the window that the kernel gets. Without time
/// left it is a timeout. Behind another receiver it costs one delay, and the
/// delay and what is left add up to what there was. On a free side the running
/// task becomes the receiver and the kernel gets all the room and all the time
/// that is left.
pub proof fn law_receive_takes_a_turn<'a>(
    buffer: &mut StreamBuffer,
    bytes: &'a mut [u8],
    wait: Wait,
    current: Result<FreeRtosTaskHandle, FreeRtosError>,
    step: Step<StreamReceiveRequest<'a>>,
)
    requires
        call_ensures(StreamBuffer::receive, (buffer, bytes, wait, current), step),
        old(buffer)@.rx_task is None || wait.remaining == 0 || wait.eps <= wait.remaining,
    ensures
        final(buffer)@.handle == old(buffer)@.handle,
        final(buffer)@.max_size == old(buffer)@.max_size,
        final(buffer)@.trigger_size == old(buffer)@.trigger_size,
        final(buffer)@.tx_task == old(buffer)@.tx_task,
        step !is Transfer ==> final(buffer)@.rx_task == old(buffer)@.rx_task,
        step !is Transfer ==> final(bytes)@ == old(bytes)@,
        step is Delay <==> wait.remaining > 0 && old(buffer)@.rx_task is Some,
        step is Delay ==> step->Delay_0.remaining + wait.eps == wait.remaining
            && step->Delay_0.eps == wait.eps,
        step is Transfer <==> wait.remaining > 0 && old(buffer)@.rx_task is None && current is Ok,
        step is Transfer ==> final(buffer)@.rx_task == Some(current->Ok_0),
        step is Transfer ==> step->Transfer_0.handle == old(buffer)@.handle,
        step is Transfer ==> step->Transfer_0.bytes@ == old(bytes)@,
        step is Transfer ==> step->Transfer_0.wait == wait.remaining,
        step is Transfer ==> final(bytes)@ == final(step->Transfer_0.bytes)@,
        step is Fail ==> if wait.remaining == 0 {
            step->Fail_0 == FreeRtosError::QueueSendTimeout
        } else {
            current is Err && step->Fail_0 == current->Err_0
        },
{
}

/// The receiver is told the number of bytes that the kernel delivered, and that
/// none came in time only where it delivered none. Either way the receiving side
/// is free and nothing else has changed.
pub proof fn law_receiver_is_told_what_was_delivered(
    buffer: &mut StreamBuffer,
    received: usize,
    result: Result<usize, FreeRtosError>,
)
    requires
        call_ensures(StreamBuffer::finish_receive, (buffer, received), result),
    ensures
        result is Ok <==> received > 0,
        result is Ok ==> result->Ok_0 == received,
        result is Err ==> result->Err_0 == FreeRtosError::QueueReceiveTimeout,
        final(buffer)@.rx_task is None,
        final(buffer)@.tx_task == old(buffer)@.tx_task,
        final(buffer)@.handle == old(buffer)@.handle,
        final(buffer)@.max_size == old(buffer)@.max_size,
        final(buffer)@.trigger_size == old(buffer)@.trigger_size,
{
}

/// A long transfer starts with all its bytes left and the whole infinite timeout.
pub proof fn law_long_transfer_starts_in_full(
    len: usize,
    infinite: u32,
    eps: u32,
    progress: Progress,
)
    requires
        call_ensures(Progress::new, (len, infinite, eps), progress),
    ensures
        call_requires(Progress::new, (len, infinite, eps)),
        progress.remain == len,
        progress.infinite == infinite,
        progress.wait.remaining == infinite,
        progress.wait.eps == eps,
{
}

/// A turn of `send_all` can be taken unless more is left than there are bytes or
/// the next delay is longer than what is left of the timeout, and any number of
/// bytes that does not exceed what is left can be reported.
pub proof fn law_send_all_accepts(
    buffer: &mut StreamBuffer,
    bytes: &[u8],
    progress: Progress,
    current: Result<FreeRtosTaskHandle, FreeRtosError>,
    sent: usize,
)
    requires
        progress.remain <= bytes@.len(),
        progress.remain == 0 || old(buffer)@.tx_task is None || progress.wait.remaining == 0
            || progress.wait.eps <= progress.wait.remaining,
        sent <= progress.remain,
    ensures
        call_requires(StreamBuffer::send_all, (old(buffer), bytes, progress, current)),
        call_requires(StreamBuffer::advance_send_all, (old(buffer), progress, sent)),
{
}

/// A turn of `send_all` is over with `Ok` exactly when nothing is left. Otherwise
/// it is a turn at sending the last `remain` bytes, and a delay loses none of them.
pub proof fn law_send_all_takes_a_turn<'a>(
    buffer: &mut StreamBuffer,
    bytes: &'a [u8],
    progress: Progress,
    current: Result<FreeRtosTaskHandle, FreeRtosError>,
    step: AllStep<StreamSendRequest<'a>>,
)
    requires
        call_ensures(StreamBuffer::send_all, (buffer, bytes, progress, current), step),
        progress.remain <= bytes@.len(),
        progress.remain == 0 || old(buffer)@.tx_task is None || progress.wait.remaining == 0
            || progress.wait.eps <= progress.wait.remaining,
    ensures
        final(buffer)@.handle == old(buffer)@.handle,
        final(buffer)@.max_size == old(buffer)@.max_size,
        final(buffer)@.trigger_size == old(buffer)@.trigger_size,
        final(buffer)@.rx_task == old(buffer)@.rx_task,
        step !is Transfer ==> final(buffer)@.tx_task == old(buffer)@.tx_task,
        step is Return && step->Return_0 is Ok <==> progress.remain == 0,
        step is Delay <==> progress.remain > 0 && progress.wait.remaining > 0
            && old(buffer)@.tx_task is Some,
        step is Delay ==> {
            let next = step->Delay_0;
            &&& next.remain == progress.remain
            &&& next.infinite == progress.infinite
            &&& next.wait.remaining + progress.wait.eps == progress.wait.remaining
            &&& next.wait.eps == progress.wait.eps
        },
        step is Transfer <==> progress.remain > 0 && progress.wait.remaining > 0
            && old(buffer)@.tx_task is None && current is Ok,
        step is Transfer ==> final(buffer)@.tx_task == Some(current->Ok_0),
        step is Transfer ==> {
            let request = step->Transfer_0;
            let start = bytes@.len() - progress.remain;
            &&& request.handle == old(buffer)@.handle
            &&& request.wait == progress.wait.remaining
            &&& request.bytes@.len() == progress.remain
            &&& forall|i: int|
                0 <= i < progress.remain ==> #[trigger] request.bytes@[i] == bytes@[start + i]
        },
        step is Return && step->Return_0 is Err ==> if progress.wait.remaining == 0 {
            step->Return_0->Err_0 == FreeRtosError::QueueSendTimeout
        } else {
            current is Err && step->Return_0->Err_0 == current->Err_0
        },
{
}

/// Every byte that the kernel accepted counts once: what is left and what was
/// accepted add up to what was left before. A transfer that moved bytes gives the
/// next one the infinite timeout; one that moved none ends the call. Either way
/// the sending side is free.
pub proof fn law_send_all_counts_what_was_accepted(
    buffer: &mut StreamBuffer,
    progress: Progress,
    sent: usize,
    next: Result<Progress, FreeRtosError>,
)
    requires
        call_ensures(StreamBuffer::advance_send_all, (buffer, progress, sent), next),
        sent <= progress.remain,
    ensures
        next is Ok <==> sent > 0,
        next is Ok ==> next->Ok_0.remain + sent == progress.remain,
        next is Ok ==> next->Ok_0.wait.remaining == progress.infinite,
        next is Ok ==> next->Ok_0.wait.eps == progress.wait.eps,
        next is Ok ==> next->Ok_0.infinite == progress.infinite,
        next is Err ==> next->Err_0 == FreeRtosError::QueueFull,
        final(buffer)@.tx_task is None,
        final(buffer)@.rx_task == old(buffer)@.rx_task,
        final(buffer)@.handle == old(buffer)@.handle,
        final(buffer)@.max_size == old(buffer)@.max_size,
        final(buffer)@.trigger_size == old(buffer)@.trigger_size,
{
}

/// `send_all` goes on where it stopped: after a transfer of which the kernel
/// accepted some bytes, and while nobody else takes the side, the next turn of a
/// known task hands over exactly the bytes that were not accepted, with the
/// infinite timeout, and once none are left the call succeeds. It never fails.
pub proof fn law_send_all_goes_on<'a>(
    buffer: &mut StreamBuffer,
    again: &mut StreamBuffer,
    bytes: &'a [u8],
    progress: Progress,
    first: StreamSendRequest<'a>,
    sent: usize,
    next: Progress,
    task: FreeRtosTaskHandle,
    step: AllStep<StreamSendRequest<'a>>,
)
    requires
        progress.remain <= bytes@.len(),
        progress.infinite > 0,
        first.bytes@ == bytes@.skip(bytes@.len() - progress.remain),
        sent <= progress.remain,
        call_ensures(StreamBuffer::advance_send_all, (buffer, progress, sent), Ok(next)),
        old(again)@ == final(buffer)@,
        call_ensures(StreamBuffer::send_all, (again, bytes, next, Ok(task)), step),
    ensures
        next.remain < progress.remain,
        sent < progress.remain ==> {
            &&& step is Transfer
            &&& step->Transfer_0.bytes@ == first.bytes@.skip(sent as int)
            &&& step->Transfer_0.wait == progress.infinite
            &&& step->Transfer_0.handle == old(buffer)@.handle
        },
        sent == progress.remain ==> step is Return && step->Return_0 is Ok,
{
    law_send_all_counts_what_was_accepted(buffer, progress, sent, Ok(next));
    law_send_all_takes_a_turn(again, bytes, next, Ok(task), step);
}

/// A turn of `receive_all` can be taken unless more is left than there is room or
/// the next delay is longer than what is left of the timeout, and any number of
/// bytes that does not exceed what is left can be reported.
pub proof fn law_receive_all_accepts(
    buffer: &mut StreamBuffer,
    bytes: &mut [u8],
    progress: Progress,
    current: Result<FreeRtosTaskHandle, FreeRtosError>,
    received: usize,
)
    requires
        progress.remain <= old(bytes)@.len(),
        progress.remain == 0 || old(buffer)@.rx_task is None || progress.wait.remaining == 0
            || progress.wait.eps <= progress.wait.remaining,
        received <= progress.remain,
    ensures
        call_requires(StreamBuffer::receive_all, (old(buffer), old(bytes), progress, current)),
        call_requires(StreamBuffer::advance_receive_all, (old(buffer), progress, received)),
{
}

/// A turn of `receive_all` is over with `Ok` exactly when nothing is left.
/// Otherwise it is a turn at filling the last `remain` bytes: what was filled
/// before stays, and a delay loses nothing.
pub proof fn law_receive_all_takes_a_turn<'a>(
    buffer: &mut StreamBuffer,
    bytes: &'a mut [u8],
    progress: Progress,
    current: Result<FreeRtosTaskHandle, FreeRtosError>,
    step: AllStep<StreamReceiveRequest<'a>>,
)
    requires
        call_ensures(StreamBuffer::receive_all, (buffer, bytes, progress, current), step),
        progress.remain <= old(bytes)@.len(),
        progress.remain == 0 || old(buffer)@.rx_task is None || progress.wait.remaining == 0
            || progress.wait.eps <= progress.wait.remaining,
    ensures
        final(buffer)@.handle == old(buffer)@.handle,
        final(buffer)@.max_size == old(buffer)@.max_size,
        final(buffer)@.trigger_size == old(buffer)@.trigger_size,
        final(buffer)@.tx_task == old(buffer)@.tx_task,
        step !is Transfer ==> final(buffer)@.rx_task == old(buffer)@.rx_task,
        step !is Transfer ==> final(bytes)@ == old(bytes)@,
        step is Return && step->Return_0 is Ok <==> progress.remain == 0,
        step is Delay <==> progress.remain > 0 && progress.wait.remaining > 0
            && old(buffer)@.rx_task is Some,
        step is Delay ==> {
            let next = step->Delay_0;
            &&& next.remain == progress.remain
            &&& next.infinite == progress.infinite
            &&& next.wait.remaining + progress.wait.eps == progress.wait.remaining
            &&& next.wait.eps == progress.wait.eps
        },
        step is Transfer <==> progress.remain > 0 && progress.wait.remaining > 0
            && old(buffer)@.rx_task is None && current is Ok,
        step is Transfer ==> final(buffer)@.rx_task == Some(current->Ok_0),
        step is Transfer ==> {
            let request = step->Transfer_0;
            let start = old(bytes)@.len() - progress.remain;
            &&& request.handle == old(buffer)@.handle
            &&& request.wait == progress.wait.remaining
            &&& request.bytes@.len() == progress.remain
            &&& forall|i: int|
                0 <= i < progress.remain ==> #[trigger] request.bytes@[i] == old(bytes)@[start + i]
            &&& forall|i: int| 0 <= i < start ==> #[trigger] final(bytes)@[i] == old(bytes)@[i]
            &&& final(bytes)@.len() == start + final(request.bytes)@.len()
            &&& forall|i: int|
                0 <= i < final(request.bytes)@.len() ==> #[trigger] final(request.bytes)@[i]
                    == final(bytes)@[start + i]
        },
        step is Return && step->Return_0 is Err ==> if progress.wait.remaining == 0 {
            step->Return_0->Err_0 == FreeRtosError::QueueSendTimeout
        } else {
            current is Err && step->Return_0->Err_0 == current->Err_0
        },
{
}

/// Every byte that the kernel delivered counts once: what is left and what was
/// delivered add up to what was left before. A transfer that moved bytes gives the
/// next one the infinite timeout; one that moved none ends the call. Either way
/// the receiving side is free.
pub proof fn law_receive_all_counts_what_was_delivered(
    buffer: &mut StreamBuffer,
    progress: Progress,
    received: usize,
    next: Result<Progress, FreeRtosError>,
)
    requires
        call_ensures(StreamBuffer::advance_receive_all, (buffer, progress, received), next),
        received <= progress.remain,
    ensures
        next is Ok <==> received > 0,
        next is Ok ==> next->Ok_0.remain + received == progress.remain,
        next is Ok ==> next->Ok_0.wait.remaining == progress.infinite,
        next is Ok ==> next->Ok_0.wait.eps == progress.wait.eps,
        next is Ok ==> next->Ok_0.infinite == progress.infinite,
        next is Err ==> next->Err_0 == FreeRtosError::QueueReceiveTimeout,
        final(buffer)@.rx_task is None,
        final(buffer)@.tx_task == old(buffer)@.tx_task,
        final(buffer)@.handle == old(buffer)@.handle,
        final(buffer)@.max_size == old(buffer)@.max_size,
        final(buffer)@.trigger_size == old(buffer)@.trigger_size,
{
}

/// `receive_all` goes on where it stopped: after a transfer in which the kernel
/// delivered some bytes, and while nobody else takes the side, the next turn of a
/// known task offers exactly the room that was not filled, with the infinite
/// timeout, and once none is left the call succeeds. It never fails.
pub proof fn law_receive_all_goes_on<'a>(
    buffer: &mut StreamBuffer,
    again: &mut StreamBuffer,
    bytes: &'a mut [u8],
    progress: Progress,
    received: usize,
    next: Progress,
    task: FreeRtosTaskHandle,
    step: AllStep<StreamReceiveRequest<'a>>,
)
    requires
        progress.remain <= old(bytes)@.len(),
        progress.infinite > 0,
        received <= progress.remain,
        call_ensures(StreamBuffer::advance_receive_all, (buffer, progress, received), Ok(next)),
        old(again)@ == final(buffer)@,
        call_ensures(StreamBuffer::receive_all, (again, bytes, next, Ok(task)), step),
    ensures
        next.remain < progress.remain,
        received < progress.remain ==> {
            &&& step is Transfer
            &&& step->Transfer_0.bytes@ == old(bytes)@.skip(
                old(bytes)@.len() - progress.remain + received,
            )
            &&& step->Transfer_0.wait == progress.infinite
            &&& step->Transfer_0.handle == old(buffer)@.handle
        },
        received == progress.remain ==> step is Return && step->Return_0 is Ok,
{
    law_receive_all_counts_what_was_delivered(buffer, progress, received, Ok(next));
    law_receive_all_takes_a_turn(again, bytes, next, Ok(task), step);
}

} // verus!
