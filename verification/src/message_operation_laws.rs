//! What each operation on a message buffer does.
//!
//! Every law here speaks of calls: it holds of whatever an operation may return
//! and leave behind, and says so in the operation's own inputs and results.

use vstd::prelude::*;

use crate::error::FreeRtosError;
use crate::message_buffer::{
    FreeRtosMessageBufferHandle, MessageBuffer, MessageIsrSendRequest, MessageReceiveRequest,
    MessageSendRequest,
};
use crate::transfer::Step;
use crate::turn::{FreeRtosTaskHandle, Wait};

verus! {

/// The size of a message is the size of its type.
pub proof fn law_item_size_is_size_of_type<T: Sized + Copy>(size: usize)
    requires
        call_ensures(MessageBuffer::<T>::item_size, (), size),
    ensures
        call_requires(MessageBuffer::<T>::item_size, ()),
        size == vstd::layout::size_of::<T>(),
{
}

/// The kernel is asked for the bytes of all messages and 4 more for each, so that
/// any number of messages up to the given one fits, each with its 4 length bytes,
/// and one more does not.
pub proof fn law_all_messages_fit<T: Sized + Copy>(
    max_messages: usize,
    size: usize,
    count: nat,
)
    requires
        call_ensures(MessageBuffer::<T>::create_request, (max_messages,), size),
    ensures
        size == max_messages * (vstd::layout::size_of::<T>() + 4),
        count * (vstd::layout::size_of::<T>() + 4) <= size <==> count <= max_messages,
{
    let space = (vstd::layout::size_of::<T>() + 4) as int;
    assert(count <= max_messages ==> count * space <= max_messages * space) by (nonlinear_arith)
        requires
            space > 0,
    ;
    assert(count > max_messages ==> count * space > max_messages * space) by (nonlinear_arith)
        requires
            space > 0,
    ;
}

/// A buffer can be asked for whenever its size fits, and creating, taking over
/// and showing one ask nothing of the caller.
pub proof fn law_any_message_buffer_can_be_made<T: Sized + Copy>(
    max_messages: usize,
    handle: FreeRtosMessageBufferHandle,
    tx_task: Option<FreeRtosTaskHandle>,
    rx_task: Option<FreeRtosTaskHandle>,
    buffer: &MessageBuffer<T>,
)
    ensures
        max_messages * (vstd::layout::size_of::<T>() + 4) <= usize::MAX ==> call_requires(
            MessageBuffer::<T>::create_request,
            (max_messages,),
        ),
        call_requires(MessageBuffer::<T>::new, (max_messages, handle)),
        call_requires(
            MessageBuffer::<T>::from_raw_handle,
            (handle, max_messages, tx_task, rx_task),
        ),
        call_requires(MessageBuffer::<T>::raw_handle, (buffer,)),
{
}

/// A new buffer is the one that the kernel created, for the given number of
/// messages and with nobody using it. It fails without a handle, and only then.
pub proof fn law_new_message_buffer_is_the_kernels_and_idle<T: Sized + Copy>(
    max_messages: usize,
    handle: FreeRtosMessageBufferHandle,
    buffer: Result<MessageBuffer<T>, FreeRtosError>,
    raw: (
        FreeRtosMessageBufferHandle,
        usize,
        Option<FreeRtosTaskHandle>,
        Option<FreeRtosTaskHandle>,
    ),
)
    requires
        call_ensures(MessageBuffer::<T>::new, (max_messages, handle), buffer),
        buffer is Ok ==> call_ensures(MessageBuffer::<T>::raw_handle, (&buffer->Ok_0,), raw),
    ensures
        buffer is Ok <==> handle != 0,
        buffer is Ok ==> raw == (
            handle,
            max_messages,
            None::<FreeRtosTaskHandle>,
            None::<FreeRtosTaskHandle>,
        ),
        buffer is Err ==> buffer->Err_0 == FreeRtosError::OutOfMemory,
{
}

/// A buffer that was taken over shows exactly the parts that it was given.
pub proof fn law_taken_over_message_buffer_shows_its_parts<T: Sized + Copy>(
    handle: FreeRtosMessageBufferHandle,
    max_messages: usize,
    tx_task: Option<FreeRtosTaskHandle>,
    rx_task: Option<FreeRtosTaskHandle>,
    buffer: MessageBuffer<T>,
    raw: (
        FreeRtosMessageBufferHandle,
        usize,
        Option<FreeRtosTaskHandle>,
        Option<FreeRtosTaskHandle>,
    ),
)
    requires
        call_ensures(
            MessageBuffer::<T>::from_raw_handle,
            (handle, max_messages, tx_task, rx_task),
            buffer,
        ),
        call_ensures(MessageBuffer::<T>::raw_handle, (&buffer,), raw),
    ensures
        raw == (handle, max_messages, tx_task, rx_task),
        buffer@.handle == handle,
        buffer@.max_messages == max_messages,
        buffer@.tx_task == tx_task,
        buffer@.rx_task == rx_task,
{
}

/// A raw handle shows every part of its buffer.
pub proof fn law_message_raw_handle_shows_the_buffer<T: Sized + Copy>(
    buffer: &MessageBuffer<T>,
    raw: (
        FreeRtosMessageBufferHandle,
        usize,
        Option<FreeRtosTaskHandle>,
        Option<FreeRtosTaskHandle>,
    ),
)
    requires
        call_ensures(MessageBuffer::<T>::raw_handle, (buffer,), raw),
    ensures
        raw.0 == buffer@.handle,
        raw.1 == buffer@.max_messages,
        raw.2 == buffer@.tx_task,
        raw.3 == buffer@.rx_task,
{
}

/// A turn can be taken unless the next delay is longer than what is left of the
/// timeout. Any reply of the kernel can be reported, and an interrupt may send at
/// any time.
pub proof fn law_message_operations_accept<T: Sized + Copy>(
    buffer: &mut MessageBuffer<T>,
    shared: &MessageBuffer<T>,
    item: T,
    wait: Wait,
    current: Result<FreeRtosTaskHandle, FreeRtosError>,
    count: usize,
)
    ensures
        old(buffer)@.tx_task is None || wait.remaining == 0 || wait.eps <= wait.remaining
            ==> call_requires(MessageBuffer::<T>::send, (old(buffer), item, wait, current)),
        old(buffer)@.rx_task is None || wait.remaining == 0 || wait.eps <= wait.remaining
            ==> call_requires(MessageBuffer::<T>::receive, (old(buffer), wait, current)),
        call_requires(MessageBuffer::<T>::finish_send, (old(buffer), count)),
        call_requires(MessageBuffer::<T>::finish_receive, (old(buffer), count, item)),
        call_requires(MessageBuffer::<T>::send_from_isr, (shared, item)),
        call_requires(MessageBuffer::<T>::finish_send_from_isr, (count,)),
{
}

/// A turn at sending never changes the buffer but for who is sending. Without
/// time left it is a timeout. Behind another sender it costs one delay, and the
/// delay and what is left add up to what there was. On a free side the running
/// task becomes the sender and the kernel gets the whole message and all the time
/// that is left.
pub proof fn law_message_send_takes_a_turn<T: Sized + Copy>(
    buffer: &mut MessageBuffer<T>,
    item: T,
    wait: Wait,
    current: Result<FreeRtosTaskHandle, FreeRtosError>,
    step: Step<MessageSendRequest<T>>,
)
    requires
        call_ensures(MessageBuffer::<T>::send, (buffer, item, wait, current), step),
        old(buffer)@.tx_task is None || wait.remaining == 0 || wait.eps <= wait.remaining,
    ensures
        final(buffer)@.handle == old(buffer)@.handle,
        final(buffer)@.max_messages == old(buffer)@.max_messages,
        final(buffer)@.rx_task == old(buffer)@.rx_task,
        step !is Transfer ==> final(buffer)@.tx_task == old(buffer)@.tx_task,
        step is Delay <==> wait.remaining > 0 && old(buffer)@.tx_task is Some,
        step is Delay ==> step->Delay_0.remaining + wait.eps == wait.remaining
            && step->Delay_0.eps == wait.eps,
        step is Transfer <==> wait.remaining > 0 && old(buffer)@.tx_task is None && current is Ok,
        step is Transfer ==> final(buffer)@.tx_task == Some(current->Ok_0),
        step is Transfer ==> step->Transfer_0.handle == old(buffer)@.handle,
        step is Transfer ==> step->Transfer_0.item == item,
        step is Transfer ==> step->Transfer_0.size == vstd::layout::size_of::<T>(),
        step is Transfer ==> step->Transfer_0.wait == wait.remaining,
        step is Fail ==> if wait.remaining == 0 {
            step->Fail_0 == FreeRtosError::QueueSendTimeout
        } else {
            current is Err && step->Fail_0 == current->Err_0
        },
{
}

/// A message that was sent counts as its own bytes and 4 more, and the buffer is
/// full only where the kernel accepted nothing. Either way the sending side is
/// free and nothing else has changed.
pub proof fn law_message_sender_is_told_the_space_taken<T: Sized + Copy>(
    buffer: &mut MessageBuffer<T>,
    sent: usize,
    result: Result<usize, FreeRtosError>,
)
    requires
        call_ensures(MessageBuffer::<T>::finish_send, (buffer, sent), result),
    ensures
        result is Ok <==> sent > 0,
        result is Ok ==> result->Ok_0 == vstd::layout::size_of::<T>() + 4,
        result is Err ==> result->Err_0 == FreeRtosError::QueueFull,
        final(buffer)@.tx_task is None,
        final(buffer)@.rx_task == old(buffer)@.rx_task,
        final(buffer)@.handle == old(buffer)@.handle,
        final(buffer)@.max_messages == old(buffer)@.max_messages,
{
}

/// An interrupt hands the whole message to the buffer it was given, and is told
/// the number that the kernel reports, 0 where there was not enough space.
pub proof fn law_interrupt_hands_over_the_message<T: Sized + Copy>(
    buffer: &MessageBuffer<T>,
    item: T,
    request: MessageIsrSendRequest<T>,
    sent: usize,
    result: Result<usize, FreeRtosError>,
)
    requires
        call_ensures(MessageBuffer::<T>::send_from_isr, (buffer, item), request),
        call_ensures(MessageBuffer::<T>::finish_send_from_isr, (sent,), result),
    ensures
        request.handle == buffer@.handle,
        request.item == item,
        request.size == vstd::layout::size_of::<T>(),
        result is Ok,
        result->Ok_0 == sent,
{
}

/// A turn at receiving never changes the buffer but for who is receiving. Without
/// time left it is a timeout. Behind another receiver it costs one delay, and the
/// delay and what is left add up to what there was. On a free side the running
/// task becomes the receiver and the kernel gets room for one message and all the
/// time that is left.
pub proof fn law_message_receive_takes_a_turn<T: Sized + Copy>(
    buffer: &mut MessageBuffer<T>,
    wait: Wait,
    current: Result<FreeRtosTaskHandle, FreeRtosError>,
    step: Step<MessageReceiveRequest>,
)
    requires
        call_ensures(MessageBuffer::<T>::receive, (buffer, wait, current), step),
        old(buffer)@.rx_task is None || wait.remaining == 0 || wait.eps <= wait.remaining,
    ensures
        final(buffer)@.handle == old(buffer)@.handle,
        final(buffer)@.max_messages == old(buffer)@.max_messages,
        final(buffer)@.tx_task == old(buffer)@.tx_task,
        step !is Transfer ==> final(buffer)@.rx_task == old(buffer)@.rx_task,
        step is Delay <==> wait.remaining > 0 && old(buffer)@.rx_task is Some,
        step is Delay ==> step->Delay_0.remaining + wait.eps == wait.remaining
            && step->Delay_0.eps == wait.eps,
        step is Transfer <==> wait.remaining > 0 && old(buffer)@.rx_task is None && current is Ok,
        step is Transfer ==> final(buffer)@.rx_task == Some(current->Ok_0),
        step is Transfer ==> step->Transfer_0.handle == old(buffer)@.handle,
        step is Transfer ==> step->Transfer_0.size == vstd::layout::size_of::<T>(),
        step is Transfer ==> step->Transfer_0.wait == wait.remaining,
        step is Fail ==> if wait.remaining == 0 {
            step->Fail_0 == FreeRtosError::QueueSendTimeout
        } else {
            current is Err && step->Fail_0 == current->Err_0
        },
{
}

/// A message is handed out exactly when the kernel delivered as many bytes as its
/// type has, and it is the one that the kernel delivered. A type that has bytes
/// is never handed out where the kernel delivered none: then none came in time.
/// Either way the receiving side is free and nothing else has changed.
pub proof fn law_only_delivered_messages_are_handed_out<T: Sized + Copy>(
    buffer: &mut MessageBuffer<T>,
    received: usize,
    item: T,
    result: Result<T, FreeRtosError>,
)
    requires
        call_ensures(MessageBuffer::<T>::finish_receive, (buffer, received, item), result),
    ensures
        result is Ok <==> received == vstd::layout::size_of::<T>(),
        result is Ok ==> result->Ok_0 == item,
        vstd::layout::size_of::<T>() > 0 && received == 0 ==> result is Err && result->Err_0
            == FreeRtosError::QueueReceiveTimeout,
        result is Err && received > 0 ==> result->Err_0 == FreeRtosError::InvalidQueueSize,
        final(buffer)@.rx_task is None,
        final(buffer)@.tx_task == old(buffer)@.tx_task,
        final(buffer)@.handle == old(buffer)@.handle,
        final(buffer)@.max_messages == old(buffer)@.max_messages,
{
}

/// What `send` hands to the kernel is what `receive` has room for and hands out:
/// when the kernel delivers a message as it was handed over, the receiver gets the
/// item that the sender gave.
pub proof fn law_receiver_gets_what_the_sender_gave<T: Sized + Copy>(
    sender: &mut MessageBuffer<T>,
    receiver: &mut MessageBuffer<T>,
    finisher: &mut MessageBuffer<T>,
    item: T,
    waits: (Wait, Wait),
    tasks: (FreeRtosTaskHandle, FreeRtosTaskHandle),
    sending: MessageSendRequest<T>,
    receiving: MessageReceiveRequest,
    result: Result<T, FreeRtosError>,
)
    requires
        old(sender)@.tx_task is None,
        old(receiver)@.rx_task is None,
        waits.0.remaining > 0,
        waits.1.remaining > 0,
        call_ensures(
            MessageBuffer::<T>::send,
            (sender, item, waits.0, Ok(tasks.0)),
            Step::Transfer(sending),
        ),
        call_ensures(
            MessageBuffer::<T>::receive,
            (receiver, waits.1, Ok(tasks.1)),
            Step::Transfer(receiving),
        ),
        call_ensures(
            MessageBuffer::<T>::finish_receive,
            (finisher, sending.size, sending.item),
            result,
        ),
    ensures
        receiving.size == sending.size,
        result is Ok,
        result->Ok_0 == item,
{
}

/// The messages in the buffer can be counted whenever the buffer's size fits, no
/// more is free than that, and the count fits.
pub proof fn law_messages_can_be_counted<T: Sized + Copy>(
    buffer: &MessageBuffer<T>,
    available: usize,
)
    requires
        buffer@.max_messages * (vstd::layout::size_of::<T>() + 4) <= usize::MAX,
        available <= buffer@.max_messages * (vstd::layout::size_of::<T>() + 4),
        buffer@.max_messages * (vstd::layout::size_of::<T>() + 4) - available < (u32::MAX + 1) * (
        vstd::layout::size_of::<T>() + 4),
    ensures
        call_requires(MessageBuffer::<T>::len, (buffer, available)),
{
    let space = (vstd::layout::size_of::<T>() + 4) as int;
    let used = buffer@.max_messages * space - available;
    vstd::arithmetic::div_mod::lemma_fundamental_div_mod(used, space);
    vstd::arithmetic::div_mod::lemma_mod_bound(used, space);
    assert(used / space <= u32::MAX) by (nonlinear_arith)
        requires
            space > 0,
            space * (used / space) <= used,
            used < (u32::MAX + 1) * space,
    ;
}

/// The number of messages is the number that fits into the bytes in use, with 4
/// bytes more for each: that many do, and one more does not.
pub proof fn law_messages_fill_the_bytes_in_use<T: Sized + Copy>(
    buffer: &MessageBuffer<T>,
    available: usize,
    count: u32,
)
    requires
        call_ensures(MessageBuffer::<T>::len, (buffer, available), count),
    ensures
        ({
            let space = vstd::layout::size_of::<T>() + 4;
            let used = buffer@.max_messages * space - available;
            count * space <= used < (count + 1) * space
        }),
{
    let space = (vstd::layout::size_of::<T>() + 4) as int;
    let used = buffer@.max_messages * space - available;
    vstd::arithmetic::div_mod::lemma_fundamental_div_mod(used, space);
    vstd::arithmetic::div_mod::lemma_mod_bound(used, space);
    assert(space * (count as int) == count * space) by (nonlinear_arith);
    assert((count + 1) * space == count * space + space) by (nonlinear_arith);
}

/// Counting undoes sending: of a buffer as large as was asked of the kernel, from
/// which some messages took the space that their senders were told, the number of
/// messages is that of those senders.
pub proof fn law_each_sent_message_is_counted<T: Sized + Copy>(
    buffer: &MessageBuffer<T>,
    sender: &mut MessageBuffer<T>,
    size: usize,
    reply: usize,
    space: usize,
    sent: nat,
    available: usize,
    count: u32,
)
    requires
        call_ensures(MessageBuffer::<T>::create_request, (buffer@.max_messages,), size),
        call_ensures(MessageBuffer::<T>::finish_send, (sender, reply), Ok(space)),
        available == size - sent * space,
        call_ensures(MessageBuffer::<T>::len, (buffer, available), count),
    ensures
        count == sent,
{
    law_all_messages_fit::<T>(buffer@.max_messages, size, sent);
    law_message_sender_is_told_the_space_taken(sender, reply, Ok(space));
    law_messages_fill_the_bytes_in_use(buffer, available, count);
    assert(count == sent) by (nonlinear_arith)
        requires
            space > 0,
            count * space <= sent * space < (count + 1) * space,
    ;
}

} // verus!
