//! Message buffers: messages go in, messages come out.

use core::marker::PhantomData;

use vstd::prelude::*;

use crate::error::FreeRtosError;
use crate::fifo::Move;
use crate::transfer::{judge_sent, Step};
use crate::turn::{take_turn, FreeRtosTaskHandle, Turn, Wait};

verus! {

/// A message buffer as the kernel identifies it. Zero is no buffer.
pub type FreeRtosMessageBufferHandle = usize;

/// Bytes in which the kernel stores the length of a message, in front of it.
pub const LENGTH_BYTES: usize = 4;

/// A first-in, first-out buffer of messages of type `T` with a finite size.
///
/// The kernel stores the messages. This type records which buffer of the kernel
/// it is, how many messages it was made for, and which task is sending and which
/// is receiving.
#[derive(Debug)]
pub struct MessageBuffer<T: Sized + Copy> {
    message_buffer: FreeRtosMessageBufferHandle,
    item_type: PhantomData<T>,
    max_messages: usize,
    tx_task: Option<FreeRtosTaskHandle>,
    rx_task: Option<FreeRtosTaskHandle>,
}

/// The contents of a [`MessageBuffer`].
pub ghost struct MessageBufferView {
    pub handle: FreeRtosMessageBufferHandle,
    pub max_messages: usize,
    pub tx_task: Option<FreeRtosTaskHandle>,
    pub rx_task: Option<FreeRtosTaskHandle>,
}

impl<T: Sized + Copy> View for MessageBuffer<T> {
    type V = MessageBufferView;

    closed spec fn view(&self) -> MessageBufferView {
        MessageBufferView {
            handle: self.message_buffer,
            max_messages: self.max_messages,
            tx_task: self.tx_task,
            rx_task: self.rx_task,
        }
    }
}

/// Bytes that one message takes up in the kernel's buffer.
pub open spec fn message_space<T>() -> nat {
    vstd::layout::size_of::<T>() + LENGTH_BYTES as nat
}

/// Bytes that `count` messages take up in the kernel's buffer.
pub open spec fn space_for<T>(count: nat) -> nat {
    count * message_space::<T>()
}

/// The number of messages in a buffer for `max_messages` that has `available`
/// bytes free.
pub open spec fn message_count<T>(max_messages: nat, available: nat) -> int {
    (space_for::<T>(max_messages) - available) / message_space::<T>() as int
}

impl MessageBufferView {
    /// The parts that a raw handle is made of.
    pub open spec fn raw(self) -> (
        FreeRtosMessageBufferHandle,
        usize,
        Option<FreeRtosTaskHandle>,
        Option<FreeRtosTaskHandle>,
    ) {
        (self.handle, self.max_messages, self.tx_task, self.rx_task)
    }

    /// The buffer with the given parts.
    pub open spec fn from_raw(
        handle: FreeRtosMessageBufferHandle,
        max_messages: usize,
        tx_task: Option<FreeRtosTaskHandle>,
        rx_task: Option<FreeRtosTaskHandle>,
    ) -> MessageBufferView {
        MessageBufferView { handle, max_messages, tx_task, rx_task }
    }

    /// The same buffer with another sending task.
    pub open spec fn with_tx(self, tx_task: Option<FreeRtosTaskHandle>) -> MessageBufferView {
        MessageBufferView { tx_task, ..self }
    }

    /// The same buffer with another receiving task.
    pub open spec fn with_rx(self, rx_task: Option<FreeRtosTaskHandle>) -> MessageBufferView {
        MessageBufferView { rx_task, ..self }
    }

    /// What the kernel is handed to send `item`.
    pub open spec fn send_request<T>(self, item: T, wait: u32) -> MessageSendRequest<T> {
        MessageSendRequest {
            handle: self.handle,
            item,
            size: vstd::layout::size_of::<T>() as usize,
            wait,
        }
    }
}

/// A message for the kernel to append to a message buffer.
pub struct MessageSendRequest<T> {
    pub handle: FreeRtosMessageBufferHandle,
    pub item: T,
    /// Bytes of the message.
    pub size: usize,
    /// Ticks that the kernel may wait for room.
    pub wait: u32,
}

/// A message for the kernel to append to a message buffer, without waiting.
pub struct MessageIsrSendRequest<T> {
    pub handle: FreeRtosMessageBufferHandle,
    pub item: T,
    /// Bytes of the message.
    pub size: usize,
}

/// Room for a message that the kernel takes out of a message buffer.
pub struct MessageReceiveRequest {
    pub handle: FreeRtosMessageBufferHandle,
    /// Bytes that a message may have.
    pub size: usize,
    /// Ticks that the kernel may wait for a message.
    pub wait: u32,
}

/// What it means to the receiver that the kernel delivered `received` bytes and
/// `item` is what they make up. Only a whole message counts.
pub open spec fn receive_result<T>(received: usize, item: T) -> Result<T, FreeRtosError> {
    if received == vstd::layout::size_of::<T>() {
        Ok(item)
    } else if received == 0 {
        Err(FreeRtosError::QueueReceiveTimeout)
    } else {
        Err(FreeRtosError::InvalidQueueSize)
    }
}

impl<T: Sized + Copy> MessageBuffer<T> {
    /// Bytes of a message.
    pub fn item_size() -> (size: usize)
        ensures
            size == vstd::layout::size_of::<T>(),
            size + LENGTH_BYTES <= usize::MAX,
    {
        vstd::layout::layout_for_type_is_valid::<T>();
        core::mem::size_of::<T>()
    }

    /// Bytes that the kernel has to set aside for `max_messages` messages.
    pub fn create_request(max_messages: usize) -> (size: usize)
        requires
            space_for::<T>(max_messages as nat) <= usize::MAX,
        ensures
            size == space_for::<T>(max_messages as nat),
    {
        max_messages * (Self::item_size() + LENGTH_BYTES)
    }

    /// The buffer for `max_messages` messages that the kernel created under `handle`.
    pub fn new(max_messages: usize, handle: FreeRtosMessageBufferHandle) -> (buffer: Result<
        MessageBuffer<T>,
        FreeRtosError,
    >)
        ensures
            match buffer {
                Ok(b) => handle != 0 && b@ == (MessageBufferView {
                    handle,
                    max_messages,
                    tx_task: None,
                    rx_task: None,
                }),
                Err(e) => handle == 0 && e == FreeRtosError::OutOfMemory,
            },
    {
        if handle == 0 {
            return Err(FreeRtosError::OutOfMemory);
        }
        Ok(
            MessageBuffer {
                message_buffer: handle,
                item_type: PhantomData,
                max_messages,
                tx_task: None,
                rx_task: None,
            },
        )
    }

    /// Takes over a buffer that exists.
    ///
    /// `handle` must belong to a message buffer whose messages are as large as
    /// `T`, and a task handle must be given for a side on which a transfer is in
    /// progress.
    pub fn from_raw_handle(
        handle: FreeRtosMessageBufferHandle,
        max_messages: usize,
        tx_task: Option<FreeRtosTaskHandle>,
        rx_task: Option<FreeRtosTaskHandle>,
    ) -> (buffer: MessageBuffer<T>)
        ensures
            buffer@ == MessageBufferView::from_raw(handle, max_messages, tx_task, rx_task),
    {
        MessageBuffer {
            message_buffer: handle,
            item_type: PhantomData,
            max_messages,
            tx_task,
            rx_task,
        }
    }

    /// What [`MessageBuffer::from_raw_handle`] needs to make this buffer again.
    pub fn raw_handle(&self) -> (raw: (
        FreeRtosMessageBufferHandle,
        usize,
        Option<FreeRtosTaskHandle>,
        Option<FreeRtosTaskHandle>,
    ))
        ensures
            raw == self@.raw(),
    {
        (self.message_buffer, self.max_messages, self.tx_task, self.rx_task)
    }

    /// Takes a turn at sending `item`.
    ///
    /// `wait` is what is left of the timeout and `current` is the running task.
    /// The time that earlier turns spent waiting for another sender is no longer
    /// in `wait`, so the kernel gets what is left of the timeout.
    pub fn send(
        &mut self,
        item: T,
        wait: Wait,
        current: Result<FreeRtosTaskHandle, FreeRtosError>,
    ) -> (step: Step<MessageSendRequest<T>>)
        requires
            crate::turn::can_poll(old(self)@.tx_task, wait),
        ensures
            final(self)@ == old(self)@.with_tx(
                crate::turn::holder_after(
                    old(self)@.tx_task,
                    crate::turn::turn(old(self)@.tx_task, wait, current),
                ),
            ),
            match crate::turn::turn(old(self)@.tx_task, wait, current) {
                Turn::Delay(rest) => step == Step::<MessageSendRequest<T>>::Delay(rest),
                Turn::Timeout => step == Step::<MessageSendRequest<T>>::Fail(
                    FreeRtosError::QueueSendTimeout,
                ),
                Turn::Unidentified(e) => step == Step::<MessageSendRequest<T>>::Fail(e),
                Turn::Claim(_) => {
                    &&& step == Step::Transfer(old(self)@.send_request(item, wait.remaining))
                    &&& step->Transfer_0.size == vstd::layout::size_of::<T>()
                },
            },
    {
        match take_turn(&mut self.tx_task, wait, current) {
            Turn::Delay(rest) => Step::Delay(rest),
            Turn::Timeout => Step::Fail(FreeRtosError::QueueSendTimeout),
            Turn::Unidentified(e) => Step::Fail(e),
            Turn::Claim(_) => Step::Transfer(
                MessageSendRequest {
                    handle: self.message_buffer,
                    item,
                    size: Self::item_size(),
                    wait: wait.remaining,
                },
            ),
        }
    }

    /// Ends a transfer of which the kernel accepted `sent` bytes, and frees the
    /// sending side.
    ///
    /// The kernel sends a message whole or not at all. Returns the number of
    /// bytes sent to the buffer, which is the size of the message and of its
    /// length, however the kernel counts them.
    pub fn finish_send(&mut self, sent: usize) -> (result: Result<usize, FreeRtosError>)
        ensures
            final(self)@ == old(self)@.with_tx(None),
            sent == 0 ==> result == Err::<usize, FreeRtosError>(FreeRtosError::QueueFull),
            sent > 0 ==> result is Ok && result->Ok_0 == message_space::<T>(),
    {
        self.tx_task = None;
        match judge_sent(sent) {
            Ok(_) => Ok(Self::item_size() + LENGTH_BYTES),
            Err(e) => Err(e),
        }
    }

    /// What an interrupt hands to the kernel to send `item`. It does not wait
    /// and takes no turn.
    pub fn send_from_isr(&self, item: T) -> (request: MessageIsrSendRequest<T>)
        ensures
            request.handle == self@.handle,
            request.item == item,
            request.size == vstd::layout::size_of::<T>(),
    {
        MessageIsrSendRequest { handle: self.message_buffer, item, size: Self::item_size() }
    }

    /// What it means to an interrupt that the kernel accepted `sent` bytes.
    ///
    /// If there is not enough space free in the message buffer, returns 0.
    pub fn finish_send_from_isr(sent: usize) -> (result: Result<usize, FreeRtosError>)
        ensures
            result == Ok::<usize, FreeRtosError>(sent),
    {
        Ok(sent)
    }

    /// Takes a turn at receiving a message.
    ///
    /// `wait` is what is left of the timeout and `current` is the running task.
    /// The time that earlier turns spent waiting for another receiver is no
    /// longer in `wait`, so the kernel gets what is left of the timeout.
    pub fn receive(
        &mut self,
        wait: Wait,
        current: Result<FreeRtosTaskHandle, FreeRtosError>,
    ) -> (step: Step<MessageReceiveRequest>)
        requires
            crate::turn::can_poll(old(self)@.rx_task, wait),
        ensures
            final(self)@ == old(self)@.with_rx(
                crate::turn::holder_after(
                    old(self)@.rx_task,
                    crate::turn::turn(old(self)@.rx_task, wait, current),
                ),
            ),
            match crate::turn::turn(old(self)@.rx_task, wait, current) {
                Turn::Delay(rest) => step == Step::<MessageReceiveRequest>::Delay(rest),
                Turn::Timeout => step == Step::<MessageReceiveRequest>::Fail(
                    FreeRtosError::QueueSendTimeout,
                ),
                Turn::Unidentified(e) => step == Step::<MessageReceiveRequest>::Fail(e),
                Turn::Claim(_) => {
                    &&& step matches Step::Transfer(request)
                    &&& request.handle == old(self)@.handle
                    &&& request.size == vstd::layout::size_of::<T>()
                    &&& request.wait == wait.remaining
                },
            },
    {
        match take_turn(&mut self.rx_task, wait, current) {
            Turn::Delay(rest) => Step::Delay(rest),
            Turn::Timeout => Step::Fail(FreeRtosError::QueueSendTimeout),
            Turn::Unidentified(e) => Step::Fail(e),
            Turn::Claim(_) => Step::Transfer(
                MessageReceiveRequest {
                    handle: self.message_buffer,
                    size: Self::item_size(),
                    wait: wait.remaining,
                },
            ),
        }
    }

    /// Ends a transfer in which the kernel delivered `received` bytes that make
    /// up `item`, and frees the receiving side.
    ///
    /// Returns the message if the number of bytes received is the size of its type.
    pub fn finish_receive(&mut self, received: usize, item: T) -> (result: Result<
        T,
        FreeRtosError,
    >)
        ensures
            final(self)@ == old(self)@.with_rx(None),
            result == receive_result(received, item),
    {
        self.rx_task = None;
        if received == Self::item_size() {
            Ok(item)
        } else if received == 0 {
            Err(FreeRtosError::QueueReceiveTimeout)
        } else {
            Err(FreeRtosError::InvalidQueueSize)
        }
    }

    /// The number of messages in the buffer, given that the kernel has
    /// `available` bytes of it free.
    pub fn len(&self, available: usize) -> (count: u32)
        requires
            space_for::<T>(self@.max_messages as nat) <= usize::MAX,
            available <= space_for::<T>(self@.max_messages as nat),
            message_count::<T>(self@.max_messages as nat, available as nat) <= u32::MAX,
        ensures
            count == message_count::<T>(self@.max_messages as nat, available as nat),
    {
        let used: usize = Self::create_request(self.max_messages) - available;
        (used / (Self::item_size() + LENGTH_BYTES)) as u32
    }
}

/// The number of messages in the buffer is found from its free bytes: with
/// `count` messages in it, each taking up its own bytes and those of its length,
/// `count` is what the free bytes give. An empty buffer holds none and a full one
/// as many as it was made for.
pub proof fn law_free_bytes_count_messages<T>(max_messages: nat, count: nat)
    requires
        count <= max_messages,
    ensures
        space_for::<T>(count) <= space_for::<T>(max_messages),
        message_count::<T>(
            max_messages,
            (space_for::<T>(max_messages) - space_for::<T>(count)) as nat,
        ) == count,
        message_count::<T>(max_messages, space_for::<T>(max_messages)) == 0,
        message_count::<T>(max_messages, 0) == max_messages,
{
    let space = message_space::<T>() as int;
    vstd::arithmetic::mul::lemma_mul_inequality(count as int, max_messages as int, space);
    vstd::arithmetic::div_mod::lemma_div_by_multiple(count as int, space);
    vstd::arithmetic::div_mod::lemma_div_by_multiple(max_messages as int, space);
    vstd::arithmetic::div_mod::lemma_div_basics(space);
}

/// The requests that send `items`, as the kernel stores them: the size and the
/// message of each.
pub open spec fn messages_sent<T>(
    sender: MessageBufferView,
    items: Seq<T>,
    waits: Seq<u32>,
) -> Seq<(usize, T)> {
    Seq::new(
        items.len(),
        |i: int|
            {
                let request = sender.send_request(items[i], waits[i]);
                (request.size, request.item)
            },
    )
}

/// Messages come out as they went in: through a kernel that keeps order, however
/// its transfers interleave, the receiver gets the messages that the sender gave,
/// whole, in that order and each once, and what it has not got is still stored.
pub proof fn law_messages_come_out_as_they_went_in<T>(
    history: Seq<Move<(usize, T)>>,
    sender: MessageBufferView,
    items: Seq<T>,
    waits: Seq<u32>,
)
    requires
        vstd::layout::size_of::<T>() <= usize::MAX,
        waits.len() == items.len(),
        crate::fifo::keeps_order(history),
        crate::fifo::entered(history) == messages_sent(sender, items, waits),
    ensures
        crate::fifo::left(history).len() + crate::fifo::stored(history).len() == items.len(),
        forall|i: int|
            0 <= i < crate::fifo::left(history).len() ==> receive_result(
                (#[trigger] crate::fifo::left(history)[i]).0,
                crate::fifo::left(history)[i].1,
            ) == Ok::<T, FreeRtosError>(items[i]),
        forall|i: int|
            0 <= i < crate::fifo::stored(history).len() ==> (#[trigger] crate::fifo::stored(
                history,
            )[i]).1 == items[crate::fifo::left(history).len() + i],
{
    let left = crate::fifo::left(history);
    let stored = crate::fifo::stored(history);
    let sent = messages_sent(sender, items, waits);
    crate::fifo::law_first_in_first_out(history);
    assert(sent.len() == left.len() + stored.len());
    assert forall|i: int| 0 <= i < left.len() implies receive_result(
        (#[trigger] left[i]).0,
        left[i].1,
    ) == Ok::<T, FreeRtosError>(items[i]) by {
        assert(left[i] == sent[i]);
    }
    assert forall|i: int| 0 <= i < stored.len() implies (#[trigger] stored[i]).1 == items[left.len()
        + i] by {
        assert(stored[i] == sent[left.len() + i]);
    }
}

/// Sending and receiving do not disturb each other, and neither changes the
/// buffer: recording who uses one side keeps the other side, the handle and the
/// size, and the two sides may be recorded in either order.
pub proof fn law_sides_are_independent(
    view: MessageBufferView,
    tx_task: Option<FreeRtosTaskHandle>,
    rx_task: Option<FreeRtosTaskHandle>,
)
    ensures
        view.with_tx(tx_task).rx_task == view.rx_task,
        view.with_rx(rx_task).tx_task == view.tx_task,
        view.with_tx(tx_task).with_rx(rx_task) == view.with_rx(rx_task).with_tx(tx_task),
        view.with_tx(tx_task).with_rx(rx_task) == (MessageBufferView { tx_task, rx_task, ..view }),
{
}

/// A buffer made from another's raw handle is that buffer, and has that raw handle.
pub proof fn law_raw_handle_round_trip(view: MessageBufferView)
    ensures
        ({
            let (handle, max_messages, tx_task, rx_task) = view.raw();
            &&& MessageBufferView::from_raw(handle, max_messages, tx_task, rx_task) == view
            &&& MessageBufferView::from_raw(handle, max_messages, tx_task, rx_task).raw()
                == view.raw()
        }),
{
}

} // verus!
