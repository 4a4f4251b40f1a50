//! Stream buffers: bytes go in, bytes come out.

use vstd::prelude::*;

use crate::error::FreeRtosError;
use crate::transfer::{judge_sent, AllStep, Progress, Step};
use crate::turn::{take_turn, FreeRtosTaskHandle, Turn, Wait};

verus! {

/// A stream buffer as the kernel identifies it. Zero is no buffer.
pub type FreeRtosStreamBufferHandle = usize;

/// A streaming first-in, first-out byte buffer with a finite size.
///
/// The kernel stores the bytes. This type records which buffer of the kernel it
/// is, how it was sized, and which task is sending and which is receiving.
#[derive(Debug)]
pub struct StreamBuffer {
    stream_buffer: FreeRtosStreamBufferHandle,
    max_size: usize,
    trigger_size: usize,
    tx_task: Option<FreeRtosTaskHandle>,
    rx_task: Option<FreeRtosTaskHandle>,
}

/// The contents of a [`StreamBuffer`].
pub ghost struct StreamBufferView {
    pub handle: FreeRtosStreamBufferHandle,
    pub max_size: usize,
    pub trigger_size: usize,
    pub tx_task: Option<FreeRtosTaskHandle>,
    pub rx_task: Option<FreeRtosTaskHandle>,
}

impl View for StreamBuffer {
    type V = StreamBufferView;

    closed spec fn view(&self) -> StreamBufferView {
        StreamBufferView {
            handle: self.stream_buffer,
            max_size: self.max_size,
            trigger_size: self.trigger_size,
            tx_task: self.tx_task,
            rx_task: self.rx_task,
        }
    }
}

impl StreamBufferView {
    /// The buffer exists and its trigger can be reached.
    pub open spec fn wf(self) -> bool {
        &&& self.handle != 0
        &&& self.trigger_size <= self.max_size
    }

    /// The parts that a raw handle is made of.
    pub open spec fn raw(self) -> (
        FreeRtosStreamBufferHandle,
        usize,
        usize,
        Option<FreeRtosTaskHandle>,
        Option<FreeRtosTaskHandle>,
    ) {
        (self.handle, self.max_size, self.trigger_size, self.tx_task, self.rx_task)
    }

    /// The buffer with the given parts.
    pub open spec fn from_raw(
        handle: FreeRtosStreamBufferHandle,
        max_size: usize,
        trigger_size: usize,
        tx_task: Option<FreeRtosTaskHandle>,
        rx_task: Option<FreeRtosTaskHandle>,
    ) -> StreamBufferView {
        StreamBufferView { handle, max_size, trigger_size, tx_task, rx_task }
    }

    /// The same buffer with another sending task.
    pub open spec fn with_tx(self, tx_task: Option<FreeRtosTaskHandle>) -> StreamBufferView {
        StreamBufferView { tx_task, ..self }
    }

    /// The same buffer with another receiving task.
    pub open spec fn with_rx(self, rx_task: Option<FreeRtosTaskHandle>) -> StreamBufferView {
        StreamBufferView { rx_task, ..self }
    }
}

/// The sizes that a stream buffer is created with.
#[derive(Clone, Copy, Debug, PartialEq, Eq, Structural)]
pub struct StreamCreateRequest {
    pub max_size: usize,
    pub trigger_size: usize,
}

/// Bytes for the kernel to append to a stream buffer.
pub struct StreamSendRequest<'a> {
    pub handle: FreeRtosStreamBufferHandle,
    pub bytes: &'a [u8],
    /// Ticks that the kernel may wait for room.
    pub wait: u32,
}

/// Bytes for the kernel to append to a stream buffer, without waiting.
pub struct StreamIsrSendRequest<'a> {
    pub handle: FreeRtosStreamBufferHandle,
    pub bytes: &'a [u8],
}

/// Room for the kernel to fill with bytes from a stream buffer.
pub struct StreamReceiveRequest<'a> {
    pub handle: FreeRtosStreamBufferHandle,
    pub bytes: &'a mut [u8],
    /// Ticks that the kernel may wait for bytes.
    pub wait: u32,
}

/// What the number of bytes that the kernel delivered means to the receiver.
pub open spec fn receive_result(received: usize) -> Result<usize, FreeRtosError> {
    if received == 0 {
        Err(FreeRtosError::QueueReceiveTimeout)
    } else {
        Ok(received)
    }
}

/// The bytes of a transfer that have not been moved yet: the last `remain`.
pub open spec fn unmoved(bytes: Seq<u8>, progress: Progress) -> Seq<u8> {
    bytes.skip(bytes.len() - progress.remain)
}

/// The bytes of a transfer that have been moved: all but the last `remain`.
pub open spec fn moved(bytes: Seq<u8>, progress: Progress) -> Seq<u8> {
    bytes.take(bytes.len() - progress.remain)
}

impl StreamBuffer {
    /// Checks the sizes of a buffer that is to be created.
    ///
    /// `max_size` is the size of the buffer in bytes; `trigger_size` is the
    /// number of bytes in it that wakes the receiving task.
    pub fn create_request(max_size: usize, trigger_size: usize) -> (request: Result<
        StreamCreateRequest,
        FreeRtosError,
    >)
        ensures
            request == (if trigger_size > max_size {
                Err::<StreamCreateRequest, FreeRtosError>(FreeRtosError::InvalidQueueSize)
            } else {
                Ok(StreamCreateRequest { max_size, trigger_size })
            }),
    {
        if trigger_size > max_size {
            return Err(FreeRtosError::InvalidQueueSize);
        }
        Ok(StreamCreateRequest { max_size, trigger_size })
    }

    /// The buffer that the kernel created under `handle`.
    pub fn new(
        max_size: usize,
        trigger_size: usize,
        handle: FreeRtosStreamBufferHandle,
    ) -> (buffer: Result<StreamBuffer, FreeRtosError>)
        ensures
            match buffer {
                Ok(b) => {
                    &&& trigger_size <= max_size && handle != 0
                    &&& b@ == (StreamBufferView {
                        handle,
                        max_size,
                        trigger_size,
                        tx_task: None,
                        rx_task: None,
                    })
                    &&& b@.wf()
                },
                Err(e) => if trigger_size > max_size {
                    e == FreeRtosError::InvalidQueueSize
                } else {
                    e == FreeRtosError::OutOfMemory && handle == 0
                },
            },
    {
        let request = match StreamBuffer::create_request(max_size, trigger_size) {
            Ok(request) => request,
            Err(e) => return Err(e),
        };
        if handle == 0 {
            return Err(FreeRtosError::OutOfMemory);
        }
        Ok(
            StreamBuffer {
                stream_buffer: handle,
                max_size: request.max_size,
                trigger_size: request.trigger_size,
                tx_task: None,
                rx_task: None,
            },
        )
    }

    /// Takes over a buffer that exists.
    ///
    /// `handle` must belong to a stream buffer, and a task handle must be given
    /// for a side on which a transfer is in progress.
    pub fn from_raw_handle(
        handle: FreeRtosStreamBufferHandle,
        max_size: usize,
        trigger_size: usize,
        tx_task: Option<FreeRtosTaskHandle>,
        rx_task: Option<FreeRtosTaskHandle>,
    ) -> (buffer: StreamBuffer)
        ensures
            buffer@ == StreamBufferView::from_raw(
                handle,
                max_size,
                trigger_size,
                tx_task,
                rx_task,
            ),
    {
        StreamBuffer { stream_buffer: handle, max_size, trigger_size, tx_task, rx_task }
    }

    /// What [`StreamBuffer::from_raw_handle`] needs to make this buffer again.
    pub fn raw_handle(&self) -> (raw: (
        FreeRtosStreamBufferHandle,
        usize,
        usize,
        Option<FreeRtosTaskHandle>,
        Option<FreeRtosTaskHandle>,
    ))
        ensures
            raw == self@.raw(),
    {
        (self.stream_buffer, self.max_size, self.trigger_size, self.tx_task, self.rx_task)
    }

    /// Takes a turn at sending `bytes`.
    ///
    /// `wait` is what is left of the timeout and `current` is the running task.
    /// The time that earlier turns spent waiting for another sender is no longer
    /// in `wait`, so the kernel gets what is left of the timeout.
    pub fn send<'a>(
        &mut self,
        bytes: &'a [u8],
        wait: Wait,
        current: Result<FreeRtosTaskHandle, FreeRtosError>,
    ) -> (step: Step<StreamSendRequest<'a>>)
        requires
            crate::turn::can_poll(old(self)@.tx_task, wait),
        ensures
            final(self)@ == old(self)@.with_tx(
                crate::turn::holder_after(
                    old(self)@.tx_task,
                    crate::turn::turn(old(self)@.tx_task, wait, current),
                ),
            ),
            match crate::turn::turn(old(self)@.tx_task, wait, current) {
                Turn::Delay(rest) => step == Step::<StreamSendRequest<'a>>::Delay(rest),
                Turn::Timeout => step == Step::<StreamSendRequest<'a>>::Fail(
                    FreeRtosError::QueueSendTimeout,
                ),
                Turn::Unidentified(e) => step == Step::<StreamSendRequest<'a>>::Fail(e),
                Turn::Claim(_) => step == Step::Transfer(
                    StreamSendRequest { handle: old(self)@.handle, bytes, wait: wait.remaining },
                ),
            },
    {
        match take_turn(&mut self.tx_task, wait, current) {
            Turn::Delay(rest) => Step::Delay(rest),
            Turn::Timeout => Step::Fail(FreeRtosError::QueueSendTimeout),
            Turn::Unidentified(e) => Step::Fail(e),
            Turn::Claim(_) => Step::Transfer(
                StreamSendRequest { handle: self.stream_buffer, bytes, wait: wait.remaining },
            ),
        }
    }

    /// Ends a transfer of which the kernel accepted `sent` bytes, and frees the
    /// sending side.
    ///
    /// Returns the number of bytes sent, which may be fewer than were handed over.
    pub fn finish_send(&mut self, sent: usize) -> (result: Result<usize, FreeRtosError>)
        ensures
            final(self)@ == old(self)@.with_tx(None),
            result == crate::transfer::send_result(sent),
    {
        self.tx_task = None;
        judge_sent(sent)
    }

    /// Takes a turn at sending what is left of `bytes`.
    ///
    /// Each transfer starts with the longest timeout that the kernel knows, so a
    /// task whose bytes nobody receives may wait for ever.
    pub fn send_all<'a>(
        &mut self,
        bytes: &'a [u8],
        progress: Progress,
        current: Result<FreeRtosTaskHandle, FreeRtosError>,
    ) -> (step: AllStep<StreamSendRequest<'a>>)
        requires
            progress.remain <= bytes@.len(),
            progress.remain > 0 ==> crate::turn::can_poll(old(self)@.tx_task, progress.wait),
        ensures
            progress.remain == 0 ==> {
                &&& final(self)@ == old(self)@
                &&& step == AllStep::<StreamSendRequest<'a>>::Return(Ok(()))
            },
            progress.remain > 0 ==> {
                let next = crate::turn::turn(old(self)@.tx_task, progress.wait, current);
                &&& final(self)@ == old(self)@.with_tx(
                    crate::turn::holder_after(old(self)@.tx_task, next),
                )
                &&& match next {
                    Turn::Delay(rest) => step == AllStep::<StreamSendRequest<'a>>::Delay(
                        progress.with_wait(rest),
                    ),
                    Turn::Timeout => step == AllStep::<StreamSendRequest<'a>>::Return(
                        Err(FreeRtosError::QueueSendTimeout),
                    ),
                    Turn::Unidentified(e) => step == AllStep::<StreamSendRequest<'a>>::Return(
                        Err(e),
                    ),
                    Turn::Claim(_) => {
                        &&& step matches AllStep::Transfer(request)
                        &&& request.handle == old(self)@.handle
                        &&& request.bytes@ == unmoved(bytes@, progress)
                        &&& request.wait == progress.wait.remaining
                    },
                }
            },
    {
        if progress.remain == 0 {
            return AllStep::Return(Ok(()));
        }
        let len: usize = bytes.len();
        match self.send(&bytes[len - progress.remain..len], progress.wait, current) {
            Step::Delay(wait) => AllStep::Delay(
                Progress { remain: progress.remain, wait, infinite: progress.infinite },
            ),
            Step::Transfer(request) => AllStep::Transfer(request),
            Step::Fail(e) => AllStep::Return(Err(e)),
        }
    }

    /// Ends one transfer of [`StreamBuffer::send_all`], of which the kernel
    /// accepted `sent` bytes, and frees the sending side.
    pub fn advance_send_all(&mut self, progress: Progress, sent: usize) -> (next: Result<
        Progress,
        FreeRtosError,
    >)
        requires
            sent <= progress.remain,
        ensures
            final(self)@ == old(self)@.with_tx(None),
            next == match crate::transfer::send_result(sent) {
                Ok(count) => Ok::<Progress, FreeRtosError>(progress.advanced(count as int)),
                Err(e) => Err(e),
            },
    {
        match self.finish_send(sent) {
            Ok(count) => Ok(progress.advance(count)),
            Err(e) => Err(e),
        }
    }

    /// What an interrupt hands to the kernel to send `bytes`. It does not wait
    /// and takes no turn.
    pub fn send_from_isr<'a>(&self, bytes: &'a [u8]) -> (request: StreamIsrSendRequest<'a>)
        ensures
            request == (StreamIsrSendRequest { handle: self@.handle, bytes }),
    {
        StreamIsrSendRequest { handle: self.stream_buffer, bytes }
    }

    /// What it means to an interrupt that the kernel accepted `sent` bytes.
    pub fn finish_send_from_isr(sent: usize) -> (result: Result<usize, FreeRtosError>)
        ensures
            result == crate::transfer::send_result(sent),
    {
        judge_sent(sent)
    }

    /// Takes a turn at receiving into `bytes`.
    ///
    /// `wait` is what is left of the timeout and `current` is the running task.
    /// The kernel fills the whole of `bytes` at most, and gets what is left of
    /// the timeout.
    pub fn receive<'a>(
        &mut self,
        bytes: &'a mut [u8],
        wait: Wait,
        current: Result<FreeRtosTaskHandle, FreeRtosError>,
    ) -> (step: Step<StreamReceiveRequest<'a>>)
        requires
            crate::turn::can_poll(old(self)@.rx_task, wait),
        ensures
            final(self)@ == old(self)@.with_rx(
                crate::turn::holder_after(
                    old(self)@.rx_task,
                    crate::turn::turn(old(self)@.rx_task, wait, current),
                ),
            ),
            match crate::turn::turn(old(self)@.rx_task, wait, current) {
                Turn::Delay(rest) => {
                    &&& step == Step::<StreamReceiveRequest<'a>>::Delay(rest)
                    &&& final(bytes)@ == old(bytes)@
                },
                Turn::Timeout => {
                    &&& step == Step::<StreamReceiveRequest<'a>>::Fail(
                        FreeRtosError::QueueSendTimeout,
                    )
                    &&& final(bytes)@ == old(bytes)@
                },
                Turn::Unidentified(e) => {
                    &&& step == Step::<StreamReceiveRequest<'a>>::Fail(e)
                    &&& final(bytes)@ == old(bytes)@
                },
                Turn::Claim(_) => {
                    &&& step matches Step::Transfer(request)
                    &&& request.handle == old(self)@.handle
                    &&& request.bytes@ == old(bytes)@
                    &&& request.wait == wait.remaining
                    &&& final(bytes)@ == final(request.bytes)@
                },
            },
    {
        match take_turn(&mut self.rx_task, wait, current) {
            Turn::Delay(rest) => Step::Delay(rest),
            Turn::Timeout => Step::Fail(FreeRtosError::QueueSendTimeout),
            Turn::Unidentified(e) => Step::Fail(e),
            Turn::Claim(_) => Step::Transfer(
                StreamReceiveRequest { handle: self.stream_buffer, bytes, wait: wait.remaining },
            ),
        }
    }

    /// Ends a transfer in which the kernel delivered `received` bytes, and frees
    /// the receiving side.
    ///
    /// Returns the number of bytes received, which may be fewer than there was
    /// room for.
    pub fn finish_receive(&mut self, received: usize) -> (result: Result<usize, FreeRtosError>)
        ensures
            final(self)@ == old(self)@.with_rx(None),
            result == receive_result(received),
    {
        self.rx_task = None;
        if received == 0 {
            Err(FreeRtosError::QueueReceiveTimeout)
        } else {
            Ok(received)
        }
    }

    /// Takes a turn at filling what is left of `bytes`.
    ///
    /// Each transfer starts with the longest timeout that the kernel knows, so a
    /// task to which nobody sends may wait for ever.
    pub fn receive_all<'a>(
        &mut self,
        bytes: &'a mut [u8],
        progress: Progress,
        current: Result<FreeRtosTaskHandle, FreeRtosError>,
    ) -> (step: AllStep<StreamReceiveRequest<'a>>)
        requires
            progress.remain <= old(bytes)@.len(),
            progress.remain > 0 ==> crate::turn::can_poll(old(self)@.rx_task, progress.wait),
        ensures
            progress.remain == 0 ==> {
                &&& final(self)@ == old(self)@
                &&& step == AllStep::<StreamReceiveRequest<'a>>::Return(Ok(()))
                &&& final(bytes)@ == old(bytes)@
            },
            progress.remain > 0 ==> {
                let next = crate::turn::turn(old(self)@.rx_task, progress.wait, current);
                &&& final(self)@ == old(self)@.with_rx(
                    crate::turn::holder_after(old(self)@.rx_task, next),
                )
                &&& match next {
                    Turn::Delay(rest) => {
                        &&& step == AllStep::<StreamReceiveRequest<'a>>::Delay(
                            progress.with_wait(rest),
                        )
                        &&& final(bytes)@ == old(bytes)@
                    },
                    Turn::Timeout => {
                        &&& step == AllStep::<StreamReceiveRequest<'a>>::Return(
                            Err(FreeRtosError::QueueSendTimeout),
                        )
                        &&& final(bytes)@ == old(bytes)@
                    },
                    Turn::Unidentified(e) => {
                        &&& step == AllStep::<StreamReceiveRequest<'a>>::Return(Err(e))
                        &&& final(bytes)@ == old(bytes)@
                    },
                    Turn::Claim(_) => {
                        &&& step matches AllStep::Transfer(request)
                        &&& request.handle == old(self)@.handle
                        &&& request.bytes@ == unmoved(old(bytes)@, progress)
                        &&& request.wait == progress.wait.remaining
                        &&& final(bytes)@ == moved(old(bytes)@, progress) + final(request.bytes)@
                    },
                }
            },
    {
        if progress.remain == 0 {
            return AllStep::Return(Ok(()));
        }
        let len: usize = bytes.len();
        let (_, rest) = bytes.split_at_mut(len - progress.remain);
        match self.receive(rest, progress.wait, current) {
            Step::Delay(wait) => AllStep::Delay(
                Progress { remain: progress.remain, wait, infinite: progress.infinite },
            ),
            Step::Transfer(request) => AllStep::Transfer(request),
            Step::Fail(e) => AllStep::Return(Err(e)),
        }
    }

    /// Ends one transfer of [`StreamBuffer::receive_all`], in which the kernel
    /// delivered `received` bytes, and frees the receiving side.
    pub fn advance_receive_all(&mut self, progress: Progress, received: usize) -> (next: Result<
        Progress,
        FreeRtosError,
    >)
        requires
            received <= progress.remain,
        ensures
            final(self)@ == old(self)@.with_rx(None),
            next == match receive_result(received) {
                Ok(count) => Ok::<Progress, FreeRtosError>(progress.advanced(count as int)),
                Err(e) => Err(e),
            },
    {
        match self.finish_receive(received) {
            Ok(count) => Ok(progress.advance(count)),
            Err(e) => Err(e),
        }
    }
}

} // verus!
