use freertos_rust::error::FreeRtosError;
use freertos_rust::stream_buffer::{StreamBuffer, StreamCreateRequest};
use freertos_rust::transfer::{AllStep, Progress, Step};
use freertos_rust::turn::Wait;

const INFINITE: u32 = u32::MAX;

/// A kernel that stores up to `room` bytes and moves at most `chunk` at a time.
struct Kernel {
    stored: Vec<u8>,
    room: usize,
    chunk: usize,
}

impl Kernel {
    fn new(room: usize, chunk: usize) -> Kernel {
        Kernel { stored: Vec::new(), room, chunk }
    }

    fn send(&mut self, bytes: &[u8]) -> usize {
        let count = bytes.len().min(self.chunk).min(self.room - self.stored.len());
        self.stored.extend_from_slice(&bytes[..count]);
        count
    }

    fn receive(&mut self, bytes: &mut [u8]) -> usize {
        let count = bytes.len().min(self.chunk).min(self.stored.len());
        for (slot, byte) in bytes.iter_mut().zip(self.stored.drain(..count)) {
            *slot = byte;
        }
        count
    }
}

fn send_all(
    buffer: &mut StreamBuffer,
    kernel: &mut Kernel,
    bytes: &[u8],
) -> (Result<(), FreeRtosError>, usize) {
    let mut progress = Progress::new(bytes.len(), INFINITE, 1);
    let mut transfers = 0;
    loop {
        match buffer.send_all(bytes, progress, Ok(7)) {
            AllStep::Delay(_) => unreachable!(),
            AllStep::Return(result) => return (result, transfers),
            AllStep::Transfer(request) => {
                assert_eq!(request.wait, INFINITE);
                let sent = kernel.send(request.bytes);
                transfers += 1;
                match buffer.advance_send_all(progress, sent) {
                    Ok(next) => progress = next,
                    Err(e) => return (Err(e), transfers),
                }
            }
        }
    }
}

fn receive_all(
    buffer: &mut StreamBuffer,
    kernel: &mut Kernel,
    bytes: &mut [u8],
) -> (Result<(), FreeRtosError>, usize) {
    let mut progress = Progress::new(bytes.len(), INFINITE, 1);
    let mut transfers = 0;
    loop {
        match buffer.receive_all(bytes, progress, Ok(8)) {
            AllStep::Delay(_) => unreachable!(),
            AllStep::Return(result) => return (result, transfers),
            AllStep::Transfer(request) => {
                assert_eq!(request.wait, INFINITE);
                let received = kernel.receive(request.bytes);
                transfers += 1;
                match buffer.advance_receive_all(progress, received) {
                    Ok(next) => progress = next,
                    Err(e) => return (Err(e), transfers),
                }
            }
        }
    }
}

#[test]
fn trigger_must_not_exceed_size() {
    assert_eq!(StreamBuffer::create_request(8, 9), Err(FreeRtosError::InvalidQueueSize));
    assert_eq!(
        StreamBuffer::create_request(8, 8),
        Ok(StreamCreateRequest { max_size: 8, trigger_size: 8 })
    );
    assert_eq!(
        StreamBuffer::create_request(0, 0),
        Ok(StreamCreateRequest { max_size: 0, trigger_size: 0 })
    );
    assert_eq!(StreamBuffer::new(8, 9, 1).unwrap_err(), FreeRtosError::InvalidQueueSize);
    assert_eq!(StreamBuffer::new(8, 9, 0).unwrap_err(), FreeRtosError::InvalidQueueSize);
}

#[test]
fn null_handle_is_out_of_memory() {
    assert_eq!(StreamBuffer::new(8, 1, 0).unwrap_err(), FreeRtosError::OutOfMemory);
}

#[test]
fn new_buffer_is_idle() {
    let buffer = StreamBuffer::new(8, 2, 1000).unwrap();
    assert_eq!(buffer.raw_handle(), (1000, 8, 2, None, None));
}

#[test]
fn stream_raw_handle_round_trip() {
    let buffer = StreamBuffer::from_raw_handle(5, 64, 3, Some(1), Some(2));
    let (handle, max_size, trigger_size, tx, rx) = buffer.raw_handle();
    let again = StreamBuffer::from_raw_handle(handle, max_size, trigger_size, tx, rx);
    assert_eq!(again.raw_handle(), (5, 64, 3, Some(1), Some(2)));
}

#[test]
fn send_hands_over_all_bytes_and_claims_the_sending_side() {
    let mut buffer = StreamBuffer::from_raw_handle(5, 64, 3, None, Some(2));
    match buffer.send(&[1, 2, 3], Wait::new(40, 1), Ok(7)) {
        Step::Transfer(request) => {
            assert_eq!(request.handle, 5);
            assert_eq!(request.bytes, &[1, 2, 3]);
            assert_eq!(request.wait, 40);
        }
        _ => unreachable!(),
    }
    assert_eq!(buffer.raw_handle(), (5, 64, 3, Some(7), Some(2)));
    assert_eq!(buffer.finish_send(2), Ok(2));
    assert_eq!(buffer.raw_handle(), (5, 64, 3, None, Some(2)));
}

#[test]
fn second_sender_waits_its_turn_and_gets_the_rest_of_the_timeout() {
    let mut buffer = StreamBuffer::new(8, 1, 5).unwrap();
    assert!(matches!(buffer.send(&[1], Wait::new(9, 1), Ok(7)), Step::Transfer(_)));
    let mut wait = Wait::new(3, 1);
    for _ in 0..2 {
        match buffer.send(&[2], wait, Ok(8)) {
            Step::Delay(rest) => wait = rest,
            _ => unreachable!(),
        }
    }
    assert_eq!(buffer.raw_handle().3, Some(7));
    assert_eq!(buffer.finish_send(1), Ok(1));
    match buffer.send(&[2], wait, Ok(8)) {
        Step::Transfer(request) => assert_eq!(request.wait, 1),
        _ => unreachable!(),
    }
    assert_eq!(buffer.raw_handle().3, Some(8));
}

#[test]
fn send_times_out_behind_another_sender() {
    let mut buffer = StreamBuffer::from_raw_handle(5, 8, 1, Some(7), None);
    match buffer.send(&[2], Wait::new(0, 1), Ok(8)) {
        Step::Fail(e) => assert_eq!(e, FreeRtosError::QueueSendTimeout),
        _ => unreachable!(),
    }
    assert_eq!(buffer.raw_handle(), (5, 8, 1, Some(7), None));
}

#[test]
fn send_and_receive_need_a_known_task() {
    let mut buffer = StreamBuffer::new(8, 1, 5).unwrap();
    match buffer.send(&[2], Wait::new(1, 1), Err(FreeRtosError::TaskNotFound)) {
        Step::Fail(e) => assert_eq!(e, FreeRtosError::TaskNotFound),
        _ => unreachable!(),
    }
    match buffer.receive(&mut [0], Wait::new(1, 1), Err(FreeRtosError::TaskNotFound)) {
        Step::Fail(e) => assert_eq!(e, FreeRtosError::TaskNotFound),
        _ => unreachable!(),
    }
    assert_eq!(buffer.raw_handle(), (5, 8, 1, None, None));
}

#[test]
fn nothing_sent_is_queue_full_and_frees_the_side() {
    let mut buffer = StreamBuffer::from_raw_handle(5, 8, 1, Some(7), None);
    assert_eq!(buffer.finish_send(0), Err(FreeRtosError::QueueFull));
    assert_eq!(buffer.raw_handle().3, None);
}

#[test]
fn interrupt_sends_without_a_turn() {
    let buffer = StreamBuffer::from_raw_handle(5, 8, 1, Some(7), None);
    let request = buffer.send_from_isr(&[4, 5]);
    assert_eq!(request.handle, 5);
    assert_eq!(request.bytes, &[4, 5]);
    assert_eq!(StreamBuffer::finish_send_from_isr(2), Ok(2));
    assert_eq!(StreamBuffer::finish_send_from_isr(0), Err(FreeRtosError::QueueFull));
}

#[test]
fn receive_offers_all_room_and_claims_the_receiving_side() {
    let mut buffer = StreamBuffer::from_raw_handle(5, 64, 3, Some(2), None);
    let mut bytes = [9u8; 4];
    match buffer.receive(&mut bytes, Wait::new(40, 1), Ok(7)) {
        Step::Transfer(request) => {
            assert_eq!(request.handle, 5);
            assert_eq!(request.wait, 40);
            assert_eq!(request.bytes.len(), 4);
            request.bytes[..2].copy_from_slice(&[1, 2]);
        }
        _ => unreachable!(),
    }
    assert_eq!(buffer.raw_handle(), (5, 64, 3, Some(2), Some(7)));
    assert_eq!(buffer.finish_receive(2), Ok(2));
    assert_eq!(buffer.raw_handle(), (5, 64, 3, Some(2), None));
    assert_eq!(bytes, [1, 2, 9, 9]);
}

#[test]
fn receive_waits_and_times_out_behind_another_receiver() {
    let mut buffer = StreamBuffer::from_raw_handle(5, 64, 3, None, Some(2));
    let mut bytes = [9u8; 1];
    match buffer.receive(&mut bytes, Wait::new(1, 1), Ok(7)) {
        Step::Delay(rest) => assert_eq!(rest, Wait::new(0, 1)),
        _ => unreachable!(),
    }
    match buffer.receive(&mut bytes, Wait::new(0, 1), Ok(7)) {
        Step::Fail(e) => assert_eq!(e, FreeRtosError::QueueSendTimeout),
        _ => unreachable!(),
    }
    assert_eq!(bytes, [9]);
    assert_eq!(buffer.raw_handle().4, Some(2));
}

#[test]
fn nothing_received_is_a_timeout_and_frees_the_side() {
    let mut buffer = StreamBuffer::from_raw_handle(5, 8, 1, None, Some(7));
    assert_eq!(buffer.finish_receive(0), Err(FreeRtosError::QueueReceiveTimeout));
    assert_eq!(buffer.raw_handle().4, None);
}

#[test]
fn bytes_come_out_as_they_went_in() {
    let bytes: Vec<u8> = (0..23).collect();
    let mut buffer = StreamBuffer::new(64, 1, 5).unwrap();
    let mut kernel = Kernel::new(64, 4);
    assert_eq!(send_all(&mut buffer, &mut kernel, &bytes), (Ok(()), 6));
    assert_eq!(kernel.stored, bytes);
    kernel.chunk = 7;
    let mut out = [0u8; 23];
    assert_eq!(receive_all(&mut buffer, &mut kernel, &mut out), (Ok(()), 4));
    assert_eq!(&out[..], &bytes[..]);
    assert_eq!(buffer.raw_handle(), (5, 64, 1, None, None));
}

#[test]
fn send_all_stops_at_the_first_error() {
    let mut buffer = StreamBuffer::new(5, 1, 5).unwrap();
    let mut kernel = Kernel::new(5, 3);
    let result = send_all(&mut buffer, &mut kernel, &[1, 2, 3, 4, 5, 6, 7]);
    assert_eq!(result, (Err(FreeRtosError::QueueFull), 3));
    assert_eq!(kernel.stored, vec![1, 2, 3, 4, 5]);
    assert_eq!(buffer.raw_handle().3, None);
}

#[test]
fn receive_all_stops_at_the_first_error() {
    let mut buffer = StreamBuffer::new(5, 1, 5).unwrap();
    let mut kernel = Kernel::new(5, 3);
    kernel.send(&[1, 2, 3]);
    let mut out = [0u8; 5];
    let result = receive_all(&mut buffer, &mut kernel, &mut out);
    assert_eq!(result, (Err(FreeRtosError::QueueReceiveTimeout), 2));
    assert_eq!(out, [1, 2, 3, 0, 0]);
    assert_eq!(buffer.raw_handle().4, None);
}

#[test]
fn empty_transfers_are_done_at_once() {
    let mut buffer = StreamBuffer::from_raw_handle(5, 8, 1, Some(1), Some(2));
    let mut kernel = Kernel::new(8, 8);
    assert_eq!(send_all(&mut buffer, &mut kernel, &[]), (Ok(()), 0));
    assert_eq!(receive_all(&mut buffer, &mut kernel, &mut []), (Ok(()), 0));
    assert_eq!(buffer.raw_handle(), (5, 8, 1, Some(1), Some(2)));
}

#[test]
fn all_transfers_wait_for_their_turn() {
    let mut buffer = StreamBuffer::from_raw_handle(5, 8, 1, Some(1), Some(2));
    let progress = Progress::new(2, 50, 1);
    match buffer.send_all(&[1, 2], progress, Ok(7)) {
        AllStep::Delay(next) => {
            assert_eq!(next, Progress { remain: 2, wait: Wait::new(49, 1), infinite: 50 })
        }
        _ => unreachable!(),
    }
    match buffer.receive_all(&mut [0, 0], progress, Ok(7)) {
        AllStep::Delay(next) => {
            assert_eq!(next, Progress { remain: 2, wait: Wait::new(49, 1), infinite: 50 })
        }
        _ => unreachable!(),
    }
    let late = Progress { remain: 2, wait: Wait::new(0, 1), infinite: 50 };
    match buffer.send_all(&[1, 2], late, Ok(7)) {
        AllStep::Return(result) => assert_eq!(result, Err(FreeRtosError::QueueSendTimeout)),
        _ => unreachable!(),
    }
    match buffer.receive_all(&mut [0, 0], late, Ok(7)) {
        AllStep::Return(result) => assert_eq!(result, Err(FreeRtosError::QueueSendTimeout)),
        _ => unreachable!(),
    }
}

#[test]
fn each_transfer_starts_with_the_full_timeout() {
    let mut buffer = StreamBuffer::from_raw_handle(5, 8, 1, Some(1), None);
    let late = Progress { remain: 5, wait: Wait::new(3, 1), infinite: 50 };
    assert_eq!(
        buffer.advance_send_all(late, 2),
        Ok(Progress { remain: 3, wait: Wait::new(50, 1), infinite: 50 })
    );
    assert_eq!(
        buffer.advance_receive_all(late, 5),
        Ok(Progress { remain: 0, wait: Wait::new(50, 1), infinite: 50 })
    );
}
