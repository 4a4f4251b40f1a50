use freertos_rust::error::FreeRtosError;
use freertos_rust::message_buffer::MessageBuffer;
use freertos_rust::transfer::Step;
use freertos_rust::turn::Wait;

#[derive(Clone, Copy, Debug, PartialEq)]
struct Reading {
    channel: u32,
    value: u32,
}

#[test]
fn each_message_takes_four_more_bytes() {
    assert_eq!(MessageBuffer::<Reading>::item_size(), 8);
    assert_eq!(MessageBuffer::<Reading>::create_request(3), 36);
    assert_eq!(MessageBuffer::<u8>::create_request(10), 50);
    assert_eq!(MessageBuffer::<u8>::create_request(0), 0);
    assert_eq!(MessageBuffer::<()>::create_request(2), 8);
}

#[test]
fn null_message_handle_is_out_of_memory() {
    assert_eq!(MessageBuffer::<u8>::new(4, 0).unwrap_err(), FreeRtosError::OutOfMemory);
}

#[test]
fn new_message_buffer_is_idle() {
    let buffer = MessageBuffer::<u8>::new(4, 1000).unwrap();
    assert_eq!(buffer.raw_handle(), (1000, 4, None, None));
}

#[test]
fn message_raw_handle_round_trip() {
    let buffer = MessageBuffer::<u8>::from_raw_handle(5, 64, Some(1), Some(2));
    let (handle, max_messages, tx, rx) = buffer.raw_handle();
    let again = MessageBuffer::<u8>::from_raw_handle(handle, max_messages, tx, rx);
    assert_eq!(again.raw_handle(), (5, 64, Some(1), Some(2)));
}

#[test]
fn messages_come_out_as_they_went_in() {
    let mut buffer = MessageBuffer::<Reading>::new(4, 5).unwrap();
    let items = [Reading { channel: 1, value: 2 }, Reading { channel: 3, value: 4 }];
    let mut stored = Vec::new();
    for item in items {
        match buffer.send(item, Wait::new(20, 1), Ok(7)) {
            Step::Transfer(request) => {
                assert_eq!((request.handle, request.size, request.wait), (5, 8, 20));
                stored.push((request.size, request.item));
            }
            _ => unreachable!(),
        }
        assert_eq!(buffer.raw_handle(), (5, 4, Some(7), None));
        assert_eq!(buffer.finish_send(12), Ok(12));
        assert_eq!(buffer.raw_handle(), (5, 4, None, None));
    }
    for (item, (size, stored_item)) in items.iter().zip(stored) {
        match buffer.receive(Wait::new(30, 1), Ok(8)) {
            Step::Transfer(request) => {
                assert_eq!((request.handle, request.size, request.wait), (5, 8, 30))
            }
            _ => unreachable!(),
        }
        assert_eq!(buffer.raw_handle(), (5, 4, None, Some(8)));
        assert_eq!(buffer.finish_receive(size, stored_item), Ok(*item));
        assert_eq!(buffer.raw_handle(), (5, 4, None, None));
    }
}

#[test]
fn message_that_was_sent_counts_with_its_length() {
    let mut buffer = MessageBuffer::<Reading>::from_raw_handle(5, 4, Some(7), Some(8));
    assert_eq!(buffer.finish_send(8), Ok(12));
    assert_eq!(buffer.raw_handle(), (5, 4, None, Some(8)));
    let mut empty = MessageBuffer::<()>::from_raw_handle(5, 4, Some(7), None);
    assert_eq!(empty.finish_send(4), Ok(4));
}

#[test]
fn nothing_accepted_is_queue_full() {
    let mut buffer = MessageBuffer::<u8>::from_raw_handle(5, 4, Some(7), Some(8));
    assert_eq!(buffer.finish_send(0), Err(FreeRtosError::QueueFull));
    assert_eq!(buffer.raw_handle(), (5, 4, None, Some(8)));
}

#[test]
fn interrupt_is_told_what_was_sent() {
    let buffer = MessageBuffer::<u16>::from_raw_handle(5, 4, Some(7), None);
    let request = buffer.send_from_isr(77);
    assert_eq!((request.handle, request.item, request.size), (5, 77, 2));
    assert_eq!(MessageBuffer::<u16>::finish_send_from_isr(6), Ok(6));
    assert_eq!(MessageBuffer::<u16>::finish_send_from_isr(0), Ok(0));
}

#[test]
fn receiver_waits_its_turn_and_gets_the_rest_of_the_timeout() {
    let mut buffer = MessageBuffer::<u16>::from_raw_handle(5, 4, None, Some(9));
    let mut wait = Wait::new(3, 1);
    for _ in 0..2 {
        match buffer.receive(wait, Ok(8)) {
            Step::Delay(rest) => wait = rest,
            _ => unreachable!(),
        }
    }
    assert_eq!(buffer.finish_receive(2, 1), Ok(1));
    match buffer.receive(wait, Ok(8)) {
        Step::Transfer(request) => assert_eq!(request.wait, 1),
        _ => unreachable!(),
    }
}

#[test]
fn message_transfers_time_out_behind_another_task() {
    let mut buffer = MessageBuffer::<u16>::from_raw_handle(5, 4, Some(8), Some(9));
    match buffer.send(1, Wait::new(1, 1), Ok(7)) {
        Step::Delay(rest) => assert_eq!(rest, Wait::new(0, 1)),
        _ => unreachable!(),
    }
    match buffer.send(1, Wait::new(0, 1), Ok(7)) {
        Step::Fail(e) => assert_eq!(e, FreeRtosError::QueueSendTimeout),
        _ => unreachable!(),
    }
    match buffer.receive(Wait::new(0, 1), Ok(7)) {
        Step::Fail(e) => assert_eq!(e, FreeRtosError::QueueSendTimeout),
        _ => unreachable!(),
    }
    assert_eq!(buffer.raw_handle(), (5, 4, Some(8), Some(9)));
}

#[test]
fn message_transfers_need_a_known_task() {
    let mut buffer = MessageBuffer::<u16>::new(4, 5).unwrap();
    match buffer.send(1, Wait::new(1, 1), Err(FreeRtosError::TaskNotFound)) {
        Step::Fail(e) => assert_eq!(e, FreeRtosError::TaskNotFound),
        _ => unreachable!(),
    }
    match buffer.receive(Wait::new(1, 1), Err(FreeRtosError::TaskNotFound)) {
        Step::Fail(e) => assert_eq!(e, FreeRtosError::TaskNotFound),
        _ => unreachable!(),
    }
}

#[test]
fn only_whole_messages_are_received() {
    let mut buffer = MessageBuffer::<u32>::from_raw_handle(5, 4, None, Some(9));
    assert_eq!(buffer.finish_receive(0, 0), Err(FreeRtosError::QueueReceiveTimeout));
    assert_eq!(buffer.raw_handle().3, None);
    assert_eq!(buffer.finish_receive(3, 6), Err(FreeRtosError::InvalidQueueSize));
    assert_eq!(buffer.finish_receive(5, 6), Err(FreeRtosError::InvalidQueueSize));
    assert_eq!(buffer.finish_receive(4, 6), Ok(6));
}

#[test]
fn empty_message_is_whole_without_bytes() {
    let mut buffer = MessageBuffer::<()>::from_raw_handle(5, 4, None, Some(9));
    assert_eq!(buffer.finish_receive(0, ()), Ok(()));
}

#[test]
fn free_bytes_count_messages() {
    let buffer = MessageBuffer::<Reading>::new(3, 5).unwrap();
    assert_eq!(buffer.len(36), 0);
    assert_eq!(buffer.len(24), 1);
    assert_eq!(buffer.len(13), 1);
    assert_eq!(buffer.len(12), 2);
    assert_eq!(buffer.len(0), 3);
}
