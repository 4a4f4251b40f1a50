use freertos_rust::error::FreeRtosError;
use freertos_rust::turn::{needs_current, take_turn, Turn, Wait};

#[test]
fn free_side_is_claimed_with_the_whole_timeout() {
    let mut side = None;
    assert_eq!(take_turn(&mut side, Wait::new(10, 1), Ok(7)), Turn::Claim(7));
    assert_eq!(side, Some(7));
}

#[test]
fn held_side_costs_one_period() {
    let mut side = Some(3);
    assert_eq!(take_turn(&mut side, Wait::new(10, 1), Ok(7)), Turn::Delay(Wait::new(9, 1)));
    assert_eq!(take_turn(&mut side, Wait::new(10, 4), Ok(7)), Turn::Delay(Wait::new(6, 4)));
    assert_eq!(side, Some(3));
}

#[test]
fn no_time_left_is_a_timeout_whoever_holds_the_side() {
    let mut held = Some(3);
    assert_eq!(take_turn(&mut held, Wait::new(0, 1), Ok(7)), Turn::Timeout);
    assert_eq!(held, Some(3));
    let mut free = None;
    assert_eq!(take_turn(&mut free, Wait::new(0, 1), Ok(7)), Turn::Timeout);
    assert_eq!(free, None);
}

#[test]
fn unidentified_task_does_not_claim() {
    let mut side = None;
    let next = take_turn(&mut side, Wait::new(10, 1), Err(FreeRtosError::TaskNotFound));
    assert_eq!(next, Turn::Unidentified(FreeRtosError::TaskNotFound));
    assert_eq!(side, None);
}

#[test]
fn task_is_not_asked_for_while_the_side_is_held() {
    let mut side = Some(3);
    let next = take_turn(&mut side, Wait::new(2, 1), Err(FreeRtosError::TaskNotFound));
    assert_eq!(next, Turn::Delay(Wait::new(1, 1)));
}

#[test]
fn waiting_is_subtracted_from_the_timeout() {
    let mut side = Some(3);
    let mut wait = Wait::new(10, 2);
    for _ in 0..3 {
        match take_turn(&mut side, wait, Ok(7)) {
            Turn::Delay(rest) => wait = rest,
            other => panic!("{:?}", other),
        }
    }
    assert_eq!(wait, Wait::new(4, 2));
    side = None;
    assert_eq!(take_turn(&mut side, wait, Ok(7)), Turn::Claim(7));
}

#[test]
fn side_that_stays_held_ends_in_timeout() {
    let mut side = Some(3);
    let mut wait = Wait::new(6, 2);
    let mut delays = 0;
    while let Turn::Delay(rest) = take_turn(&mut side, wait, Ok(7)) {
        wait = rest;
        delays += 1;
    }
    assert_eq!(delays, 3);
    assert_eq!(take_turn(&mut side, wait, Ok(7)), Turn::Timeout);
}

#[test]
fn task_is_needed_only_for_a_free_side_with_time_left() {
    assert!(needs_current(None, Wait::new(1, 1)));
    assert!(!needs_current(None, Wait::new(0, 1)));
    assert!(!needs_current(Some(3), Wait::new(1, 1)));
    assert!(!needs_current(Some(3), Wait::new(0, 1)));
}
