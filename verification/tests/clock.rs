use ledger_harness::clock::{
    can_warp, next_warp_step, warp_to_timestamp, ClockState, WarpError, WarpStep, NANOS_PER_SECOND,
    SLOT_STEP,
};

#[test]
fn warp_one_hour_ahead_projects_nine_thousand_slots() {
    let mut clock = ClockState { slot: 17, unix_timestamp: 1_650_000_000 };
    let target = 1_650_000_000 + 3600;
    assert!(can_warp(&clock, target, 400_000_000));
    let slot = warp_to_timestamp(&mut clock, target, 400_000_000);
    assert_eq!(slot, Ok(17 + 9000));
    assert!(clock.unix_timestamp >= 1_650_000_000 + 3600);
    assert_eq!(clock, ClockState { slot: 17, unix_timestamp: 1_650_003_600 });
}

#[test]
fn warp_backward_is_refused_and_leaves_the_clock() {
    let mut clock = ClockState { slot: 5, unix_timestamp: 1000 };
    assert_eq!(warp_to_timestamp(&mut clock, 999, 400_000_000), Err(WarpError::InvalidWarpSlot));
    assert_eq!(clock, ClockState { slot: 5, unix_timestamp: 1000 });
}

#[test]
fn warp_to_the_current_timestamp_is_refused() {
    let mut clock = ClockState { slot: 5, unix_timestamp: 1000 };
    assert_eq!(warp_to_timestamp(&mut clock, 1000, 400_000_000), Err(WarpError::InvalidWarpSlot));
    assert_eq!(clock, ClockState { slot: 5, unix_timestamp: 1000 });
}

#[test]
fn warp_backward_is_refused_whatever_the_slot_length() {
    let mut clock = ClockState { slot: u64::MAX, unix_timestamp: i64::MAX };
    assert!(can_warp(&clock, i64::MIN, 0));
    assert_eq!(warp_to_timestamp(&mut clock, i64::MIN, 0), Err(WarpError::InvalidWarpSlot));
    assert_eq!(clock, ClockState { slot: u64::MAX, unix_timestamp: i64::MAX });
}

#[test]
fn warp_rounds_the_slots_down() {
    let mut clock = ClockState { slot: 100, unix_timestamp: 0 };
    // 7 s are 7_000_000_000 ns; at 3_000_000_000 ns per slot that is 2 whole slots.
    assert_eq!(warp_to_timestamp(&mut clock, 7, 3_000_000_000), Ok(102));
    assert_eq!(clock, ClockState { slot: 100, unix_timestamp: 7 });
}

#[test]
fn warp_shorter_than_a_slot_keeps_the_slot() {
    let mut clock = ClockState { slot: 100, unix_timestamp: 50 };
    assert_eq!(warp_to_timestamp(&mut clock, 51, 1_000_000_001), Ok(100));
    assert_eq!(clock.unix_timestamp, 51);
}

#[test]
fn warp_from_a_negative_timestamp() {
    let mut clock = ClockState { slot: 1, unix_timestamp: -10 };
    assert!(can_warp(&clock, 10, 400_000_000));
    assert_eq!(warp_to_timestamp(&mut clock, 10, 400_000_000), Ok(1 + 50));
    assert_eq!(clock.unix_timestamp, 10);
}

#[test]
fn warp_with_one_nanosecond_slots() {
    let mut clock = ClockState { slot: 0, unix_timestamp: 0 };
    assert_eq!(warp_to_timestamp(&mut clock, 3, 1), Ok(3_000_000_000));
}

#[test]
fn can_warp_tells_what_cannot_be_computed() {
    let clock = ClockState { slot: 0, unix_timestamp: 0 };
    // no slot length
    assert!(!can_warp(&clock, 1, 0));
    // the distance in nanoseconds does not fit
    assert!(!can_warp(&clock, 9_223_372_037, 400_000_000));
    assert!(can_warp(&clock, 9_223_372_036, 400_000_000));
    // the distance itself does not fit
    let early = ClockState { slot: 0, unix_timestamp: i64::MIN };
    assert!(!can_warp(&early, i64::MAX, 400_000_000));
    // the slot to jump to does not fit
    let late = ClockState { slot: u64::MAX - 1, unix_timestamp: 0 };
    assert!(!can_warp(&late, 1, 400_000_000));
    assert!(can_warp(&late, 1, 1_000_000_000));
}

#[test]
fn nanos_per_second_is_a_billion() {
    assert_eq!(NANOS_PER_SECOND, 1_000_000_000);
}

#[test]
fn stepwise_strategy_advances_two_slots_until_the_target() {
    assert_eq!(SLOT_STEP, 2);
    let clock = ClockState { slot: 40, unix_timestamp: 99 };
    assert_eq!(next_warp_step(&clock, 100), WarpStep::Advance { slot: 42 });
    let reached = ClockState { slot: 42, unix_timestamp: 100 };
    assert_eq!(next_warp_step(&reached, 100), WarpStep::Reached);
    let past = ClockState { slot: 42, unix_timestamp: 101 };
    assert_eq!(next_warp_step(&past, 100), WarpStep::Reached);
}
