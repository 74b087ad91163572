use violetrx::completion::{resolve_unit, resolve_value, CommandWait, CompletionSlot};
use violetrx::error::VioletError;

#[test]
fn callback_firing_once_resolves_exactly_once() {
    let mut slot: CompletionSlot<i32> = CompletionSlot::new();
    assert!(slot.fill(0, 48000));
    match slot.poll_wait() {
        CommandWait::Ready(code, value) => {
            assert_eq!(code, 0);
            assert_eq!(value, 48000);
        },
        _ => panic!("expected the delivered outcome"),
    }
}

#[test]
fn callback_firing_twice_is_rejected_the_second_time() {
    let mut slot: CompletionSlot<i32> = CompletionSlot::new();
    assert!(slot.fill(0, 1));
    assert!(!slot.fill(2, 2));
    match slot.poll_wait() {
        CommandWait::Ready(code, value) => {
            assert_eq!(code, 0);
            assert_eq!(value, 1);
        },
        _ => panic!("expected the first delivery"),
    }
}

#[test]
fn callback_never_firing_leaves_the_wait_pending_until_the_context_dies() {
    let mut slot: CompletionSlot<i32> = CompletionSlot::new();
    assert!(matches!(slot.poll_wait(), CommandWait::Pending));
    assert!(slot.drop_context());
    assert!(matches!(slot.poll_wait(), CommandWait::Lost));
}

#[test]
fn abandoning_waits_never_leaks_contexts() {
    // Round-trip create/abandon many times; the callback firing afterwards
    // must reclaim each context exactly once, bringing the outstanding count
    // back to the baseline.
    let mut outstanding: u32 = 0;
    for round in 0..100 {
        let mut slot: CompletionSlot<i64> = CompletionSlot::new();
        outstanding += 1;
        slot.abandon();
        if slot.fill(0, round) {
            outstanding -= 1;
        }
        // a stray second invocation must not double-release
        if slot.fill(0, round) {
            outstanding -= 1;
        }
    }
    assert_eq!(outstanding, 0);
}

#[test]
fn resolve_unit_maps_codes() {
    assert_eq!(resolve_unit(Some(0)), Ok(()));
    assert_eq!(resolve_unit(Some(1)), Err(VioletError::WorkerBusy));
    assert_eq!(resolve_unit(Some(12)), Err(VioletError::NotRunning));
    assert_eq!(resolve_unit(Some(12345)), Err(VioletError::UnknownError));
    assert_eq!(resolve_unit(None), Err(VioletError::UnknownError));
}

#[test]
fn resolve_value_maps_codes_and_payloads() {
    assert_eq!(resolve_value(Some((0, 2048i32))), Ok(2048));
    assert_eq!(resolve_value(Some((0, -7i64))), Ok(-7i64));
    assert_eq!(resolve_value(Some((2, 10i32))), Err(VioletError::GainNotFound));
    assert_eq!(resolve_value(Some((16, 0u64))), Err(VioletError::InsufficientBufferSize));
    assert_eq!(resolve_value::<i32>(None), Err(VioletError::UnknownError));
}

#[test]
fn gain_values_survive_the_bridge_as_bit_patterns() {
    let gain = 23.5f64;
    let r = resolve_value(Some((0, gain.to_bits())));
    assert_eq!(r.map(f64::from_bits), Ok(23.5));
}
