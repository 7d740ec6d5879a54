use axhal::time::{epochoffset_nanos, increment_global_ticks, oneshot_interval};
use std::sync::atomic::{AtomicU64, Ordering};

#[test]
fn global_ticks_advance_by_one() {
    let ticks = AtomicU64::new(0);
    increment_global_ticks(&ticks);
    increment_global_ticks(&ticks);
    assert_eq!(ticks.load(Ordering::Relaxed), 2);
}

#[test]
fn global_ticks_wrap() {
    let ticks = AtomicU64::new(u64::MAX);
    increment_global_ticks(&ticks);
    assert_eq!(ticks.load(Ordering::Relaxed), 0);
}

#[test]
fn epoch_offset_is_zero() {
    assert_eq!(epochoffset_nanos(), 0);
}

#[test]
fn oneshot_interval_until_deadline() {
    assert_eq!(oneshot_interval(100, 250), 150);
    assert_eq!(oneshot_interval(250, 100), 0);
    assert_eq!(oneshot_interval(100, 100), 0);
    assert_eq!(oneshot_interval(0, u32::MAX as u64), u32::MAX as u64);
    assert_eq!(oneshot_interval(1, u64::MAX), u64::MAX - 1);
}
