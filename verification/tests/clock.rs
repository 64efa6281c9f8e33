//! Timestamps, clocks, and deadlines.

use std::sync::atomic::{AtomicU64, Ordering};

use agent_runtime_core::clock::{Clock, Deadline, SystemClock, Timestamp};

#[derive(Default)]
struct StepClock(AtomicU64);

impl Clock for StepClock {
    fn now(&self) -> Timestamp {
        Timestamp(self.0.fetch_add(1, Ordering::SeqCst))
    }
}

#[test]
fn deadline_expires_against_clock() {
    let clock = StepClock::default();
    // The first reading is 0, so the deadline is at 5.
    let deadline = Deadline::after(&clock, 5);
    // Later readings are 1, 2, 3, 4, and 5.
    for _ in 0..4 {
        assert!(!deadline.is_expired(&clock));
    }
    assert!(deadline.is_expired(&clock));
}

#[test]
fn never_deadline_never_expires() {
    let clock = SystemClock;
    assert!(!Deadline::never().is_expired(&clock));
    assert_eq!(Deadline::never().remaining_millis(&clock), None);
}

#[test]
fn earliest_keeps_the_tighter_deadline() {
    assert_eq!(
        Deadline::at(Timestamp(5)).earliest(Deadline::at(Timestamp(10))),
        Deadline::at(Timestamp(5))
    );
    assert_eq!(
        Deadline::never().earliest(Deadline::at(Timestamp(10))),
        Deadline::at(Timestamp(10))
    );
}

#[test]
fn remaining_time_saturates() {
    let deadline = Deadline::after_instant(Timestamp(10), 5);
    assert_eq!(deadline.instant(), Some(Timestamp(15)));
    assert_eq!(deadline.remaining_millis_at(Timestamp(12)), Some(3));
    assert_eq!(deadline.remaining_millis_at(Timestamp(15)), Some(0));
    assert_eq!(deadline.remaining_millis_at(Timestamp(99)), Some(0));
    assert!(!deadline.is_expired_at(Timestamp(14)));
    assert!(deadline.is_expired_at(Timestamp(15)));
    assert_eq!(Timestamp(u64::MAX).plus_millis(7), Timestamp(u64::MAX));
    assert_eq!(Timestamp(3).plus_millis(4).as_millis(), 7);
    assert_eq!(Timestamp(1234).to_text(), "1234ms");
}

#[test]
fn the_system_clock_reads_wall_time() {
    // 2020-01-01 in milliseconds since the epoch.
    assert!(SystemClock.now() > Timestamp(1_577_836_800_000));
}

#[test]
fn wall_clock_readings_become_timestamps() {
    assert_eq!(SystemClock::timestamp_of(None), Timestamp::zero());
    assert_eq!(SystemClock::timestamp_of(Some(1_577_836_800_000)), Timestamp(1_577_836_800_000));
    assert_eq!(SystemClock::timestamp_of(Some((1u128 << 64) + 7)), Timestamp(7));
}
