use fuser::time::{time_from_system_time, Timestamp, Ttl};
use std::time::{Duration, SystemTime, UNIX_EPOCH};

#[test]
fn ttl_keeps_seconds_and_nanoseconds() {
    assert_eq!(Ttl::from_duration(&Duration::new(5, 7)), Ttl { secs: 5, nanos: 7 });
    assert_eq!(Ttl::from_duration(&Duration::from_millis(1500)), Ttl { secs: 1, nanos: 500_000_000 });
}

#[test]
fn timestamp_after_epoch() {
    let t: SystemTime = UNIX_EPOCH + Duration::new(3, 4);
    assert_eq!(Timestamp::from_system_time(&t), Timestamp { secs: 3, nanos: 4 });
    assert_eq!(time_from_system_time(&t), (3, 4));
}

#[test]
fn timestamp_before_epoch_negates_seconds_only() {
    let t: SystemTime = UNIX_EPOCH - Duration::new(3, 4);
    assert_eq!(Timestamp::from_system_time(&t), Timestamp { secs: -3, nanos: 4 });
}

#[test]
fn timestamp_of_epoch_is_zero() {
    assert_eq!(Timestamp::from_system_time(&UNIX_EPOCH), Timestamp { secs: 0, nanos: 0 });
}
