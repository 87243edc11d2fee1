use zenobuf::time::{Duration, Time, ZenobufDuration};
use zenobuf::util::{duration_to_string, string_to_duration};

#[test]
fn test_time_now() {
    let time = Time::now();
    let system_duration = std::time::SystemTime::now()
        .duration_since(std::time::UNIX_EPOCH)
        .expect("System time before Unix epoch");

    // The times should be very close (within 1 second)
    let time_nanos = time.to_duration().as_nanos();
    let system_nanos = system_duration.as_nanos();
    let diff = if time_nanos > system_nanos {
        time_nanos - system_nanos
    } else {
        system_nanos - time_nanos
    };

    assert!(diff < 1_000_000_000);
}

#[test]
fn test_time_from_duration() {
    let duration = Duration::from_secs(1234567890);
    let time = Time::from_duration(duration);

    assert_eq!(time.sec, 1234567890);
    assert_eq!(time.nsec, 0);
}

#[test]
fn test_time_to_duration() {
    let time = Time::new(1234567890, 123456789);
    let duration = time.to_duration();

    assert_eq!(duration.as_secs(), 1234567890);
    assert_eq!(duration.subsec_nanos(), 123456789);
}

#[test]
fn test_time_normalize() {
    let time = Time::new(1234567890, 1234567890); // nsec > 1_000_000_000

    assert_eq!(time.sec, 1234567891);
    assert_eq!(time.nsec, 234567890);
}

#[test]
fn test_time_add() {
    let time = Time::new(1234567890, 500000000);
    let duration = Duration::from_millis(1500);
    let new_time = time.add(duration);

    assert_eq!(new_time.sec, 1234567892);
    assert_eq!(new_time.nsec, 0);
}

#[test]
fn test_time_sub() {
    let time = Time::new(1234567890, 500000000);
    let duration = Duration::from_millis(1500);
    let new_time = time.sub(duration);

    assert_eq!(new_time.sec, 1234567889);
    assert_eq!(new_time.nsec, 0);
}

#[test]
fn test_time_from_system_time() {
    let since_epoch = Duration::from_secs(1234567890);
    let time = Time::from(since_epoch);

    assert_eq!(time.sec, 1234567890);
    assert_eq!(time.nsec, 0);
}

#[test]
fn test_zenobuf_duration_new() {
    let duration = ZenobufDuration::new(1234, 567890000);

    assert_eq!(duration.sec, 1234);
    assert_eq!(duration.nsec, 567890000);
}

#[test]
fn test_zenobuf_duration_from_std() {
    let std_duration = Duration::from_secs(1234)
        .checked_add(&Duration::from_nanos(567890000))
        .unwrap();
    let duration = ZenobufDuration::from_std(std_duration);

    assert_eq!(duration.sec, 1234);
    assert_eq!(duration.nsec, 567890000);
}

#[test]
fn test_zenobuf_duration_to_std() {
    let duration = ZenobufDuration::new(1234, 567890000);
    let std_duration = duration.to_std();

    assert_eq!(std_duration.as_secs(), 1234);
    assert_eq!(std_duration.subsec_nanos(), 567890000);
}

#[test]
fn test_zenobuf_duration_normalize() {
    let duration = ZenobufDuration::new(1234, 1567890000); // nsec > 1_000_000_000

    assert_eq!(duration.sec, 1235);
    assert_eq!(duration.nsec, 567890000);

    let duration = ZenobufDuration::new(1234, -500000000); // nsec < 0

    assert_eq!(duration.sec, 1233);
    assert_eq!(duration.nsec, 500000000);
}

#[test]
fn test_duration_to_string() {
    let duration = Duration::from_secs(3661).checked_add(&Duration::from_millis(42)).unwrap();
    let string = duration_to_string(duration);

    assert_eq!(string, "1h 1m 1s 42ms");

    let duration = Duration::from_secs(61).checked_add(&Duration::from_millis(42)).unwrap();
    let string = duration_to_string(duration);

    assert_eq!(string, "1m 1s 42ms");

    let duration = Duration::from_secs(1).checked_add(&Duration::from_millis(42)).unwrap();
    let string = duration_to_string(duration);

    assert_eq!(string, "1s 42ms");

    let duration = Duration::from_millis(42);
    let string = duration_to_string(duration);

    assert_eq!(string, "42ms");
}

#[test]
fn test_string_to_duration() {
    let string = "1h 1m 1s 42ms";
    let duration = string_to_duration(string).unwrap();

    assert_eq!(duration.as_secs(), 3661);
    assert_eq!(duration.subsec_millis(), 42);

    let string = "1m 1s 42ms";
    let duration = string_to_duration(string).unwrap();

    assert_eq!(duration.as_secs(), 61);
    assert_eq!(duration.subsec_millis(), 42);

    let string = "1s 42ms";
    let duration = string_to_duration(string).unwrap();

    assert_eq!(duration.as_secs(), 1);
    assert_eq!(duration.subsec_millis(), 42);

    let string = "42ms";
    let duration = string_to_duration(string).unwrap();

    assert_eq!(duration.as_secs(), 0);
    assert_eq!(duration.subsec_millis(), 42);

    // Test with different units
    let string = "1hour 30minutes 45seconds";
    let duration = string_to_duration(string).unwrap();

    assert_eq!(duration.as_secs(), 5445);
    assert_eq!(duration.subsec_millis(), 0);

    // Test with invalid unit
    let string = "42invalid";
    let duration = string_to_duration(string).unwrap();

    assert_eq!(duration.as_secs(), 0);
    assert_eq!(duration.subsec_millis(), 0);
}

#[test]
fn test_duration_fractional_components() {
    let duration = string_to_duration("1.5h").unwrap();
    assert_eq!(duration.as_secs(), 5400);

    let duration = string_to_duration("2.5m 0.5s").unwrap();
    assert_eq!(duration.as_secs(), 150);

    let duration = string_to_duration("1.9ms").unwrap();
    assert_eq!(duration.as_secs(), 0);
    assert_eq!(duration.subsec_millis(), 1);
}

#[test]
fn test_duration_checked_arithmetic() {
    let a = Duration::from_millis(1500);
    let b = Duration::from_millis(700);

    let sum = a.checked_add(&b).unwrap();
    assert_eq!(sum.as_secs(), 2);
    assert_eq!(sum.subsec_millis(), 200);

    let diff = a.checked_sub(&b).unwrap();
    assert_eq!(diff.as_secs(), 0);
    assert_eq!(diff.subsec_millis(), 800);

    assert!(b.checked_sub(&a).is_none());
}
