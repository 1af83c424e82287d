use hhmmss::duration::Duration;

#[test]
pub fn test_nanos_std() {
    let d = Duration::from_std(&std::time::Duration::new(0, 123_456_789));
    assert_eq!(d.subsecs(), 123_456_789);
    assert_eq!(d.unsigned_subsecs(), 123_456_789);

    let d = Duration::from_std(&std::time::Duration::new(1, 234_567_890));
    assert_eq!(d.subsecs(), 234_567_890);
    assert_eq!(d.unsigned_subsecs(), 234_567_890);

    let d = Duration::from_std(&std::time::Duration::new(0, 1_000_000_000 - 123_456_789));
    assert_eq!(d.subsecs(), 1_000_000_000 - 123_456_789);
    assert_eq!(d.unsigned_subsecs(), 1_000_000_000 - 123_456_789);
}

#[test]
fn test_nanos_chrono() {
    let d = Duration::from_chrono(&chrono::Duration::nanoseconds(123_456_789));
    assert_eq!(d.subsecs(), 123_456_789);
    assert_eq!(d.unsigned_subsecs(), 123_456_789);

    let d = Duration::from_chrono(&chrono::Duration::nanoseconds(1_234_567_890));
    assert_eq!(d.subsecs(), 234_567_890);
    assert_eq!(d.unsigned_subsecs(), 234_567_890);

    let d = Duration::from_chrono(&chrono::Duration::nanoseconds(-123_456_789));
    assert_eq!(d.subsecs(), -123_456_789);
    assert_eq!(d.unsigned_subsecs(), 123_456_789);
}

#[test]
fn test_nanos_time() {
    let d = Duration::from_time(time::Duration::new(0, 123_456_789));
    assert_eq!(d.subsecs(), 123_456_789);
    assert_eq!(d.unsigned_subsecs(), 123_456_789);

    let d = Duration::from_time(time::Duration::new(1, 234_567_890));
    assert_eq!(d.subsecs(), 234_567_890);
    assert_eq!(d.unsigned_subsecs(), 234_567_890);

    let d = Duration::from_time(time::Duration::new(0, 1_000_000_000 - 123_456_789));
    assert_eq!(d.subsecs(), 1_000_000_000 - 123_456_789);
    assert_eq!(d.unsigned_subsecs(), 1_000_000_000 - 123_456_789);
}

#[test]
pub fn test_fmt_fract_all_std() {
    let d = Duration::from_std(&std::time::Duration::new(0, 123_456_789));
    assert_eq!(d.fmt_fract_all(), "123456789");

    let d = Duration::from_std(&std::time::Duration::new(1, 234_567_890));
    assert_eq!(d.fmt_fract_all(), "234567890");

    let d = Duration::from_std(&std::time::Duration::new(0, 1_000_000_000 - 123_456_789));
    assert_eq!(d.fmt_fract_all(), "876543211");
}

#[test]
fn test_fmt_fract_all_chrono() {
    let d = Duration::from_chrono(&chrono::Duration::milliseconds(1234));
    assert_eq!(d.fmt_fract_all(), "234000000");

    let d = Duration::from_chrono(&chrono::Duration::nanoseconds(123_456_789));
    assert_eq!(d.fmt_fract_all(), "123456789");

    let d = Duration::from_chrono(&chrono::Duration::nanoseconds(1_234_567_890));
    assert_eq!(d.fmt_fract_all(), "234567890");

    let d = Duration::from_chrono(&chrono::Duration::nanoseconds(-123_456_789));
    assert_eq!(d.fmt_fract_all(), "123456789");
}

#[test]
fn test_fmt_fract_all_time() {
    let d = Duration::from_time(time::Duration::new(0, 123_456_789));
    assert_eq!(d.fmt_fract_all(), "123456789");

    let d = Duration::from_time(time::Duration::new(1, 234_567_890));
    assert_eq!(d.fmt_fract_all(), "234567890");

    let d = Duration::from_time(time::Duration::new(0, 1_000_000_000 - 123_456_789));
    assert_eq!(d.fmt_fract_all(), "876543211");
}
