use hhmmss::duration::Duration;
use hhmmss::fracts::FractPartOfDuration;

#[test]
fn test_smart_boundaries() {
    // Exactly zero.
    assert_eq!(Duration::new(false, 0, 0).fmt_smart(), "0");
    // One second exactly.
    assert_eq!(Duration::new(false, 1, 0).fmt_smart(), "1s");
    // One minute exactly.
    assert_eq!(Duration::new(false, 60, 0).fmt_smart(), "1:00");
    // One hour exactly.
    assert_eq!(Duration::new(false, 3600, 0).fmt_smart(), "1:00:00");
    // Exactly representable at millisecond precision: no "about".
    assert_eq!(Duration::new(false, 1, 500_000_000).fmt_smart(), "1.500s");
    // Sub-millisecond remainder beyond the displayed precision.
    assert_eq!(Duration::new(false, 1, 500_000_001).fmt_smart(), "about 1.500s");
    assert_eq!(Duration::new(false, 60, 1_000).fmt_smart(), "about 1:00.000");
    assert_eq!(Duration::new(false, 3600, 2_000_000).fmt_smart(), "1:00:00.002");
}

#[test]
fn test_smart_scenarios() {
    let d = Duration::new(false, 5025, 678_901_234);
    assert_eq!(&d.hhmmss(), "01:23:45");
    assert_eq!(&d.hhmmssxxx(), "01:23:45.678");
    assert_eq!(&d.mmss(), "23:45");

    let d = Duration::from_secs_nanos(-5025, -678_901_234);
    assert_eq!(&d.hhmmss(), "-01:23:45");
    assert_eq!(d.fmt_smart(), "about -1:23:45.678");

    assert_eq!(Duration::from_secs_nanos(0, 0).fmt_smart(), "0");

    // 1.5 seconds handed over as one second plus half a billion
    // nanoseconds.
    assert_eq!(Duration::from_secs_nanos(1, 500_000_000).fmt_smart(), "1.500s");

    let d = Duration::from_secs_nanos(1, 678_901_234);
    assert_eq!(d.fmt_smart(), "about 1.678s");
}

#[test]
fn test_negative_subsecond_only() {
    // A span with a zero seconds count and a negative sub-second part
    // still reports an overall negative sign, applied once to the whole
    // token.
    let d = Duration::from_secs_nanos(0, -5);
    assert_eq!(d.is_negative(), true);
    assert_eq!(d.get_sign(), "-");
    assert_eq!(d.unsigned_subsecs(), 5);
    assert_eq!(d.subsecs(), -5);
    assert_eq!(d.fmt_smart(), "about -0.000s");

    let d = Duration::from_secs_nanos(0, -500_000_000);
    assert_eq!(d.fmt_smart(), "-0.500s");
}

#[test]
fn test_mixed_sign_parts() {
    // The two constructor arguments may disagree in sign; the span is
    // their sum.
    let d = Duration::from_secs_nanos(1, -5);
    assert_eq!(d.is_negative(), false);
    assert_eq!(d.unsigned_subsecs(), 999_999_995);
    assert_eq!(d.part_of_seconds_abs(), 0);

    let d = Duration::from_secs_nanos(-1, 5);
    assert_eq!(d.is_negative(), true);
    assert_eq!(d.unsigned_subsecs(), 999_999_995);
    assert_eq!(d.fmt_smart(), "about -0.999s");
}

#[test]
fn test_negative_zero_normalized() {
    // A zero magnitude is never negative, whatever flag it is built
    // with.
    let d = Duration::new(true, 0, 0);
    assert_eq!(d.is_negative(), false);
    assert_eq!(d.get_sign(), "");
    assert_eq!(d.fmt_smart(), "0");
}

#[test]
fn test_padding_widths() {
    let d = Duration::new(false, 0, 0);
    assert_eq!(&d.unsigned_hh(), "00");
    assert_eq!(&d.unsigned_mm(), "00");
    assert_eq!(&d.unsigned_ss(), "00");
    assert_eq!(&d.unsigned_xxx(), "000");
    // Hours alone may outgrow two digits; the other fields cannot.
    let d = Duration::new(false, 100 * 3600 + 59 * 60 + 59, 999_999_999);
    assert_eq!(&d.unsigned_hh(), "100");
    assert_eq!(&d.unsigned_mm(), "59");
    assert_eq!(&d.unsigned_ss(), "59");
    assert_eq!(&d.unsigned_xxx(), "999");
    assert_eq!(&d.unsigned_hhmmss(), "100:59:59");
}

#[test]
fn test_fract_precisions() {
    let d = Duration::new(false, 0, 678_901_234);
    assert_eq!(&d.fmt_fract(FractPartOfDuration::Milliseconds), "678");
    assert_eq!(&d.fmt_fract(FractPartOfDuration::Microseconds), "678901");
    assert_eq!(&d.fmt_fract(FractPartOfDuration::Nanoseconds), "678901234");
    // Truncation, never rounding.
    let d = Duration::new(false, 0, 999_999_999);
    assert_eq!(&d.fmt_fract(FractPartOfDuration::Milliseconds), "999");
    // Leading zeros are kept.
    let d = Duration::new(false, 0, 1_234);
    assert_eq!(&d.fmt_fract(FractPartOfDuration::Milliseconds), "000");
    assert_eq!(&d.fmt_fract(FractPartOfDuration::Microseconds), "000001");
    assert_eq!(&d.fmt_fract(FractPartOfDuration::Nanoseconds), "000001234");
}

#[test]
fn test_fract_part_getters() {
    assert_eq!(FractPartOfDuration::Milliseconds.units_per_sec(), 1_000);
    assert_eq!(FractPartOfDuration::Microseconds.units_per_sec(), 1_000_000);
    assert_eq!(FractPartOfDuration::Nanoseconds.units_per_sec(), 1_000_000_000);
    assert_eq!(FractPartOfDuration::Milliseconds.decimal_places(), 3);
    assert_eq!(FractPartOfDuration::Microseconds.decimal_places(), 6);
    assert_eq!(FractPartOfDuration::Nanoseconds.decimal_places(), 9);
}

#[test]
fn test_smart_alias() {
    let d = Duration::new(false, 83, 456_000_000);
    assert_eq!(d.smart_hhmmss(), d.fmt_smart());
    assert_eq!(d.smart_hhmmss(), "1:23.456");
}

#[test]
fn test_and_fract_layouts() {
    let d = Duration::new(true, 5025, 678_901_234);
    assert_eq!(
        &d.hhmmss_and_fract(FractPartOfDuration::Microseconds),
        "-01:23:45.678901"
    );
    assert_eq!(
        &d.hmmss_and_fract(FractPartOfDuration::Nanoseconds),
        "-1:23:45.678901234"
    );
    assert_eq!(
        &d.unsigned_mss_and_fract(FractPartOfDuration::Microseconds),
        "23:45.678901"
    );
}
