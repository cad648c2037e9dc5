use klv_overlay::timestamp::{format_timestamp, u64_dec, Timestamp};

#[test]
fn decimal_zero() {
    assert_eq!(u64_dec(0), "0");
}

#[test]
fn decimal_small() {
    assert_eq!(u64_dec(7), "7");
    assert_eq!(u64_dec(10), "10");
    assert_eq!(u64_dec(500), "500");
}

#[test]
fn decimal_largest() {
    assert_eq!(u64_dec(u64::MAX), "18446744073709551615");
}

#[test]
fn format_set_timestamp() {
    assert_eq!(format_timestamp(Timestamp::At(500)), "500ms");
    assert_eq!(format_timestamp(Timestamp::At(0)), "0ms");
}

#[test]
fn format_unset_timestamp() {
    assert_eq!(format_timestamp(Timestamp::Unset), "unset");
}

#[test]
fn millis_accessor() {
    assert_eq!(Timestamp::At(42).millis(), Some(42));
    assert_eq!(Timestamp::Unset.millis(), None);
}
