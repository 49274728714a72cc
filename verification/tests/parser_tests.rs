use heart_monitor::parser::parse_sample;

#[test]
fn plain_sample_line() {
    assert_eq!(parse_sample(b"RAW:523"), Some(523));
}

#[test]
fn line_with_terminator_and_padding() {
    assert_eq!(parse_sample(b"RAW:523\r\n"), Some(523));
    assert_eq!(parse_sample(b"  RAW:100 \t"), Some(100));
}

#[test]
fn signed_payloads() {
    assert_eq!(parse_sample(b"RAW:-12"), Some(-12));
    assert_eq!(parse_sample(b"RAW:+7"), Some(7));
}

#[test]
fn leading_zeros_are_accepted() {
    assert_eq!(parse_sample(b"RAW:007"), Some(7));
    assert_eq!(parse_sample(b"RAW:0"), Some(0));
}

#[test]
fn extreme_values_at_the_32_bit_edge() {
    assert_eq!(parse_sample(b"RAW:2147483647"), Some(i32::MAX));
    assert_eq!(parse_sample(b"RAW:2147483648"), None);
    assert_eq!(parse_sample(b"RAW:-2147483648"), Some(i32::MIN));
    assert_eq!(parse_sample(b"RAW:-2147483649"), None);
    assert_eq!(parse_sample(b"RAW:99999999999999999999999"), None);
}

#[test]
fn noise_is_discarded_silently() {
    assert_eq!(parse_sample(b""), None);
    assert_eq!(parse_sample(b"\r\n"), None);
    assert_eq!(parse_sample(b"booting sensor v1.2"), None);
    assert_eq!(parse_sample(b"raw:100"), None);
    assert_eq!(parse_sample(b"XRAW:5"), None);
}

#[test]
fn tagged_but_non_numeric_payloads_are_discarded() {
    assert_eq!(parse_sample(b"RAW:"), None);
    assert_eq!(parse_sample(b"RAW:12a"), None);
    assert_eq!(parse_sample(b"RAW: 100"), None);
    assert_eq!(parse_sample(b"RAW:+"), None);
    assert_eq!(parse_sample(b"RAW:-"), None);
    assert_eq!(parse_sample(b"RAW:+-3"), None);
    assert_eq!(parse_sample(b"RAW:1.5"), None);
}
