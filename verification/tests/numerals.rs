use yctrl::num::parse_bool;
use yctrl::num::parse_u32;
use yctrl::num::parse_u64;
use yctrl::num::parse_u8;
use yctrl::num::u32_to_string;

#[test]
fn decimal_rendering() {
    assert_eq!(u32_to_string(0), "0");
    assert_eq!(u32_to_string(7), "7");
    assert_eq!(u32_to_string(42), "42");
    assert_eq!(u32_to_string(1000), "1000");
    assert_eq!(u32_to_string(u32::MAX), "4294967295");
}

#[test]
fn decimal_parsing() {
    assert_eq!(parse_u32(b"42"), Some(42));
    assert_eq!(parse_u32(b"042"), Some(42));
    assert_eq!(parse_u32(b"+42"), Some(42));
    assert_eq!(parse_u32(b"4294967295"), Some(u32::MAX));
    assert_eq!(parse_u32(b"4294967296"), None);
    assert_eq!(parse_u32(b""), None);
    assert_eq!(parse_u32(b"+"), None);
    assert_eq!(parse_u32(b"-1"), None);
    assert_eq!(parse_u32(b"4 2"), None);
    assert_eq!(parse_u8(b"255"), Some(255));
    assert_eq!(parse_u8(b"256"), None);
    assert_eq!(parse_u64(b"18446744073709551615"), Some(u64::MAX));
    assert_eq!(parse_u64(b"18446744073709551616"), None);
}

#[test]
fn booleans_are_exactly_true_and_false() {
    assert_eq!(parse_bool(b"true"), Some(true));
    assert_eq!(parse_bool(b"false"), Some(false));
    assert_eq!(parse_bool(b"True"), None);
    assert_eq!(parse_bool(b"1"), None);
    assert_eq!(parse_bool(b""), None);
}

#[test]
fn rendering_then_parsing_returns_the_value() {
    let samples: [u32; 6] = [0, 1, 9, 10, 65536, u32::MAX];
    for v in samples {
        let text = u32_to_string(v);
        assert_eq!(parse_u32(text.as_bytes()), Some(v));
    }
}
