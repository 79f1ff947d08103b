use atk_dpi::hex::parse_hex_u16;
use atk_dpi::text::{push_decimal, push_hex4, push_signed};

#[test]
fn reads_identifiers() {
    assert_eq!(parse_hex_u16("373b"), Ok(0x373b));
    assert_eq!(parse_hex_u16("f58a"), Ok(0xf58a));
    assert_eq!(parse_hex_u16("F58A"), Ok(0xf58a));
    assert_eq!(parse_hex_u16("0xff02"), Ok(0xff02));
    assert_eq!(parse_hex_u16("2"), Ok(2));
    assert_eq!(parse_hex_u16("0000002"), Ok(2));
    assert_eq!(parse_hex_u16("ffff"), Ok(0xffff));
}

#[test]
fn reads_signs_and_repeated_prefixes() {
    assert_eq!(parse_hex_u16("+ff"), Ok(0xff));
    assert_eq!(parse_hex_u16("0x0x1f"), Ok(0x1f));
    assert_eq!(parse_hex_u16("0x+1f"), Ok(0x1f));
}

#[test]
fn refuses_what_is_no_number() {
    let empty = "cannot parse integer from empty string";
    let invalid = "invalid digit found in string";
    let large = "number too large to fit in target type";
    assert_eq!(parse_hex_u16(""), Err(empty.to_string()));
    assert_eq!(parse_hex_u16("0x"), Err(empty.to_string()));
    assert_eq!(parse_hex_u16("+"), Err(invalid.to_string()));
    assert_eq!(parse_hex_u16("-"), Err(invalid.to_string()));
    assert_eq!(parse_hex_u16("-1"), Err(invalid.to_string()));
    assert_eq!(parse_hex_u16("xyz"), Err(invalid.to_string()));
    assert_eq!(parse_hex_u16("0X1"), Err(invalid.to_string()));
    assert_eq!(parse_hex_u16("1é"), Err(invalid.to_string()));
    assert_eq!(parse_hex_u16("ff 2"), Err(invalid.to_string()));
    assert_eq!(parse_hex_u16("10000"), Err(large.to_string()));
    assert_eq!(parse_hex_u16("12345z"), Err(large.to_string()));
    assert_eq!(parse_hex_u16("1234z5"), Err(invalid.to_string()));
}

#[test]
fn agrees_with_the_standard_library() {
    for text in [
        "", "+", "-", "++1", "+-1", "1+", "g", "0", "00000", "fffff", "fffg", "ffffg", "fffffg",
        "10000", "AbCd", "é", " 1", "1 ", "+0x1", "_1", "1_0", "+00ffff", "+010000",
    ] {
        let expected = u16::from_str_radix(text.trim_start_matches("0x"), 16);
        assert_eq!(parse_hex_u16(text), expected.map_err(|e| e.to_string()), "{text:?}");
    }
}

#[test]
fn listed_identifiers_read_back() {
    for n in 0..=0xffffu16 {
        let mut text = String::new();
        push_hex4(&mut text, n);
        assert_eq!(text, format!("{n:04x}"));
        assert_eq!(parse_hex_u16(&text), Ok(n));
        assert_eq!(parse_hex_u16(&format!("{n:#06x}")), Ok(n));
    }
}

#[test]
fn decimals() {
    for n in [0, 7, 10, 99, 100, 65535, 30000, u64::MAX] {
        let mut text = "n=".to_string();
        push_decimal(&mut text, n);
        assert_eq!(text, format!("n={n}"));
    }
    for n in [0, -1, 1, -10, i32::MIN, i32::MAX] {
        let mut text = String::new();
        push_signed(&mut text, n);
        assert_eq!(text, n.to_string());
    }
}
