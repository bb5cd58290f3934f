use tunnel_share::number::{decimal_text, parse_unsigned};

#[test]
fn reads_plain_digits() {
    assert_eq!(parse_unsigned("0", 65535), Some(0));
    assert_eq!(parse_unsigned("22", 65535), Some(22));
    assert_eq!(parse_unsigned("65535", 65535), Some(65535));
    assert_eq!(parse_unsigned("4294967295", u32::MAX), Some(u32::MAX));
}

#[test]
fn reads_a_leading_plus_and_leading_zeros() {
    assert_eq!(parse_unsigned("+80", 65535), Some(80));
    assert_eq!(parse_unsigned("0022", 65535), Some(22));
    assert_eq!(parse_unsigned("00000000000000000000000000000000065535", 65535), Some(65535));
}

#[test]
fn refuses_what_exceeds_the_bound() {
    assert_eq!(parse_unsigned("65536", 65535), None);
    assert_eq!(parse_unsigned("4294967296", u32::MAX), None);
    assert_eq!(parse_unsigned("99999999999999999999999999", u32::MAX), None);
    assert_eq!(parse_unsigned("11", 10), None);
    assert_eq!(parse_unsigned("10", 10), Some(10));
}

#[test]
fn refuses_what_is_no_number() {
    for bad in ["", "+", "-", "-1", "-0", "++1", "1+", " 1", "1 ", "1_000", "0x10", "１２", "1.0", "a"] {
        assert_eq!(parse_unsigned(bad, u32::MAX), None, "{:?}", bad);
    }
}

#[test]
fn agrees_with_the_standard_parser() {
    for s in ["", "+", "7", "+7", "-7", "007", "65535", "65536", "4294967295", "4294967296", "12a", "٣"] {
        assert_eq!(parse_unsigned(s, u16::MAX as u32), s.parse::<u16>().ok().map(u32::from), "{:?}", s);
        assert_eq!(parse_unsigned(s, u32::MAX), s.parse::<u32>().ok(), "{:?}", s);
    }
}

#[test]
fn written_numbers_read_back() {
    for n in [0usize, 1, 9, 10, 99, 100, 12345, 65535, 4294967295] {
        assert_eq!(parse_unsigned(&decimal_text(n), u32::MAX), Some(n as u32));
        assert_eq!(decimal_text(n), n.to_string());
    }
}
