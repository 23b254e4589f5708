use ws63_wifi::config::hil_start_delay_ms;
use ws63_wifi::decimal::{parse_decimal_u32, try_parse_decimal_u32, DecimalError};
use ws63_wifi::fnv::fnv1a32;
use ws63_wifi::hex::{hex8, push_hex8, write_hex_bytes};
use ws63_wifi::softap;
use ws63_wifi::station;
use ws63_wifi::text::{push_hex_field, push_str};

fn text(bytes: &[u8]) -> String {
    String::from_utf8(bytes.to_vec()).unwrap()
}

#[test]
fn fnv1a32_of_empty_is_offset_basis() {
    assert_eq!(fnv1a32(b""), 0x811c_9dc5);
}

#[test]
fn fnv1a32_known_vectors() {
    assert_eq!(fnv1a32(b"a"), 0xe40c_292c);
    assert_eq!(fnv1a32(b"foobar"), 0xbf9c_f968);
}

#[test]
fn hex8_pads_and_uses_lowercase() {
    assert_eq!(&hex8(0), b"00000000");
    assert_eq!(&hex8(0xdead_beef), b"deadbeef");
    assert_eq!(&hex8(0x0123_4567), b"01234567");
    assert_eq!(&hex8(u32::MAX), b"ffffffff");
}

#[test]
fn hex8_reads_back_as_the_value() {
    for value in [0u32, 1, 9, 10, 15, 16, 255, 0x8000_0000, 0x1234_abcd, u32::MAX] {
        let digits = hex8(value);
        let parsed = u32::from_str_radix(std::str::from_utf8(&digits).unwrap(), 16).unwrap();
        assert_eq!(parsed, value);
    }
}

#[test]
fn push_hex8_appends() {
    let mut out = b"x=".to_vec();
    push_hex8(&mut out, 42);
    assert_eq!(text(&out), "x=0000002a");
}

#[test]
fn hex_bytes_two_digits_each() {
    let mut out = Vec::new();
    write_hex_bytes(&mut out, &[0x0f, 0xa0, 0x00, 0xff]);
    assert_eq!(text(&out), "0fa000ff");
    let mut empty = Vec::new();
    write_hex_bytes(&mut empty, &[]);
    assert!(empty.is_empty());
}

#[test]
fn push_field_and_str() {
    let mut out = Vec::new();
    push_str(&mut out, "len=0x");
    push_hex_field(&mut out, "", 7);
    push_hex_field(&mut out, " n=", 16);
    assert_eq!(text(&out), "len=0x00000007 n=00000010");
}

#[test]
fn parse_decimal_accepts_decimal_u32() {
    assert_eq!(parse_decimal_u32("0"), 0);
    assert_eq!(parse_decimal_u32("123"), 123);
    assert_eq!(parse_decimal_u32("000450"), 450);
    assert_eq!(parse_decimal_u32("4294967295"), u32::MAX);
}

#[test]
fn try_parse_reports_each_refusal() {
    assert_eq!(try_parse_decimal_u32("1500"), Ok(1500));
    assert_eq!(try_parse_decimal_u32(""), Err(DecimalError::NotDecimal));
    assert_eq!(try_parse_decimal_u32("12a"), Err(DecimalError::NotDecimal));
    assert_eq!(try_parse_decimal_u32("-1"), Err(DecimalError::NotDecimal));
    assert_eq!(try_parse_decimal_u32(" 1"), Err(DecimalError::NotDecimal));
    assert_eq!(try_parse_decimal_u32("4294967296"), Err(DecimalError::Overflow));
    assert_eq!(try_parse_decimal_u32("99999999999x"), Err(DecimalError::Overflow));
    assert_eq!(try_parse_decimal_u32("1x99999999999"), Err(DecimalError::NotDecimal));
}

#[test]
fn start_delay_setting() {
    assert_eq!(hil_start_delay_ms(None), Ok(0));
    assert_eq!(hil_start_delay_ms(Some("2500")), Ok(2500));
    assert_eq!(hil_start_delay_ms(Some("soon")), Err(DecimalError::NotDecimal));
}

#[test]
fn ipv4_text_both_writers() {
    for octets in [[192u8, 168, 4, 1], [0, 0, 0, 0], [10, 20, 100, 255], [223, 5, 5, 5]] {
        let expected = format!("{}.{}.{}.{}", octets[0], octets[1], octets[2], octets[3]);
        let mut a = Vec::new();
        station::write_ipv4(&mut a, octets);
        let mut b = Vec::new();
        softap::write_ipv4(&mut b, octets);
        assert_eq!(text(&a), expected);
        assert_eq!(text(&b), expected);
    }
}

#[test]
fn ipv4_writers_agree_on_every_octet() {
    for octet in 0..=255u8 {
        let mut a = Vec::new();
        station::write_ipv4(&mut a, [octet, 0, 9, octet]);
        let mut b = Vec::new();
        softap::write_ipv4(&mut b, [octet, 0, 9, octet]);
        assert_eq!(a, b);
        let first = text(&a).split('.').next().unwrap().to_string();
        assert_eq!(parse_decimal_u32(&first), octet as u32);
    }
}

#[test]
fn ipv4_appends_after_existing_text() {
    let mut out = b"ip_dst=".to_vec();
    softap::write_ipv4(&mut out, [255, 255, 255, 255]);
    assert_eq!(text(&out), "ip_dst=255.255.255.255");
}
