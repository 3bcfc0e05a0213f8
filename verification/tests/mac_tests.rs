use sugoi::mac::MacAddr;

fn bytes_of(m: &MacAddr) -> [u8; 6] {
    [m.byte(0), m.byte(1), m.byte(2), m.byte(3), m.byte(4), m.byte(5)]
}

#[test]
fn parses_upper_case_colons() {
    let m = MacAddr::parse("4C:CC:6A:D0:99:22").unwrap();
    assert_eq!(bytes_of(&m), [0x4c, 0xcc, 0x6a, 0xd0, 0x99, 0x22]);
}

#[test]
fn parses_lower_case() {
    let m = MacAddr::parse("4c:cc:6a:d0:99:22").unwrap();
    assert_eq!(bytes_of(&m), [0x4c, 0xcc, 0x6a, 0xd0, 0x99, 0x22]);
}

#[test]
fn parses_dash_separators() {
    let m = MacAddr::parse("00-1B-44-11-3A-B7").unwrap();
    assert_eq!(bytes_of(&m), [0x00, 0x1b, 0x44, 0x11, 0x3a, 0xb7]);
}

#[test]
fn parses_mixed_case_and_separators() {
    let m = MacAddr::parse("aB:cD-eF:01-23:45").unwrap();
    assert_eq!(bytes_of(&m), [0xab, 0xcd, 0xef, 0x01, 0x23, 0x45]);
}

#[test]
fn rejects_short_input() {
    assert!(MacAddr::parse("zz").is_err());
}

#[test]
fn rejects_non_hex_digit() {
    assert!(MacAddr::parse("4C:CC:6A:D0:99:2G").is_err());
}

#[test]
fn rejects_surrounding_whitespace() {
    assert!(MacAddr::parse(" 4C:CC:6A:D0:99:22").is_err());
    assert!(MacAddr::parse("4C:CC:6A:D0:99:22 ").is_err());
}

#[test]
fn rejects_stray_separator() {
    assert!(MacAddr::parse("4C::CC:6A:D0:9922").is_err());
    assert!(MacAddr::parse("4C.CC.6A.D0.99.22").is_err());
}

#[test]
fn rejects_missing_octet() {
    assert!(MacAddr::parse("4C:CC:6A:D0:99").is_err());
}

#[test]
fn format_is_canonical() {
    let m = MacAddr::parse("4c-cc-6a-d0-99-22").unwrap();
    assert_eq!(m.format(), "4C:CC:6A:D0:99:22");
}

#[test]
fn format_round_trips() {
    let m = MacAddr::from_bytes(0x00, 0x0f, 0xa0, 0xff, 0x09, 0x7e);
    let text = m.format();
    let back = MacAddr::parse(text.as_str()).unwrap();
    assert_eq!(bytes_of(&back), bytes_of(&m));
}
