use patchconv::text::{format_bytes_compiletime, format_bytes_runtime, push_dec, push_hex};

#[test]
fn bytes_runtime_format() {
    assert_eq!(format_bytes_runtime(&[0x01, 0xab, 0x00, 0xff]), "01 ab 00 ff");
    assert_eq!(format_bytes_runtime(&[0x7]), "07");
    assert_eq!(format_bytes_runtime(&[]), "");
}

#[test]
fn bytes_compiletime_format() {
    assert_eq!(format_bytes_compiletime(&[0x01, 0xab, 0x00, 0xff]), "0x01, 0xab, 0x00, 0xff");
    assert_eq!(format_bytes_compiletime(&[0x7]), "0x07");
    assert_eq!(format_bytes_compiletime(&[]), "");
}

#[test]
fn hex_and_decimal_numbers() {
    let mut s = String::from(">");
    push_hex(&mut s, 0);
    assert_eq!(s, ">0");
    let mut s = String::new();
    push_hex(&mut s, u32::MAX);
    assert_eq!(s, "ffffffff");
    let mut s = String::new();
    push_hex(&mut s, 0x100);
    assert_eq!(s, "100");
    let mut s = String::new();
    push_dec(&mut s, 0);
    assert_eq!(s, "0");
    let mut s = String::new();
    push_dec(&mut s, 65535);
    assert_eq!(s, "65535");
    let mut s = String::new();
    push_dec(&mut s, u64::MAX);
    assert_eq!(s, "18446744073709551615");
}
