//! Address and range parsing, ported over the public surface.

use dmg::debug::{parse_address, MemoryRange};


#[test]
fn test_parse_address_hex() {
    assert_eq!(parse_address("0x0000"), Ok(0x0000));
    assert_eq!(parse_address("0x00FF"), Ok(0x00FF));
    assert_eq!(parse_address("0xFFFF"), Ok(0xFFFF));
    assert_eq!(parse_address("0X1234"), Ok(0x1234));
}

#[test]
fn test_parse_address_decimal() {
    assert_eq!(parse_address("0"), Ok(0));
    assert_eq!(parse_address("255"), Ok(255));
    assert_eq!(parse_address("65535"), Ok(65535));
}

#[test]
fn test_parse_address_with_whitespace() {
    assert_eq!(parse_address("  0x100  "), Ok(0x100));
    assert_eq!(parse_address("\t256\n"), Ok(256));
}

#[test]
fn test_parse_address_invalid() {
    assert!(parse_address("0xGGGG").is_err());
    assert!(parse_address("not_a_number").is_err());
    assert!(parse_address("0x10000").is_err());
    assert!(parse_address("65536").is_err());
}

#[test]
fn test_memory_range_from_str_valid() {
    assert_eq!(
        "0x0000:0x00FF".parse::<MemoryRange>(),
        Ok(MemoryRange { start: 0x0000, end: 0x00FF })
    );
    assert_eq!(
        "0:255".parse::<MemoryRange>(),
        Ok(MemoryRange { start: 0, end: 255 })
    );
    assert_eq!(
        "0x100:512".parse::<MemoryRange>(),
        Ok(MemoryRange { start: 0x100, end: 512 })
    );
    assert_eq!(
        "0x0000:0x0000".parse::<MemoryRange>(),
        Ok(MemoryRange { start: 0, end: 0 })
    );
}

#[test]
fn test_memory_range_from_str_invalid() {
    assert!("0x0000-0x00FF".parse::<MemoryRange>().is_err());
    assert!("0x00FF:0x0000".parse::<MemoryRange>().is_err());
    assert!("abc:def".parse::<MemoryRange>().is_err());
    assert!("0:1:2".parse::<MemoryRange>().is_err());
}

#[test]
fn test_memory_range_contains() {
    let range = MemoryRange { start: 0x100, end: 0x1FF };
    assert!(!range.contains(0x00));
    assert!(!range.contains(0xFF));
    assert!(range.contains(0x100));
    assert!(range.contains(0x150));
    assert!(range.contains(0x1FF));
    assert!(!range.contains(0x200));
}