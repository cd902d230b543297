use trade_engine::decode::{parse_public_key, parse_u64, parse_u8};

#[test]
fn u64_le_at_offset_zero() {
    let buffer = [0x01u8, 0, 0, 0, 0, 0, 0, 0];
    assert_eq!(parse_u64(&buffer, 0), Some(1));
}

#[test]
fn u64_le_mixed_bytes() {
    let buffer = [0x01u8, 0x02, 0, 0, 0, 0, 0, 0, 0xff];
    assert_eq!(parse_u64(&buffer, 0), Some(0x0201));
    assert_eq!(parse_u64(&buffer, 1), Some(0xff00000000000002));
}

#[test]
fn u64_short_buffer_is_absent() {
    let buffer = [0x01u8, 0, 0, 0, 0, 0, 0];
    assert_eq!(parse_u64(&buffer, 0), None);
    let eight = [0u8; 8];
    assert_eq!(parse_u64(&eight, 1), None);
    assert_eq!(parse_u64(&[], 0), None);
}

#[test]
fn u8_reads_and_bounds() {
    let buffer = [7u8, 9];
    assert_eq!(parse_u8(&buffer, 0), Some(7));
    assert_eq!(parse_u8(&buffer, 1), Some(9));
    assert_eq!(parse_u8(&buffer, 2), None);
}

#[test]
fn public_key_of_zero_bytes_is_all_ones() {
    let buffer = [0u8; 32];
    let key = parse_public_key(&buffer, 0).unwrap();
    assert_eq!(key, "1".repeat(32));
}

#[test]
fn public_key_respects_offset_and_bounds() {
    let mut buffer = [1u8; 33];
    buffer[0] = 0xff;
    // At offset 1 the 32 bytes are all 0x01; the base58 digest differs from
    // the raw bytes and from the all-ones rendering of zero bytes.
    let key = parse_public_key(&buffer, 1).unwrap();
    assert_ne!(key, "1".repeat(32));
    assert!(!key.is_empty());
    assert_eq!(parse_public_key(&buffer, 2), None);
    assert_eq!(parse_public_key(&[], 0), None);
}
