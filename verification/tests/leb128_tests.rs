use wasm_decoder::leb128::{encode_uleb128, leb128_at};
use wasm_decoder::parser::{Parser, ParserError};

#[test]
fn signed_single_byte_minus_one() {
    // 0x7F has the sign bit (0x40) set: sign extension yields -1.
    let bytes = [0x7Fu8];
    let mut p = Parser::new(&bytes);
    let v = p.consume_leb128(32, true).unwrap();
    assert_eq!(v, u128::MAX);
    assert_eq!(v as i64, -1);
    assert_eq!(p.position, 1);
}

#[test]
fn signed_single_byte_zero() {
    let bytes = [0x00u8];
    let mut p = Parser::new(&bytes);
    let v = p.consume_leb128(32, true).unwrap();
    assert_eq!(v, 0);
    assert_eq!(p.position, 1);
}

#[test]
fn unsigned_multi_byte_classic() {
    // The classic three-byte example: 624485.
    let bytes = [0xE5u8, 0x8E, 0x26];
    let mut p = Parser::new(&bytes);
    let v = p.consume_leb128(32, false).unwrap();
    assert_eq!(v, 624485);
    assert_eq!(p.position, 3);
}

#[test]
fn unsigned_round_trip_values() {
    for v in [0u64, 1, 63, 64, 127, 128, 300, 624485, u32::MAX as u64, u64::MAX] {
        let enc = encode_uleb128(v);
        let (consumed, decoded) = leb128_at(&enc, 0, 64, false).unwrap();
        assert_eq!(decoded, v as u128);
        assert_eq!(consumed, enc.len());
    }
}

#[test]
fn unsigned_round_trip_with_trailing_bytes() {
    let mut enc = encode_uleb128(624485);
    let min_len = enc.len();
    enc.extend_from_slice(&[0xAA, 0xBB]);
    let (consumed, decoded) = leb128_at(&enc, 0, 32, false).unwrap();
    assert_eq!(decoded, 624485);
    assert_eq!(consumed, min_len);
}

#[test]
fn encoding_is_minimal() {
    assert_eq!(encode_uleb128(0), vec![0x00]);
    assert_eq!(encode_uleb128(127), vec![0x7F]);
    assert_eq!(encode_uleb128(128), vec![0x80, 0x01]);
    assert_eq!(encode_uleb128(624485), vec![0xE5, 0x8E, 0x26]);
    assert_eq!(encode_uleb128(u32::MAX as u64).len(), 5);
}

#[test]
fn overlong_encoding_is_invalid() {
    // Five continuation bytes exceed what a 32-bit width permits.
    let bytes = [0x80u8, 0x80, 0x80, 0x80, 0x80, 0x00];
    let mut p = Parser::new(&bytes);
    assert_eq!(p.consume_leb128(32, false), Err(ParserError::Invalid));
    // The same bytes are fine at a 64-bit width.
    let mut q = Parser::new(&bytes);
    assert_eq!(q.consume_leb128(64, false), Ok(0));
}

#[test]
fn unterminated_encoding_is_incomplete() {
    let bytes = [0x80u8, 0x80];
    let mut p = Parser::new(&bytes);
    assert_eq!(p.consume_leb128(32, false), Err(ParserError::Incomplete));
}

#[test]
fn empty_buffer_is_incomplete() {
    let bytes: [u8; 0] = [];
    let mut p = Parser::new(&bytes);
    assert_eq!(p.consume_leb128(32, false), Err(ParserError::Incomplete));
}

#[test]
fn signed_two_bytes() {
    // 0xC0 0x7F encodes -64 over two bytes.
    let bytes = [0xC0u8, 0x7F];
    let mut p = Parser::new(&bytes);
    let v = p.consume_leb128(32, true).unwrap();
    assert_eq!(v as i64, -64);
    assert_eq!(p.position, 2);
}

#[test]
fn consume_byte_advances() {
    let bytes = [0x10u8, 0x20];
    let mut p = Parser::new(&bytes);
    assert_eq!(p.consume_byte(), Ok(0x10));
    assert_eq!(p.consume_byte(), Ok(0x20));
    assert_eq!(p.consume_byte(), Err(ParserError::Incomplete));
    assert_eq!(p.position, 2);
}

#[test]
fn peek_byte_does_not_advance() {
    let bytes = [0x10u8];
    let mut p = Parser::new(&bytes);
    assert_eq!(p.peek_byte(), Ok(0x10));
    assert_eq!(p.peek_byte(), Ok(0x10));
    assert_eq!(p.position, 0);
}

#[test]
fn consume_while_takes_matching_prefix() {
    let bytes = [0x81u8, 0x92, 0x83, 0x14, 0x85];
    let mut p = Parser::new(&bytes);
    let taken = p.consume_while(|b| b & 0x80 == 0x80).unwrap();
    assert_eq!(taken, vec![0x81, 0x92, 0x83]);
    assert_eq!(p.position, 3);
}

#[test]
fn consume_while_hits_end_of_buffer() {
    let bytes = [0x81u8, 0x92];
    let mut p = Parser::new(&bytes);
    assert_eq!(
        p.consume_while(|b| b & 0x80 == 0x80),
        Err(ParserError::Incomplete)
    );
    assert_eq!(p.position, 2);
}
