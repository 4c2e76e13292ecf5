use wasm_decoder::stack::Stack;

#[test]
fn push_pop_round_trip_u32() {
    let mut s = Stack::new();
    s.push(0x12345678u32);
    assert_eq!(s.pop::<u32>(), Some(0x12345678));
    assert_eq!(s.len(), 0);
}

#[test]
fn push_pop_round_trip_u64() {
    let mut s = Stack::new();
    s.push(0xDEAD_BEEF_CAFE_F00Du64);
    assert_eq!(s.pop::<u64>(), Some(0xDEAD_BEEF_CAFE_F00D));
}

#[test]
fn push_pop_round_trip_signed() {
    let mut s = Stack::new();
    s.push(-123i32);
    assert_eq!(s.pop::<i32>(), Some(-123));
    s.push(i64::MIN);
    assert_eq!(s.pop::<i64>(), Some(i64::MIN));
    s.push(i32::MAX);
    assert_eq!(s.pop::<i32>(), Some(i32::MAX));
}

#[test]
fn push_pop_round_trip_small() {
    let mut s = Stack::new();
    s.push(0xABu8);
    assert_eq!(s.pop::<u8>(), Some(0xAB));
    s.push(0xBEEFu16);
    assert_eq!(s.pop::<u16>(), Some(0xBEEF));
}

#[test]
fn push_pop_round_trip_float_bits() {
    // Floating-point values travel by their bit patterns.
    let mut s = Stack::new();
    s.push(f32::to_bits(3.5));
    assert_eq!(s.pop::<u32>().map(f32::from_bits), Some(3.5));
    s.push(f64::to_bits(-0.125));
    assert_eq!(s.pop::<u64>().map(f64::from_bits), Some(-0.125));
}

#[test]
fn pop_is_last_in_first_out() {
    let mut s = Stack::new();
    s.push(1u32);
    s.push(2u32);
    s.push(3u32);
    assert_eq!(s.pop::<u32>(), Some(3));
    assert_eq!(s.pop::<u32>(), Some(2));
    assert_eq!(s.pop::<u32>(), Some(1));
    assert_eq!(s.pop::<u32>(), None);
}

#[test]
fn underflow_reports_none_not_garbage() {
    let mut s = Stack::new();
    assert_eq!(s.pop::<u32>(), None);
    // Fewer bytes than the width: underflow, and the bytes stay put.
    s.push(0x7Fu8);
    assert_eq!(s.pop::<u32>(), None);
    assert_eq!(s.len(), 1);
    assert_eq!(s.pop::<u8>(), Some(0x7F));
}

#[test]
fn representation_is_little_endian() {
    let mut s = Stack::new();
    s.push(0x0102_0304u32);
    // The four bytes read back byte-by-byte from the top: most significant
    // byte last pushed.
    assert_eq!(s.pop::<u8>(), Some(0x01));
    assert_eq!(s.pop::<u8>(), Some(0x02));
    assert_eq!(s.pop::<u8>(), Some(0x03));
    assert_eq!(s.pop::<u8>(), Some(0x04));
}

#[test]
fn stack_grows_per_width() {
    let mut s = Stack::new();
    s.push(1u8);
    assert_eq!(s.len(), 1);
    s.push(1u16);
    assert_eq!(s.len(), 3);
    s.push(1u32);
    assert_eq!(s.len(), 7);
    s.push(1u64);
    assert_eq!(s.len(), 15);
}
