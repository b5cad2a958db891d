use guest_memory::{BorrowChecker, GuestError};

#[test]
fn load_u32_little_endian_one() {
    let buf = [0x01u8, 0x00, 0x00, 0x00];
    let bc = BorrowChecker::new(&buf);
    assert_eq!(bc.load::<u32>(0).unwrap(), 1);
}

#[test]
fn load_u8_is_the_byte() {
    let buf = [0xABu8, 0xCD];
    let bc = BorrowChecker::new(&buf);
    assert_eq!(bc.load::<u8>(1).unwrap(), 0xCD);
}

#[test]
fn load_u16_little_endian() {
    let buf = [0x34u8, 0x12];
    let bc = BorrowChecker::new(&buf);
    assert_eq!(bc.load::<u16>(0).unwrap(), 0x1234);
}

#[test]
fn load_u32_at_offset() {
    let buf = [0u8, 0x78, 0x56, 0x34, 0x12];
    let bc = BorrowChecker::new(&buf);
    assert_eq!(bc.load::<u32>(1).unwrap(), 0x1234_5678);
}

#[test]
fn load_u64_little_endian() {
    let buf = [0x01u8, 0x02, 0x03, 0x04, 0x05, 0x06, 0x07, 0x08];
    let bc = BorrowChecker::new(&buf);
    assert_eq!(bc.load::<u64>(0).unwrap(), 0x0807_0605_0403_0201);
}

#[test]
fn load_i8_negative() {
    let buf = [0xFFu8];
    let bc = BorrowChecker::new(&buf);
    assert_eq!(bc.load::<i8>(0).unwrap(), -1);
}

#[test]
fn load_i16_negative() {
    let buf = [0xFEu8, 0xFF];
    let bc = BorrowChecker::new(&buf);
    assert_eq!(bc.load::<i16>(0).unwrap(), -2);
}

#[test]
fn load_i32_extremes() {
    let min = [0x00u8, 0x00, 0x00, 0x80];
    let bc = BorrowChecker::new(&min);
    assert_eq!(bc.load::<i32>(0).unwrap(), i32::MIN);
    let max = [0xFFu8, 0xFF, 0xFF, 0x7F];
    let bc = BorrowChecker::new(&max);
    assert_eq!(bc.load::<i32>(0).unwrap(), i32::MAX);
}

#[test]
fn load_i64_negative_one() {
    let buf = [0xFFu8; 8];
    let bc = BorrowChecker::new(&buf);
    assert_eq!(bc.load::<i64>(0).unwrap(), -1);
}

#[test]
fn load_round_trips_native_encodings() {
    let v: u32 = 0xDEAD_BEEF;
    let buf = v.to_le_bytes();
    let bc = BorrowChecker::new(&buf);
    assert_eq!(bc.load::<u32>(0).unwrap(), v);
    let w: i64 = -123_456_789_012_345;
    let buf = w.to_le_bytes();
    let bc = BorrowChecker::new(&buf);
    assert_eq!(bc.load::<i64>(0).unwrap(), w);
}

#[test]
fn load_past_end_is_out_of_bounds() {
    let buf = [0u8; 3];
    let bc = BorrowChecker::new(&buf);
    assert!(matches!(
        bc.load::<u32>(0),
        Err(GuestError::PtrOutOfBounds(_))
    ));
}

#[test]
fn load_at_wrapped_offset_is_overflow() {
    let buf = [0u8; 8];
    let bc = BorrowChecker::new(&buf);
    assert_eq!(bc.load::<u32>(-1).unwrap_err(), GuestError::PtrOverflow);
}
