use guest_memory::{to_trap, AllBytesValid, BorrowChecker, GuestError, Region};

#[test]
fn whole_buffer_slice_succeeds_at_exact_fit() {
    let buf = [10u8, 20, 30, 40];
    let mut bc = BorrowChecker::new(&buf);
    let view = bc.slice::<u8>(0, 4).unwrap();
    assert_eq!(view, &[10, 20, 30, 40]);
}

#[test]
fn one_past_exact_fit_is_out_of_bounds() {
    let buf = [10u8, 20, 30, 40];
    let mut bc = BorrowChecker::new(&buf);
    let e = bc.slice::<u8>(0, 5).unwrap_err();
    assert_eq!(e, GuestError::PtrOutOfBounds(Region { start: 0, len: 5 }));
}

#[test]
fn interior_slice_returns_exact_bytes() {
    let buf = [1u8, 2, 3, 4, 5, 6];
    let mut bc = BorrowChecker::new(&buf);
    assert_eq!(bc.slice::<u8>(2, 3).unwrap(), &[3, 4, 5]);
}

#[test]
fn out_of_bounds_error_carries_computed_region() {
    let buf = [0u8; 4];
    let mut bc = BorrowChecker::new(&buf);
    let e = bc.slice::<u8>(2, 3).unwrap_err();
    assert_eq!(e, GuestError::PtrOutOfBounds(Region { start: 2, len: 3 }));
}

#[test]
fn end_past_address_space_is_overflow() {
    let buf = [0u8; 4];
    let mut bc = BorrowChecker::new(&buf);
    // offset -1 becomes the last 32-bit address; adding one byte leaves the
    // address space
    let e = bc.slice::<u8>(-1, 1).unwrap_err();
    assert_eq!(e, GuestError::PtrOverflow);
}

#[test]
fn byte_length_overflow_is_overflow_not_bounds() {
    let buf = [0u8; 4];
    let bc = BorrowChecker::new(&buf);
    // 0x8000_0000 two-byte elements overflow the 32-bit byte length
    let e = bc.region::<(u8, u8)>(0, i32::MIN).unwrap_err();
    assert_eq!(e, GuestError::PtrOverflow);
}

#[test]
fn large_offset_within_address_space_is_out_of_bounds() {
    let buf = [0u8; 4];
    let mut bc = BorrowChecker::new(&buf);
    // the end address 0x7fff_ffff + 2 still fits in 32 bits, so this is a
    // bounds failure, not overflow
    let e = bc.slice::<u8>(i32::MAX, 2).unwrap_err();
    assert_eq!(
        e,
        GuestError::PtrOutOfBounds(Region { start: i32::MAX as u32, len: 2 })
    );
}

#[test]
fn empty_slice_of_empty_buffer() {
    let buf: [u8; 0] = [];
    let mut bc = BorrowChecker::new(&buf);
    let view = bc.slice::<u8>(0, 0).unwrap();
    assert_eq!(view.len(), 0);
}

#[test]
fn negative_offset_with_zero_length_is_out_of_bounds() {
    let buf = [0u8; 4];
    let mut bc = BorrowChecker::new(&buf);
    let e = bc.slice::<u8>(-1, 0).unwrap_err();
    assert_eq!(e, GuestError::PtrOutOfBounds(Region { start: u32::MAX, len: 0 }));
}

#[test]
fn validate_contains_checks_end_against_buffer() {
    let buf = [0u8; 4];
    let bc = BorrowChecker::new(&buf);
    assert_eq!(bc.validate_contains(&Region { start: 0, len: 4 }), Ok(()));
    assert_eq!(
        bc.validate_contains(&Region { start: 1, len: 4 }),
        Err(GuestError::PtrOutOfBounds(Region { start: 1, len: 4 }))
    );
    assert_eq!(
        bc.validate_contains(&Region { start: u32::MAX, len: 1 }),
        Err(GuestError::PtrOverflow)
    );
}

#[test]
fn region_of_tuple_elements_scales_by_element_size() {
    let buf = [0u8; 16];
    let bc = BorrowChecker::new(&buf);
    let r = bc.region::<(u8, u8)>(1, 3).unwrap();
    assert_eq!(r, Region { start: 1, len: 6 });
}

#[test]
fn raw_exposes_whole_buffer() {
    let buf = [7u8, 8, 9];
    let bc = BorrowChecker::new(&buf);
    assert_eq!(bc.raw(), &[7, 8, 9]);
}

#[test]
fn view_outlives_later_requests() {
    let buf = [1u8, 2, 3, 4];
    let mut bc = BorrowChecker::new(&buf);
    let first = bc.slice::<u8>(0, 2).unwrap();
    let second = bc.slice::<u8>(2, 2).unwrap();
    // both views stay valid for the checker's scope
    assert_eq!(first, &[1, 2]);
    assert_eq!(second, &[3, 4]);
}

#[test]
fn slice_str_decodes_ascii() {
    let buf = *b"hola!";
    let mut bc = BorrowChecker::new(&buf);
    assert_eq!(bc.slice_str(0, 4).unwrap(), "hola");
}

#[test]
fn slice_str_decodes_multibyte_utf8() {
    // "😀" is four bytes of UTF-8
    let buf = [0xF0u8, 0x9F, 0x98, 0x80];
    let mut bc = BorrowChecker::new(&buf);
    assert_eq!(bc.slice_str(0, 4).unwrap(), "\u{1F600}");
}

#[test]
fn slice_str_rejects_invalid_encoding_in_bounds() {
    let buf = [0xFFu8, 0xFE, 0x00, 0x00];
    let mut bc = BorrowChecker::new(&buf);
    assert_eq!(bc.slice_str(0, 2).unwrap_err(), GuestError::InvalidUtf8);
}

#[test]
fn slice_str_reports_bounds_before_encoding() {
    // invalid UTF-8 and out of bounds: the bounds failure wins
    let buf = [0xFFu8, 0xFE];
    let mut bc = BorrowChecker::new(&buf);
    assert_eq!(
        bc.slice_str(0, 3).unwrap_err(),
        GuestError::PtrOutOfBounds(Region { start: 0, len: 3 })
    );
}

#[test]
fn scalar_sizes_and_alignments() {
    assert_eq!(<u8 as AllBytesValid>::size(), 1);
    assert_eq!(<u64 as AllBytesValid>::size(), 8);
    assert_eq!(<i16 as AllBytesValid>::size(), 2);
    assert_eq!(<() as AllBytesValid>::size(), 0);
    assert_eq!(<(u8, u16, u32) as AllBytesValid>::size(), 7);
    assert_eq!(<(u8, u16, u32) as AllBytesValid>::align(), 4);
    assert_eq!(<(u8, i8) as AllBytesValid>::align(), 1);
    assert_eq!(
        <(u8, u8, u8, u8, u8, u8, u8, u8, u8, u8) as AllBytesValid>::size(),
        10
    );
}

#[test]
fn describe_names_each_failure() {
    assert_eq!(
        GuestError::PtrOverflow.describe(),
        "guest pointer arithmetic overflow"
    );
    assert_eq!(
        GuestError::PtrOutOfBounds(Region { start: 1, len: 2 }).describe(),
        "guest pointer out of bounds"
    );
    assert_eq!(
        GuestError::InvalidUtf8.describe(),
        "invalid utf-8 in guest memory"
    );
}

#[test]
fn to_trap_carries_the_message() {
    let trap = to_trap(GuestError::PtrOverflow);
    assert_eq!(format!("{}", trap), "guest pointer arithmetic overflow");
}
