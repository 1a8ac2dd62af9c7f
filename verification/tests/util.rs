use tasd::bytes::be_vec;
use tasd::util::{format_slice_bin, format_slice_hex, to_bytes};

#[test]
fn to_bytes_is_big_endian_at_the_width_asked_for() {
    assert_eq!(to_bytes(0, 0), Vec::<u8>::new());
    assert_eq!(to_bytes(0x0105A5, 3), [0x01, 0x05, 0xA5]);
    assert_eq!(to_bytes(0x0105A5, 2), [0x05, 0xA5]);
    assert_eq!(to_bytes(0x0105A5, 5), [0x00, 0x00, 0x01, 0x05, 0xA5]);
    assert_eq!(to_bytes(255, 1), [0xFF]);
    assert_eq!(to_bytes(256, 1), [0x00]);
    assert_eq!(to_bytes(1, 10), [0, 0, 0, 0, 0, 0, 0, 0, 0, 1]);
    assert_eq!(be_vec(u64::MAX, 8), [0xFF; 8]);
    assert_eq!(be_vec(0x0102_0304_0506_0708, 8), [1, 2, 3, 4, 5, 6, 7, 8]);
}

#[test]
fn hex_is_upper_case_with_single_spaces() {
    assert_eq!(format_slice_hex(&[]), "");
    assert_eq!(format_slice_hex(&[0x00]), "00");
    assert_eq!(format_slice_hex(&[0x54, 0x41, 0x53, 0x44]), "54 41 53 44");
    assert_eq!(format_slice_hex(&[0x0A, 0xFF, 0x9C]), "0A FF 9C");
}

#[test]
fn bin_has_eight_digits_and_a_space_after_each_byte() {
    assert_eq!(format_slice_bin(&[]), "");
    assert_eq!(format_slice_bin(&[0x00]), "00000000 ");
    assert_eq!(format_slice_bin(&[0xA5, 0x01]), "10100101 00000001 ");
    assert_eq!(format_slice_bin(&[0xFF, 0x80]), "11111111 10000000 ");
}
