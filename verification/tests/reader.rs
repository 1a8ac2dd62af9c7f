use tasd::codec::reader::Reader;

const TEST_DATA: [[u8; 16]; 3] = [
    [0x00, 0x11, 0x22, 0x33, 0x44, 0x55, 0x66, 0x77, 0x88, 0x99, 0xAA, 0xBB, 0xCC, 0xDD, 0xEE, 0xFF],
    [0xF0, 0xE1, 0xD2, 0xC3, 0xB4, 0xA5, 0x96, 0x87, 0x78, 0x69, 0x5A, 0x4B, 0x3C, 0x2D, 0x1E, 0x0F],
    [0x00, 0x01, 0x01, 0x00, 0x00, 0x01, 0xFF, 0x00, 0xAA, 0x55, 0x00, 0x69, 0x96, 0x00, 0x01, 0x00],
];

#[test]
fn controls() {
    for data in TEST_DATA {
        let mut r = Reader::new(&data);

        assert_eq!(r.pos(), 0);
        assert_eq!(r.to_vec(), &data);

        let mut i = 0;
        for adv in [0, 0, 1, 1, 5, 23, 1963, 9] {
            r.advance(adv);
            i += adv;
            assert_eq!(r.pos(), i);
        }

        for set in [592, 11, 50, 99, 2, 0, 8, 9102502] {
            r.set_pos(set);
            assert_eq!(r.pos(), set);
        }

        r.set_pos(usize::MAX);
        let mut i = r.pos();
        for rev in [0, 1, 53, 3, 0] {
            r.rewind(rev);
            i -= rev;
            assert_eq!(r.pos(), i);
        }

        r.set_pos(0);
        for i in 0..data.len() {
            assert_eq!(r.remaining(), data.len() - i);
            r.advance(1);
        }

        r.set_pos(data.len());
        for i in 0..data.len() {
            assert_eq!(r.remaining(), i);
            r.rewind(1);
        }
    }
}

#[test]
fn peeks() {
    for data in TEST_DATA {
        let mut r = Reader::new(&data);

        r.set_pos(0);
        for i in 0..data.len() {
            assert_eq!(r.peek_u8(), data[i]);
            assert_eq!(r.peek_i8(), data[i] as i8);
            r.advance(1);
        }

        r.set_pos(0);
        for i in 0..(data.len() - 1) {
            let expected = u16::from_be_bytes(data[i..(i + 2)].try_into().unwrap());
            assert_eq!(r.peek_u16(), expected);
            assert_eq!(r.peek_i16(), expected as i16);
            r.advance(1);
        }

        r.set_pos(0);
        for i in 0..(data.len() - 3) {
            let expected = u32::from_be_bytes(data[i..(i + 4)].try_into().unwrap());
            assert_eq!(r.peek_u32(), expected);
            assert_eq!(r.peek_i32(), expected as i32);
            r.advance(1);
        }

        r.set_pos(0);
        for i in 0..(data.len() - 7) {
            let expected = u64::from_be_bytes(data[i..(i + 8)].try_into().unwrap());
            assert_eq!(r.peek_u64(), expected);
            assert_eq!(r.peek_i64(), expected as i64);
            r.advance(1);
        }

        r.set_pos(0);
        for i in 0..data.len() {
            assert_eq!(r.peek_len(i), &data[..i]);
            assert_eq!(r.peek_len_rev(i), data[..i].into_iter().copied().rev().collect::<Vec<u8>>());
        }
    }
}

#[test]
fn reads() {
    for data in TEST_DATA {
        let mut r = Reader::new(&data);

        r.set_pos(0);
        for i in 0..data.len() {
            assert_eq!(r.read_u8(), data[i]);
            r.rewind(1);
            assert_eq!(r.read_i8(), data[i] as i8);
            r.rewind(1);
            assert_eq!(r.read_bool(), data[i] > 0);
        }

        r.set_pos(0);
        for i in 0..(data.len() - 1) {
            let expected = u16::from_be_bytes(data[i..(i + 2)].try_into().unwrap());
            assert_eq!(r.read_u16(), expected);
            r.rewind(2);

            let expected = i16::from_be_bytes(data[i..(i + 2)].try_into().unwrap());
            assert_eq!(r.read_i16(), expected);
            r.rewind(1);
        }

        r.set_pos(0);
        for i in 0..(data.len() - 3) {
            let expected = u32::from_be_bytes(data[i..(i + 4)].try_into().unwrap());
            assert_eq!(r.read_u32(), expected);
            r.rewind(4);

            let expected = i32::from_be_bytes(data[i..(i + 4)].try_into().unwrap());
            assert_eq!(r.read_i32(), expected);
            r.rewind(3);
        }

        r.set_pos(0);
        for i in 0..(data.len() - 7) {
            let expected = u64::from_be_bytes(data[i..(i + 8)].try_into().unwrap());
            assert_eq!(r.read_u64(), expected);
            r.rewind(8);

            let expected = i64::from_be_bytes(data[i..(i + 8)].try_into().unwrap());
            assert_eq!(r.read_i64(), expected);
            r.rewind(7);
        }

        for i in 0..data.len() {
            r.set_pos(0);
            assert_eq!(r.read_len(i), &data[..i]);

            r.set_pos(data.len() - i);
            assert_eq!(r.read_len(i), &data[(data.len() - i)..]);

            r.set_pos(i);
            assert_eq!(r.read_remaining(), &data[i..]);

            r.set_pos(0);
            assert_eq!(r.read_string(i), String::from_utf8_lossy(&data[..i]));
        }
    }
}

#[test]
fn reader_conversion() {
    for data in TEST_DATA {
        let mut r = Reader::new(&data);

        for i in 0..data.len() {
            r.set_pos(i);
            assert_eq!(r.read_remaining(), &data[i..]);
            assert_eq!(r.read_remaining(), &[]);

            assert_eq!(r.to_vec(), &data);
        }
    }
}

#[test]
fn read_moves_the_position_by_the_width_read() {
    let data = [0x01, 0x02, 0x03, 0x04, 0x05, 0x06, 0x07, 0x08, 0x09, 0x0A, 0x0B, 0x0C, 0x0D, 0x0E, 0x0F];
    let mut r = Reader::new(&data);
    assert_eq!(r.read_u8(), 0x01);
    assert_eq!(r.pos(), 1);
    assert_eq!(r.read_u16(), 0x0203);
    assert_eq!(r.pos(), 3);
    assert_eq!(r.read_u32(), 0x0405_0607);
    assert_eq!(r.pos(), 7);
    assert_eq!(r.read_u64(), 0x0809_0A0B_0C0D_0E0F);
    assert_eq!(r.pos(), 15);
    assert_eq!(r.remaining(), 0);
}

#[test]
fn peek_leaves_the_position_alone() {
    let data = [0xFF, 0xFE, 0x00, 0x01, 0x80, 0x00, 0x00, 0x00];
    let r = Reader::new(&data);
    assert_eq!(r.peek_u8(), 0xFF);
    assert_eq!(r.peek_i8(), -1);
    assert_eq!(r.peek_u16(), 0xFFFE);
    assert_eq!(r.peek_i16(), -2);
    assert_eq!(r.peek_u32(), 0xFFFE_0001);
    assert_eq!(r.peek_i32(), -131071);
    assert_eq!(r.peek_u64(), 0xFFFE_0001_8000_0000);
    assert_eq!(r.peek_i64(), -562943510970368);
    assert_eq!(r.peek_len(3), &[0xFF, 0xFE, 0x00]);
    assert_eq!(r.pos(), 0);
}

#[test]
fn peek_len_rev_matches_the_documented_example() {
    let data = [0x11, 0x22, 0x33, 0x44, 0x55];
    let mut r = Reader::new(&data);
    r.advance(1);
    assert_eq!(r.peek_len(3), &[0x22, 0x33, 0x44]);
    assert_eq!(r.peek_len_rev(3), &[0x44, 0x33, 0x22]);
}

#[test]
fn signed_reads_at_the_bounds() {
    let data = [0x80, 0x00, 0x00, 0x00, 0x00, 0x00, 0x00, 0x00];
    let mut r = Reader::new(&data);
    assert_eq!(r.read_i64(), i64::MIN);
    r.set_pos(0);
    assert_eq!(r.read_i32(), i32::MIN);
    r.set_pos(0);
    assert_eq!(r.read_i16(), i16::MIN);
    r.set_pos(0);
    assert_eq!(r.read_i8(), i8::MIN);
    let data = [0x7F, 0xFF, 0xFF, 0xFF, 0xFF, 0xFF, 0xFF, 0xFF];
    let mut r = Reader::new(&data);
    assert_eq!(r.read_i64(), i64::MAX);
}

#[test]
fn read_string_keeps_valid_text_and_repairs_the_rest() {
    let text = "h\u{e9}llo \u{1F3AE}";
    let mut r = Reader::new(text.as_bytes());
    assert_eq!(r.read_string(text.len()), text);

    let broken = [b'a', 0xFF, b'b'];
    let mut r = Reader::new(&broken);
    assert_eq!(r.read_string(3), "a\u{FFFD}b");
}

#[test]
fn checked_reads_give_none_past_the_end_and_leave_the_reader() {
    let data = [0x01, 0x02, 0x03];
    let mut r = Reader::new(&data);
    assert!(r.can_read(3));
    assert!(!r.can_read(4));
    assert_eq!(r.try_peek_u8(), Some(0x01));
    assert_eq!(r.try_peek_i8(), Some(1));
    assert_eq!(r.try_peek_u16(), Some(0x0102));
    assert_eq!(r.try_peek_i16(), Some(0x0102));
    assert_eq!(r.try_peek_u32(), None);
    assert_eq!(r.try_peek_i32(), None);
    assert_eq!(r.try_peek_u64(), None);
    assert_eq!(r.try_peek_i64(), None);
    assert_eq!(r.try_peek_len(3), Some(&data[..]));
    assert_eq!(r.try_peek_len(4), None);
    assert_eq!(r.try_peek_len_rev(2), Some(vec![0x02, 0x01]));
    assert_eq!(r.try_peek_len_rev(4), None);

    assert_eq!(r.try_read_u32(), None);
    assert_eq!(r.try_read_i32(), None);
    assert_eq!(r.try_read_u64(), None);
    assert_eq!(r.try_read_i64(), None);
    assert_eq!(r.try_read_len(4), None);
    assert_eq!(r.try_read_string(4), None);
    assert_eq!(r.pos(), 0);

    assert_eq!(r.try_read_u16(), Some(0x0102));
    assert_eq!(r.pos(), 2);
    assert_eq!(r.try_read_u16(), None);
    assert_eq!(r.try_read_i16(), None);
    assert_eq!(r.pos(), 2);
    assert_eq!(r.try_read_bool(), Some(true));
    assert_eq!(r.try_read_u8(), None);
    assert_eq!(r.try_read_i8(), None);
    assert_eq!(r.try_read_bool(), None);
    assert_eq!(r.try_read_len(0), Some(&data[..0]));
    assert_eq!(r.try_read_string(0), Some(String::new()));
    assert_eq!(r.try_read_remaining(), Some(&data[..0]));

    r.set_pos(2);
    assert_eq!(r.try_read_i8(), Some(3));
    r.set_pos(1);
    assert_eq!(r.try_read_i16(), Some(0x0203));
    r.set_pos(1);
    assert_eq!(r.try_read_string(2), Some("\u{2}\u{3}".to_string()));
    r.set_pos(1);
    assert_eq!(r.try_read_remaining(), Some(&data[1..]));

    r.set_pos(10);
    assert!(!r.can_read(0));
    assert_eq!(r.try_read_u8(), None);
    assert_eq!(r.try_peek_len(0), None);
    assert_eq!(r.try_read_remaining(), None);
    assert_eq!(r.pos(), 10);
}
