use std::array::from_fn;
use std::cmp::min;
use tasd::codec::writer::Writer;

fn perform<T: Copy, I: IntoIterator<Item = T>, F: Fn(&mut Writer, &mut Vec<u8>, T)>(pattern: I, func: F) {
    let mut w = Writer::new();
    let mut data = Vec::with_capacity(256);
    for i in pattern.into_iter() {
        func(&mut w, &mut data, i);
    }
    assert_eq!(w.to_vec(), data);
}

#[test]
fn writes() {
    perform(u8::MIN..=u8::MAX, |w, expected, data| {
        w.write_u8(data);
        expected.push(data);
    });

    perform(-128..=127, |w, expected, data| {
        w.write_i8(data);
        expected.push(data as u8);
    });

    const U16PAT: [u16; 8] = [0x0000, 0x55AA, 0xAA55, 0xFFFF, 0x1234, 0x6969, 0x0FA1, 0x1010];
    perform(U16PAT, |w, expected, data| {
        w.write_u16(data);
        expected.extend_from_slice(&data.to_be_bytes());
    });

    const I16PAT: [i16; 8] = [0x0000, 0x55AA, -0x7A55, -0x8000, 0x1234, 0x6969, 0x0FA1, 0x1010];
    perform(I16PAT, |w, expected, data| {
        w.write_i16(data);
        expected.extend_from_slice(&data.to_be_bytes());
    });

    const U32PAT: [u32; 8] = [0x00000000, 0x55AA33DD, 0xAA55DD33, 0xFFFFFFFF, 0x12345678, 0x69696969, 0x0FA17C15, 0x10101010];
    perform(U32PAT, |w, expected, data| {
        w.write_u32(data);
        expected.extend_from_slice(&data.to_be_bytes());
    });

    const I32PAT: [i32; 8] = [0x00000000, 0x55AA33DD, -0x7A55DD33, -0x80000000, 0x12345678, 0x69696969, 0x0FA17C15, 0x10101010];
    perform(I32PAT, |w, expected, data| {
        w.write_i32(data);
        expected.extend_from_slice(&data.to_be_bytes());
    });

    const U64PAT: [u64; 8] = [0x0000000000000000, 0x55AA55AA55AA55AA, 0xAA55AA55AA55AA55, 0xFFFFFFFFFFFFFFFF, 0x123456789ABCDEF, 0x6969696969696969, 0x0FA17C15A6B90D38, 0x1010101010101010];
    perform(U64PAT, |w, expected, data| {
        w.write_u64(data);
        expected.extend_from_slice(&data.to_be_bytes());
    });

    const I64PAT: [i64; 8] = [0x0000000000000000, 0x55AA55AA55AA55AA, -0x7A55AA55AA55AA55, -0x8000000000000000, 0x123456789ABCDEF, 0x6969696969696969, 0x0FA17C15A6B90D38, 0x1010101010101010];
    perform(I64PAT, |w, expected, data| {
        w.write_i64(data);
        expected.extend_from_slice(&data.to_be_bytes());
    });

    perform([false, true, false, false, true, true, false, false, false, true, true, true], |w, expected, data| {
        w.write_bool(data);
        expected.push(data as u8);
    });

    perform(["foo", "bar", "", "fish", "tasd", "hello world!", "lorem ipsum"], |w, expected, data| {
        w.write_str(data);
        expected.extend_from_slice(data.as_bytes());
    });

    perform(["foo", "bar", "", "fish", "tasd", "hello world!", "lorem ipsum"], |w, expected, data| {
        w.write_u8_str(data);
        expected.push(data.len() as u8);
        expected.extend_from_slice(data.as_bytes());
    });
    for len in 0..280 {
        let mut w = Writer::new();
        let s = String::from_utf8(vec![0x5A; len]).unwrap();
        w.write_u8_str(&s);
        assert_eq!(w.to_vec().len(), 1 + min(len, 255));

        let mut expected = Vec::with_capacity(512);
        expected.push(min(len, 255) as u8);
        expected.extend_from_slice(&s.as_bytes()[..min(len, 255)]);
        assert_eq!(w.to_vec(), expected);
    }

    let mut w = Writer::new();
    w.write_iter(0..=255);
    assert_eq!(w.to_vec(), (0..=255u8).into_iter().collect::<Vec<u8>>());
}

#[test]
fn writer_conversion() {
    let data = [0x11, 0x22, 0x33, 0xA5, 0x5A, 0x00, 0xFF];
    let mut w = Writer::new();

    w.write_slice(&data);
    assert_eq!(w.to_vec(), data);

    let mut w = Writer::new();
    let data: [u8; 0x105A5] = from_fn(|i| i as u8);
    w.write_iter(data.clone().into_iter());

    let mut packet = vec![
        0x5A, 0xA5,
        0x03, 0x01, 0x05, 0xA5
    ];
    packet.extend_from_slice(&data);
    assert_eq!(w.into_packet(&[0x5A, 0xA5], 2), packet);
}

fn frame_header(len: usize) -> Vec<u8> {
    let mut w = Writer::new();
    w.write_iter(std::iter::repeat(0xABu8).take(len));
    let frame = w.into_packet(&[0x12, 0x34], 2);
    assert_eq!(&frame[frame.len() - len..], vec![0xABu8; len].as_slice());
    frame[..frame.len() - len].to_vec()
}

#[test]
fn exponent_is_the_least_that_holds_the_length() {
    assert_eq!(frame_header(0), [0x12, 0x34, 0x00]);
    assert_eq!(frame_header(1), [0x12, 0x34, 0x01, 0x01]);
    assert_eq!(frame_header(255), [0x12, 0x34, 0x01, 0xFF]);
    assert_eq!(frame_header(256), [0x12, 0x34, 0x02, 0x01, 0x00]);
    assert_eq!(frame_header(65535), [0x12, 0x34, 0x02, 0xFF, 0xFF]);
    assert_eq!(frame_header(65536), [0x12, 0x34, 0x03, 0x01, 0x00, 0x00]);
    assert_eq!(frame_header(0x0100_0000), [0x12, 0x34, 0x04, 0x01, 0x00, 0x00, 0x00]);
}

#[test]
fn short_key_is_padded_on_the_left() {
    let mut w = Writer::new();
    w.write_u8(0x7F);
    assert_eq!(w.into_packet(&[0x09], 3), [0x00, 0x00, 0x09, 0x01, 0x01, 0x7F]);
    let w = Writer::new();
    assert_eq!(w.into_packet(&[], 2), [0x00, 0x00, 0x00]);
}

#[test]
fn long_key_keeps_its_trailing_bytes() {
    let mut w = Writer::new();
    w.write_u8(0x7F);
    assert_eq!(w.into_packet(&[0xAA, 0xBB, 0xCC], 2), [0xBB, 0xCC, 0x01, 0x01, 0x7F]);
    let mut w = Writer::new();
    w.write_u8(0x7F);
    assert_eq!(w.into_packet(&[0xAA, 0xBB], 0), [0x01, 0x01, 0x7F]);
}

#[test]
fn option_string_writes_the_text_or_nothing() {
    let mut w = Writer::new();
    w.write_option_string(&None);
    assert_eq!(w.to_vec(), Vec::<u8>::new());
    w.write_option_string(&Some("abc".to_string()));
    assert_eq!(w.to_vec(), b"abc");
}

#[test]
fn u8_str_cuts_at_255_bytes() {
    let mut w = Writer::new();
    let long = "x".repeat(300);
    w.write_u8_str(&long);
    let out = w.to_vec();
    assert_eq!(out.len(), 256);
    assert_eq!(out[0], 255);
    assert!(out[1..].iter().all(|b| *b == b'x'));
}

#[test]
fn signed_writes_are_twos_complement() {
    let mut w = Writer::new();
    w.write_i8(-1);
    w.write_i16(-2);
    w.write_i32(-3);
    w.write_i64(-4);
    assert_eq!(
        w.to_vec(),
        [0xFF, 0xFF, 0xFE, 0xFF, 0xFF, 0xFF, 0xFD, 0xFF, 0xFF, 0xFF, 0xFF, 0xFF, 0xFF, 0xFF, 0xFC]
    );
}
