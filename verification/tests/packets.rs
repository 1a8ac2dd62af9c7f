use tasd::codec::packets::{
    Attribution, BlankFrames, Category, Comment, ConsoleRegion, ConsoleType, Decode, DumpCreated,
    DumpLastModified, EmulatorCore, EmulatorName, EmulatorVersion, Encode, Experimental,
    GameIdentifier, GameTitle, GenesisGameGenieCode, InputChunk, InputMoment, LagFrameChunk,
    MemoryInit, MovieFile, MovieLicense, MovieTransition, NesClockFilter, NesGameGenieCode,
    NesLatchFilter, NesOverread, Packet, PacketError, PacketKind, PortController, Rerecords,
    RomName, SnesClockFilter, SnesGameGenieCode, SnesLatchTrain, SnesOverread, SourceLink,
    TasLastModified, TotalFrames, Transition, Unspecified, Unsupported, Verified,
};
use tasd::codec::reader::Reader;
use tasd::codec::writer::Writer;

/// Small wrapper around [`Writer`] for creating a packet using a key and some data.
fn packet<D: AsRef<[u8]>>(key: &[u8], data: D) -> Vec<u8> {
    let mut w = Writer::new();
    w.write_slice(data.as_ref());

    w.into_packet(key, key.len() as u8)
}

/// The packet encodes to the frame of `data` under `key`, and that frame
/// decodes to the packet again.
fn assert_packet<P: Into<Packet>, D: AsRef<[u8]>>(value: P, key: [u8; 2], data: D) {
    let value: Packet = value.into();
    let frame = value.encode(key.len() as u8);
    assert_eq!(frame, packet(&key, data));
    assert_eq!(value.key(), key);

    let mut r = Reader::new(&frame);
    let back = Packet::with_reader(&mut r, key.len() as u8).unwrap();
    assert_eq!(back, value);
    assert_eq!(r.remaining(), 0);
    assert_eq!(back.kind(), value.kind());
}

/// The frame of `data` under `key` is refused as a payload that does not
/// fit, and the error hands back the key and the payload.
fn assert_invalid<D: AsRef<[u8]>>(key: [u8; 2], data: D) {
    let frame = packet(&key, data.as_ref());
    let mut r = Reader::new(&frame);
    match Packet::with_reader(&mut r, 2) {
        Err(PacketError::InvalidPayload { key: k, payload }) => {
            assert_eq!(k, key);
            assert_eq!(payload, data.as_ref());
        }
        other => panic!("expected InvalidPayload, got {:?}", other),
    }
    assert_eq!(r.remaining(), 0);
}

#[test]
fn console_type() {
    assert_packet(ConsoleType { kind: 0x01, custom: None }, [0x00, 0x01], [0x01]);
    assert_packet(ConsoleType { kind: 0x05, custom: None }, [0x00, 0x01], [0x05]);
    assert_eq!(
        Packet::from(ConsoleType { kind: 0xFF, custom: None }).encode(2),
        packet(&[0x00, 0x01], [0xFF]),
    );
    assert_packet(ConsoleType { kind: 0xFF, custom: Some("something".into()) }, [0x00, 0x01], [&[0xFF], "something".as_bytes()].concat());
    assert_packet(ConsoleType { kind: 0xFF, custom: Some(String::new()) }, [0x00, 0x01], [0xFF]);
    assert_invalid([0x00, 0x01], []);
}

#[test]
fn console_region() {
    assert_packet(ConsoleRegion { region: 0x01 }, [0x00, 0x02], [0x01]);
    assert_packet(ConsoleRegion { region: 0x02 }, [0x00, 0x02], [0x02]);
    assert_packet(ConsoleRegion { region: 0xFF }, [0x00, 0x02], [0xFF]);
    assert_invalid([0x00, 0x02], []);
    assert_invalid([0x00, 0x02], [0x01, 0x02]);
}

#[test]
fn game_title() {
    assert_packet(GameTitle { title: "This is the title!".into() }, [0x00, 0x03], "This is the title!".as_bytes());
    assert_packet(GameTitle { title: "12345? That's amazing, I've got the same password on my luggage!".into() }, [0x00, 0x03], "12345? That's amazing, I've got the same password on my luggage!".as_bytes());
    assert_packet(GameTitle { title: String::new() }, [0x00, 0x03], []);
}

#[test]
fn rom_name() {
    assert_packet(RomName { name: "Super Mario Bros. Super Hack World With Ultra Mods".into() }, [0x00, 0x04], "Super Mario Bros. Super Hack World With Ultra Mods".as_bytes());
}

#[test]
fn attribution() {
    assert_packet(Attribution { kind: 0x01, name: "Arthur".into() }, [0x00, 0x05], [&[0x01], "Arthur".as_bytes()].concat());
    assert_packet(Attribution { kind: 0x02, name: "a replay device".into() }, [0x00, 0x05], [&[0x02], "a replay device".as_bytes()].concat());
    assert_packet(Attribution { kind: 0x03, name: "Arthur".into() }, [0x00, 0x05], [&[0x03], "Arthur".as_bytes()].concat());
    assert_packet(Attribution { kind: 0x04, name: "Arthur".into() }, [0x00, 0x05], [&[0x04], "Arthur".as_bytes()].concat());
    assert_packet(Attribution { kind: 0xFF, name: "Arthur".into() }, [0x00, 0x05], [&[0xFF], "Arthur".as_bytes()].concat());
    assert_invalid([0x00, 0x05], []);
}

#[test]
fn category() {
    assert_packet(Category { category: "any%, no jumps, invisible hud, 2 players".into() }, [0x00, 0x06], "any%, no jumps, invisible hud, 2 players".as_bytes());
}

#[test]
fn emulator_name() {
    assert_packet(EmulatorName { name: "BizHawk".into() }, [0x00, 0x07], "BizHawk".as_bytes());
}

#[test]
fn emulator_version() {
    assert_packet(EmulatorVersion { version: "2.9.1".into() }, [0x00, 0x08], "2.9.1".as_bytes());
}

#[test]
fn emulator_core() {
    assert_packet(EmulatorCore { core: "QuickNes".into() }, [0x00, 0x09], "QuickNes".as_bytes());
}

#[test]
fn tas_last_modified() {
    assert_packet(TasLastModified { epoch: 0x0102_0304_0506_0708 }, [0x00, 0x0A], [1, 2, 3, 4, 5, 6, 7, 8]);
    assert_packet(TasLastModified { epoch: -1 }, [0x00, 0x0A], [0xFF; 8]);
    assert_invalid([0x00, 0x0A], [0; 7]);
    assert_invalid([0x00, 0x0A], [0; 9]);
}

#[test]
fn dump_created() {
    assert_packet(DumpCreated { epoch: 1_700_000_000 }, [0x00, 0x0B], [0, 0, 0, 0, 0x65, 0x53, 0xF1, 0x00]);
    assert_packet(DumpCreated { epoch: i64::MIN }, [0x00, 0x0B], [0x80, 0, 0, 0, 0, 0, 0, 0]);
    assert_invalid([0x00, 0x0B], []);
}

#[test]
fn dump_last_modified() {
    assert_packet(DumpLastModified { epoch: 0 }, [0x00, 0x0C], [0; 8]);
    assert_packet(DumpLastModified { epoch: i64::MAX }, [0x00, 0x0C], [0x7F, 0xFF, 0xFF, 0xFF, 0xFF, 0xFF, 0xFF, 0xFF]);
    assert_invalid([0x00, 0x0C], [0; 4]);
}

#[test]
fn total_frames() {
    assert_packet(TotalFrames { frames: 0x0001_E240 }, [0x00, 0x0D], [0x00, 0x01, 0xE2, 0x40]);
    assert_packet(TotalFrames { frames: u32::MAX }, [0x00, 0x0D], [0xFF; 4]);
    assert_invalid([0x00, 0x0D], [0; 3]);
    assert_invalid([0x00, 0x0D], [0; 5]);
}

#[test]
fn rerecords() {
    assert_packet(Rerecords { rerecords: 7 }, [0x00, 0x0E], [0, 0, 0, 7]);
    assert_invalid([0x00, 0x0E], [0; 8]);
}

#[test]
fn source_link() {
    assert_packet(SourceLink { link: "https://example.org/movie/1".into() }, [0x00, 0x0F], "https://example.org/movie/1".as_bytes());
}

#[test]
fn blank_frames() {
    assert_packet(BlankFrames { frames: 3 }, [0x00, 0x10], [0x00, 0x03]);
    assert_packet(BlankFrames { frames: -3 }, [0x00, 0x10], [0xFF, 0xFD]);
    assert_invalid([0x00, 0x10], [0x00]);
}

#[test]
fn verified() {
    assert_packet(Verified { verified: true }, [0x00, 0x11], [0x01]);
    assert_packet(Verified { verified: false }, [0x00, 0x11], [0x00]);
    let frame = packet(&[0x00, 0x11], [0x7F]);
    assert_eq!(
        Packet::with_reader(&mut Reader::new(&frame), 2).unwrap(),
        Packet::from(Verified { verified: true }),
    );
    assert_invalid([0x00, 0x11], []);
}

#[test]
fn memory_init() {
    assert_packet(
        MemoryInit { data_type: 0x02, device: 0x0101, required: true, name: "ram".into(), data: None },
        [0x00, 0x12],
        [0x02, 0x01, 0x01, 0x01, 0x03, b'r', b'a', b'm'],
    );
    assert_packet(
        MemoryInit { data_type: 0xFF, device: 0xFFFF, required: false, name: String::new(), data: Some(vec![9, 8, 7]) },
        [0x00, 0x12],
        [0xFF, 0xFF, 0xFF, 0x00, 0x00, 9, 8, 7],
    );
    assert_packet(
        MemoryInit { data_type: 0xFF, device: 1, required: true, name: "n".repeat(255), data: Some(vec![]) },
        [0x00, 0x12],
        [&[0xFF, 0x00, 0x01, 0x01, 0xFF][..], "n".repeat(255).as_bytes()].concat(),
    );
    assert_invalid([0x00, 0x12], [0x02, 0x01, 0x01, 0x01]);
    assert_invalid([0x00, 0x12], [0x02, 0x01, 0x01, 0x01, 0x04, b'r', b'a', b'm']);
}

#[test]
fn game_identifier() {
    assert_packet(
        GameIdentifier { kind: 0x01, encoding: 0x02, identifier: vec![0xDE, 0xAD, 0xBE, 0xEF] },
        [0x00, 0x13],
        [0x01, 0x02, 0xDE, 0xAD, 0xBE, 0xEF],
    );
    assert_packet(GameIdentifier { kind: 0xFF, encoding: 0x01, identifier: vec![] }, [0x00, 0x13], [0xFF, 0x01]);
    assert_invalid([0x00, 0x13], [0x01]);
}

#[test]
fn movie_license() {
    assert_packet(MovieLicense { license: "CC0".into() }, [0x00, 0x14], "CC0".as_bytes());
}

#[test]
fn movie_file() {
    assert_packet(
        MovieFile { name: "run.bk2".into(), data: vec![1, 2, 3] },
        [0x00, 0x15],
        [&[7u8][..], b"run.bk2", &[1, 2, 3]].concat(),
    );
    assert_packet(MovieFile { name: String::new(), data: vec![] }, [0x00, 0x15], [0x00]);
    assert_invalid([0x00, 0x15], []);
    assert_invalid([0x00, 0x15], [0x02, b'a']);
}

#[test]
fn port_controller() {
    assert_packet(PortController { port: 1, kind: 0x0101 }, [0x00, 0xF0], [0x01, 0x01, 0x01]);
    assert_packet(PortController { port: 2, kind: 0xFFFF }, [0x00, 0xF0], [0x02, 0xFF, 0xFF]);
    assert_invalid([0x00, 0xF0], [0x01, 0x01]);
}

#[test]
fn nes_latch_filter() {
    assert_packet(NesLatchFilter { time: 0x1F40 }, [0x01, 0x01], [0x1F, 0x40]);
    assert_invalid([0x01, 0x01], [0x1F]);
}

#[test]
fn nes_clock_filter() {
    assert_packet(NesClockFilter { time: 0x08 }, [0x01, 0x02], [0x08]);
    assert_invalid([0x01, 0x02], []);
}

#[test]
fn nes_overread() {
    assert_packet(NesOverread { overread: true }, [0x01, 0x03], [0x01]);
    assert_packet(NesOverread { overread: false }, [0x01, 0x03], [0x00]);
    assert_invalid([0x01, 0x03], [0x00, 0x00]);
}

#[test]
fn nes_game_genie_code() {
    assert_packet(NesGameGenieCode { code: "SXIOPO".into() }, [0x01, 0x04], "SXIOPO".as_bytes());
}

#[test]
fn snes_clock_filter() {
    assert_packet(SnesClockFilter { time: 0xFF }, [0x02, 0x02], [0xFF]);
    assert_invalid([0x02, 0x02], [0x01, 0x02]);
}

#[test]
fn snes_overread() {
    assert_packet(SnesOverread { overread: true }, [0x02, 0x03], [0x01]);
    assert_invalid([0x02, 0x03], []);
}

#[test]
fn snes_game_genie_code() {
    assert_packet(SnesGameGenieCode { code: "DD62-6DAD".into() }, [0x02, 0x04], "DD62-6DAD".as_bytes());
}

#[test]
fn snes_latch_train() {
    assert_packet(SnesLatchTrain { points: vec![] }, [0x02, 0x05], []);
    assert_packet(
        SnesLatchTrain { points: vec![1, u64::MAX, 0x0102_0304_0506_0708] },
        [0x02, 0x05],
        [
            0, 0, 0, 0, 0, 0, 0, 1,
            0xFF, 0xFF, 0xFF, 0xFF, 0xFF, 0xFF, 0xFF, 0xFF,
            1, 2, 3, 4, 5, 6, 7, 8,
        ],
    );
    // bytes after the last whole number are passed over
    let frame = packet(&[0x02, 0x05], [0, 0, 0, 0, 0, 0, 0, 5, 0xAA, 0xBB]);
    assert_eq!(
        Packet::with_reader(&mut Reader::new(&frame), 2).unwrap(),
        Packet::from(SnesLatchTrain { points: vec![5] }),
    );
}

#[test]
fn genesis_game_genie_code() {
    assert_packet(GenesisGameGenieCode { code: "ATBT-AA32".into() }, [0x08, 0x04], "ATBT-AA32".as_bytes());
}

#[test]
fn input_chunk() {
    assert_packet(InputChunk { port: 1, inputs: vec![0xFF, 0x7F, 0x00] }, [0xFE, 0x01], [0x01, 0xFF, 0x7F, 0x00]);
    assert_packet(InputChunk { port: 2, inputs: vec![] }, [0xFE, 0x01], [0x02]);
    assert_invalid([0xFE, 0x01], []);
}

#[test]
fn input_moment() {
    assert_packet(
        InputMoment { port: 1, index_type: 0x01, index: u64::MAX, inputs: vec![0x80] },
        [0xFE, 0x02],
        [0x01, 0x01, 0xFF, 0xFF, 0xFF, 0xFF, 0xFF, 0xFF, 0xFF, 0xFF, 0x80],
    );
    assert_packet(
        InputMoment { port: 3, index_type: 0x02, index: 0, inputs: vec![] },
        [0xFE, 0x02],
        [0x03, 0x02, 0, 0, 0, 0, 0, 0, 0, 0],
    );
    assert_invalid([0xFE, 0x02], [0; 9]);
}

#[test]
fn transition() {
    assert_packet(
        Transition { index_type: 0x01, index: 600, transition_type: 0x02, packet: None },
        [0xFE, 0x03],
        [0x01, 0, 0, 0, 0, 0, 0, 0x02, 0x58, 0x02],
    );
    let inner = Packet::from(ConsoleRegion { region: 0x02 });
    assert_packet(
        Transition { index_type: 0x01, index: 1, transition_type: 0xFF, packet: Some(Box::new(inner)) },
        [0xFE, 0x03],
        [0x01, 0, 0, 0, 0, 0, 0, 0, 0x01, 0xFF, 0x00, 0x02, 0x01, 0x01, 0x02],
    );
    assert_invalid([0xFE, 0x03], [0; 9]);
}

#[test]
fn lag_frame_chunk() {
    assert_packet(LagFrameChunk { movie_frame: 0x0102_0304, count: 5 }, [0xFE, 0x04], [1, 2, 3, 4, 0, 0, 0, 5]);
    assert_invalid([0xFE, 0x04], [0; 7]);
}

#[test]
fn movie_transition() {
    assert_packet(
        MovieTransition { movie_frame: 9, transition_type: 0x01, packet: None },
        [0xFE, 0x05],
        [0, 0, 0, 9, 0x01],
    );
    let inner = Packet::from(Comment { comment: "hi".into() });
    assert_packet(
        MovieTransition { movie_frame: 9, transition_type: 0xFF, packet: Some(Box::new(inner)) },
        [0xFE, 0x05],
        [0, 0, 0, 9, 0xFF, 0xFF, 0x01, 0x01, 0x02, b'h', b'i'],
    );
    assert_invalid([0xFE, 0x05], [0; 4]);
}

#[test]
fn comment() {
    assert_packet(Comment { comment: "left+right on frame 9".into() }, [0xFF, 0x01], "left+right on frame 9".as_bytes());
    assert_packet(Comment { comment: "\u{30B3}\u{30E1}\u{30F3}\u{30C8}".into() }, [0xFF, 0x01], "\u{30B3}\u{30E1}\u{30F3}\u{30C8}".as_bytes());
}

#[test]
fn experimental() {
    assert_packet(Experimental { experimental: true }, [0xFF, 0xFE], [0x01]);
    assert_invalid([0xFF, 0xFE], [0x01, 0x01]);
}

#[test]
fn unspecified() {
    assert_packet(Unspecified { payload: vec![1, 2, 3, 4] }, [0xFF, 0xFF], [1, 2, 3, 4]);
    assert_packet(Unspecified { payload: vec![] }, [0xFF, 0xFF], []);
}

#[test]
fn unsupported() {
    assert_packet(Unsupported { key: vec![0x12, 0x34], payload: vec![9, 9, 9] }, [0x12, 0x34], [9, 9, 9]);
    assert_packet(Unsupported { key: vec![0x00, 0x00], payload: vec![] }, [0x00, 0x00], []);
}

#[test]
fn round_trip_keeps_a_payload_that_needs_two_length_bytes() {
    let text = "a".repeat(300);
    let value = Packet::from(Comment { comment: text.clone() });
    let frame = value.encode(2);
    assert_eq!(&frame[..5], &[0xFF, 0x01, 0x02, 0x01, 0x2C]);
    assert_eq!(Packet::with_reader(&mut Reader::new(&frame), 2).unwrap(), value);
}

#[test]
fn length_may_be_written_in_more_bytes_than_it_needs() {
    let frame = [0x00, 0x02, 0x08, 0, 0, 0, 0, 0, 0, 0, 0x01, 0x02];
    let mut r = Reader::new(&frame);
    assert_eq!(
        Packet::with_reader(&mut r, 2).unwrap(),
        Packet::from(ConsoleRegion { region: 0x02 }),
    );
    assert_eq!(r.remaining(), 0);

    let frame = [0x00, 0x03, 0x02, 0x00, 0x00];
    assert_eq!(
        Packet::with_reader(&mut Reader::new(&frame), 2).unwrap(),
        Packet::from(GameTitle { title: String::new() }),
    );
}

#[test]
fn unknown_key_passes_through_unchanged() {
    let frame = [0x77, 0x01, 0x01, 0x03, 0xAA, 0xBB, 0xCC];
    let mut r = Reader::new(&frame);
    let value = Packet::with_reader(&mut r, 2).unwrap();
    assert_eq!(value, Packet::from(Unsupported { key: vec![0x77, 0x01], payload: vec![0xAA, 0xBB, 0xCC] }));
    assert_eq!(value.kind(), PacketKind::Unsupported);
    assert_eq!(value.encode(2), frame);
}

#[test]
fn key_of_another_width_selects_the_fallback() {
    let frame = [0x00, 0x00, 0x03, 0x01, 0x02, b'h', b'i'];
    let value = Packet::with_reader(&mut Reader::new(&frame), 3).unwrap();
    assert_eq!(value, Packet::from(Unsupported { key: vec![0x00, 0x00, 0x03], payload: b"hi".to_vec() }));
    assert_eq!(value.encode(3), frame);

    let frame = [0x03, 0x01, 0x02, b'h', b'i'];
    let value = Packet::with_reader(&mut Reader::new(&frame), 1).unwrap();
    assert_eq!(value, Packet::from(Unsupported { key: vec![0x03], payload: b"hi".to_vec() }));
}

#[test]
fn nested_transitions_decode_two_levels_deep() {
    let leaf = Packet::from(ConsoleRegion { region: 0x01 });
    let middle = Packet::from(Transition { index_type: 0x02, index: 7, transition_type: 0xFF, packet: Some(Box::new(leaf.clone())) });
    let outer = Packet::from(Transition { index_type: 0x01, index: 5, transition_type: 0xFF, packet: Some(Box::new(middle.clone())) });
    let frame = outer.encode(2);
    let expected = [
        0xFE, 0x03, 0x01, 0x1D,
        0x01, 0, 0, 0, 0, 0, 0, 0, 5, 0xFF,
        0xFE, 0x03, 0x01, 0x0F,
        0x02, 0, 0, 0, 0, 0, 0, 0, 7, 0xFF,
        0x00, 0x02, 0x01, 0x01, 0x01,
    ];
    assert_eq!(frame, expected);

    let mut r = Reader::new(&frame);
    let back = Packet::with_reader(&mut r, 2).unwrap();
    assert_eq!(r.remaining(), 0);
    match &back {
        Packet::Transition(first) => match first.packet.as_deref() {
            Some(Packet::Transition(second)) => {
                assert_eq!(second.index, 7);
                assert_eq!(second.packet.as_deref(), Some(&leaf));
            }
            other => panic!("expected a transition inside, got {:?}", other),
        },
        other => panic!("expected a transition, got {:?}", other),
    }
    assert_eq!(back, outer);
    assert_eq!(back.encode(2), expected);
}

#[test]
fn fault_inside_a_transition_is_the_fault_of_the_whole() {
    // the frame inside says four bytes of payload and brings two
    let frame = packet(&[0xFE, 0x03], [0x01, 0, 0, 0, 0, 0, 0, 0, 1, 0xFF, 0x00, 0x02, 0x01, 0x04, 0xAA, 0xBB]);
    assert!(matches!(
        Packet::with_reader(&mut Reader::new(&frame), 2),
        Err(PacketError::MissingPayloadLength)
    ));
    // the frame inside has a payload that does not fit its kind
    let frame = packet(&[0xFE, 0x03], [0x01, 0, 0, 0, 0, 0, 0, 0, 1, 0xFF, 0x00, 0x02, 0x01, 0x02, 0xAA, 0xBB]);
    match Packet::with_reader(&mut Reader::new(&frame), 2) {
        Err(PacketError::InvalidPayload { key, payload }) => {
            assert_eq!(key, [0x00, 0x02]);
            assert_eq!(payload, [0xAA, 0xBB]);
        }
        other => panic!("expected InvalidPayload, got {:?}", other),
    }
    // no frame inside at all
    let frame = packet(&[0xFE, 0x05], [0, 0, 0, 9, 0xFF]);
    assert!(matches!(
        Packet::with_reader(&mut Reader::new(&frame), 2),
        Err(PacketError::MissingKey)
    ));
}

#[test]
fn broken_framing_gives_the_structural_errors() {
    assert!(matches!(Packet::with_reader(&mut Reader::new(&[0x00]), 2), Err(PacketError::MissingKey)));
    assert!(matches!(Packet::with_reader(&mut Reader::new(&[0x00, 0x03]), 2), Err(PacketError::MissingPayloadLength)));
    assert!(matches!(Packet::with_reader(&mut Reader::new(&[0x00, 0x03, 0x02, 0x00]), 2), Err(PacketError::MissingPayloadLength)));
    assert!(matches!(Packet::with_reader(&mut Reader::new(&[0x00, 0x03, 0x01, 0x05, b'S', b'u']), 2), Err(PacketError::MissingPayloadLength)));
    assert!(matches!(Packet::with_reader(&mut Reader::new(&[0x00, 0x03, 0x09]), 2), Err(PacketError::UnsupportedExponent(9))));
    assert!(matches!(
        Packet::with_reader(&mut Reader::new(&[0x00, 0x03, 0xFF, 0, 0, 0, 0, 0, 0, 0, 0, 0, 0, 0]), 2),
        Err(PacketError::UnsupportedExponent(0xFF))
    ));
    // a length that no buffer could hold
    assert!(matches!(
        Packet::with_reader(&mut Reader::new(&[0x00, 0x03, 0x08, 0xFF, 0xFF, 0xFF, 0xFF, 0xFF, 0xFF, 0xFF, 0xFF, 0x00]), 2),
        Err(PacketError::MissingPayloadLength)
    ));
}

#[test]
fn reader_stands_behind_the_frame_that_was_read() {
    let mut bytes = packet(&[0x00, 0x02], [0x01]);
    bytes.extend_from_slice(&packet(&[0x00, 0x0D], [0x00])); // too short for its kind
    bytes.extend_from_slice(&packet(&[0x00, 0x03], "x"));
    let mut r = Reader::new(&bytes);
    assert!(Packet::with_reader(&mut r, 2).is_ok());
    assert_eq!(r.pos(), 5);
    assert!(matches!(Packet::with_reader(&mut r, 2), Err(PacketError::InvalidPayload { .. })));
    assert_eq!(r.pos(), 10);
    assert!(Packet::with_reader(&mut r, 2).is_ok());
    assert_eq!(r.remaining(), 0);
}

#[test]
fn decode_reads_from_the_position_of_its_reader() {
    let buffer = [0xEE, 0xEE, 0x02];
    let mut r = Reader::new(&buffer);
    r.advance(2);
    assert_eq!(ConsoleRegion::decode(&[0x00, 0x02], r).unwrap(), ConsoleRegion { region: 0x02 });

    let mut r = Reader::new(&buffer);
    r.advance(1);
    match ConsoleRegion::decode(&[0x00, 0x02], r) {
        Err(PacketError::InvalidPayload { key, payload }) => {
            assert_eq!(key, [0x00, 0x02]);
            assert_eq!(payload, buffer);
        }
        other => panic!("expected InvalidPayload, got {:?}", other),
    }
}

#[test]
fn invalid_keeps_the_key_and_the_whole_buffer() {
    let buffer = [1, 2, 3];
    let mut r = Reader::new(&buffer);
    r.advance(2);
    match PacketError::invalid(&[0xAB], r) {
        PacketError::InvalidPayload { key, payload } => {
            assert_eq!(key, [0xAB]);
            assert_eq!(payload, buffer);
        }
        other => panic!("expected InvalidPayload, got {:?}", other),
    }
}

#[test]
fn kinds_have_their_names() {
    assert_eq!(PacketKind::ConsoleType.to_string(), "CONSOLE_TYPE");
    assert_eq!(PacketKind::TasLastModified.to_string(), "TAS_LAST_MODIFIED");
    assert_eq!(PacketKind::NesGameGenieCode.to_string(), "NES_GAME_GENIE_CODE");
    assert_eq!(PacketKind::GenesisGameGenieCode.to_string(), "GENESIS_GAME_GENIE_CODE");
    assert_eq!(PacketKind::Unsupported.to_string(), "UNSUPPORTED");
    assert_eq!(GameTitle { title: "x".into() }.name(), "GAME_TITLE");
    assert_eq!(SnesLatchTrain { points: vec![] }.name(), "SNES_LATCH_TRAIN");
    assert_eq!(GameTitle { title: "x".into() }.kind(), PacketKind::GameTitle);
    assert_eq!(Packet::from(MovieLicense { license: "x".into() }).kind(), PacketKind::MovieLicense);
}

#[test]
fn clone_gives_an_equal_packet() {
    let leaf = Packet::from(MemoryInit { data_type: 0xFF, device: 3, required: true, name: "m".into(), data: Some(vec![1, 2]) });
    let outer = Packet::from(MovieTransition { movie_frame: 4, transition_type: 0xFF, packet: Some(Box::new(leaf)) });
    assert_eq!(outer.clone(), outer);
    let plain = ConsoleType { kind: 0xFF, custom: Some("box".into()) };
    assert_eq!(plain.clone(), plain);
}

#[test]
fn text_that_is_not_utf8_is_repaired_on_decode() {
    let frame = packet(&[0x00, 0x03], [b'o', b'k', 0xC3]);
    assert_eq!(
        Packet::with_reader(&mut Reader::new(&frame), 2).unwrap(),
        Packet::from(GameTitle { title: "ok\u{FFFD}".into() }),
    );
}
