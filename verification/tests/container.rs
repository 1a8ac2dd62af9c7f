use tasd::codec::packets::{
    Comment, ConsoleRegion, DumpCreated, DumpLastModified, GameTitle, Packet, PacketError,
    TotalFrames, Unsupported,
};
use tasd::codec::{TasdError, TasdFile, LATEST_VERSION, MAGIC_NUMBER};

fn header(version: [u8; 2], keylen: u8) -> Vec<u8> {
    let mut bytes = MAGIC_NUMBER.to_vec();
    bytes.extend_from_slice(&version);
    bytes.push(keylen);
    bytes
}

#[test]
fn title_scenario_decodes_and_encodes_to_the_same_bytes() {
    let bytes = [
        0x54, 0x41, 0x53, 0x44, 0x00, 0x01, 0x02,
        0x00, 0x03, 0x01, 0x05, b'S', b'u', b'p', b'e', b'r',
    ];
    let file = TasdFile::parse_slice(&bytes).unwrap();
    assert_eq!(file.version, 1);
    assert_eq!(file.keylen, 2);
    assert_eq!(file.path, None);
    assert_eq!(file.packets, vec![Packet::from(GameTitle { title: "Super".into() })]);
    assert_eq!(file.encode(), bytes);
}

#[test]
fn frame_that_does_not_fit_is_skipped_and_parsing_goes_on() {
    let mut bytes = header(LATEST_VERSION, 2);
    bytes.extend_from_slice(&[0x00, 0x02, 0x01, 0x01, 0x01]);
    bytes.extend_from_slice(&[0x00, 0x0D, 0x01, 0x02, 0xAA, 0xBB]);
    bytes.extend_from_slice(&[0x00, 0x03, 0x01, 0x02, b'h', b'i']);

    let file = TasdFile::parse_slice(&bytes).unwrap();
    assert_eq!(
        file.packets,
        vec![
            Packet::from(ConsoleRegion { region: 0x01 }),
            Packet::from(GameTitle { title: "hi".into() }),
        ],
    );

    let (file, skipped) = TasdFile::parse_slice_with_skips(&bytes).unwrap();
    assert_eq!(file.packets.len(), 2);
    assert_eq!(skipped.len(), 1);
    match &skipped[0] {
        PacketError::InvalidPayload { key, payload } => {
            assert_eq!(key, &[0x00, 0x0D]);
            assert_eq!(payload, &[0xAA, 0xBB]);
        }
        other => panic!("expected InvalidPayload, got {:?}", other),
    }
}

#[test]
fn short_buffer_is_missing_its_header() {
    assert!(matches!(TasdFile::parse_slice(&[]), Err(TasdError::MissingHeader)));
    assert!(matches!(TasdFile::parse_slice(b"TASD\x00\x01"), Err(TasdError::MissingHeader)));
    assert!(matches!(TasdFile::parse_slice(b"XXXX"), Err(TasdError::MissingHeader)));
}

#[test]
fn wrong_magic_number_is_reported_with_what_was_found() {
    match TasdFile::parse_slice(b"TASE\x00\x01\x02") {
        Err(TasdError::MagicNumberMismatch(found)) => assert_eq!(found, b"TASE"),
        other => panic!("expected MagicNumberMismatch, got {:?}", other),
    }
}

#[test]
fn exponent_nine_aborts_the_parse() {
    let mut bytes = header(LATEST_VERSION, 2);
    bytes.extend_from_slice(&[0x00, 0x02, 0x01, 0x01, 0x01]);
    bytes.extend_from_slice(&[0x00, 0x03, 0x09]);
    assert!(matches!(
        TasdFile::parse_slice(&bytes),
        Err(TasdError::Packet(PacketError::UnsupportedExponent(9)))
    ));
}

#[test]
fn cut_off_frames_abort_the_parse() {
    let mut bytes = header(LATEST_VERSION, 2);
    bytes.push(0x00);
    assert!(matches!(TasdFile::parse_slice(&bytes), Err(TasdError::Packet(PacketError::MissingKey))));

    let mut bytes = header(LATEST_VERSION, 2);
    bytes.extend_from_slice(&[0x00, 0x03]);
    assert!(matches!(
        TasdFile::parse_slice(&bytes),
        Err(TasdError::Packet(PacketError::MissingPayloadLength))
    ));

    let mut bytes = header(LATEST_VERSION, 2);
    bytes.extend_from_slice(&[0x00, 0x03, 0x01, 0x05, b'S']);
    assert!(matches!(
        TasdFile::parse_slice(&bytes),
        Err(TasdError::Packet(PacketError::MissingPayloadLength))
    ));
}

#[test]
fn header_alone_is_an_empty_container() {
    let bytes = header([0x12, 0x34], 4);
    let file = TasdFile::parse_slice(&bytes).unwrap();
    assert_eq!(file.version, 0x1234);
    assert_eq!(file.keylen, 4);
    assert!(file.packets.is_empty());
    assert_eq!(file.encode(), bytes);
}

#[test]
fn unknown_records_round_trip_through_the_container() {
    let mut bytes = header(LATEST_VERSION, 2);
    bytes.extend_from_slice(&[0x42, 0x42, 0x01, 0x02, 0xDE, 0xAD]);
    bytes.extend_from_slice(&[0x00, 0x0D, 0x01, 0x04, 0, 0, 0, 9]);
    let file = TasdFile::parse_slice(&bytes).unwrap();
    assert_eq!(
        file.packets,
        vec![
            Packet::from(Unsupported { key: vec![0x42, 0x42], payload: vec![0xDE, 0xAD] }),
            Packet::from(TotalFrames { frames: 9 }),
        ],
    );
    assert_eq!(file.encode(), bytes);
}

#[test]
fn encode_then_parse_gives_the_records_back() {
    let mut file = TasdFile::default();
    file.packets.push(Packet::from(GameTitle { title: "Title".into() }));
    file.packets.push(Packet::from(Comment { comment: String::new() }));
    file.packets.push(Packet::from(TotalFrames { frames: 123456 }));
    let bytes = file.encode();
    assert_eq!(&bytes[..7], &[0x54, 0x41, 0x53, 0x44, 0x00, 0x01, 0x02]);
    assert_eq!(TasdFile::parse_slice(&bytes).unwrap(), file);
}

#[test]
fn default_is_empty_and_new_says_when_it_was_created() {
    let file = TasdFile::default();
    assert_eq!(file.version, u16::from_be_bytes(LATEST_VERSION));
    assert_eq!(file.keylen, 2);
    assert!(file.packets.is_empty());
    assert_eq!(file.path, None);

    let file = TasdFile::new();
    assert_eq!(file.keylen, 2);
    assert_eq!(file.packets.len(), 1);
    match &file.packets[0] {
        Packet::DumpCreated(created) => assert!(created.epoch > 1_600_000_000),
        other => panic!("expected DumpCreated, got {:?}", other),
    }

    let file = TasdFile::created_at(42);
    assert_eq!(file.packets, vec![Packet::from(DumpCreated { epoch: 42 })]);
    assert_eq!(TasdFile::created_by_clock(Some(7)).packets, vec![Packet::from(DumpCreated { epoch: 7 })]);
    assert_eq!(TasdFile::created_by_clock(None).packets, vec![Packet::from(DumpCreated { epoch: 0 })]);
    assert_eq!(TasdFile::created_by_clock(Some(u64::MAX)).packets, vec![Packet::from(DumpCreated { epoch: -1 })]);
}

#[test]
fn stamp_is_appended_where_there_was_none() {
    let mut file = TasdFile::created_at(1);
    file.packets.push(Packet::from(GameTitle { title: "t".into() }));
    file.stamp_last_modified(99);
    assert_eq!(
        file.packets,
        vec![
            Packet::from(DumpCreated { epoch: 1 }),
            Packet::from(GameTitle { title: "t".into() }),
            Packet::from(DumpLastModified { epoch: 99 }),
        ],
    );
}

#[test]
fn stamp_refreshes_the_first_and_removes_the_others() {
    let mut file = TasdFile::default();
    file.packets.push(Packet::from(GameTitle { title: "a".into() }));
    file.packets.push(Packet::from(DumpLastModified { epoch: 5 }));
    file.packets.push(Packet::from(Comment { comment: "b".into() }));
    file.packets.push(Packet::from(DumpLastModified { epoch: 6 }));
    file.packets.push(Packet::from(DumpLastModified { epoch: 7 }));
    file.stamp_last_modified(1000);
    assert_eq!(
        file.packets,
        vec![
            Packet::from(GameTitle { title: "a".into() }),
            Packet::from(DumpLastModified { epoch: 1000 }),
            Packet::from(Comment { comment: "b".into() }),
        ],
    );
    file.stamp_last_modified(2000);
    assert_eq!(file.packets[1], Packet::from(DumpLastModified { epoch: 2000 }));
    assert_eq!(file.packets.len(), 3);
}

#[test]
fn errors_convert_into_the_container_error() {
    assert!(matches!(
        TasdError::from(PacketError::MissingKey),
        TasdError::Packet(PacketError::MissingKey)
    ));
    let io = std::io::Error::new(std::io::ErrorKind::NotFound, "gone");
    assert!(matches!(TasdError::from(io), TasdError::Io(_)));
}
