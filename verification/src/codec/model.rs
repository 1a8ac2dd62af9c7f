//! The mathematical reading of the format: what a record is, which bytes
//! stand for it, and which record a run of bytes stands for.

use crate::bytes::{be_bytes, be_value, bit_pattern, signed16, signed64};
use crate::codec::frame::frame;
use crate::codec::packets::PacketKind;
use crate::text::{bytes_of, option_text_bytes, short_text_bytes, text_of};
use vstd::prelude::*;

verus! {

/// Why a frame could not be read.
pub enum Fault {
    MissingKey,
    MismatchedKey,
    MissingPayloadLength,
    UnsupportedExponent(u8),
    InvalidPayload { key: Seq<u8>, payload: Seq<u8> },
}

impl Fault {
    /// A fault in one payload, past which reading can go on. Every other
    /// fault is in the framing itself.
    pub open spec fn recoverable(self) -> bool {
        self is InvalidPayload
    }
}

/// A record, as the values of its fields.
#[allow(inconsistent_fields)]
pub enum Record {
    ConsoleType { kind: u8, custom: Option<Seq<char>> },
    ConsoleRegion { region: u8 },
    GameTitle { title: Seq<char> },
    RomName { name: Seq<char> },
    Attribution { kind: u8, name: Seq<char> },
    Category { category: Seq<char> },
    EmulatorName { name: Seq<char> },
    EmulatorVersion { version: Seq<char> },
    EmulatorCore { core: Seq<char> },
    TasLastModified { epoch: i64 },
    DumpCreated { epoch: i64 },
    DumpLastModified { epoch: i64 },
    TotalFrames { frames: u32 },
    Rerecords { rerecords: u32 },
    SourceLink { link: Seq<char> },
    BlankFrames { frames: i16 },
    Verified { verified: bool },
    MemoryInit { data_type: u8, device: u16, required: bool, name: Seq<char>, data: Option<Seq<u8>> },
    GameIdentifier { kind: u8, encoding: u8, identifier: Seq<u8> },
    MovieLicense { license: Seq<char> },
    MovieFile { name: Seq<char>, data: Seq<u8> },
    PortController { port: u8, kind: u16 },
    NesLatchFilter { time: u16 },
    NesClockFilter { time: u8 },
    NesOverread { overread: bool },
    NesGameGenieCode { code: Seq<char> },
    SnesClockFilter { time: u8 },
    SnesOverread { overread: bool },
    SnesGameGenieCode { code: Seq<char> },
    SnesLatchTrain { points: Seq<u64> },
    GenesisGameGenieCode { code: Seq<char> },
    InputChunk { port: u8, inputs: Seq<u8> },
    InputMoment { port: u8, index_type: u8, index: u64, inputs: Seq<u8> },
    Transition { index_type: u8, index: u64, transition_type: u8, packet: Option<Box<Record>> },
    LagFrameChunk { movie_frame: u32, count: u32 },
    MovieTransition { movie_frame: u32, transition_type: u8, packet: Option<Box<Record>> },
    Comment { comment: Seq<char> },
    Experimental { experimental: bool },
    Unspecified { payload: Seq<u8> },
    Unsupported { key: Seq<u8>, payload: Seq<u8> },
}

/// The kind of a record.
pub open spec fn kind_of(r: Record) -> PacketKind {
    match r {
        Record::ConsoleType { .. } => PacketKind::ConsoleType,
        Record::ConsoleRegion { .. } => PacketKind::ConsoleRegion,
        Record::GameTitle { .. } => PacketKind::GameTitle,
        Record::RomName { .. } => PacketKind::RomName,
        Record::Attribution { .. } => PacketKind::Attribution,
        Record::Category { .. } => PacketKind::Category,
        Record::EmulatorName { .. } => PacketKind::EmulatorName,
        Record::EmulatorVersion { .. } => PacketKind::EmulatorVersion,
        Record::EmulatorCore { .. } => PacketKind::EmulatorCore,
        Record::TasLastModified { .. } => PacketKind::TasLastModified,
        Record::DumpCreated { .. } => PacketKind::DumpCreated,
        Record::DumpLastModified { .. } => PacketKind::DumpLastModified,
        Record::TotalFrames { .. } => PacketKind::TotalFrames,
        Record::Rerecords { .. } => PacketKind::Rerecords,
        Record::SourceLink { .. } => PacketKind::SourceLink,
        Record::BlankFrames { .. } => PacketKind::BlankFrames,
        Record::Verified { .. } => PacketKind::Verified,
        Record::MemoryInit { .. } => PacketKind::MemoryInit,
        Record::GameIdentifier { .. } => PacketKind::GameIdentifier,
        Record::MovieLicense { .. } => PacketKind::MovieLicense,
        Record::MovieFile { .. } => PacketKind::MovieFile,
        Record::PortController { .. } => PacketKind::PortController,
        Record::NesLatchFilter { .. } => PacketKind::NesLatchFilter,
        Record::NesClockFilter { .. } => PacketKind::NesClockFilter,
        Record::NesOverread { .. } => PacketKind::NesOverread,
        Record::NesGameGenieCode { .. } => PacketKind::NesGameGenieCode,
        Record::SnesClockFilter { .. } => PacketKind::SnesClockFilter,
        Record::SnesOverread { .. } => PacketKind::SnesOverread,
        Record::SnesGameGenieCode { .. } => PacketKind::SnesGameGenieCode,
        Record::SnesLatchTrain { .. } => PacketKind::SnesLatchTrain,
        Record::GenesisGameGenieCode { .. } => PacketKind::GenesisGameGenieCode,
        Record::InputChunk { .. } => PacketKind::InputChunk,
        Record::InputMoment { .. } => PacketKind::InputMoment,
        Record::Transition { .. } => PacketKind::Transition,
        Record::LagFrameChunk { .. } => PacketKind::LagFrameChunk,
        Record::MovieTransition { .. } => PacketKind::MovieTransition,
        Record::Comment { .. } => PacketKind::Comment,
        Record::Experimental { .. } => PacketKind::Experimental,
        Record::Unspecified { .. } => PacketKind::Unspecified,
        Record::Unsupported { .. } => PacketKind::Unsupported,
    }
}

/// The key under which records of a kind are stored. The fallback kind has
/// no key of its own: each such record carries the key it was found under.
pub open spec fn key_of_kind(kind: PacketKind) -> Seq<u8> {
    match kind {
        PacketKind::ConsoleType => crate::codec::packets::KEY_CONSOLE_TYPE@,
        PacketKind::ConsoleRegion => crate::codec::packets::KEY_CONSOLE_REGION@,
        PacketKind::GameTitle => crate::codec::packets::KEY_GAME_TITLE@,
        PacketKind::RomName => crate::codec::packets::KEY_ROM_NAME@,
        PacketKind::Attribution => crate::codec::packets::KEY_ATTRIBUTION@,
        PacketKind::Category => crate::codec::packets::KEY_CATEGORY@,
        PacketKind::EmulatorName => crate::codec::packets::KEY_EMULATOR_NAME@,
        PacketKind::EmulatorVersion => crate::codec::packets::KEY_EMULATOR_VERSION@,
        PacketKind::EmulatorCore => crate::codec::packets::KEY_EMULATOR_CORE@,
        PacketKind::TasLastModified => crate::codec::packets::KEY_TAS_LAST_MODIFIED@,
        PacketKind::DumpCreated => crate::codec::packets::KEY_DUMP_CREATED@,
        PacketKind::DumpLastModified => crate::codec::packets::KEY_DUMP_LAST_MODIFIED@,
        PacketKind::TotalFrames => crate::codec::packets::KEY_TOTAL_FRAMES@,
        PacketKind::Rerecords => crate::codec::packets::KEY_RERECORDS@,
        PacketKind::SourceLink => crate::codec::packets::KEY_SOURCE_LINK@,
        PacketKind::BlankFrames => crate::codec::packets::KEY_BLANK_FRAMES@,
        PacketKind::Verified => crate::codec::packets::KEY_VERIFIED@,
        PacketKind::MemoryInit => crate::codec::packets::KEY_MEMORY_INIT@,
        PacketKind::GameIdentifier => crate::codec::packets::KEY_GAME_IDENTIFIER@,
        PacketKind::MovieLicense => crate::codec::packets::KEY_MOVIE_LICENSE@,
        PacketKind::MovieFile => crate::codec::packets::KEY_MOVIE_FILE@,
        PacketKind::PortController => crate::codec::packets::KEY_PORT_CONTROLLER@,
        PacketKind::NesLatchFilter => crate::codec::packets::KEY_NES_LATCH_FILTER@,
        PacketKind::NesClockFilter => crate::codec::packets::KEY_NES_CLOCK_FILTER@,
        PacketKind::NesOverread => crate::codec::packets::KEY_NES_OVERREAD@,
        PacketKind::NesGameGenieCode => crate::codec::packets::KEY_NES_GAME_GENIE_CODE@,
        PacketKind::SnesClockFilter => crate::codec::packets::KEY_SNES_CLOCK_FILTER@,
        PacketKind::SnesOverread => crate::codec::packets::KEY_SNES_OVERREAD@,
        PacketKind::SnesGameGenieCode => crate::codec::packets::KEY_SNES_GAME_GENIE_CODE@,
        PacketKind::SnesLatchTrain => crate::codec::packets::KEY_SNES_LATCH_TRAIN@,
        PacketKind::GenesisGameGenieCode => crate::codec::packets::KEY_GENESIS_GAME_GENIE_CODE@,
        PacketKind::InputChunk => crate::codec::packets::KEY_INPUT_CHUNK@,
        PacketKind::InputMoment => crate::codec::packets::KEY_INPUT_MOMENT@,
        PacketKind::Transition => crate::codec::packets::KEY_TRANSITION@,
        PacketKind::LagFrameChunk => crate::codec::packets::KEY_LAG_FRAME_CHUNK@,
        PacketKind::MovieTransition => crate::codec::packets::KEY_MOVIE_TRANSITION@,
        PacketKind::Comment => crate::codec::packets::KEY_COMMENT@,
        PacketKind::Experimental => crate::codec::packets::KEY_EXPERIMENTAL@,
        PacketKind::Unspecified => crate::codec::packets::KEY_UNSPECIFIED@,
        PacketKind::Unsupported => Seq::<u8>::empty(),
    }
}

/// The kind that a key selects. A key that the catalog does not list, or
/// that is not two bytes wide, selects the fallback.
pub open spec fn kind_of_key(key: Seq<u8>) -> PacketKind {
    if key.len() != 2 {
        PacketKind::Unsupported
    } else {
        match (key[0], key[1]) {
            (0x00, 0x01) => PacketKind::ConsoleType,
            (0x00, 0x02) => PacketKind::ConsoleRegion,
            (0x00, 0x03) => PacketKind::GameTitle,
            (0x00, 0x04) => PacketKind::RomName,
            (0x00, 0x05) => PacketKind::Attribution,
            (0x00, 0x06) => PacketKind::Category,
            (0x00, 0x07) => PacketKind::EmulatorName,
            (0x00, 0x08) => PacketKind::EmulatorVersion,
            (0x00, 0x09) => PacketKind::EmulatorCore,
            (0x00, 0x0A) => PacketKind::TasLastModified,
            (0x00, 0x0B) => PacketKind::DumpCreated,
            (0x00, 0x0C) => PacketKind::DumpLastModified,
            (0x00, 0x0D) => PacketKind::TotalFrames,
            (0x00, 0x0E) => PacketKind::Rerecords,
            (0x00, 0x0F) => PacketKind::SourceLink,
            (0x00, 0x10) => PacketKind::BlankFrames,
            (0x00, 0x11) => PacketKind::Verified,
            (0x00, 0x12) => PacketKind::MemoryInit,
            (0x00, 0x13) => PacketKind::GameIdentifier,
            (0x00, 0x14) => PacketKind::MovieLicense,
            (0x00, 0x15) => PacketKind::MovieFile,
            (0x00, 0xF0) => PacketKind::PortController,
            (0x01, 0x01) => PacketKind::NesLatchFilter,
            (0x01, 0x02) => PacketKind::NesClockFilter,
            (0x01, 0x03) => PacketKind::NesOverread,
            (0x01, 0x04) => PacketKind::NesGameGenieCode,
            (0x02, 0x02) => PacketKind::SnesClockFilter,
            (0x02, 0x03) => PacketKind::SnesOverread,
            (0x02, 0x04) => PacketKind::SnesGameGenieCode,
            (0x02, 0x05) => PacketKind::SnesLatchTrain,
            (0x08, 0x04) => PacketKind::GenesisGameGenieCode,
            (0xFE, 0x01) => PacketKind::InputChunk,
            (0xFE, 0x02) => PacketKind::InputMoment,
            (0xFE, 0x03) => PacketKind::Transition,
            (0xFE, 0x04) => PacketKind::LagFrameChunk,
            (0xFE, 0x05) => PacketKind::MovieTransition,
            (0xFF, 0x01) => PacketKind::Comment,
            (0xFF, 0xFE) => PacketKind::Experimental,
            (0xFF, 0xFF) => PacketKind::Unspecified,
            _ => PacketKind::Unsupported,
        }
    }
}

/// The key of a record.
pub open spec fn key_of(r: Record) -> Seq<u8> {
    match r {
        Record::Unsupported { key, .. } => key,
        _ => key_of_kind(kind_of(r)),
    }
}

/// The byte that stores a flag.
pub open spec fn flag_byte(flag: bool) -> u8 {
    if flag {
        1
    } else {
        0
    }
}

/// The 16-bit number stored at `at`.
pub open spec fn u16_at(body: Seq<u8>, at: int) -> u16 {
    be_value(body.skip(at).take(2)) as u16
}

/// The 32-bit number stored at `at`.
pub open spec fn u32_at(body: Seq<u8>, at: int) -> u32 {
    be_value(body.skip(at).take(4)) as u32
}

/// The 64-bit number stored at `at`.
pub open spec fn u64_at(body: Seq<u8>, at: int) -> u64 {
    be_value(body.skip(at).take(8)) as u64
}

/// The signed 16-bit number stored at `at`.
pub open spec fn i16_at(body: Seq<u8>, at: int) -> i16 {
    signed16(be_value(body.skip(at).take(2))) as i16
}

/// The signed 64-bit number stored at `at`.
pub open spec fn i64_at(body: Seq<u8>, at: int) -> i64 {
    signed64(be_value(body.skip(at).take(8))) as i64
}

/// The 64-bit numbers stored back to back in `body`. Bytes left over after
/// the last whole number are ignored.
pub open spec fn u64s_at(body: Seq<u8>) -> Seq<u64> {
    Seq::new((body.len() / 8) as nat, |i: int| u64_at(body, 8 * i))
}

/// 64-bit numbers stored back to back.
pub open spec fn u64s_bytes(points: Seq<u64>) -> Seq<u8>
    decreases points.len(),
{
    if points.len() == 0 {
        Seq::<u8>::empty()
    } else {
        u64s_bytes(points.drop_last()) + be_bytes(points.last() as nat, 8)
    }
}

/// What an optional run of bytes is stored as: the bytes, or nothing.
pub open spec fn option_bytes(data: Option<Seq<u8>>) -> Seq<u8> {
    match data {
        Some(bytes) => bytes,
        None => Seq::<u8>::empty(),
    }
}

/// The payload of a record in a container whose keys are `width` bytes
/// wide. The width matters to the two kinds that hold a frame of their own.
pub open spec fn payload_of(r: Record, width: nat) -> Seq<u8>
    decreases r, 0nat,
{
    match r {
        Record::ConsoleType { kind, custom } => seq![kind] + option_text_bytes(custom),
        Record::ConsoleRegion { region } => seq![region],
        Record::GameTitle { title } => bytes_of(title),
        Record::RomName { name } => bytes_of(name),
        Record::Attribution { kind, name } => seq![kind] + bytes_of(name),
        Record::Category { category } => bytes_of(category),
        Record::EmulatorName { name } => bytes_of(name),
        Record::EmulatorVersion { version } => bytes_of(version),
        Record::EmulatorCore { core } => bytes_of(core),
        Record::TasLastModified { epoch } => {
            be_bytes(bit_pattern(epoch as int, 0x1_0000_0000_0000_0000), 8)
        },
        Record::DumpCreated { epoch } => {
            be_bytes(bit_pattern(epoch as int, 0x1_0000_0000_0000_0000), 8)
        },
        Record::DumpLastModified { epoch } => {
            be_bytes(bit_pattern(epoch as int, 0x1_0000_0000_0000_0000), 8)
        },
        Record::TotalFrames { frames } => be_bytes(frames as nat, 4),
        Record::Rerecords { rerecords } => be_bytes(rerecords as nat, 4),
        Record::SourceLink { link } => bytes_of(link),
        Record::BlankFrames { frames } => be_bytes(bit_pattern(frames as int, 0x1_0000), 2),
        Record::Verified { verified } => seq![flag_byte(verified)],
        Record::MemoryInit { data_type, device, required, name, data } => {
            seq![data_type]
                + be_bytes(device as nat, 2)
                + seq![flag_byte(required)]
                + short_text_bytes(name)
                + option_bytes(data)
        },
        Record::GameIdentifier { kind, encoding, identifier } => {
            seq![kind]
                + seq![encoding]
                + identifier
        },
        Record::MovieLicense { license } => bytes_of(license),
        Record::MovieFile { name, data } => short_text_bytes(name) + data,
        Record::PortController { port, kind } => seq![port] + be_bytes(kind as nat, 2),
        Record::NesLatchFilter { time } => be_bytes(time as nat, 2),
        Record::NesClockFilter { time } => seq![time],
        Record::NesOverread { overread } => seq![flag_byte(overread)],
        Record::NesGameGenieCode { code } => bytes_of(code),
        Record::SnesClockFilter { time } => seq![time],
        Record::SnesOverread { overread } => seq![flag_byte(overread)],
        Record::SnesGameGenieCode { code } => bytes_of(code),
        Record::SnesLatchTrain { points } => u64s_bytes(points),
        Record::GenesisGameGenieCode { code } => bytes_of(code),
        Record::InputChunk { port, inputs } => seq![port] + inputs,
        Record::InputMoment { port, index_type, index, inputs } => {
            seq![port]
                + seq![index_type]
                + be_bytes(index as nat, 8)
                + inputs
        },
        Record::Transition { index_type, index, transition_type, packet } => {
            seq![index_type] + be_bytes(index as nat, 8) + seq![transition_type] + match packet {
                Some(inner) => frame_of(*inner, width),
                None => Seq::<u8>::empty(),
            }
        },
        Record::LagFrameChunk { movie_frame, count } => {
            be_bytes(movie_frame as nat, 4)
                + be_bytes(count as nat, 4)
        },
        Record::MovieTransition { movie_frame, transition_type, packet } => {
            be_bytes(movie_frame as nat, 4) + seq![transition_type] + match packet {
                Some(inner) => frame_of(*inner, width),
                None => Seq::<u8>::empty(),
            }
        },
        Record::Comment { comment } => bytes_of(comment),
        Record::Experimental { experimental } => seq![flag_byte(experimental)],
        Record::Unspecified { payload } => payload,
        Record::Unsupported { payload, .. } => payload,
    }
}

/// The frame that stores a record.
pub open spec fn frame_of(r: Record, width: nat) -> Seq<u8>
    decreases r, 1nat,
{
    frame(key_of(r), width, payload_of(r, width))
}

/// The outcome of a payload that does not fit its kind. The fault carries
/// the key, and the buffer that the payload was read from.
pub open spec fn invalid(key: Seq<u8>, whole: Seq<u8>) -> Result<Record, Fault> {
    Err(Fault::InvalidPayload { key, payload: whole })
}

/// A payload of kind `ConsoleType`: one byte of kind and, where that byte
/// is 0xFF, the name of a console that the catalog does not list.
pub open spec fn parse_console_type(key: Seq<u8>, body: Seq<u8>, whole: Seq<u8>) -> Result<
    Record,
    Fault,
> {
    if body.len() < 1 {
        invalid(key, whole)
    } else {
        Ok(
            Record::ConsoleType {
                kind: body[0],
                custom: if body[0] == 0xFF {
                    Some(text_of(body.skip(1)))
                } else {
                    None
                },
            },
        )
    }
}

/// A payload of kind `ConsoleRegion`: exactly 1 byte.
pub open spec fn parse_console_region(key: Seq<u8>, body: Seq<u8>, whole: Seq<u8>) -> Result<Record, Fault> {
    if body.len() != 1 {
        invalid(key, whole)
    } else {
        Ok(Record::ConsoleRegion { region: body[0] })
    }
}

/// A payload of kind `GameTitle`: any bytes at all.
pub open spec fn parse_game_title(key: Seq<u8>, body: Seq<u8>, whole: Seq<u8>) -> Result<Record, Fault> {
    Ok(Record::GameTitle { title: text_of(body) })
}

/// A payload of kind `RomName`: any bytes at all.
pub open spec fn parse_rom_name(key: Seq<u8>, body: Seq<u8>, whole: Seq<u8>) -> Result<Record, Fault> {
    Ok(Record::RomName { name: text_of(body) })
}

/// A payload of kind `Attribution`: at least 1 byte.
pub open spec fn parse_attribution(key: Seq<u8>, body: Seq<u8>, whole: Seq<u8>) -> Result<Record, Fault> {
    if body.len() < 1 {
        invalid(key, whole)
    } else {
        Ok(Record::Attribution { kind: body[0], name: text_of(body.skip(1)) })
    }
}

/// A payload of kind `Category`: any bytes at all.
pub open spec fn parse_category(key: Seq<u8>, body: Seq<u8>, whole: Seq<u8>) -> Result<Record, Fault> {
    Ok(Record::Category { category: text_of(body) })
}

/// A payload of kind `EmulatorName`: any bytes at all.
pub open spec fn parse_emulator_name(key: Seq<u8>, body: Seq<u8>, whole: Seq<u8>) -> Result<Record, Fault> {
    Ok(Record::EmulatorName { name: text_of(body) })
}

/// A payload of kind `EmulatorVersion`: any bytes at all.
pub open spec fn parse_emulator_version(key: Seq<u8>, body: Seq<u8>, whole: Seq<u8>) -> Result<Record, Fault> {
    Ok(Record::EmulatorVersion { version: text_of(body) })
}

/// A payload of kind `EmulatorCore`: any bytes at all.
pub open spec fn parse_emulator_core(key: Seq<u8>, body: Seq<u8>, whole: Seq<u8>) -> Result<Record, Fault> {
    Ok(Record::EmulatorCore { core: text_of(body) })
}

/// A payload of kind `TasLastModified`: exactly 8 bytes.
pub open spec fn parse_tas_last_modified(key: Seq<u8>, body: Seq<u8>, whole: Seq<u8>) -> Result<Record, Fault> {
    if body.len() != 8 {
        invalid(key, whole)
    } else {
        Ok(Record::TasLastModified { epoch: i64_at(body, 0) })
    }
}

/// A payload of kind `DumpCreated`: exactly 8 bytes.
pub open spec fn parse_dump_created(key: Seq<u8>, body: Seq<u8>, whole: Seq<u8>) -> Result<Record, Fault> {
    if body.len() != 8 {
        invalid(key, whole)
    } else {
        Ok(Record::DumpCreated { epoch: i64_at(body, 0) })
    }
}

/// A payload of kind `DumpLastModified`: exactly 8 bytes.
pub open spec fn parse_dump_last_modified(key: Seq<u8>, body: Seq<u8>, whole: Seq<u8>) -> Result<Record, Fault> {
    if body.len() != 8 {
        invalid(key, whole)
    } else {
        Ok(Record::DumpLastModified { epoch: i64_at(body, 0) })
    }
}

/// A payload of kind `TotalFrames`: exactly 4 bytes.
pub open spec fn parse_total_frames(key: Seq<u8>, body: Seq<u8>, whole: Seq<u8>) -> Result<Record, Fault> {
    if body.len() != 4 {
        invalid(key, whole)
    } else {
        Ok(Record::TotalFrames { frames: u32_at(body, 0) })
    }
}

/// A payload of kind `Rerecords`: exactly 4 bytes.
pub open spec fn parse_rerecords(key: Seq<u8>, body: Seq<u8>, whole: Seq<u8>) -> Result<Record, Fault> {
    if body.len() != 4 {
        invalid(key, whole)
    } else {
        Ok(Record::Rerecords { rerecords: u32_at(body, 0) })
    }
}

/// A payload of kind `SourceLink`: any bytes at all.
pub open spec fn parse_source_link(key: Seq<u8>, body: Seq<u8>, whole: Seq<u8>) -> Result<Record, Fault> {
    Ok(Record::SourceLink { link: text_of(body) })
}

/// A payload of kind `BlankFrames`: exactly 2 bytes.
pub open spec fn parse_blank_frames(key: Seq<u8>, body: Seq<u8>, whole: Seq<u8>) -> Result<Record, Fault> {
    if body.len() != 2 {
        invalid(key, whole)
    } else {
        Ok(Record::BlankFrames { frames: i16_at(body, 0) })
    }
}

/// A payload of kind `Verified`: exactly 1 byte.
pub open spec fn parse_verified(key: Seq<u8>, body: Seq<u8>, whole: Seq<u8>) -> Result<Record, Fault> {
    if body.len() != 1 {
        invalid(key, whole)
    } else {
        Ok(Record::Verified { verified: body[0] > 0 })
    }
}

/// A payload of kind `MemoryInit`: five bytes of fixed fields, the last of
/// them the length of the name that follows, and, where the first byte is
/// 0xFF, the initial contents of the memory.
pub open spec fn parse_memory_init(key: Seq<u8>, body: Seq<u8>, whole: Seq<u8>) -> Result<
    Record,
    Fault,
> {
    if body.len() < 5 || body.len() < 5 + body[4] {
        invalid(key, whole)
    } else {
        let after = 5 + body[4];
        Ok(
            Record::MemoryInit {
                data_type: body[0],
                device: u16_at(body, 1),
                required: body[3] > 0,
                name: text_of(body.skip(5).take(body[4] as int)),
                data: if body[0] == 0xFF {
                    Some(body.skip(after))
                } else {
                    None
                },
            },
        )
    }
}

/// A payload of kind `GameIdentifier`: at least 2 bytes.
pub open spec fn parse_game_identifier(key: Seq<u8>, body: Seq<u8>, whole: Seq<u8>) -> Result<Record, Fault> {
    if body.len() < 2 {
        invalid(key, whole)
    } else {
        Ok(Record::GameIdentifier {
            kind: body[0],
            encoding: body[1],
            identifier: body.skip(2),
        })
    }
}

/// A payload of kind `MovieLicense`: any bytes at all.
pub open spec fn parse_movie_license(key: Seq<u8>, body: Seq<u8>, whole: Seq<u8>) -> Result<Record, Fault> {
    Ok(Record::MovieLicense { license: text_of(body) })
}

/// A payload of kind `MovieFile`: the length of a name, the name, and the
/// file's contents.
pub open spec fn parse_movie_file(key: Seq<u8>, body: Seq<u8>, whole: Seq<u8>) -> Result<
    Record,
    Fault,
> {
    if body.len() < 1 || body.len() < 1 + body[0] {
        invalid(key, whole)
    } else {
        Ok(
            Record::MovieFile {
                name: text_of(body.skip(1).take(body[0] as int)),
                data: body.skip(1 + body[0]),
            },
        )
    }
}

/// A payload of kind `PortController`: exactly 3 bytes.
pub open spec fn parse_port_controller(key: Seq<u8>, body: Seq<u8>, whole: Seq<u8>) -> Result<Record, Fault> {
    if body.len() != 3 {
        invalid(key, whole)
    } else {
        Ok(Record::PortController { port: body[0], kind: u16_at(body, 1) })
    }
}

/// A payload of kind `NesLatchFilter`: exactly 2 bytes.
pub open spec fn parse_nes_latch_filter(key: Seq<u8>, body: Seq<u8>, whole: Seq<u8>) -> Result<Record, Fault> {
    if body.len() != 2 {
        invalid(key, whole)
    } else {
        Ok(Record::NesLatchFilter { time: u16_at(body, 0) })
    }
}

/// A payload of kind `NesClockFilter`: exactly 1 byte.
pub open spec fn parse_nes_clock_filter(key: Seq<u8>, body: Seq<u8>, whole: Seq<u8>) -> Result<Record, Fault> {
    if body.len() != 1 {
        invalid(key, whole)
    } else {
        Ok(Record::NesClockFilter { time: body[0] })
    }
}

/// A payload of kind `NesOverread`: exactly 1 byte.
pub open spec fn parse_nes_overread(key: Seq<u8>, body: Seq<u8>, whole: Seq<u8>) -> Result<Record, Fault> {
    if body.len() != 1 {
        invalid(key, whole)
    } else {
        Ok(Record::NesOverread { overread: body[0] > 0 })
    }
}

/// A payload of kind `NesGameGenieCode`: any bytes at all.
pub open spec fn parse_nes_game_genie_code(key: Seq<u8>, body: Seq<u8>, whole: Seq<u8>) -> Result<Record, Fault> {
    Ok(Record::NesGameGenieCode { code: text_of(body) })
}

/// A payload of kind `SnesClockFilter`: exactly 1 byte.
pub open spec fn parse_snes_clock_filter(key: Seq<u8>, body: Seq<u8>, whole: Seq<u8>) -> Result<Record, Fault> {
    if body.len() != 1 {
        invalid(key, whole)
    } else {
        Ok(Record::SnesClockFilter { time: body[0] })
    }
}

/// A payload of kind `SnesOverread`: exactly 1 byte.
pub open spec fn parse_snes_overread(key: Seq<u8>, body: Seq<u8>, whole: Seq<u8>) -> Result<Record, Fault> {
    if body.len() != 1 {
        invalid(key, whole)
    } else {
        Ok(Record::SnesOverread { overread: body[0] > 0 })
    }
}

/// A payload of kind `SnesGameGenieCode`: any bytes at all.
pub open spec fn parse_snes_game_genie_code(key: Seq<u8>, body: Seq<u8>, whole: Seq<u8>) -> Result<Record, Fault> {
    Ok(Record::SnesGameGenieCode { code: text_of(body) })
}

/// A payload of kind `SnesLatchTrain`: 64-bit numbers back to back.
pub open spec fn parse_snes_latch_train(key: Seq<u8>, body: Seq<u8>, whole: Seq<u8>) -> Result<
    Record,
    Fault,
> {
    Ok(Record::SnesLatchTrain { points: u64s_at(body) })
}

/// A payload of kind `GenesisGameGenieCode`: any bytes at all.
pub open spec fn parse_genesis_game_genie_code(key: Seq<u8>, body: Seq<u8>, whole: Seq<u8>) -> Result<Record, Fault> {
    Ok(Record::GenesisGameGenieCode { code: text_of(body) })
}

/// A payload of kind `InputChunk`: at least 1 byte.
pub open spec fn parse_input_chunk(key: Seq<u8>, body: Seq<u8>, whole: Seq<u8>) -> Result<Record, Fault> {
    if body.len() < 1 {
        invalid(key, whole)
    } else {
        Ok(Record::InputChunk { port: body[0], inputs: body.skip(1) })
    }
}

/// A payload of kind `InputMoment`: at least 10 bytes.
pub open spec fn parse_input_moment(key: Seq<u8>, body: Seq<u8>, whole: Seq<u8>) -> Result<Record, Fault> {
    if body.len() < 10 {
        invalid(key, whole)
    } else {
        Ok(Record::InputMoment {
            port: body[0],
            index_type: body[1],
            index: u64_at(body, 2),
            inputs: body.skip(10),
        })
    }
}

/// A payload of kind `LagFrameChunk`: exactly 8 bytes.
pub open spec fn parse_lag_frame_chunk(key: Seq<u8>, body: Seq<u8>, whole: Seq<u8>) -> Result<Record, Fault> {
    if body.len() != 8 {
        invalid(key, whole)
    } else {
        Ok(Record::LagFrameChunk { movie_frame: u32_at(body, 0), count: u32_at(body, 4) })
    }
}

/// A payload of kind `Comment`: any bytes at all.
pub open spec fn parse_comment(key: Seq<u8>, body: Seq<u8>, whole: Seq<u8>) -> Result<Record, Fault> {
    Ok(Record::Comment { comment: text_of(body) })
}

/// A payload of kind `Experimental`: exactly 1 byte.
pub open spec fn parse_experimental(key: Seq<u8>, body: Seq<u8>, whole: Seq<u8>) -> Result<Record, Fault> {
    if body.len() != 1 {
        invalid(key, whole)
    } else {
        Ok(Record::Experimental { experimental: body[0] > 0 })
    }
}

/// A payload of kind `Unspecified`: kept as it is, the whole buffer.
pub open spec fn parse_unspecified(key: Seq<u8>, body: Seq<u8>, whole: Seq<u8>) -> Result<
    Record,
    Fault,
> {
    Ok(Record::Unspecified { payload: whole })
}

/// A payload under a key that the catalog does not list: kept as it is,
/// the whole buffer, together with the key.
pub open spec fn parse_unsupported(key: Seq<u8>, body: Seq<u8>, whole: Seq<u8>) -> Result<
    Record,
    Fault,
> {
    Ok(Record::Unsupported { key, payload: whole })
}

/// A run of bytes split at the bounds of its first frame.
pub enum Split {
    /// The framing is broken: the fault, and how far reading got.
    Cut { fault: Fault, at: nat },
    /// A whole frame: its key, its payload, and its length in all.
    Whole { key: Seq<u8>, payload: Seq<u8>, len: nat },
}

/// Splits off the first frame of `input`, where keys are `width` bytes wide.
/// The length may be written in more bytes than it needs, but not in more
/// than eight.
pub open spec fn split_frame(input: Seq<u8>, width: nat) -> Split {
    if input.len() < width {
        Split::Cut { fault: Fault::MissingKey, at: 0 }
    } else if input.len() < width + 1 {
        Split::Cut { fault: Fault::MissingPayloadLength, at: width }
    } else {
        let exp = input[width as int];
        let start = width + 1 + exp;
        if exp > 8 {
            Split::Cut { fault: Fault::UnsupportedExponent(exp), at: width + 1 }
        } else if input.len() < start {
            Split::Cut { fault: Fault::MissingPayloadLength, at: width + 1 }
        } else {
            let len = be_value(input.skip(width + 1 as int).take(exp as int));
            if input.len() < start + len {
                Split::Cut { fault: Fault::MissingPayloadLength, at: (width + 1 + exp) as nat }
            } else {
                Split::Whole {
                    key: input.take(width as int),
                    payload: input.skip(start).take(len as int),
                    len: (start + len) as nat,
                }
            }
        }
    }
}

/// How many bytes of its input a split has used up.
pub open spec fn consumed(split: Split) -> nat {
    match split {
        Split::Cut { at, .. } => at,
        Split::Whole { len, .. } => len,
    }
}

/// The width of the keys of a frame held inside a payload: the width of the
/// key that the payload itself came under.
pub open spec fn inner_width(key: Seq<u8>) -> nat {
    key.len() % 256
}

/// A payload of kind `Transition`: ten bytes of fixed fields, the last of
/// them the type, and, where the type is 0xFF, one more frame. What follows
/// that frame is ignored; a fault in it is the fault of the whole.
pub open spec fn parse_transition(key: Seq<u8>, body: Seq<u8>, whole: Seq<u8>) -> Result<
    Record,
    Fault,
>
    decreases body.len(), 0nat,
{
    if body.len() < 10 {
        invalid(key, whole)
    } else if body[9] != 0xFF {
        Ok(
            Record::Transition {
                index_type: body[0],
                index: u64_at(body, 1),
                transition_type: body[9],
                packet: None,
            },
        )
    } else {
        match parse_frame(body.skip(10), inner_width(key)) {
            Ok(inner) => Ok(
                Record::Transition {
                    index_type: body[0],
                    index: u64_at(body, 1),
                    transition_type: body[9],
                    packet: Some(Box::new(inner)),
                },
            ),
            Err(fault) => Err(fault),
        }
    }
}

/// A payload of kind `MovieTransition`: five bytes of fixed fields, the last
/// of them the type, and, where the type is 0xFF, one more frame.
pub open spec fn parse_movie_transition(key: Seq<u8>, body: Seq<u8>, whole: Seq<u8>) -> Result<
    Record,
    Fault,
>
    decreases body.len(), 0nat,
{
    if body.len() < 5 {
        invalid(key, whole)
    } else if body[4] != 0xFF {
        Ok(
            Record::MovieTransition {
                movie_frame: u32_at(body, 0),
                transition_type: body[4],
                packet: None,
            },
        )
    } else {
        match parse_frame(body.skip(5), inner_width(key)) {
            Ok(inner) => Ok(
                Record::MovieTransition {
                    movie_frame: u32_at(body, 0),
                    transition_type: body[4],
                    packet: Some(Box::new(inner)),
                },
            ),
            Err(fault) => Err(fault),
        }
    }
}

/// The record that a payload holds when read as the given kind. `body` is
/// what is read; `whole` is the buffer it is part of, which the opaque kinds
/// keep and a fault reports.
pub open spec fn parse_as(kind: PacketKind, key: Seq<u8>, body: Seq<u8>, whole: Seq<u8>) -> Result<
    Record,
    Fault,
>
    decreases body.len(), 1nat,
{
    match kind {
        PacketKind::ConsoleType => parse_console_type(key, body, whole),
        PacketKind::ConsoleRegion => parse_console_region(key, body, whole),
        PacketKind::GameTitle => parse_game_title(key, body, whole),
        PacketKind::RomName => parse_rom_name(key, body, whole),
        PacketKind::Attribution => parse_attribution(key, body, whole),
        PacketKind::Category => parse_category(key, body, whole),
        PacketKind::EmulatorName => parse_emulator_name(key, body, whole),
        PacketKind::EmulatorVersion => parse_emulator_version(key, body, whole),
        PacketKind::EmulatorCore => parse_emulator_core(key, body, whole),
        PacketKind::TasLastModified => parse_tas_last_modified(key, body, whole),
        PacketKind::DumpCreated => parse_dump_created(key, body, whole),
        PacketKind::DumpLastModified => parse_dump_last_modified(key, body, whole),
        PacketKind::TotalFrames => parse_total_frames(key, body, whole),
        PacketKind::Rerecords => parse_rerecords(key, body, whole),
        PacketKind::SourceLink => parse_source_link(key, body, whole),
        PacketKind::BlankFrames => parse_blank_frames(key, body, whole),
        PacketKind::Verified => parse_verified(key, body, whole),
        PacketKind::MemoryInit => parse_memory_init(key, body, whole),
        PacketKind::GameIdentifier => parse_game_identifier(key, body, whole),
        PacketKind::MovieLicense => parse_movie_license(key, body, whole),
        PacketKind::MovieFile => parse_movie_file(key, body, whole),
        PacketKind::PortController => parse_port_controller(key, body, whole),
        PacketKind::NesLatchFilter => parse_nes_latch_filter(key, body, whole),
        PacketKind::NesClockFilter => parse_nes_clock_filter(key, body, whole),
        PacketKind::NesOverread => parse_nes_overread(key, body, whole),
        PacketKind::NesGameGenieCode => parse_nes_game_genie_code(key, body, whole),
        PacketKind::SnesClockFilter => parse_snes_clock_filter(key, body, whole),
        PacketKind::SnesOverread => parse_snes_overread(key, body, whole),
        PacketKind::SnesGameGenieCode => parse_snes_game_genie_code(key, body, whole),
        PacketKind::SnesLatchTrain => parse_snes_latch_train(key, body, whole),
        PacketKind::GenesisGameGenieCode => parse_genesis_game_genie_code(key, body, whole),
        PacketKind::InputChunk => parse_input_chunk(key, body, whole),
        PacketKind::InputMoment => parse_input_moment(key, body, whole),
        PacketKind::Transition => parse_transition(key, body, whole),
        PacketKind::LagFrameChunk => parse_lag_frame_chunk(key, body, whole),
        PacketKind::MovieTransition => parse_movie_transition(key, body, whole),
        PacketKind::Comment => parse_comment(key, body, whole),
        PacketKind::Experimental => parse_experimental(key, body, whole),
        PacketKind::Unspecified => parse_unspecified(key, body, whole),
        PacketKind::Unsupported => parse_unsupported(key, body, whole),
    }
}

/// The record that a payload holds under its key.
pub open spec fn parse_payload(key: Seq<u8>, body: Seq<u8>) -> Result<Record, Fault>
    decreases body.len(), 2nat,
{
    parse_as(kind_of_key(key), key, body, body)
}

/// The record that the first frame of `input` holds.
pub open spec fn parse_frame(input: Seq<u8>, width: nat) -> Result<Record, Fault>
    decreases input.len(), 3nat,
{
    match split_frame(input, width) {
        Split::Cut { fault, .. } => Err(fault),
        Split::Whole { key, payload, .. } => parse_payload(key, payload),
    }
}

} // verus!
