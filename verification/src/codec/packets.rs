//! The closed catalog of record kinds: one type per kind, the variant that
//! holds any of them, and the rules that read and write each.

pub mod console;
pub mod input;
pub mod metadata;
pub mod opaque;

pub use self::console::{
    GenesisGameGenieCode, NesClockFilter, NesGameGenieCode, NesLatchFilter, NesOverread,
    SnesClockFilter, SnesGameGenieCode, SnesLatchTrain, SnesOverread,
};
pub use self::input::{InputChunk, InputMoment, LagFrameChunk, MovieTransition, Transition};
pub use self::metadata::{
    Attribution, BlankFrames, Category, ConsoleRegion, ConsoleType, DumpCreated, DumpLastModified,
    EmulatorCore, EmulatorName, EmulatorVersion, GameIdentifier, GameTitle, MemoryInit, MovieFile,
    MovieLicense, PortController, Rerecords, RomName, SourceLink, TasLastModified, TotalFrames,
    Verified,
};
pub use self::opaque::{Comment, Experimental, Unspecified, Unsupported};

use self::input::{
    clone_movie_transition, clone_transition, decode_movie_transition, decode_transition,
    encode_movie_transition, encode_transition, movie_transition_model, transition_model,
};
use crate::codec::model::{
    consumed, frame_of, key_of, kind_of, kind_of_key, parse_as, parse_frame, split_frame, Fault,
    Record,
};
use crate::codec::reader::Reader;
use vstd::prelude::*;
use vstd::slice::slice_to_vec;
use vstd::string::StringExecFns;

verus! {

pub const KEY_CONSOLE_TYPE: [u8; 2] = [0x00, 0x01];

pub const KEY_CONSOLE_REGION: [u8; 2] = [0x00, 0x02];

pub const KEY_GAME_TITLE: [u8; 2] = [0x00, 0x03];

pub const KEY_ROM_NAME: [u8; 2] = [0x00, 0x04];

pub const KEY_ATTRIBUTION: [u8; 2] = [0x00, 0x05];

pub const KEY_CATEGORY: [u8; 2] = [0x00, 0x06];

pub const KEY_EMULATOR_NAME: [u8; 2] = [0x00, 0x07];

pub const KEY_EMULATOR_VERSION: [u8; 2] = [0x00, 0x08];

pub const KEY_EMULATOR_CORE: [u8; 2] = [0x00, 0x09];

pub const KEY_TAS_LAST_MODIFIED: [u8; 2] = [0x00, 0x0A];

pub const KEY_DUMP_CREATED: [u8; 2] = [0x00, 0x0B];

pub const KEY_DUMP_LAST_MODIFIED: [u8; 2] = [0x00, 0x0C];

pub const KEY_TOTAL_FRAMES: [u8; 2] = [0x00, 0x0D];

pub const KEY_RERECORDS: [u8; 2] = [0x00, 0x0E];

pub const KEY_SOURCE_LINK: [u8; 2] = [0x00, 0x0F];

pub const KEY_BLANK_FRAMES: [u8; 2] = [0x00, 0x10];

pub const KEY_VERIFIED: [u8; 2] = [0x00, 0x11];

pub const KEY_MEMORY_INIT: [u8; 2] = [0x00, 0x12];

pub const KEY_GAME_IDENTIFIER: [u8; 2] = [0x00, 0x13];

pub const KEY_MOVIE_LICENSE: [u8; 2] = [0x00, 0x14];

pub const KEY_MOVIE_FILE: [u8; 2] = [0x00, 0x15];

pub const KEY_PORT_CONTROLLER: [u8; 2] = [0x00, 0xF0];

pub const KEY_NES_LATCH_FILTER: [u8; 2] = [0x01, 0x01];

pub const KEY_NES_CLOCK_FILTER: [u8; 2] = [0x01, 0x02];

pub const KEY_NES_OVERREAD: [u8; 2] = [0x01, 0x03];

pub const KEY_NES_GAME_GENIE_CODE: [u8; 2] = [0x01, 0x04];

pub const KEY_SNES_CLOCK_FILTER: [u8; 2] = [0x02, 0x02];

pub const KEY_SNES_OVERREAD: [u8; 2] = [0x02, 0x03];

pub const KEY_SNES_GAME_GENIE_CODE: [u8; 2] = [0x02, 0x04];

pub const KEY_SNES_LATCH_TRAIN: [u8; 2] = [0x02, 0x05];

pub const KEY_GENESIS_GAME_GENIE_CODE: [u8; 2] = [0x08, 0x04];

pub const KEY_INPUT_CHUNK: [u8; 2] = [0xFE, 0x01];

pub const KEY_INPUT_MOMENT: [u8; 2] = [0xFE, 0x02];

pub const KEY_TRANSITION: [u8; 2] = [0xFE, 0x03];

pub const KEY_LAG_FRAME_CHUNK: [u8; 2] = [0xFE, 0x04];

pub const KEY_MOVIE_TRANSITION: [u8; 2] = [0xFE, 0x05];

pub const KEY_COMMENT: [u8; 2] = [0xFF, 0x01];

pub const KEY_EXPERIMENTAL: [u8; 2] = [0xFF, 0xFE];

pub const KEY_UNSPECIFIED: [u8; 2] = [0xFF, 0xFF];

/// Why a frame could not be read. `InvalidPayload` is the one error past
/// which reading can go on: the frame's bounds held, its content did not.
#[derive(Debug)]
pub enum PacketError {
    MissingKey,
    MismatchedKey,
    MissingPayloadLength,
    UnsupportedExponent(u8),
    InvalidPayload { key: Vec<u8>, payload: Vec<u8> },
}

impl View for PacketError {
    type V = Fault;

    open spec fn view(&self) -> Fault {
        match self {
            PacketError::MissingKey => Fault::MissingKey,
            PacketError::MismatchedKey => Fault::MismatchedKey,
            PacketError::MissingPayloadLength => Fault::MissingPayloadLength,
            PacketError::UnsupportedExponent(exp) => Fault::UnsupportedExponent(*exp),
            PacketError::InvalidPayload { key, payload } => Fault::InvalidPayload {
                key: key@,
                payload: payload@,
            },
        }
    }
}

impl PacketError {
    /// The error for a payload that does not fit its kind: the key, and the
    /// whole of the buffer that the payload was read from.
    pub fn invalid(key: &[u8], payload: Reader) -> (e: Self)
        ensures
            e@ == (Fault::InvalidPayload { key: key@, payload: payload.bytes() }),
    {
        Self::InvalidPayload { key: slice_to_vec(key), payload: payload.to_vec() }
    }
}

/// An optional buffer as an optional run of bytes.
pub open spec fn option_view(data: Option<Vec<u8>>) -> Option<Seq<u8>> {
    match data {
        Some(bytes) => Some(bytes@),
        None => None,
    }
}

/// What reading came to, as the model has it.
pub open spec fn outcome<T: View<V = Record>>(r: Result<T, PacketError>) -> Result<Record, Fault> {
    match r {
        Ok(value) => Ok(value@),
        Err(e) => Err(e@),
    }
}

/// The rule that reads the payload of one kind.
pub trait Decode: Sized + View<V = Record> {
    /// The record that a payload of this kind holds, or the fault in it.
    /// `body` is what is left to read; `whole` is the buffer it is part of.
    spec fn parsed(key: Seq<u8>, body: Seq<u8>, whole: Seq<u8>) -> Result<Record, Fault>;

    /// Reads a payload from the position of `payload` on.
    fn decode(key: &[u8], payload: Reader) -> (r: Result<Self, PacketError>)
        requires
            payload.has(0),
        ensures
            outcome(r) == Self::parsed(key@, payload.rest(), payload.bytes()),
    ;

    fn kind(&self) -> (kind: PacketKind)
        ensures
            kind == kind_of(self@),
    ;

    fn name(&self) -> (name: String)
        ensures
            name@ == kind_name(kind_of(self@)),
    {
        self.kind().to_string()
    }
}

/// The rule that writes a record of one kind.
pub trait Encode: View<V = Record> {
    /// The record's frame, for a container whose keys are `keylen` bytes wide.
    fn encode(&self, keylen: u8) -> (data: Vec<u8>)
        ensures
            data@ == frame_of(self@, keylen as nat),
    ;

    fn key(&self) -> (key: Vec<u8>)
        ensures
            key@ == key_of(self@),
    ;
}

/// One record of any kind.
#[derive(Debug, PartialEq)]
#[non_exhaustive]
pub enum Packet {
    ConsoleType(ConsoleType),
    ConsoleRegion(ConsoleRegion),
    GameTitle(GameTitle),
    RomName(RomName),
    Attribution(Attribution),
    Category(Category),
    EmulatorName(EmulatorName),
    EmulatorVersion(EmulatorVersion),
    EmulatorCore(EmulatorCore),
    TasLastModified(TasLastModified),
    DumpCreated(DumpCreated),
    DumpLastModified(DumpLastModified),
    TotalFrames(TotalFrames),
    Rerecords(Rerecords),
    SourceLink(SourceLink),
    BlankFrames(BlankFrames),
    Verified(Verified),
    MemoryInit(MemoryInit),
    GameIdentifier(GameIdentifier),
    MovieLicense(MovieLicense),
    MovieFile(MovieFile),
    PortController(PortController),
    NesLatchFilter(NesLatchFilter),
    NesClockFilter(NesClockFilter),
    NesOverread(NesOverread),
    NesGameGenieCode(NesGameGenieCode),
    SnesClockFilter(SnesClockFilter),
    SnesOverread(SnesOverread),
    SnesGameGenieCode(SnesGameGenieCode),
    SnesLatchTrain(SnesLatchTrain),
    GenesisGameGenieCode(GenesisGameGenieCode),
    InputChunk(InputChunk),
    InputMoment(InputMoment),
    Transition(Transition),
    LagFrameChunk(LagFrameChunk),
    MovieTransition(MovieTransition),
    Comment(Comment),
    Experimental(Experimental),
    Unspecified(Unspecified),
    Unsupported(Unsupported),
}

/// The record that a packet stands for.
pub open spec fn packet_model(p: Packet) -> Record
    decreases p,
{
    match p {
        Packet::ConsoleType(packet) => packet@,
        Packet::ConsoleRegion(packet) => packet@,
        Packet::GameTitle(packet) => packet@,
        Packet::RomName(packet) => packet@,
        Packet::Attribution(packet) => packet@,
        Packet::Category(packet) => packet@,
        Packet::EmulatorName(packet) => packet@,
        Packet::EmulatorVersion(packet) => packet@,
        Packet::EmulatorCore(packet) => packet@,
        Packet::TasLastModified(packet) => packet@,
        Packet::DumpCreated(packet) => packet@,
        Packet::DumpLastModified(packet) => packet@,
        Packet::TotalFrames(packet) => packet@,
        Packet::Rerecords(packet) => packet@,
        Packet::SourceLink(packet) => packet@,
        Packet::BlankFrames(packet) => packet@,
        Packet::Verified(packet) => packet@,
        Packet::MemoryInit(packet) => packet@,
        Packet::GameIdentifier(packet) => packet@,
        Packet::MovieLicense(packet) => packet@,
        Packet::MovieFile(packet) => packet@,
        Packet::PortController(packet) => packet@,
        Packet::NesLatchFilter(packet) => packet@,
        Packet::NesClockFilter(packet) => packet@,
        Packet::NesOverread(packet) => packet@,
        Packet::NesGameGenieCode(packet) => packet@,
        Packet::SnesClockFilter(packet) => packet@,
        Packet::SnesOverread(packet) => packet@,
        Packet::SnesGameGenieCode(packet) => packet@,
        Packet::SnesLatchTrain(packet) => packet@,
        Packet::GenesisGameGenieCode(packet) => packet@,
        Packet::InputChunk(packet) => packet@,
        Packet::InputMoment(packet) => packet@,
        Packet::Transition(packet) => transition_model(packet),
        Packet::LagFrameChunk(packet) => packet@,
        Packet::MovieTransition(packet) => movie_transition_model(packet),
        Packet::Comment(packet) => packet@,
        Packet::Experimental(packet) => packet@,
        Packet::Unspecified(packet) => packet@,
        Packet::Unsupported(packet) => packet@,
    }
}

impl View for Packet {
    type V = Record;

    open spec fn view(&self) -> Record {
        packet_model(*self)
    }
}

/// The kind that a key selects.
fn kind_for_key(key: &[u8]) -> (kind: PacketKind)
    ensures
        kind == kind_of_key(key@),
{
    if key.len() != 2 {
        return PacketKind::Unsupported;
    }
    match (key[0], key[1]) {
        (0x00, 0x01) => PacketKind::ConsoleType,
        (0x00, 0x02) => PacketKind::ConsoleRegion,
        (0x00, 0x03) => PacketKind::GameTitle,
        (0x00, 0x04) => PacketKind::RomName,
        (0x00, 0x05) => PacketKind::Attribution,
        (0x00, 0x06) => PacketKind::Category,
        (0x00, 0x07) => PacketKind::EmulatorName,
        (0x00, 0x08) => PacketKind::EmulatorVersion,
        (0x00, 0x09) => PacketKind::EmulatorCore,
        (0x00, 0x0A) => PacketKind::TasLastModified,
        (0x00, 0x0B) => PacketKind::DumpCreated,
        (0x00, 0x0C) => PacketKind::DumpLastModified,
        (0x00, 0x0D) => PacketKind::TotalFrames,
        (0x00, 0x0E) => PacketKind::Rerecords,
        (0x00, 0x0F) => PacketKind::SourceLink,
        (0x00, 0x10) => PacketKind::BlankFrames,
        (0x00, 0x11) => PacketKind::Verified,
        (0x00, 0x12) => PacketKind::MemoryInit,
        (0x00, 0x13) => PacketKind::GameIdentifier,
        (0x00, 0x14) => PacketKind::MovieLicense,
        (0x00, 0x15) => PacketKind::MovieFile,
        (0x00, 0xF0) => PacketKind::PortController,
        (0x01, 0x01) => PacketKind::NesLatchFilter,
        (0x01, 0x02) => PacketKind::NesClockFilter,
        (0x01, 0x03) => PacketKind::NesOverread,
        (0x01, 0x04) => PacketKind::NesGameGenieCode,
        (0x02, 0x02) => PacketKind::SnesClockFilter,
        (0x02, 0x03) => PacketKind::SnesOverread,
        (0x02, 0x04) => PacketKind::SnesGameGenieCode,
        (0x02, 0x05) => PacketKind::SnesLatchTrain,
        (0x08, 0x04) => PacketKind::GenesisGameGenieCode,
        (0xFE, 0x01) => PacketKind::InputChunk,
        (0xFE, 0x02) => PacketKind::InputMoment,
        (0xFE, 0x03) => PacketKind::Transition,
        (0xFE, 0x04) => PacketKind::LagFrameChunk,
        (0xFE, 0x05) => PacketKind::MovieTransition,
        (0xFF, 0x01) => PacketKind::Comment,
        (0xFF, 0xFE) => PacketKind::Experimental,
        (0xFF, 0xFF) => PacketKind::Unspecified,
        _ => PacketKind::Unsupported,
    }
}

/// Reads a payload as the given kind.
fn decode_as(kind: PacketKind, key: &[u8], payload: Reader) -> (res: Result<Packet, PacketError>)
    requires
        payload.has(0),
    ensures
        outcome(res) == parse_as(kind, key@, payload.rest(), payload.bytes()),
    decreases payload.rest().len(), 1nat,
{
    match kind {
        PacketKind::ConsoleType => match ConsoleType::decode(key, payload) {
            Ok(packet) => Ok(Packet::ConsoleType(packet)),
            Err(e) => Err(e),
        },
        PacketKind::ConsoleRegion => match ConsoleRegion::decode(key, payload) {
            Ok(packet) => Ok(Packet::ConsoleRegion(packet)),
            Err(e) => Err(e),
        },
        PacketKind::GameTitle => match GameTitle::decode(key, payload) {
            Ok(packet) => Ok(Packet::GameTitle(packet)),
            Err(e) => Err(e),
        },
        PacketKind::RomName => match RomName::decode(key, payload) {
            Ok(packet) => Ok(Packet::RomName(packet)),
            Err(e) => Err(e),
        },
        PacketKind::Attribution => match Attribution::decode(key, payload) {
            Ok(packet) => Ok(Packet::Attribution(packet)),
            Err(e) => Err(e),
        },
        PacketKind::Category => match Category::decode(key, payload) {
            Ok(packet) => Ok(Packet::Category(packet)),
            Err(e) => Err(e),
        },
        PacketKind::EmulatorName => match EmulatorName::decode(key, payload) {
            Ok(packet) => Ok(Packet::EmulatorName(packet)),
            Err(e) => Err(e),
        },
        PacketKind::EmulatorVersion => match EmulatorVersion::decode(key, payload) {
            Ok(packet) => Ok(Packet::EmulatorVersion(packet)),
            Err(e) => Err(e),
        },
        PacketKind::EmulatorCore => match EmulatorCore::decode(key, payload) {
            Ok(packet) => Ok(Packet::EmulatorCore(packet)),
            Err(e) => Err(e),
        },
        PacketKind::TasLastModified => match TasLastModified::decode(key, payload) {
            Ok(packet) => Ok(Packet::TasLastModified(packet)),
            Err(e) => Err(e),
        },
        PacketKind::DumpCreated => match DumpCreated::decode(key, payload) {
            Ok(packet) => Ok(Packet::DumpCreated(packet)),
            Err(e) => Err(e),
        },
        PacketKind::DumpLastModified => match DumpLastModified::decode(key, payload) {
            Ok(packet) => Ok(Packet::DumpLastModified(packet)),
            Err(e) => Err(e),
        },
        PacketKind::TotalFrames => match TotalFrames::decode(key, payload) {
            Ok(packet) => Ok(Packet::TotalFrames(packet)),
            Err(e) => Err(e),
        },
        PacketKind::Rerecords => match Rerecords::decode(key, payload) {
            Ok(packet) => Ok(Packet::Rerecords(packet)),
            Err(e) => Err(e),
        },
        PacketKind::SourceLink => match SourceLink::decode(key, payload) {
            Ok(packet) => Ok(Packet::SourceLink(packet)),
            Err(e) => Err(e),
        },
        PacketKind::BlankFrames => match BlankFrames::decode(key, payload) {
            Ok(packet) => Ok(Packet::BlankFrames(packet)),
            Err(e) => Err(e),
        },
        PacketKind::Verified => match Verified::decode(key, payload) {
            Ok(packet) => Ok(Packet::Verified(packet)),
            Err(e) => Err(e),
        },
        PacketKind::MemoryInit => match MemoryInit::decode(key, payload) {
            Ok(packet) => Ok(Packet::MemoryInit(packet)),
            Err(e) => Err(e),
        },
        PacketKind::GameIdentifier => match GameIdentifier::decode(key, payload) {
            Ok(packet) => Ok(Packet::GameIdentifier(packet)),
            Err(e) => Err(e),
        },
        PacketKind::MovieLicense => match MovieLicense::decode(key, payload) {
            Ok(packet) => Ok(Packet::MovieLicense(packet)),
            Err(e) => Err(e),
        },
        PacketKind::MovieFile => match MovieFile::decode(key, payload) {
            Ok(packet) => Ok(Packet::MovieFile(packet)),
            Err(e) => Err(e),
        },
        PacketKind::PortController => match PortController::decode(key, payload) {
            Ok(packet) => Ok(Packet::PortController(packet)),
            Err(e) => Err(e),
        },
        PacketKind::NesLatchFilter => match NesLatchFilter::decode(key, payload) {
            Ok(packet) => Ok(Packet::NesLatchFilter(packet)),
            Err(e) => Err(e),
        },
        PacketKind::NesClockFilter => match NesClockFilter::decode(key, payload) {
            Ok(packet) => Ok(Packet::NesClockFilter(packet)),
            Err(e) => Err(e),
        },
        PacketKind::NesOverread => match NesOverread::decode(key, payload) {
            Ok(packet) => Ok(Packet::NesOverread(packet)),
            Err(e) => Err(e),
        },
        PacketKind::NesGameGenieCode => match NesGameGenieCode::decode(key, payload) {
            Ok(packet) => Ok(Packet::NesGameGenieCode(packet)),
            Err(e) => Err(e),
        },
        PacketKind::SnesClockFilter => match SnesClockFilter::decode(key, payload) {
            Ok(packet) => Ok(Packet::SnesClockFilter(packet)),
            Err(e) => Err(e),
        },
        PacketKind::SnesOverread => match SnesOverread::decode(key, payload) {
            Ok(packet) => Ok(Packet::SnesOverread(packet)),
            Err(e) => Err(e),
        },
        PacketKind::SnesGameGenieCode => match SnesGameGenieCode::decode(key, payload) {
            Ok(packet) => Ok(Packet::SnesGameGenieCode(packet)),
            Err(e) => Err(e),
        },
        PacketKind::SnesLatchTrain => match SnesLatchTrain::decode(key, payload) {
            Ok(packet) => Ok(Packet::SnesLatchTrain(packet)),
            Err(e) => Err(e),
        },
        PacketKind::GenesisGameGenieCode => match GenesisGameGenieCode::decode(key, payload) {
            Ok(packet) => Ok(Packet::GenesisGameGenieCode(packet)),
            Err(e) => Err(e),
        },
        PacketKind::InputChunk => match InputChunk::decode(key, payload) {
            Ok(packet) => Ok(Packet::InputChunk(packet)),
            Err(e) => Err(e),
        },
        PacketKind::InputMoment => match InputMoment::decode(key, payload) {
            Ok(packet) => Ok(Packet::InputMoment(packet)),
            Err(e) => Err(e),
        },
        PacketKind::Transition => match decode_transition(key, payload) {
            Ok(packet) => Ok(Packet::Transition(packet)),
            Err(e) => Err(e),
        },
        PacketKind::LagFrameChunk => match LagFrameChunk::decode(key, payload) {
            Ok(packet) => Ok(Packet::LagFrameChunk(packet)),
            Err(e) => Err(e),
        },
        PacketKind::MovieTransition => match decode_movie_transition(key, payload) {
            Ok(packet) => Ok(Packet::MovieTransition(packet)),
            Err(e) => Err(e),
        },
        PacketKind::Comment => match Comment::decode(key, payload) {
            Ok(packet) => Ok(Packet::Comment(packet)),
            Err(e) => Err(e),
        },
        PacketKind::Experimental => match Experimental::decode(key, payload) {
            Ok(packet) => Ok(Packet::Experimental(packet)),
            Err(e) => Err(e),
        },
        PacketKind::Unspecified => match Unspecified::decode(key, payload) {
            Ok(packet) => Ok(Packet::Unspecified(packet)),
            Err(e) => Err(e),
        },
        PacketKind::Unsupported => match Unsupported::decode(key, payload) {
            Ok(packet) => Ok(Packet::Unsupported(packet)),
            Err(e) => Err(e),
        },
    }
}

impl Packet {
    /// Reads one frame from the position of `r` on, in a container whose
    /// keys are `keylen` bytes wide, and leaves `r` behind the frame. Where
    /// the framing is broken, `r` stays where reading stopped.
    pub fn with_reader(r: &mut Reader, keylen: u8) -> (res: Result<Packet, PacketError>)
        requires
            old(r).has(0),
        ensures
            outcome(res) == parse_frame(old(r).rest(), keylen as nat),
            old(r).stepped(final(r), consumed(split_frame(old(r).rest(), keylen as nat)) as int),
        decreases old(r).rest().len(), 2nat,
    {
        let ghost input = r.rest();
        let width = keylen as usize;
        assert(r.rest() =~= input.skip(0));
        if r.remaining() < width {
            return Err(PacketError::MissingKey);
        }
        let key = r.read_len(width);
        if r.remaining() < 1 {
            return Err(PacketError::MissingPayloadLength);
        }
        let exp = r.read_u8();
        assert(r.rest() =~= input.skip(width + 1));
        if exp > 8 {
            return Err(PacketError::UnsupportedExponent(exp));
        }
        if r.remaining() < exp as usize {
            return Err(PacketError::MissingPayloadLength);
        }
        let plen = r.read_be(exp as usize);
        assert(r.rest() =~= input.skip(width + 1 + exp));
        if (r.remaining() as u64) < plen {
            return Err(PacketError::MissingPayloadLength);
        }
        let payload = Reader::new(r.read_len(plen as usize));
        assert(r.rest() =~= input.skip(width + 1 + exp + plen));
        assert(payload.rest() =~= payload.bytes());

        decode_as(kind_for_key(key), key, payload)
    }

    pub fn kind(&self) -> (kind: PacketKind)
        ensures
            kind == kind_of(self@),
    {
        match self {
            Self::ConsoleType(packet) => packet.kind(),
            Self::ConsoleRegion(packet) => packet.kind(),
            Self::GameTitle(packet) => packet.kind(),
            Self::RomName(packet) => packet.kind(),
            Self::Attribution(packet) => packet.kind(),
            Self::Category(packet) => packet.kind(),
            Self::EmulatorName(packet) => packet.kind(),
            Self::EmulatorVersion(packet) => packet.kind(),
            Self::EmulatorCore(packet) => packet.kind(),
            Self::TasLastModified(packet) => packet.kind(),
            Self::DumpCreated(packet) => packet.kind(),
            Self::DumpLastModified(packet) => packet.kind(),
            Self::TotalFrames(packet) => packet.kind(),
            Self::Rerecords(packet) => packet.kind(),
            Self::SourceLink(packet) => packet.kind(),
            Self::BlankFrames(packet) => packet.kind(),
            Self::Verified(packet) => packet.kind(),
            Self::MemoryInit(packet) => packet.kind(),
            Self::GameIdentifier(packet) => packet.kind(),
            Self::MovieLicense(packet) => packet.kind(),
            Self::MovieFile(packet) => packet.kind(),
            Self::PortController(packet) => packet.kind(),
            Self::NesLatchFilter(packet) => packet.kind(),
            Self::NesClockFilter(packet) => packet.kind(),
            Self::NesOverread(packet) => packet.kind(),
            Self::NesGameGenieCode(packet) => packet.kind(),
            Self::SnesClockFilter(packet) => packet.kind(),
            Self::SnesOverread(packet) => packet.kind(),
            Self::SnesGameGenieCode(packet) => packet.kind(),
            Self::SnesLatchTrain(packet) => packet.kind(),
            Self::GenesisGameGenieCode(packet) => packet.kind(),
            Self::InputChunk(packet) => packet.kind(),
            Self::InputMoment(packet) => packet.kind(),
            Self::Transition(packet) => packet.kind(),
            Self::LagFrameChunk(packet) => packet.kind(),
            Self::MovieTransition(packet) => packet.kind(),
            Self::Comment(packet) => packet.kind(),
            Self::Experimental(packet) => packet.kind(),
            Self::Unspecified(packet) => packet.kind(),
            Self::Unsupported(packet) => packet.kind(),
        }
    }
}

/// Writes the frame of a packet of any kind.
pub fn encode_packet(p: &Packet, keylen: u8) -> (data: Vec<u8>)
    ensures
        data@ == frame_of(p@, keylen as nat),
    decreases p,
{
    match p {
        Packet::ConsoleType(packet) => packet.encode(keylen),
        Packet::ConsoleRegion(packet) => packet.encode(keylen),
        Packet::GameTitle(packet) => packet.encode(keylen),
        Packet::RomName(packet) => packet.encode(keylen),
        Packet::Attribution(packet) => packet.encode(keylen),
        Packet::Category(packet) => packet.encode(keylen),
        Packet::EmulatorName(packet) => packet.encode(keylen),
        Packet::EmulatorVersion(packet) => packet.encode(keylen),
        Packet::EmulatorCore(packet) => packet.encode(keylen),
        Packet::TasLastModified(packet) => packet.encode(keylen),
        Packet::DumpCreated(packet) => packet.encode(keylen),
        Packet::DumpLastModified(packet) => packet.encode(keylen),
        Packet::TotalFrames(packet) => packet.encode(keylen),
        Packet::Rerecords(packet) => packet.encode(keylen),
        Packet::SourceLink(packet) => packet.encode(keylen),
        Packet::BlankFrames(packet) => packet.encode(keylen),
        Packet::Verified(packet) => packet.encode(keylen),
        Packet::MemoryInit(packet) => packet.encode(keylen),
        Packet::GameIdentifier(packet) => packet.encode(keylen),
        Packet::MovieLicense(packet) => packet.encode(keylen),
        Packet::MovieFile(packet) => packet.encode(keylen),
        Packet::PortController(packet) => packet.encode(keylen),
        Packet::NesLatchFilter(packet) => packet.encode(keylen),
        Packet::NesClockFilter(packet) => packet.encode(keylen),
        Packet::NesOverread(packet) => packet.encode(keylen),
        Packet::NesGameGenieCode(packet) => packet.encode(keylen),
        Packet::SnesClockFilter(packet) => packet.encode(keylen),
        Packet::SnesOverread(packet) => packet.encode(keylen),
        Packet::SnesGameGenieCode(packet) => packet.encode(keylen),
        Packet::SnesLatchTrain(packet) => packet.encode(keylen),
        Packet::GenesisGameGenieCode(packet) => packet.encode(keylen),
        Packet::InputChunk(packet) => packet.encode(keylen),
        Packet::InputMoment(packet) => packet.encode(keylen),
        Packet::Transition(packet) => encode_transition(packet, keylen),
        Packet::LagFrameChunk(packet) => packet.encode(keylen),
        Packet::MovieTransition(packet) => encode_movie_transition(packet, keylen),
        Packet::Comment(packet) => packet.encode(keylen),
        Packet::Experimental(packet) => packet.encode(keylen),
        Packet::Unspecified(packet) => packet.encode(keylen),
        Packet::Unsupported(packet) => packet.encode(keylen),
    }
}

/// Copies a packet of any kind.
pub fn clone_packet(p: &Packet) -> (res: Packet)
    ensures
        res@ == p@,
    decreases p,
{
    match p {
        Packet::ConsoleType(packet) => Packet::ConsoleType(packet.clone()),
        Packet::ConsoleRegion(packet) => Packet::ConsoleRegion(packet.clone()),
        Packet::GameTitle(packet) => Packet::GameTitle(packet.clone()),
        Packet::RomName(packet) => Packet::RomName(packet.clone()),
        Packet::Attribution(packet) => Packet::Attribution(packet.clone()),
        Packet::Category(packet) => Packet::Category(packet.clone()),
        Packet::EmulatorName(packet) => Packet::EmulatorName(packet.clone()),
        Packet::EmulatorVersion(packet) => Packet::EmulatorVersion(packet.clone()),
        Packet::EmulatorCore(packet) => Packet::EmulatorCore(packet.clone()),
        Packet::TasLastModified(packet) => Packet::TasLastModified(packet.clone()),
        Packet::DumpCreated(packet) => Packet::DumpCreated(packet.clone()),
        Packet::DumpLastModified(packet) => Packet::DumpLastModified(packet.clone()),
        Packet::TotalFrames(packet) => Packet::TotalFrames(packet.clone()),
        Packet::Rerecords(packet) => Packet::Rerecords(packet.clone()),
        Packet::SourceLink(packet) => Packet::SourceLink(packet.clone()),
        Packet::BlankFrames(packet) => Packet::BlankFrames(packet.clone()),
        Packet::Verified(packet) => Packet::Verified(packet.clone()),
        Packet::MemoryInit(packet) => Packet::MemoryInit(packet.clone()),
        Packet::GameIdentifier(packet) => Packet::GameIdentifier(packet.clone()),
        Packet::MovieLicense(packet) => Packet::MovieLicense(packet.clone()),
        Packet::MovieFile(packet) => Packet::MovieFile(packet.clone()),
        Packet::PortController(packet) => Packet::PortController(packet.clone()),
        Packet::NesLatchFilter(packet) => Packet::NesLatchFilter(packet.clone()),
        Packet::NesClockFilter(packet) => Packet::NesClockFilter(packet.clone()),
        Packet::NesOverread(packet) => Packet::NesOverread(packet.clone()),
        Packet::NesGameGenieCode(packet) => Packet::NesGameGenieCode(packet.clone()),
        Packet::SnesClockFilter(packet) => Packet::SnesClockFilter(packet.clone()),
        Packet::SnesOverread(packet) => Packet::SnesOverread(packet.clone()),
        Packet::SnesGameGenieCode(packet) => Packet::SnesGameGenieCode(packet.clone()),
        Packet::SnesLatchTrain(packet) => Packet::SnesLatchTrain(packet.clone()),
        Packet::GenesisGameGenieCode(packet) => Packet::GenesisGameGenieCode(packet.clone()),
        Packet::InputChunk(packet) => Packet::InputChunk(packet.clone()),
        Packet::InputMoment(packet) => Packet::InputMoment(packet.clone()),
        Packet::Transition(packet) => Packet::Transition(clone_transition(packet)),
        Packet::LagFrameChunk(packet) => Packet::LagFrameChunk(packet.clone()),
        Packet::MovieTransition(packet) => Packet::MovieTransition(clone_movie_transition(packet)),
        Packet::Comment(packet) => Packet::Comment(packet.clone()),
        Packet::Experimental(packet) => Packet::Experimental(packet.clone()),
        Packet::Unspecified(packet) => Packet::Unspecified(packet.clone()),
        Packet::Unsupported(packet) => Packet::Unsupported(packet.clone()),
    }
}

impl Clone for Packet {
    fn clone(&self) -> (res: Self)
        ensures
            res@ == self@,
    {
        clone_packet(self)
    }
}

impl Encode for Packet {
    fn encode(&self, keylen: u8) -> (data: Vec<u8>) {
        encode_packet(self, keylen)
    }

    fn key(&self) -> (key: Vec<u8>) {
        match self {
            Self::ConsoleType(packet) => packet.key(),
            Self::ConsoleRegion(packet) => packet.key(),
            Self::GameTitle(packet) => packet.key(),
            Self::RomName(packet) => packet.key(),
            Self::Attribution(packet) => packet.key(),
            Self::Category(packet) => packet.key(),
            Self::EmulatorName(packet) => packet.key(),
            Self::EmulatorVersion(packet) => packet.key(),
            Self::EmulatorCore(packet) => packet.key(),
            Self::TasLastModified(packet) => packet.key(),
            Self::DumpCreated(packet) => packet.key(),
            Self::DumpLastModified(packet) => packet.key(),
            Self::TotalFrames(packet) => packet.key(),
            Self::Rerecords(packet) => packet.key(),
            Self::SourceLink(packet) => packet.key(),
            Self::BlankFrames(packet) => packet.key(),
            Self::Verified(packet) => packet.key(),
            Self::MemoryInit(packet) => packet.key(),
            Self::GameIdentifier(packet) => packet.key(),
            Self::MovieLicense(packet) => packet.key(),
            Self::MovieFile(packet) => packet.key(),
            Self::PortController(packet) => packet.key(),
            Self::NesLatchFilter(packet) => packet.key(),
            Self::NesClockFilter(packet) => packet.key(),
            Self::NesOverread(packet) => packet.key(),
            Self::NesGameGenieCode(packet) => packet.key(),
            Self::SnesClockFilter(packet) => packet.key(),
            Self::SnesOverread(packet) => packet.key(),
            Self::SnesGameGenieCode(packet) => packet.key(),
            Self::SnesLatchTrain(packet) => packet.key(),
            Self::GenesisGameGenieCode(packet) => packet.key(),
            Self::InputChunk(packet) => packet.key(),
            Self::InputMoment(packet) => packet.key(),
            Self::Transition(packet) => packet.key(),
            Self::LagFrameChunk(packet) => packet.key(),
            Self::MovieTransition(packet) => packet.key(),
            Self::Comment(packet) => packet.key(),
            Self::Experimental(packet) => packet.key(),
            Self::Unspecified(packet) => packet.key(),
            Self::Unsupported(packet) => packet.key(),
        }
    }
}

/// The kinds of record that the catalog lists, and the fallback for every
/// other key.
#[derive(Debug, Copy, Clone, PartialEq, Eq, Structural)]
pub enum PacketKind {
    ConsoleType,
    ConsoleRegion,
    GameTitle,
    RomName,
    Attribution,
    Category,
    EmulatorName,
    EmulatorVersion,
    EmulatorCore,
    TasLastModified,
    DumpCreated,
    DumpLastModified,
    TotalFrames,
    Rerecords,
    SourceLink,
    BlankFrames,
    Verified,
    MemoryInit,
    GameIdentifier,
    MovieLicense,
    MovieFile,
    PortController,
    NesLatchFilter,
    NesClockFilter,
    NesOverread,
    NesGameGenieCode,
    SnesClockFilter,
    SnesOverread,
    SnesGameGenieCode,
    SnesLatchTrain,
    GenesisGameGenieCode,
    InputChunk,
    InputMoment,
    Transition,
    LagFrameChunk,
    MovieTransition,
    Comment,
    Experimental,
    Unspecified,
    Unsupported,
}

/// The name of a kind, in capitals, its words joined by underscores.
pub open spec fn kind_name(kind: PacketKind) -> Seq<char> {
    match kind {
        PacketKind::ConsoleType => "CONSOLE_TYPE"@,
        PacketKind::ConsoleRegion => "CONSOLE_REGION"@,
        PacketKind::GameTitle => "GAME_TITLE"@,
        PacketKind::RomName => "ROM_NAME"@,
        PacketKind::Attribution => "ATTRIBUTION"@,
        PacketKind::Category => "CATEGORY"@,
        PacketKind::EmulatorName => "EMULATOR_NAME"@,
        PacketKind::EmulatorVersion => "EMULATOR_VERSION"@,
        PacketKind::EmulatorCore => "EMULATOR_CORE"@,
        PacketKind::TasLastModified => "TAS_LAST_MODIFIED"@,
        PacketKind::DumpCreated => "DUMP_CREATED"@,
        PacketKind::DumpLastModified => "DUMP_LAST_MODIFIED"@,
        PacketKind::TotalFrames => "TOTAL_FRAMES"@,
        PacketKind::Rerecords => "RERECORDS"@,
        PacketKind::SourceLink => "SOURCE_LINK"@,
        PacketKind::BlankFrames => "BLANK_FRAMES"@,
        PacketKind::Verified => "VERIFIED"@,
        PacketKind::MemoryInit => "MEMORY_INIT"@,
        PacketKind::GameIdentifier => "GAME_IDENTIFIER"@,
        PacketKind::MovieLicense => "MOVIE_LICENSE"@,
        PacketKind::MovieFile => "MOVIE_FILE"@,
        PacketKind::PortController => "PORT_CONTROLLER"@,
        PacketKind::NesLatchFilter => "NES_LATCH_FILTER"@,
        PacketKind::NesClockFilter => "NES_CLOCK_FILTER"@,
        PacketKind::NesOverread => "NES_OVERREAD"@,
        PacketKind::NesGameGenieCode => "NES_GAME_GENIE_CODE"@,
        PacketKind::SnesClockFilter => "SNES_CLOCK_FILTER"@,
        PacketKind::SnesOverread => "SNES_OVERREAD"@,
        PacketKind::SnesGameGenieCode => "SNES_GAME_GENIE_CODE"@,
        PacketKind::SnesLatchTrain => "SNES_LATCH_TRAIN"@,
        PacketKind::GenesisGameGenieCode => "GENESIS_GAME_GENIE_CODE"@,
        PacketKind::InputChunk => "INPUT_CHUNK"@,
        PacketKind::InputMoment => "INPUT_MOMENT"@,
        PacketKind::Transition => "TRANSITION"@,
        PacketKind::LagFrameChunk => "LAG_FRAME_CHUNK"@,
        PacketKind::MovieTransition => "MOVIE_TRANSITION"@,
        PacketKind::Comment => "COMMENT"@,
        PacketKind::Experimental => "EXPERIMENTAL"@,
        PacketKind::Unspecified => "UNSPECIFIED"@,
        PacketKind::Unsupported => "UNSUPPORTED"@,
    }
}

impl PacketKind {
    /// The name of the kind, in capitals, its words joined by underscores.
    pub fn to_string(&self) -> (name: String)
        ensures
            name@ == kind_name(*self),
    {
        match self {
            PacketKind::ConsoleType => String::from_str("CONSOLE_TYPE"),
            PacketKind::ConsoleRegion => String::from_str("CONSOLE_REGION"),
            PacketKind::GameTitle => String::from_str("GAME_TITLE"),
            PacketKind::RomName => String::from_str("ROM_NAME"),
            PacketKind::Attribution => String::from_str("ATTRIBUTION"),
            PacketKind::Category => String::from_str("CATEGORY"),
            PacketKind::EmulatorName => String::from_str("EMULATOR_NAME"),
            PacketKind::EmulatorVersion => String::from_str("EMULATOR_VERSION"),
            PacketKind::EmulatorCore => String::from_str("EMULATOR_CORE"),
            PacketKind::TasLastModified => String::from_str("TAS_LAST_MODIFIED"),
            PacketKind::DumpCreated => String::from_str("DUMP_CREATED"),
            PacketKind::DumpLastModified => String::from_str("DUMP_LAST_MODIFIED"),
            PacketKind::TotalFrames => String::from_str("TOTAL_FRAMES"),
            PacketKind::Rerecords => String::from_str("RERECORDS"),
            PacketKind::SourceLink => String::from_str("SOURCE_LINK"),
            PacketKind::BlankFrames => String::from_str("BLANK_FRAMES"),
            PacketKind::Verified => String::from_str("VERIFIED"),
            PacketKind::MemoryInit => String::from_str("MEMORY_INIT"),
            PacketKind::GameIdentifier => String::from_str("GAME_IDENTIFIER"),
            PacketKind::MovieLicense => String::from_str("MOVIE_LICENSE"),
            PacketKind::MovieFile => String::from_str("MOVIE_FILE"),
            PacketKind::PortController => String::from_str("PORT_CONTROLLER"),
            PacketKind::NesLatchFilter => String::from_str("NES_LATCH_FILTER"),
            PacketKind::NesClockFilter => String::from_str("NES_CLOCK_FILTER"),
            PacketKind::NesOverread => String::from_str("NES_OVERREAD"),
            PacketKind::NesGameGenieCode => String::from_str("NES_GAME_GENIE_CODE"),
            PacketKind::SnesClockFilter => String::from_str("SNES_CLOCK_FILTER"),
            PacketKind::SnesOverread => String::from_str("SNES_OVERREAD"),
            PacketKind::SnesGameGenieCode => String::from_str("SNES_GAME_GENIE_CODE"),
            PacketKind::SnesLatchTrain => String::from_str("SNES_LATCH_TRAIN"),
            PacketKind::GenesisGameGenieCode => String::from_str("GENESIS_GAME_GENIE_CODE"),
            PacketKind::InputChunk => String::from_str("INPUT_CHUNK"),
            PacketKind::InputMoment => String::from_str("INPUT_MOMENT"),
            PacketKind::Transition => String::from_str("TRANSITION"),
            PacketKind::LagFrameChunk => String::from_str("LAG_FRAME_CHUNK"),
            PacketKind::MovieTransition => String::from_str("MOVIE_TRANSITION"),
            PacketKind::Comment => String::from_str("COMMENT"),
            PacketKind::Experimental => String::from_str("EXPERIMENTAL"),
            PacketKind::Unspecified => String::from_str("UNSPECIFIED"),
            PacketKind::Unsupported => String::from_str("UNSUPPORTED"),
        }
    }
}

} // verus!
