//! Records that describe a movie as a whole: what it was played on, who made it, and when.

use crate::codec::model::{
    parse_attribution, parse_blank_frames, parse_category, parse_console_region,
    parse_console_type, parse_dump_created, parse_dump_last_modified, parse_emulator_core,
    parse_emulator_name, parse_emulator_version, parse_game_identifier, parse_game_title,
    parse_memory_init, parse_movie_file, parse_movie_license, parse_port_controller,
    parse_rerecords, parse_rom_name, parse_source_link, parse_tas_last_modified,
    parse_total_frames, parse_verified, payload_of, Fault, Record,
};
use crate::codec::packets::{
    option_view, Decode, Encode, Packet, PacketError, PacketKind, KEY_ATTRIBUTION,
    KEY_BLANK_FRAMES, KEY_CATEGORY, KEY_CONSOLE_REGION, KEY_CONSOLE_TYPE, KEY_DUMP_CREATED,
    KEY_DUMP_LAST_MODIFIED, KEY_EMULATOR_CORE, KEY_EMULATOR_NAME, KEY_EMULATOR_VERSION,
    KEY_GAME_IDENTIFIER, KEY_GAME_TITLE, KEY_MEMORY_INIT, KEY_MOVIE_FILE, KEY_MOVIE_LICENSE,
    KEY_PORT_CONTROLLER, KEY_RERECORDS, KEY_ROM_NAME, KEY_SOURCE_LINK, KEY_TAS_LAST_MODIFIED,
    KEY_TOTAL_FRAMES, KEY_VERIFIED,
};
use crate::codec::reader::Reader;
use crate::codec::writer::Writer;
use crate::text::option_text;
use vstd::prelude::*;
use vstd::slice::slice_to_vec;
use vstd::std_specs::convert::FromSpecImpl;

verus! {

////////////////////////////////////// CONSOLE_TYPE //////////////////////////////////////
#[derive(Debug, PartialEq)]
pub struct ConsoleType {
    pub kind: u8,
    pub custom: Option<String>,
}

impl View for ConsoleType {
    type V = Record;

    open spec fn view(&self) -> Record {
        Record::ConsoleType { kind: self.kind, custom: option_text(self.custom) }
    }
}

impl Clone for ConsoleType {
    fn clone(&self) -> (res: Self)
        ensures
            res@ == self@,
    {
        Self {
            kind: self.kind,
            custom: match &self.custom {
                Some(value) => Some(value.clone()),
                None => None,
            },
        }
    }
}

impl Decode for ConsoleType {
    open spec fn parsed(key: Seq<u8>, body: Seq<u8>, whole: Seq<u8>) -> Result<Record, Fault> {
        parse_console_type(key, body, whole)
    }

    fn decode(key: &[u8], payload: Reader) -> (r: Result<Self, PacketError>) {
        let mut reader = payload;
        let ghost body = reader.rest();
        if reader.remaining() < 1 {
            return Err(PacketError::invalid(key, reader));
        }
        let kind = reader.read_u8();
        let custom = if kind == 0xFF {
            Some(reader.read_string(reader.remaining()))
        } else {
            None
        };
        assert(body.skip(1).take(body.skip(1).len() as int) =~= body.skip(1));
        Ok(Self { kind, custom })
    }

    fn kind(&self) -> (kind: PacketKind) {
        PacketKind::ConsoleType
    }
}

impl Encode for ConsoleType {
    fn encode(&self, keylen: u8) -> (data: Vec<u8>) {
        let mut w = Writer::new();
        w.write_u8(self.kind);
        w.write_option_string(&self.custom);
        assert(w@ =~= payload_of(self@, keylen as nat));
        let key = self.key();
        w.into_packet(key.as_slice(), keylen)
    }

    fn key(&self) -> (key: Vec<u8>) {
        slice_to_vec(KEY_CONSOLE_TYPE.as_slice())
    }
}

impl From<ConsoleType> for Packet {
    fn from(value: ConsoleType) -> (packet: Packet) {
        Packet::ConsoleType(value)
    }
}

impl FromSpecImpl<ConsoleType> for Packet {
    open spec fn obeys_from_spec() -> bool {
        true
    }

    open spec fn from_spec(value: ConsoleType) -> Packet {
        Packet::ConsoleType(value)
    }
}

////////////////////////////////////// CONSOLE_REGION //////////////////////////////////////
#[derive(Debug, PartialEq)]
pub struct ConsoleRegion {
    pub region: u8,
}

impl View for ConsoleRegion {
    type V = Record;

    open spec fn view(&self) -> Record {
        Record::ConsoleRegion { region: self.region }
    }
}

impl Clone for ConsoleRegion {
    fn clone(&self) -> (res: Self)
        ensures
            res@ == self@,
    {
        Self { region: self.region }
    }
}

impl Decode for ConsoleRegion {
    open spec fn parsed(key: Seq<u8>, body: Seq<u8>, whole: Seq<u8>) -> Result<Record, Fault> {
        parse_console_region(key, body, whole)
    }

    fn decode(key: &[u8], payload: Reader) -> (r: Result<Self, PacketError>) {
        let mut reader = payload;
        let ghost body = reader.rest();
        assert(reader.rest() =~= body.skip(0));
        if reader.remaining() != 1 {
            return Err(PacketError::invalid(key, reader));
        }
        let region = reader.read_u8();
        assert(reader.rest() =~= body.skip(1));
        Ok(Self { region })
    }

    fn kind(&self) -> (kind: PacketKind) {
        PacketKind::ConsoleRegion
    }
}

impl Encode for ConsoleRegion {
    fn encode(&self, keylen: u8) -> (data: Vec<u8>) {
        let mut w = Writer::new();
        w.write_u8(self.region);
        assert(w@ =~= payload_of(self@, keylen as nat));
        let key = self.key();
        w.into_packet(key.as_slice(), keylen)
    }

    fn key(&self) -> (key: Vec<u8>) {
        slice_to_vec(KEY_CONSOLE_REGION.as_slice())
    }
}

impl From<ConsoleRegion> for Packet {
    fn from(value: ConsoleRegion) -> (packet: Packet) {
        Packet::ConsoleRegion(value)
    }
}

impl FromSpecImpl<ConsoleRegion> for Packet {
    open spec fn obeys_from_spec() -> bool {
        true
    }

    open spec fn from_spec(value: ConsoleRegion) -> Packet {
        Packet::ConsoleRegion(value)
    }
}

////////////////////////////////////// GAME_TITLE //////////////////////////////////////
#[derive(Debug, PartialEq)]
pub struct GameTitle {
    pub title: String,
}

impl View for GameTitle {
    type V = Record;

    open spec fn view(&self) -> Record {
        Record::GameTitle { title: self.title@ }
    }
}

impl Clone for GameTitle {
    fn clone(&self) -> (res: Self)
        ensures
            res@ == self@,
    {
        Self { title: self.title.clone() }
    }
}

impl Decode for GameTitle {
    open spec fn parsed(key: Seq<u8>, body: Seq<u8>, whole: Seq<u8>) -> Result<Record, Fault> {
        parse_game_title(key, body, whole)
    }

    fn decode(key: &[u8], payload: Reader) -> (r: Result<Self, PacketError>) {
        let mut reader = payload;
        let ghost body = reader.rest();
        assert(reader.rest() =~= body.skip(0));
        let title = reader.read_string(reader.remaining());
        assert(body.skip(0).take(body.skip(0).len() as int) =~= body.skip(0));
        assert(body.skip(0) =~= body);
        Ok(Self { title })
    }

    fn kind(&self) -> (kind: PacketKind) {
        PacketKind::GameTitle
    }
}

impl Encode for GameTitle {
    fn encode(&self, keylen: u8) -> (data: Vec<u8>) {
        let mut w = Writer::new();
        w.write_str(self.title.as_str());
        assert(w@ =~= payload_of(self@, keylen as nat));
        let key = self.key();
        w.into_packet(key.as_slice(), keylen)
    }

    fn key(&self) -> (key: Vec<u8>) {
        slice_to_vec(KEY_GAME_TITLE.as_slice())
    }
}

impl From<GameTitle> for Packet {
    fn from(value: GameTitle) -> (packet: Packet) {
        Packet::GameTitle(value)
    }
}

impl FromSpecImpl<GameTitle> for Packet {
    open spec fn obeys_from_spec() -> bool {
        true
    }

    open spec fn from_spec(value: GameTitle) -> Packet {
        Packet::GameTitle(value)
    }
}

////////////////////////////////////// ROM_NAME //////////////////////////////////////
#[derive(Debug, PartialEq)]
pub struct RomName {
    pub name: String,
}

impl View for RomName {
    type V = Record;

    open spec fn view(&self) -> Record {
        Record::RomName { name: self.name@ }
    }
}

impl Clone for RomName {
    fn clone(&self) -> (res: Self)
        ensures
            res@ == self@,
    {
        Self { name: self.name.clone() }
    }
}

impl Decode for RomName {
    open spec fn parsed(key: Seq<u8>, body: Seq<u8>, whole: Seq<u8>) -> Result<Record, Fault> {
        parse_rom_name(key, body, whole)
    }

    fn decode(key: &[u8], payload: Reader) -> (r: Result<Self, PacketError>) {
        let mut reader = payload;
        let ghost body = reader.rest();
        assert(reader.rest() =~= body.skip(0));
        let name = reader.read_string(reader.remaining());
        assert(body.skip(0).take(body.skip(0).len() as int) =~= body.skip(0));
        assert(body.skip(0) =~= body);
        Ok(Self { name })
    }

    fn kind(&self) -> (kind: PacketKind) {
        PacketKind::RomName
    }
}

impl Encode for RomName {
    fn encode(&self, keylen: u8) -> (data: Vec<u8>) {
        let mut w = Writer::new();
        w.write_str(self.name.as_str());
        assert(w@ =~= payload_of(self@, keylen as nat));
        let key = self.key();
        w.into_packet(key.as_slice(), keylen)
    }

    fn key(&self) -> (key: Vec<u8>) {
        slice_to_vec(KEY_ROM_NAME.as_slice())
    }
}

impl From<RomName> for Packet {
    fn from(value: RomName) -> (packet: Packet) {
        Packet::RomName(value)
    }
}

impl FromSpecImpl<RomName> for Packet {
    open spec fn obeys_from_spec() -> bool {
        true
    }

    open spec fn from_spec(value: RomName) -> Packet {
        Packet::RomName(value)
    }
}

////////////////////////////////////// ATTRIBUTION //////////////////////////////////////
#[derive(Debug, PartialEq)]
pub struct Attribution {
    pub kind: u8,
    pub name: String,
}

impl View for Attribution {
    type V = Record;

    open spec fn view(&self) -> Record {
        Record::Attribution { kind: self.kind, name: self.name@ }
    }
}

impl Clone for Attribution {
    fn clone(&self) -> (res: Self)
        ensures
            res@ == self@,
    {
        Self { kind: self.kind, name: self.name.clone() }
    }
}

impl Decode for Attribution {
    open spec fn parsed(key: Seq<u8>, body: Seq<u8>, whole: Seq<u8>) -> Result<Record, Fault> {
        parse_attribution(key, body, whole)
    }

    fn decode(key: &[u8], payload: Reader) -> (r: Result<Self, PacketError>) {
        let mut reader = payload;
        let ghost body = reader.rest();
        assert(reader.rest() =~= body.skip(0));
        if reader.remaining() < 1 {
            return Err(PacketError::invalid(key, reader));
        }
        let kind = reader.read_u8();
        assert(reader.rest() =~= body.skip(1));
        let name = reader.read_string(reader.remaining());
        assert(body.skip(1).take(body.skip(1).len() as int) =~= body.skip(1));
        Ok(Self { kind, name })
    }

    fn kind(&self) -> (kind: PacketKind) {
        PacketKind::Attribution
    }
}

impl Encode for Attribution {
    fn encode(&self, keylen: u8) -> (data: Vec<u8>) {
        let mut w = Writer::new();
        w.write_u8(self.kind);
        w.write_str(self.name.as_str());
        assert(w@ =~= payload_of(self@, keylen as nat));
        let key = self.key();
        w.into_packet(key.as_slice(), keylen)
    }

    fn key(&self) -> (key: Vec<u8>) {
        slice_to_vec(KEY_ATTRIBUTION.as_slice())
    }
}

impl From<Attribution> for Packet {
    fn from(value: Attribution) -> (packet: Packet) {
        Packet::Attribution(value)
    }
}

impl FromSpecImpl<Attribution> for Packet {
    open spec fn obeys_from_spec() -> bool {
        true
    }

    open spec fn from_spec(value: Attribution) -> Packet {
        Packet::Attribution(value)
    }
}

////////////////////////////////////// CATEGORY //////////////////////////////////////
#[derive(Debug, PartialEq)]
pub struct Category {
    pub category: String,
}

impl View for Category {
    type V = Record;

    open spec fn view(&self) -> Record {
        Record::Category { category: self.category@ }
    }
}

impl Clone for Category {
    fn clone(&self) -> (res: Self)
        ensures
            res@ == self@,
    {
        Self { category: self.category.clone() }
    }
}

impl Decode for Category {
    open spec fn parsed(key: Seq<u8>, body: Seq<u8>, whole: Seq<u8>) -> Result<Record, Fault> {
        parse_category(key, body, whole)
    }

    fn decode(key: &[u8], payload: Reader) -> (r: Result<Self, PacketError>) {
        let mut reader = payload;
        let ghost body = reader.rest();
        assert(reader.rest() =~= body.skip(0));
        let category = reader.read_string(reader.remaining());
        assert(body.skip(0).take(body.skip(0).len() as int) =~= body.skip(0));
        assert(body.skip(0) =~= body);
        Ok(Self { category })
    }

    fn kind(&self) -> (kind: PacketKind) {
        PacketKind::Category
    }
}

impl Encode for Category {
    fn encode(&self, keylen: u8) -> (data: Vec<u8>) {
        let mut w = Writer::new();
        w.write_str(self.category.as_str());
        assert(w@ =~= payload_of(self@, keylen as nat));
        let key = self.key();
        w.into_packet(key.as_slice(), keylen)
    }

    fn key(&self) -> (key: Vec<u8>) {
        slice_to_vec(KEY_CATEGORY.as_slice())
    }
}

impl From<Category> for Packet {
    fn from(value: Category) -> (packet: Packet) {
        Packet::Category(value)
    }
}

impl FromSpecImpl<Category> for Packet {
    open spec fn obeys_from_spec() -> bool {
        true
    }

    open spec fn from_spec(value: Category) -> Packet {
        Packet::Category(value)
    }
}

////////////////////////////////////// EMULATOR_NAME //////////////////////////////////////
#[derive(Debug, PartialEq)]
pub struct EmulatorName {
    pub name: String,
}

impl View for EmulatorName {
    type V = Record;

    open spec fn view(&self) -> Record {
        Record::EmulatorName { name: self.name@ }
    }
}

impl Clone for EmulatorName {
    fn clone(&self) -> (res: Self)
        ensures
            res@ == self@,
    {
        Self { name: self.name.clone() }
    }
}

impl Decode for EmulatorName {
    open spec fn parsed(key: Seq<u8>, body: Seq<u8>, whole: Seq<u8>) -> Result<Record, Fault> {
        parse_emulator_name(key, body, whole)
    }

    fn decode(key: &[u8], payload: Reader) -> (r: Result<Self, PacketError>) {
        let mut reader = payload;
        let ghost body = reader.rest();
        assert(reader.rest() =~= body.skip(0));
        let name = reader.read_string(reader.remaining());
        assert(body.skip(0).take(body.skip(0).len() as int) =~= body.skip(0));
        assert(body.skip(0) =~= body);
        Ok(Self { name })
    }

    fn kind(&self) -> (kind: PacketKind) {
        PacketKind::EmulatorName
    }
}

impl Encode for EmulatorName {
    fn encode(&self, keylen: u8) -> (data: Vec<u8>) {
        let mut w = Writer::new();
        w.write_str(self.name.as_str());
        assert(w@ =~= payload_of(self@, keylen as nat));
        let key = self.key();
        w.into_packet(key.as_slice(), keylen)
    }

    fn key(&self) -> (key: Vec<u8>) {
        slice_to_vec(KEY_EMULATOR_NAME.as_slice())
    }
}

impl From<EmulatorName> for Packet {
    fn from(value: EmulatorName) -> (packet: Packet) {
        Packet::EmulatorName(value)
    }
}

impl FromSpecImpl<EmulatorName> for Packet {
    open spec fn obeys_from_spec() -> bool {
        true
    }

    open spec fn from_spec(value: EmulatorName) -> Packet {
        Packet::EmulatorName(value)
    }
}

////////////////////////////////////// EMULATOR_VERSION //////////////////////////////////////
#[derive(Debug, PartialEq)]
pub struct EmulatorVersion {
    pub version: String,
}

impl View for EmulatorVersion {
    type V = Record;

    open spec fn view(&self) -> Record {
        Record::EmulatorVersion { version: self.version@ }
    }
}

impl Clone for EmulatorVersion {
    fn clone(&self) -> (res: Self)
        ensures
            res@ == self@,
    {
        Self { version: self.version.clone() }
    }
}

impl Decode for EmulatorVersion {
    open spec fn parsed(key: Seq<u8>, body: Seq<u8>, whole: Seq<u8>) -> Result<Record, Fault> {
        parse_emulator_version(key, body, whole)
    }

    fn decode(key: &[u8], payload: Reader) -> (r: Result<Self, PacketError>) {
        let mut reader = payload;
        let ghost body = reader.rest();
        assert(reader.rest() =~= body.skip(0));
        let version = reader.read_string(reader.remaining());
        assert(body.skip(0).take(body.skip(0).len() as int) =~= body.skip(0));
        assert(body.skip(0) =~= body);
        Ok(Self { version })
    }

    fn kind(&self) -> (kind: PacketKind) {
        PacketKind::EmulatorVersion
    }
}

impl Encode for EmulatorVersion {
    fn encode(&self, keylen: u8) -> (data: Vec<u8>) {
        let mut w = Writer::new();
        w.write_str(self.version.as_str());
        assert(w@ =~= payload_of(self@, keylen as nat));
        let key = self.key();
        w.into_packet(key.as_slice(), keylen)
    }

    fn key(&self) -> (key: Vec<u8>) {
        slice_to_vec(KEY_EMULATOR_VERSION.as_slice())
    }
}

impl From<EmulatorVersion> for Packet {
    fn from(value: EmulatorVersion) -> (packet: Packet) {
        Packet::EmulatorVersion(value)
    }
}

impl FromSpecImpl<EmulatorVersion> for Packet {
    open spec fn obeys_from_spec() -> bool {
        true
    }

    open spec fn from_spec(value: EmulatorVersion) -> Packet {
        Packet::EmulatorVersion(value)
    }
}

////////////////////////////////////// EMULATOR_CORE //////////////////////////////////////
#[derive(Debug, PartialEq)]
pub struct EmulatorCore {
    pub core: String,
}

impl View for EmulatorCore {
    type V = Record;

    open spec fn view(&self) -> Record {
        Record::EmulatorCore { core: self.core@ }
    }
}

impl Clone for EmulatorCore {
    fn clone(&self) -> (res: Self)
        ensures
            res@ == self@,
    {
        Self { core: self.core.clone() }
    }
}

impl Decode for EmulatorCore {
    open spec fn parsed(key: Seq<u8>, body: Seq<u8>, whole: Seq<u8>) -> Result<Record, Fault> {
        parse_emulator_core(key, body, whole)
    }

    fn decode(key: &[u8], payload: Reader) -> (r: Result<Self, PacketError>) {
        let mut reader = payload;
        let ghost body = reader.rest();
        assert(reader.rest() =~= body.skip(0));
        let core = reader.read_string(reader.remaining());
        assert(body.skip(0).take(body.skip(0).len() as int) =~= body.skip(0));
        assert(body.skip(0) =~= body);
        Ok(Self { core })
    }

    fn kind(&self) -> (kind: PacketKind) {
        PacketKind::EmulatorCore
    }
}

impl Encode for EmulatorCore {
    fn encode(&self, keylen: u8) -> (data: Vec<u8>) {
        let mut w = Writer::new();
        w.write_str(self.core.as_str());
        assert(w@ =~= payload_of(self@, keylen as nat));
        let key = self.key();
        w.into_packet(key.as_slice(), keylen)
    }

    fn key(&self) -> (key: Vec<u8>) {
        slice_to_vec(KEY_EMULATOR_CORE.as_slice())
    }
}

impl From<EmulatorCore> for Packet {
    fn from(value: EmulatorCore) -> (packet: Packet) {
        Packet::EmulatorCore(value)
    }
}

impl FromSpecImpl<EmulatorCore> for Packet {
    open spec fn obeys_from_spec() -> bool {
        true
    }

    open spec fn from_spec(value: EmulatorCore) -> Packet {
        Packet::EmulatorCore(value)
    }
}

////////////////////////////////////// TAS_LAST_MODIFIED //////////////////////////////////////
#[derive(Debug, PartialEq)]
pub struct TasLastModified {
    pub epoch: i64,
}

impl View for TasLastModified {
    type V = Record;

    open spec fn view(&self) -> Record {
        Record::TasLastModified { epoch: self.epoch }
    }
}

impl Clone for TasLastModified {
    fn clone(&self) -> (res: Self)
        ensures
            res@ == self@,
    {
        Self { epoch: self.epoch }
    }
}

impl Decode for TasLastModified {
    open spec fn parsed(key: Seq<u8>, body: Seq<u8>, whole: Seq<u8>) -> Result<Record, Fault> {
        parse_tas_last_modified(key, body, whole)
    }

    fn decode(key: &[u8], payload: Reader) -> (r: Result<Self, PacketError>) {
        let mut reader = payload;
        let ghost body = reader.rest();
        assert(reader.rest() =~= body.skip(0));
        if reader.remaining() != 8 {
            return Err(PacketError::invalid(key, reader));
        }
        let epoch = reader.read_i64();
        assert(reader.rest() =~= body.skip(8));
        Ok(Self { epoch })
    }

    fn kind(&self) -> (kind: PacketKind) {
        PacketKind::TasLastModified
    }
}

impl Encode for TasLastModified {
    fn encode(&self, keylen: u8) -> (data: Vec<u8>) {
        let mut w = Writer::new();
        w.write_i64(self.epoch);
        assert(w@ =~= payload_of(self@, keylen as nat));
        let key = self.key();
        w.into_packet(key.as_slice(), keylen)
    }

    fn key(&self) -> (key: Vec<u8>) {
        slice_to_vec(KEY_TAS_LAST_MODIFIED.as_slice())
    }
}

impl From<TasLastModified> for Packet {
    fn from(value: TasLastModified) -> (packet: Packet) {
        Packet::TasLastModified(value)
    }
}

impl FromSpecImpl<TasLastModified> for Packet {
    open spec fn obeys_from_spec() -> bool {
        true
    }

    open spec fn from_spec(value: TasLastModified) -> Packet {
        Packet::TasLastModified(value)
    }
}

////////////////////////////////////// DUMP_CREATED //////////////////////////////////////
#[derive(Debug, PartialEq)]
pub struct DumpCreated {
    pub epoch: i64,
}

impl View for DumpCreated {
    type V = Record;

    open spec fn view(&self) -> Record {
        Record::DumpCreated { epoch: self.epoch }
    }
}

impl Clone for DumpCreated {
    fn clone(&self) -> (res: Self)
        ensures
            res@ == self@,
    {
        Self { epoch: self.epoch }
    }
}

impl Decode for DumpCreated {
    open spec fn parsed(key: Seq<u8>, body: Seq<u8>, whole: Seq<u8>) -> Result<Record, Fault> {
        parse_dump_created(key, body, whole)
    }

    fn decode(key: &[u8], payload: Reader) -> (r: Result<Self, PacketError>) {
        let mut reader = payload;
        let ghost body = reader.rest();
        assert(reader.rest() =~= body.skip(0));
        if reader.remaining() != 8 {
            return Err(PacketError::invalid(key, reader));
        }
        let epoch = reader.read_i64();
        assert(reader.rest() =~= body.skip(8));
        Ok(Self { epoch })
    }

    fn kind(&self) -> (kind: PacketKind) {
        PacketKind::DumpCreated
    }
}

impl Encode for DumpCreated {
    fn encode(&self, keylen: u8) -> (data: Vec<u8>) {
        let mut w = Writer::new();
        w.write_i64(self.epoch);
        assert(w@ =~= payload_of(self@, keylen as nat));
        let key = self.key();
        w.into_packet(key.as_slice(), keylen)
    }

    fn key(&self) -> (key: Vec<u8>) {
        slice_to_vec(KEY_DUMP_CREATED.as_slice())
    }
}

impl From<DumpCreated> for Packet {
    fn from(value: DumpCreated) -> (packet: Packet) {
        Packet::DumpCreated(value)
    }
}

impl FromSpecImpl<DumpCreated> for Packet {
    open spec fn obeys_from_spec() -> bool {
        true
    }

    open spec fn from_spec(value: DumpCreated) -> Packet {
        Packet::DumpCreated(value)
    }
}

////////////////////////////////////// DUMP_LAST_MODIFIED //////////////////////////////////////
#[derive(Debug, PartialEq)]
pub struct DumpLastModified {
    pub epoch: i64,
}

impl View for DumpLastModified {
    type V = Record;

    open spec fn view(&self) -> Record {
        Record::DumpLastModified { epoch: self.epoch }
    }
}

impl Clone for DumpLastModified {
    fn clone(&self) -> (res: Self)
        ensures
            res@ == self@,
    {
        Self { epoch: self.epoch }
    }
}

impl Decode for DumpLastModified {
    open spec fn parsed(key: Seq<u8>, body: Seq<u8>, whole: Seq<u8>) -> Result<Record, Fault> {
        parse_dump_last_modified(key, body, whole)
    }

    fn decode(key: &[u8], payload: Reader) -> (r: Result<Self, PacketError>) {
        let mut reader = payload;
        let ghost body = reader.rest();
        assert(reader.rest() =~= body.skip(0));
        if reader.remaining() != 8 {
            return Err(PacketError::invalid(key, reader));
        }
        let epoch = reader.read_i64();
        assert(reader.rest() =~= body.skip(8));
        Ok(Self { epoch })
    }

    fn kind(&self) -> (kind: PacketKind) {
        PacketKind::DumpLastModified
    }
}

impl Encode for DumpLastModified {
    fn encode(&self, keylen: u8) -> (data: Vec<u8>) {
        let mut w = Writer::new();
        w.write_i64(self.epoch);
        assert(w@ =~= payload_of(self@, keylen as nat));
        let key = self.key();
        w.into_packet(key.as_slice(), keylen)
    }

    fn key(&self) -> (key: Vec<u8>) {
        slice_to_vec(KEY_DUMP_LAST_MODIFIED.as_slice())
    }
}

impl From<DumpLastModified> for Packet {
    fn from(value: DumpLastModified) -> (packet: Packet) {
        Packet::DumpLastModified(value)
    }
}

impl FromSpecImpl<DumpLastModified> for Packet {
    open spec fn obeys_from_spec() -> bool {
        true
    }

    open spec fn from_spec(value: DumpLastModified) -> Packet {
        Packet::DumpLastModified(value)
    }
}

////////////////////////////////////// TOTAL_FRAMES //////////////////////////////////////
#[derive(Debug, PartialEq)]
pub struct TotalFrames {
    pub frames: u32,
}

impl View for TotalFrames {
    type V = Record;

    open spec fn view(&self) -> Record {
        Record::TotalFrames { frames: self.frames }
    }
}

impl Clone for TotalFrames {
    fn clone(&self) -> (res: Self)
        ensures
            res@ == self@,
    {
        Self { frames: self.frames }
    }
}

impl Decode for TotalFrames {
    open spec fn parsed(key: Seq<u8>, body: Seq<u8>, whole: Seq<u8>) -> Result<Record, Fault> {
        parse_total_frames(key, body, whole)
    }

    fn decode(key: &[u8], payload: Reader) -> (r: Result<Self, PacketError>) {
        let mut reader = payload;
        let ghost body = reader.rest();
        assert(reader.rest() =~= body.skip(0));
        if reader.remaining() != 4 {
            return Err(PacketError::invalid(key, reader));
        }
        let frames = reader.read_u32();
        assert(reader.rest() =~= body.skip(4));
        Ok(Self { frames })
    }

    fn kind(&self) -> (kind: PacketKind) {
        PacketKind::TotalFrames
    }
}

impl Encode for TotalFrames {
    fn encode(&self, keylen: u8) -> (data: Vec<u8>) {
        let mut w = Writer::new();
        w.write_u32(self.frames);
        assert(w@ =~= payload_of(self@, keylen as nat));
        let key = self.key();
        w.into_packet(key.as_slice(), keylen)
    }

    fn key(&self) -> (key: Vec<u8>) {
        slice_to_vec(KEY_TOTAL_FRAMES.as_slice())
    }
}

impl From<TotalFrames> for Packet {
    fn from(value: TotalFrames) -> (packet: Packet) {
        Packet::TotalFrames(value)
    }
}

impl FromSpecImpl<TotalFrames> for Packet {
    open spec fn obeys_from_spec() -> bool {
        true
    }

    open spec fn from_spec(value: TotalFrames) -> Packet {
        Packet::TotalFrames(value)
    }
}

////////////////////////////////////// RERECORDS //////////////////////////////////////
#[derive(Debug, PartialEq)]
pub struct Rerecords {
    pub rerecords: u32,
}

impl View for Rerecords {
    type V = Record;

    open spec fn view(&self) -> Record {
        Record::Rerecords { rerecords: self.rerecords }
    }
}

impl Clone for Rerecords {
    fn clone(&self) -> (res: Self)
        ensures
            res@ == self@,
    {
        Self { rerecords: self.rerecords }
    }
}

impl Decode for Rerecords {
    open spec fn parsed(key: Seq<u8>, body: Seq<u8>, whole: Seq<u8>) -> Result<Record, Fault> {
        parse_rerecords(key, body, whole)
    }

    fn decode(key: &[u8], payload: Reader) -> (r: Result<Self, PacketError>) {
        let mut reader = payload;
        let ghost body = reader.rest();
        assert(reader.rest() =~= body.skip(0));
        if reader.remaining() != 4 {
            return Err(PacketError::invalid(key, reader));
        }
        let rerecords = reader.read_u32();
        assert(reader.rest() =~= body.skip(4));
        Ok(Self { rerecords })
    }

    fn kind(&self) -> (kind: PacketKind) {
        PacketKind::Rerecords
    }
}

impl Encode for Rerecords {
    fn encode(&self, keylen: u8) -> (data: Vec<u8>) {
        let mut w = Writer::new();
        w.write_u32(self.rerecords);
        assert(w@ =~= payload_of(self@, keylen as nat));
        let key = self.key();
        w.into_packet(key.as_slice(), keylen)
    }

    fn key(&self) -> (key: Vec<u8>) {
        slice_to_vec(KEY_RERECORDS.as_slice())
    }
}

impl From<Rerecords> for Packet {
    fn from(value: Rerecords) -> (packet: Packet) {
        Packet::Rerecords(value)
    }
}

impl FromSpecImpl<Rerecords> for Packet {
    open spec fn obeys_from_spec() -> bool {
        true
    }

    open spec fn from_spec(value: Rerecords) -> Packet {
        Packet::Rerecords(value)
    }
}

////////////////////////////////////// SOURCE_LINK //////////////////////////////////////
#[derive(Debug, PartialEq)]
pub struct SourceLink {
    pub link: String,
}

impl View for SourceLink {
    type V = Record;

    open spec fn view(&self) -> Record {
        Record::SourceLink { link: self.link@ }
    }
}

impl Clone for SourceLink {
    fn clone(&self) -> (res: Self)
        ensures
            res@ == self@,
    {
        Self { link: self.link.clone() }
    }
}

impl Decode for SourceLink {
    open spec fn parsed(key: Seq<u8>, body: Seq<u8>, whole: Seq<u8>) -> Result<Record, Fault> {
        parse_source_link(key, body, whole)
    }

    fn decode(key: &[u8], payload: Reader) -> (r: Result<Self, PacketError>) {
        let mut reader = payload;
        let ghost body = reader.rest();
        assert(reader.rest() =~= body.skip(0));
        let link = reader.read_string(reader.remaining());
        assert(body.skip(0).take(body.skip(0).len() as int) =~= body.skip(0));
        assert(body.skip(0) =~= body);
        Ok(Self { link })
    }

    fn kind(&self) -> (kind: PacketKind) {
        PacketKind::SourceLink
    }
}

impl Encode for SourceLink {
    fn encode(&self, keylen: u8) -> (data: Vec<u8>) {
        let mut w = Writer::new();
        w.write_str(self.link.as_str());
        assert(w@ =~= payload_of(self@, keylen as nat));
        let key = self.key();
        w.into_packet(key.as_slice(), keylen)
    }

    fn key(&self) -> (key: Vec<u8>) {
        slice_to_vec(KEY_SOURCE_LINK.as_slice())
    }
}

impl From<SourceLink> for Packet {
    fn from(value: SourceLink) -> (packet: Packet) {
        Packet::SourceLink(value)
    }
}

impl FromSpecImpl<SourceLink> for Packet {
    open spec fn obeys_from_spec() -> bool {
        true
    }

    open spec fn from_spec(value: SourceLink) -> Packet {
        Packet::SourceLink(value)
    }
}

////////////////////////////////////// BLANK_FRAMES //////////////////////////////////////
#[derive(Debug, PartialEq)]
pub struct BlankFrames {
    pub frames: i16,
}

impl View for BlankFrames {
    type V = Record;

    open spec fn view(&self) -> Record {
        Record::BlankFrames { frames: self.frames }
    }
}

impl Clone for BlankFrames {
    fn clone(&self) -> (res: Self)
        ensures
            res@ == self@,
    {
        Self { frames: self.frames }
    }
}

impl Decode for BlankFrames {
    open spec fn parsed(key: Seq<u8>, body: Seq<u8>, whole: Seq<u8>) -> Result<Record, Fault> {
        parse_blank_frames(key, body, whole)
    }

    fn decode(key: &[u8], payload: Reader) -> (r: Result<Self, PacketError>) {
        let mut reader = payload;
        let ghost body = reader.rest();
        assert(reader.rest() =~= body.skip(0));
        if reader.remaining() != 2 {
            return Err(PacketError::invalid(key, reader));
        }
        let frames = reader.read_i16();
        assert(reader.rest() =~= body.skip(2));
        Ok(Self { frames })
    }

    fn kind(&self) -> (kind: PacketKind) {
        PacketKind::BlankFrames
    }
}

impl Encode for BlankFrames {
    fn encode(&self, keylen: u8) -> (data: Vec<u8>) {
        let mut w = Writer::new();
        w.write_i16(self.frames);
        assert(w@ =~= payload_of(self@, keylen as nat));
        let key = self.key();
        w.into_packet(key.as_slice(), keylen)
    }

    fn key(&self) -> (key: Vec<u8>) {
        slice_to_vec(KEY_BLANK_FRAMES.as_slice())
    }
}

impl From<BlankFrames> for Packet {
    fn from(value: BlankFrames) -> (packet: Packet) {
        Packet::BlankFrames(value)
    }
}

impl FromSpecImpl<BlankFrames> for Packet {
    open spec fn obeys_from_spec() -> bool {
        true
    }

    open spec fn from_spec(value: BlankFrames) -> Packet {
        Packet::BlankFrames(value)
    }
}

////////////////////////////////////// VERIFIED //////////////////////////////////////
#[derive(Debug, PartialEq)]
pub struct Verified {
    pub verified: bool,
}

impl View for Verified {
    type V = Record;

    open spec fn view(&self) -> Record {
        Record::Verified { verified: self.verified }
    }
}

impl Clone for Verified {
    fn clone(&self) -> (res: Self)
        ensures
            res@ == self@,
    {
        Self { verified: self.verified }
    }
}

impl Decode for Verified {
    open spec fn parsed(key: Seq<u8>, body: Seq<u8>, whole: Seq<u8>) -> Result<Record, Fault> {
        parse_verified(key, body, whole)
    }

    fn decode(key: &[u8], payload: Reader) -> (r: Result<Self, PacketError>) {
        let mut reader = payload;
        let ghost body = reader.rest();
        assert(reader.rest() =~= body.skip(0));
        if reader.remaining() != 1 {
            return Err(PacketError::invalid(key, reader));
        }
        let verified = reader.read_bool();
        assert(reader.rest() =~= body.skip(1));
        Ok(Self { verified })
    }

    fn kind(&self) -> (kind: PacketKind) {
        PacketKind::Verified
    }
}

impl Encode for Verified {
    fn encode(&self, keylen: u8) -> (data: Vec<u8>) {
        let mut w = Writer::new();
        w.write_bool(self.verified);
        assert(w@ =~= payload_of(self@, keylen as nat));
        let key = self.key();
        w.into_packet(key.as_slice(), keylen)
    }

    fn key(&self) -> (key: Vec<u8>) {
        slice_to_vec(KEY_VERIFIED.as_slice())
    }
}

impl From<Verified> for Packet {
    fn from(value: Verified) -> (packet: Packet) {
        Packet::Verified(value)
    }
}

impl FromSpecImpl<Verified> for Packet {
    open spec fn obeys_from_spec() -> bool {
        true
    }

    open spec fn from_spec(value: Verified) -> Packet {
        Packet::Verified(value)
    }
}

////////////////////////////////////// MEMORY_INIT //////////////////////////////////////
#[derive(Debug, PartialEq)]
pub struct MemoryInit {
    pub data_type: u8,
    pub device: u16,
    pub required: bool,
    pub name: String,
    pub data: Option<Vec<u8>>,
}

impl View for MemoryInit {
    type V = Record;

    open spec fn view(&self) -> Record {
        Record::MemoryInit {
            data_type: self.data_type,
            device: self.device,
            required: self.required,
            name: self.name@,
            data: option_view(self.data),
        }
    }
}

impl Clone for MemoryInit {
    fn clone(&self) -> (res: Self)
        ensures
            res@ == self@,
    {
        let res = Self {
            data_type: self.data_type,
            device: self.device,
            required: self.required,
            name: self.name.clone(),
            data: match &self.data {
                Some(value) => Some(value.clone()),
                None => None,
            },
        };
        assert(option_view(res.data) =~= option_view(self.data)) by {
            if self.data is Some {
                assert(res.data->0@ =~= self.data->0@);
            }
        }
        res
    }
}

impl Decode for MemoryInit {
    open spec fn parsed(key: Seq<u8>, body: Seq<u8>, whole: Seq<u8>) -> Result<Record, Fault> {
        parse_memory_init(key, body, whole)
    }

    fn decode(key: &[u8], payload: Reader) -> (r: Result<Self, PacketError>) {
        let mut reader = payload;
        let ghost body = reader.rest();
        assert(reader.rest() =~= body.skip(0));
        if reader.remaining() < 5 {
            return Err(PacketError::invalid(key, reader));
        }
        let data_type = reader.read_u8();
        assert(reader.rest() =~= body.skip(1));
        let device = reader.read_u16();
        assert(reader.rest() =~= body.skip(3));
        let required = reader.read_bool();
        assert(reader.rest() =~= body.skip(4));
        let nlen = reader.read_u8();
        assert(reader.rest() =~= body.skip(5));
        if reader.remaining() < nlen as usize {
            return Err(PacketError::invalid(key, reader));
        }
        let name = reader.read_string(nlen as usize);
        assert(reader.rest() =~= body.skip(5 + nlen));
        let data = if data_type == 0xFF {
            Some(slice_to_vec(reader.read_remaining()))
        } else {
            None
        };
        Ok(Self { data_type, device, required, name, data })
    }

    fn kind(&self) -> (kind: PacketKind) {
        PacketKind::MemoryInit
    }
}

impl Encode for MemoryInit {
    fn encode(&self, keylen: u8) -> (data: Vec<u8>) {
        let mut w = Writer::new();
        w.write_u8(self.data_type);
        w.write_u16(self.device);
        w.write_bool(self.required);
        w.write_u8_str(self.name.as_str());
        match &self.data {
            Some(data) => {
                w.write_slice(data.as_slice());
            },
            None => {},
        }
        assert(w@ =~= payload_of(self@, keylen as nat));
        let key = self.key();
        w.into_packet(key.as_slice(), keylen)
    }

    fn key(&self) -> (key: Vec<u8>) {
        slice_to_vec(KEY_MEMORY_INIT.as_slice())
    }
}

impl From<MemoryInit> for Packet {
    fn from(value: MemoryInit) -> (packet: Packet) {
        Packet::MemoryInit(value)
    }
}

impl FromSpecImpl<MemoryInit> for Packet {
    open spec fn obeys_from_spec() -> bool {
        true
    }

    open spec fn from_spec(value: MemoryInit) -> Packet {
        Packet::MemoryInit(value)
    }
}

////////////////////////////////////// GAME_IDENTIFIER //////////////////////////////////////
#[derive(Debug, PartialEq)]
pub struct GameIdentifier {
    pub kind: u8,
    pub encoding: u8,
    pub identifier: Vec<u8>,
}

impl View for GameIdentifier {
    type V = Record;

    open spec fn view(&self) -> Record {
        Record::GameIdentifier {
            kind: self.kind,
            encoding: self.encoding,
            identifier: self.identifier@,
        }
    }
}

impl Clone for GameIdentifier {
    fn clone(&self) -> (res: Self)
        ensures
            res@ == self@,
    {
        let res = Self {
            kind: self.kind,
            encoding: self.encoding,
            identifier: self.identifier.clone(),
        };
        assert(res.identifier@ =~= self.identifier@);
        res
    }
}

impl Decode for GameIdentifier {
    open spec fn parsed(key: Seq<u8>, body: Seq<u8>, whole: Seq<u8>) -> Result<Record, Fault> {
        parse_game_identifier(key, body, whole)
    }

    fn decode(key: &[u8], payload: Reader) -> (r: Result<Self, PacketError>) {
        let mut reader = payload;
        let ghost body = reader.rest();
        assert(reader.rest() =~= body.skip(0));
        if reader.remaining() < 2 {
            return Err(PacketError::invalid(key, reader));
        }
        let kind = reader.read_u8();
        assert(reader.rest() =~= body.skip(1));
        let encoding = reader.read_u8();
        assert(reader.rest() =~= body.skip(2));
        let identifier = slice_to_vec(reader.read_remaining());
        Ok(Self { kind, encoding, identifier })
    }

    fn kind(&self) -> (kind: PacketKind) {
        PacketKind::GameIdentifier
    }
}

impl Encode for GameIdentifier {
    fn encode(&self, keylen: u8) -> (data: Vec<u8>) {
        let mut w = Writer::new();
        w.write_u8(self.kind);
        w.write_u8(self.encoding);
        w.write_slice(self.identifier.as_slice());
        assert(w@ =~= payload_of(self@, keylen as nat));
        let key = self.key();
        w.into_packet(key.as_slice(), keylen)
    }

    fn key(&self) -> (key: Vec<u8>) {
        slice_to_vec(KEY_GAME_IDENTIFIER.as_slice())
    }
}

impl From<GameIdentifier> for Packet {
    fn from(value: GameIdentifier) -> (packet: Packet) {
        Packet::GameIdentifier(value)
    }
}

impl FromSpecImpl<GameIdentifier> for Packet {
    open spec fn obeys_from_spec() -> bool {
        true
    }

    open spec fn from_spec(value: GameIdentifier) -> Packet {
        Packet::GameIdentifier(value)
    }
}

////////////////////////////////////// MOVIE_LICENSE //////////////////////////////////////
#[derive(Debug, PartialEq)]
pub struct MovieLicense {
    pub license: String,
}

impl View for MovieLicense {
    type V = Record;

    open spec fn view(&self) -> Record {
        Record::MovieLicense { license: self.license@ }
    }
}

impl Clone for MovieLicense {
    fn clone(&self) -> (res: Self)
        ensures
            res@ == self@,
    {
        Self { license: self.license.clone() }
    }
}

impl Decode for MovieLicense {
    open spec fn parsed(key: Seq<u8>, body: Seq<u8>, whole: Seq<u8>) -> Result<Record, Fault> {
        parse_movie_license(key, body, whole)
    }

    fn decode(key: &[u8], payload: Reader) -> (r: Result<Self, PacketError>) {
        let mut reader = payload;
        let ghost body = reader.rest();
        assert(reader.rest() =~= body.skip(0));
        let license = reader.read_string(reader.remaining());
        assert(body.skip(0).take(body.skip(0).len() as int) =~= body.skip(0));
        assert(body.skip(0) =~= body);
        Ok(Self { license })
    }

    fn kind(&self) -> (kind: PacketKind) {
        PacketKind::MovieLicense
    }
}

impl Encode for MovieLicense {
    fn encode(&self, keylen: u8) -> (data: Vec<u8>) {
        let mut w = Writer::new();
        w.write_str(self.license.as_str());
        assert(w@ =~= payload_of(self@, keylen as nat));
        let key = self.key();
        w.into_packet(key.as_slice(), keylen)
    }

    fn key(&self) -> (key: Vec<u8>) {
        slice_to_vec(KEY_MOVIE_LICENSE.as_slice())
    }
}

impl From<MovieLicense> for Packet {
    fn from(value: MovieLicense) -> (packet: Packet) {
        Packet::MovieLicense(value)
    }
}

impl FromSpecImpl<MovieLicense> for Packet {
    open spec fn obeys_from_spec() -> bool {
        true
    }

    open spec fn from_spec(value: MovieLicense) -> Packet {
        Packet::MovieLicense(value)
    }
}

////////////////////////////////////// MOVIE_FILE //////////////////////////////////////
#[derive(Debug, PartialEq)]
pub struct MovieFile {
    pub name: String,
    pub data: Vec<u8>,
}

impl View for MovieFile {
    type V = Record;

    open spec fn view(&self) -> Record {
        Record::MovieFile { name: self.name@, data: self.data@ }
    }
}

impl Clone for MovieFile {
    fn clone(&self) -> (res: Self)
        ensures
            res@ == self@,
    {
        let res = Self { name: self.name.clone(), data: self.data.clone() };
        assert(res.data@ =~= self.data@);
        res
    }
}

impl Decode for MovieFile {
    open spec fn parsed(key: Seq<u8>, body: Seq<u8>, whole: Seq<u8>) -> Result<Record, Fault> {
        parse_movie_file(key, body, whole)
    }

    fn decode(key: &[u8], payload: Reader) -> (r: Result<Self, PacketError>) {
        let mut reader = payload;
        let ghost body = reader.rest();
        if reader.remaining() < 1 {
            return Err(PacketError::invalid(key, reader));
        }
        let nlen = reader.read_u8();
        if reader.remaining() < nlen as usize {
            return Err(PacketError::invalid(key, reader));
        }
        let name = reader.read_string(nlen as usize);
        assert(reader.rest() =~= body.skip(1 + nlen));
        let data = slice_to_vec(reader.read_remaining());
        Ok(Self { name, data })
    }

    fn kind(&self) -> (kind: PacketKind) {
        PacketKind::MovieFile
    }
}

impl Encode for MovieFile {
    fn encode(&self, keylen: u8) -> (data: Vec<u8>) {
        let mut w = Writer::new();
        w.write_u8_str(self.name.as_str());
        w.write_slice(self.data.as_slice());
        assert(w@ =~= payload_of(self@, keylen as nat));
        let key = self.key();
        w.into_packet(key.as_slice(), keylen)
    }

    fn key(&self) -> (key: Vec<u8>) {
        slice_to_vec(KEY_MOVIE_FILE.as_slice())
    }
}

impl From<MovieFile> for Packet {
    fn from(value: MovieFile) -> (packet: Packet) {
        Packet::MovieFile(value)
    }
}

impl FromSpecImpl<MovieFile> for Packet {
    open spec fn obeys_from_spec() -> bool {
        true
    }

    open spec fn from_spec(value: MovieFile) -> Packet {
        Packet::MovieFile(value)
    }
}

////////////////////////////////////// PORT_CONTROLLER //////////////////////////////////////
#[derive(Debug, PartialEq)]
pub struct PortController {
    pub port: u8,
    pub kind: u16,
}

impl View for PortController {
    type V = Record;

    open spec fn view(&self) -> Record {
        Record::PortController { port: self.port, kind: self.kind }
    }
}

impl Clone for PortController {
    fn clone(&self) -> (res: Self)
        ensures
            res@ == self@,
    {
        Self { port: self.port, kind: self.kind }
    }
}

impl Decode for PortController {
    open spec fn parsed(key: Seq<u8>, body: Seq<u8>, whole: Seq<u8>) -> Result<Record, Fault> {
        parse_port_controller(key, body, whole)
    }

    fn decode(key: &[u8], payload: Reader) -> (r: Result<Self, PacketError>) {
        let mut reader = payload;
        let ghost body = reader.rest();
        assert(reader.rest() =~= body.skip(0));
        if reader.remaining() != 3 {
            return Err(PacketError::invalid(key, reader));
        }
        let port = reader.read_u8();
        assert(reader.rest() =~= body.skip(1));
        let kind = reader.read_u16();
        assert(reader.rest() =~= body.skip(3));
        Ok(Self { port, kind })
    }

    fn kind(&self) -> (kind: PacketKind) {
        PacketKind::PortController
    }
}

impl Encode for PortController {
    fn encode(&self, keylen: u8) -> (data: Vec<u8>) {
        let mut w = Writer::new();
        w.write_u8(self.port);
        w.write_u16(self.kind);
        assert(w@ =~= payload_of(self@, keylen as nat));
        let key = self.key();
        w.into_packet(key.as_slice(), keylen)
    }

    fn key(&self) -> (key: Vec<u8>) {
        slice_to_vec(KEY_PORT_CONTROLLER.as_slice())
    }
}

impl From<PortController> for Packet {
    fn from(value: PortController) -> (packet: Packet) {
        Packet::PortController(value)
    }
}

impl FromSpecImpl<PortController> for Packet {
    open spec fn obeys_from_spec() -> bool {
        true
    }

    open spec fn from_spec(value: PortController) -> Packet {
        Packet::PortController(value)
    }
}

} // verus!
