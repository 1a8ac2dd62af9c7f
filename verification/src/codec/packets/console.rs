//! Records that hold for one family of consoles only.

use crate::codec::model::{
    parse_genesis_game_genie_code, parse_nes_clock_filter, parse_nes_game_genie_code,
    parse_nes_latch_filter, parse_nes_overread, parse_snes_clock_filter,
    parse_snes_game_genie_code, parse_snes_latch_train, parse_snes_overread, payload_of, u64_at,
    u64s_at, u64s_bytes, Fault, Record,
};
use crate::codec::packets::{
    Decode, Encode, Packet, PacketError, PacketKind, KEY_GENESIS_GAME_GENIE_CODE,
    KEY_NES_CLOCK_FILTER, KEY_NES_GAME_GENIE_CODE, KEY_NES_LATCH_FILTER, KEY_NES_OVERREAD,
    KEY_SNES_CLOCK_FILTER, KEY_SNES_GAME_GENIE_CODE, KEY_SNES_LATCH_TRAIN, KEY_SNES_OVERREAD,
};
use crate::codec::reader::Reader;
use crate::codec::writer::Writer;
use vstd::prelude::*;
use vstd::slice::slice_to_vec;
use vstd::std_specs::convert::FromSpecImpl;

verus! {

////////////////////////////////////// NES_LATCH_FILTER //////////////////////////////////////
#[derive(Debug, PartialEq)]
pub struct NesLatchFilter {
    pub time: u16,
}

impl View for NesLatchFilter {
    type V = Record;

    open spec fn view(&self) -> Record {
        Record::NesLatchFilter { time: self.time }
    }
}

impl Clone for NesLatchFilter {
    fn clone(&self) -> (res: Self)
        ensures
            res@ == self@,
    {
        Self { time: self.time }
    }
}

impl Decode for NesLatchFilter {
    open spec fn parsed(key: Seq<u8>, body: Seq<u8>, whole: Seq<u8>) -> Result<Record, Fault> {
        parse_nes_latch_filter(key, body, whole)
    }

    fn decode(key: &[u8], payload: Reader) -> (r: Result<Self, PacketError>) {
        let mut reader = payload;
        let ghost body = reader.rest();
        assert(reader.rest() =~= body.skip(0));
        if reader.remaining() != 2 {
            return Err(PacketError::invalid(key, reader));
        }
        let time = reader.read_u16();
        assert(reader.rest() =~= body.skip(2));
        Ok(Self { time })
    }

    fn kind(&self) -> (kind: PacketKind) {
        PacketKind::NesLatchFilter
    }
}

impl Encode for NesLatchFilter {
    fn encode(&self, keylen: u8) -> (data: Vec<u8>) {
        let mut w = Writer::new();
        w.write_u16(self.time);
        assert(w@ =~= payload_of(self@, keylen as nat));
        let key = self.key();
        w.into_packet(key.as_slice(), keylen)
    }

    fn key(&self) -> (key: Vec<u8>) {
        slice_to_vec(KEY_NES_LATCH_FILTER.as_slice())
    }
}

impl From<NesLatchFilter> for Packet {
    fn from(value: NesLatchFilter) -> (packet: Packet) {
        Packet::NesLatchFilter(value)
    }
}

impl FromSpecImpl<NesLatchFilter> for Packet {
    open spec fn obeys_from_spec() -> bool {
        true
    }

    open spec fn from_spec(value: NesLatchFilter) -> Packet {
        Packet::NesLatchFilter(value)
    }
}

////////////////////////////////////// NES_CLOCK_FILTER //////////////////////////////////////
#[derive(Debug, PartialEq)]
pub struct NesClockFilter {
    pub time: u8,
}

impl View for NesClockFilter {
    type V = Record;

    open spec fn view(&self) -> Record {
        Record::NesClockFilter { time: self.time }
    }
}

impl Clone for NesClockFilter {
    fn clone(&self) -> (res: Self)
        ensures
            res@ == self@,
    {
        Self { time: self.time }
    }
}

impl Decode for NesClockFilter {
    open spec fn parsed(key: Seq<u8>, body: Seq<u8>, whole: Seq<u8>) -> Result<Record, Fault> {
        parse_nes_clock_filter(key, body, whole)
    }

    fn decode(key: &[u8], payload: Reader) -> (r: Result<Self, PacketError>) {
        let mut reader = payload;
        let ghost body = reader.rest();
        assert(reader.rest() =~= body.skip(0));
        if reader.remaining() != 1 {
            return Err(PacketError::invalid(key, reader));
        }
        let time = reader.read_u8();
        assert(reader.rest() =~= body.skip(1));
        Ok(Self { time })
    }

    fn kind(&self) -> (kind: PacketKind) {
        PacketKind::NesClockFilter
    }
}

impl Encode for NesClockFilter {
    fn encode(&self, keylen: u8) -> (data: Vec<u8>) {
        let mut w = Writer::new();
        w.write_u8(self.time);
        assert(w@ =~= payload_of(self@, keylen as nat));
        let key = self.key();
        w.into_packet(key.as_slice(), keylen)
    }

    fn key(&self) -> (key: Vec<u8>) {
        slice_to_vec(KEY_NES_CLOCK_FILTER.as_slice())
    }
}

impl From<NesClockFilter> for Packet {
    fn from(value: NesClockFilter) -> (packet: Packet) {
        Packet::NesClockFilter(value)
    }
}

impl FromSpecImpl<NesClockFilter> for Packet {
    open spec fn obeys_from_spec() -> bool {
        true
    }

    open spec fn from_spec(value: NesClockFilter) -> Packet {
        Packet::NesClockFilter(value)
    }
}

////////////////////////////////////// NES_OVERREAD //////////////////////////////////////
#[derive(Debug, PartialEq)]
pub struct NesOverread {
    pub overread: bool,
}

impl View for NesOverread {
    type V = Record;

    open spec fn view(&self) -> Record {
        Record::NesOverread { overread: self.overread }
    }
}

impl Clone for NesOverread {
    fn clone(&self) -> (res: Self)
        ensures
            res@ == self@,
    {
        Self { overread: self.overread }
    }
}

impl Decode for NesOverread {
    open spec fn parsed(key: Seq<u8>, body: Seq<u8>, whole: Seq<u8>) -> Result<Record, Fault> {
        parse_nes_overread(key, body, whole)
    }

    fn decode(key: &[u8], payload: Reader) -> (r: Result<Self, PacketError>) {
        let mut reader = payload;
        let ghost body = reader.rest();
        assert(reader.rest() =~= body.skip(0));
        if reader.remaining() != 1 {
            return Err(PacketError::invalid(key, reader));
        }
        let overread = reader.read_bool();
        assert(reader.rest() =~= body.skip(1));
        Ok(Self { overread })
    }

    fn kind(&self) -> (kind: PacketKind) {
        PacketKind::NesOverread
    }
}

impl Encode for NesOverread {
    fn encode(&self, keylen: u8) -> (data: Vec<u8>) {
        let mut w = Writer::new();
        w.write_bool(self.overread);
        assert(w@ =~= payload_of(self@, keylen as nat));
        let key = self.key();
        w.into_packet(key.as_slice(), keylen)
    }

    fn key(&self) -> (key: Vec<u8>) {
        slice_to_vec(KEY_NES_OVERREAD.as_slice())
    }
}

impl From<NesOverread> for Packet {
    fn from(value: NesOverread) -> (packet: Packet) {
        Packet::NesOverread(value)
    }
}

impl FromSpecImpl<NesOverread> for Packet {
    open spec fn obeys_from_spec() -> bool {
        true
    }

    open spec fn from_spec(value: NesOverread) -> Packet {
        Packet::NesOverread(value)
    }
}

////////////////////////////////////// NES_GAME_GENIE_CODE //////////////////////////////////////
#[derive(Debug, PartialEq)]
pub struct NesGameGenieCode {
    pub code: String,
}

impl View for NesGameGenieCode {
    type V = Record;

    open spec fn view(&self) -> Record {
        Record::NesGameGenieCode { code: self.code@ }
    }
}

impl Clone for NesGameGenieCode {
    fn clone(&self) -> (res: Self)
        ensures
            res@ == self@,
    {
        Self { code: self.code.clone() }
    }
}

impl Decode for NesGameGenieCode {
    open spec fn parsed(key: Seq<u8>, body: Seq<u8>, whole: Seq<u8>) -> Result<Record, Fault> {
        parse_nes_game_genie_code(key, body, whole)
    }

    fn decode(key: &[u8], payload: Reader) -> (r: Result<Self, PacketError>) {
        let mut reader = payload;
        let ghost body = reader.rest();
        assert(reader.rest() =~= body.skip(0));
        let code = reader.read_string(reader.remaining());
        assert(body.skip(0).take(body.skip(0).len() as int) =~= body.skip(0));
        assert(body.skip(0) =~= body);
        Ok(Self { code })
    }

    fn kind(&self) -> (kind: PacketKind) {
        PacketKind::NesGameGenieCode
    }
}

impl Encode for NesGameGenieCode {
    fn encode(&self, keylen: u8) -> (data: Vec<u8>) {
        let mut w = Writer::new();
        w.write_str(self.code.as_str());
        assert(w@ =~= payload_of(self@, keylen as nat));
        let key = self.key();
        w.into_packet(key.as_slice(), keylen)
    }

    fn key(&self) -> (key: Vec<u8>) {
        slice_to_vec(KEY_NES_GAME_GENIE_CODE.as_slice())
    }
}

impl From<NesGameGenieCode> for Packet {
    fn from(value: NesGameGenieCode) -> (packet: Packet) {
        Packet::NesGameGenieCode(value)
    }
}

impl FromSpecImpl<NesGameGenieCode> for Packet {
    open spec fn obeys_from_spec() -> bool {
        true
    }

    open spec fn from_spec(value: NesGameGenieCode) -> Packet {
        Packet::NesGameGenieCode(value)
    }
}

////////////////////////////////////// SNES_CLOCK_FILTER //////////////////////////////////////
#[derive(Debug, PartialEq)]
pub struct SnesClockFilter {
    pub time: u8,
}

impl View for SnesClockFilter {
    type V = Record;

    open spec fn view(&self) -> Record {
        Record::SnesClockFilter { time: self.time }
    }
}

impl Clone for SnesClockFilter {
    fn clone(&self) -> (res: Self)
        ensures
            res@ == self@,
    {
        Self { time: self.time }
    }
}

impl Decode for SnesClockFilter {
    open spec fn parsed(key: Seq<u8>, body: Seq<u8>, whole: Seq<u8>) -> Result<Record, Fault> {
        parse_snes_clock_filter(key, body, whole)
    }

    fn decode(key: &[u8], payload: Reader) -> (r: Result<Self, PacketError>) {
        let mut reader = payload;
        let ghost body = reader.rest();
        assert(reader.rest() =~= body.skip(0));
        if reader.remaining() != 1 {
            return Err(PacketError::invalid(key, reader));
        }
        let time = reader.read_u8();
        assert(reader.rest() =~= body.skip(1));
        Ok(Self { time })
    }

    fn kind(&self) -> (kind: PacketKind) {
        PacketKind::SnesClockFilter
    }
}

impl Encode for SnesClockFilter {
    fn encode(&self, keylen: u8) -> (data: Vec<u8>) {
        let mut w = Writer::new();
        w.write_u8(self.time);
        assert(w@ =~= payload_of(self@, keylen as nat));
        let key = self.key();
        w.into_packet(key.as_slice(), keylen)
    }

    fn key(&self) -> (key: Vec<u8>) {
        slice_to_vec(KEY_SNES_CLOCK_FILTER.as_slice())
    }
}

impl From<SnesClockFilter> for Packet {
    fn from(value: SnesClockFilter) -> (packet: Packet) {
        Packet::SnesClockFilter(value)
    }
}

impl FromSpecImpl<SnesClockFilter> for Packet {
    open spec fn obeys_from_spec() -> bool {
        true
    }

    open spec fn from_spec(value: SnesClockFilter) -> Packet {
        Packet::SnesClockFilter(value)
    }
}

////////////////////////////////////// SNES_OVERREAD //////////////////////////////////////
#[derive(Debug, PartialEq)]
pub struct SnesOverread {
    pub overread: bool,
}

impl View for SnesOverread {
    type V = Record;

    open spec fn view(&self) -> Record {
        Record::SnesOverread { overread: self.overread }
    }
}

impl Clone for SnesOverread {
    fn clone(&self) -> (res: Self)
        ensures
            res@ == self@,
    {
        Self { overread: self.overread }
    }
}

impl Decode for SnesOverread {
    open spec fn parsed(key: Seq<u8>, body: Seq<u8>, whole: Seq<u8>) -> Result<Record, Fault> {
        parse_snes_overread(key, body, whole)
    }

    fn decode(key: &[u8], payload: Reader) -> (r: Result<Self, PacketError>) {
        let mut reader = payload;
        let ghost body = reader.rest();
        assert(reader.rest() =~= body.skip(0));
        if reader.remaining() != 1 {
            return Err(PacketError::invalid(key, reader));
        }
        let overread = reader.read_bool();
        assert(reader.rest() =~= body.skip(1));
        Ok(Self { overread })
    }

    fn kind(&self) -> (kind: PacketKind) {
        PacketKind::SnesOverread
    }
}

impl Encode for SnesOverread {
    fn encode(&self, keylen: u8) -> (data: Vec<u8>) {
        let mut w = Writer::new();
        w.write_bool(self.overread);
        assert(w@ =~= payload_of(self@, keylen as nat));
        let key = self.key();
        w.into_packet(key.as_slice(), keylen)
    }

    fn key(&self) -> (key: Vec<u8>) {
        slice_to_vec(KEY_SNES_OVERREAD.as_slice())
    }
}

impl From<SnesOverread> for Packet {
    fn from(value: SnesOverread) -> (packet: Packet) {
        Packet::SnesOverread(value)
    }
}

impl FromSpecImpl<SnesOverread> for Packet {
    open spec fn obeys_from_spec() -> bool {
        true
    }

    open spec fn from_spec(value: SnesOverread) -> Packet {
        Packet::SnesOverread(value)
    }
}

////////////////////////////////////// SNES_GAME_GENIE_CODE //////////////////////////////////////
#[derive(Debug, PartialEq)]
pub struct SnesGameGenieCode {
    pub code: String,
}

impl View for SnesGameGenieCode {
    type V = Record;

    open spec fn view(&self) -> Record {
        Record::SnesGameGenieCode { code: self.code@ }
    }
}

impl Clone for SnesGameGenieCode {
    fn clone(&self) -> (res: Self)
        ensures
            res@ == self@,
    {
        Self { code: self.code.clone() }
    }
}

impl Decode for SnesGameGenieCode {
    open spec fn parsed(key: Seq<u8>, body: Seq<u8>, whole: Seq<u8>) -> Result<Record, Fault> {
        parse_snes_game_genie_code(key, body, whole)
    }

    fn decode(key: &[u8], payload: Reader) -> (r: Result<Self, PacketError>) {
        let mut reader = payload;
        let ghost body = reader.rest();
        assert(reader.rest() =~= body.skip(0));
        let code = reader.read_string(reader.remaining());
        assert(body.skip(0).take(body.skip(0).len() as int) =~= body.skip(0));
        assert(body.skip(0) =~= body);
        Ok(Self { code })
    }

    fn kind(&self) -> (kind: PacketKind) {
        PacketKind::SnesGameGenieCode
    }
}

impl Encode for SnesGameGenieCode {
    fn encode(&self, keylen: u8) -> (data: Vec<u8>) {
        let mut w = Writer::new();
        w.write_str(self.code.as_str());
        assert(w@ =~= payload_of(self@, keylen as nat));
        let key = self.key();
        w.into_packet(key.as_slice(), keylen)
    }

    fn key(&self) -> (key: Vec<u8>) {
        slice_to_vec(KEY_SNES_GAME_GENIE_CODE.as_slice())
    }
}

impl From<SnesGameGenieCode> for Packet {
    fn from(value: SnesGameGenieCode) -> (packet: Packet) {
        Packet::SnesGameGenieCode(value)
    }
}

impl FromSpecImpl<SnesGameGenieCode> for Packet {
    open spec fn obeys_from_spec() -> bool {
        true
    }

    open spec fn from_spec(value: SnesGameGenieCode) -> Packet {
        Packet::SnesGameGenieCode(value)
    }
}

////////////////////////////////////// SNES_LATCH_TRAIN //////////////////////////////////////
#[derive(Debug, PartialEq)]
pub struct SnesLatchTrain {
    pub points: Vec<u64>,
}

impl View for SnesLatchTrain {
    type V = Record;

    open spec fn view(&self) -> Record {
        Record::SnesLatchTrain { points: self.points@ }
    }
}

impl Clone for SnesLatchTrain {
    fn clone(&self) -> (res: Self)
        ensures
            res@ == self@,
    {
        let res = Self { points: self.points.clone() };
        assert(res.points@ =~= self.points@);
        res
    }
}

impl Decode for SnesLatchTrain {
    open spec fn parsed(key: Seq<u8>, body: Seq<u8>, whole: Seq<u8>) -> Result<Record, Fault> {
        parse_snes_latch_train(key, body, whole)
    }

    fn decode(key: &[u8], payload: Reader) -> (r: Result<Self, PacketError>) {
        let mut reader = payload;
        let ghost body = reader.rest();
        let mut points: Vec<u64> = Vec::new();
        assert(reader.rest() =~= body.skip(0));
        while reader.remaining() >= 8
            invariant
                reader.has(0),
                8 * points@.len() <= body.len(),
                reader.rest() == body.skip(8 * points@.len() as int),
                points@ == Seq::new(points@.len(), |i: int| u64_at(body, 8 * i)),
            decreases reader.rest().len(),
        {
            let ghost done = points@.len() as int;
            let point = reader.read_u64();
            points.push(point);
            assert(reader.rest() =~= body.skip(8 * (done + 1)));
            assert(points@ =~= Seq::new(points@.len(), |i: int| u64_at(body, 8 * i)));
        }
        assert(points@ =~= u64s_at(body));
        Ok(Self { points })
    }

    fn kind(&self) -> (kind: PacketKind) {
        PacketKind::SnesLatchTrain
    }
}

impl Encode for SnesLatchTrain {
    fn encode(&self, keylen: u8) -> (data: Vec<u8>) {
        let mut w = Writer::new();
        let mut i: usize = 0;
        assert(self.points@.take(0) =~= Seq::<u64>::empty());
        while i < self.points.len()
            invariant
                i <= self.points.len(),
                w@ == u64s_bytes(self.points@.take(i as int)),
            decreases self.points.len() - i,
        {
            w.write_u64(self.points[i]);
            proof {
                let next = self.points@.take(i + 1);
                assert(next.drop_last() =~= self.points@.take(i as int));
            }
            i = i + 1;
        }
        assert(self.points@.take(i as int) =~= self.points@);
        let key = self.key();
        w.into_packet(key.as_slice(), keylen)
    }

    fn key(&self) -> (key: Vec<u8>) {
        slice_to_vec(KEY_SNES_LATCH_TRAIN.as_slice())
    }
}

impl From<SnesLatchTrain> for Packet {
    fn from(value: SnesLatchTrain) -> (packet: Packet) {
        Packet::SnesLatchTrain(value)
    }
}

impl FromSpecImpl<SnesLatchTrain> for Packet {
    open spec fn obeys_from_spec() -> bool {
        true
    }

    open spec fn from_spec(value: SnesLatchTrain) -> Packet {
        Packet::SnesLatchTrain(value)
    }
}

////////////////////////////////////// GENESIS_GAME_GENIE_CODE //////////////////////////////////////
#[derive(Debug, PartialEq)]
pub struct GenesisGameGenieCode {
    pub code: String,
}

impl View for GenesisGameGenieCode {
    type V = Record;

    open spec fn view(&self) -> Record {
        Record::GenesisGameGenieCode { code: self.code@ }
    }
}

impl Clone for GenesisGameGenieCode {
    fn clone(&self) -> (res: Self)
        ensures
            res@ == self@,
    {
        Self { code: self.code.clone() }
    }
}

impl Decode for GenesisGameGenieCode {
    open spec fn parsed(key: Seq<u8>, body: Seq<u8>, whole: Seq<u8>) -> Result<Record, Fault> {
        parse_genesis_game_genie_code(key, body, whole)
    }

    fn decode(key: &[u8], payload: Reader) -> (r: Result<Self, PacketError>) {
        let mut reader = payload;
        let ghost body = reader.rest();
        assert(reader.rest() =~= body.skip(0));
        let code = reader.read_string(reader.remaining());
        assert(body.skip(0).take(body.skip(0).len() as int) =~= body.skip(0));
        assert(body.skip(0) =~= body);
        Ok(Self { code })
    }

    fn kind(&self) -> (kind: PacketKind) {
        PacketKind::GenesisGameGenieCode
    }
}

impl Encode for GenesisGameGenieCode {
    fn encode(&self, keylen: u8) -> (data: Vec<u8>) {
        let mut w = Writer::new();
        w.write_str(self.code.as_str());
        assert(w@ =~= payload_of(self@, keylen as nat));
        let key = self.key();
        w.into_packet(key.as_slice(), keylen)
    }

    fn key(&self) -> (key: Vec<u8>) {
        slice_to_vec(KEY_GENESIS_GAME_GENIE_CODE.as_slice())
    }
}

impl From<GenesisGameGenieCode> for Packet {
    fn from(value: GenesisGameGenieCode) -> (packet: Packet) {
        Packet::GenesisGameGenieCode(value)
    }
}

impl FromSpecImpl<GenesisGameGenieCode> for Packet {
    open spec fn obeys_from_spec() -> bool {
        true
    }

    open spec fn from_spec(value: GenesisGameGenieCode) -> Packet {
        Packet::GenesisGameGenieCode(value)
    }
}

} // verus!
