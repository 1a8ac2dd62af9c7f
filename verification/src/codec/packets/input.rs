//! Records of what was played: inputs, and the events between them.

use crate::codec::model::{
    frame_of, parse_input_chunk, parse_input_moment, parse_lag_frame_chunk,
    parse_movie_transition, parse_transition, payload_of, Fault, Record,
};
use crate::codec::packets::{
    clone_packet, encode_packet, outcome, packet_model, Decode, Encode, Packet, PacketError,
    PacketKind, KEY_INPUT_CHUNK, KEY_INPUT_MOMENT, KEY_LAG_FRAME_CHUNK, KEY_MOVIE_TRANSITION,
    KEY_TRANSITION,
};
use crate::codec::reader::Reader;
use crate::codec::writer::Writer;
use vstd::prelude::*;
use vstd::slice::slice_to_vec;
use vstd::std_specs::convert::FromSpecImpl;

verus! {

////////////////////////////////////// INPUT_CHUNK //////////////////////////////////////
#[derive(Debug, PartialEq)]
pub struct InputChunk {
    pub port: u8,
    pub inputs: Vec<u8>,
}

impl View for InputChunk {
    type V = Record;

    open spec fn view(&self) -> Record {
        Record::InputChunk { port: self.port, inputs: self.inputs@ }
    }
}

impl Clone for InputChunk {
    fn clone(&self) -> (res: Self)
        ensures
            res@ == self@,
    {
        let res = Self { port: self.port, inputs: self.inputs.clone() };
        assert(res.inputs@ =~= self.inputs@);
        res
    }
}

impl Decode for InputChunk {
    open spec fn parsed(key: Seq<u8>, body: Seq<u8>, whole: Seq<u8>) -> Result<Record, Fault> {
        parse_input_chunk(key, body, whole)
    }

    fn decode(key: &[u8], payload: Reader) -> (r: Result<Self, PacketError>) {
        let mut reader = payload;
        let ghost body = reader.rest();
        assert(reader.rest() =~= body.skip(0));
        if reader.remaining() < 1 {
            return Err(PacketError::invalid(key, reader));
        }
        let port = reader.read_u8();
        assert(reader.rest() =~= body.skip(1));
        let inputs = slice_to_vec(reader.read_remaining());
        Ok(Self { port, inputs })
    }

    fn kind(&self) -> (kind: PacketKind) {
        PacketKind::InputChunk
    }
}

impl Encode for InputChunk {
    fn encode(&self, keylen: u8) -> (data: Vec<u8>) {
        let mut w = Writer::new();
        w.write_u8(self.port);
        w.write_slice(self.inputs.as_slice());
        assert(w@ =~= payload_of(self@, keylen as nat));
        let key = self.key();
        w.into_packet(key.as_slice(), keylen)
    }

    fn key(&self) -> (key: Vec<u8>) {
        slice_to_vec(KEY_INPUT_CHUNK.as_slice())
    }
}

impl From<InputChunk> for Packet {
    fn from(value: InputChunk) -> (packet: Packet) {
        Packet::InputChunk(value)
    }
}

impl FromSpecImpl<InputChunk> for Packet {
    open spec fn obeys_from_spec() -> bool {
        true
    }

    open spec fn from_spec(value: InputChunk) -> Packet {
        Packet::InputChunk(value)
    }
}

////////////////////////////////////// INPUT_MOMENT //////////////////////////////////////
#[derive(Debug, PartialEq)]
pub struct InputMoment {
    pub port: u8,
    pub index_type: u8,
    pub index: u64,
    pub inputs: Vec<u8>,
}

impl View for InputMoment {
    type V = Record;

    open spec fn view(&self) -> Record {
        Record::InputMoment {
            port: self.port,
            index_type: self.index_type,
            index: self.index,
            inputs: self.inputs@,
        }
    }
}

impl Clone for InputMoment {
    fn clone(&self) -> (res: Self)
        ensures
            res@ == self@,
    {
        let res = Self {
            port: self.port,
            index_type: self.index_type,
            index: self.index,
            inputs: self.inputs.clone(),
        };
        assert(res.inputs@ =~= self.inputs@);
        res
    }
}

impl Decode for InputMoment {
    open spec fn parsed(key: Seq<u8>, body: Seq<u8>, whole: Seq<u8>) -> Result<Record, Fault> {
        parse_input_moment(key, body, whole)
    }

    fn decode(key: &[u8], payload: Reader) -> (r: Result<Self, PacketError>) {
        let mut reader = payload;
        let ghost body = reader.rest();
        assert(reader.rest() =~= body.skip(0));
        if reader.remaining() < 10 {
            return Err(PacketError::invalid(key, reader));
        }
        let port = reader.read_u8();
        assert(reader.rest() =~= body.skip(1));
        let index_type = reader.read_u8();
        assert(reader.rest() =~= body.skip(2));
        let index = reader.read_u64();
        assert(reader.rest() =~= body.skip(10));
        let inputs = slice_to_vec(reader.read_remaining());
        Ok(Self { port, index_type, index, inputs })
    }

    fn kind(&self) -> (kind: PacketKind) {
        PacketKind::InputMoment
    }
}

impl Encode for InputMoment {
    fn encode(&self, keylen: u8) -> (data: Vec<u8>) {
        let mut w = Writer::new();
        w.write_u8(self.port);
        w.write_u8(self.index_type);
        w.write_u64(self.index);
        w.write_slice(self.inputs.as_slice());
        assert(w@ =~= payload_of(self@, keylen as nat));
        let key = self.key();
        w.into_packet(key.as_slice(), keylen)
    }

    fn key(&self) -> (key: Vec<u8>) {
        slice_to_vec(KEY_INPUT_MOMENT.as_slice())
    }
}

impl From<InputMoment> for Packet {
    fn from(value: InputMoment) -> (packet: Packet) {
        Packet::InputMoment(value)
    }
}

impl FromSpecImpl<InputMoment> for Packet {
    open spec fn obeys_from_spec() -> bool {
        true
    }

    open spec fn from_spec(value: InputMoment) -> Packet {
        Packet::InputMoment(value)
    }
}

////////////////////////////////////// TRANSITION //////////////////////////////////////
#[derive(Debug, PartialEq)]
pub struct Transition {
    pub index_type: u8,
    pub index: u64,
    pub transition_type: u8,
    pub packet: Option<Box<Packet>>,
}

/// The record that a transition stands for.
pub open spec fn transition_model(t: Transition) -> Record
    decreases t,
{
    Record::Transition {
        index_type: t.index_type,
        index: t.index,
        transition_type: t.transition_type,
        packet: match t.packet {
            Some(inner) => Some(Box::new(packet_model(*inner))),
            None => None,
        },
    }
}

/// Reads a transition, and the record held in it where there is one. The
/// keys of that record are as wide as `key`.
pub fn decode_transition(key: &[u8], payload: Reader) -> (r: Result<Transition, PacketError>)
    requires
        payload.has(0),
    ensures
        outcome(r) == parse_transition(key@, payload.rest(), payload.bytes()),
    decreases payload.rest().len(), 0nat,
{
    let mut reader = payload;
    let ghost body = reader.rest();
    assert(reader.rest() =~= body.skip(0));
    if reader.remaining() < 10 {
        return Err(PacketError::invalid(key, reader));
    }
    let index_type = reader.read_u8();
    assert(reader.rest() =~= body.skip(1));
    let index = reader.read_u64();
    assert(reader.rest() =~= body.skip(9));
    let transition_type = reader.read_u8();
    assert(reader.rest() =~= body.skip(10));
    let packet = if transition_type == 0xFF {
        let mut inner = Reader::new(reader.read_remaining());
        assert(inner.rest() =~= body.skip(10));
        match Packet::with_reader(&mut inner, (key.len() % 256) as u8) {
            Ok(packet) => Some(Box::new(packet)),
            Err(e) => {
                return Err(e);
            },
        }
    } else {
        None
    };
    Ok(Transition { index_type, index, transition_type, packet })
}

/// Writes a transition, the frame of the record held in it included.
pub fn encode_transition(t: &Transition, keylen: u8) -> (data: Vec<u8>)
    ensures
        data@ == frame_of(t@, keylen as nat),
    decreases t,
{
    let mut w = Writer::new();
    w.write_u8(t.index_type);
    w.write_u64(t.index);
    w.write_u8(t.transition_type);
    match &t.packet {
        Some(inner) => {
            let frame = encode_packet(&**inner, keylen);
            w.write_slice(frame.as_slice());
        },
        None => {},
    }
    assert(w@ =~= payload_of(t@, keylen as nat));
    w.into_packet(KEY_TRANSITION.as_slice(), keylen)
}

/// Copies a transition, the record held in it included.
pub fn clone_transition(t: &Transition) -> (res: Transition)
    ensures
        res@ == t@,
    decreases t,
{
    Transition {
        index_type: t.index_type,
        index: t.index,
        transition_type: t.transition_type,
        packet: match &t.packet {
            Some(inner) => Some(Box::new(clone_packet(&**inner))),
            None => None,
        },
    }
}

impl View for Transition {
    type V = Record;

    open spec fn view(&self) -> Record {
        transition_model(*self)
    }
}

impl Clone for Transition {
    fn clone(&self) -> (res: Self)
        ensures
            res@ == self@,
    {
        clone_transition(self)
    }
}

impl Decode for Transition {
    open spec fn parsed(key: Seq<u8>, body: Seq<u8>, whole: Seq<u8>) -> Result<Record, Fault> {
        parse_transition(key, body, whole)
    }

    fn decode(key: &[u8], payload: Reader) -> (r: Result<Self, PacketError>) {
        decode_transition(key, payload)
    }

    fn kind(&self) -> (kind: PacketKind) {
        PacketKind::Transition
    }
}

impl Encode for Transition {
    fn encode(&self, keylen: u8) -> (data: Vec<u8>) {
        encode_transition(self, keylen)
    }

    fn key(&self) -> (key: Vec<u8>) {
        slice_to_vec(KEY_TRANSITION.as_slice())
    }
}

impl From<Transition> for Packet {
    fn from(value: Transition) -> (packet: Packet) {
        Packet::Transition(value)
    }
}

impl FromSpecImpl<Transition> for Packet {
    open spec fn obeys_from_spec() -> bool {
        true
    }

    open spec fn from_spec(value: Transition) -> Packet {
        Packet::Transition(value)
    }
}

////////////////////////////////////// LAG_FRAME_CHUNK //////////////////////////////////////
#[derive(Debug, PartialEq)]
pub struct LagFrameChunk {
    pub movie_frame: u32,
    pub count: u32,
}

impl View for LagFrameChunk {
    type V = Record;

    open spec fn view(&self) -> Record {
        Record::LagFrameChunk { movie_frame: self.movie_frame, count: self.count }
    }
}

impl Clone for LagFrameChunk {
    fn clone(&self) -> (res: Self)
        ensures
            res@ == self@,
    {
        Self { movie_frame: self.movie_frame, count: self.count }
    }
}

impl Decode for LagFrameChunk {
    open spec fn parsed(key: Seq<u8>, body: Seq<u8>, whole: Seq<u8>) -> Result<Record, Fault> {
        parse_lag_frame_chunk(key, body, whole)
    }

    fn decode(key: &[u8], payload: Reader) -> (r: Result<Self, PacketError>) {
        let mut reader = payload;
        let ghost body = reader.rest();
        assert(reader.rest() =~= body.skip(0));
        if reader.remaining() != 8 {
            return Err(PacketError::invalid(key, reader));
        }
        let movie_frame = reader.read_u32();
        assert(reader.rest() =~= body.skip(4));
        let count = reader.read_u32();
        assert(reader.rest() =~= body.skip(8));
        Ok(Self { movie_frame, count })
    }

    fn kind(&self) -> (kind: PacketKind) {
        PacketKind::LagFrameChunk
    }
}

impl Encode for LagFrameChunk {
    fn encode(&self, keylen: u8) -> (data: Vec<u8>) {
        let mut w = Writer::new();
        w.write_u32(self.movie_frame);
        w.write_u32(self.count);
        assert(w@ =~= payload_of(self@, keylen as nat));
        let key = self.key();
        w.into_packet(key.as_slice(), keylen)
    }

    fn key(&self) -> (key: Vec<u8>) {
        slice_to_vec(KEY_LAG_FRAME_CHUNK.as_slice())
    }
}

impl From<LagFrameChunk> for Packet {
    fn from(value: LagFrameChunk) -> (packet: Packet) {
        Packet::LagFrameChunk(value)
    }
}

impl FromSpecImpl<LagFrameChunk> for Packet {
    open spec fn obeys_from_spec() -> bool {
        true
    }

    open spec fn from_spec(value: LagFrameChunk) -> Packet {
        Packet::LagFrameChunk(value)
    }
}

////////////////////////////////////// MOVIE_TRANSITION //////////////////////////////////////
#[derive(Debug, PartialEq)]
pub struct MovieTransition {
    pub movie_frame: u32,
    pub transition_type: u8,
    pub packet: Option<Box<Packet>>,
}

/// The record that a movie transition stands for.
pub open spec fn movie_transition_model(t: MovieTransition) -> Record
    decreases t,
{
    Record::MovieTransition {
        movie_frame: t.movie_frame,
        transition_type: t.transition_type,
        packet: match t.packet {
            Some(inner) => Some(Box::new(packet_model(*inner))),
            None => None,
        },
    }
}

/// Reads a movie transition, and the record held in it where there is one.
/// The keys of that record are as wide as `key`.
pub fn decode_movie_transition(key: &[u8], payload: Reader) -> (r: Result<
    MovieTransition,
    PacketError,
>)
    requires
        payload.has(0),
    ensures
        outcome(r) == parse_movie_transition(key@, payload.rest(), payload.bytes()),
    decreases payload.rest().len(), 0nat,
{
    let mut reader = payload;
    let ghost body = reader.rest();
    assert(reader.rest() =~= body.skip(0));
    if reader.remaining() < 5 {
        return Err(PacketError::invalid(key, reader));
    }
    let movie_frame = reader.read_u32();
    assert(reader.rest() =~= body.skip(4));
    let transition_type = reader.read_u8();
    assert(reader.rest() =~= body.skip(5));
    let packet = if transition_type == 0xFF {
        let mut inner = Reader::new(reader.read_remaining());
        assert(inner.rest() =~= body.skip(5));
        match Packet::with_reader(&mut inner, (key.len() % 256) as u8) {
            Ok(packet) => Some(Box::new(packet)),
            Err(e) => {
                return Err(e);
            },
        }
    } else {
        None
    };
    Ok(MovieTransition { movie_frame, transition_type, packet })
}

/// Writes a movie transition, the frame of the record held in it included.
pub fn encode_movie_transition(t: &MovieTransition, keylen: u8) -> (data: Vec<u8>)
    ensures
        data@ == frame_of(t@, keylen as nat),
    decreases t,
{
    let mut w = Writer::new();
    w.write_u32(t.movie_frame);
    w.write_u8(t.transition_type);
    match &t.packet {
        Some(inner) => {
            let frame = encode_packet(&**inner, keylen);
            w.write_slice(frame.as_slice());
        },
        None => {},
    }
    assert(w@ =~= payload_of(t@, keylen as nat));
    w.into_packet(KEY_MOVIE_TRANSITION.as_slice(), keylen)
}

/// Copies a movie transition, the record held in it included.
pub fn clone_movie_transition(t: &MovieTransition) -> (res: MovieTransition)
    ensures
        res@ == t@,
    decreases t,
{
    MovieTransition {
        movie_frame: t.movie_frame,
        transition_type: t.transition_type,
        packet: match &t.packet {
            Some(inner) => Some(Box::new(clone_packet(&**inner))),
            None => None,
        },
    }
}

impl View for MovieTransition {
    type V = Record;

    open spec fn view(&self) -> Record {
        movie_transition_model(*self)
    }
}

impl Clone for MovieTransition {
    fn clone(&self) -> (res: Self)
        ensures
            res@ == self@,
    {
        clone_movie_transition(self)
    }
}

impl Decode for MovieTransition {
    open spec fn parsed(key: Seq<u8>, body: Seq<u8>, whole: Seq<u8>) -> Result<Record, Fault> {
        parse_movie_transition(key, body, whole)
    }

    fn decode(key: &[u8], payload: Reader) -> (r: Result<Self, PacketError>) {
        decode_movie_transition(key, payload)
    }

    fn kind(&self) -> (kind: PacketKind) {
        PacketKind::MovieTransition
    }
}

impl Encode for MovieTransition {
    fn encode(&self, keylen: u8) -> (data: Vec<u8>) {
        encode_movie_transition(self, keylen)
    }

    fn key(&self) -> (key: Vec<u8>) {
        slice_to_vec(KEY_MOVIE_TRANSITION.as_slice())
    }
}

impl From<MovieTransition> for Packet {
    fn from(value: MovieTransition) -> (packet: Packet) {
        Packet::MovieTransition(value)
    }
}

impl FromSpecImpl<MovieTransition> for Packet {
    open spec fn obeys_from_spec() -> bool {
        true
    }

    open spec fn from_spec(value: MovieTransition) -> Packet {
        Packet::MovieTransition(value)
    }
}

} // verus!
