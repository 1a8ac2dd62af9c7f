//! Free text, flags for what is not settled yet, and payloads kept as they are.

use crate::codec::model::{
    parse_comment, parse_experimental, parse_unspecified, parse_unsupported, payload_of, Fault,
    Record,
};
use crate::codec::packets::{
    Decode, Encode, Packet, PacketError, PacketKind, KEY_COMMENT, KEY_EXPERIMENTAL,
    KEY_UNSPECIFIED,
};
use crate::codec::reader::Reader;
use crate::codec::writer::Writer;
use vstd::prelude::*;
use vstd::slice::slice_to_vec;
use vstd::std_specs::convert::FromSpecImpl;

verus! {

////////////////////////////////////// COMMENT //////////////////////////////////////
#[derive(Debug, PartialEq)]
pub struct Comment {
    pub comment: String,
}

impl View for Comment {
    type V = Record;

    open spec fn view(&self) -> Record {
        Record::Comment { comment: self.comment@ }
    }
}

impl Clone for Comment {
    fn clone(&self) -> (res: Self)
        ensures
            res@ == self@,
    {
        Self { comment: self.comment.clone() }
    }
}

impl Decode for Comment {
    open spec fn parsed(key: Seq<u8>, body: Seq<u8>, whole: Seq<u8>) -> Result<Record, Fault> {
        parse_comment(key, body, whole)
    }

    fn decode(key: &[u8], payload: Reader) -> (r: Result<Self, PacketError>) {
        let mut reader = payload;
        let ghost body = reader.rest();
        assert(reader.rest() =~= body.skip(0));
        let comment = reader.read_string(reader.remaining());
        assert(body.skip(0).take(body.skip(0).len() as int) =~= body.skip(0));
        assert(body.skip(0) =~= body);
        Ok(Self { comment })
    }

    fn kind(&self) -> (kind: PacketKind) {
        PacketKind::Comment
    }
}

impl Encode for Comment {
    fn encode(&self, keylen: u8) -> (data: Vec<u8>) {
        let mut w = Writer::new();
        w.write_str(self.comment.as_str());
        assert(w@ =~= payload_of(self@, keylen as nat));
        let key = self.key();
        w.into_packet(key.as_slice(), keylen)
    }

    fn key(&self) -> (key: Vec<u8>) {
        slice_to_vec(KEY_COMMENT.as_slice())
    }
}

impl From<Comment> for Packet {
    fn from(value: Comment) -> (packet: Packet) {
        Packet::Comment(value)
    }
}

impl FromSpecImpl<Comment> for Packet {
    open spec fn obeys_from_spec() -> bool {
        true
    }

    open spec fn from_spec(value: Comment) -> Packet {
        Packet::Comment(value)
    }
}

////////////////////////////////////// EXPERIMENTAL //////////////////////////////////////
#[derive(Debug, PartialEq)]
pub struct Experimental {
    pub experimental: bool,
}

impl View for Experimental {
    type V = Record;

    open spec fn view(&self) -> Record {
        Record::Experimental { experimental: self.experimental }
    }
}

impl Clone for Experimental {
    fn clone(&self) -> (res: Self)
        ensures
            res@ == self@,
    {
        Self { experimental: self.experimental }
    }
}

impl Decode for Experimental {
    open spec fn parsed(key: Seq<u8>, body: Seq<u8>, whole: Seq<u8>) -> Result<Record, Fault> {
        parse_experimental(key, body, whole)
    }

    fn decode(key: &[u8], payload: Reader) -> (r: Result<Self, PacketError>) {
        let mut reader = payload;
        let ghost body = reader.rest();
        assert(reader.rest() =~= body.skip(0));
        if reader.remaining() != 1 {
            return Err(PacketError::invalid(key, reader));
        }
        let experimental = reader.read_bool();
        assert(reader.rest() =~= body.skip(1));
        Ok(Self { experimental })
    }

    fn kind(&self) -> (kind: PacketKind) {
        PacketKind::Experimental
    }
}

impl Encode for Experimental {
    fn encode(&self, keylen: u8) -> (data: Vec<u8>) {
        let mut w = Writer::new();
        w.write_bool(self.experimental);
        assert(w@ =~= payload_of(self@, keylen as nat));
        let key = self.key();
        w.into_packet(key.as_slice(), keylen)
    }

    fn key(&self) -> (key: Vec<u8>) {
        slice_to_vec(KEY_EXPERIMENTAL.as_slice())
    }
}

impl From<Experimental> for Packet {
    fn from(value: Experimental) -> (packet: Packet) {
        Packet::Experimental(value)
    }
}

impl FromSpecImpl<Experimental> for Packet {
    open spec fn obeys_from_spec() -> bool {
        true
    }

    open spec fn from_spec(value: Experimental) -> Packet {
        Packet::Experimental(value)
    }
}

////////////////////////////////////// UNSPECIFIED //////////////////////////////////////
#[derive(Debug, PartialEq)]
pub struct Unspecified {
    pub payload: Vec<u8>,
}

impl View for Unspecified {
    type V = Record;

    open spec fn view(&self) -> Record {
        Record::Unspecified { payload: self.payload@ }
    }
}

impl Clone for Unspecified {
    fn clone(&self) -> (res: Self)
        ensures
            res@ == self@,
    {
        let res = Self { payload: self.payload.clone() };
        assert(res.payload@ =~= self.payload@);
        res
    }
}

impl Decode for Unspecified {
    open spec fn parsed(key: Seq<u8>, body: Seq<u8>, whole: Seq<u8>) -> Result<Record, Fault> {
        parse_unspecified(key, body, whole)
    }

    fn decode(key: &[u8], payload: Reader) -> (r: Result<Self, PacketError>) {
        Ok(Self { payload: payload.to_vec() })
    }

    fn kind(&self) -> (kind: PacketKind) {
        PacketKind::Unspecified
    }
}

impl Encode for Unspecified {
    fn encode(&self, keylen: u8) -> (data: Vec<u8>) {
        let mut w = Writer::new();
        w.write_slice(self.payload.as_slice());
        assert(w@ =~= payload_of(self@, keylen as nat));
        let key = self.key();
        w.into_packet(key.as_slice(), keylen)
    }

    fn key(&self) -> (key: Vec<u8>) {
        slice_to_vec(KEY_UNSPECIFIED.as_slice())
    }
}

impl From<Unspecified> for Packet {
    fn from(value: Unspecified) -> (packet: Packet) {
        Packet::Unspecified(value)
    }
}

impl FromSpecImpl<Unspecified> for Packet {
    open spec fn obeys_from_spec() -> bool {
        true
    }

    open spec fn from_spec(value: Unspecified) -> Packet {
        Packet::Unspecified(value)
    }
}

////////////////////////////////////// UNSUPPORTED //////////////////////////////////////
#[derive(Debug, PartialEq)]
pub struct Unsupported {
    pub key: Vec<u8>,
    pub payload: Vec<u8>,
}

impl View for Unsupported {
    type V = Record;

    open spec fn view(&self) -> Record {
        Record::Unsupported { key: self.key@, payload: self.payload@ }
    }
}

impl Clone for Unsupported {
    fn clone(&self) -> (res: Self)
        ensures
            res@ == self@,
    {
        let res = Self { key: self.key.clone(), payload: self.payload.clone() };
        assert(res.key@ =~= self.key@);
        assert(res.payload@ =~= self.payload@);
        res
    }
}

impl Decode for Unsupported {
    open spec fn parsed(key: Seq<u8>, body: Seq<u8>, whole: Seq<u8>) -> Result<Record, Fault> {
        parse_unsupported(key, body, whole)
    }

    fn decode(key: &[u8], payload: Reader) -> (r: Result<Self, PacketError>) {
        Ok(Self { key: slice_to_vec(key), payload: payload.to_vec() })
    }

    fn kind(&self) -> (kind: PacketKind) {
        PacketKind::Unsupported
    }
}

impl Encode for Unsupported {
    fn encode(&self, keylen: u8) -> (data: Vec<u8>) {
        let mut w = Writer::new();
        w.write_slice(self.payload.as_slice());
        assert(w@ =~= payload_of(self@, keylen as nat));
        w.into_packet(self.key.as_slice(), keylen)
    }

    fn key(&self) -> (key: Vec<u8>) {
        let key = self.key.clone();
        assert(key@ =~= self.key@);
        key
    }
}

impl From<Unsupported> for Packet {
    fn from(value: Unsupported) -> (packet: Packet) {
        Packet::Unsupported(value)
    }
}

impl FromSpecImpl<Unsupported> for Packet {
    open spec fn obeys_from_spec() -> bool {
        true
    }

    open spec fn from_spec(value: Unsupported) -> Packet {
        Packet::Unsupported(value)
    }
}

} // verus!
