//! The container: a header and the records that follow it, in file order.

pub mod frame;
pub mod laws;
pub mod model;
pub mod packets;
pub mod reader;
pub mod writer;

use crate::bytes::{be_bytes, signed64};
use crate::codec::model::{frame_of, parse_payload, split_frame, u16_at, Fault, Record, Split};
use crate::codec::packets::{DumpCreated, DumpLastModified, Encode, Packet, PacketError};
use crate::codec::reader::Reader;
use crate::codec::writer::Writer;
use std::path::PathBuf;
use vstd::prelude::*;
use vstd::slice::slice_to_vec;
use vstd::std_specs::convert::FromSpecImpl;

verus! {

pub const LATEST_VERSION: [u8; 2] = [0x00, 0x01];

pub const MAGIC_NUMBER: [u8; 4] = [0x54, 0x41, 0x53, 0x44];

/// The length of the header: magic number, version and key width.
pub const HEADER_LEN: usize = 7;

#[verifier::external_type_specification]
#[verifier::external_body]
pub struct ExPathBuf(std::path::PathBuf);

#[verifier::external_type_specification]
#[verifier::external_body]
pub struct ExIoError(std::io::Error);

/// Why a container could not be read or written, as the model has it.
pub enum Failure {
    Io,
    Packet(Fault),
    MissingHeader,
    MagicNumberMismatch(Seq<u8>),
    MissingPath,
}

#[derive(Debug)]
pub enum TasdError {
    Io(std::io::Error),
    Packet(PacketError),
    MissingHeader,
    MagicNumberMismatch(Vec<u8>),
    MissingPath,
}

impl View for TasdError {
    type V = Failure;

    open spec fn view(&self) -> Failure {
        match self {
            TasdError::Io(_) => Failure::Io,
            TasdError::Packet(e) => Failure::Packet(e@),
            TasdError::MissingHeader => Failure::MissingHeader,
            TasdError::MagicNumberMismatch(found) => Failure::MagicNumberMismatch(found@),
            TasdError::MissingPath => Failure::MissingPath,
        }
    }
}

impl From<std::io::Error> for TasdError {
    fn from(value: std::io::Error) -> (e: Self) {
        Self::Io(value)
    }
}

impl FromSpecImpl<std::io::Error> for TasdError {
    open spec fn obeys_from_spec() -> bool {
        true
    }

    open spec fn from_spec(value: std::io::Error) -> TasdError {
        TasdError::Io(value)
    }
}

impl From<PacketError> for TasdError {
    fn from(value: PacketError) -> (e: Self) {
        Self::Packet(value)
    }
}

impl FromSpecImpl<PacketError> for TasdError {
    open spec fn obeys_from_spec() -> bool {
        true
    }

    open spec fn from_spec(value: PacketError) -> TasdError {
        TasdError::Packet(value)
    }
}

/// What a run of frames holds: the records read, and the faults of the
/// frames that were passed over, each in file order.
pub struct Stream {
    pub records: Seq<Record>,
    pub skipped: Seq<Fault>,
}

/// A stream with one more outcome in front.
pub open spec fn stream_after(first: Result<Record, Fault>, rest: Stream) -> Stream {
    match first {
        Ok(record) => Stream { records: seq![record] + rest.records, skipped: rest.skipped },
        Err(fault) => Stream { records: rest.records, skipped: seq![fault] + rest.skipped },
    }
}

/// Reads frames until the input is used up. A frame whose payload does not
/// fit its kind is passed over, and reading goes on behind it. Any other
/// fault ends the reading, and nothing is kept.
#[verifier::opaque]
pub open spec fn parse_stream(input: Seq<u8>, width: nat) -> Result<Stream, Fault>
    decreases input.len(),
{
    if input.len() == 0 {
        Ok(Stream { records: Seq::empty(), skipped: Seq::empty() })
    } else {
        match split_frame(input, width) {
            Split::Cut { fault, .. } => Err(fault),
            Split::Whole { key, payload, len } => {
                let first = parse_payload(key, payload);
                if first is Err && !first->Err_0.recoverable() {
                    Err(first->Err_0)
                } else {
                    match parse_stream(input.skip(len as int), width) {
                        Ok(rest) => Ok(stream_after(first, rest)),
                        Err(fault) => Err(fault),
                    }
                }
            },
        }
    }
}

/// The frames of a sequence of records, one after the other.
pub open spec fn frames_of(records: Seq<Record>, width: nat) -> Seq<u8>
    decreases records.len(),
{
    if records.len() == 0 {
        Seq::<u8>::empty()
    } else {
        frames_of(records.drop_last(), width) + frame_of(records.last(), width)
    }
}

/// A container, as the values it holds.
pub struct Container {
    pub version: u16,
    pub width: u8,
    pub records: Seq<Record>,
}

/// What a file holds: the container and the faults passed over, or the
/// reason why it is no container.
pub open spec fn parse_container(data: Seq<u8>) -> Result<(Container, Seq<Fault>), Failure> {
    if data.len() < 7 {
        Err(Failure::MissingHeader)
    } else if data.take(4) != MAGIC_NUMBER@ {
        Err(Failure::MagicNumberMismatch(data.take(4)))
    } else {
        match parse_stream(data.skip(7), data[6] as nat) {
            Ok(stream) => Ok(
                (
                    Container { version: u16_at(data, 4), width: data[6], records: stream.records },
                    stream.skipped,
                ),
            ),
            Err(fault) => Err(Failure::Packet(fault)),
        }
    }
}

/// The file that stores a container.
pub open spec fn container_bytes(c: Container) -> Seq<u8> {
    MAGIC_NUMBER@ + be_bytes(c.version as nat, 2) + seq![c.width] + frames_of(
        c.records,
        c.width as nat,
    )
}

/// Whether a record is the time at which its container was last written.
pub open spec fn is_stamp(r: Record) -> bool {
    r is DumpLastModified
}

/// Whether any of the records is a time of last writing.
pub open spec fn has_stamp(records: Seq<Record>) -> bool {
    exists|i: int| 0 <= i < records.len() && is_stamp(#[trigger] records[i])
}

/// The records with the first time of last writing set to `epoch` and
/// every later one taken out.
pub open spec fn restamped(records: Seq<Record>, epoch: i64) -> Seq<Record>
    decreases records.len(),
{
    if records.len() == 0 {
        Seq::<Record>::empty()
    } else {
        let before = restamped(records.drop_last(), epoch);
        if !is_stamp(records.last()) {
            before.push(records.last())
        } else if has_stamp(records.drop_last()) {
            before
        } else {
            before.push(Record::DumpLastModified { epoch })
        }
    }
}

/// The records as they are written out at time `epoch`: with one time of
/// last writing, which is `epoch`. It stands where the first one stood, or
/// at the end where there was none.
pub open spec fn stamped(records: Seq<Record>, epoch: i64) -> Seq<Record> {
    if has_stamp(records) {
        restamped(records, epoch)
    } else {
        restamped(records, epoch).push(Record::DumpLastModified { epoch })
    }
}

/// The records that packets stand for.
pub open spec fn records_of(packets: Seq<Packet>) -> Seq<Record> {
    packets.map_values(|p: Packet| p@)
}

/// The faults that errors stand for.
pub open spec fn faults_of(errors: Seq<PacketError>) -> Seq<Fault> {
    errors.map_values(|e: PacketError| e@)
}

#[derive(Debug, Clone, PartialEq)]
pub struct TasdFile {
    pub version: u16,
    pub keylen: u8,
    pub packets: Vec<Packet>,
    pub path: Option<PathBuf>,
}

impl View for TasdFile {
    type V = Container;

    open spec fn view(&self) -> Container {
        Container { version: self.version, width: self.keylen, records: records_of(self.packets@) }
    }
}

impl Default for TasdFile {
    fn default() -> (file: Self)
        ensures
            file.version == 1,
            file.keylen == 2,
            file.packets@.len() == 0,
            file.path is None,
    {
        Self { version: 1, keylen: 2, packets: Vec::new(), path: None }
    }
}

/// Asks the clock for the time, as `SystemTime::now` gives it, in whole
/// seconds since the Unix epoch; `None` where the clock stands before it.
///
/// Trusted, and nothing is claimed of the result: it is the time.
#[verifier::external_body]
fn seconds_since_epoch() -> (secs: Option<u64>) {
    match std::time::SystemTime::now().duration_since(std::time::UNIX_EPOCH) {
        Ok(elapsed) => Some(elapsed.as_secs()),
        Err(_) => None,
    }
}

/// Whether `bytes` starts with the magic number.
fn starts_with_magic(bytes: &[u8]) -> (yes: bool)
    requires
        bytes@.len() >= 4,
    ensures
        yes == (bytes@.take(4) == MAGIC_NUMBER@),
{
    let yes = bytes[0] == MAGIC_NUMBER[0] && bytes[1] == MAGIC_NUMBER[1] && bytes[2]
        == MAGIC_NUMBER[2] && bytes[3] == MAGIC_NUMBER[3];
    proof {
        if yes {
            assert(bytes@.take(4) =~= MAGIC_NUMBER@);
        } else {
            assert(bytes@.take(4)[0] == bytes@[0]);
            assert(bytes@.take(4)[1] == bytes@[1]);
            assert(bytes@.take(4)[2] == bytes@[2]);
            assert(bytes@.take(4)[3] == bytes@[3]);
        }
    }
    yes
}

impl TasdFile {
    /// The epoch that a reading of the clock stands for. Seconds past the
    /// range of `i64` wrap; a clock that stands before 1970 counts as 0.
    pub open spec fn epoch_of(secs: Option<u64>) -> i64 {
        match secs {
            Some(s) => signed64(s as nat) as i64,
            None => 0,
        }
    }

    /// An empty container of the latest version, with keys two bytes wide,
    /// that says it was created at `epoch`.
    pub fn created_at(epoch: i64) -> (file: Self)
        ensures
            file.version == 1,
            file.keylen == 2,
            file.path is None,
            file@.records == seq![Record::DumpCreated { epoch }],
    {
        let mut tasd = Self::default();
        tasd.packets.push(Packet::DumpCreated(DumpCreated { epoch }));
        assert(tasd@.records =~= seq![Record::DumpCreated { epoch }]);
        tasd
    }

    /// `created_at` for what the clock read.
    pub fn created_by_clock(secs: Option<u64>) -> (file: Self)
        ensures
            file.version == 1,
            file.keylen == 2,
            file.path is None,
            file@.records == seq![Record::DumpCreated { epoch: Self::epoch_of(secs) }],
    {
        let epoch = match secs {
            Some(s) => {
                assert(s as i64 == signed64(s as nat)) by {
                    assert(s as i64 == if s < 0x8000_0000_0000_0000 {
                        s as int
                    } else {
                        s - 0x1_0000_0000_0000_0000
                    }) by (bit_vector);
                }
                s as i64
            },
            None => 0,
        };
        Self::created_at(epoch)
    }

    /// An empty container that says it was created now.
    pub fn new() -> (file: Self)
        ensures
            file.version == 1,
            file.keylen == 2,
            file.path is None,
            file@.records.len() == 1,
            file@.records[0] is DumpCreated,
    {
        Self::created_by_clock(seconds_since_epoch())
    }

    /// Reads a container, and hands out with it the errors of the frames
    /// that were passed over.
    pub fn parse_slice_with_skips(data: &[u8]) -> (res: Result<
        (TasdFile, Vec<PacketError>),
        TasdError,
    >)
        ensures
            match res {
                Ok((file, skipped)) => {
                    &&& parse_container(data@) == Ok::<_, Failure>((file@, faults_of(skipped@)))
                    &&& file.path is None
                },
                Err(e) => parse_container(data@) == Err::<(Container, Seq<Fault>), _>(e@),
            },
    {
        let mut r = Reader::new(data);
        assert(r.rest() =~= data@);
        if r.remaining() < HEADER_LEN {
            return Err(TasdError::MissingHeader);
        }
        let magic = r.read_len(4);
        assert(magic@ =~= data@.take(4));
        assert(magic@.take(4) =~= magic@);
        if !starts_with_magic(magic) {
            return Err(TasdError::MagicNumberMismatch(slice_to_vec(magic)));
        }
        assert(r.rest() =~= data@.skip(4));
        let version = r.read_u16();
        assert(r.rest() =~= data@.skip(6));
        let keylen = r.read_u8();
        assert(r.rest() =~= data@.skip(7));
        let mut packets: Vec<Packet> = Vec::new();
        let mut skipped: Vec<PacketError> = Vec::new();
        let ghost body = r.rest();
        let ghost width = keylen as nat;
        reveal(parse_stream);

        while r.remaining() > 0
            invariant
                r.has(0),
                width == keylen as nat,
                data@.len() >= 7,
                data@.take(4) == MAGIC_NUMBER@,
                keylen == data@[6],
                body == data@.skip(7),
                match parse_stream(r.rest(), width) {
                    Ok(rest) => parse_stream(body, width) == Ok::<_, Fault>(
                        Stream {
                            records: records_of(packets@) + rest.records,
                            skipped: faults_of(skipped@) + rest.skipped,
                        },
                    ),
                    Err(fault) => parse_stream(body, width) == Err::<Stream, _>(fault),
                },
            decreases r.rest().len(),
        {
            proof {
                reveal(parse_stream);
            }
            match Packet::with_reader(&mut r, keylen) {
                Ok(packet) => {
                    proof {
                        let rest = parse_stream(r.rest(), width);
                        if rest is Ok {
                            assert(records_of(packets@.push(packet)) + rest->Ok_0.records
                                =~= records_of(packets@) + (seq![packet@] + rest->Ok_0.records));
                        }
                    }
                    packets.push(packet);
                },
                Err(err) => match err {
                    PacketError::InvalidPayload { key, payload } => {
                        let err = PacketError::InvalidPayload { key, payload };
                        proof {
                            let rest = parse_stream(r.rest(), width);
                            if rest is Ok {
                                assert(faults_of(skipped@.push(err)) + rest->Ok_0.skipped
                                    =~= faults_of(skipped@) + (seq![err@] + rest->Ok_0.skipped));
                            }
                        }
                        skipped.push(err);
                    },
                    _ => {
                        return Err(TasdError::Packet(err));
                    },
                },
            }
        }
        proof {
            assert(records_of(packets@) + Seq::<Record>::empty() =~= records_of(packets@));
            assert(faults_of(skipped@) + Seq::<Fault>::empty() =~= faults_of(skipped@));
        }
        Ok((TasdFile { version, keylen, packets, path: None }, skipped))
    }

    /// Reads a container. A frame whose payload does not fit its kind is
    /// passed over, and leaves no record.
    pub fn parse_slice(data: &[u8]) -> (res: Result<Self, TasdError>)
        ensures
            match res {
                Ok(file) => {
                    &&& parse_container(data@) is Ok
                    &&& parse_container(data@)->Ok_0.0 == file@
                    &&& file.path is None
                },
                Err(e) => parse_container(data@) == Err::<(Container, Seq<Fault>), _>(e@),
            },
    {
        match Self::parse_slice_with_skips(data) {
            Ok((file, _)) => Ok(file),
            Err(e) => Err(e),
        }
    }

    /// Encodes data in this [TasdFile] into a TASD formatted Vec of bytes.
    pub fn encode(&self) -> (data: Vec<u8>)
        ensures
            data@ == container_bytes(self@),
    {
        let mut w = Writer::new();

        w.write_slice(MAGIC_NUMBER.as_slice());
        w.write_u16(self.version);
        w.write_u8(self.keylen);

        let ghost head = w@;
        let mut i: usize = 0;
        assert(self@.records.take(0) =~= Seq::<Record>::empty());
        assert(w@ =~= head + frames_of(self@.records.take(0), self.keylen as nat));
        while i < self.packets.len()
            invariant
                i <= self.packets.len(),
                head == MAGIC_NUMBER@ + be_bytes(self.version as nat, 2) + seq![self.keylen],
                w@ == head + frames_of(self@.records.take(i as int), self.keylen as nat),
            decreases self.packets.len() - i,
        {
            let frame = self.packets[i].encode(self.keylen);
            w.write_slice(frame.as_slice());
            proof {
                let next = self@.records.take(i + 1);
                assert(next.drop_last() =~= self@.records.take(i as int));
                assert(next.last() == self.packets@[i as int]@);
                assert(w@ =~= head + frames_of(next, self.keylen as nat));
            }
            i = i + 1;
        }
        assert(self@.records.take(i as int) =~= self@.records);
        w.to_vec()
    }

    /// Brings the records into the form in which they are written out at
    /// time `epoch`: one record of the time of last writing, which says
    /// `epoch`. Every other record stays, in its order.
    pub fn stamp_last_modified(&mut self, epoch: i64)
        ensures
            final(self).version == old(self).version,
            final(self).keylen == old(self).keylen,
            final(self).path == old(self).path,
            final(self)@.records == stamped(old(self)@.records, epoch),
    {
        let mut kept: Vec<Packet> = Vec::new();
        let mut found = false;
        let mut i: usize = 0;
        let ghost before = self@.records;
        assert(before.take(0) =~= Seq::<Record>::empty());
        while i < self.packets.len()
            invariant
                i <= self.packets.len(),
                before == records_of(self.packets@),
                found == has_stamp(before.take(i as int)),
                records_of(kept@) == restamped(before.take(i as int), epoch),
            decreases self.packets.len() - i,
        {
            let ghost so_far = before.take(i as int);
            let ghost next = before.take(i + 1);
            proof {
                assert(next.drop_last() =~= so_far);
                assert(next.last() == self.packets@[i as int]@);
                if has_stamp(so_far) {
                    let j = choose|j: int| 0 <= j < so_far.len() && is_stamp(#[trigger] so_far[j]);
                    assert(is_stamp(next[j]));
                }
                if has_stamp(next) && !is_stamp(next.last()) {
                    let j = choose|j: int| 0 <= j < next.len() && is_stamp(#[trigger] next[j]);
                    assert(is_stamp(so_far[j]));
                }
            }
            match &self.packets[i] {
                Packet::DumpLastModified(_) => {
                    if !found {
                        let stamp = Packet::DumpLastModified(DumpLastModified { epoch });
                        assert(records_of(kept@.push(stamp)) =~= records_of(kept@).push(stamp@));
                        kept.push(stamp);
                        found = true;
                    }
                    assert(is_stamp(next[i as int]));
                },
                other => {
                    let copy = other.clone();
                    assert(records_of(kept@.push(copy)) =~= records_of(kept@).push(copy@));
                    kept.push(copy);
                },
            }
            i = i + 1;
        }
        assert(before.take(i as int) =~= before);
        if !found {
            let stamp = Packet::DumpLastModified(DumpLastModified { epoch });
            assert(records_of(kept@.push(stamp)) =~= records_of(kept@).push(stamp@));
            kept.push(stamp);
        }
        self.packets = kept;
    }
}

} // verus!
