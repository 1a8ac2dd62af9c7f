//! What holds of the format as a whole: a record that is written can be
//! read again, and comes back as it was.

use crate::bytes::{
    be_bytes, be_value, bit_pattern, lemma_be_bytes_len, lemma_be_bytes_of_be_value,
    lemma_be_value_of_be_bytes, lemma_pow256_values, pow256, signed16, signed64,
};
use crate::codec::frame::{
    fit_key, frame, lemma_min_exponent_at_most_8, lemma_min_exponent_is_least, min_exponent,
};
use crate::codec::model::{
    consumed, flag_byte, frame_of, inner_width, key_of, key_of_kind, kind_of, kind_of_key,
    option_bytes, parse_frame, parse_payload, payload_of, split_frame, u64_at, u64s_at,
    u64s_bytes, Fault, Record, Split,
};
use crate::codec::model::{
    parse_attribution, parse_blank_frames, parse_category, parse_comment, parse_console_region,
    parse_console_type, parse_dump_created, parse_dump_last_modified, parse_emulator_core,
    parse_emulator_name, parse_emulator_version, parse_experimental, parse_game_identifier,
    parse_game_title, parse_genesis_game_genie_code, parse_input_chunk, parse_input_moment,
    parse_lag_frame_chunk, parse_memory_init, parse_movie_file, parse_movie_license,
    parse_nes_clock_filter, parse_nes_game_genie_code, parse_nes_latch_filter, parse_nes_overread,
    parse_port_controller, parse_rerecords, parse_rom_name, parse_snes_clock_filter,
    parse_snes_game_genie_code, parse_snes_latch_train, parse_snes_overread, parse_source_link,
    parse_tas_last_modified, parse_total_frames, parse_unspecified, parse_verified,
};
use crate::codec::packets::PacketKind;
use crate::codec::{
    container_bytes, frames_of, parse_container, parse_stream, stream_after, Container, Failure,
    Stream, MAGIC_NUMBER,
};
use crate::text::{bytes_of, lemma_text_of_bytes_of};
use vstd::prelude::*;

verus! {

/// Whether a record is one that reading can give: the form in which every
/// record comes back from its own frame. The optional parts are there just
/// when the byte that announces them says so, a name with a length byte is
/// not longer than that byte can say, the payload is not longer than eight
/// bytes can say, and the key has the width of the container's keys, which
/// for the kinds of the catalog is two.
pub open spec fn canonical(r: Record, width: nat) -> bool
    decreases r,
{
    &&& payload_of(r, width).len() <= u64::MAX
    &&& match r {
        Record::ConsoleType { kind, custom } => width == 2 && (custom is Some <==> kind == 0xFF),
        Record::MemoryInit { data_type, name, data, .. } => {
            &&& width == 2
            &&& bytes_of(name).len() <= 255
            &&& (data is Some <==> data_type == 0xFF)
        },
        Record::MovieFile { name, .. } => width == 2 && bytes_of(name).len() <= 255,
        Record::Transition { transition_type, packet, .. } => {
            &&& width == 2
            &&& (packet is Some <==> transition_type == 0xFF)
            &&& match packet {
                Some(inner) => canonical(*inner, width),
                None => true,
            }
        },
        Record::MovieTransition { transition_type, packet, .. } => {
            &&& width == 2
            &&& (packet is Some <==> transition_type == 0xFF)
            &&& match packet {
                Some(inner) => canonical(*inner, width),
                None => true,
            }
        },
        Record::Unsupported { key, .. } => {
            &&& key.len() == width
            &&& kind_of_key(key) == PacketKind::Unsupported
        },
        _ => width == 2,
    }
}

/// A number of `n` bytes is read back as it was written.
pub proof fn lemma_field_round_trip(v: nat, n: nat)
    requires
        v < pow256(n),
    ensures
        be_value(be_bytes(v, n)) == v,
        be_bytes(v, n).len() == n,
{
    lemma_be_value_of_be_bytes(v, n);
    lemma_be_bytes_len(v, n);
    vstd::arithmetic::div_mod::lemma_small_mod(v, pow256(n));
}

/// A signed 16-bit number is read back as it was written.
pub proof fn lemma_i16_round_trip(v: i16)
    ensures
        signed16(be_value(be_bytes(bit_pattern(v as int, 0x1_0000), 2))) == v,
        be_bytes(bit_pattern(v as int, 0x1_0000), 2).len() == 2,
{
    lemma_pow256_values();
    lemma_field_round_trip(bit_pattern(v as int, 0x1_0000), 2);
}

/// A signed 64-bit number is read back as it was written.
pub proof fn lemma_i64_round_trip(v: i64)
    ensures
        signed64(be_value(be_bytes(bit_pattern(v as int, 0x1_0000_0000_0000_0000), 8))) == v,
        be_bytes(bit_pattern(v as int, 0x1_0000_0000_0000_0000), 8).len() == 8,
{
    lemma_pow256_values();
    lemma_field_round_trip(bit_pattern(v as int, 0x1_0000_0000_0000_0000), 8);
}

/// Numbers stored back to back take eight bytes each.
pub proof fn lemma_u64s_bytes_len(points: Seq<u64>)
    ensures
        u64s_bytes(points).len() == 8 * points.len(),
    decreases points.len(),
{
    if points.len() > 0 {
        lemma_u64s_bytes_len(points.drop_last());
        lemma_be_bytes_len(points.last() as nat, 8);
    }
}

/// Numbers stored back to back are read back as they were written.
pub proof fn lemma_u64s_round_trip(points: Seq<u64>)
    ensures
        u64s_at(u64s_bytes(points)) == points,
    decreases points.len(),
{
    let bytes = u64s_bytes(points);
    lemma_u64s_bytes_len(points);
    if points.len() == 0 {
        assert(u64s_at(bytes) =~= points);
    } else {
        let head = points.drop_last();
        let head_bytes = u64s_bytes(head);
        lemma_u64s_round_trip(head);
        lemma_u64s_bytes_len(head);
        lemma_pow256_values();
        lemma_field_round_trip(points.last() as nat, 8);
        assert forall|i: int| 0 <= i < points.len() implies u64_at(bytes, 8 * i) == points[i] by {
            if i < head.len() {
                assert(bytes.skip(8 * i).take(8) =~= head_bytes.skip(8 * i).take(8));
                assert(u64s_at(head_bytes)[i] == u64_at(head_bytes, 8 * i));
                assert(head[i] == points[i]);
            } else {
                assert(bytes.skip(8 * i).take(8) =~= be_bytes(points.last() as nat, 8));
            }
        }
        assert(bytes.len() / 8 == points.len());
        assert(u64s_at(bytes) =~= points);
    }
}

/// The key table reads the same in both directions: the key of a kind of
/// the catalog selects that kind, and is two bytes wide.
pub proof fn lemma_key_selects_kind(kind: PacketKind)
    requires
        kind != PacketKind::Unsupported,
    ensures
        key_of_kind(kind).len() == 2,
        kind_of_key(key_of_kind(kind)) == kind,
{
}

/// No two kinds of the catalog share a key.
pub proof fn lemma_keys_are_distinct(a: PacketKind, b: PacketKind)
    requires
        a != PacketKind::Unsupported,
        key_of_kind(a) == key_of_kind(b),
    ensures
        a == b,
{
    lemma_key_selects_kind(a);
    if b != PacketKind::Unsupported {
        lemma_key_selects_kind(b);
    }
}

/// A key that is as wide as the container's keys is stored as it is.
pub proof fn lemma_fit_key_of_fitting_key(key: Seq<u8>, width: nat)
    requires
        key.len() == width,
    ensures
        fit_key(key, width) == key,
{
    assert(key.skip(0) =~= key);
}

/// A key is always stored at the width of the container's keys.
pub proof fn lemma_fit_key_len(key: Seq<u8>, width: nat)
    ensures
        fit_key(key, width).len() == width,
{
}

/// A frame is split at its own bounds, whatever follows it: into the key at
/// the container's width and the payload, unchanged.
pub proof fn lemma_split_frame_of_frame(key: Seq<u8>, width: nat, payload: Seq<u8>, tail: Seq<u8>)
    requires
        payload.len() <= u64::MAX,
    ensures
        split_frame(frame(key, width, payload) + tail, width) == (Split::Whole {
            key: fit_key(key, width),
            payload,
            len: frame(key, width, payload).len(),
        }),
        frame(key, width, payload).len() == width + 1 + min_exponent(payload.len())
            + payload.len(),
{
    let len = payload.len();
    let exp = min_exponent(len);
    let input = frame(key, width, payload) + tail;
    lemma_min_exponent_at_most_8(len);
    lemma_min_exponent_is_least(len);
    lemma_field_round_trip(len, exp);
    lemma_fit_key_len(key, width);
    assert(input[width as int] == exp as u8);
    assert(input.skip(width + 1 as int).take(exp as int) =~= be_bytes(len, exp));
    assert(input.take(width as int) =~= fit_key(key, width));
    assert(input.skip((width + 1 + exp) as int).take(len as int) =~= payload);
}

/// A payload of kind `ConsoleType` is read back as the record it was written for.
proof fn lemma_parse_console_type(kind: u8, custom: Option<Seq<char>>, key: Seq<u8>, width: nat)
    requires
        custom is Some <==> kind == 0xFF,
    ensures
        ({
            let r = Record::ConsoleType { kind, custom };
            parse_console_type(key, payload_of(r, width), payload_of(r, width)) == Ok::<Record, Fault>(r)
        }),
{
    let r = Record::ConsoleType { kind, custom };
    let body = payload_of(r, width);
    if custom is Some {
        lemma_text_of_bytes_of(custom->0);
        assert(body.skip(1) =~= bytes_of(custom->0));
    }
}

/// A payload of kind `ConsoleRegion` is read back as the record it was written for.
proof fn lemma_parse_console_region(region: u8, key: Seq<u8>, width: nat)
    ensures
        ({
            let r = Record::ConsoleRegion { region };
            parse_console_region(key, payload_of(r, width), payload_of(r, width)) == Ok::<Record, Fault>(r)
        }),
{
    let r = Record::ConsoleRegion { region };
    let body = payload_of(r, width);
}

/// A payload of kind `GameTitle` is read back as the record it was written for.
proof fn lemma_parse_game_title(title: Seq<char>, key: Seq<u8>, width: nat)
    ensures
        ({
            let r = Record::GameTitle { title };
            parse_game_title(key, payload_of(r, width), payload_of(r, width)) == Ok::<Record, Fault>(r)
        }),
{
    let r = Record::GameTitle { title };
    let body = payload_of(r, width);
    lemma_text_of_bytes_of(title);
    assert(body.skip(0) =~= bytes_of(title));
    assert(body =~= bytes_of(title));
}

/// A payload of kind `RomName` is read back as the record it was written for.
proof fn lemma_parse_rom_name(name: Seq<char>, key: Seq<u8>, width: nat)
    ensures
        ({
            let r = Record::RomName { name };
            parse_rom_name(key, payload_of(r, width), payload_of(r, width)) == Ok::<Record, Fault>(r)
        }),
{
    let r = Record::RomName { name };
    let body = payload_of(r, width);
    lemma_text_of_bytes_of(name);
    assert(body.skip(0) =~= bytes_of(name));
    assert(body =~= bytes_of(name));
}

/// A payload of kind `Attribution` is read back as the record it was written for.
proof fn lemma_parse_attribution(kind: u8, name: Seq<char>, key: Seq<u8>, width: nat)
    ensures
        ({
            let r = Record::Attribution { kind, name };
            parse_attribution(key, payload_of(r, width), payload_of(r, width)) == Ok::<Record, Fault>(r)
        }),
{
    let r = Record::Attribution { kind, name };
    let body = payload_of(r, width);
    lemma_text_of_bytes_of(name);
    assert(body.skip(1) =~= bytes_of(name));
}

/// A payload of kind `Category` is read back as the record it was written for.
proof fn lemma_parse_category(category: Seq<char>, key: Seq<u8>, width: nat)
    ensures
        ({
            let r = Record::Category { category };
            parse_category(key, payload_of(r, width), payload_of(r, width)) == Ok::<Record, Fault>(r)
        }),
{
    let r = Record::Category { category };
    let body = payload_of(r, width);
    lemma_text_of_bytes_of(category);
    assert(body.skip(0) =~= bytes_of(category));
    assert(body =~= bytes_of(category));
}

/// A payload of kind `EmulatorName` is read back as the record it was written for.
proof fn lemma_parse_emulator_name(name: Seq<char>, key: Seq<u8>, width: nat)
    ensures
        ({
            let r = Record::EmulatorName { name };
            parse_emulator_name(key, payload_of(r, width), payload_of(r, width)) == Ok::<Record, Fault>(r)
        }),
{
    let r = Record::EmulatorName { name };
    let body = payload_of(r, width);
    lemma_text_of_bytes_of(name);
    assert(body.skip(0) =~= bytes_of(name));
    assert(body =~= bytes_of(name));
}

/// A payload of kind `EmulatorVersion` is read back as the record it was written for.
proof fn lemma_parse_emulator_version(version: Seq<char>, key: Seq<u8>, width: nat)
    ensures
        ({
            let r = Record::EmulatorVersion { version };
            parse_emulator_version(key, payload_of(r, width), payload_of(r, width)) == Ok::<Record, Fault>(r)
        }),
{
    let r = Record::EmulatorVersion { version };
    let body = payload_of(r, width);
    lemma_text_of_bytes_of(version);
    assert(body.skip(0) =~= bytes_of(version));
    assert(body =~= bytes_of(version));
}

/// A payload of kind `EmulatorCore` is read back as the record it was written for.
proof fn lemma_parse_emulator_core(core: Seq<char>, key: Seq<u8>, width: nat)
    ensures
        ({
            let r = Record::EmulatorCore { core };
            parse_emulator_core(key, payload_of(r, width), payload_of(r, width)) == Ok::<Record, Fault>(r)
        }),
{
    let r = Record::EmulatorCore { core };
    let body = payload_of(r, width);
    lemma_text_of_bytes_of(core);
    assert(body.skip(0) =~= bytes_of(core));
    assert(body =~= bytes_of(core));
}

/// A payload of kind `TasLastModified` is read back as the record it was written for.
proof fn lemma_parse_tas_last_modified(epoch: i64, key: Seq<u8>, width: nat)
    ensures
        ({
            let r = Record::TasLastModified { epoch };
            parse_tas_last_modified(key, payload_of(r, width), payload_of(r, width)) == Ok::<Record, Fault>(r)
        }),
{
    let r = Record::TasLastModified { epoch };
    let body = payload_of(r, width);
    lemma_i64_round_trip(epoch);
    assert(body.skip(0).take(8) =~= be_bytes(
        bit_pattern(epoch as int, 0x1_0000_0000_0000_0000),
        8,
    ));
}

/// A payload of kind `DumpCreated` is read back as the record it was written for.
proof fn lemma_parse_dump_created(epoch: i64, key: Seq<u8>, width: nat)
    ensures
        ({
            let r = Record::DumpCreated { epoch };
            parse_dump_created(key, payload_of(r, width), payload_of(r, width)) == Ok::<Record, Fault>(r)
        }),
{
    let r = Record::DumpCreated { epoch };
    let body = payload_of(r, width);
    lemma_i64_round_trip(epoch);
    assert(body.skip(0).take(8) =~= be_bytes(
        bit_pattern(epoch as int, 0x1_0000_0000_0000_0000),
        8,
    ));
}

/// A payload of kind `DumpLastModified` is read back as the record it was written for.
proof fn lemma_parse_dump_last_modified(epoch: i64, key: Seq<u8>, width: nat)
    ensures
        ({
            let r = Record::DumpLastModified { epoch };
            parse_dump_last_modified(key, payload_of(r, width), payload_of(r, width)) == Ok::<Record, Fault>(r)
        }),
{
    let r = Record::DumpLastModified { epoch };
    let body = payload_of(r, width);
    lemma_i64_round_trip(epoch);
    assert(body.skip(0).take(8) =~= be_bytes(
        bit_pattern(epoch as int, 0x1_0000_0000_0000_0000),
        8,
    ));
}

/// A payload of kind `TotalFrames` is read back as the record it was written for.
proof fn lemma_parse_total_frames(frames: u32, key: Seq<u8>, width: nat)
    ensures
        ({
            let r = Record::TotalFrames { frames };
            parse_total_frames(key, payload_of(r, width), payload_of(r, width)) == Ok::<Record, Fault>(r)
        }),
{
    let r = Record::TotalFrames { frames };
    let body = payload_of(r, width);
    lemma_pow256_values();
    lemma_field_round_trip(frames as nat, 4);
    assert(body.skip(0).take(4) =~= be_bytes(frames as nat, 4));
}

/// A payload of kind `Rerecords` is read back as the record it was written for.
proof fn lemma_parse_rerecords(rerecords: u32, key: Seq<u8>, width: nat)
    ensures
        ({
            let r = Record::Rerecords { rerecords };
            parse_rerecords(key, payload_of(r, width), payload_of(r, width)) == Ok::<Record, Fault>(r)
        }),
{
    let r = Record::Rerecords { rerecords };
    let body = payload_of(r, width);
    lemma_pow256_values();
    lemma_field_round_trip(rerecords as nat, 4);
    assert(body.skip(0).take(4) =~= be_bytes(rerecords as nat, 4));
}

/// A payload of kind `SourceLink` is read back as the record it was written for.
proof fn lemma_parse_source_link(link: Seq<char>, key: Seq<u8>, width: nat)
    ensures
        ({
            let r = Record::SourceLink { link };
            parse_source_link(key, payload_of(r, width), payload_of(r, width)) == Ok::<Record, Fault>(r)
        }),
{
    let r = Record::SourceLink { link };
    let body = payload_of(r, width);
    lemma_text_of_bytes_of(link);
    assert(body.skip(0) =~= bytes_of(link));
    assert(body =~= bytes_of(link));
}

/// A payload of kind `BlankFrames` is read back as the record it was written for.
proof fn lemma_parse_blank_frames(frames: i16, key: Seq<u8>, width: nat)
    ensures
        ({
            let r = Record::BlankFrames { frames };
            parse_blank_frames(key, payload_of(r, width), payload_of(r, width)) == Ok::<Record, Fault>(r)
        }),
{
    let r = Record::BlankFrames { frames };
    let body = payload_of(r, width);
    lemma_i16_round_trip(frames);
    assert(body.skip(0).take(2) =~= be_bytes(bit_pattern(frames as int, 0x1_0000), 2));
}

/// A payload of kind `Verified` is read back as the record it was written for.
proof fn lemma_parse_verified(verified: bool, key: Seq<u8>, width: nat)
    ensures
        ({
            let r = Record::Verified { verified };
            parse_verified(key, payload_of(r, width), payload_of(r, width)) == Ok::<Record, Fault>(r)
        }),
{
    let r = Record::Verified { verified };
    let body = payload_of(r, width);
}

/// A payload of kind `MemoryInit` is read back as the record it was written for.
proof fn lemma_parse_memory_init(
    data_type: u8,
    device: u16,
    required: bool,
    name: Seq<char>,
    data: Option<Seq<u8>>,
    key: Seq<u8>,
    width: nat,
)
    requires
        bytes_of(name).len() <= 255,
        data is Some <==> data_type == 0xFF,
    ensures
        ({
            let r = Record::MemoryInit { data_type, device, required, name, data };
            parse_memory_init(key, payload_of(r, width), payload_of(r, width)) == Ok::<Record, Fault>(r)
        }),
{
    let r = Record::MemoryInit { data_type, device, required, name, data };
    let body = payload_of(r, width);
    let stored = bytes_of(name);
    let n = stored.len() as int;
    lemma_pow256_values();
    lemma_field_round_trip(device as nat, 2);
    lemma_text_of_bytes_of(name);
    assert(stored.take(n) =~= stored);
    assert(body.skip(1).take(2) =~= be_bytes(device as nat, 2));
    assert(body[3] == flag_byte(required));
    assert(body[4] == n);
    assert(body.skip(5).take(n) =~= stored);
    assert(body.skip(5 + n) =~= option_bytes(data));
}

/// A payload of kind `GameIdentifier` is read back as the record it was written for.
proof fn lemma_parse_game_identifier(
    kind: u8,
    encoding: u8,
    identifier: Seq<u8>,
    key: Seq<u8>,
    width: nat,
)
    ensures
        ({
            let r = Record::GameIdentifier { kind, encoding, identifier };
            parse_game_identifier(key, payload_of(r, width), payload_of(r, width)) == Ok::<Record, Fault>(r)
        }),
{
    let r = Record::GameIdentifier { kind, encoding, identifier };
    let body = payload_of(r, width);
    assert(body.skip(2) =~= identifier);
}

/// A payload of kind `MovieLicense` is read back as the record it was written for.
proof fn lemma_parse_movie_license(license: Seq<char>, key: Seq<u8>, width: nat)
    ensures
        ({
            let r = Record::MovieLicense { license };
            parse_movie_license(key, payload_of(r, width), payload_of(r, width)) == Ok::<Record, Fault>(r)
        }),
{
    let r = Record::MovieLicense { license };
    let body = payload_of(r, width);
    lemma_text_of_bytes_of(license);
    assert(body.skip(0) =~= bytes_of(license));
    assert(body =~= bytes_of(license));
}

/// A payload of kind `MovieFile` is read back as the record it was written for.
proof fn lemma_parse_movie_file(name: Seq<char>, data: Seq<u8>, key: Seq<u8>, width: nat)
    requires
        bytes_of(name).len() <= 255,
    ensures
        ({
            let r = Record::MovieFile { name, data };
            parse_movie_file(key, payload_of(r, width), payload_of(r, width)) == Ok::<Record, Fault>(r)
        }),
{
    let r = Record::MovieFile { name, data };
    let body = payload_of(r, width);
    let stored = bytes_of(name);
    let n = stored.len() as int;
    lemma_text_of_bytes_of(name);
    assert(stored.take(n) =~= stored);
    assert(body[0] == n);
    assert(body.skip(1).take(n) =~= stored);
    assert(body.skip(1 + n) =~= data);
}

/// A payload of kind `PortController` is read back as the record it was written for.
proof fn lemma_parse_port_controller(port: u8, kind: u16, key: Seq<u8>, width: nat)
    ensures
        ({
            let r = Record::PortController { port, kind };
            parse_port_controller(key, payload_of(r, width), payload_of(r, width)) == Ok::<Record, Fault>(r)
        }),
{
    let r = Record::PortController { port, kind };
    let body = payload_of(r, width);
    lemma_pow256_values();
    lemma_field_round_trip(kind as nat, 2);
    assert(body.skip(1).take(2) =~= be_bytes(kind as nat, 2));
}

/// A payload of kind `NesLatchFilter` is read back as the record it was written for.
proof fn lemma_parse_nes_latch_filter(time: u16, key: Seq<u8>, width: nat)
    ensures
        ({
            let r = Record::NesLatchFilter { time };
            parse_nes_latch_filter(key, payload_of(r, width), payload_of(r, width)) == Ok::<Record, Fault>(r)
        }),
{
    let r = Record::NesLatchFilter { time };
    let body = payload_of(r, width);
    lemma_pow256_values();
    lemma_field_round_trip(time as nat, 2);
    assert(body.skip(0).take(2) =~= be_bytes(time as nat, 2));
}

/// A payload of kind `NesClockFilter` is read back as the record it was written for.
proof fn lemma_parse_nes_clock_filter(time: u8, key: Seq<u8>, width: nat)
    ensures
        ({
            let r = Record::NesClockFilter { time };
            parse_nes_clock_filter(key, payload_of(r, width), payload_of(r, width)) == Ok::<Record, Fault>(r)
        }),
{
    let r = Record::NesClockFilter { time };
    let body = payload_of(r, width);
}

/// A payload of kind `NesOverread` is read back as the record it was written for.
proof fn lemma_parse_nes_overread(overread: bool, key: Seq<u8>, width: nat)
    ensures
        ({
            let r = Record::NesOverread { overread };
            parse_nes_overread(key, payload_of(r, width), payload_of(r, width)) == Ok::<Record, Fault>(r)
        }),
{
    let r = Record::NesOverread { overread };
    let body = payload_of(r, width);
}

/// A payload of kind `NesGameGenieCode` is read back as the record it was written for.
proof fn lemma_parse_nes_game_genie_code(code: Seq<char>, key: Seq<u8>, width: nat)
    ensures
        ({
            let r = Record::NesGameGenieCode { code };
            parse_nes_game_genie_code(key, payload_of(r, width), payload_of(r, width)) == Ok::<Record, Fault>(r)
        }),
{
    let r = Record::NesGameGenieCode { code };
    let body = payload_of(r, width);
    lemma_text_of_bytes_of(code);
    assert(body.skip(0) =~= bytes_of(code));
    assert(body =~= bytes_of(code));
}

/// A payload of kind `SnesClockFilter` is read back as the record it was written for.
proof fn lemma_parse_snes_clock_filter(time: u8, key: Seq<u8>, width: nat)
    ensures
        ({
            let r = Record::SnesClockFilter { time };
            parse_snes_clock_filter(key, payload_of(r, width), payload_of(r, width)) == Ok::<Record, Fault>(r)
        }),
{
    let r = Record::SnesClockFilter { time };
    let body = payload_of(r, width);
}

/// A payload of kind `SnesOverread` is read back as the record it was written for.
proof fn lemma_parse_snes_overread(overread: bool, key: Seq<u8>, width: nat)
    ensures
        ({
            let r = Record::SnesOverread { overread };
            parse_snes_overread(key, payload_of(r, width), payload_of(r, width)) == Ok::<Record, Fault>(r)
        }),
{
    let r = Record::SnesOverread { overread };
    let body = payload_of(r, width);
}

/// A payload of kind `SnesGameGenieCode` is read back as the record it was written for.
proof fn lemma_parse_snes_game_genie_code(code: Seq<char>, key: Seq<u8>, width: nat)
    ensures
        ({
            let r = Record::SnesGameGenieCode { code };
            parse_snes_game_genie_code(key, payload_of(r, width), payload_of(r, width)) == Ok::<Record, Fault>(r)
        }),
{
    let r = Record::SnesGameGenieCode { code };
    let body = payload_of(r, width);
    lemma_text_of_bytes_of(code);
    assert(body.skip(0) =~= bytes_of(code));
    assert(body =~= bytes_of(code));
}

/// A payload of kind `SnesLatchTrain` is read back as the record it was written for.
proof fn lemma_parse_snes_latch_train(points: Seq<u64>, key: Seq<u8>, width: nat)
    ensures
        ({
            let r = Record::SnesLatchTrain { points };
            parse_snes_latch_train(key, payload_of(r, width), payload_of(r, width)) == Ok::<Record, Fault>(r)
        }),
{
    let r = Record::SnesLatchTrain { points };
    let body = payload_of(r, width);
    lemma_u64s_round_trip(points);
}

/// A payload of kind `GenesisGameGenieCode` is read back as the record it was written for.
proof fn lemma_parse_genesis_game_genie_code(code: Seq<char>, key: Seq<u8>, width: nat)
    ensures
        ({
            let r = Record::GenesisGameGenieCode { code };
            parse_genesis_game_genie_code(key, payload_of(r, width), payload_of(r, width)) == Ok::<Record, Fault>(r)
        }),
{
    let r = Record::GenesisGameGenieCode { code };
    let body = payload_of(r, width);
    lemma_text_of_bytes_of(code);
    assert(body.skip(0) =~= bytes_of(code));
    assert(body =~= bytes_of(code));
}

/// A payload of kind `InputChunk` is read back as the record it was written for.
proof fn lemma_parse_input_chunk(port: u8, inputs: Seq<u8>, key: Seq<u8>, width: nat)
    ensures
        ({
            let r = Record::InputChunk { port, inputs };
            parse_input_chunk(key, payload_of(r, width), payload_of(r, width)) == Ok::<Record, Fault>(r)
        }),
{
    let r = Record::InputChunk { port, inputs };
    let body = payload_of(r, width);
    assert(body.skip(1) =~= inputs);
}

/// A payload of kind `InputMoment` is read back as the record it was written for.
proof fn lemma_parse_input_moment(
    port: u8,
    index_type: u8,
    index: u64,
    inputs: Seq<u8>,
    key: Seq<u8>,
    width: nat,
)
    ensures
        ({
            let r = Record::InputMoment { port, index_type, index, inputs };
            parse_input_moment(key, payload_of(r, width), payload_of(r, width)) == Ok::<Record, Fault>(r)
        }),
{
    let r = Record::InputMoment { port, index_type, index, inputs };
    let body = payload_of(r, width);
    lemma_pow256_values();
    lemma_field_round_trip(index as nat, 8);
    assert(body.skip(2).take(8) =~= be_bytes(index as nat, 8));
    assert(body.skip(10) =~= inputs);
}

/// A payload of kind `LagFrameChunk` is read back as the record it was written for.
proof fn lemma_parse_lag_frame_chunk(movie_frame: u32, count: u32, key: Seq<u8>, width: nat)
    ensures
        ({
            let r = Record::LagFrameChunk { movie_frame, count };
            parse_lag_frame_chunk(key, payload_of(r, width), payload_of(r, width)) == Ok::<Record, Fault>(r)
        }),
{
    let r = Record::LagFrameChunk { movie_frame, count };
    let body = payload_of(r, width);
    lemma_pow256_values();
    lemma_field_round_trip(movie_frame as nat, 4);
    assert(body.skip(0).take(4) =~= be_bytes(movie_frame as nat, 4));
    lemma_field_round_trip(count as nat, 4);
    assert(body.skip(4).take(4) =~= be_bytes(count as nat, 4));
}

/// A payload of kind `Comment` is read back as the record it was written for.
proof fn lemma_parse_comment(comment: Seq<char>, key: Seq<u8>, width: nat)
    ensures
        ({
            let r = Record::Comment { comment };
            parse_comment(key, payload_of(r, width), payload_of(r, width)) == Ok::<Record, Fault>(r)
        }),
{
    let r = Record::Comment { comment };
    let body = payload_of(r, width);
    lemma_text_of_bytes_of(comment);
    assert(body.skip(0) =~= bytes_of(comment));
    assert(body =~= bytes_of(comment));
}

/// A payload of kind `Experimental` is read back as the record it was written for.
proof fn lemma_parse_experimental(experimental: bool, key: Seq<u8>, width: nat)
    ensures
        ({
            let r = Record::Experimental { experimental };
            parse_experimental(key, payload_of(r, width), payload_of(r, width)) == Ok::<Record, Fault>(r)
        }),
{
    let r = Record::Experimental { experimental };
    let body = payload_of(r, width);
}

/// A payload of kind `Unspecified` is read back as the record it was written for.
proof fn lemma_parse_unspecified(payload: Seq<u8>, key: Seq<u8>, width: nat)
    ensures
        ({
            let r = Record::Unspecified { payload };
            parse_unspecified(key, payload_of(r, width), payload_of(r, width)) == Ok::<Record, Fault>(r)
        }),
{
    let r = Record::Unspecified { payload };
    let body = payload_of(r, width);
}

/// Reading the payload of a canonical record under the record's key gives
/// the record.
pub proof fn lemma_payload_round_trip(r: Record, width: nat)
    requires
        canonical(r, width),
    ensures
        parse_payload(key_of(r), payload_of(r, width)) == Ok::<Record, Fault>(r),
    decreases r, 0nat,
{
    let key = key_of(r);
    let body = payload_of(r, width);
    if !(r is Unsupported) {
        lemma_key_selects_kind(kind_of(r));
    }
    match r {
        Record::ConsoleType { kind, custom } => {
            lemma_parse_console_type(kind, custom, key, width);
        },
        Record::ConsoleRegion { region } => {
            lemma_parse_console_region(region, key, width);
        },
        Record::GameTitle { title } => {
            lemma_parse_game_title(title, key, width);
        },
        Record::RomName { name } => {
            lemma_parse_rom_name(name, key, width);
        },
        Record::Attribution { kind, name } => {
            lemma_parse_attribution(kind, name, key, width);
        },
        Record::Category { category } => {
            lemma_parse_category(category, key, width);
        },
        Record::EmulatorName { name } => {
            lemma_parse_emulator_name(name, key, width);
        },
        Record::EmulatorVersion { version } => {
            lemma_parse_emulator_version(version, key, width);
        },
        Record::EmulatorCore { core } => {
            lemma_parse_emulator_core(core, key, width);
        },
        Record::TasLastModified { epoch } => {
            lemma_parse_tas_last_modified(epoch, key, width);
        },
        Record::DumpCreated { epoch } => {
            lemma_parse_dump_created(epoch, key, width);
        },
        Record::DumpLastModified { epoch } => {
            lemma_parse_dump_last_modified(epoch, key, width);
        },
        Record::TotalFrames { frames } => {
            lemma_parse_total_frames(frames, key, width);
        },
        Record::Rerecords { rerecords } => {
            lemma_parse_rerecords(rerecords, key, width);
        },
        Record::SourceLink { link } => {
            lemma_parse_source_link(link, key, width);
        },
        Record::BlankFrames { frames } => {
            lemma_parse_blank_frames(frames, key, width);
        },
        Record::Verified { verified } => {
            lemma_parse_verified(verified, key, width);
        },
        Record::MemoryInit { data_type, device, required, name, data } => {
            lemma_parse_memory_init(data_type, device, required, name, data, key, width);
        },
        Record::GameIdentifier { kind, encoding, identifier } => {
            lemma_parse_game_identifier(kind, encoding, identifier, key, width);
        },
        Record::MovieLicense { license } => {
            lemma_parse_movie_license(license, key, width);
        },
        Record::MovieFile { name, data } => {
            lemma_parse_movie_file(name, data, key, width);
        },
        Record::PortController { port, kind } => {
            lemma_parse_port_controller(port, kind, key, width);
        },
        Record::NesLatchFilter { time } => {
            lemma_parse_nes_latch_filter(time, key, width);
        },
        Record::NesClockFilter { time } => {
            lemma_parse_nes_clock_filter(time, key, width);
        },
        Record::NesOverread { overread } => {
            lemma_parse_nes_overread(overread, key, width);
        },
        Record::NesGameGenieCode { code } => {
            lemma_parse_nes_game_genie_code(code, key, width);
        },
        Record::SnesClockFilter { time } => {
            lemma_parse_snes_clock_filter(time, key, width);
        },
        Record::SnesOverread { overread } => {
            lemma_parse_snes_overread(overread, key, width);
        },
        Record::SnesGameGenieCode { code } => {
            lemma_parse_snes_game_genie_code(code, key, width);
        },
        Record::SnesLatchTrain { points } => {
            lemma_parse_snes_latch_train(points, key, width);
        },
        Record::GenesisGameGenieCode { code } => {
            lemma_parse_genesis_game_genie_code(code, key, width);
        },
        Record::InputChunk { port, inputs } => {
            lemma_parse_input_chunk(port, inputs, key, width);
        },
        Record::InputMoment { port, index_type, index, inputs } => {
            lemma_parse_input_moment(port, index_type, index, inputs, key, width);
        },
        Record::Transition { index_type, index, transition_type, packet } => {
            lemma_pow256_values();
            lemma_field_round_trip(index as nat, 8);
            assert(body.skip(1).take(8) =~= be_bytes(index as nat, 8));
            assert(body[0] == index_type);
            assert(body[9] == transition_type);
            match packet {
                Some(inner) => {
                    let nested = frame_of(*inner, width);
                    lemma_frame_round_trip(*inner, width, Seq::<u8>::empty());
                    assert(nested + Seq::<u8>::empty() =~= nested);
                    assert(body.skip(10) =~= nested);
                    assert(inner_width(key) == width);
                    assert(Box::new(*inner) == inner);
                },
                None => {},
            }
        },
        Record::LagFrameChunk { movie_frame, count } => {
            lemma_parse_lag_frame_chunk(movie_frame, count, key, width);
        },
        Record::MovieTransition { movie_frame, transition_type, packet } => {
            lemma_pow256_values();
            lemma_field_round_trip(movie_frame as nat, 4);
            assert(body.skip(0).take(4) =~= be_bytes(movie_frame as nat, 4));
            assert(body[4] == transition_type);
            match packet {
                Some(inner) => {
                    let nested = frame_of(*inner, width);
                    lemma_frame_round_trip(*inner, width, Seq::<u8>::empty());
                    assert(nested + Seq::<u8>::empty() =~= nested);
                    assert(body.skip(5) =~= nested);
                    assert(inner_width(key) == width);
                    assert(Box::new(*inner) == inner);
                },
                None => {},
            }
        },
        Record::Comment { comment } => {
            lemma_parse_comment(comment, key, width);
        },
        Record::Experimental { experimental } => {
            lemma_parse_experimental(experimental, key, width);
        },
        Record::Unspecified { payload } => {
            lemma_parse_unspecified(payload, key, width);
        },
        Record::Unsupported { key, payload } => {},
    }
}

/// The round trip of one record: the frame of a canonical record, whatever
/// follows it, is read as that record, and reading uses up the frame and no
/// more.
pub proof fn lemma_frame_round_trip(r: Record, width: nat, tail: Seq<u8>)
    requires
        canonical(r, width),
    ensures
        parse_frame(frame_of(r, width) + tail, width) == Ok::<Record, Fault>(r),
        consumed(split_frame(frame_of(r, width) + tail, width)) == frame_of(r, width).len(),
        frame_of(r, width).len() > 0,
    decreases r, 1nat,
{
    let key = key_of(r);
    if !(r is Unsupported) {
        lemma_key_selects_kind(kind_of(r));
    }
    lemma_fit_key_of_fitting_key(key, width);
    lemma_split_frame_of_frame(key, width, payload_of(r, width), tail);
    lemma_payload_round_trip(r, width);
}

/// Forward compatibility: a frame under a key that the catalog does not
/// list is read as the fallback record, which keeps the key and the payload
/// as they are, and the frame of that record is the same frame again.
pub proof fn lemma_unknown_key_passes_through(
    key: Seq<u8>,
    payload: Seq<u8>,
    width: nat,
    tail: Seq<u8>,
)
    requires
        key.len() == width,
        kind_of_key(key) == PacketKind::Unsupported,
        payload.len() <= u64::MAX,
    ensures
        parse_frame(frame(key, width, payload) + tail, width) == Ok::<Record, Fault>(
            Record::Unsupported { key, payload },
        ),
        frame_of(Record::Unsupported { key, payload }, width) == frame(key, width, payload),
{
    lemma_fit_key_of_fitting_key(key, width);
    lemma_split_frame_of_frame(key, width, payload, tail);
}

/// The frames of a sequence start with the frame of its first record.
pub proof fn lemma_frames_of_front(first: Record, rest: Seq<Record>, width: nat)
    ensures
        frames_of(seq![first] + rest, width) == frame_of(first, width) + frames_of(rest, width),
    decreases rest.len(),
{
    let all = seq![first] + rest;
    if rest.len() == 0 {
        assert(all.drop_last() =~= Seq::<Record>::empty());
        assert(frames_of(all.drop_last(), width) =~= Seq::<u8>::empty());
        assert(frames_of(all, width) =~= frame_of(first, width) + frames_of(rest, width));
    } else {
        lemma_frames_of_front(first, rest.drop_last(), width);
        assert(all.drop_last() =~= seq![first] + rest.drop_last());
        assert(all.last() == rest.last());
        assert(frames_of(all, width) =~= frame_of(first, width) + frames_of(rest, width));
    }
}

/// The round trip of a run of records: the frames of canonical records are
/// read as those records, in their order, and none is passed over.
pub proof fn lemma_stream_round_trip(records: Seq<Record>, width: nat)
    requires
        forall|i: int| 0 <= i < records.len() ==> canonical(#[trigger] records[i], width),
    ensures
        parse_stream(frames_of(records, width), width) == Ok::<Stream, Fault>(
            Stream { records, skipped: Seq::empty() },
        ),
    decreases records.len(),
{
    reveal(parse_stream);
    if records.len() == 0 {
        assert(records =~= Seq::<Record>::empty());
    } else {
        let first = records[0];
        let rest = records.skip(1);
        let input = frames_of(records, width);
        assert(records =~= seq![first] + rest);
        lemma_frames_of_front(first, rest, width);
        lemma_frame_round_trip(first, width, frames_of(rest, width));
        lemma_fit_key_of_fitting_key(key_of(first), width);
        if !(first is Unsupported) {
            lemma_key_selects_kind(kind_of(first));
        }
        lemma_split_frame_of_frame(
            key_of(first),
            width,
            payload_of(first, width),
            frames_of(rest, width),
        );
        lemma_payload_round_trip(first, width);
        assert forall|i: int| 0 <= i < rest.len() implies canonical(#[trigger] rest[i], width) by {
            assert(rest[i] == records[i + 1]);
        }
        lemma_stream_round_trip(rest, width);
        assert(input.skip(frame_of(first, width).len() as int) =~= frames_of(rest, width));
        assert(seq![first] + rest =~= records);
    }
}

/// The round trip of a container: the file of a container whose records are
/// canonical is read as that container, and no frame is passed over.
pub proof fn lemma_container_round_trip(c: Container)
    requires
        forall|i: int|
            0 <= i < c.records.len() ==> canonical(#[trigger] c.records[i], c.width as nat),
    ensures
        parse_container(container_bytes(c)) == Ok::<(Container, Seq<Fault>), Failure>(
            (c, Seq::empty()),
        ),
{
    let data = container_bytes(c);
    let frames = frames_of(c.records, c.width as nat);
    lemma_pow256_values();
    lemma_field_round_trip(c.version as nat, 2);
    lemma_stream_round_trip(c.records, c.width as nat);
    assert(MAGIC_NUMBER@.len() == 4);
    assert(data.take(4) =~= MAGIC_NUMBER@);
    assert(data.skip(4).take(2) =~= be_bytes(c.version as nat, 2));
    assert(data[6] == c.width);
    assert(data.skip(7) =~= frames);
}

/// A frame written with the least exponent is rebuilt, byte for byte, from
/// the key and the payload that it splits into.
pub proof fn lemma_frame_of_split(input: Seq<u8>, width: nat)
    requires
        split_frame(input, width) is Whole,
        input[width as int] == min_exponent(split_frame(input, width)->payload.len()),
    ensures
        frame(split_frame(input, width)->key, width, split_frame(input, width)->payload)
            == input.take(split_frame(input, width)->len as int),
{
    let split = split_frame(input, width);
    let key = split->key;
    let payload = split->payload;
    let exp = input[width as int];
    let stored = input.skip(width + 1 as int).take(exp as int);
    lemma_fit_key_of_fitting_key(key, width);
    lemma_be_bytes_of_be_value(stored);
    assert(frame(key, width, payload) =~= input.take(split->len as int));
}

/// Forward compatibility, for any frame that reading meets: where the key
/// is not in the catalog, the record read keeps key and payload as they
/// are, and where the frame was written with the least exponent, the frame
/// of that record is the frame that was read.
pub proof fn lemma_unknown_frame_is_kept(input: Seq<u8>, width: nat)
    requires
        split_frame(input, width) is Whole,
        kind_of_key(split_frame(input, width)->key) == PacketKind::Unsupported,
    ensures
        parse_frame(input, width) == Ok::<Record, Fault>(
            Record::Unsupported {
                key: split_frame(input, width)->key,
                payload: split_frame(input, width)->payload,
            },
        ),
        input[width as int] == min_exponent(split_frame(input, width)->payload.len())
            ==> frame_of(parse_frame(input, width)->Ok_0, width) == input.take(
            split_frame(input, width)->len as int,
        ),
{
    if input[width as int] == min_exponent(split_frame(input, width)->payload.len()) {
        lemma_frame_of_split(input, width);
    }
}

/// One step of reading: a frame in front of a run of frames adds its
/// outcome in front of theirs, be that a record or a fault in its payload
/// past which reading goes on.
pub proof fn lemma_stream_step(key: Seq<u8>, payload: Seq<u8>, width: nat, tail: Seq<u8>)
    requires
        key.len() == width,
        payload.len() <= u64::MAX,
        parse_payload(key, payload) is Ok || parse_payload(key, payload)->Err_0.recoverable(),
        parse_stream(tail, width) is Ok,
    ensures
        parse_stream(frame(key, width, payload) + tail, width) == Ok::<Stream, Fault>(
            stream_after(parse_payload(key, payload), parse_stream(tail, width)->Ok_0),
        ),
{
    reveal(parse_stream);
    let head = frame(key, width, payload);
    lemma_fit_key_of_fitting_key(key, width);
    lemma_split_frame_of_frame(key, width, payload, tail);
    assert((head + tail).skip(head.len() as int) =~= tail);
}

/// A frame whose payload does not fit its kind is passed over, and the
/// frames around it are read: of three frames with such a one in the middle,
/// the first and the third give the records, and the second the one fault
/// that is reported.
pub proof fn lemma_misfit_is_passed_over(
    first: (Seq<u8>, Seq<u8>),
    second: (Seq<u8>, Seq<u8>),
    third: (Seq<u8>, Seq<u8>),
    width: nat,
)
    requires
        first.0.len() == width && second.0.len() == width && third.0.len() == width,
        first.1.len() <= u64::MAX && second.1.len() <= u64::MAX && third.1.len() <= u64::MAX,
        parse_payload(first.0, first.1) is Ok,
        parse_payload(second.0, second.1) is Err,
        parse_payload(second.0, second.1)->Err_0.recoverable(),
        parse_payload(third.0, third.1) is Ok,
    ensures
        parse_stream(
            frame(first.0, width, first.1) + frame(second.0, width, second.1) + frame(
                third.0,
                width,
                third.1,
            ),
            width,
        ) == Ok::<Stream, Fault>(
            Stream {
                records: seq![
                    parse_payload(first.0, first.1)->Ok_0,
                    parse_payload(third.0, third.1)->Ok_0,
                ],
                skipped: seq![parse_payload(second.0, second.1)->Err_0],
            },
        ),
{
    let a = frame(first.0, width, first.1);
    let b = frame(second.0, width, second.1);
    let c = frame(third.0, width, third.1);
    let empty = Seq::<u8>::empty();
    assert(parse_stream(empty, width) == Ok::<Stream, Fault>(
        Stream { records: Seq::empty(), skipped: Seq::empty() },
    )) by {
        reveal(parse_stream);
    }
    lemma_stream_step(third.0, third.1, width, empty);
    lemma_stream_step(second.0, second.1, width, c + empty);
    lemma_stream_step(first.0, first.1, width, b + (c + empty));
    lemma_three_outcomes(
        a,
        b,
        c,
        parse_payload(first.0, first.1),
        parse_payload(second.0, second.1),
        parse_payload(third.0, third.1),
        width,
    );
}

/// Three steps of reading, put together.
proof fn lemma_three_outcomes(
    a: Seq<u8>,
    b: Seq<u8>,
    c: Seq<u8>,
    first: Result<Record, Fault>,
    second: Result<Record, Fault>,
    third: Result<Record, Fault>,
    width: nat,
)
    requires
        first is Ok && second is Err && third is Ok,
        parse_stream(Seq::<u8>::empty(), width) == Ok::<Stream, Fault>(
            Stream { records: Seq::empty(), skipped: Seq::empty() },
        ),
        parse_stream(c + Seq::<u8>::empty(), width) == Ok::<Stream, Fault>(
            stream_after(third, parse_stream(Seq::<u8>::empty(), width)->Ok_0),
        ),
        parse_stream(b + (c + Seq::<u8>::empty()), width) == Ok::<Stream, Fault>(
            stream_after(second, parse_stream(c + Seq::<u8>::empty(), width)->Ok_0),
        ),
        parse_stream(a + (b + (c + Seq::<u8>::empty())), width) == Ok::<Stream, Fault>(
            stream_after(first, parse_stream(b + (c + Seq::<u8>::empty()), width)->Ok_0),
        ),
    ensures
        parse_stream(a + b + c, width) == Ok::<Stream, Fault>(
            Stream { records: seq![first->Ok_0, third->Ok_0], skipped: seq![second->Err_0] },
        ),
{
    let empty = Seq::<u8>::empty();
    assert(a + b + c =~= a + (b + (c + empty)));
    let nothing = parse_stream(empty, width)->Ok_0;
    assert(nothing.records =~= Seq::<Record>::empty());
    assert(nothing.skipped =~= Seq::<Fault>::empty());
    let all = parse_stream(a + (b + (c + empty)), width)->Ok_0;
    assert(all.records =~= seq![first->Ok_0, third->Ok_0]);
    assert(all.skipped =~= seq![second->Err_0]);
}

/// One step of reading a record: the frame of a canonical record in front
/// of a run of frames adds the record in front of theirs.
pub proof fn lemma_record_step(r: Record, width: nat, tail: Seq<u8>)
    requires
        canonical(r, width),
        parse_stream(tail, width) is Ok,
    ensures
        parse_stream(frame_of(r, width) + tail, width) == Ok::<Stream, Fault>(
            Stream {
                records: seq![r] + parse_stream(tail, width)->Ok_0.records,
                skipped: parse_stream(tail, width)->Ok_0.skipped,
            },
        ),
{
    lemma_record_key_fits(r, width);
    lemma_payload_round_trip(r, width);
    lemma_stream_step(key_of(r), payload_of(r, width), width, tail);
}

/// The key of a canonical record has the width of the container's keys.
pub proof fn lemma_record_key_fits(r: Record, width: nat)
    requires
        canonical(r, width),
    ensures
        key_of(r).len() == width,
{
    if !(r is Unsupported) {
        lemma_key_selects_kind(kind_of(r));
    }
}

/// A buffer that is shorter than the header is no container.
pub proof fn lemma_short_buffer_misses_header(data: Seq<u8>)
    requires
        data.len() < 7,
    ensures
        parse_container(data) == Err::<(Container, Seq<Fault>), Failure>(Failure::MissingHeader),
{
}

/// A buffer that does not start with the magic number is no container, and
/// the failure reports the four bytes found in its place.
pub proof fn lemma_wrong_magic_number_is_refused(data: Seq<u8>)
    requires
        data.len() >= 7,
        data.take(4) != MAGIC_NUMBER@,
    ensures
        parse_container(data) == Err::<(Container, Seq<Fault>), Failure>(
            Failure::MagicNumberMismatch(data.take(4)),
        ),
{
}

/// A frame whose length exponent is over eight is refused with that
/// exponent, whatever else it holds.
pub proof fn lemma_exponent_over_eight_is_refused(input: Seq<u8>, width: nat)
    requires
        input.len() > width,
        input[width as int] > 8,
    ensures
        parse_frame(input, width) == Err::<Record, Fault>(
            Fault::UnsupportedExponent(input[width as int]),
        ),
{
}

/// A fault in the framing ends the reading of the whole container.
pub proof fn lemma_broken_framing_ends_the_parse(data: Seq<u8>)
    requires
        data.len() > 7,
        data.take(4) == MAGIC_NUMBER@,
        split_frame(data.skip(7), data[6] as nat) is Cut,
    ensures
        parse_container(data) == Err::<(Container, Seq<Fault>), Failure>(
            Failure::Packet(split_frame(data.skip(7), data[6] as nat)->fault),
        ),
{
    reveal(parse_stream);
}

} // verus!
