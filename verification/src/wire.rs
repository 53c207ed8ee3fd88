//! The frontend frames of the PostgreSQL v3 protocol, as sequences of bytes.
//!
//! Everything here is specification: it says which bytes a frame is made of,
//! and on which arguments a frame exists at all. The functions that write
//! frames state their effect in these terms.

use vstd::prelude::*;

verus! {

/// The two bytes of `v` in network order. Negative numbers come out in two's
/// complement, since `/` and `%` round towards minus infinity here.
pub open spec fn be16(v: int) -> Seq<u8> {
    seq![((v / 0x100) % 0x100) as u8, (v % 0x100) as u8]
}

/// The four bytes of `v` in network order, in two's complement where `v` is
/// negative.
pub open spec fn be32(v: int) -> Seq<u8> {
    seq![
        ((v / 0x100_0000) % 0x100) as u8,
        ((v / 0x1_0000) % 0x100) as u8,
        ((v / 0x100) % 0x100) as u8,
        (v % 0x100) as u8,
    ]
}

/// The unsigned number that four bytes in network order stand for.
pub open spec fn u32_at(bytes: Seq<u8>, at: int) -> int {
    bytes[at] * 0x100_0000 + bytes[at + 1] * 0x1_0000 + bytes[at + 2] * 0x100 + bytes[at + 3]
}

/// The signed number that four bytes in network order stand for.
pub open spec fn i32_at(bytes: Seq<u8>, at: int) -> int {
    if u32_at(bytes, at) < 0x8000_0000 {
        u32_at(bytes, at)
    } else {
        u32_at(bytes, at) - 0x1_0000_0000
    }
}

/// The signed number that two bytes in network order stand for.
pub open spec fn i16_at(bytes: Seq<u8>, at: int) -> int {
    if bytes[at] < 0x80 {
        bytes[at] * 0x100 + bytes[at + 1]
    } else {
        bytes[at] * 0x100 + bytes[at + 1] - 0x1_0000
    }
}

/// A string on the wire: its bytes and a closing zero.
pub open spec fn cstr(s: Seq<u8>) -> Seq<u8> {
    s.push(0u8)
}

/// A string can go on the wire when no byte of it is zero.
pub open spec fn sendable(s: Seq<u8>) -> bool {
    !s.contains(0u8)
}

/// The largest length a frame can announce.
pub open spec fn max_frame_len() -> int {
    0x7fff_ffff
}

/// A body fits a frame when its length, counted with the four bytes of the
/// length field itself, can be written as a signed 32-bit number.
pub open spec fn fits(body: Seq<u8>) -> bool {
    body.len() + 4 <= max_frame_len()
}

/// A frame: the tag, the length of all that follows the tag, and the body.
pub open spec fn frame(tag: u8, body: Seq<u8>) -> Seq<u8> {
    seq![tag] + be32(body.len() as int + 4) + body
}

/// The type OIDs of a Parse frame, four bytes each.
pub open spec fn oid_list(oids: Seq<u32>) -> Seq<u8>
    decreases oids.len(),
{
    if oids.len() == 0 {
        Seq::empty()
    } else {
        oid_list(oids.drop_last()) + be32(oids.last() as int)
    }
}

/// One parameter of a Bind frame: its length and its bytes, or the length -1
/// alone for SQL NULL.
pub open spec fn param(value: Option<Seq<u8>>) -> Seq<u8> {
    match value {
        Some(bytes) => be32(bytes.len() as int) + bytes,
        None => be32(-1),
    }
}

/// The parameters of a Bind frame, one after the other.
pub open spec fn param_list(values: Seq<Option<Seq<u8>>>) -> Seq<u8>
    decreases values.len(),
{
    if values.len() == 0 {
        Seq::empty()
    } else {
        param(values.first()) + param_list(values.drop_first())
    }
}

pub open spec fn parse_body(name: Seq<u8>, query: Seq<u8>, oids: Seq<u32>) -> Seq<u8> {
    cstr(name) + cstr(query) + be16(oids.len() as int) + oid_list(oids)
}

/// Parse: `'P' len name\0 query\0 int16(n) int32(oid)*`.
pub open spec fn parse_frame(name: Seq<u8>, query: Seq<u8>, oids: Seq<u32>) -> Seq<u8> {
    frame(0x50u8, parse_body(name, query, oids))
}

/// The arguments for which a Parse frame exists.
pub open spec fn parse_ok(name: Seq<u8>, query: Seq<u8>, oids: Seq<u32>) -> bool {
    &&& sendable(name)
    &&& sendable(query)
    &&& oids.len() <= 0xffff
    &&& fits(parse_body(name, query, oids))
}

/// The body of a Bind frame whose parameters are all in the format `format`
/// and whose results are all in the format `result_format`: each of the two
/// format lists holds one code, which then stands for all.
pub open spec fn bind_body_with(
    portal: Seq<u8>,
    statement: Seq<u8>,
    format: i16,
    values: Seq<Option<Seq<u8>>>,
    result_format: i16,
) -> Seq<u8> {
    cstr(portal) + cstr(statement) + be16(1) + be16(format as int) + be16(values.len() as int)
        + param_list(values) + be16(1) + be16(result_format as int)
}

/// The code of the binary format.
pub open spec fn binary_format() -> i16 {
    1
}

/// The body of a Bind frame as this library writes it: parameters and results
/// are all in binary format.
pub open spec fn bind_body(
    portal: Seq<u8>,
    statement: Seq<u8>,
    values: Seq<Option<Seq<u8>>>,
) -> Seq<u8> {
    bind_body_with(portal, statement, binary_format(), values, binary_format())
}

/// Bind: `'B' len portal\0 statement\0 int16(1) int16(1) int16(n)
/// (int32(len) bytes | int32(-1))* int16(1) int16(1)`.
pub open spec fn bind_frame(
    portal: Seq<u8>,
    statement: Seq<u8>,
    values: Seq<Option<Seq<u8>>>,
) -> Seq<u8> {
    frame(0x42u8, bind_body(portal, statement, values))
}

/// That no value is longer than a signed 32-bit number can say.
pub open spec fn lengths_ok(values: Seq<Option<Seq<u8>>>) -> bool {
    forall|i: int|
        0 <= i < values.len() ==> (#[trigger] values[i] matches Some(bytes) ==> bytes.len()
            <= max_frame_len())
}

/// The parameters that can be written one by one: no more than 65535 of
/// them, and none too long.
pub open spec fn params_ok(values: Seq<Option<Seq<u8>>>) -> bool {
    values.len() <= 0xffff && lengths_ok(values)
}

/// The arguments for which a Bind frame exists. That the body fits implies
/// that each parameter's own length does.
pub open spec fn bind_ok(
    portal: Seq<u8>,
    statement: Seq<u8>,
    values: Seq<Option<Seq<u8>>>,
) -> bool {
    &&& sendable(portal)
    &&& sendable(statement)
    &&& values.len() <= 0xffff
    &&& fits(bind_body(portal, statement, values))
}

pub open spec fn target_body(variant: u8, name: Seq<u8>) -> Seq<u8> {
    seq![variant] + cstr(name)
}

/// The arguments for which a Describe or a Close frame exists.
pub open spec fn target_ok(name: Seq<u8>) -> bool {
    sendable(name) && fits(target_body(0u8, name))
}

/// Describe: `'D' len ('S' | 'P') name\0`.
pub open spec fn describe_frame(variant: u8, name: Seq<u8>) -> Seq<u8> {
    frame(0x44u8, target_body(variant, name))
}

/// Close: `'C' len ('S' | 'P') name\0`.
pub open spec fn close_frame(variant: u8, name: Seq<u8>) -> Seq<u8> {
    frame(0x43u8, target_body(variant, name))
}

pub open spec fn execute_body(portal: Seq<u8>, max_rows: i32) -> Seq<u8> {
    cstr(portal) + be32(max_rows as int)
}

/// Execute: `'E' len portal\0 int32(max_rows)`.
pub open spec fn execute_frame(portal: Seq<u8>, max_rows: i32) -> Seq<u8> {
    frame(0x45u8, execute_body(portal, max_rows))
}

/// The portal names for which an Execute frame exists.
pub open spec fn execute_ok(portal: Seq<u8>) -> bool {
    sendable(portal) && fits(execute_body(portal, 0i32))
}

/// Query: `'Q' len sql\0`.
pub open spec fn query_frame(sql: Seq<u8>) -> Seq<u8> {
    frame(0x51u8, cstr(sql))
}

/// The texts for which a Query frame exists.
pub open spec fn query_ok(sql: Seq<u8>) -> bool {
    sendable(sql) && fits(cstr(sql))
}

/// Sync: `'S' len`, five bytes.
pub open spec fn sync_frame() -> Seq<u8> {
    frame(0x53u8, Seq::empty())
}

/// The tag that names a prepared statement in Describe and Close.
pub open spec fn statement_tag() -> u8 {
    0x53u8
}

/// The tag that names a portal in Describe and Close.
pub open spec fn portal_tag() -> u8 {
    0x50u8
}

/// Four bytes written in network order read back as the number written.
pub proof fn lemma_be32_reads_back(v: int)
    requires
        -0x8000_0000 <= v < 0x8000_0000,
    ensures
        be32(v).len() == 4,
        i32_at(be32(v), 0) == v,
{
    let bytes = be32(v);
    assert(bytes[0] == (v / 0x100_0000) % 0x100);
    assert(bytes[1] == (v / 0x1_0000) % 0x100);
    assert(bytes[2] == (v / 0x100) % 0x100);
    assert(bytes[3] == v % 0x100);
}

/// The Sync frame, byte by byte.
pub proof fn lemma_sync_frame_bytes()
    ensures
        sync_frame() == seq![0x53u8, 0u8, 0u8, 0u8, 4u8],
{
    assert(sync_frame() =~= seq![0x53u8, 0u8, 0u8, 0u8, 4u8]);
}

/// A statement that could be parsed can be closed: the Close frame is the
/// shorter of the two.
pub proof fn lemma_parsed_name_closes(name: Seq<u8>, query: Seq<u8>, oids: Seq<u32>)
    requires
        parse_ok(name, query, oids),
    ensures
        target_ok(name),
{
}

/// A portal that could be bound can be executed and closed.
pub proof fn lemma_bound_name_executes(
    portal: Seq<u8>,
    statement: Seq<u8>,
    values: Seq<Option<Seq<u8>>>,
)
    requires
        bind_ok(portal, statement, values),
    ensures
        target_ok(portal),
        execute_ok(portal),
{
}

} // verus!
