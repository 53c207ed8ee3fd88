//! What the library believes of the frame writers of `postgres_protocol`.
//!
//! The writers are the functions of `postgres_protocol::message::frontend`.
//! Each appends to the buffer and never touches what the buffer held before.
//! Where it succeeds it has appended exactly one frame, as `wire` spells it;
//! where it fails it may leave a part of a frame behind. A writer fails on a
//! string with a zero byte in it, on more than 65535 items in a counted list,
//! on a parameter or a frame too long to announce its own length, and on
//! nothing else.

use crate::buffer::buffered;
use crate::wire::{
    bind_body_with, bind_ok, close_frame, describe_frame, execute_frame, execute_ok, frame,
    params_ok, parse_frame, parse_ok, query_frame, query_ok, sendable, sync_frame, target_ok,
};
use bytes::BytesMut;
use postgres_protocol::message::frontend::{self, BindError};
use postgres_protocol::IsNull;
use vstd::prelude::*;
use vstd::string::StringSliceAdditionalSpecFns;

verus! {

#[verifier::external_type_specification]
#[verifier::external_body]
pub struct ExIoError(std::io::Error);

#[verifier::external_type_specification]
pub struct ExIsNull(IsNull);

/// Why a Bind frame could not be written.
pub enum BindFailure {
    /// The parameters could not be written.
    Conversion(std::io::Error),
    /// The frame could not be put together.
    Serialization(std::io::Error),
}

/// What a parameter is on the wire: its bytes, or nothing for SQL NULL.
pub open spec fn value_bytes(value: Option<BytesMut>) -> Option<Seq<u8>> {
    match value {
        Some(bytes) => Some(buffered(bytes)),
        None => None,
    }
}

/// What a list of parameters is on the wire.
pub open spec fn values_bytes(values: Seq<Option<BytesMut>>) -> Seq<Option<Seq<u8>>> {
    values.map_values(|value: Option<BytesMut>| value_bytes(value))
}

/// `frontend::sync`: appends a Sync frame.
#[verifier::external_body]
pub(crate) fn put_sync(buf: &mut BytesMut)
    ensures
        buffered(*final(buf)) == buffered(*old(buf)) + sync_frame(),
{
    frontend::sync(buf)
}

/// `frontend::describe`: appends a Describe frame for the named statement or
/// portal.
#[verifier::external_body]
pub(crate) fn put_describe(
    variant: u8,
    name: &str,
    buf: &mut BytesMut,
) -> (r: Result<(), std::io::Error>)
    ensures
        r is Ok <==> target_ok(name.spec_bytes()),
        r is Ok ==> buffered(*final(buf)) == buffered(*old(buf)) + describe_frame(
            variant,
            name.spec_bytes(),
        ),
        buffered(*old(buf)).is_prefix_of(buffered(*final(buf))),
{
    frontend::describe(variant, name, buf)
}

/// `frontend::close`: appends a Close frame for the named statement or portal.
#[verifier::external_body]
pub(crate) fn put_close(
    variant: u8,
    name: &str,
    buf: &mut BytesMut,
) -> (r: Result<(), std::io::Error>)
    ensures
        r is Ok <==> target_ok(name.spec_bytes()),
        r is Ok ==> buffered(*final(buf)) == buffered(*old(buf)) + close_frame(
            variant,
            name.spec_bytes(),
        ),
        buffered(*old(buf)).is_prefix_of(buffered(*final(buf))),
{
    frontend::close(variant, name, buf)
}

/// `frontend::execute`: appends an Execute frame.
#[verifier::external_body]
pub(crate) fn put_execute(
    name: &str,
    max_rows: i32,
    buf: &mut BytesMut,
) -> (r: Result<(), std::io::Error>)
    ensures
        r is Ok <==> execute_ok(name.spec_bytes()),
        r is Ok ==> buffered(*final(buf)) == buffered(*old(buf)) + execute_frame(
            name.spec_bytes(),
            max_rows,
        ),
        buffered(*old(buf)).is_prefix_of(buffered(*final(buf))),
{
    frontend::execute(name, max_rows, buf)
}

/// `frontend::query`: appends a Query frame.
#[verifier::external_body]
pub(crate) fn put_query(sql: &str, buf: &mut BytesMut) -> (r: Result<(), std::io::Error>)
    ensures
        r is Ok <==> query_ok(sql.spec_bytes()),
        r is Ok ==> buffered(*final(buf)) == buffered(*old(buf)) + query_frame(sql.spec_bytes()),
        buffered(*old(buf)).is_prefix_of(buffered(*final(buf))),
{
    frontend::query(sql, buf)
}

/// `frontend::parse`, with the type OIDs handed over in the order of the
/// slice: appends a Parse frame.
#[verifier::external_body]
pub(crate) fn put_parse(name: &str, query: &str, oids: &[u32], buf: &mut BytesMut) -> (r: Result<
    (),
    std::io::Error,
>)
    ensures
        r is Ok <==> parse_ok(name.spec_bytes(), query.spec_bytes(), oids@),
        r is Ok ==> buffered(*final(buf)) == buffered(*old(buf)) + parse_frame(
            name.spec_bytes(),
            query.spec_bytes(),
            oids@,
        ),
        buffered(*old(buf)).is_prefix_of(buffered(*final(buf))),
{
    frontend::parse(name, query, oids.iter().copied(), buf)
}

/// Writes one parameter's bytes, if it has any, and says whether it is NULL.
/// This is what `put_bind` hands to `frontend::bind` for each parameter.
pub fn write_value(value: &Option<BytesMut>, buf: &mut BytesMut) -> (null: IsNull)
    ensures
        null is Yes <==> value is None,
        buffered(*final(buf)) == match value_bytes(*value) {
            Some(bytes) => buffered(*old(buf)) + bytes,
            None => buffered(*old(buf)),
        },
{
    match value {
        Some(bytes) => {
            crate::buffer::put_bytes(buf, bytes);
            IsNull::No
        },
        None => IsNull::Yes,
    }
}

/// `frontend::bind`, with one format code for all parameters and one for all
/// results, and with `write_value` to write each parameter: appends a Bind
/// frame. The two names are written first, and a zero byte in one of them is
/// a failure of serialization. The parameters follow: one that is too long, or
/// too many of them, is a failure of conversion, though `write_value` itself
/// never fails. A frame that is too long as a whole is a failure of
/// serialization again. The cause of a failure of conversion is handed out
/// within an `io::Error`, which `io::Error::other` makes of it.
#[verifier::external_body]
pub(crate) fn put_bind(
    portal: &str,
    statement: &str,
    format: i16,
    values: &[Option<BytesMut>],
    result_format: i16,
    buf: &mut BytesMut,
) -> (r: Result<(), BindFailure>)
    ensures
        r is Ok <==> bind_ok(portal.spec_bytes(), statement.spec_bytes(), values_bytes(values@)),
        r is Ok ==> buffered(*final(buf)) == buffered(*old(buf)) + frame(
            0x42u8,
            bind_body_with(
                portal.spec_bytes(),
                statement.spec_bytes(),
                format,
                values_bytes(values@),
                result_format,
            ),
        ),
        r matches Err(failure) ==> (failure is Conversion <==> sendable(portal.spec_bytes())
            && sendable(statement.spec_bytes()) && !params_ok(values_bytes(values@))),
        buffered(*old(buf)).is_prefix_of(buffered(*final(buf))),
{
    let write = |value, buf: &mut BytesMut| Ok(write_value(value, buf));
    let formats = Some(format);
    let results = Some(result_format);
    match frontend::bind(portal, statement, formats, values, write, results, buf) {
        Ok(()) => Ok(()),
        Err(BindError::Conversion(e)) => Err(BindFailure::Conversion(std::io::Error::other(e))),
        Err(BindError::Serialization(e)) => Err(BindFailure::Serialization(e)),
    }
}

} // verus!
