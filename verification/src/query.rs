//! The extended query protocol: prepare, bind, execute, sync, and the rows
//! and messages that come back.
//!
//! Commands are buffered. `prepare`, `bind` and `execute` write their frame
//! behind what is pending and return; `sync` ships all of it, and the
//! responses to all of it come back in one stream, ended by ReadyForQuery.

use crate::buffer::{buffered, frozen};
use crate::client::{flushed, Client};
use crate::error::{raise, raised, raised_kind, Error, ErrorKind};
use crate::frames::{put_bind, put_parse, values_bytes, BindFailure};
use crate::portal::Portal;
use crate::replies::{column_ranges, kind_of, message_kind, ranges_from, row_columns, row_payload};
use crate::replies::MessageKind;
use crate::statement::{Oid, Statement};
use crate::wire::{bind_frame, bind_ok, execute_frame, i32_at, parse_frame, parse_ok};
use crate::wire::{lemma_bound_name_executes, lemma_parsed_name_closes};
use bytes::{Bytes, BytesMut};
use postgres_protocol::message::backend::{DataRowBody, Message};
use std::ops::Range;
use vstd::prelude::*;
use vstd::slice::{slice_subrange, slice_to_vec};
use vstd::string::StringSliceAdditionalSpecFns;

verus! {

/// Writes the Parse frame for a new prepared statement behind what is
/// pending, and hands out the statement.
pub fn internal_prepare(
    client: &mut Client,
    query: &str,
    name: &str,
    types_oid: &[Oid],
) -> (r: Result<Statement, Error>)
    ensures
        r is Ok <==> parse_ok(name.spec_bytes(), query.spec_bytes(), types_oid@),
        r matches Ok(statement) ==> {
            &&& statement@.name == name@
            &&& statement@.param_types == types_oid@
            &&& final(client).pending() == old(client).pending() + parse_frame(
                name.spec_bytes(),
                query.spec_bytes(),
                types_oid@,
            )
        },
        r matches Err(error) ==> error is Encode && final(client).pending() == old(
            client,
        ).pending(),
{
    let written = client.raw_buf(
        |buf: &mut BytesMut| -> (out: Result<(), Error>)
            ensures
                out is Ok <==> parse_ok(name.spec_bytes(), query.spec_bytes(), types_oid@),
                out is Ok ==> buffered(*final(buf)) == buffered(*old(buf)) + parse_frame(
                    name.spec_bytes(),
                    query.spec_bytes(),
                    types_oid@,
                ),
                out matches Err(error) ==> error is Encode,
                buffered(*old(buf)).is_prefix_of(buffered(*final(buf))),
            {
                match put_parse(name, query, types_oid, buf) {
                    Ok(()) => Ok(()),
                    Err(cause) => Err(Error::Encode(cause)),
                }
            }
    );
    match written {
        Ok(()) => {
            proof {
                lemma_parsed_name_closes(name.spec_bytes(), query.spec_bytes(), types_oid@);
            }
            Ok(Statement::new(name.to_owned(), slice_to_vec(types_oid)))
        },
        Err(error) => Err(error),
    }
}

/// Creates a new prepared statement.
///
/// A prepared statement can be executed repeatedly, and may contain query
/// parameters (`$1`, `$2`, and so on), which are set when it is bound. Nothing
/// is sent: the Parse frame waits for the next Sync, whose responses then hold
/// ParseComplete, or the server's error.
///
/// This fails exactly when no Parse frame can carry the arguments; pending is
/// then what it was.
pub fn prepare<E: From<Error>>(
    client: &mut Client,
    query: &str,
    name: &str,
    types_oid: &[Oid],
) -> (r: Result<Statement, E>)
    ensures
        r is Ok <==> parse_ok(name.spec_bytes(), query.spec_bytes(), types_oid@),
        r matches Ok(statement) ==> {
            &&& statement@.name == name@
            &&& statement@.param_types == types_oid@
            &&& final(client).pending() == old(client).pending() + parse_frame(
                name.spec_bytes(),
                query.spec_bytes(),
                types_oid@,
            )
        },
        r matches Err(error) ==> raised_kind(error, ErrorKind::Encode) && final(client).pending()
            == old(client).pending(),
{
    raise(internal_prepare(client, query, name, types_oid))
}

/// Writes the Bind frame that binds `params` to `statement` under the name
/// `portal`. All parameters, and all results, are in binary format: this is
/// where the two format codes are chosen.
///
/// This fails exactly when no Bind frame can carry the arguments: a name
/// holds a zero byte, the parameters are more than 65535, or the frame is too
/// long.
/// Where this fails, all that `buf` held is still there, and a part of a
/// frame may follow it.
pub fn encode_bind(
    statement: &Statement,
    params: &[Option<BytesMut>],
    portal: &str,
    buf: &mut BytesMut,
) -> (r: Result<(), Error>)
    ensures
        r is Ok <==> bind_ok(portal.spec_bytes(), statement.name_bytes(), values_bytes(params@)),
        r is Ok ==> buffered(*final(buf)) == buffered(*old(buf)) + bind_frame(
            portal.spec_bytes(),
            statement.name_bytes(),
            values_bytes(params@),
        ),
        r matches Err(error) ==> error is Encode,
        buffered(*old(buf)).is_prefix_of(buffered(*final(buf))),
{
    match put_bind(portal, statement.name(), 1, params, 1, buf) {
        Ok(()) => Ok(()),
        Err(BindFailure::Serialization(cause)) => Err(Error::Encode(cause)),
        Err(BindFailure::Conversion(cause)) => Err(Error::Encode(cause)),
    }
}

/// Writes the Bind frame behind what is pending, and hands out the portal.
pub fn internal_bind(
    client: &mut Client,
    statement: Statement,
    name: &str,
    params: &[Option<BytesMut>],
) -> (r: Result<Portal, Error>)
    ensures
        r is Ok <==> bind_ok(name.spec_bytes(), statement.name_bytes(), values_bytes(params@)),
        r matches Ok(portal) ==> {
            &&& portal@.name == name@
            &&& portal@.statement == statement@
            &&& final(client).pending() == old(client).pending() + bind_frame(
                name.spec_bytes(),
                statement.name_bytes(),
                values_bytes(params@),
            )
        },
        r matches Err(error) ==> error is Encode && final(client).pending() == old(
            client,
        ).pending(),
{
    let written = client.raw_buf(
        |buf: &mut BytesMut| -> (out: Result<(), Error>)
            ensures
                out is Ok <==> bind_ok(
                    name.spec_bytes(),
                    statement.name_bytes(),
                    values_bytes(params@),
                ),
                out is Ok ==> buffered(*final(buf)) == buffered(*old(buf)) + bind_frame(
                    name.spec_bytes(),
                    statement.name_bytes(),
                    values_bytes(params@),
                ),
                out matches Err(error) ==> error is Encode,
                buffered(*old(buf)).is_prefix_of(buffered(*final(buf))),
            { encode_bind(&statement, params, name, buf) }
    );
    match written {
        Ok(()) => {
            proof {
                lemma_bound_name_executes(
                    name.spec_bytes(),
                    statement.name_bytes(),
                    values_bytes(params@),
                );
            }
            Ok(Portal::new(statement, name.to_owned()))
        },
        Err(error) => Err(error),
    }
}

/// Binds parameters to a prepared statement, which creates a portal. The
/// portal can then be executed, or let go of when it is no longer needed.
///
/// Each parameter is the bytes of a value in the server's binary format, or
/// `None` for SQL NULL. Their number is not held against the statement: the
/// server answers a wrong number with an error. Nothing is sent: the Bind
/// frame waits for the next Sync.
///
/// This fails exactly when no Bind frame can carry the arguments; pending is
/// then what it was.
pub fn bind<E: From<Error>>(
    client: &mut Client,
    statement: Statement,
    name: &str,
    params: &[Option<BytesMut>],
) -> (r: Result<Portal, E>)
    ensures
        r is Ok <==> bind_ok(name.spec_bytes(), statement.name_bytes(), values_bytes(params@)),
        r matches Ok(portal) ==> {
            &&& portal@.name == name@
            &&& portal@.statement == statement@
            &&& final(client).pending() == old(client).pending() + bind_frame(
                name.spec_bytes(),
                statement.name_bytes(),
                values_bytes(params@),
            )
        },
        r matches Err(error) ==> raised_kind(error, ErrorKind::Encode) && final(client).pending()
            == old(client).pending(),
{
    raise(internal_bind(client, statement, name, params))
}

/// Executes a portal: writes its Execute frame behind what is pending.
/// With `max_rows` at 0 the server returns all rows. Nothing is sent: the
/// frame waits for the next Sync.
///
/// A portal's name can always be carried, so this always succeeds.
pub fn execute<E: From<Error>>(client: &mut Client, portal: &Portal, max_rows: i32) -> (r: Result<
    (),
    E,
>)
    ensures
        r is Ok,
        final(client).pending() == old(client).pending() + execute_frame(
            portal.name_bytes(),
            max_rows,
        ),
{
    let name = portal.name();
    let written = client.raw_buf(
        |buf: &mut BytesMut| -> (out: Result<(), Error>)
            ensures
                out is Ok,
                buffered(*final(buf)) == buffered(*old(buf)) + execute_frame(
                    name.spec_bytes(),
                    max_rows,
                ),
            {
                match crate::frames::put_execute(name, max_rows, buf) {
                    Ok(()) => Ok(()),
                    Err(cause) => Err(Error::Encode(cause)),
                }
            }
    );
    raise(written)
}

/// Executes the buffered commands: takes all that is pending, closes it with
/// a Sync frame, and hands it out as the one batch to send. Nothing is
/// pending after. The responses to the batch end with ReadyForQuery.
pub fn sync(client: &mut Client) -> (batch: Bytes)
    ensures
        frozen(batch) == flushed(old(client).pending()),
        final(client).pending() == Seq::<u8>::empty(),
{
    client.flush()
}

/// The messages that the stream of an extended query passes on.
pub open spec fn in_query_stream(kind: MessageKind) -> bool {
    ||| kind == MessageKind::DataRow
    ||| kind == MessageKind::ParseComplete
    ||| kind == MessageKind::BindComplete
    ||| kind == MessageKind::ParameterDescription
    ||| kind == MessageKind::RowDescription
    ||| kind == MessageKind::NoData
    ||| kind == MessageKind::EmptyQueryResponse
    ||| kind == MessageKind::CommandComplete
    ||| kind == MessageKind::PortalSuspended
    ||| kind == MessageKind::ReadyForQuery
    ||| kind == MessageKind::ErrorResponse
}

/// Whether the stream of an extended query passes a message of this kind on.
pub fn query_stream_accepts(kind: MessageKind) -> (accepted: bool)
    ensures
        accepted == in_query_stream(kind),
{
    match kind {
        MessageKind::DataRow
        | MessageKind::ParseComplete
        | MessageKind::BindComplete
        | MessageKind::ParameterDescription
        | MessageKind::RowDescription
        | MessageKind::EmptyQueryResponse
        | MessageKind::CommandComplete
        | MessageKind::PortalSuspended
        | MessageKind::ReadyForQuery
        | MessageKind::NoData
        | MessageKind::ErrorResponse => true,
        _ => false,
    }
}

/// The next item of a response stream, given what the connection handed over
/// and whether the stream passes a message of its kind on.
///
/// A message that the stream passes on is the item, as it came: an
/// ErrorResponse too, which is for the reader to act on. Any other message
/// makes the item `UnexpectedMessage`. That the connection is closed ends the
/// stream; any other error of the connection is the item.
pub open spec fn stream_item(polled: Result<Message, Error>, accepted: bool) -> Option<
    Result<Message, Error>,
> {
    match polled {
        Ok(message) => if accepted {
            Some(Ok(message))
        } else {
            Some(Err(Error::UnexpectedMessage))
        },
        Err(error) => if error is Closed {
            None
        } else {
            Some(Err(error))
        },
    }
}

/// The next item of the stream of an extended query.
pub open spec fn query_stream_item(polled: Result<Message, Error>) -> Option<
    Result<Message, Error>,
> {
    stream_item(polled, polled matches Ok(message) && in_query_stream(message_kind(message)))
}

/// That a stream's item in the caller's error type is `item`.
pub open spec fn raised_item<E: From<Error>>(
    out: Option<Result<Message, E>>,
    item: Option<Result<Message, Error>>,
) -> bool {
    match item {
        None => out is None,
        Some(Ok(message)) => out == Some(Ok::<Message, E>(message)),
        Some(Err(error)) => out matches Some(Err(outer)) && raised(outer, error),
    }
}

/// Computes `stream_item`, and hands it on in the caller's error type.
pub fn next_item<E: From<Error>>(polled: Result<Message, Error>, accepted: bool) -> (out: Option<
    Result<Message, E>,
>)
    ensures
        raised_item(out, stream_item(polled, accepted)),
{
    match polled {
        Ok(message) => {
            if accepted {
                Some(Ok(message))
            } else {
                Some(Err(E::from(Error::UnexpectedMessage)))
            }
        },
        Err(error) => {
            if error.is_closed() {
                None
            } else {
                Some(Err(E::from(error)))
            }
        },
    }
}

/// The stream of the responses to a Sync.
pub struct QueryStream;

impl QueryStream {
    /// The stream's next item, given what the connection handed over.
    pub fn poll_next<E: From<Error>>(polled: Result<Message, Error>) -> (out: Option<
        Result<Message, E>,
    >)
        ensures
            raised_item(out, query_stream_item(polled)),
    {
        let accepted = match &polled {
            Ok(message) => query_stream_accepts(kind_of(message)),
            Err(_) => false,
        };
        next_item(polled, accepted)
    }
}

/// That each of the ranges lies between `at` and `len`, its start no later
/// than its end.
pub open spec fn ranges_within(ranges: Seq<Option<Range<usize>>>, at: int, len: int) -> bool {
    forall|i: int|
        0 <= i < ranges.len() ==> (#[trigger] ranges[i] matches Some(range) ==> at <= range.start
            <= range.end <= len)
}

/// A payload that reads as a row has exactly the advertised number of
/// columns, and each column that is not NULL lies within the payload.
pub proof fn lemma_ranges_within(payload: Seq<u8>, at: int, left: nat)
    requires
        0 <= at,
        payload.len() <= usize::MAX,
        ranges_from(payload, at, left) is Some,
    ensures
        ranges_from(payload, at, left)->Some_0.len() == left,
        ranges_within(ranges_from(payload, at, left)->Some_0, at, payload.len() as int),
    decreases left,
{
    if left > 0 {
        let next = if i32_at(payload, at) < 0 {
            at + 4
        } else {
            at + 4 + i32_at(payload, at)
        };
        lemma_ranges_within(payload, next, (left - 1) as nat);
        let rest = ranges_from(payload, next, (left - 1) as nat)->Some_0;
        let all = ranges_from(payload, at, left)->Some_0;
        assert forall|i: int| 0 <= i < all.len() implies (#[trigger] all[i] matches Some(range)
            ==> at <= range.start <= range.end <= payload.len()) by {
            if i > 0 {
                assert(all[i] == rest[i - 1]);
            }
        }
    }
}

/// A row of data returned from the database by a query: the body of a
/// DataRow, and where each column lies in it.
pub struct Row {
    body: DataRowBody,
    ranges: Vec<Option<Range<usize>>>,
}

impl Row {
    #[verifier::type_invariant]
    spec fn well_read(self) -> bool {
        &&& ranges_from(row_payload(self.body), 0, row_columns(self.body)) == Some(self.ranges@)
        &&& ranges_within(self.ranges@, 0, row_payload(self.body).len() as int)
        &&& self.ranges@.len() == row_columns(self.body)
    }

    /// The body that the row was read from.
    pub closed spec fn body(&self) -> DataRowBody {
        self.body
    }

    /// The payload of the body.
    pub open spec fn payload(&self) -> Seq<u8> {
        row_payload(self.body())
    }

    /// Where each column lies in the payload; `None` for SQL NULL.
    pub closed spec fn ranges(&self) -> Seq<Option<Range<usize>>> {
        self.ranges@
    }

    /// The value of the column with index `i`; `None` for SQL NULL.
    pub open spec fn column(&self, i: int) -> Option<Seq<u8>> {
        match self.ranges()[i] {
            Some(range) => Some(self.payload().subrange(range.start as int, range.end as int)),
            None => None,
        }
    }

    /// Reads a row from the body of a DataRow. This fails exactly when the
    /// payload is malformed. The row has as many columns as the body
    /// advertises, and each column lies within the payload.
    pub fn new(body: DataRowBody) -> (r: Result<Row, Error>)
        ensures
            r is Ok <==> ranges_from(row_payload(body), 0, row_columns(body)) is Some,
            r matches Ok(row) ==> {
                &&& row.body() == body
                &&& Some(row.ranges()) == ranges_from(row_payload(body), 0, row_columns(body))
                &&& row.ranges().len() == row_columns(body)
                &&& ranges_within(row.ranges(), 0, row_payload(body).len() as int)
            },
            r matches Err(error) ==> error is Parse,
    {
        match column_ranges(&body) {
            Ok(ranges) => {
                let size: usize = body.buffer().len();
                proof {
                    lemma_ranges_within(row_payload(body), 0, row_columns(body));
                }
                Ok(Row { body, ranges })
            },
            Err(cause) => Err(Error::Parse(cause)),
        }
    }

    /// Determines if the row contains no values.
    pub fn is_empty(&self) -> (empty: bool)
        ensures
            empty == (self.ranges().len() == 0),
    {
        self.len() == 0
    }

    /// Returns the number of values in the row: the number of columns that
    /// the body advertises.
    pub fn len(&self) -> (n: usize)
        ensures
            n == self.ranges().len(),
            n == row_columns(self.body()),
    {
        proof {
            use_type_invariant(self);
        }
        self.ranges.len()
    }

    /// Gets the raw bytes of the column with the given index, or `None` where
    /// the column is SQL NULL. The bytes are a part of the payload.
    pub fn get(&self, idx: usize) -> (value: Option<&[u8]>)
        requires
            idx < self.ranges().len(),
        ensures
            match value {
                Some(bytes) => self.column(idx as int) == Some(bytes@),
                None => self.column(idx as int) is None,
            },
            self.ranges()[idx as int] matches Some(range) ==> range.start <= range.end
                <= self.payload().len(),
    {
        proof {
            use_type_invariant(self);
        }
        match &self.ranges[idx] {
            Some(range) => Some(slice_subrange(self.body.buffer(), range.start, range.end)),
            None => None,
        }
    }
}

} // verus!
