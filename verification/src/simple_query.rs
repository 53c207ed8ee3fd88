//! The simple query protocol: one Query frame, sent at once, and the rows and
//! columns that come back as text.

use crate::buffer::{buffered, frozen};
use crate::client::Client;
use crate::error::{raise, raised_kind, Error, ErrorKind};
use crate::query::{next_item, raised_item, stream_item, Row};
use crate::replies::{
    description_fields, description_payload, fields_from, fields_of, kind_of, layouts,
    message_kind, ranges_from, row_columns, row_payload, FieldData, FieldLayout, MessageKind,
};
use crate::types::{builtin_type, text_from_sql};
use crate::wire::{query_frame, query_ok};
use bytes::{Bytes, BytesMut};
use postgres_protocol::message::backend::{DataRowBody, Message, RowDescriptionBody};
use postgres_types::Type;
use std::sync::Arc;
use vstd::prelude::*;
use vstd::string::StringSliceAdditionalSpecFns;
use vstd::utf8::valid_utf8;

verus! {

/// Encodes the Query frame for `query`, in the client's buffer but apart from
/// what is pending there: the frame alone is taken out, and what is pending
/// stays as it is.
pub fn encode(client: &mut Client, query: &str) -> (r: Result<Bytes, Error>)
    ensures
        r is Ok <==> query_ok(query.spec_bytes()),
        r matches Ok(batch) ==> frozen(batch) == query_frame(query.spec_bytes()),
        r matches Err(error) ==> error is Encode,
        final(client).pending() == old(client).pending(),
{
    client.with_buf(
        |buf: &mut BytesMut| -> (out: Result<Bytes, Error>)
            ensures
                out is Ok <==> query_ok(query.spec_bytes()),
                out matches Ok(batch) ==> frozen(batch) == query_frame(query.spec_bytes())
                    && buffered(*final(buf)) == buffered(*old(buf)),
                out matches Err(error) ==> error is Encode,
                buffered(*old(buf)).is_prefix_of(buffered(*final(buf))),
            {
                let mark: usize = buf.len();
                match crate::frames::put_query(query, buf) {
                    Ok(()) => {
                        let frame = buf.split_off(mark);
                        assert(buffered(*buf) =~= buffered(*old(buf)));
                        assert(buffered(frame) =~= query_frame(query.spec_bytes()));
                        Ok(frame.freeze())
                    },
                    Err(cause) => Err(Error::Encode(cause)),
                }
            }
    )
}

/// The batch that runs `query` by the simple query protocol: its Query frame,
/// to be sent at once.
pub fn internal_simple_query(client: &mut Client, query: &str) -> (r: Result<Bytes, Error>)
    ensures
        r is Ok <==> query_ok(query.spec_bytes()),
        r matches Ok(batch) ==> frozen(batch) == query_frame(query.spec_bytes()),
        r matches Err(error) ==> error is Encode,
        final(client).pending() == old(client).pending(),
{
    encode(client, query)
}

/// Executes a query via the simple query protocol: returns the Query frame
/// for it, which is to be sent at once and by itself. It is never batched
/// with what is pending, which stays as it is. The server may read the text as
/// several statements, separated by `;`.
///
/// This fails exactly when no Query frame can carry the text.
pub fn simple_query<E: From<Error>>(client: &mut Client, query: &str) -> (r: Result<Bytes, E>)
    ensures
        r is Ok <==> query_ok(query.spec_bytes()),
        r matches Ok(batch) ==> frozen(batch) == query_frame(query.spec_bytes()),
        r matches Err(error) ==> raised_kind(error, ErrorKind::Encode),
        final(client).pending() == old(client).pending(),
{
    raise(internal_simple_query(client, query))
}

/// The messages that the stream of a simple query passes on.
pub open spec fn in_simple_query_stream(kind: MessageKind) -> bool {
    ||| kind == MessageKind::CommandComplete
    ||| kind == MessageKind::RowDescription
    ||| kind == MessageKind::DataRow
    ||| kind == MessageKind::ReadyForQuery
    ||| kind == MessageKind::EmptyQueryResponse
    ||| kind == MessageKind::ErrorResponse
}

/// The next item of the stream of a simple query.
pub open spec fn simple_query_stream_item(polled: Result<Message, Error>) -> Option<
    Result<Message, Error>,
> {
    stream_item(
        polled,
        polled matches Ok(message) && in_simple_query_stream(message_kind(message)),
    )
}

/// Whether the stream of a simple query passes a message of this kind on.
pub fn simple_query_stream_accepts(kind: MessageKind) -> (accepted: bool)
    ensures
        accepted == in_simple_query_stream(kind),
{
    match kind {
        MessageKind::CommandComplete
        | MessageKind::RowDescription
        | MessageKind::DataRow
        | MessageKind::ReadyForQuery
        | MessageKind::EmptyQueryResponse
        | MessageKind::ErrorResponse => true,
        _ => false,
    }
}

/// The stream of the responses to a simple query.
pub struct SimpleQueryStream;

impl SimpleQueryStream {
    /// The stream's next item, given what the connection handed over.
    pub fn poll_next<E: From<Error>>(polled: Result<Message, Error>) -> (out: Option<
        Result<Message, E>,
    >)
        ensures
            raised_item(out, simple_query_stream_item(polled)),
    {
        let accepted = match &polled {
            Ok(message) => simple_query_stream_accepts(kind_of(message)),
            Err(_) => false,
        };
        next_item(polled, accepted)
    }
}

/// A row of data returned from the database by a simple query.
///
/// It is made from a DataRow while the stream is read. It has no column
/// names: a value is found by its index, and read as text, which is the
/// format of every column in this protocol.
pub struct SimpleQueryRow {
    row: Row,
}

impl SimpleQueryRow {
    /// The row that the values are read from.
    pub closed spec fn row(&self) -> Row {
        self.row
    }

    /// Reads a row from the body of a DataRow. This fails exactly when the
    /// payload is malformed.
    pub fn new(body: DataRowBody) -> (r: Result<SimpleQueryRow, Error>)
        ensures
            r is Ok <==> ranges_from(row_payload(body), 0, row_columns(body)) is Some,
            r matches Ok(simple) ==> {
                &&& simple.row().body() == body
                &&& Some(simple.row().ranges()) == ranges_from(
                    row_payload(body),
                    0,
                    row_columns(body),
                )
                &&& simple.row().ranges().len() == row_columns(body)
            },
            r matches Err(error) ==> error is Parse,
    {
        match Row::new(body) {
            Ok(row) => Ok(SimpleQueryRow { row }),
            Err(error) => Err(error),
        }
    }

    /// Determines if the row contains no values.
    pub fn is_empty(&self) -> (empty: bool)
        ensures
            empty == (self.row().ranges().len() == 0),
    {
        self.row.is_empty()
    }

    /// Returns the number of values in the row.
    pub fn len(&self) -> (n: usize)
        ensures
            n == self.row().ranges().len(),
    {
        self.row.len()
    }

    /// Returns the value with the given index as text: `None` for SQL NULL,
    /// and the error `FromSql` with the index where the value is not UTF-8.
    pub fn try_get(&self, idx: usize) -> (r: Result<Option<&str>, Error>)
        requires
            idx < self.row().ranges().len(),
        ensures
            match self.row().column(idx as int) {
                None => r == Ok::<Option<&str>, Error>(None),
                Some(bytes) => if valid_utf8(bytes) {
                    r matches Ok(Some(text)) && text.spec_bytes() == bytes
                } else {
                    r matches Err(Error::FromSql(at, _)) && at == idx
                },
            },
    {
        match text_from_sql(self.row.get(idx)) {
            Ok(text) => Ok(text),
            Err(cause) => Err(Error::FromSql(idx, cause)),
        }
    }
}

/// Information about a column of a simple query's rows.
pub struct SimpleColumn {
    name: String,
    type_: Option<Type>,
    format: i16,
    table_oid: i32,
    column_id: i16,
    type_modifier: i32,
}

/// What a column is in contracts.
pub struct SimpleColumnView {
    pub name: Seq<char>,
    pub type_: Option<Type>,
    pub format: i16,
    pub table_oid: i32,
    pub column_id: i16,
    pub type_modifier: i32,
}

impl View for SimpleColumn {
    type V = SimpleColumnView;

    closed spec fn view(&self) -> SimpleColumnView {
        SimpleColumnView {
            name: self.name@,
            type_: self.type_,
            format: self.format,
            table_oid: self.table_oid,
            column_id: self.column_id,
            type_modifier: self.type_modifier,
        }
    }
}

/// The signed number with the same 32 bits.
pub open spec fn signed(oid: u32) -> i32 {
    if oid <= 0x7fff_ffff {
        oid as i32
    } else {
        (oid - 0x1_0000_0000) as i32
    }
}

/// The signed number with the same 32 bits as `oid`.
pub fn to_signed(oid: u32) -> (r: i32)
    ensures
        r == signed(oid),
{
    if oid <= 0x7fff_ffff {
        oid as i32
    } else {
        let low: u32 = oid - 0x8000_0000;
        (low as i32) - 0x7fff_ffff - 1
    }
}

/// The column that a field of a RowDescription describes. The type is the
/// built-in type of the field's type OID, if there is one; the table's OID is
/// kept as a signed number.
pub open spec fn column_of(field: FieldLayout) -> SimpleColumnView {
    SimpleColumnView {
        name: field.name,
        type_: builtin_type(field.type_oid),
        format: field.format,
        table_oid: signed(field.table_oid),
        column_id: field.column_id,
        type_modifier: field.type_modifier,
    }
}

/// The columns that the fields of a RowDescription describe, in their order.
pub open spec fn columns_of(fields: Seq<FieldLayout>) -> Seq<SimpleColumnView> {
    fields.map_values(|field: FieldLayout| column_of(field))
}

/// What a list of columns is in contracts.
pub open spec fn column_views(columns: Seq<SimpleColumn>) -> Seq<SimpleColumnView> {
    columns.map_values(|column: SimpleColumn| column@)
}

/// `Arc::from` for a vector: the same items, shared.
#[verifier::external_body]
fn share(columns: Vec<SimpleColumn>) -> (shared: Arc<[SimpleColumn]>)
    ensures
        shared@ == columns@,
{
    Arc::from(columns)
}

impl SimpleColumn {
    /// A column with the given name, type, format code (0 for text, 1 for
    /// binary), table OID, attribute number in that table, and type modifier.
    pub fn new(
        name: String,
        type_: Option<Type>,
        format: i16,
        table_oid: i32,
        column_id: i16,
        type_modifier: i32,
    ) -> (column: SimpleColumn)
        ensures
            column@ == (SimpleColumnView {
                name: name@,
                type_,
                format,
                table_oid,
                column_id,
                type_modifier,
            }),
    {
        SimpleColumn { name, type_, format, table_oid, column_id, type_modifier }
    }

    /// Returns the name of the column.
    pub fn name(&self) -> (name: &str)
        ensures
            name@ == self@.name,
    {
        self.name.as_str()
    }

    /// Returns the type of the column, if it is a built-in type.
    pub fn type_(&self) -> (type_: &Option<Type>)
        ensures
            *type_ == self@.type_,
    {
        &self.type_
    }

    /// Returns the format of the column: 0 for text, 1 for binary.
    pub fn format(&self) -> (format: i16)
        ensures
            format == self@.format,
    {
        self.format
    }

    /// Returns the OID of the table that the column comes from.
    pub fn table_oid(&self) -> (table_oid: i32)
        ensures
            table_oid == self@.table_oid,
    {
        self.table_oid
    }

    /// Returns the attribute number of the column in its table.
    pub fn column_id(&self) -> (column_id: i16)
        ensures
            column_id == self@.column_id,
    {
        self.column_id
    }

    /// Returns the type modifier of the column.
    pub fn type_modifier(&self) -> (type_modifier: i32)
        ensures
            type_modifier == self@.type_modifier,
    {
        self.type_modifier
    }

    /// The column that one field describes.
    pub fn from_field(field: FieldData) -> (column: SimpleColumn)
        ensures
            column@ == column_of(field@),
    {
        SimpleColumn::new(
            field.name,
            Type::from_oid(field.type_oid),
            field.format,
            to_signed(field.table_oid),
            field.column_id,
            field.type_modifier,
        )
    }

    /// Converts the body of a RowDescription into its columns, in their
    /// order. This fails exactly when the payload is malformed.
    pub fn from_row_description_body(body: RowDescriptionBody) -> (r: Result<
        Arc<[SimpleColumn]>,
        Error,
    >)
        ensures
            r is Ok <==> fields_from(description_payload(body), 0, description_fields(body))
                is Some,
            r matches Ok(columns) ==> Some(column_views(columns@)) == match fields_from(
                description_payload(body),
                0,
                description_fields(body),
            ) {
                Some(fields) => Some(columns_of(fields)),
                None => None,
            },
            r matches Err(error) ==> error is Parse,
    {
        match fields_of(&body) {
            Ok(fields) => {
                let ghost all = layouts(fields@);
                let mut columns: Vec<SimpleColumn> = Vec::new();
                for field in it: fields
                    invariant
                        layouts(it.seq()) == all,
                        columns@.len() == it.index(),
                        forall|i: int|
                            0 <= i < columns@.len() ==> (#[trigger] columns@[i])@ == column_of(
                                all[i],
                            ),
                {
                    columns.push(SimpleColumn::from_field(field));
                }
                assert(column_views(columns@) =~= columns_of(all));
                Ok(share(columns))
            },
            Err(cause) => Err(Error::Parse(cause)),
        }
    }
}

} // verus!
