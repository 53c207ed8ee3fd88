//! What the library believes of the backend messages of `postgres_protocol`.
//!
//! A message and its bodies are opaque here. What the library reads of them
//! has a name: the kind of a message, the body of an ErrorResponse, the
//! payload and the advertised count of a DataRow and of a RowDescription. The
//! layouts of the two payloads are written out below, and the two readers are
//! believed to follow them.

use crate::wire::{i16_at, i32_at, u32_at};
use fallible_iterator::FallibleIterator;
use postgres_protocol::message::backend::{
    DataRowBody, ErrorResponseBody, Message, RowDescriptionBody,
};
use std::ops::Range;
use vstd::prelude::*;
use vstd::utf8::{decode_utf8, valid_utf8};

verus! {

#[verifier::external_type_specification]
#[verifier::external_body]
pub struct ExMessage(Message);

#[verifier::external_type_specification]
#[verifier::external_body]
pub struct ExDataRowBody(DataRowBody);

#[verifier::external_type_specification]
#[verifier::external_body]
pub struct ExRowDescriptionBody(RowDescriptionBody);

#[verifier::external_type_specification]
#[verifier::external_body]
pub struct ExErrorResponseBody(ErrorResponseBody);

/// The kinds of backend message that the response streams tell apart. All
/// that they do not pass on is `Other`.
#[derive(Clone, Copy, Debug, PartialEq, Eq, Structural)]
pub enum MessageKind {
    DataRow,
    ParseComplete,
    BindComplete,
    ParameterDescription,
    RowDescription,
    NoData,
    EmptyQueryResponse,
    CommandComplete,
    PortalSuspended,
    ReadyForQuery,
    ErrorResponse,
    Other,
}

/// The kind of a message.
pub uninterp spec fn message_kind(message: Message) -> MessageKind;

/// Tells the variants of `Message` apart: the eleven that a response stream
/// passes on, one kind each, and `Other` for the rest.
#[verifier::external_body]
pub(crate) fn kind_of(message: &Message) -> (kind: MessageKind)
    ensures
        kind == message_kind(*message),
{
    match message {
        Message::DataRow(_) => MessageKind::DataRow,
        Message::ParseComplete => MessageKind::ParseComplete,
        Message::BindComplete => MessageKind::BindComplete,
        Message::ParameterDescription(_) => MessageKind::ParameterDescription,
        Message::RowDescription(_) => MessageKind::RowDescription,
        Message::NoData => MessageKind::NoData,
        Message::EmptyQueryResponse => MessageKind::EmptyQueryResponse,
        Message::CommandComplete(_) => MessageKind::CommandComplete,
        Message::PortalSuspended => MessageKind::PortalSuspended,
        Message::ReadyForQuery(_) => MessageKind::ReadyForQuery,
        Message::ErrorResponse(_) => MessageKind::ErrorResponse,
        _ => MessageKind::Other,
    }
}

/// The body that a message carries where it is an ErrorResponse.
pub uninterp spec fn error_response(message: Message) -> ErrorResponseBody;

/// Takes the body out of an ErrorResponse, and hands any other message back.
#[verifier::external_body]
pub(crate) fn error_body(message: Message) -> (r: Result<ErrorResponseBody, Message>)
    ensures
        r is Ok <==> message_kind(message) == MessageKind::ErrorResponse,
        r matches Ok(body) ==> body == error_response(message),
        r matches Err(other) ==> other == message,
{
    match message {
        Message::ErrorResponse(body) => Ok(body),
        other => Err(other),
    }
}

/// The payload of a DataRow: all that follows the column count.
pub uninterp spec fn row_payload(body: DataRowBody) -> Seq<u8>;

/// The column count that a DataRow advertises.
pub uninterp spec fn row_columns(body: DataRowBody) -> nat;

/// Where the columns of a DataRow lie in its payload, read from `at` on with
/// `left` columns to come: each column is a signed 32-bit length and that many
/// bytes, or a negative length alone for SQL NULL. `None` where the payload
/// ends too early, or goes on after the last column.
pub open spec fn ranges_from(payload: Seq<u8>, at: int, left: nat) -> Option<
    Seq<Option<Range<usize>>>,
>
    decreases left,
{
    if left == 0 {
        if at == payload.len() {
            Some(Seq::empty())
        } else {
            None
        }
    } else if payload.len() - at < 4 {
        None
    } else if i32_at(payload, at) < 0 {
        match ranges_from(payload, at + 4, (left - 1) as nat) {
            Some(rest) => Some(seq![None] + rest),
            None => None,
        }
    } else if payload.len() - (at + 4) < i32_at(payload, at) {
        None
    } else {
        let end = at + 4 + i32_at(payload, at);
        match ranges_from(payload, end, (left - 1) as nat) {
            Some(rest) => Some(
                seq![Some(Range { start: (at + 4) as usize, end: end as usize })] + rest,
            ),
            None => None,
        }
    }
}

/// `DataRowBody::buffer`: the payload.
pub assume_specification<'a>[ DataRowBody::buffer ](body: &'a DataRowBody) -> (bytes: &'a [u8])
    ensures
        bytes@ == row_payload(*body),
;

/// `DataRowBody::ranges`, collected: the ranges of all columns, or the error
/// of a malformed payload.
#[verifier::external_body]
pub(crate) fn column_ranges(body: &DataRowBody) -> (r: Result<
    Vec<Option<Range<usize>>>,
    std::io::Error,
>)
    ensures
        match r {
            Ok(ranges) => ranges_from(row_payload(*body), 0, row_columns(*body)) == Some(ranges@),
            Err(_) => ranges_from(row_payload(*body), 0, row_columns(*body)) is None,
        },
{
    body.ranges().collect()
}

/// One field of a RowDescription, as plain values.
pub struct FieldData {
    pub name: String,
    pub table_oid: u32,
    pub column_id: i16,
    pub type_oid: u32,
    pub type_size: i16,
    pub type_modifier: i32,
    pub format: i16,
}

/// What a field is in contracts.
pub struct FieldLayout {
    pub name: Seq<char>,
    pub table_oid: u32,
    pub column_id: i16,
    pub type_oid: u32,
    pub type_size: i16,
    pub type_modifier: i32,
    pub format: i16,
}

impl View for FieldData {
    type V = FieldLayout;

    open spec fn view(&self) -> FieldLayout {
        FieldLayout {
            name: self.name@,
            table_oid: self.table_oid,
            column_id: self.column_id,
            type_oid: self.type_oid,
            type_size: self.type_size,
            type_modifier: self.type_modifier,
            format: self.format,
        }
    }
}

/// The payload of a RowDescription: all that follows the field count.
pub uninterp spec fn description_payload(body: RowDescriptionBody) -> Seq<u8>;

/// The field count that a RowDescription advertises.
pub uninterp spec fn description_fields(body: RowDescriptionBody) -> nat;

/// The place of the first zero byte at or after `at`, or the length of the
/// payload where there is none.
pub open spec fn first_zero(payload: Seq<u8>, at: int) -> int
    decreases payload.len() - at,
{
    if at < 0 || at >= payload.len() {
        payload.len() as int
    } else if payload[at] == 0 {
        at
    } else {
        first_zero(payload, at + 1)
    }
}

/// The field whose name starts at `at` and ends before the zero byte at `zero`.
pub open spec fn field_at(payload: Seq<u8>, at: int, zero: int) -> FieldLayout {
    FieldLayout {
        name: decode_utf8(payload.subrange(at, zero)),
        table_oid: u32_at(payload, zero + 1) as u32,
        column_id: i16_at(payload, zero + 5) as i16,
        type_oid: u32_at(payload, zero + 7) as u32,
        type_size: i16_at(payload, zero + 11) as i16,
        type_modifier: i32_at(payload, zero + 13) as i32,
        format: i16_at(payload, zero + 17) as i16,
    }
}

/// The fields of a RowDescription, read from `at` on with `left` fields to
/// come: each field is a name in UTF-8 closed by a zero byte, and eighteen
/// bytes of numbers. `None` where a name has no end or is not UTF-8, where the
/// payload ends too early, or where it goes on after the last field.
pub open spec fn fields_from(payload: Seq<u8>, at: int, left: nat) -> Option<Seq<FieldLayout>>
    decreases left,
{
    let zero = first_zero(payload, at);
    if left == 0 {
        if at == payload.len() {
            Some(Seq::empty())
        } else {
            None
        }
    } else if zero >= payload.len() || !valid_utf8(payload.subrange(at, zero)) {
        None
    } else if payload.len() - (zero + 1) < 18 {
        None
    } else {
        match fields_from(payload, zero + 19, (left - 1) as nat) {
            Some(rest) => Some(seq![field_at(payload, at, zero)] + rest),
            None => None,
        }
    }
}

/// The layouts of a list of fields.
pub open spec fn layouts(fields: Seq<FieldData>) -> Seq<FieldLayout> {
    fields.map_values(|field: FieldData| field@)
}

/// `RowDescriptionBody::fields`, each field copied out and all collected: the
/// fields in their order, or the error of a malformed payload.
#[verifier::external_body]
pub(crate) fn fields_of(body: &RowDescriptionBody) -> (r: Result<Vec<FieldData>, std::io::Error>)
    ensures
        match r {
            Ok(fields) => fields_from(description_payload(*body), 0, description_fields(*body))
                == Some(layouts(fields@)),
            Err(_) => fields_from(description_payload(*body), 0, description_fields(*body))
                is None,
        },
{
    let copy = |f: postgres_protocol::message::backend::Field<'_>| {
        Ok(FieldData {
            name: f.name().to_string(),
            table_oid: f.table_oid(),
            column_id: f.column_id(),
            type_oid: f.type_oid(),
            type_size: f.type_size(),
            type_modifier: f.type_modifier(),
            format: f.format(),
        })
    };
    body.fields().map(copy).collect()
}

} // verus!
