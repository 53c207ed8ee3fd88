//! Commands that are sent at once and answered before they return.
//!
//! The buffered commands of `query` say nothing of whether the server took
//! them until the next Sync is answered. The commands here do not wait for a
//! Sync: each makes a batch of its own, its frame and a Sync frame, which is
//! to be sent at once, and what is pending stays as it is. The handle is
//! handed out only once the server's first answer to the batch has been seen
//! to be the completion of the command.
//!
//! Each command comes in two forms. `prepare_eager` and `bind_eager` make the
//! batch and return what `confirm` turns into the handle, for a caller that
//! waits for the answer in its own way. `prepare_and_confirm` and
//! `bind_and_confirm` do all of it, given the exchange with the server as a
//! function.

use crate::buffer::{buffered, frozen};
use crate::client::{flushed, Client};
use crate::error::Error;
use crate::frames::values_bytes;
use crate::portal::Portal;
use crate::query::encode_bind;
use crate::replies::{error_body, error_response, kind_of, message_kind, MessageKind};
use crate::statement::{Oid, Statement, StatementView};
use crate::wire::{bind_frame, bind_ok, execute_frame, parse_frame, parse_ok};
use crate::wire::{lemma_bound_name_executes, lemma_parsed_name_closes};
use crate::wire::{execute_ok, target_ok};
use bytes::{Bytes, BytesMut};
use postgres_protocol::message::backend::Message;
use vstd::prelude::*;
use vstd::slice::slice_to_vec;
use vstd::string::StringSliceAdditionalSpecFns;
use vstd::utf8::encode_utf8;

verus! {

/// What the first answer to a command means for it: the completion that was
/// waited for lets it succeed, an ErrorResponse makes it fail with the server's
/// error, which carries the body of that answer, and any other message makes
/// it fail with `UnexpectedMessage`.
pub fn completion(expected: MessageKind, reply: Message) -> (r: Result<(), Error>)
    ensures
        r is Ok <==> message_kind(reply) == expected,
        r matches Err(error) ==> if message_kind(reply) == MessageKind::ErrorResponse {
            error == Error::Server(error_response(reply))
        } else {
            error is UnexpectedMessage
        },
{
    if kind_of(&reply) == expected {
        Ok(())
    } else {
        match error_body(reply) {
            Ok(body) => Err(Error::Server(body)),
            Err(_) => Err(Error::UnexpectedMessage),
        }
    }
}

/// A statement that the server has been asked to prepare and has not yet
/// answered for.
pub struct PendingStatement {
    name: String,
    param_types: Vec<Oid>,
}

impl View for PendingStatement {
    type V = StatementView;

    closed spec fn view(&self) -> StatementView {
        StatementView { name: self.name@, param_types: self.param_types@ }
    }
}

impl PendingStatement {
    #[verifier::type_invariant]
    spec fn closable(self) -> bool {
        target_ok(encode_utf8(self.name@))
    }

    /// Hands out the statement, given the server's first answer to the batch
    /// that asked for it: exactly when that answer is ParseComplete.
    pub fn confirm(self, reply: Message) -> (r: Result<Statement, Error>)
        ensures
            r is Ok <==> message_kind(reply) == MessageKind::ParseComplete,
            r matches Ok(statement) ==> statement@ == self@,
            r matches Err(error) ==> if message_kind(reply) == MessageKind::ErrorResponse {
                error == Error::Server(error_response(reply))
            } else {
                error is UnexpectedMessage
            },
    {
        proof {
            use_type_invariant(&self);
        }
        match completion(MessageKind::ParseComplete, reply) {
            Ok(()) => Ok(Statement::new(self.name, self.param_types)),
            Err(error) => Err(error),
        }
    }
}

/// Asks the server to prepare a statement now: returns the batch to send at
/// once, a Parse frame and a Sync frame, and the statement to be confirmed by
/// the first answer. What is pending stays as it is.
///
/// This fails exactly when no Parse frame can carry the arguments.
pub fn prepare_eager(client: &mut Client, query: &str, name: &str, types_oid: &[Oid]) -> (r: Result<
    (PendingStatement, Bytes),
    Error,
>)
    ensures
        r is Ok <==> parse_ok(name.spec_bytes(), query.spec_bytes(), types_oid@),
        r matches Ok((statement, batch)) ==> {
            &&& statement@.name == name@
            &&& statement@.param_types == types_oid@
            &&& frozen(batch) == flushed(
                parse_frame(name.spec_bytes(), query.spec_bytes(), types_oid@),
            )
        },
        r matches Err(error) ==> error is Encode,
        final(client).pending() == old(client).pending(),
{
    let made = client.with_buf(
        |buf: &mut BytesMut| -> (out: Result<Bytes, Error>)
            ensures
                out is Ok <==> parse_ok(name.spec_bytes(), query.spec_bytes(), types_oid@),
                out matches Ok(batch) ==> frozen(batch) == flushed(
                    parse_frame(name.spec_bytes(), query.spec_bytes(), types_oid@),
                ) && buffered(*final(buf)) == buffered(*old(buf)),
                out matches Err(error) ==> error is Encode,
                buffered(*old(buf)).is_prefix_of(buffered(*final(buf))),
            {
                let mark: usize = buf.len();
                match crate::frames::put_parse(name, query, types_oid, buf) {
                    Ok(()) => {
                        crate::frames::put_sync(buf);
                        let batch = buf.split_off(mark);
                        assert(buffered(*buf) =~= buffered(*old(buf)));
                        assert(buffered(batch) =~= flushed(
                            parse_frame(name.spec_bytes(), query.spec_bytes(), types_oid@),
                        ));
                        Ok(batch.freeze())
                    },
                    Err(cause) => Err(Error::Encode(cause)),
                }
            }
    );
    match made {
        Ok(batch) => {
            proof {
                lemma_parsed_name_closes(name.spec_bytes(), query.spec_bytes(), types_oid@);
            }
            let statement = PendingStatement {
                name: name.to_owned(),
                param_types: slice_to_vec(types_oid),
            };
            Ok((statement, batch))
        },
        Err(error) => Err(error),
    }
}

/// A portal that the server has been asked to bind and has not yet answered
/// for.
pub struct PendingPortal {
    name: String,
    statement: Statement,
}

impl PendingPortal {
    #[verifier::type_invariant]
    spec fn usable(self) -> bool {
        target_ok(encode_utf8(self.name@)) && execute_ok(encode_utf8(self.name@))
    }

    /// The name that the portal is to have.
    pub closed spec fn name(&self) -> Seq<char> {
        self.name@
    }

    /// The statement that the portal is to be bound from.
    pub closed spec fn statement(&self) -> StatementView {
        self.statement@
    }

    /// Hands out the portal, given the server's first answer to the batch
    /// that asked for it: exactly when that answer is BindComplete.
    pub fn confirm(self, reply: Message) -> (r: Result<Portal, Error>)
        ensures
            r is Ok <==> message_kind(reply) == MessageKind::BindComplete,
            r matches Ok(portal) ==> portal@.name == self.name() && portal@.statement
                == self.statement(),
            r matches Err(error) ==> if message_kind(reply) == MessageKind::ErrorResponse {
                error == Error::Server(error_response(reply))
            } else {
                error is UnexpectedMessage
            },
    {
        proof {
            use_type_invariant(&self);
        }
        match completion(MessageKind::BindComplete, reply) {
            Ok(()) => Ok(Portal::new(self.statement, self.name)),
            Err(error) => Err(error),
        }
    }
}

/// Asks the server to bind a portal now: returns the batch to send at once,
/// a Bind frame and a Sync frame, and the portal to be confirmed by the first
/// answer. What is pending stays as it is.
///
/// This fails exactly when no Bind frame can carry the arguments.
pub fn bind_eager(
    client: &mut Client,
    statement: Statement,
    name: &str,
    params: &[Option<BytesMut>],
) -> (r: Result<(PendingPortal, Bytes), Error>)
    ensures
        r is Ok <==> bind_ok(name.spec_bytes(), statement.name_bytes(), values_bytes(params@)),
        r matches Ok((portal, batch)) ==> {
            &&& portal.name() == name@
            &&& portal.statement() == statement@
            &&& frozen(batch) == flushed(
                bind_frame(name.spec_bytes(), statement.name_bytes(), values_bytes(params@)),
            )
        },
        r matches Err(error) ==> error is Encode,
        final(client).pending() == old(client).pending(),
{
    let made = client.with_buf(
        |buf: &mut BytesMut| -> (out: Result<Bytes, Error>)
            ensures
                out is Ok <==> bind_ok(
                    name.spec_bytes(),
                    statement.name_bytes(),
                    values_bytes(params@),
                ),
                out matches Ok(batch) ==> frozen(batch) == flushed(
                    bind_frame(name.spec_bytes(), statement.name_bytes(), values_bytes(params@)),
                ) && buffered(*final(buf)) == buffered(*old(buf)),
                out matches Err(error) ==> error is Encode,
                buffered(*old(buf)).is_prefix_of(buffered(*final(buf))),
            {
                let mark: usize = buf.len();
                match encode_bind(&statement, params, name, buf) {
                    Ok(()) => {
                        crate::frames::put_sync(buf);
                        let batch = buf.split_off(mark);
                        assert(buffered(*buf) =~= buffered(*old(buf)));
                        assert(buffered(batch) =~= flushed(
                            bind_frame(
                                name.spec_bytes(),
                                statement.name_bytes(),
                                values_bytes(params@),
                            ),
                        ));
                        Ok(batch.freeze())
                    },
                    Err(error) => Err(error),
                }
            }
    );
    match made {
        Ok(batch) => {
            proof {
                lemma_bound_name_executes(
                    name.spec_bytes(),
                    statement.name_bytes(),
                    values_bytes(params@),
                );
            }
            Ok((PendingPortal { name: name.to_owned(), statement }, batch))
        },
        Err(error) => Err(error),
    }
}

/// Executes a portal now: returns the batch to send at once, an Execute frame
/// and a Sync frame, whose responses are the portal's rows. With `max_rows`
/// at 0 the server returns all rows. What is pending stays as it is.
///
/// A portal's name can always be carried, so this always succeeds.
pub fn execute_eager(client: &mut Client, portal: &Portal, max_rows: i32) -> (r: Result<
    Bytes,
    Error,
>)
    ensures
        r matches Ok(batch) && frozen(batch) == flushed(
            execute_frame(portal.name_bytes(), max_rows),
        ),
        final(client).pending() == old(client).pending(),
{
    let name = portal.name();
    client.with_buf(
        |buf: &mut BytesMut| -> (out: Result<Bytes, Error>)
            ensures
                out matches Ok(batch) && frozen(batch) == flushed(
                    execute_frame(name.spec_bytes(), max_rows),
                ),
                buffered(*final(buf)) == buffered(*old(buf)),
            {
                let mark: usize = buf.len();
                match crate::frames::put_execute(name, max_rows, buf) {
                    Ok(()) => {
                        crate::frames::put_sync(buf);
                        let batch = buf.split_off(mark);
                        assert(buffered(*buf) =~= buffered(*old(buf)));
                        assert(buffered(batch) =~= flushed(
                            execute_frame(name.spec_bytes(), max_rows),
                        ));
                        Ok(batch.freeze())
                    },
                    Err(cause) => Err(Error::Encode(cause)),
                }
            }
    )
}

/// What an eager command returns, given what came back for its batch: the
/// error of the exchange where it failed, and else what `completion` makes of
/// the first answer.
pub open spec fn confirmed<T>(
    r: Result<T, Error>,
    answer: Result<Message, Error>,
    expected: MessageKind,
) -> bool {
    match answer {
        Err(error) => r == Err::<T, Error>(error),
        Ok(reply) => {
            &&& r is Ok <==> message_kind(reply) == expected
            &&& r matches Err(error) ==> if message_kind(reply) == MessageKind::ErrorResponse {
                error == Error::Server(error_response(reply))
            } else {
                error is UnexpectedMessage
            }
        },
    }
}

/// Prepares a statement and returns it once the server has confirmed it.
/// `exchange` sends the batch that it is given and hands back the server's
/// first answer to it, or the error of the connection.
///
/// Where this returns a statement, the batch was the Parse frame and a Sync
/// frame, and the first answer to it was ParseComplete. Where no Parse frame
/// can carry the arguments, nothing is sent. What is pending stays as it is.
pub fn prepare_and_confirm<X>(
    client: &mut Client,
    query: &str,
    name: &str,
    types_oid: &[Oid],
    exchange: X,
) -> (r: Result<Statement, Error>) where X: FnOnce(Bytes) -> Result<Message, Error>
    requires
        forall|batch: Bytes| call_requires(exchange, (batch,)),
    ensures
        final(client).pending() == old(client).pending(),
        !parse_ok(name.spec_bytes(), query.spec_bytes(), types_oid@) ==> (r matches Err(error)
            && error is Encode),
        parse_ok(name.spec_bytes(), query.spec_bytes(), types_oid@) ==> exists|
            batch: Bytes,
            answer: Result<Message, Error>,
        |
            {
                &&& frozen(batch) == flushed(
                    parse_frame(name.spec_bytes(), query.spec_bytes(), types_oid@),
                )
                &&& #[trigger] call_ensures(exchange, (batch,), answer)
                &&& confirmed(r, answer, MessageKind::ParseComplete)
            },
        r matches Ok(statement) ==> statement@.name == name@ && statement@.param_types
            == types_oid@,
        r is Ok ==> exists|batch: Bytes, reply: Message|
            {
                &&& frozen(batch) == flushed(
                    parse_frame(name.spec_bytes(), query.spec_bytes(), types_oid@),
                )
                &&& #[trigger] call_ensures(exchange, (batch,), Ok::<Message, Error>(reply))
                &&& message_kind(reply) == MessageKind::ParseComplete
            },
{
    match prepare_eager(client, query, name, types_oid) {
        Ok((pending, batch)) => {
            match exchange(batch) {
                Ok(reply) => pending.confirm(reply),
                Err(error) => Err(error),
            }
        },
        Err(error) => Err(error),
    }
}

/// Binds a portal and returns it once the server has confirmed it.
/// `exchange` sends the batch that it is given and hands back the server's
/// first answer to it, or the error of the connection.
///
/// Where this returns a portal, the batch was the Bind frame and a Sync
/// frame, and the first answer to it was BindComplete. Where no Bind frame can
/// carry the arguments, nothing is sent. What is pending stays as it is.
pub fn bind_and_confirm<X>(
    client: &mut Client,
    statement: Statement,
    name: &str,
    params: &[Option<BytesMut>],
    exchange: X,
) -> (r: Result<Portal, Error>) where X: FnOnce(Bytes) -> Result<Message, Error>
    requires
        forall|batch: Bytes| call_requires(exchange, (batch,)),
    ensures
        final(client).pending() == old(client).pending(),
        !bind_ok(name.spec_bytes(), statement.name_bytes(), values_bytes(params@)) ==> (
        r matches Err(error) && error is Encode),
        bind_ok(name.spec_bytes(), statement.name_bytes(), values_bytes(params@)) ==> exists|
            batch: Bytes,
            answer: Result<Message, Error>,
        |
            {
                &&& frozen(batch) == flushed(
                    bind_frame(name.spec_bytes(), statement.name_bytes(), values_bytes(params@)),
                )
                &&& #[trigger] call_ensures(exchange, (batch,), answer)
                &&& confirmed(r, answer, MessageKind::BindComplete)
            },
        r matches Ok(portal) ==> portal@.name == name@ && portal@.statement == statement@,
        r is Ok ==> exists|batch: Bytes, reply: Message|
            {
                &&& frozen(batch) == flushed(
                    bind_frame(name.spec_bytes(), statement.name_bytes(), values_bytes(params@)),
                )
                &&& #[trigger] call_ensures(exchange, (batch,), Ok::<Message, Error>(reply))
                &&& message_kind(reply) == MessageKind::BindComplete
            },
{
    match bind_eager(client, statement, name, params) {
        Ok((pending, batch)) => {
            match exchange(batch) {
                Ok(reply) => pending.confirm(reply),
                Err(error) => Err(error),
            }
        },
        Err(error) => Err(error),
    }
}

} // verus!
