//! The errors of the raw interface.

use postgres_protocol::message::backend::ErrorResponseBody;
use vstd::prelude::*;
use vstd::std_specs::convert::FromSpec;

verus! {

/// What can go wrong. No operation panics on an error; each hands one of
/// these back.
pub enum Error {
    /// A frame could not be built: a string held a zero byte, a list was too
    /// long, or the frame was.
    Encode(std::io::Error),
    /// The connection could not be written to.
    Io(std::io::Error),
    /// The connection is gone.
    Closed,
    /// A backend message came that has no place where it came.
    UnexpectedMessage,
    /// The body of a DataRow or of a RowDescription was malformed.
    Parse(std::io::Error),
    /// The column with this index is not text; the cause is spelled out.
    FromSql(usize, String),
    /// The backend answered with an error. The connection stays usable.
    Server(ErrorResponseBody),
}

/// The kind of an error, without what it carries.
#[derive(Clone, Copy, Debug, PartialEq, Eq, Structural)]
pub enum ErrorKind {
    Encode,
    Io,
    Closed,
    UnexpectedMessage,
    Parse,
    FromSql,
    Server,
}

impl Error {
    /// The kind of this error.
    pub open spec fn spec_kind(&self) -> ErrorKind {
        match self {
            Error::Encode(_) => ErrorKind::Encode,
            Error::Io(_) => ErrorKind::Io,
            Error::Closed => ErrorKind::Closed,
            Error::UnexpectedMessage => ErrorKind::UnexpectedMessage,
            Error::Parse(_) => ErrorKind::Parse,
            Error::FromSql(_, _) => ErrorKind::FromSql,
            Error::Server(_) => ErrorKind::Server,
        }
    }

    /// The kind of this error.
    #[verifier::when_used_as_spec(spec_kind)]
    pub fn kind(&self) -> (kind: ErrorKind)
        ensures
            kind == self.spec_kind(),
    {
        match self {
            Error::Encode(_) => ErrorKind::Encode,
            Error::Io(_) => ErrorKind::Io,
            Error::Closed => ErrorKind::Closed,
            Error::UnexpectedMessage => ErrorKind::UnexpectedMessage,
            Error::Parse(_) => ErrorKind::Parse,
            Error::FromSql(_, _) => ErrorKind::FromSql,
            Error::Server(_) => ErrorKind::Server,
        }
    }

    /// Whether the error says that the connection is gone.
    pub fn is_closed(&self) -> (closed: bool)
        ensures
            closed == (self is Closed),
    {
        match self {
            Error::Closed => true,
            _ => false,
        }
    }
}

/// That `outer` is `inner` as the caller's error type gives it, as far as that
/// type says what its conversion gives.
pub open spec fn raised<E: From<Error>>(outer: E, inner: Error) -> bool {
    E::obeys_from_spec() ==> outer == E::from_spec(inner)
}

/// That `outer` is some error of the kind `kind`, as the caller's error type
/// gives it.
pub open spec fn raised_kind<E: From<Error>>(outer: E, kind: ErrorKind) -> bool {
    exists|inner: Error| inner.kind() == kind && #[trigger] raised(outer, inner)
}

/// Hands a result on in the caller's error type.
pub fn raise<T, E: From<Error>>(result: Result<T, Error>) -> (out: Result<T, E>)
    ensures
        match result {
            Ok(value) => out == Ok::<T, E>(value),
            Err(error) => out matches Err(outer) && raised(outer, error),
        },
{
    match result {
        Ok(value) => Ok(value),
        Err(error) => Err(E::from(error)),
    }
}

} // verus!
