//! Prepared statements.

use crate::client::{batch_bytes, released, Client};
use crate::wire::{close_frame, statement_tag, target_ok};
use bytes::Bytes;
use vstd::prelude::*;
use vstd::utf8::encode_utf8;

verus! {

/// A PostgreSQL object identifier; here, that of a type.
pub type Oid = u32;

/// A prepared statement: the name that the server knows it by, and the types
/// of its parameters as far as they were given when it was prepared.
///
/// A statement can only be used with the connection that created it. Its
/// name is always one that a frame can carry, so it can always be closed.
pub struct Statement {
    name: String,
    param_types: Vec<Oid>,
}

/// What a statement is in contracts.
pub struct StatementView {
    pub name: Seq<char>,
    pub param_types: Seq<Oid>,
}

impl View for Statement {
    type V = StatementView;

    closed spec fn view(&self) -> StatementView {
        StatementView { name: self.name@, param_types: self.param_types@ }
    }
}

impl Statement {
    #[verifier::type_invariant]
    spec fn closable(self) -> bool {
        target_ok(encode_utf8(self.name@))
    }

    /// The name on the wire.
    pub open spec fn name_bytes(&self) -> Seq<u8> {
        encode_utf8(self@.name)
    }

    pub(crate) fn new(name: String, param_types: Vec<Oid>) -> (statement: Statement)
        requires
            target_ok(encode_utf8(name@)),
        ensures
            statement@.name == name@,
            statement@.param_types == param_types@,
    {
        Statement { name, param_types }
    }

    /// Gets the name of the statement.
    pub fn name(&self) -> (name: &str)
        ensures
            name@ == self@.name,
            target_ok(self.name_bytes()),
    {
        proof {
            use_type_invariant(self);
        }
        self.name.as_str()
    }

    /// Returns the types of the statement's parameters, as given when it was
    /// prepared.
    pub fn param_types(&self) -> (types: &[Oid])
        ensures
            types@ == self@.param_types,
    {
        self.param_types.as_slice()
    }

    /// Has the server release the statement, once its last holder lets go of
    /// it: the Close frame goes out at once where nothing is pending, and with
    /// the next Sync else. The batch that comes back, if one does, is to be
    /// sent; that it cannot be sent is no error.
    pub fn release(&self, client: &mut Client) -> (batch: Option<Bytes>)
        ensures
            (batch_bytes(batch), final(client).pending()) == released(
                old(client).pending(),
                close_frame(statement_tag(), self.name_bytes()),
            ),
    {
        client.release(0x53u8, self.name())
    }
}

impl Clone for Statement {
    fn clone(&self) -> (copy: Statement)
        ensures
            copy@ == self@,
    {
        proof {
            use_type_invariant(self);
        }
        Statement { name: self.name.clone(), param_types: self.param_types.clone() }
    }
}

} // verus!
