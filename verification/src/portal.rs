//! Portals.

use crate::client::{batch_bytes, released, Client};
use crate::statement::{Statement, StatementView};
use crate::wire::{close_frame, execute_ok, portal_tag, target_ok};
use bytes::Bytes;
use vstd::prelude::*;
use vstd::utf8::encode_utf8;

verus! {

/// A portal: a statement with its parameters bound, under the name that the
/// server knows it by.
///
/// A portal can only be used with the connection that created it, and only
/// for as long as the transaction lasts in which it was created. It holds its
/// statement, so that the statement is not released before the portal is. Its
/// name is always one that a frame can carry.
pub struct Portal {
    name: String,
    statement: Statement,
}

/// What a portal is in contracts.
pub struct PortalView {
    pub name: Seq<char>,
    pub statement: StatementView,
}

impl View for Portal {
    type V = PortalView;

    closed spec fn view(&self) -> PortalView {
        PortalView { name: self.name@, statement: self.statement@ }
    }
}

impl Portal {
    #[verifier::type_invariant]
    spec fn usable(self) -> bool {
        target_ok(encode_utf8(self.name@)) && execute_ok(encode_utf8(self.name@))
    }

    /// The name on the wire.
    pub open spec fn name_bytes(&self) -> Seq<u8> {
        encode_utf8(self@.name)
    }

    pub(crate) fn new(statement: Statement, name: String) -> (portal: Portal)
        requires
            target_ok(encode_utf8(name@)),
            execute_ok(encode_utf8(name@)),
        ensures
            portal@.name == name@,
            portal@.statement == statement@,
    {
        Portal { name, statement }
    }

    /// Gets the name of the portal.
    pub fn name(&self) -> (name: &str)
        ensures
            name@ == self@.name,
            target_ok(self.name_bytes()),
            execute_ok(self.name_bytes()),
    {
        proof {
            use_type_invariant(self);
        }
        self.name.as_str()
    }

    /// The statement that the portal was bound from.
    pub fn statement(&self) -> (statement: &Statement)
        ensures
            statement@ == self@.statement,
    {
        &self.statement
    }

    /// Has the server release the portal, once its last holder lets go of it:
    /// the Close frame goes out at once where nothing is pending, and with the
    /// next Sync else. The batch that comes back, if one does, is to be sent;
    /// that it cannot be sent is no error.
    pub fn release(&self, client: &mut Client) -> (batch: Option<Bytes>)
        ensures
            (batch_bytes(batch), final(client).pending()) == released(
                old(client).pending(),
                close_frame(portal_tag(), self.name_bytes()),
            ),
    {
        client.release(0x50u8, self.name())
    }
}

impl Clone for Portal {
    fn clone(&self) -> (copy: Portal)
        ensures
            copy@ == self@,
    {
        proof {
            use_type_invariant(self);
        }
        Portal { name: self.name.clone(), statement: self.statement.clone() }
    }
}

} // verus!
