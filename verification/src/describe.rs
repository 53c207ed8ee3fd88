//! The Describe command.

use crate::buffer::buffered;
use crate::client::Client;
use crate::error::{raise, raised_kind, Error, ErrorKind};
use crate::wire::{describe_frame, portal_tag, statement_tag, target_ok};
use bytes::BytesMut;
use vstd::prelude::*;
use vstd::utf8::encode_utf8;

verus! {

/// What a Describe command asks about.
#[derive(Debug)]
pub enum DescribeTarget {
    /// A statement, by its name: its parameters and its rows.
    Statement(String),
    /// A portal, by its name: its rows only.
    Portal(String),
}

impl DescribeTarget {
    /// The tag of the target in the frame.
    pub open spec fn tag(&self) -> u8 {
        match self {
            DescribeTarget::Statement(_) => statement_tag(),
            DescribeTarget::Portal(_) => portal_tag(),
        }
    }

    /// The name of the target on the wire.
    pub open spec fn name_bytes(&self) -> Seq<u8> {
        match self {
            DescribeTarget::Statement(name) => encode_utf8(name@),
            DescribeTarget::Portal(name) => encode_utf8(name@),
        }
    }
}

/// Writes the Describe frame for `what` behind what is pending, or fails and
/// leaves pending what was.
pub fn internal_describe(client: &mut Client, what: &DescribeTarget) -> (r: Result<(), Error>)
    ensures
        r is Ok <==> target_ok(what.name_bytes()),
        r is Ok ==> final(client).pending() == old(client).pending() + describe_frame(
            what.tag(),
            what.name_bytes(),
        ),
        r matches Err(error) ==> error is Encode && final(client).pending() == old(
            client,
        ).pending(),
{
    client.raw_buf(
        |buf: &mut BytesMut| -> (out: Result<(), Error>)
            ensures
                out is Ok <==> target_ok(what.name_bytes()),
                out is Ok ==> buffered(*final(buf)) == buffered(*old(buf)) + describe_frame(
                    what.tag(),
                    what.name_bytes(),
                ),
                out matches Err(error) ==> error is Encode,
                buffered(*old(buf)).is_prefix_of(buffered(*final(buf))),
            {
                let written = match what {
                    DescribeTarget::Statement(name) => {
                        crate::frames::put_describe(0x53u8, name.as_str(), buf)
                    },
                    DescribeTarget::Portal(name) => {
                        crate::frames::put_describe(0x50u8, name.as_str(), buf)
                    },
                };
                match written {
                    Ok(()) => Ok(()),
                    Err(cause) => Err(Error::Encode(cause)),
                }
            }
    )
}

/// Issues a Describe command. Nothing is sent: the frame waits for the next
/// Sync, whose responses then hold the description.
///
/// The command fails exactly when no frame can carry the name; pending is then
/// what it was.
pub fn describe<E: From<Error>>(client: &mut Client, what: DescribeTarget) -> (r: Result<(), E>)
    ensures
        r is Ok <==> target_ok(what.name_bytes()),
        r is Ok ==> final(client).pending() == old(client).pending() + describe_frame(
            what.tag(),
            what.name_bytes(),
        ),
        r matches Err(error) ==> raised_kind(error, ErrorKind::Encode) && final(client).pending()
            == old(client).pending(),
{
    raise(internal_describe(client, &what))
}

} // verus!
