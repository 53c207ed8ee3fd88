//! The client's pending buffer: the frames that wait for the next Sync.
//!
//! Whoever holds the client exclusively holds the buffer: two writers cannot
//! meet in it, and none sees half of another's frame.

use crate::buffer::{buffered, frozen};
use crate::error::Error;
use crate::frames::{put_close, put_sync};
use crate::wire::{close_frame, sync_frame, target_ok};
use bytes::{Bytes, BytesMut};
use vstd::prelude::*;
use vstd::string::StringSliceAdditionalSpecFns;

verus! {

/// The batch that a Sync ships: all that is pending, then the Sync frame.
pub open spec fn flushed(pending: Seq<u8>) -> Seq<u8> {
    pending + sync_frame()
}

/// What the release of a server-side object does with its Close frame. With
/// nothing pending the frame is shipped at once, as a batch of its own that a
/// Sync ends; else it joins what is pending and goes out with the next Sync.
/// The first part is the batch to ship now, the second what is pending after.
pub open spec fn released(pending: Seq<u8>, close: Seq<u8>) -> (Option<Seq<u8>>, Seq<u8>) {
    if pending.len() == 0 {
        (Some(flushed(close)), Seq::empty())
    } else {
        (None, pending + close)
    }
}

/// What a batch is in contracts, where there is one.
pub open spec fn batch_bytes(batch: Option<Bytes>) -> Option<Seq<u8>> {
    match batch {
        Some(bytes) => Some(frozen(bytes)),
        None => None,
    }
}

/// One connection's pending buffer. Frames are appended to it in the order in
/// which they are to be sent; a Sync takes them all out at once.
pub struct Client {
    pending: BytesMut,
}

impl Client {
    /// The pending buffer itself.
    pub closed spec fn buffer(&self) -> BytesMut {
        self.pending
    }

    /// The bytes that wait for the next Sync.
    pub open spec fn pending(&self) -> Seq<u8> {
        buffered(self.buffer())
    }

    /// A client with nothing pending.
    pub fn new() -> (client: Client)
        ensures
            client.pending() == Seq::<u8>::empty(),
    {
        Client { pending: BytesMut::new() }
    }

    /// Whether nothing waits for the next Sync.
    pub fn is_empty(&self) -> (empty: bool)
        ensures
            empty == (self.pending().len() == 0),
    {
        self.pending.len() == 0
    }

    /// The number of bytes that wait for the next Sync.
    pub fn len(&self) -> (n: usize)
        ensures
            n == self.pending().len(),
    {
        self.pending.len()
    }

    /// Runs `f` on the pending buffer. What `f` returns is handed on. Where
    /// `f` succeeds the buffer stays as `f` left it, so `f` may take frames
    /// out for sending; where `f` fails the buffer is cut back to what it held
    /// before, so that no part of a frame stays behind. For that, an `f` that
    /// fails must have left alone what the buffer held.
    pub fn with_buf<F, R>(&mut self, f: F) -> (r: Result<R, Error>) where
        F: FnOnce(&mut BytesMut) -> Result<R, Error>,

        requires
            forall|b: &mut BytesMut| *b == old(self).buffer() ==> call_requires(f, (b,)),
            forall|b: &mut BytesMut, out: Result<R, Error>|
                *b == old(self).buffer() && #[trigger] call_ensures(f, (b,), out) && out is Err
                    ==> buffered(*b).is_prefix_of(buffered(*final(b))),
        ensures
            exists|b: &mut BytesMut|
                {
                    &&& *b == old(self).buffer()
                    &&& #[trigger] call_ensures(f, (b,), r)
                    &&& final(self).pending() == if r is Ok {
                        buffered(*final(b))
                    } else {
                        old(self).pending()
                    }
                },
    {
        let mark: usize = self.pending.len();
        let r = f(&mut self.pending);
        if r.is_err() {
            self.pending.truncate(mark);
        }
        r
    }

    /// Runs `f` on the pending buffer, for an `f` that only appends: what it
    /// writes stays for the next Sync. Where `f` fails the buffer is cut back
    /// to what it held before.
    pub fn raw_buf<F, R>(&mut self, f: F) -> (r: Result<R, Error>) where
        F: FnOnce(&mut BytesMut) -> Result<R, Error>,

        requires
            forall|b: &mut BytesMut| *b == old(self).buffer() ==> call_requires(f, (b,)),
            forall|b: &mut BytesMut, out: Result<R, Error>|
                *b == old(self).buffer() && #[trigger] call_ensures(f, (b,), out) ==> buffered(
                    *b,
                ).is_prefix_of(buffered(*final(b))),
        ensures
            exists|b: &mut BytesMut|
                {
                    &&& *b == old(self).buffer()
                    &&& #[trigger] call_ensures(f, (b,), r)
                    &&& final(self).pending() == if r is Ok {
                        buffered(*final(b))
                    } else {
                        old(self).pending()
                    }
                },
            old(self).pending().is_prefix_of(final(self).pending()),
    {
        self.with_buf(f)
    }

    /// Takes out all that is pending, closed by a Sync frame, as the batch to
    /// send. Nothing is pending after.
    pub fn flush(&mut self) -> (batch: Bytes)
        ensures
            frozen(batch) == flushed(old(self).pending()),
            final(self).pending() == Seq::<u8>::empty(),
    {
        put_sync(&mut self.pending);
        self.pending.split().freeze()
    }

    /// Has the server release the statement or portal called `name`: writes
    /// its Close frame, and ships it at once where nothing else is pending.
    /// The batch that comes back, if one does, is to be sent.
    pub(crate) fn release(&mut self, variant: u8, name: &str) -> (batch: Option<Bytes>)
        requires
            target_ok(name.spec_bytes()),
        ensures
            (batch_bytes(batch), final(self).pending()) == released(
                old(self).pending(),
                close_frame(variant, name.spec_bytes()),
            ),
    {
        let idle = self.is_empty();
        put_close(variant, name, &mut self.pending).unwrap();
        if idle {
            assert(self.pending() =~= close_frame(variant, name.spec_bytes()));
            Some(self.flush())
        } else {
            None
        }
    }
}

} // verus!
