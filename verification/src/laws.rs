//! What holds over several commands, and between what is written and what is
//! read.
//!
//! Each buffered command leaves pending what was pending and its own frame
//! behind it; a Sync ships `flushed` of what is pending and leaves nothing;
//! a release does what `released` says. The first laws below follow what goes
//! over the wire through a run of these. The last one holds the layout that
//! parameters are written in against the layout that columns are read in.

use crate::client::{flushed, released};
use crate::replies::ranges_from;
use crate::wire::{
    be32, i32_at, lemma_be32_reads_back, lengths_ok, param, param_list, sync_frame,
};
use std::ops::Range;
use vstd::prelude::*;

verus! {

/// What is pending after each of `frames` has been appended in turn.
pub open spec fn appended(pending: Seq<u8>, frames: Seq<Seq<u8>>) -> Seq<u8>
    decreases frames.len(),
{
    if frames.len() == 0 {
        pending
    } else {
        appended(pending, frames.drop_last()) + frames.last()
    }
}

/// Appending frames in turn puts their concatenation behind what was pending.
pub proof fn lemma_appended_is_concatenation(pending: Seq<u8>, frames: Seq<Seq<u8>>)
    ensures
        appended(pending, frames) == pending + frames.flatten(),
    decreases frames.len(),
{
    if frames.len() == 0 {
        assert(pending + frames.flatten() =~= pending);
    } else {
        lemma_appended_is_concatenation(pending, frames.drop_last());
        frames.lemma_flatten_and_flatten_alt_are_equivalent();
        frames.drop_last().lemma_flatten_and_flatten_alt_are_equivalent();
        assert(pending + frames.flatten() =~= (pending + frames.drop_last().flatten())
            + frames.last());
    }
}

/// The bytes that a Sync ships are the frames appended since the Sync before
/// it, in the order in which they were appended, and then a Sync frame.
pub proof fn lemma_sync_ships_appended_frames(frames: Seq<Seq<u8>>)
    ensures
        flushed(appended(Seq::empty(), frames)) == frames.flatten() + sync_frame(),
{
    lemma_appended_is_concatenation(Seq::empty(), frames);
    assert(Seq::<u8>::empty() + frames.flatten() =~= frames.flatten());
}

/// A Sync with nothing pending ships a Sync frame alone, however many came
/// before it.
pub proof fn lemma_bare_sync()
    ensures
        flushed(Seq::empty()) == sync_frame(),
{
    assert(flushed(Seq::empty()) =~= sync_frame());
}

/// The Close frame of a released statement or portal reaches the wire: at
/// once in a batch of its own, which a Sync frame ends, where nothing was
/// pending; else within the batch of the next Sync, behind what was pending
/// before it and before what is appended after it.
pub proof fn lemma_release_reaches_the_wire(
    pending: Seq<u8>,
    close: Seq<u8>,
    later: Seq<Seq<u8>>,
)
    ensures
        match released(pending, close) {
            (Some(batch), rest) => pending.len() == 0 && batch == close + sync_frame()
                && rest.len() == 0,
            (None, rest) => pending.len() > 0 && flushed(appended(rest, later)) == pending
                + close + later.flatten() + sync_frame(),
        },
{
    if pending.len() > 0 {
        lemma_appended_is_concatenation(pending + close, later);
    }
}

/// The value that a range of a payload holds; `None` for SQL NULL.
pub open spec fn value_at(payload: Seq<u8>, range: Option<Range<usize>>) -> Option<Seq<u8>> {
    match range {
        Some(range) => Some(payload.subrange(range.start as int, range.end as int)),
        None => None,
    }
}

proof fn lemma_length_reads_back(payload: Seq<u8>, at: int, v: int, tail: Seq<u8>)
    requires
        0 <= at <= payload.len(),
        -0x8000_0000 <= v < 0x8000_0000,
        payload.subrange(at, payload.len() as int) == be32(v) + tail,
    ensures
        payload.len() - at >= 4,
        i32_at(payload, at) == v,
        payload.subrange(at + 4, payload.len() as int) == tail,
{
    lemma_be32_reads_back(v);
    let rest = payload.subrange(at, payload.len() as int);
    assert(rest.len() == 4 + tail.len());
    assert forall|k: int| 0 <= k < 4 implies payload[at + k] == be32(v)[k] by {
        assert(rest[k] == payload[at + k]);
    }
    assert(payload.subrange(at + 4, payload.len() as int) =~= tail) by {
        assert forall|k: int| 0 <= k < tail.len() implies payload[at + 4 + k] == tail[k] by {
            assert(rest[4 + k] == payload[at + 4 + k]);
        }
    }
}

proof fn lemma_values_read_back_from(payload: Seq<u8>, at: int, values: Seq<Option<Seq<u8>>>)
    requires
        0 <= at <= payload.len() <= usize::MAX,
        lengths_ok(values),
        payload.subrange(at, payload.len() as int) == param_list(values),
    ensures
        ranges_from(payload, at, values.len()) matches Some(ranges) && ranges.len() == values.len()
            && forall|i: int|
            0 <= i < values.len() ==> value_at(payload, #[trigger] ranges[i]) == values[i],
    decreases values.len(),
{
    let rest = values.drop_first();
    if values.len() == 0 {
        assert(payload.subrange(at, payload.len() as int).len() == 0);
    } else {
        assert(values[0] == values.first());
        assert(forall|i: int| 0 <= i < rest.len() ==> rest[i] == values[i + 1]);
        match values.first() {
            None => {
                lemma_length_reads_back(payload, at, -1, param_list(rest));
                lemma_values_read_back_from(payload, at + 4, rest);
                let tail = ranges_from(payload, at + 4, rest.len())->Some_0;
                let all = ranges_from(payload, at, values.len())->Some_0;
                assert(all == seq![None::<Range<usize>>] + tail);
                assert forall|i: int| 0 <= i < values.len() implies value_at(
                    payload,
                    #[trigger] all[i],
                ) == values[i] by {
                    if i > 0 {
                        assert(all[i] == tail[i - 1]);
                        assert(values[i] == rest[i - 1]);
                    }
                }
            },
            Some(bytes) => {
                let len = bytes.len() as int;
                assert(param(values.first()) + param_list(rest) =~= be32(len) + (bytes
                    + param_list(rest)));
                lemma_length_reads_back(payload, at, len, bytes + param_list(rest));
                let end = at + 4 + len;
                assert(payload.subrange(end, payload.len() as int) =~= param_list(rest)) by {
                    let after = payload.subrange(at + 4, payload.len() as int);
                    assert forall|k: int| 0 <= k < param_list(rest).len() implies payload[end
                        + k] == param_list(rest)[k] by {
                        assert(after[len + k] == payload[end + k]);
                    }
                }
                assert(payload.subrange(at + 4, end) =~= bytes) by {
                    let after = payload.subrange(at + 4, payload.len() as int);
                    assert forall|k: int| 0 <= k < len implies payload[at + 4 + k] == bytes[k] by {
                        assert(after[k] == payload[at + 4 + k]);
                    }
                }
                lemma_values_read_back_from(payload, end, rest);
                let tail = ranges_from(payload, end, rest.len())->Some_0;
                let all = ranges_from(payload, at, values.len())->Some_0;
                let head = Range { start: (at + 4) as usize, end: end as usize };
                assert(all == seq![Some(head)] + tail);
                assert forall|i: int| 0 <= i < values.len() implies value_at(
                    payload,
                    #[trigger] all[i],
                ) == values[i] by {
                    if i > 0 {
                        assert(all[i] == tail[i - 1]);
                        assert(values[i] == rest[i - 1]);
                    }
                }
            },
        }
    }
}

/// The parameters of a Bind frame are laid out as the columns of a DataRow
/// are: a payload made of the one reads back as a row of the other, with the
/// same values in the same order, and NULL for NULL.
pub proof fn lemma_values_read_back(values: Seq<Option<Seq<u8>>>)
    requires
        lengths_ok(values),
        param_list(values).len() <= usize::MAX,
    ensures
        ranges_from(param_list(values), 0, values.len()) matches Some(ranges) && ranges.len()
            == values.len() && forall|i: int|
            0 <= i < values.len() ==> value_at(param_list(values), #[trigger] ranges[i])
                == values[i],
{
    let payload = param_list(values);
    assert(payload.subrange(0, payload.len() as int) =~= payload);
    lemma_values_read_back_from(payload, 0, values);
}

} // verus!
