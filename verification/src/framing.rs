//! Line framing: every payload travels with one newline behind it.
//!
//! The payload itself never holds a newline, so a reader finds the end of a
//! message by looking for the next newline byte. What follows the last
//! newline of a buffer is the beginning of a message that has not arrived in
//! full: no error, but something to keep until more bytes come.

use vstd::prelude::*;
use crate::json::{is_text_of, Json, NEWLINE};

verus! {

/// No byte of `bytes` is a newline.
pub open spec fn newline_free(bytes: Seq<u8>) -> bool {
    forall|i: int| 0 <= i < bytes.len() ==> bytes[i] != NEWLINE
}

/// The payload with its terminator.
pub open spec fn framed(payload: Seq<u8>) -> Seq<u8> {
    payload.push(NEWLINE)
}

/// `bytes` is the wire form of the JSON value `j`: its compact text and one
/// newline.
pub open spec fn is_frame_of(bytes: Seq<u8>, j: Json) -> bool {
    &&& bytes.len() > 0
    &&& bytes.last() == NEWLINE
    &&& is_text_of(bytes.drop_last(), j)
}

/// What a reader has after `bytes`: the payloads that are complete, in their
/// order of arrival, and the beginning of the next one. Byte by byte, a
/// newline completes the payload under way and any other byte extends it.
pub open spec fn split(bytes: Seq<u8>) -> (Seq<Seq<u8>>, Seq<u8>)
    decreases bytes.len(),
{
    if bytes.len() == 0 {
        (Seq::empty(), Seq::empty())
    } else {
        let (complete, partial) = split(bytes.drop_last());
        if bytes.last() == NEWLINE {
            (complete.push(partial), Seq::empty())
        } else {
            (complete, partial.push(bytes.last()))
        }
    }
}

/// Bytes without a newline complete nothing: they extend the payload under
/// way.
pub proof fn lemma_split_partial(stream: Seq<u8>, more: Seq<u8>)
    requires
        newline_free(more),
    ensures
        split(stream + more) == (split(stream).0, split(stream).1 + more),
    decreases more.len(),
{
    if more.len() == 0 {
        assert(stream + more =~= stream);
        assert(split(stream).1 + more =~= split(stream).1);
    } else {
        let shorter = more.drop_last();
        lemma_split_partial(stream, shorter);
        assert((stream + more).drop_last() =~= stream + shorter);
        assert((split(stream).1 + shorter).push(more.last()) =~= split(stream).1 + more);
    }
}

/// A framed payload behind a stream completes exactly one more payload: what
/// was under way, followed by the new one. Nothing is left under way.
pub proof fn lemma_split_framed(stream: Seq<u8>, payload: Seq<u8>)
    requires
        newline_free(payload),
    ensures
        split(stream + framed(payload)) == (
            split(stream).0.push(split(stream).1 + payload),
            Seq::<u8>::empty(),
        ),
{
    lemma_split_partial(stream, payload);
    assert((stream + framed(payload)).drop_last() =~= stream + payload);
}

/// Two framed payloads, one behind the other, are split into exactly those
/// two payloads, in that order, with nothing left over.
pub proof fn lemma_split_two(first: Seq<u8>, second: Seq<u8>)
    requires
        newline_free(first),
        newline_free(second),
    ensures
        split(framed(first) + framed(second)) == (seq![first].push(second), Seq::<u8>::empty()),
{
    lemma_split_framed(Seq::empty(), first);
    assert(Seq::<u8>::empty() + framed(first) =~= framed(first));
    assert(Seq::<u8>::empty() + first =~= first);
    lemma_split_framed(framed(first), second);
    assert(Seq::<u8>::empty() + second =~= second);
}

/// Splitting a stream that arrives in two parts: the payloads of the first
/// part, then those that the rest completes, beginning with what the first
/// part left under way.
pub proof fn lemma_split_resume(head: Seq<u8>, tail: Seq<u8>)
    ensures
        split(head + tail) == (
            split(head).0 + split(split(head).1 + tail).0,
            split(split(head).1 + tail).1,
        ),
    decreases tail.len(),
{
    let carried = split(head).1;
    if tail.len() == 0 {
        assert(head + tail =~= head);
        assert(carried + tail =~= carried);
        lemma_pending_newline_free(head);
        lemma_split_partial(Seq::empty(), carried);
        assert(Seq::<u8>::empty() + carried =~= carried);
        assert(split(head).0 + Seq::<Seq<u8>>::empty() =~= split(head).0);
    } else {
        lemma_split_resume(head, tail.drop_last());
        assert((head + tail).drop_last() =~= head + tail.drop_last());
        assert((carried + tail).drop_last() =~= carried + tail.drop_last());
        let before = split(carried + tail.drop_last());
        if tail.last() == NEWLINE {
            assert((split(head).0 + before.0).push(before.1) =~= split(head).0 + before.0.push(
                before.1,
            ));
        }
    }
}

/// Neither a complete payload nor the one under way holds a newline.
pub proof fn lemma_pending_newline_free(bytes: Seq<u8>)
    ensures
        newline_free(split(bytes).1),
        forall|k: int| 0 <= k < split(bytes).0.len() ==> newline_free(#[trigger] split(bytes).0[k]),
    decreases bytes.len(),
{
    if bytes.len() > 0 {
        lemma_pending_newline_free(bytes.drop_last());
    }
}

/// Ends a payload with the newline that delimits it on the wire.
pub fn frame(payload: Vec<u8>) -> (line: Vec<u8>)
    ensures
        line@ == framed(payload@),
{
    let mut line = payload;
    line.push(NEWLINE);
    line
}

/// The contents of a list of payloads.
pub open spec fn payloads_of(payloads: Seq<Vec<u8>>) -> Seq<Seq<u8>> {
    payloads.map_values(|payload: Vec<u8>| payload@)
}

/// Splits what has arrived into the payloads that are complete, without
/// their newlines and in their order of arrival, and the bytes behind the
/// last newline. Those bytes begin a payload that is not complete yet: the
/// caller keeps them and puts them before the bytes that arrive next.
pub fn split_frames(buf: &[u8]) -> (r: (Vec<Vec<u8>>, Vec<u8>))
    ensures
        payloads_of(r.0@) == split(buf@).0,
        r.1@ == split(buf@).1,
{
    let mut complete: Vec<Vec<u8>> = Vec::new();
    let mut partial: Vec<u8> = Vec::new();
    let mut i: usize = 0;
    assert(buf@.subrange(0, 0) =~= Seq::<u8>::empty());
    while i < buf.len()
        invariant
            i <= buf@.len(),
            payloads_of(complete@) == split(buf@.subrange(0, i as int)).0,
            partial@ == split(buf@.subrange(0, i as int)).1,
        decreases buf@.len() - i,
    {
        let byte = buf[i];
        let ghost before = buf@.subrange(0, i as int);
        let ghost seen = payloads_of(complete@);
        assert(buf@.subrange(0, i + 1).drop_last() =~= before);
        if byte == NEWLINE {
            let ghost payload = partial@;
            complete.push(partial);
            partial = Vec::new();
            assert(payloads_of(complete@) =~= seen.push(payload));
        } else {
            partial.push(byte);
        }
        i += 1;
    }
    assert(buf@.subrange(0, i as int) =~= buf@);
    (complete, partial)
}

} // verus!
