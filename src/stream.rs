//! What repeated polls make of a byte stream, whatever pieces it arrives in.
//!
//! A poll over the queued bytes `q` scans them (see [`crate::wire::scan`]),
//! retires what the scan released and surfaces the frame it found, if that frame
//! passed its checksum. Polling until a poll retires nothing drains the queue of
//! everything that can be decided with the bytes at hand.
use vstd::prelude::*;

use crate::parser::Bno08xRvcRawFrame;
use crate::wire::{
    found_frame, lemma_found_frame_append, lemma_found_frame_shift, lemma_pending_scan,
    lemma_scan_append, lemma_scan_keeps_candidate, scan,
};

verus! {

/// What a run of polls has shown: the latest frame surfaced and how many frames
/// were handed to the callback.
pub struct PollRecord {
    pub last: Option<Bno08xRvcRawFrame>,
    pub frames: nat,
}

/// The record after a poll that surfaced `found`.
pub open spec fn record(rec: PollRecord, found: Option<Bno08xRvcRawFrame>) -> PollRecord {
    match found {
        Some(f) => PollRecord { last: Some(f), frames: rec.frames + 1 },
        None => rec,
    }
}

/// Polls over `q` until one retires nothing: the bytes left queued and the record.
pub open spec fn drain(q: Seq<u8>, rec: PollRecord) -> (Seq<u8>, PollRecord)
    decreases q.len(),
    via drain_decreases
{
    let r = scan(q).released();
    if r == 0 {
        (q, rec)
    } else {
        drain(q.subrange(r as int, q.len() as int), record(rec, found_frame(q)))
    }
}

#[via_fn]
proof fn drain_decreases(q: Seq<u8>, rec: PollRecord) {
    lemma_scan_keeps_candidate(q);
}

/// The bytes of `s` queued one at a time behind `q`, with the queue drained after
/// each one.
pub open spec fn feed_bytewise(q: Seq<u8>, rec: PollRecord, s: Seq<u8>) -> (Seq<u8>, PollRecord)
    decreases s.len(),
{
    if s.len() == 0 {
        (q, rec)
    } else {
        let (q1, rec1) = feed_bytewise(q, rec, s.drop_last());
        drain(q1.push(s.last()), rec1)
    }
}

/// Draining after a first piece of the stream and again after the rest ends in
/// the same queue, latest frame and frame count as draining once after the whole.
pub proof fn lemma_drain_split(a: Seq<u8>, b: Seq<u8>, rec: PollRecord)
    ensures
        drain(a + b, rec) == drain(drain(a, rec).0 + b, drain(a, rec).1),
    decreases a.len(),
{
    let ab = a + b;
    let r = scan(a).released();
    lemma_scan_keeps_candidate(a);
    lemma_scan_append(a, b);
    if r > 0 {
        let a1 = a.subrange(r as int, a.len() as int);
        let tail = ab.subrange(r as int, ab.len() as int);
        assert(tail =~= a1 + b);
        if scan(a) is Frame {
            lemma_found_frame_append(a, b);
            lemma_drain_split(a1, b, record(rec, found_frame(a)));
        } else {
            lemma_pending_scan(a1);
            lemma_found_frame_shift(ab, r);
            lemma_scan_keeps_candidate(tail);
            let r1 = scan(tail).released();
            assert(found_frame(a) is None);
            assert(drain(a1, rec) == (a1, rec));
            assert(drain(a, rec) == (a1, rec));
            if r1 > 0 {
                assert(ab.subrange((r + r1) as int, ab.len() as int) =~= tail.subrange(
                    r1 as int,
                    tail.len() as int,
                ));
            } else {
                assert(found_frame(tail) is None);
                assert(drain(ab, rec) == drain(tail, rec));
            }
        }
    }
}

/// Queueing a stream byte by byte, draining after each byte, ends in the same
/// queue, latest frame and frame count as queueing it in one burst and draining
/// once.
pub proof fn lemma_bytewise_matches_burst(s: Seq<u8>, rec: PollRecord)
    ensures
        feed_bytewise(Seq::empty(), rec, s) == drain(s, rec),
    decreases s.len(),
{
    if s.len() > 0 {
        let s0 = s.drop_last();
        lemma_bytewise_matches_burst(s0, rec);
        lemma_drain_split(s0, seq![s.last()], rec);
        assert(s0 + seq![s.last()] =~= s);
        assert(drain(s0, rec).0.push(s.last()) =~= drain(s0, rec).0 + seq![s.last()]);
    } else {
        lemma_scan_keeps_candidate(s);
    }
}

} // verus!
