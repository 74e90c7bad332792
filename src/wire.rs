//! The frame format on the wire, and where a scan of a byte view stops.
//!
//! A frame is `SYNC SYNC body`, where the body is seventeen bytes:
//! `index`, six little-endian `i16` fields, `motion_intent`, `motion_request`,
//! `rsvd` and `csum`. `csum` is the sum, modulo 256, of the sixteen bytes
//! before it.
//!
//! A scan reads the view from its start as a run of tokens: a byte that is not
//! `SYNC` alone, or `SYNC` followed by a byte that is not `SYNC`, is garbage and
//! may be retired; `SYNC SYNC` opens a candidate frame. The scan stops at the
//! first candidate whose body is complete, or at the end of the view, in which
//! case an opened but incomplete candidate is kept for the next view.
//!
//! In `SYNC SYNC SYNC ...` the first two bytes are taken as the marker and the
//! third starts the body; a run of sync bytes is not searched for a later
//! marker. A candidate whose checksum fails is retired whole all the same.
use vstd::prelude::*;

use crate::parser::Bno08xRvcRawFrame;
use crate::BNO08X_UART_RVC_FRAME_SIZE;

verus! {

/// Each of the two bytes of the sync marker.
pub const SYNC_BYTE: u8 = 0xAA;

/// Bytes in a frame body: the frame without its two sync bytes.
pub const BODY_SIZE: usize = BNO08X_UART_RVC_FRAME_SIZE - 2;

/// Bytes in a body that the checksum covers.
pub const SUMMED_SIZE: usize = 16;

/// Sum of all bytes of `s`.
pub open spec fn byte_sum(s: Seq<u8>) -> nat
    decreases s.len(),
{
    if s.len() == 0 {
        0
    } else {
        byte_sum(s.drop_last()) + s.last() as nat
    }
}

/// The checksum that a body should carry: its first sixteen bytes summed modulo 256.
pub open spec fn checksum_of(body: Seq<u8>) -> u8 {
    (byte_sum(body.subrange(0, SUMMED_SIZE as int)) % 256) as u8
}

/// A complete body whose last byte is its checksum.
pub open spec fn body_is_valid(body: Seq<u8>) -> bool {
    body.len() == BODY_SIZE && body[SUMMED_SIZE as int] == checksum_of(body)
}

/// The `i16` whose little-endian bytes are `lo`, `hi`.
pub open spec fn le_i16(lo: u8, hi: u8) -> i16 {
    let v = lo as int + 256 * hi as int;
    (if v < 0x8000 {
        v
    } else {
        v - 0x10000
    }) as i16
}

/// The two little-endian bytes of `x`.
pub open spec fn i16_le(x: i16) -> Seq<u8> {
    let u = if x >= 0 {
        x as int
    } else {
        x + 0x10000
    };
    seq![(u % 256) as u8, (u / 256) as u8]
}

/// The frame that a body spells out, field by field.
pub open spec fn frame_of(body: Seq<u8>) -> Bno08xRvcRawFrame {
    Bno08xRvcRawFrame {
        index: body[0],
        yaw: le_i16(body[1], body[2]),
        pitch: le_i16(body[3], body[4]),
        roll: le_i16(body[5], body[6]),
        x_acc: le_i16(body[7], body[8]),
        y_acc: le_i16(body[9], body[10]),
        z_acc: le_i16(body[11], body[12]),
        motion_intent: body[13],
        motion_request: body[14],
        rsvd: body[15],
        csum: body[16],
    }
}

/// The body that spells out `f`.
pub open spec fn body_of(f: Bno08xRvcRawFrame) -> Seq<u8> {
    seq![f.index] + i16_le(f.yaw) + i16_le(f.pitch) + i16_le(f.roll) + i16_le(f.x_acc)
        + i16_le(f.y_acc) + i16_le(f.z_acc) + seq![f.motion_intent, f.motion_request, f.rsvd, f.csum]
}

/// The whole frame on the wire: sync marker, then body.
pub open spec fn wire_of(f: Bno08xRvcRawFrame) -> Seq<u8> {
    seq![SYNC_BYTE, SYNC_BYTE] + body_of(f)
}

/// A frame whose `csum` field matches the rest of its body.
pub open spec fn frame_is_consistent(f: Bno08xRvcRawFrame) -> bool {
    f.csum == checksum_of(body_of(f))
}

/// Where a scan of a view stops.
pub enum Scan {
    /// A candidate whose body starts at `at` is complete; the view is retired
    /// through the end of that body.
    Frame { at: nat },
    /// No complete candidate; the first `release` bytes are garbage and the rest
    /// is kept.
    NoFrame { release: nat },
}

impl Scan {
    /// How many bytes from the start of the view are retired.
    pub open spec fn released(self) -> nat {
        match self {
            Scan::Frame { at } => (at + BODY_SIZE) as nat,
            Scan::NoFrame { release } => release,
        }
    }

    /// The same outcome for a view that has `k` more bytes in front.
    pub open spec fn shifted(self, k: nat) -> Scan {
        match self {
            Scan::Frame { at } => Scan::Frame { at: (at + k) as nat },
            Scan::NoFrame { release } => Scan::NoFrame { release: (release + k) as nat },
        }
    }
}

/// The outcome of scanning `v` from its start.
pub open spec fn scan(v: Seq<u8>) -> Scan
    decreases v.len(),
{
    if v.len() == 0 {
        Scan::NoFrame { release: 0 }
    } else if v[0] != SYNC_BYTE {
        scan(v.subrange(1, v.len() as int)).shifted(1)
    } else if v.len() == 1 {
        Scan::NoFrame { release: 0 }
    } else if v[1] != SYNC_BYTE {
        scan(v.subrange(2, v.len() as int)).shifted(2)
    } else if v.len() >= 2 + BODY_SIZE {
        Scan::Frame { at: 2 }
    } else {
        Scan::NoFrame { release: 0 }
    }
}

/// The body of the candidate that a scan of `v` found complete, if any.
pub open spec fn found_body(v: Seq<u8>) -> Option<Seq<u8>> {
    match scan(v) {
        Scan::Frame { at } => Some(v.subrange(at as int, at + BODY_SIZE)),
        Scan::NoFrame { .. } => None,
    }
}

/// The frame that a poll over the view `v` surfaces: the complete candidate, if
/// its checksum holds.
pub open spec fn found_frame(v: Seq<u8>) -> Option<Bno08xRvcRawFrame> {
    match found_body(v) {
        Some(body) => if body_is_valid(body) {
            Some(frame_of(body))
        } else {
            None
        },
        None => None,
    }
}

/// The start of a candidate frame that is not complete yet: nothing, one sync
/// byte, or the sync marker and less than a whole body.
pub open spec fn is_pending_candidate(t: Seq<u8>) -> bool {
    &&& t.len() < 2 + BODY_SIZE
    &&& t.len() >= 1 ==> t[0] == SYNC_BYTE
    &&& t.len() >= 2 ==> t[1] == SYNC_BYTE
}

/// What a scan retires never reaches into a candidate frame that is still
/// incomplete: when no candidate is complete, the bytes it keeps are the start
/// of one; when one is complete, it follows a sync marker, lies inside the view,
/// and the scan retires exactly through its end.
pub proof fn lemma_scan_keeps_candidate(v: Seq<u8>)
    ensures
        scan(v).released() <= v.len(),
        scan(v) is NoFrame ==> is_pending_candidate(v.subrange(scan(v).released() as int, v.len() as int)),
        scan(v) matches Scan::Frame { at } ==> 2 <= at && at + BODY_SIZE <= v.len() && v[at - 2]
            == SYNC_BYTE && v[at - 1] == SYNC_BYTE,
    decreases v.len(),
{
    if v.len() > 0 && v[0] != SYNC_BYTE {
        let w = v.subrange(1, v.len() as int);
        lemma_scan_keeps_candidate(w);
        assert(w.subrange(scan(w).released() as int, w.len() as int) =~= v.subrange(
            scan(v).released() as int,
            v.len() as int,
        ));
    } else if v.len() > 1 && v[0] == SYNC_BYTE && v[1] != SYNC_BYTE {
        let w = v.subrange(2, v.len() as int);
        lemma_scan_keeps_candidate(w);
        assert(w.subrange(scan(w).released() as int, w.len() as int) =~= v.subrange(
            scan(v).released() as int,
            v.len() as int,
        ));
    } else if scan(v) is NoFrame {
        assert(v.subrange(0, v.len() as int) =~= v);
    }
}

/// The start of a candidate frame gives a scan nothing to retire and nothing to
/// surface.
pub proof fn lemma_pending_scan(t: Seq<u8>)
    requires
        is_pending_candidate(t),
    ensures
        scan(t) == (Scan::NoFrame { release: 0 }),
{
}

/// Bytes that arrive after a view do not change how the scan of the view went:
/// a complete candidate stays the one found, and bytes that were retired as
/// garbage stay retired, the scan going on from where it stopped.
pub proof fn lemma_scan_append(a: Seq<u8>, b: Seq<u8>)
    ensures
        scan(a) is Frame ==> scan(a + b) == scan(a),
        scan(a) is NoFrame ==> scan(a + b) == scan(
            (a + b).subrange(scan(a).released() as int, (a + b).len() as int),
        ).shifted(scan(a).released()),
    decreases a.len(),
{
    let ab = a + b;
    if a.len() > 0 && a[0] != SYNC_BYTE {
        let a1 = a.subrange(1, a.len() as int);
        lemma_scan_append(a1, b);
        lemma_scan_keeps_candidate(a1);
        assert(ab.subrange(1, ab.len() as int) =~= a1 + b);
        let r1 = scan(a1).released();
        assert((a1 + b).subrange(r1 as int, (a1 + b).len() as int) =~= ab.subrange(
            r1 + 1int,
            ab.len() as int,
        ));
    } else if a.len() > 1 && a[0] == SYNC_BYTE && a[1] != SYNC_BYTE {
        let a2 = a.subrange(2, a.len() as int);
        lemma_scan_append(a2, b);
        lemma_scan_keeps_candidate(a2);
        assert(ab.subrange(2, ab.len() as int) =~= a2 + b);
        let r2 = scan(a2).released();
        assert((a2 + b).subrange(r2 as int, (a2 + b).len() as int) =~= ab.subrange(
            r2 + 2int,
            ab.len() as int,
        ));
    } else if scan(a) is NoFrame {
        assert(ab.subrange(0, ab.len() as int) =~= ab);
        assert(scan(ab).shifted(0) == scan(ab));
    }
}

/// Where the scan of `c` is the scan of its tail after `r` bytes, shifted, the
/// frame it surfaces is the one the tail surfaces.
pub proof fn lemma_found_frame_shift(c: Seq<u8>, r: nat)
    requires
        r <= c.len(),
        scan(c) == scan(c.subrange(r as int, c.len() as int)).shifted(r),
    ensures
        found_frame(c) == found_frame(c.subrange(r as int, c.len() as int)),
{
    let t = c.subrange(r as int, c.len() as int);
    lemma_scan_keeps_candidate(t);
    if let Scan::Frame { at } = scan(t) {
        assert(c.subrange(at + r as int, at + r + BODY_SIZE) =~= t.subrange(at as int, at + BODY_SIZE));
    }
}

/// Bytes that arrive after a view with a complete candidate do not change the
/// frame it surfaces.
pub proof fn lemma_found_frame_append(a: Seq<u8>, b: Seq<u8>)
    requires
        scan(a) is Frame,
    ensures
        found_frame(a + b) == found_frame(a),
{
    lemma_scan_append(a, b);
    lemma_scan_keeps_candidate(a);
    let at = scan(a)->at;
    assert((a + b).subrange(at as int, at + BODY_SIZE) =~= a.subrange(at as int, at + BODY_SIZE));
}

/// Reading back the two little-endian bytes of an `i16` gives that `i16`.
pub proof fn lemma_i16_round_trip(x: i16)
    ensures
        le_i16(i16_le(x)[0], i16_le(x)[1]) == x,
{
}

/// A frame whose checksum holds, put on the wire and scanned, is found as the
/// first candidate, surfaced unchanged, and retired whole.
pub proof fn lemma_round_trip(f: Bno08xRvcRawFrame)
    requires
        frame_is_consistent(f),
    ensures
        scan(wire_of(f)) == (Scan::Frame { at: 2 }),
        scan(wire_of(f)).released() == wire_of(f).len(),
        found_frame(wire_of(f)) == Some(f),
{
    let w = wire_of(f);
    let body = body_of(f);
    assert(w.len() == 2 + BODY_SIZE);
    assert(w.subrange(2, 2 + BODY_SIZE) =~= body);
    lemma_i16_round_trip(f.yaw);
    lemma_i16_round_trip(f.pitch);
    lemma_i16_round_trip(f.roll);
    lemma_i16_round_trip(f.x_acc);
    lemma_i16_round_trip(f.y_acc);
    lemma_i16_round_trip(f.z_acc);
    assert(frame_of(body) == f);
}

/// Appends the two little-endian bytes of `x`.
fn push_i16_le(out: &mut Vec<u8>, x: i16)
    ensures
        final(out)@ == old(out)@ + i16_le(x),
{
    let u: i32 = if x >= 0 {
        x as i32
    } else {
        x as i32 + 0x10000
    };
    out.push((u % 256) as u8);
    out.push((u / 256) as u8);
}

impl Bno08xRvcRawFrame {
    /// The frame as it stands on the wire: sync marker, then body.
    pub fn to_wire(&self) -> (r: Vec<u8>)
        ensures
            r@ == wire_of(*self),
    {
        let mut out: Vec<u8> = Vec::new();
        out.push(SYNC_BYTE);
        out.push(SYNC_BYTE);
        out.push(self.index);
        push_i16_le(&mut out, self.yaw);
        push_i16_le(&mut out, self.pitch);
        push_i16_le(&mut out, self.roll);
        push_i16_le(&mut out, self.x_acc);
        push_i16_le(&mut out, self.y_acc);
        push_i16_le(&mut out, self.z_acc);
        out.push(self.motion_intent);
        out.push(self.motion_request);
        out.push(self.rsvd);
        out.push(self.csum);
        assert(out@ =~= wire_of(*self));
        out
    }
}

/// Sum of the first sixteen bytes of `body`, modulo 256.
pub fn checksum(body: &[u8]) -> (r: u8)
    requires
        body@.len() == BODY_SIZE,
    ensures
        r == checksum_of(body@),
{
    let mut sum: u32 = 0;
    let mut i: usize = 0;
    while i < SUMMED_SIZE
        invariant
            body@.len() == BODY_SIZE,
            i <= SUMMED_SIZE,
            sum == byte_sum(body@.subrange(0, i as int)),
            sum <= 255 * i,
        decreases SUMMED_SIZE - i,
    {
        assert(body@.subrange(0, i + 1).drop_last() =~= body@.subrange(0, i as int));
        sum = sum + body[i] as u32;
        i = i + 1;
    }
    (sum % 256) as u8
}

} // verus!
