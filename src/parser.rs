//! The decoder: finds frames in the queued bytes and keeps the latest valid one.
use bbqueue::{Consumer, Error as BbqFault};
use postcard::Error as DecodeFault;
use vstd::prelude::*;

use crate::{Error, BUFFER_SIZE};
use crate::queue::{grant_bufs, release, split_read};
use crate::wire::{
    checksum, found_frame, frame_of, lemma_scan_keeps_candidate, scan, Scan, BODY_SIZE, SYNC_BYTE,
};

verus! {

/// postcard's decoding error, carried through opaque.
#[verifier::external_type_specification]
#[verifier::external_body]
pub struct ExPostcardError(DecodeFault);

/// One RVC report as it stands on the wire, sync marker left out.
#[derive(Debug, Clone, Copy, PartialEq, Eq, Structural)]
pub struct Bno08xRvcRawFrame {
    /// A count that goes up by one with each report (0-255).
    pub index: u8,
    /// Rotation around the Z axis, in hundredths of a degree.
    pub yaw: i16,
    /// Rotation around the Y axis, in hundredths of a degree.
    pub pitch: i16,
    /// Rotation around the X axis, in hundredths of a degree.
    pub roll: i16,
    /// Acceleration along the X axis, in thousandths of g.
    pub x_acc: i16,
    /// Acceleration along the Y axis, in thousandths of g.
    pub y_acc: i16,
    /// Acceleration along the Z axis, in thousandths of g.
    pub z_acc: i16,
    /// Motion intent (BNO086 only; reserved otherwise).
    pub motion_intent: u8,
    /// Motion request (BNO086 only; reserved otherwise).
    pub motion_request: u8,
    /// Reserved, currently zero.
    pub rsvd: u8,
    /// Sum modulo 256 of the sixteen body bytes before it.
    pub csum: u8,
}

/// Where the scan of a view stands.
#[derive(PartialEq, Eq, Structural)]
enum State {
    LookingForFirstHeaderByte,
    LookingForSecondHeaderByte,
    GetFrameData,
    GotFrame,
}

/// Decoder state held between polls.
pub struct Parser {
    consumer: Consumer<'static, BUFFER_SIZE>,
    last_frame: Option<Bno08xRvcRawFrame>,
    state: State,
}

/// The error that a failed read of the queue stands for.
pub open spec fn read_error(e: BbqFault) -> Error {
    match e {
        BbqFault::InsufficientSize => Error::QueueEmpty,
        _ => Error::BbqError(e),
    }
}

fn map_read_error(e: BbqFault) -> (r: Error)
    ensures
        r == read_error(e),
{
    match e {
        BbqFault::InsufficientSize => Error::QueueEmpty,
        _ => Error::BbqError(e),
    }
}

/// The bytes of `first`, then those of `second`.
fn concat(first: &[u8], second: &[u8]) -> (r: Vec<u8>)
    ensures
        r@ == first@ + second@,
{
    let mut out: Vec<u8> = Vec::new();
    let mut i: usize = 0;
    while i < first.len()
        invariant
            i <= first@.len(),
            out@ == first@.subrange(0, i as int),
        decreases first@.len() - i,
    {
        out.push(first[i]);
        i = i + 1;
        assert(out@ =~= first@.subrange(0, i as int));
    }
    let mut j: usize = 0;
    while j < second.len()
        invariant
            j <= second@.len(),
            out@ == first@ + second@.subrange(0, j as int),
        decreases second@.len() - j,
    {
        out.push(second[j]);
        j = j + 1;
        assert(out@ =~= first@ + second@.subrange(0, j as int));
    }
    assert(second@.subrange(0, second@.len() as int) =~= second@);
    out
}

impl Parser {
    /// The latest frame that passed its checksum, if any.
    pub closed spec fn last(&self) -> Option<Bno08xRvcRawFrame> {
        self.last_frame
    }

    /// A decoder that reads through `consumer` and has seen no frame yet.
    pub fn new(consumer: Consumer<'static, BUFFER_SIZE>) -> (r: Parser)
        ensures
            r.last() is None,
    {
        Parser { consumer, last_frame: None, state: State::LookingForFirstHeaderByte }
    }

    /// The latest frame that passed its checksum, if any.
    pub fn get_last_raw_frame(&self) -> (r: Option<Bno08xRvcRawFrame>)
        ensures
            r == self.last(),
    {
        self.last_frame
    }

    /// Decodes what the queue holds: takes the whole run of queued bytes as one
    /// view, scans it with [`Parser::parse`], retires what the scan released, and
    /// hands a frame that passed its checksum to `on_frame` before returning.
    /// Fails with `QueueEmpty` when no bytes are queued.
    pub fn worker<F: FnMut(&Bno08xRvcRawFrame)>(&mut self, mut on_frame: F) -> (r: Result<(), Error>)
        requires
            forall|fr: &Bno08xRvcRawFrame| call_requires(on_frame, (fr,)),
        ensures
            r matches Err(e) ==> final(self).last() == old(self).last() && (e == Error::QueueEmpty
                || e is BbqError),
            r is Ok ==> exists|v: Seq<u8>|
                #![trigger found_frame(v)]
                1 <= v.len() <= BUFFER_SIZE && final(self).last() == (if found_frame(v) is Some {
                    found_frame(v)
                } else {
                    old(self).last()
                }),
    {
        match split_read(&mut self.consumer) {
            Err(e) => Err(map_read_error(e)),
            Ok(rgr) => {
                let (s1, s2) = grant_bufs(&rgr);
                let view = concat(s1, s2);
                let (frame_option, release_size) = self.parse(view.as_slice());
                proof {
                    lemma_scan_keeps_candidate(view@);
                }
                release(rgr, release_size);
                match frame_option {
                    None => Ok(()),
                    Some(frame) => {
                        on_frame(&frame);
                        Ok(())
                    },
                }
            },
        }
    }

    /// The bytes that the queue holds now, none of them retired.
    pub fn retained_bytes(&mut self) -> (r: Result<Vec<u8>, Error>)
        ensures
            final(self).last() == old(self).last(),
            r matches Ok(v) ==> 1 <= v@.len() <= BUFFER_SIZE,
            r matches Err(e) ==> e == Error::QueueEmpty || e is BbqError,
    {
        match split_read(&mut self.consumer) {
            Err(e) => Err(map_read_error(e)),
            Ok(rgr) => {
                let (s1, s2) = grant_bufs(&rgr);
                let view = concat(s1, s2);
                release(rgr, 0);
                Ok(view)
            },
        }
    }

    /// Scans one view of the queued bytes from its start. Returns the frame it
    /// surfaces, if a complete candidate passed its checksum, and how many bytes
    /// from the start of the view may be retired.
    pub fn parse(&mut self, raw_bytes: &[u8]) -> (r: (Option<Bno08xRvcRawFrame>, usize))
        ensures
            r.0 == found_frame(raw_bytes@),
            r.1 == scan(raw_bytes@).released(),
            final(self).last() == (if r.0 is Some {
                r.0
            } else {
                old(self).last()
            }),
    {
        let ghost v = raw_bytes@;
        let ghost last0 = self.last_frame;
        let len = raw_bytes.len();
        let mut release_size: usize = 0;
        let mut found: Option<Bno08xRvcRawFrame> = None;
        let mut idx: usize = 0;
        self.state = State::LookingForFirstHeaderByte;
        assert(v.subrange(0, len as int) =~= v);
        assert(scan(v).shifted(0) == scan(v));
        while idx < len
            invariant_except_break
                self.state != State::GotFrame,
                self.state == State::LookingForFirstHeaderByte ==> idx == release_size,
                self.state == State::LookingForSecondHeaderByte ==> idx == release_size + 1
                    && v[release_size as int] == SYNC_BYTE,
                self.state == State::GetFrameData ==> idx == release_size + 2
                    && v[release_size as int] == SYNC_BYTE
                    && v[release_size + 1] == SYNC_BYTE,
                release_size <= idx,
                scan(v) == scan(v.subrange(release_size as int, len as int)).shifted(
                    release_size as nat,
                ),
            invariant
                v == raw_bytes@,
                len == v.len(),
                idx <= len,
                found is None,
                self.last_frame == last0,
            ensures
                BODY_SIZE <= release_size <= len || self.state != State::GotFrame,
                self.state == State::GotFrame ==> scan(v) == (Scan::Frame {
                    at: (release_size - BODY_SIZE) as nat,
                }),
                self.state != State::GotFrame ==> scan(v) == (Scan::NoFrame {
                    release: release_size as nat,
                }),
            decreases len - idx,
        {
            let ghost t = v.subrange(release_size as int, len as int);
            let b = raw_bytes[idx];
            match self.state {
                State::LookingForFirstHeaderByte => {
                    if b == SYNC_BYTE {
                        self.state = State::LookingForSecondHeaderByte;
                    } else {
                        assert(t.subrange(1, t.len() as int) =~= v.subrange(idx + 1, len as int));
                        release_size = idx + 1;
                    }
                },
                State::LookingForSecondHeaderByte => {
                    if b == SYNC_BYTE {
                        self.state = State::GetFrameData;
                    } else {
                        assert(t.subrange(2, t.len() as int) =~= v.subrange(idx + 1, len as int));
                        self.state = State::LookingForFirstHeaderByte;
                        release_size = idx + 1;
                    }
                },
                State::GetFrameData => {
                    if len - idx >= BODY_SIZE {
                        assert(scan(t) == (Scan::Frame { at: 2 }));
                        release_size = idx + BODY_SIZE;
                        self.state = State::GotFrame;
                    } else {
                        assert(scan(t) == (Scan::NoFrame { release: 0 }));
                        self.state = State::LookingForFirstHeaderByte;
                    }
                    break;
                },
                State::GotFrame => {},
            }
            idx = idx + 1;
        }
        if self.state == State::GotFrame {
            let body = &raw_bytes[release_size - BODY_SIZE..release_size];
            let csum = checksum(body);
            match frame_from_body(body) {
                Ok(frame_unchecked) => {
                    if csum == frame_unchecked.csum {
                        self.last_frame = Some(frame_unchecked);
                        found = Some(frame_unchecked);
                    }
                },
                Err(_) => {},
            }
        }
        self.state = State::LookingForFirstHeaderByte;
        (found, release_size)
    }
}

/// Relies on postcard's `from_bytes` (0.5): a tuple is read field after field,
/// a `u8` as one byte and an `i16` as two little-endian bytes; bytes after the
/// last field are left unread, and too short an input is an error.
#[verifier::external_body]
fn frame_from_body(body: &[u8]) -> (r: Result<Bno08xRvcRawFrame, DecodeFault>)
    ensures
        body@.len() >= BODY_SIZE ==> r is Ok && r->Ok_0 == frame_of(body@),
{
    let t: (u8, i16, i16, i16, i16, i16, i16, u8, u8, u8, u8) = postcard::from_bytes(body)?;
    Ok(Bno08xRvcRawFrame {
        index: t.0,
        yaw: t.1,
        pitch: t.2,
        roll: t.3,
        x_acc: t.4,
        y_acc: t.5,
        z_acc: t.6,
        motion_intent: t.7,
        motion_request: t.8,
        rsvd: t.9,
        csum: t.10,
    })
}

} // verus!
