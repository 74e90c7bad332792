//! Streaming decoder for the BNO08x "RVC" UART telemetry frames.
//!
//! A [`processor::Processor`] pushes raw bytes into a bounded byte queue, and a
//! [`parser::Parser`] pulls them out, finds the frame sync marker, checks each
//! frame and keeps the latest valid one.
use bbqueue::BBBuffer;
use vstd::prelude::*;

use crate::parser::Parser;
use crate::processor::Processor;

pub mod parser;
pub mod processor;
pub mod stream;
mod queue;
pub mod wire;

verus! {

/// Bytes in one frame on the wire, sync marker included.
pub const BNO08X_UART_RVC_FRAME_SIZE: usize = 19;

/// How many whole frames the queue can hold while the decoder lags behind.
pub const MAX_AMOUNT_OF_FRAMES: usize = 3;

/// Line rate of the sensor's RVC output.
pub const BNO08X_UART_RVC_BAUD_RATE: u32 = 115_200;

/// Total capacity of the byte queue between producer and decoder: room for
/// `MAX_AMOUNT_OF_FRAMES` whole frames. A single write longer than this fails
/// with `CapacityExceeded`.
pub const BUFFER_SIZE: usize = BNO08X_UART_RVC_FRAME_SIZE * MAX_AMOUNT_OF_FRAMES;

/// What producer and decoder report to their callers.
#[derive(Debug, Clone, Copy, PartialEq, Eq)]
pub enum Error {
    /// A single write is longer than the whole queue.
    CapacityExceeded,
    /// The queue has not enough free room for the write right now.
    QueueFull,
    /// There are no bytes to decode yet.
    QueueEmpty,
    /// Any other failure of the queue (a split made twice, a grant still held).
    BbqError(bbqueue::Error),
}

/// Splits the queue `bbuffer` into its producer and its decoder. A queue can be
/// split once; a second split fails with `BbqError(AlreadySplit)`.
pub fn create(bbuffer: &'static BBBuffer<BUFFER_SIZE>) -> (r: Result<(Processor, Parser), Error>)
    ensures
        r matches Ok((_, parser)) ==> parser.last() is None,
        r matches Err(e) ==> e == Error::BbqError(bbqueue::Error::AlreadySplit),
{
    match queue::try_split(bbuffer) {
        Ok((prod, cons)) => Ok((Processor::new(prod), Parser::new(cons))),
        Err(e) => Err(Error::BbqError(e)),
    }
}

} // verus!
