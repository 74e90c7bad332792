//! The producer: appends raw byte slices to the queue, whole or not at all.
use bbqueue::{Error as BbqFault, Producer};
use vstd::prelude::*;

use crate::queue::write_all;
use crate::{Error, BUFFER_SIZE};

verus! {

/// The error that a refused write of a slice that fits the queue stands for.
pub open spec fn write_error(e: BbqFault) -> Error {
    match e {
        BbqFault::InsufficientSize => Error::QueueFull,
        _ => Error::BbqError(e),
    }
}

fn map_write_error(e: BbqFault) -> (r: Error)
    ensures
        r == write_error(e),
{
    match e {
        BbqFault::InsufficientSize => Error::QueueFull,
        _ => Error::BbqError(e),
    }
}

/// Write half of the queue.
pub struct Processor {
    producer: Producer<'static, BUFFER_SIZE>,
}

impl Processor {
    /// The write half of the queue that this producer writes through.
    pub closed spec fn producer(&self) -> Producer<'static, BUFFER_SIZE> {
        self.producer
    }

    /// A producer that writes through `producer`; nothing is written yet.
    pub fn new(producer: Producer<'static, BUFFER_SIZE>) -> (r: Processor)
        ensures
            r.producer() == producer,
    {
        Processor { producer }
    }

    /// Appends all of `slice` to the queue, or nothing. A slice longer than the
    /// whole queue fails with `CapacityExceeded` and leaves the queue as it was;
    /// one that fits but finds too little free room fails with `QueueFull`.
    pub fn process_slice(&mut self, slice: &[u8]) -> (r: Result<(), Error>)
        ensures
            r == Err::<(), Error>(Error::CapacityExceeded) <==> slice@.len() > BUFFER_SIZE,
            slice@.len() > BUFFER_SIZE ==> *final(self) == *old(self),
            r matches Err(e) ==> e == Error::CapacityExceeded || e == Error::QueueFull
                || e is BbqError,
    {
        if slice.len() > BUFFER_SIZE {
            return Err(Error::CapacityExceeded);
        }
        match write_all(&mut self.producer, slice) {
            Ok(()) => Ok(()),
            Err(e) => Err(map_write_error(e)),
        }
    }
}

} // verus!
