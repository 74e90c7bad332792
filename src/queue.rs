//! The outside byte queue (bbqueue), as the library relies on it.
use bbqueue::{BBBuffer, Consumer, Error as BbqFault, Producer, SplitGrantR};
use vstd::prelude::*;

use crate::BUFFER_SIZE;

verus! {

/// bbqueue's error; its variants are told apart in verified code.
#[verifier::external_type_specification]
pub struct ExBbqFault(BbqFault);

/// The queue's backing storage, opaque.
#[verifier::external_type_specification]
#[verifier::external_body]
pub struct ExBBBuffer<const N: usize>(BBBuffer<N>);

/// The queue's write half, opaque.
#[verifier::external_type_specification]
#[verifier::external_body]
pub struct ExProducer<'a, const N: usize>(Producer<'a, N>);

/// The queue's read half, opaque.
#[verifier::external_type_specification]
#[verifier::external_body]
pub struct ExConsumer<'a, const N: usize>(Consumer<'a, N>);

/// A read grant over the committed bytes, opaque; what it holds is
/// `granted_bytes`.
#[verifier::external_type_specification]
#[verifier::external_body]
pub struct ExSplitGrantR<'a, const N: usize>(SplitGrantR<'a, N>);

/// The bytes that a read grant lets the decoder see, first region then second.
pub uninterp spec fn granted_bytes(g: SplitGrantR<'static, BUFFER_SIZE>) -> Seq<u8>;

/// Relies on bbqueue's `BBBuffer::try_split`: hands out the two halves of the
/// queue once, and `AlreadySplit` after that; that is the one error it returns.
#[verifier::external_body]
pub(crate) fn try_split(
    b: &'static BBBuffer<BUFFER_SIZE>,
) -> (r: Result<(Producer<'static, BUFFER_SIZE>, Consumer<'static, BUFFER_SIZE>), BbqFault>)
    ensures
        r matches Err(e) ==> e == BbqFault::AlreadySplit,
{
    b.try_split()
}

/// Relies on bbqueue's `Producer::grant_exact`, `GrantW::buf` and
/// `GrantW::commit`, the queue's one way to write: a grant of exactly
/// `bytes.len()` bytes is filled and committed whole, or the grant is refused and
/// nothing is written.
#[verifier::external_body]
pub(crate) fn write_all(p: &mut Producer<'static, BUFFER_SIZE>, bytes: &[u8]) -> (r: Result<(), BbqFault>)
{
    let mut grant = p.grant_exact(bytes.len())?;
    grant.buf().copy_from_slice(bytes);
    grant.commit(bytes.len());
    Ok(())
}

/// Relies on bbqueue's `Consumer::split_read`: a grant over all committed bytes,
/// or `InsufficientSize` when there are none.
#[verifier::external_body]
pub(crate) fn split_read(
    c: &mut Consumer<'static, BUFFER_SIZE>,
) -> (r: Result<SplitGrantR<'static, BUFFER_SIZE>, BbqFault>)
    ensures
        r matches Ok(g) ==> 1 <= granted_bytes(g).len() <= BUFFER_SIZE,
{
    c.split_read()
}

/// Relies on bbqueue's `SplitGrantR::bufs`: the two regions of the grant, whose
/// concatenation is what the grant holds.
#[verifier::external_body]
pub(crate) fn grant_bufs<'g>(g: &'g SplitGrantR<'static, BUFFER_SIZE>) -> (r: (&'g [u8], &'g [u8]))
    ensures
        r.0@ + r.1@ == granted_bytes(*g),
{
    g.bufs()
}

/// Relies on bbqueue's `SplitGrantR::release`: retires the first `used` bytes of
/// the grant from the queue.
#[verifier::external_body]
pub(crate) fn release(g: SplitGrantR<'static, BUFFER_SIZE>, used: usize)
    requires
        used <= granted_bytes(g).len(),
{
    g.release(used)
}

} // verus!
