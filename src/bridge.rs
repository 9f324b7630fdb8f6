//! The output bridge: a byte sink for a renderer that writes synchronously,
//! handing each flushed batch, whole and in order, to a queue that a separate task
//! drains onto the network.
use vstd::prelude::*;

use tokio::sync::mpsc::error::SendError;
use tokio::sync::mpsc::UnboundedSender;

verus! {

/// tokio's sending half of an unbounded channel, carried opaque.
#[verifier::external_type_specification]
#[verifier::external_body]
#[verifier::reject_recursive_types(T)]
pub struct ExUnboundedSender<T>(UnboundedSender<T>);

/// tokio's error for a send to a closed channel, carried opaque.
#[verifier::external_type_specification]
#[verifier::external_body]
#[verifier::reject_recursive_types(T)]
pub struct ExSendError<T>(SendError<T>);

/// Relies on tokio's `UnboundedSender::send`: it never waits, and fails only when
/// the receiving half has been closed or dropped.
pub assume_specification<T>[ UnboundedSender::<T>::send ](
    s: &UnboundedSender<T>,
    message: T,
) -> Result<(), SendError<T>>;

/// Why a flush failed.
#[derive(PartialEq, Eq, Structural, Clone, Copy, Debug)]
pub enum BridgeError {
    /// The task that writes to the network has stopped.
    Closed,
}

/// The state of a bridge: bytes written since the last flush, and the batches
/// handed to the queue so far, oldest first.
pub struct BridgeModel {
    pub pending: Seq<u8>,
    pub flushed: Seq<Seq<u8>>,
}

pub open spec fn write_step(m: BridgeModel, bytes: Seq<u8>) -> BridgeModel {
    BridgeModel { pending: m.pending + bytes, ..m }
}

pub open spec fn flush_step(m: BridgeModel) -> BridgeModel {
    BridgeModel { pending: Seq::empty(), flushed: m.flushed.push(m.pending) }
}

/// A write of each payload followed by a successful flush, payload after payload.
pub open spec fn write_flush_each(m: BridgeModel, payloads: Seq<Seq<u8>>) -> BridgeModel
    decreases payloads.len(),
{
    if payloads.len() == 0 {
        m
    } else {
        flush_step(write_step(write_flush_each(m, payloads.drop_last()), payloads.last()))
    }
}

/// Byte sink in front of the delivery queue.
pub struct TerminalHandle {
    sender: UnboundedSender<Vec<u8>>,
    sink: Vec<u8>,
    flushed: Ghost<Seq<Seq<u8>>>,
}

impl TerminalHandle {
    pub closed spec fn model(&self) -> BridgeModel {
        BridgeModel { pending: self.sink@, flushed: self.flushed@ }
    }

    /// A bridge feeding `sender`, with nothing written or flushed yet.
    pub fn new(sender: UnboundedSender<Vec<u8>>) -> (r: Self)
        ensures
            r.model() == (BridgeModel { pending: Seq::empty(), flushed: Seq::empty() }),
    {
        TerminalHandle { sender, sink: Vec::new(), flushed: Ghost(Seq::empty()) }
    }

    /// Appends `buf` to the pending bytes; always takes all of it.
    pub fn write(&mut self, buf: &[u8]) -> (r: usize)
        ensures
            r == buf@.len(),
            final(self).model() == write_step(old(self).model(), buf@),
    {
        self.sink.extend_from_slice(buf);
        assert(self.sink@ =~= old(self).sink@ + buf@);
        buf.len()
    }

    /// Hands all pending bytes to the queue as one batch behind those flushed
    /// before, and clears them. Fails, changing nothing, when the writing task has
    /// stopped.
    pub fn flush(&mut self) -> (r: Result<(), BridgeError>)
        ensures
            r is Ok ==> final(self).model() == flush_step(old(self).model()),
            r is Err ==> final(self).model() == old(self).model(),
    {
        let batch = self.sink.clone();
        assert(batch@ =~= self.sink@);
        match self.sender.send(batch) {
            Ok(()) => {
                self.flushed = Ghost(self.flushed@.push(self.sink@));
                self.sink.clear();
                Ok(())
            },
            Err(_) => Err(BridgeError::Closed),
        }
    }
}

/// Flushes keep their order: after a write and a successful flush of each payload
/// in turn, the batches handed to the queue are exactly those payloads, in that
/// order, after the earlier ones, and nothing stays pending.
pub proof fn lemma_flush_order(m: BridgeModel, payloads: Seq<Seq<u8>>)
    requires
        m.pending.len() == 0,
    ensures
        write_flush_each(m, payloads).flushed == m.flushed + payloads,
        write_flush_each(m, payloads).pending.len() == 0,
    decreases payloads.len(),
{
    if payloads.len() == 0 {
        assert(m.flushed + payloads =~= m.flushed);
    } else {
        let prev = write_flush_each(m, payloads.drop_last());
        lemma_flush_order(m, payloads.drop_last());
        assert(prev.pending + payloads.last() =~= payloads.last());
        assert(m.flushed + payloads =~= (m.flushed + payloads.drop_last()).push(payloads.last()));
    }
}

} // verus!
