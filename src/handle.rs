//! The stream handle: a producer paired with the sending end of its
//! cancellation channel. Polls pass straight through to the producer; the
//! sender leaves only when the handle itself goes, whichever way it goes, and
//! that is what the cleanup task observes.
use crate::source::{after, outcomes, Next, Producer};
use tokio::sync::oneshot::Sender;
use vstd::prelude::*;

verus! {

/// A producer of items that signals its cleanup task when it is discarded.
pub struct ClientDisconnect<T> {
    inner: T,
    tx: Sender<()>,
}

impl<T> ClientDisconnect<T> {
    /// The wrapped producer.
    pub closed spec fn inner_spec(&self) -> T {
        self.inner
    }

    /// The sending end of the cancellation channel.
    pub closed spec fn sender(&self) -> Sender<()> {
        self.tx
    }

    /// Wraps `inner`, to be polled exactly as it would be, with the sender
    /// whose end marks the handle's end.
    pub fn new(inner: T, tx: Sender<()>) -> (r: Self)
        ensures
            r.inner_spec() == inner,
            r.sender() == tx,
    {
        ClientDisconnect { inner, tx }
    }

    /// Takes the handle apart into its producer and its sender.
    pub fn into_parts(self) -> (r: (T, Sender<()>))
        ensures
            r.0 == self.inner_spec(),
            r.1 == self.sender(),
    {
        (self.inner, self.tx)
    }

    /// Borrows the wrapped producer; the sender stays where it is.
    pub fn inner_mut(&mut self) -> (r: &mut T)
        ensures
            *r == old(self).inner_spec(),
            final(self).inner_spec() == *final(r),
            final(self).sender() == old(self).sender(),
    {
        &mut self.inner
    }

    /// Discards the handle and fires the cancellation signal explicitly. A
    /// cleanup task that has already gone is no error: the signal is then
    /// simply not heard.
    pub fn close(self) {
        let _ = self.tx.send(());
    }
}

impl<T: Producer> Producer for ClientDisconnect<T> {
    type Item = T::Item;

    closed spec fn step(&self) -> (Next<T::Item>, Self) {
        (self.inner.step().0, ClientDisconnect { inner: self.inner.step().1, tx: self.tx })
    }

    fn poll_next(&mut self) -> (r: Next<T::Item>) {
        self.inner.poll_next()
    }
}

/// Any number of polls of a handle give exactly the outcomes that as many
/// polls of its producer would give, in the same order, with nothing added,
/// dropped or moved; the producer ends in the same state, and the
/// cancellation sender is untouched by all of them.
pub proof fn lemma_forwarding<T: Producer>(h: ClientDisconnect<T>, n: nat)
    ensures
        outcomes(h, n) == outcomes(h.inner_spec(), n),
        after(h, n).inner_spec() == after(h.inner_spec(), n),
        after(h, n).sender() == h.sender(),
    decreases n,
{
    if n > 0 {
        lemma_forwarding(h.step().1, (n - 1) as nat);
    }
}

} // verus!
