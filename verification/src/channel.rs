//! One direction of the pipeline: an unbounded FIFO message queue connecting
//! the control loop to the recognition worker.  `send` appends at the back
//! and never blocks; `try_receive` takes from the front or reports at once
//! that nothing is ready.  Messages are received in the order they were sent.
//!
//! Both endpoints live as long as the pipeline does, so sending always
//! succeeds here; a dropped receiving endpoint — the one send failure, taken
//! as a shutdown signal — can only arise in the threaded shell around the
//! pipeline, which owns the ends separately.

use vstd::prelude::*;

verus! {

/// An unbounded, unidirectional, non-blocking FIFO channel.
pub struct Channel<T> {
    pub items: Vec<T>,
}

impl<T> View for Channel<T> {
    type V = Seq<T>;

    open spec fn view(&self) -> Seq<T> {
        self.items@
    }
}

impl<T> Channel<T> {
    /// An empty channel.
    pub fn new() -> (c: Channel<T>)
        ensures
            c@ == Seq::<T>::empty(),
    {
        Channel { items: Vec::new() }
    }

    /// How many messages are queued.
    pub fn len(&self) -> (n: usize)
        ensures
            n == self@.len(),
    {
        self.items.len()
    }

    /// Whether no message is queued.
    pub fn is_empty(&self) -> (r: bool)
        ensures
            r == (self@.len() == 0),
    {
        self.items.len() == 0
    }

    /// Append a message at the back.  Never blocks and always succeeds.
    pub fn send(&mut self, m: T)
        ensures
            final(self)@ == old(self)@.push(m),
    {
        self.items.push(m);
    }

    /// Non-blocking receive: the oldest queued message, or `None` at once
    /// when nothing is ready.
    pub fn try_receive(&mut self) -> (r: Option<T>)
        ensures
            old(self)@.len() == 0 ==> r is None && final(self)@ == old(self)@,
            old(self)@.len() > 0 ==> r == Some(old(self)@.first()) && final(self)@ == old(
                self,
            )@.drop_first(),
    {
        if self.items.len() == 0 {
            None
        } else {
            let m = self.items.remove(0);
            proof {
                assert(self.items@ =~= old(self).items@.drop_first());
            }
            Some(m)
        }
    }
}

/// FIFO law: sending `t1` and then `t2` leaves every message already queued
/// where it was and appends `t1` and `t2` behind them, in that order.  Since
/// `try_receive` always yields the front of the queue, messages come out in
/// exactly the order they were sent in.
pub proof fn lemma_fifo_order<T>(s: Seq<T>, t1: T, t2: T)
    ensures
        s.push(t1).push(t2).len() == s.len() + 2,
        s.push(t1).push(t2)[s.len() as int] == t1,
        s.push(t1).push(t2)[s.len() as int + 1] == t2,
        forall|i: int| 0 <= i < s.len() ==> s.push(t1).push(t2)[i] == s[i],
{
}

/// Receipt order on an initially empty channel: after sending `t1` and then
/// `t2`, the first receive yields `t1`, the second yields `t2`, and the
/// channel is empty again — however long the receiver waits between polls.
pub proof fn lemma_fifo_receipt_order<T>(t1: T, t2: T)
    ensures
        Seq::<T>::empty().push(t1).push(t2).first() == t1,
        Seq::<T>::empty().push(t1).push(t2).drop_first().first() == t2,
        Seq::<T>::empty().push(t1).push(t2).drop_first().drop_first() == Seq::<T>::empty(),
{
    let sent = Seq::<T>::empty().push(t1).push(t2);
    assert(sent.drop_first() =~= Seq::<T>::empty().push(t2));
    assert(sent.drop_first().drop_first() =~= Seq::<T>::empty());
}

} // verus!
