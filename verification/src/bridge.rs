//! The bounded, ordered byte hand-off between the audio producer and the
//! voice-transmission consumer.
//!
//! The producer is event-driven and pushes; the consumer is a synchronous
//! read loop and pulls. The bridge is their sole meeting point: a FIFO of
//! fixed capacity whose two step operations each make whatever progress the
//! current fill level allows, so that the unverified shell can loop and wait
//! around them. Ghost fields record every byte ever pushed and ever pulled,
//! which lets whole-run ordering and backpressure be stated and proved.

use vstd::prelude::*;
use vstd::math::min;

verus! {

/// A bounded FIFO of bytes with one producer role and one consumer role.
pub struct ByteBridge {
    buf: Vec<u8>,
    capacity: usize,
    pushed: Ghost<Seq<u8>>,
    pulled: Ghost<Seq<u8>>,
}

impl View for ByteBridge {
    type V = Seq<u8>;

    /// The bytes currently buffered, oldest first.
    closed spec fn view(&self) -> Seq<u8> {
        self.buf@
    }
}

impl ByteBridge {
    /// The fixed capacity the bridge was created with.
    pub closed spec fn cap(self) -> nat {
        self.capacity as nat
    }

    /// Every byte pushed so far, in push order.
    pub closed spec fn pushed(self) -> Seq<u8> {
        self.pushed@
    }

    /// Every byte pulled so far, in pull order.
    pub closed spec fn pulled(self) -> Seq<u8> {
        self.pulled@
    }

    /// The bridge invariant: the bytes pulled so far, followed by the bytes
    /// still buffered, are exactly the bytes pushed so far; and the buffer
    /// never holds more than the capacity.
    pub open spec fn wf(self) -> bool {
        &&& self.pushed() == self.pulled() + self@
        &&& self@.len() <= self.cap()
        &&& self.cap() >= 1
    }

    /// A fresh, empty bridge of the given capacity.
    pub fn new(capacity: usize) -> (b: ByteBridge)
        requires
            1 <= capacity,
        ensures
            b.wf(),
            b.cap() == capacity,
            b@ == Seq::<u8>::empty(),
            b.pushed() == Seq::<u8>::empty(),
            b.pulled() == Seq::<u8>::empty(),
    {
        let b = ByteBridge {
            buf: Vec::new(),
            capacity,
            pushed: Ghost(Seq::empty()),
            pulled: Ghost(Seq::empty()),
        };
        proof {
            assert(b.pushed() =~= b.pulled() + b@);
        }
        b
    }

    /// The number of bytes currently buffered.
    pub fn len(&self) -> (n: usize)
        ensures
            n == self@.len(),
    {
        self.buf.len()
    }

    /// The fixed capacity.
    pub fn capacity(&self) -> (c: usize)
        ensures
            c == self.cap(),
    {
        self.capacity
    }

    /// One producer step: appends as many of `bytes[start..]` as fit, in
    /// order, and reports how many were taken. On a full bridge it takes
    /// nothing and changes nothing — the producer must wait for a pull to
    /// free space before offering the rest again.
    pub fn push_available(&mut self, bytes: &Vec<u8>, start: usize) -> (n: usize)
        requires
            old(self).wf(),
            start <= bytes@.len(),
        ensures
            final(self).wf(),
            final(self).cap() == old(self).cap(),
            final(self).pulled() == old(self).pulled(),
            n == min(bytes@.len() - start, old(self).cap() - old(self)@.len()),
            final(self)@ == old(self)@ + bytes@.subrange(start as int, start as int + n),
            final(self).pushed() == old(self).pushed() + bytes@.subrange(
                start as int,
                start as int + n,
            ),
    {
        let room: usize = self.capacity - self.buf.len();
        let offered: usize = bytes.len() - start;
        let n: usize = if offered <= room {
            offered
        } else {
            room
        };
        let ghost buf0 = self.buf@;
        let end: usize = start + n;
        let mut k: usize = start;
        while k < end
            invariant
                start <= k <= end,
                end == start + n,
                end <= bytes@.len(),
                self.buf@.len() + end - k <= self.capacity,
                self.buf@ == buf0 + bytes@.subrange(start as int, k as int),
                self.capacity == old(self).capacity,
                self.pushed == old(self).pushed,
                self.pulled == old(self).pulled,
            decreases end - k,
        {
            self.buf.push(bytes[k]);
            proof {
                assert(self.buf@ =~= buf0 + bytes@.subrange(start as int, k as int + 1));
            }
            k += 1;
        }
        proof {
            self.pushed@ = self.pushed@ + bytes@.subrange(start as int, start as int + n as int);
            assert(self.pushed() =~= self.pulled() + self@);
        }
        n
    }

    /// One consumer step: removes and returns the oldest `min(want, len)`
    /// bytes, in push order. On an empty bridge it returns nothing and
    /// changes nothing — the consumer must wait for a push to supply bytes
    /// before asking again.
    pub fn pull_available(&mut self, want: usize) -> (r: Vec<u8>)
        requires
            old(self).wf(),
        ensures
            final(self).wf(),
            final(self).cap() == old(self).cap(),
            final(self).pushed() == old(self).pushed(),
            r@.len() == min(want as int, old(self)@.len() as int),
            r@ == old(self)@.take(r@.len() as int),
            final(self)@ == old(self)@.skip(r@.len() as int),
            final(self).pulled() == old(self).pulled() + r@,
    {
        let n: usize = if want <= self.buf.len() {
            want
        } else {
            self.buf.len()
        };
        let mut head = self.buf.split_off(n);
        core::mem::swap(&mut self.buf, &mut head);
        proof {
            self.pulled@ = self.pulled@ + head@;
            assert(head@ =~= old(self)@.take(n as int));
            assert(self.buf@ =~= old(self)@.skip(n as int));
            assert(self.pushed() =~= self.pulled() + self@);
        }
        head
    }
}

/// Backpressure: in every well-formed state, at most `cap` unpulled bytes
/// exist — the count of bytes pushed never runs ahead of the count pulled by
/// more than the capacity. Together with the step contracts (a full bridge
/// accepts nothing, an empty bridge yields nothing) this bounds the memory
/// between the two schedules.
pub proof fn lemma_backpressure(b: ByteBridge)
    requires
        b.wf(),
    ensures
        b.pushed().len() - b.pulled().len() <= b.cap(),
        b.pushed().len() >= b.pulled().len(),
{
}

/// Order preservation: in every well-formed state the consumer has received
/// exactly a prefix of what the producer pushed, in push order; what is still
/// buffered is exactly the rest.
pub proof fn lemma_order_preservation(b: ByteBridge)
    requires
        b.wf(),
    ensures
        b.pulled() + b@ == b.pushed(),
        b.pulled() == b.pushed().take(b.pulled().len() as int),
{
    assert(b.pulled() =~= (b.pulled() + b@).take(b.pulled().len() as int));
}

} // verus!
