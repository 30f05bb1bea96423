//! The write funnel: a bounded many-producer, one-consumer queue merging
//! client-submitted bytes into one stream for the serial link. Submissions
//! are never dropped: a full funnel pushes back on the submitting producer
//! instead. The consumer drains in first-in-first-out order, which keeps
//! every single producer's submissions in their original order.

use vstd::prelude::*;

verus! {

/// The merged stream restricted to one producer, in queue order.
pub open spec fn per_producer(q: Seq<(u64, Seq<u8>)>, p: u64) -> Seq<Seq<u8>>
    decreases q.len(),
{
    if q.len() == 0 {
        Seq::empty()
    } else {
        let tail = per_producer(q.drop_first(), p);
        if q.first().0 == p {
            seq![q.first().1] + tail
        } else {
            tail
        }
    }
}

/// Appending a submission of producer `p2` extends exactly `p2`'s restricted
/// stream, at its end, and leaves every other producer's stream alone.
pub proof fn lemma_per_producer_push(q: Seq<(u64, Seq<u8>)>, p: u64, p2: u64, d: Seq<u8>)
    ensures
        per_producer(q.push((p2, d)), p) == if p2 == p {
            per_producer(q, p).push(d)
        } else {
            per_producer(q, p)
        },
    decreases q.len(),
{
    let q2 = q.push((p2, d));
    if q.len() == 0 {
        assert(q2.len() == 1);
        assert(q2.first() == (p2, d));
        assert(q2.drop_first() =~= Seq::<(u64, Seq<u8>)>::empty());
        assert(per_producer(q2.drop_first(), p) == Seq::<Seq<u8>>::empty());
        assert(per_producer(q, p) == Seq::<Seq<u8>>::empty());
        if p2 == p {
            assert(per_producer(q2, p) == seq![d] + Seq::<Seq<u8>>::empty());
            assert(per_producer(q2, p) =~= per_producer(q, p).push(d));
        } else {
            assert(per_producer(q2, p) == Seq::<Seq<u8>>::empty());
        }
    } else {
        assert(q2.drop_first() =~= q.drop_first().push((p2, d)));
        lemma_per_producer_push(q.drop_first(), p, p2, d);
        if p2 == p {
            if q.first().0 == p {
                assert(per_producer(q2, p) =~= per_producer(q, p).push(d));
            }
        }
    }
}

/// A bounded multi-producer, single-consumer byte-chunk queue. Each queued
/// item remembers which producer submitted it, so the per-producer order is
/// part of the queue's own statement.
pub struct WriteFunnel {
    capacity: usize,
    items: Vec<(u64, Vec<u8>)>,
}

impl WriteFunnel {
    /// The merged stream: producer and bytes of every pending submission,
    /// oldest first.
    pub closed spec fn queue(&self) -> Seq<(u64, Seq<u8>)> {
        self.items@.map_values(|it: (u64, Vec<u8>)| (it.0, it.1@))
    }

    /// The bound the funnel was created with.
    pub closed spec fn spec_capacity(&self) -> nat {
        self.capacity as nat
    }

    /// A fresh, empty funnel with the given bound.
    pub fn new(capacity: usize) -> (f: WriteFunnel)
        requires
            capacity > 0,
        ensures
            f.queue() == Seq::<(u64, Seq<u8>)>::empty(),
            f.spec_capacity() == capacity,
    {
        let f = WriteFunnel { capacity, items: Vec::new() };
        proof {
            assert(f.queue() =~= Seq::<(u64, Seq<u8>)>::empty());
        }
        f
    }

    /// How many submissions are pending.
    pub fn len(&self) -> (n: usize)
        ensures
            n == self.queue().len(),
    {
        self.items.len()
    }

    /// One producer submits a chunk. A full funnel accepts nothing and
    /// changes nothing — the producer keeps the chunk and must try again,
    /// which is the backpressure that makes submission lossless; otherwise
    /// the chunk goes to the end of the merged stream.
    pub fn try_submit(&mut self, producer: u64, data: Vec<u8>) -> (accepted: bool)
        ensures
            accepted == (old(self).queue().len() < old(self).spec_capacity()),
            final(self).spec_capacity() == old(self).spec_capacity(),
            final(self).queue() == if accepted {
                old(self).queue().push((producer, data@))
            } else {
                old(self).queue()
            },
    {
        if self.items.len() < self.capacity {
            self.items.push((producer, data));
            proof {
                assert(self.queue() =~= old(self).queue().push((producer, data@)));
            }
            true
        } else {
            false
        }
    }

    /// The consumer takes the oldest pending submission, if any: plain
    /// first-in-first-out delivery.
    pub fn take_next(&mut self) -> (r: Option<Vec<u8>>)
        ensures
            final(self).spec_capacity() == old(self).spec_capacity(),
            old(self).queue().len() == 0 ==> r is None && final(self).queue() == old(self).queue(),
            old(self).queue().len() > 0 ==> final(self).queue() == old(self).queue().drop_first()
                && match r {
                Option::Some(d) => d@ == old(self).queue().first().1,
                Option::None => false,
            },
    {
        if self.items.len() > 0 {
            let (_, data) = self.items.remove(0);
            proof {
                assert(self.queue() =~= old(self).queue().drop_first());
            }
            Some(data)
        } else {
            None
        }
    }
}

/// Per-producer order is preserved: two submissions `a` then `b` accepted
/// from one producer stand in the merged stream in that order — the
/// producer's restricted stream ends `a`, then `b` — and every other
/// producer's restricted stream is untouched. Because delivery takes the
/// merged stream front-first, the consumer hands them to the device in the
/// order they were submitted.
pub proof fn law_per_producer_order(
    q: Seq<(u64, Seq<u8>)>,
    p: u64,
    other: u64,
    a: Seq<u8>,
    b: Seq<u8>,
)
    ensures
        per_producer(q.push((p, a)).push((p, b)), p) == per_producer(q, p).push(a).push(b),
        other != p ==> per_producer(q.push((p, a)).push((p, b)), other) == per_producer(q, other),
{
    lemma_per_producer_push(q, p, p, a);
    lemma_per_producer_push(q.push((p, a)), p, p, b);
    lemma_per_producer_push(q, other, p, a);
    lemma_per_producer_push(q.push((p, a)), other, p, b);
}

/// Front-first delivery serves each producer's stream in order: the next
/// chunk the consumer takes is, when it belongs to producer `p`, exactly
/// the head of `p`'s restricted stream, and the remaining queue carries the
/// rest of it.
pub proof fn law_delivery_keeps_order(q: Seq<(u64, Seq<u8>)>, p: u64)
    requires
        q.len() > 0,
    ensures
        q.first().0 == p ==> per_producer(q, p) == seq![q.first().1] + per_producer(
            q.drop_first(),
            p,
        ),
        q.first().0 != p ==> per_producer(q, p) == per_producer(q.drop_first(), p),
{
}

} // verus!
