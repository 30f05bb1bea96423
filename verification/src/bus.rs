//! The fan-out bus: a broadcast channel that duplicates every chunk the
//! serial link reads to every current subscriber. Publishing never waits
//! for anyone: each subscriber has its own bounded queue, and when that
//! queue is full the oldest unread chunk is discarded and counted, so a
//! slow consumer degrades to a gap in its own stream instead of stalling
//! the device reader or its peers. A subscription carries no history: it
//! starts empty and sees only what is published after it.

use vstd::prelude::*;

verus! {

/// A subscriber's retained queue after one publish: the chunk goes to the
/// end; a full queue first gives up its oldest retained chunk.
pub open spec fn pub_queue(q: Seq<Seq<u8>>, cap: nat, chunk: Seq<u8>) -> Seq<Seq<u8>> {
    if q.len() >= cap && q.len() > 0 {
        q.drop_first().push(chunk)
    } else {
        q.push(chunk)
    }
}

/// A subscriber's gap count after one publish: it grows exactly when the
/// full queue lost its oldest chunk (and stops at the counter's limit).
pub open spec fn pub_missed(q: Seq<Seq<u8>>, cap: nat, missed: nat) -> nat {
    if q.len() < cap {
        missed
    } else if missed < u64::MAX {
        missed + 1
    } else {
        missed
    }
}

/// One subscriber's state: its retained chunks, oldest first, and how many
/// it has lost since it last received.
struct Subscription {
    queue: Vec<Vec<u8>>,
    missed: u64,
}

/// What one receive attempt yields. It always yields immediately: a
/// subscriber is never blocked by the bus.
#[derive(Clone, Debug)]
pub enum RecvOutcome {
    /// The oldest retained chunk.
    Chunk(Vec<u8>),
    /// This many chunks were lost since the last receive; delivery resumes
    /// with the oldest retained chunk.
    Gap(u64),
    /// Nothing retained right now; more may still be published.
    Pending,
    /// Nothing retained and the bus is closed: nothing will ever come.
    Closed,
}

/// The broadcast bus: per-subscriber bounded queues, one shared capacity,
/// and a closed flag raised when the serial link ends.
pub struct FanoutBus {
    capacity: usize,
    closed: bool,
    subs: Vec<Subscription>,
}

impl FanoutBus {
    /// The bound of every subscriber's queue.
    pub closed spec fn spec_capacity(&self) -> nat {
        self.capacity as nat
    }

    /// Whether the publishing side is gone.
    pub closed spec fn is_closed(&self) -> bool {
        self.closed
    }

    /// How many subscriptions were handed out.
    pub closed spec fn sub_count(&self) -> nat {
        self.subs@.len()
    }

    /// Subscriber `i`'s retained chunks, oldest first.
    pub closed spec fn sub_queue(&self, i: int) -> Seq<Seq<u8>> {
        self.subs@[i].queue@.map_values(|c: Vec<u8>| c@)
    }

    /// Subscriber `i`'s gap count.
    pub closed spec fn sub_missed(&self, i: int) -> nat {
        self.subs@[i].missed as nat
    }

    /// A fresh bus: open, no subscribers yet.
    pub fn new(capacity: usize) -> (b: FanoutBus)
        requires
            capacity > 0,
        ensures
            b.spec_capacity() == capacity,
            !b.is_closed(),
            b.sub_count() == 0,
    {
        FanoutBus { capacity, closed: false, subs: Vec::new() }
    }

    /// Hands out a new subscription. It starts with an empty queue and no
    /// gap: a subscriber only observes chunks published after this call.
    pub fn subscribe(&mut self) -> (sid: usize)
        ensures
            sid == old(self).sub_count(),
            final(self).sub_count() == old(self).sub_count() + 1,
            final(self).sub_queue(sid as int) == Seq::<Seq<u8>>::empty(),
            final(self).sub_missed(sid as int) == 0,
            final(self).spec_capacity() == old(self).spec_capacity(),
            final(self).is_closed() == old(self).is_closed(),
            forall|i: int|
                0 <= i < old(self).sub_count() ==> final(self).sub_queue(i) == old(self).sub_queue(
                    i,
                ) && final(self).sub_missed(i) == old(self).sub_missed(i),
    {
        let sid = self.subs.len();
        self.subs.push(Subscription { queue: Vec::new(), missed: 0 });
        proof {
            assert(self.sub_queue(sid as int) =~= Seq::<Seq<u8>>::empty());
        }
        sid
    }

    /// Publishes one chunk to every subscriber, without ever waiting: each
    /// subscriber's queue takes the chunk at its end, and a queue already
    /// full loses its oldest retained chunk and counts the gap.
    pub fn publish(&mut self, chunk: &[u8])
        ensures
            final(self).spec_capacity() == old(self).spec_capacity(),
            final(self).is_closed() == old(self).is_closed(),
            final(self).sub_count() == old(self).sub_count(),
            forall|i: int|
                0 <= i < old(self).sub_count() ==> final(self).sub_queue(i) == pub_queue(
                    old(self).sub_queue(i),
                    old(self).spec_capacity(),
                    chunk@,
                ) && final(self).sub_missed(i) == pub_missed(
                    old(self).sub_queue(i),
                    old(self).spec_capacity(),
                    old(self).sub_missed(i),
                ),
    {
        let n = self.subs.len();
        let mut k: usize = 0;
        while k < n
            invariant
                n == old(self).sub_count(),
                k <= n,
                self.capacity == old(self).capacity,
                self.closed == old(self).closed,
                self.subs@.len() == n,
                forall|i: int|
                    k <= i < n ==> self.sub_queue(i) == old(self).sub_queue(i) && self.sub_missed(
                        i,
                    ) == old(self).sub_missed(i),
                forall|i: int|
                    0 <= i < k ==> self.sub_queue(i) == pub_queue(
                        old(self).sub_queue(i),
                        old(self).spec_capacity(),
                        chunk@,
                    ) && self.sub_missed(i) == pub_missed(
                        old(self).sub_queue(i),
                        old(self).spec_capacity(),
                        old(self).sub_missed(i),
                    ),
            decreases n - k,
        {
            let mut copy: Vec<u8> = Vec::with_capacity(chunk.len());
            let mut j: usize = 0;
            while j < chunk.len()
                invariant
                    j <= chunk@.len(),
                    copy@ == chunk@.take(j as int),
                decreases chunk@.len() - j,
            {
                copy.push(chunk[j]);
                proof {
                    assert(copy@ =~= chunk@.take(j + 1 as int));
                }
                j += 1;
            }
            proof {
                assert(copy@ =~= chunk@);
            }
            let ghost bus0 = *self;
            let ghost before = self.subs@;
            let ghost q0 = self.subs@[k as int].queue@;
            let ghost copyv = copy@;
            let cap = self.capacity;
            let sub = &mut self.subs[k];
            let was_full = sub.queue.len() >= cap;
            if !was_full {
                sub.queue.push(copy);
            } else {
                if sub.queue.len() > 0 {
                    let _ = sub.queue.remove(0);
                }
                sub.queue.push(copy);
                if sub.missed < u64::MAX {
                    sub.missed = sub.missed + 1;
                }
            }
            proof {
                let f = |c: Vec<u8>| c@;
                let q1 = self.subs@[k as int].queue@;
                assert(q0.map_values(f) == old(self).sub_queue(k as int));
                if !was_full || q0.len() == 0 {
                    assert(q1 == q0.push(copy));
                    assert(q1.map_values(f) =~= q0.map_values(f).push(copyv));
                } else {
                    assert(q1 == q0.remove(0).push(copy));
                    assert(q0.remove(0) =~= q0.drop_first());
                    assert(q1 == q0.drop_first().push(copy));
                    assert(q1.len() == q0.len());
                    assert forall|i: int| 0 <= i < q1.len() implies #[trigger] q1.map_values(f)[i]
                        == q0.map_values(f).drop_first().push(copyv)[i] by {
                        if i < q1.len() - 1 {
                            assert(q1[i] == q0[i + 1]);
                        } else {
                            assert(q1[i] == copy);
                        }
                    }
                    assert(q1.map_values(f) =~= q0.map_values(f).drop_first().push(copyv));
                }
                assert(self.sub_queue(k as int) =~= pub_queue(
                    old(self).sub_queue(k as int),
                    old(self).spec_capacity(),
                    chunk@,
                ));
                assert(self.sub_missed(k as int) == pub_missed(
                    old(self).sub_queue(k as int),
                    old(self).spec_capacity(),
                    old(self).sub_missed(k as int),
                ));
                assert forall|i: int| 0 <= i < k + 1 implies self.sub_queue(i) == pub_queue(
                    old(self).sub_queue(i),
                    old(self).spec_capacity(),
                    chunk@,
                ) && self.sub_missed(i) == pub_missed(
                    old(self).sub_queue(i),
                    old(self).spec_capacity(),
                    old(self).sub_missed(i),
                ) by {
                    if i < k {
                        assert(bus0.sub_queue(i) == pub_queue(
                            old(self).sub_queue(i),
                            old(self).spec_capacity(),
                            chunk@,
                        ));
                        assert(self.subs@[i] == bus0.subs@[i]);
                        assert(self.sub_queue(i) == bus0.sub_queue(i));
                        assert(self.sub_missed(i) == bus0.sub_missed(i));
                    }
                }
                assert forall|i: int| k + 1 <= i < n implies self.sub_queue(i) == old(
                    self,
                ).sub_queue(i) && self.sub_missed(i) == old(self).sub_missed(i) by {
                    assert(bus0.sub_queue(i) == old(self).sub_queue(i));
                    assert(self.subs@[i] == bus0.subs@[i]);
                    assert(self.sub_queue(i) == bus0.sub_queue(i));
                    assert(self.sub_missed(i) == bus0.sub_missed(i));
                }
            }
            k += 1;
        }
    }

    /// One receive attempt by subscriber `sid`. It never waits: a pending
    /// gap is reported first (and reset, so delivery resumes), then the
    /// oldest retained chunk, and only an empty queue on a closed bus says
    /// that nothing will ever come.
    pub fn receive(&mut self, sid: usize) -> (r: RecvOutcome)
        requires
            sid < old(self).sub_count(),
        ensures
            final(self).spec_capacity() == old(self).spec_capacity(),
            final(self).is_closed() == old(self).is_closed(),
            final(self).sub_count() == old(self).sub_count(),
            forall|i: int|
                0 <= i < old(self).sub_count() && i != sid ==> final(self).sub_queue(i)
                    == old(self).sub_queue(i) && final(self).sub_missed(i)
                    == old(self).sub_missed(i),
            old(self).sub_missed(sid as int) > 0 ==> match r {
                RecvOutcome::Gap(n) => n == old(self).sub_missed(sid as int)
                    && final(self).sub_missed(sid as int) == 0
                    && final(self).sub_queue(sid as int) == old(self).sub_queue(sid as int),
                _ => false,
            },
            old(self).sub_missed(sid as int) == 0 && old(self).sub_queue(sid as int).len() > 0
                ==> match r {
                RecvOutcome::Chunk(c) => c@ == old(self).sub_queue(sid as int).first()
                    && final(self).sub_queue(sid as int) == old(self).sub_queue(
                    sid as int,
                ).drop_first() && final(self).sub_missed(sid as int) == 0,
                _ => false,
            },
            old(self).sub_missed(sid as int) == 0 && old(self).sub_queue(sid as int).len() == 0
                ==> final(self).sub_queue(sid as int) == old(self).sub_queue(sid as int)
                    && final(self).sub_missed(sid as int) == 0 && match r {
                RecvOutcome::Closed => old(self).is_closed(),
                RecvOutcome::Pending => !old(self).is_closed(),
                _ => false,
            },
    {
        let closed = self.closed;
        let sub = &mut self.subs[sid];
        if sub.missed > 0 {
            let n = sub.missed;
            sub.missed = 0;
            RecvOutcome::Gap(n)
        } else if sub.queue.len() > 0 {
            let c = sub.queue.remove(0);
            proof {
                assert(self.sub_queue(sid as int) =~= old(self).sub_queue(sid as int).drop_first());
            }
            RecvOutcome::Chunk(c)
        } else if closed {
            RecvOutcome::Closed
        } else {
            RecvOutcome::Pending
        }
    }

    /// Closes the bus: the serial link ended. Retained chunks stay readable;
    /// after them, every subscriber sees [`RecvOutcome::Closed`].
    pub fn close(&mut self)
        ensures
            final(self).is_closed(),
            final(self).spec_capacity() == old(self).spec_capacity(),
            final(self).sub_count() == old(self).sub_count(),
            forall|i: int|
                0 <= i < old(self).sub_count() ==> final(self).sub_queue(i) == old(self).sub_queue(
                    i,
                ) && final(self).sub_missed(i) == old(self).sub_missed(i),
    {
        self.closed = true;
    }
}

/// Every subscriber observes a published chunk or a gap, never silence:
/// after a publish the chunk stands at the end of the subscriber's retained
/// queue; a subscriber that was keeping up loses nothing and gains no gap,
/// and one lagging past capacity loses exactly its oldest retained chunk
/// and sees its gap count grow. Either way the retained queue is non-empty,
/// so the next receive yields a chunk or an explicit gap and the subscriber
/// resumes — it never stalls.
pub proof fn law_publish_reaches_every_subscriber(
    q: Seq<Seq<u8>>,
    cap: nat,
    missed: nat,
    chunk: Seq<u8>,
)
    requires
        cap > 0,
    ensures
        pub_queue(q, cap, chunk).len() > 0,
        pub_queue(q, cap, chunk).last() == chunk,
        q.len() < cap ==> pub_queue(q, cap, chunk) == q.push(chunk) && pub_missed(q, cap, missed)
            == missed,
        q.len() >= cap ==> pub_queue(q, cap, chunk) == q.drop_first().push(chunk) && (missed
            < u64::MAX ==> pub_missed(q, cap, missed) == missed + 1),
{
}

} // verus!
