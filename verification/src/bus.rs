//! Fan-out bus: one producer, many consumers, bounded per-consumer
//! queues.
//!
//! `publish` is a plain total function — the producer never waits on a
//! consumer. A consumer whose queue is full loses its oldest buffered
//! chunk and its lag counter rises; within one consumer the order of
//! what remains always matches publish order, because every queue is
//! a contiguous suffix of the published history (see
//! [`Bus::lemma_queue_is_history_suffix`]).

use vstd::prelude::*;

verus! {

/// `a + b` clamped to `u64::MAX`.
pub open spec fn sat_add_u64(a: nat, b: nat) -> nat {
    if a + b > u64::MAX {
        u64::MAX as nat
    } else {
        a + b
    }
}

/// What one publish does to one consumer's queue: the chunk is
/// appended; if the queue was full the oldest buffered chunk falls out
/// first.
pub open spec fn spec_queue_after_publish(q: Seq<Seq<u8>>, chunk: Seq<u8>, cap: nat) -> Seq<
    Seq<u8>,
> {
    if q.len() < cap {
        q.push(chunk)
    } else {
        q.drop_first().push(chunk)
    }
}

/// What one publish does to one consumer's lag counter.
pub open spec fn spec_lag_after_publish(lag: nat, q_len: nat, cap: nat) -> nat {
    if q_len >= cap {
        sat_add_u64(lag, 1)
    } else {
        lag
    }
}

struct Subscription {
    id: u64,
    queue: Vec<Vec<u8>>,
    lagged: u64,
}

impl Subscription {
    spec fn qview(&self) -> Seq<Seq<u8>> {
        Seq::new(self.queue@.len(), |i: int| self.queue@[i]@)
    }
}

/// The bus: a set of subscriptions keyed by id, the per-consumer queue
/// bound, and (as ghost state) the full sequence of published chunks.
pub struct Bus {
    subs: Vec<Subscription>,
    capacity: usize,
    next_id: u64,
    history: Ghost<Seq<Seq<u8>>>,
}

impl Bus {
    /// Per-consumer queue bound.
    pub closed spec fn spec_capacity(&self) -> nat {
        self.capacity as nat
    }

    /// Every chunk ever published, in publish order.
    pub closed spec fn spec_history(&self) -> Seq<Seq<u8>> {
        self.history@
    }

    /// The ids of the current subscriptions, in subscription order.
    pub closed spec fn spec_ids(&self) -> Seq<u64> {
        Seq::new(self.subs@.len(), |i: int| self.subs@[i].id)
    }

    pub open spec fn spec_num_subs(&self) -> nat {
        self.spec_ids().len()
    }

    pub open spec fn spec_has(&self, id: u64) -> bool {
        self.spec_ids().contains(id)
    }

    /// Room is left in the id space.
    pub closed spec fn spec_can_subscribe(&self) -> bool {
        self.next_id < u64::MAX
    }

    spec fn spec_index_of(&self, id: u64) -> int {
        choose|i: int| 0 <= i < self.subs@.len() && self.subs@[i].id == id
    }

    /// The chunks buffered for consumer `id`, oldest first.
    pub closed spec fn spec_queue(&self, id: u64) -> Seq<Seq<u8>> {
        self.subs@[self.spec_index_of(id)].qview()
    }

    /// How many chunks consumer `id` has lost to lag.
    pub closed spec fn spec_lagged(&self, id: u64) -> nat {
        self.subs@[self.spec_index_of(id)].lagged as nat
    }

    spec fn sub_ok(&self, i: int) -> bool {
        &&& self.subs@[i].qview().len() <= self.capacity
        &&& self.subs@[i].qview().len() <= self.history@.len()
        &&& self.subs@[i].qview() == self.history@.subrange(
            self.history@.len() - self.subs@[i].qview().len(),
            self.history@.len() as int,
        )
    }

    pub closed spec fn wf(&self) -> bool {
        &&& self.capacity >= 1
        &&& forall|i: int, j: int|
            0 <= i < j < self.subs@.len() ==> self.subs@[i].id != self.subs@[j].id
        &&& forall|i: int|
            0 <= i < self.subs@.len() ==> (#[trigger] self.subs@[i].id) < self.next_id
        &&& forall|i: int| 0 <= i < self.subs@.len() ==> #[trigger] self.sub_ok(i)
    }

    proof fn lemma_index_of_unique(&self, i: int, id: u64)
        requires
            self.wf(),
            0 <= i < self.subs@.len(),
            self.subs@[i].id == id,
        ensures
            self.spec_index_of(id) == i,
            self.spec_has(id),
    {
        assert(self.spec_ids()[i] == id);
        let j = self.spec_index_of(id);
        assert(0 <= j < self.subs@.len() && self.subs@[j].id == id) by {
            assert(0 <= i < self.subs@.len() && self.subs@[i].id == id);
        }
        if i != j {
            assert(false);
        }
    }

    proof fn lemma_has_index(&self, id: u64)
        requires
            self.wf(),
            self.spec_has(id),
        ensures
            0 <= self.spec_index_of(id) < self.subs@.len(),
            self.subs@[self.spec_index_of(id)].id == id,
    {
        let k = choose|k: int| 0 <= k < self.spec_ids().len() && self.spec_ids()[k] == id;
        assert(self.subs@[k].id == id);
        self.lemma_index_of_unique(k, id);
    }

    /// Every consumer's buffer is a contiguous suffix of the published
    /// history: buffered chunks are never reordered, and anything
    /// missing was dropped from the front (oldest) end.
    pub proof fn lemma_queue_is_history_suffix(&self, id: u64)
        requires
            self.wf(),
            self.spec_has(id),
        ensures
            self.spec_queue(id).len() <= self.spec_capacity(),
            self.spec_queue(id).len() <= self.spec_history().len(),
            self.spec_queue(id) == self.spec_history().subrange(
                self.spec_history().len() - self.spec_queue(id).len(),
                self.spec_history().len() as int,
            ),
    {
        self.lemma_has_index(id);
        assert(self.sub_ok(self.spec_index_of(id)));
    }

    pub fn new(capacity: usize) -> (b: Bus)
        requires
            capacity >= 1,
        ensures
            b.wf(),
            b.spec_capacity() == capacity,
            b.spec_history() == Seq::<Seq<u8>>::empty(),
            b.spec_ids() == Seq::<u64>::empty(),
            b.spec_can_subscribe(),
    {
        let b = Bus { subs: Vec::new(), capacity, next_id: 0, history: Ghost(Seq::empty()) };
        proof {
            assert(b.spec_ids() =~= Seq::<u64>::empty());
        }
        b
    }

    /// Adds a consumer with an empty queue and returns its id.
    pub fn subscribe(&mut self) -> (id: u64)
        requires
            old(self).wf(),
            old(self).spec_can_subscribe(),
        ensures
            final(self).wf(),
            !old(self).spec_has(id),
            final(self).spec_has(id),
            final(self).spec_ids() == old(self).spec_ids().push(id),
            final(self).spec_num_subs() == old(self).spec_num_subs() + 1,
            final(self).spec_queue(id) == Seq::<Seq<u8>>::empty(),
            final(self).spec_lagged(id) == 0,
            final(self).spec_history() == old(self).spec_history(),
            final(self).spec_capacity() == old(self).spec_capacity(),
            forall|other: u64|
                old(self).spec_has(other) ==> #[trigger] final(self).spec_has(other)
                    && final(self).spec_queue(other) == old(self).spec_queue(other)
                    && final(self).spec_lagged(other) == old(self).spec_lagged(other),
    {
        let id = self.next_id;
        self.next_id = self.next_id + 1;
        self.subs.push(Subscription { id, queue: Vec::new(), lagged: 0 });
        proof {
            let n = old(self).subs@.len() as int;
            assert(forall|k: int| 0 <= k < n ==> self.subs@[k] == old(self).subs@[k]);
            assert(self.subs@[n].qview() =~= Seq::<Seq<u8>>::empty());
            assert(self.subs@[n].qview() =~= self.history@.subrange(
                self.history@.len() as int,
                self.history@.len() as int,
            ));
            assert(self.sub_ok(n));
            assert forall|k: int| 0 <= k < self.subs@.len() implies #[trigger] self.sub_ok(
                k,
            ) by {
                if k < n {
                    assert(old(self).sub_ok(k));
                }
            }
            assert(self.wf());
            assert(final(self).spec_ids() =~= old(self).spec_ids().push(id));
            if old(self).spec_has(id) {
                old(self).lemma_has_index(id);
                assert(false);
            }
            self.lemma_index_of_unique(n, id);
            assert forall|other: u64| old(self).spec_has(other) implies #[trigger] final(self).spec_has(other) && final(self).spec_queue(other) == old(self).spec_queue(other)
                && final(self).spec_lagged(other) == old(self).spec_lagged(other) by {
                old(self).lemma_has_index(other);
                let i = old(self).spec_index_of(other);
                assert(self.subs@[i].id == other);
                self.lemma_index_of_unique(i, other);
            }
        }
        id
    }

    fn find_index(&self, id: u64) -> (i: usize)
        requires
            self.wf(),
            self.spec_has(id),
        ensures
            0 <= i < self.subs@.len(),
            self.subs@[i as int].id == id,
            i as int == self.spec_index_of(id),
    {
        let mut i: usize = 0;
        let n = self.subs.len();
        loop
            invariant
                0 <= i <= n,
                n == self.subs@.len(),
                self.wf(),
                self.spec_has(id),
                self.spec_index_of(id) >= i,
            ensures
                0 <= i < self.subs@.len(),
                self.subs@[i as int].id == id,
            decreases n - i,
        {
            proof {
                self.lemma_has_index(id);
            }
            if self.subs[i].id == id {
                break;
            }
            i = i + 1;
        }
        proof {
            self.lemma_index_of_unique(i as int, id);
        }
        i
    }

    /// Removes consumer `id`; everything buffered for it is gone and
    /// every other consumer is untouched.
    pub fn unsubscribe(&mut self, id: u64)
        requires
            old(self).wf(),
            old(self).spec_has(id),
        ensures
            final(self).wf(),
            !final(self).spec_has(id),
            final(self).spec_num_subs() == old(self).spec_num_subs() - 1,
            final(self).spec_history() == old(self).spec_history(),
            final(self).spec_capacity() == old(self).spec_capacity(),
            forall|other: u64|
                other != id && old(self).spec_has(other) ==> #[trigger] final(self).spec_has(
                    other,
                ) && final(self).spec_queue(other) == old(self).spec_queue(other) && final(self).spec_lagged(other) == old(self).spec_lagged(other),
            forall|other: u64| !old(self).spec_has(other) ==> !final(self).spec_has(other),
    {
        let i = self.find_index(id);
        self.subs.remove(i);
        proof {
            let oldsubs = old(self).subs@;
            let n = oldsubs.len() as int;
            assert(forall|k: int| 0 <= k < i ==> self.subs@[k] == oldsubs[k]);
            assert(forall|k: int|
                i <= k < self.subs@.len() ==> self.subs@[k] == oldsubs[k + 1]);
            assert forall|k: int| 0 <= k < self.subs@.len() implies #[trigger] self.sub_ok(
                k,
            ) by {
                if k < i {
                    assert(old(self).sub_ok(k));
                } else {
                    assert(old(self).sub_ok(k + 1));
                }
            }
            assert(self.wf());
            if final(self).spec_has(id) {
                self.lemma_has_index(id);
                let j = self.spec_index_of(id);
                if j < i {
                    old(self).lemma_index_of_unique(j, id);
                } else {
                    old(self).lemma_index_of_unique(j + 1, id);
                }
                assert(false);
            }
            assert forall|other: u64| other != id && old(self).spec_has(other) implies
                #[trigger] final(self).spec_has(other) && final(self).spec_queue(other) == old(self).spec_queue(other) && final(self).spec_lagged(other) == old(self).spec_lagged(
                other,
            ) by {
                old(self).lemma_has_index(other);
                let j = old(self).spec_index_of(other);
                if j < i {
                    assert(self.subs@[j].id == other);
                    self.lemma_index_of_unique(j, other);
                } else {
                    assert(j > i);
                    assert(self.subs@[j - 1].id == other);
                    self.lemma_index_of_unique(j - 1, other);
                }
            }
            assert forall|other: u64| !old(self).spec_has(other) implies !final(self).spec_has(other) by {
                if final(self).spec_has(other) {
                    self.lemma_has_index(other);
                    let j = self.spec_index_of(other);
                    if j < i {
                        old(self).lemma_index_of_unique(j, other);
                    } else {
                        old(self).lemma_index_of_unique(j + 1, other);
                    }
                }
            }
        }
    }

    /// Fans one chunk out to every consumer. Never waits: a full queue
    /// drops its oldest chunk and counts one more lagged message for
    /// that consumer; nobody else is affected.
    pub fn publish(&mut self, chunk: &[u8])
        requires
            old(self).wf(),
        ensures
            final(self).wf(),
            final(self).spec_ids() == old(self).spec_ids(),
            final(self).spec_capacity() == old(self).spec_capacity(),
            final(self).spec_can_subscribe() == old(self).spec_can_subscribe(),
            final(self).spec_history() == old(self).spec_history().push(chunk@),
            forall|id: u64|
                old(self).spec_has(id) ==> #[trigger] final(self).spec_queue(id)
                    == spec_queue_after_publish(
                    old(self).spec_queue(id),
                    chunk@,
                    old(self).spec_capacity(),
                ) && final(self).spec_lagged(id) == spec_lag_after_publish(
                    old(self).spec_lagged(id),
                    old(self).spec_queue(id).len(),
                    old(self).spec_capacity(),
                ),
    {
        let ghost pre = *self;
        proof {
            self.history = Ghost(self.history@.push(chunk@));
        }
        let n = self.subs.len();
        let mut i: usize = 0;
        while i < n
            invariant
                0 <= i <= n,
                n == self.subs@.len(),
                n == pre.subs@.len(),
                self.capacity == pre.capacity,
                self.next_id == pre.next_id,
                pre.wf(),
                self.history@ == pre.history@.push(chunk@),
                forall|k: int| i <= k < n ==> self.subs@[k] == pre.subs@[k],
                forall|k: int|
                    0 <= k < i ==> (#[trigger] self.subs@[k].id) == pre.subs@[k].id
                        && self.subs@[k].qview() == spec_queue_after_publish(
                        pre.subs@[k].qview(),
                        chunk@,
                        pre.capacity as nat,
                    ) && self.subs@[k].lagged as nat == spec_lag_after_publish(
                        pre.subs@[k].lagged as nat,
                        pre.subs@[k].qview().len(),
                        pre.capacity as nat,
                    ),
            decreases n - i,
        {
            assert(self.subs@[i as int] == pre.subs@[i as int]);
            assert(pre.sub_ok(i as int));
            let ghost presub = pre.subs@[i as int];
            let mut sub = self.subs.remove(i);
            assert(sub == presub);
            if sub.queue.len() == self.capacity {
                sub.queue.remove(0);
                sub.lagged = sub.lagged.saturating_add(1);
                assert(sub.queue@ =~= presub.queue@.drop_first());
            }
            let copy = vstd::slice::slice_to_vec(chunk);
            sub.queue.push(copy);
            proof {
                if presub.qview().len() < pre.capacity {
                    assert(sub.queue@ =~= presub.queue@.push(sub.queue@.last()));
                    assert(sub.qview() =~= presub.qview().push(chunk@));
                } else {
                    assert(sub.qview() =~= presub.qview().drop_first().push(chunk@));
                }
                assert(sub.qview() == spec_queue_after_publish(
                    presub.qview(),
                    chunk@,
                    pre.capacity as nat,
                ));
            }
            self.subs.insert(i, sub);
            proof {
                assert(forall|k: int| i + 1 <= k < n ==> self.subs@[k] == pre.subs@[k]);
                assert(self.subs@[i as int] == sub);
            }
            i = i + 1;
        }
        proof {
            let fin = *self;
            assert(forall|k: int|
                0 <= k < n ==> (#[trigger] fin.subs@[k].id) == pre.subs@[k].id);
            assert forall|k: int| 0 <= k < fin.subs@.len() implies #[trigger] fin.sub_ok(
                k,
            ) by {
                assert(fin.subs@[k].id == pre.subs@[k].id);
                assert(pre.sub_ok(k));
                let oldq = pre.subs@[k].qview();
                let newq = fin.subs@[k].qview();
                assert(newq == spec_queue_after_publish(oldq, chunk@, pre.capacity as nat));
                assert(newq =~= fin.history@.subrange(
                    fin.history@.len() - newq.len(),
                    fin.history@.len() as int,
                ));
            }
            assert(fin.wf());
            assert(fin.spec_ids() =~= pre.spec_ids());
            assert forall|id: u64| pre.spec_has(id) implies #[trigger] fin.spec_queue(id)
                == spec_queue_after_publish(
                pre.spec_queue(id),
                chunk@,
                pre.spec_capacity(),
            ) && fin.spec_lagged(id) == spec_lag_after_publish(
                pre.spec_lagged(id),
                pre.spec_queue(id).len(),
                pre.spec_capacity(),
            ) by {
                pre.lemma_has_index(id);
                let k = pre.spec_index_of(id);
                fin.lemma_index_of_unique(k, id);
            }
        }
    }

    /// Takes the oldest buffered chunk for consumer `id`, if any.
    pub fn recv(&mut self, id: u64) -> (r: Option<Vec<u8>>)
        requires
            old(self).wf(),
            old(self).spec_has(id),
        ensures
            final(self).wf(),
            final(self).spec_ids() == old(self).spec_ids(),
            final(self).spec_capacity() == old(self).spec_capacity(),
            final(self).spec_history() == old(self).spec_history(),
            final(self).spec_can_subscribe() == old(self).spec_can_subscribe(),
            final(self).spec_lagged(id) == old(self).spec_lagged(id),
            match r {
                None => old(self).spec_queue(id).len() == 0 && final(self).spec_queue(id)
                    == old(self).spec_queue(id),
                Some(m) => old(self).spec_queue(id).len() > 0 && m@ == old(self).spec_queue(
                    id,
                )[0] && final(self).spec_queue(id) == old(self).spec_queue(id).drop_first(),
            },
            forall|other: u64|
                other != id && old(self).spec_has(other) ==> #[trigger] final(self).spec_queue(
                    other,
                ) == old(self).spec_queue(other) && final(self).spec_lagged(other) == old(self).spec_lagged(other),
    {
        let i = self.find_index(id);
        let ghost presub = old(self).subs@[i as int];
        let mut sub = self.subs.remove(i);
        let r = if sub.queue.len() == 0 {
            assert(sub.qview() =~= presub.qview());
            None
        } else {
            let m = sub.queue.remove(0);
            assert(m == presub.queue@[0]);
            assert(m@ == presub.qview()[0]);
            assert(sub.qview() =~= presub.qview().drop_first());
            Some(m)
        };
        self.subs.insert(i, sub);
        proof {
            let fin = *self;
            let n = old(self).subs@.len() as int;
            assert(forall|k: int|
                0 <= k < n && k != i ==> fin.subs@[k] == old(self).subs@[k]);
            assert(fin.spec_ids() =~= old(self).spec_ids());
            assert forall|k: int| 0 <= k < fin.subs@.len() implies #[trigger] fin.sub_ok(
                k,
            ) by {
                assert(old(self).sub_ok(k));
                if k == i {
                    let newq = fin.subs@[k].qview();
                    assert(newq =~= fin.history@.subrange(
                        fin.history@.len() - newq.len(),
                        fin.history@.len() as int,
                    ));
                }
            }
            assert(fin.wf());
            fin.lemma_index_of_unique(i as int, id);
            old(self).lemma_index_of_unique(i as int, id);
            assert forall|other: u64| other != id && old(self).spec_has(other) implies
                #[trigger] fin.spec_queue(other) == old(self).spec_queue(other)
                && fin.spec_lagged(other) == old(self).spec_lagged(other) by {
                old(self).lemma_has_index(other);
                let k = old(self).spec_index_of(other);
                fin.lemma_index_of_unique(k, other);
            }
        }
        r
    }

    /// How many chunks consumer `id` has lost to lag.
    pub fn lag_count(&self, id: u64) -> (r: u64)
        requires
            self.wf(),
            self.spec_has(id),
        ensures
            r as nat == self.spec_lagged(id),
    {
        let i = self.find_index(id);
        self.subs[i].lagged
    }

    /// Whether consumer `id` is present.
    pub fn has(&self, id: u64) -> (r: bool)
        requires
            self.wf(),
        ensures
            r == self.spec_has(id),
    {
        let n = self.subs.len();
        let mut i: usize = 0;
        while i < n
            invariant
                0 <= i <= n,
                n == self.subs@.len(),
                self.wf(),
                forall|k: int| 0 <= k < i ==> self.subs@[k].id != id,
            decreases n - i,
        {
            if self.subs[i].id == id {
                proof {
                    self.lemma_index_of_unique(i as int, id);
                }
                return true;
            }
            i = i + 1;
        }
        proof {
            if self.spec_has(id) {
                self.lemma_has_index(id);
            }
        }
        false
    }

    /// Whether the id space still has room for a subscription.
    pub fn can_subscribe_now(&self) -> (r: bool)
        ensures
            r == self.spec_can_subscribe(),
    {
        self.next_id < u64::MAX
    }

    /// Current number of consumers.
    pub fn subscriber_count(&self) -> (n: usize)
        ensures
            n == self.spec_num_subs(),
    {
        self.subs.len()
    }
}

} // verus!
