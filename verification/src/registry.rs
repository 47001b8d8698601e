//! The connection registry (hub).
//!
//! The hub owns the set of live connections and their outbound
//! delivery queues, assigns unique connection ids, and supports
//! point-to-point delivery by id.  Delivery is fail-soft: a send to an
//! id that has already been unregistered silently drops the frame, so
//! a reply racing with a disconnect can never corrupt the registry or
//! reach another connection.
//!
//! The registry is a sequential value; callers that share it across
//! tasks wrap it in a lock outside the crate.  Every operation's
//! effect on the id-to-queue mapping is stated exactly, so the
//! register/unregister/deliver laws hold for any interleaving of
//! calls.  The registry's view maps each live id to the sequence of
//! pending frame texts, in enqueue order.

use std::collections::HashMap;
use vstd::prelude::*;

verus! {

broadcast use
    vstd::std_specs::hash::group_hash_axioms,
    vstd::seq_lib::group_seq_properties,
    vstd::prelude::Seq::lemma_take_len;


/// One text payload destined for exactly one connection.
pub struct OutboundFrame {
    pub text: String,
}

impl View for OutboundFrame {
    type V = Seq<char>;

    open spec fn view(&self) -> Seq<char> {
        self.text@
    }
}

impl DeepView for OutboundFrame {
    type V = Seq<char>;

    open spec fn deep_view(&self) -> Seq<char> {
        self.text@
    }
}

/// The hub: a mapping from connection id to that connection's pending
/// outbound frames, plus the counter the next id is drawn from.
pub struct Registry {
    next_id: u64,
    conns: HashMap<u64, Vec<OutboundFrame>>,
    issued: Ghost<Set<u64>>,
}

impl View for Registry {
    type V = Map<u64, Seq<Seq<char>>>;

    closed spec fn view(&self) -> Map<u64, Seq<Seq<char>>> {
        self.conns@.map_values(|q: Vec<OutboundFrame>| q.deep_view())
    }
}

/// The effect of `deliver` on the id-to-queue mapping: append the
/// frame text to the addressee's queue if the id is live, otherwise
/// change nothing.
pub open spec fn spec_deliver(
    m: Map<u64, Seq<Seq<char>>>,
    id: u64,
    text: Seq<char>,
) -> Map<u64, Seq<Seq<char>>> {
    if m.contains_key(id) {
        m.insert(id, m[id].push(text))
    } else {
        m
    }
}

impl Registry {
    /// Every id ever issued, including ids since unregistered.
    /// `register` never returns a member of this set a second time.
    pub closed spec fn issued(&self) -> Set<u64> {
        self.issued@
    }

    /// The id the next `register` call will return.
    pub closed spec fn next(&self) -> u64 {
        self.next_id
    }

    /// Well-formedness: ids are issued in increasing order, so every id
    /// ever issued (and hence every live id) lies below the counter.
    pub closed spec fn wf(&self) -> bool {
        &&& (forall|id: u64| #[trigger] self.issued@.contains(id) ==> id < self.next_id)
        &&& (forall|id: u64|
            #[trigger] self.conns@.dom().contains(id) ==> self.issued@.contains(id))
    }

    /// An empty registry; ids are assigned from 1 upwards.
    pub fn new() -> (r: Registry)
        ensures
            r.wf(),
            r@ == Map::<u64, Seq<Seq<char>>>::empty(),
            r.issued() == Set::<u64>::empty(),
            r.next() == 1u64,
    {
        let r = Registry {
            next_id: 1,
            conns: HashMap::new(),
            issued: Ghost(Set::empty()),
        };
        proof {
            assert(r@ =~= Map::<u64, Seq<Seq<char>>>::empty());
        }
        r
    }

    /// Allocate the next id, insert an entry with an empty outbound
    /// queue, and return the id.  The returned id was never issued
    /// before, so ids are unique across the registry's whole lifetime,
    /// whatever sequence of register and unregister calls preceded.
    pub fn register(&mut self) -> (id: u64)
        requires
            old(self).wf(),
            old(self).next() < u64::MAX,
        ensures
            final(self).wf(),
            id == old(self).next(),
            !old(self).issued().contains(id),
            !old(self)@.contains_key(id),
            final(self)@ == old(self)@.insert(id, Seq::<Seq<char>>::empty()),
            final(self).issued() == old(self).issued().insert(id),
            final(self).next() == old(self).next() + 1,
    {
        let id = self.next_id;
        self.next_id = self.next_id + 1;
        let empty_queue: Vec<OutboundFrame> = Vec::new();
        self.conns.insert(id, empty_queue);
        proof {
            self.issued = Ghost(self.issued@.insert(id));
            assert(empty_queue.deep_view() =~= Seq::<Seq<char>>::empty());
            assert(self@ =~= old(self)@.insert(id, Seq::<Seq<char>>::empty()));
        }
        id
    }

    /// Remove the entry for `id` if present; a no-op (not an error) if
    /// absent, so unregistering twice has the same effect as once and a
    /// disconnect racing with a send cannot fail.
    pub fn unregister(&mut self, id: u64)
        requires
            old(self).wf(),
        ensures
            final(self).wf(),
            final(self)@ == old(self)@.remove(id),
            final(self).issued() == old(self).issued(),
            final(self).next() == old(self).next(),
    {
        self.conns.remove(&id);
        proof {
            assert(self@ =~= old(self)@.remove(id));
        }
    }

    /// Enqueue one frame for `id` if it is live; silently drop the
    /// frame if not (the client already left).  No other connection's
    /// queue is touched either way.
    pub fn deliver(&mut self, id: u64, text: String)
        requires
            old(self).wf(),
        ensures
            final(self).wf(),
            final(self)@ == spec_deliver(old(self)@, id, text@),
            final(self).issued() == old(self).issued(),
            final(self).next() == old(self).next(),
    {
        match self.conns.remove(&id) {
            Some(mut queue) => {
                queue.push(OutboundFrame { text });
                self.conns.insert(id, queue);
                proof {
                    assert(old(self)@.contains_key(id));
                    assert(queue.deep_view() =~= old(self)@[id].push(
                        queue@[queue@.len() - 1].text@,
                    ));
                    assert(self@ =~= spec_deliver(old(self)@, id, queue@[queue@.len() - 1].text@));
                }
            },
            None => {
                proof {
                    assert(!old(self)@.contains_key(id));
                    assert(self@ =~= spec_deliver(old(self)@, id, text@));
                }
            },
        }
    }

    /// Take the next pending frame for `id`, in enqueue order; `None`
    /// if the id is not live or its queue is empty.  This is the sole
    /// consumer side of a connection's queue: the paired writer task
    /// drains frames with it one at a time.
    pub fn pop_outbound(&mut self, id: u64) -> (r: Option<OutboundFrame>)
        requires
            old(self).wf(),
        ensures
            final(self).wf(),
            final(self).issued() == old(self).issued(),
            final(self).next() == old(self).next(),
            old(self)@.contains_key(id) && old(self)@[id].len() > 0 ==> {
                &&& r matches Some(frame) && frame@ == old(self)@[id][0]
                &&& final(self)@ == old(self)@.insert(id, old(self)@[id].drop_first())
            },
            !(old(self)@.contains_key(id) && old(self)@[id].len() > 0) ==> {
                &&& r is None
                &&& final(self)@ == old(self)@
            },
    {
        match self.conns.remove(&id) {
            Some(mut queue) => {
                if queue.len() > 0 {
                    let frame = queue.remove(0);
                    self.conns.insert(id, queue);
                    proof {
                        assert(queue.deep_view() =~= old(self)@[id].drop_first());
                        assert(self@ =~= old(self)@.insert(id, old(self)@[id].drop_first()));
                    }
                    Some(frame)
                } else {
                    self.conns.insert(id, queue);
                    proof {
                        assert(queue.deep_view() =~= old(self)@[id]);
                        assert(self@ =~= old(self)@);
                    }
                    None
                }
            },
            None => {
                proof {
                    assert(self@ =~= old(self)@);
                }
                None
            },
        }
    }

    /// The id the next `register` call will return; callers that
    /// cannot see the counter's specification use this to guard
    /// against exhausting it.
    pub fn peek_next(&self) -> (n: u64)
        ensures
            n == self.next(),
    {
        self.next_id
    }

    /// The ids of every live connection, in no particular order, each
    /// exactly once: the handle set for any bulk operation.  Delivery
    /// itself stays point-to-point, by id.
    pub fn snapshot(&self) -> (ids: Vec<u64>)
        ensures
            ids@.to_set() == self@.dom(),
            ids@.no_duplicates(),
    {
        proof {
            assert(self@.dom() =~= self.conns@.dom());
        }
        let mut ids: Vec<u64> = Vec::new();
        for k in it: self.conns.keys()
            invariant
                ids@ == it.seq().take(it.index() as int).unref(),
                it.seq().unref().to_set() == self.conns@.dom(),
                it.seq().no_duplicates(),
        {
            ids.push(*k);
            proof {
                assert(ids@ =~= it.seq().take(it.index() as int + 1).unref());
            }
        }
        proof {
            assert(ids@.to_set() =~= self@.dom());
        }
        ids
    }

    /// Whether `id` is a live connection.
    pub fn contains(&self, id: u64) -> (b: bool)
        ensures
            b == self@.contains_key(id),
    {
        self.conns.contains_key(&id)
    }

    /// How many connections are live.
    pub fn count(&self) -> (n: usize)
        ensures
            n == self@.dom().len(),
    {
        proof {
            assert(self@.dom() =~= self.conns@.dom());
        }
        self.conns.len()
    }
}

/// Unregistering an id twice has the same observable effect on the
/// registry as unregistering it once.
pub proof fn lemma_unregister_idempotent(m: Map<u64, Seq<Seq<char>>>, id: u64)
    ensures
        m.remove(id).remove(id) == m.remove(id),
{
    assert(m.remove(id).remove(id) =~= m.remove(id));
}

/// A delivery to an id that has just been unregistered is a no-op: no
/// frame reaches any queue and the registry is unchanged.
pub proof fn lemma_deliver_after_unregister(
    m: Map<u64, Seq<Seq<char>>>,
    id: u64,
    text: Seq<char>,
)
    ensures
        spec_deliver(m.remove(id), id, text) == m.remove(id),
{
}

/// A delivery touches at most the addressee's queue: every other live
/// connection's queue is exactly what it was before.
pub proof fn lemma_deliver_point_to_point(
    m: Map<u64, Seq<Seq<char>>>,
    id: u64,
    text: Seq<char>,
    other: u64,
)
    requires
        other != id,
    ensures
        spec_deliver(m, id, text).contains_key(other) == m.contains_key(other),
        m.contains_key(other) ==> spec_deliver(m, id, text)[other] == m[other],
{
}

} // verus!
