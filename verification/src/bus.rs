//! The outbound side of the event bus.
//!
//! All outgoing events pass through one bounded queue and leave it
//! strictly in enqueue order; a full queue pushes back on the
//! producers. The publisher resolves a topic's wire schema once and
//! caches it, one entry per topic name. The publish call itself is
//! I/O and lives outside the core; `publish_step` is the decision the
//! publisher loop makes before each send.

use vstd::prelude::*;
use crate::events::ProducerData;

verus! {

/// The bounded queue of outgoing event descriptors, drained in enqueue
/// order by a single publisher.
pub struct Outbox {
    pub queue: Vec<ProducerData>,
    pub cap: usize,
}

impl Outbox {
    /// The queue never exceeds its bound.
    pub open spec fn wf(self) -> bool {
        self.queue@.len() <= self.cap && self.cap >= 1
    }

    /// An empty outbox with capacity `cap`. A bound of one couples
    /// each enqueue to the previous publish, trading throughput for a
    /// strictly ordered outbound stream.
    pub fn new(cap: usize) -> (s: Self)
        requires
            cap >= 1,
        ensures
            s.wf(),
            s.queue@.len() == 0,
            s.cap == cap,
    {
        Outbox { queue: Vec::new(), cap }
    }

    /// How many events wait to be published.
    pub fn len(&self) -> (n: usize)
        ensures
            n == self.queue@.len(),
    {
        self.queue.len()
    }

    /// Appends an event when there is room; a producer whose event was
    /// refused must wait and offer it again, which is the backpressure
    /// the bound exists for.
    pub fn try_enqueue(&mut self, pd: ProducerData) -> (accepted: bool)
        requires
            old(self).wf(),
        ensures
            final(self).wf(),
            final(self).cap == old(self).cap,
            accepted <==> old(self).queue@.len() < old(self).cap,
            accepted ==> final(self).queue@ == old(self).queue@.push(pd),
            !accepted ==> *final(self) == *old(self),
    {
        if self.queue.len() < self.cap {
            self.queue.push(pd);
            true
        } else {
            false
        }
    }

    /// Removes and returns the oldest queued event; publishing in this
    /// order is what makes the outbound stream strictly ordered.
    pub fn dequeue(&mut self) -> (r: Option<ProducerData>)
        requires
            old(self).wf(),
        ensures
            final(self).wf(),
            final(self).cap == old(self).cap,
            r is Some <==> old(self).queue@.len() > 0,
            r matches Some(pd) ==> pd == old(self).queue@[0] && final(self).queue@ == old(
                self,
            ).queue@.subrange(1, old(self).queue@.len() as int),
            r is None ==> *final(self) == *old(self),
    {
        if self.queue.len() == 0 {
            None
        } else {
            let pd = self.queue.remove(0);
            proof {
                assert(self.queue@ =~= old(self).queue@.subrange(1, old(self).queue@.len() as int));
            }
            Some(pd)
        }
    }
}

/// The publisher's per-topic schema cache: one entry per topic name,
/// created on first use.
pub struct SchemaCache {
    pub topics: Vec<String>,
}

impl SchemaCache {
    /// Topic names are cached at most once.
    pub open spec fn wf(self) -> bool {
        forall|i: int, j: int|
            0 <= i < j < self.topics@.len() ==> self.topics@[i]@ != self.topics@[j]@
    }

    /// Whether `k` already has a cache entry.
    pub open spec fn spec_contains(self, k: Seq<char>) -> bool {
        exists|i: int| 0 <= i < self.topics@.len() && self.topics@[i]@ == k
    }

    /// An empty cache.
    pub fn new() -> (s: Self)
        ensures
            s.wf(),
            s.topics@.len() == 0,
            forall|k: Seq<char>| !s.spec_contains(k),
    {
        SchemaCache { topics: Vec::new() }
    }

    /// Makes sure `topic` has a cache entry, and says whether the
    /// schema still has to be resolved: true exactly on a topic's
    /// first use.
    pub fn ensure_topic(&mut self, topic: &str) -> (fresh: bool)
        requires
            old(self).wf(),
        ensures
            final(self).wf(),
            fresh <==> !old(self).spec_contains(topic@),
            final(self).spec_contains(topic@),
            forall|k2: Seq<char>|
                k2 != topic@ ==> final(self).spec_contains(k2) == old(self).spec_contains(k2),
            !fresh ==> *final(self) == *old(self),
    {
        let t = String::from_str(topic);
        let n = self.topics.len();
        let mut i: usize = 0;
        while i < n
            invariant
                self.wf(),
                n == self.topics@.len(),
                0 <= i <= n,
                t@ == topic@,
                forall|j: int| 0 <= j < i ==> self.topics@[j]@ != topic@,
            decreases n - i,
        {
            if self.topics[i] == t {
                return false;
            }
            i = i + 1;
        }
        let ghost pre = self.topics@;
        self.topics.push(t);
        proof {
            assert forall|a: int, b: int| 0 <= a < b < self.topics@.len() implies self.topics@[a]@
                != self.topics@[b]@ by {
                if b == pre.len() {
                    assert(self.topics@[a] == pre[a]);
                }
            }
            assert(self.topics@[pre.len() as int]@ == topic@);
            assert forall|k2: Seq<char>| k2 != topic@ implies final(self).spec_contains(k2) == old(
                self,
            ).spec_contains(k2) by {
                if old(self).spec_contains(k2) {
                    let j = choose|j: int| 0 <= j < pre.len() && pre[j]@ == k2;
                    assert(self.topics@[j]@ == k2);
                }
                if self.spec_contains(k2) {
                    let j = choose|j: int|
                        0 <= j < self.topics@.len() && self.topics@[j]@ == k2;
                    assert(pre[j]@ == k2);
                }
            }
        }
        true
    }
}

/// One decision of the publisher loop: take the oldest queued event
/// and say whether its topic's schema still has to be resolved. The
/// caller performs the actual publish.
pub fn publish_step(outbox: &mut Outbox, cache: &mut SchemaCache) -> (r: Option<(
    ProducerData,
    bool,
)>)
    requires
        old(outbox).wf(),
        old(cache).wf(),
    ensures
        final(outbox).wf(),
        final(cache).wf(),
        final(outbox).cap == old(outbox).cap,
        r is Some <==> old(outbox).queue@.len() > 0,
        r is None ==> *final(outbox) == *old(outbox) && *final(cache) == *old(cache),
        r matches Some(s) ==> {
            &&& s.0 == old(outbox).queue@[0]
            &&& final(outbox).queue@ == old(outbox).queue@.subrange(
                1,
                old(outbox).queue@.len() as int,
            )
            &&& (s.1 <==> !old(cache).spec_contains(s.0.topic@))
            &&& final(cache).spec_contains(s.0.topic@)
        },
{
    match outbox.dequeue() {
        Some(pd) => {
            let fresh = cache.ensure_topic(pd.topic);
            Some((pd, fresh))
        },
        None => None,
    }
}

} // verus!
