//! A first-in, first-out queue of parked threads in which no thread stands
//! twice.

use vstd::prelude::*;
use crate::identity::ThreadIdentity;

verus! {

/// `q` with `id` at its end, unless `id` already stands in it.
pub open spec fn enqueued(q: Seq<ThreadIdentity>, id: ThreadIdentity) -> Seq<ThreadIdentity> {
    if q.contains(id) {
        q
    } else {
        q.push(id)
    }
}

/// `q` without `id`; the others keep their order.
pub open spec fn without(q: Seq<ThreadIdentity>, id: ThreadIdentity) -> Seq<ThreadIdentity> {
    if q.contains(id) {
        q.remove(q.index_of(id))
    } else {
        q
    }
}

/// Enqueuing keeps a queue free of duplicates, and the thread stands in it
/// afterwards.
pub proof fn enqueued_facts(q: Seq<ThreadIdentity>, id: ThreadIdentity)
    requires
        q.no_duplicates(),
    ensures
        enqueued(q, id).no_duplicates(),
        enqueued(q, id).contains(id),
        forall|other: ThreadIdentity| q.contains(other) ==> enqueued(q, id).contains(other),
{
    let r = enqueued(q, id);
    if !q.contains(id) {
        assert(r[q.len() as int] == id);
        assert forall|other: ThreadIdentity| q.contains(other) implies r.contains(other) by {
            let i = choose|i: int| 0 <= i < q.len() && q[i] == other;
            assert(r[i] == other);
        }
    }
}

/// Removing a thread keeps a queue free of duplicates, and the thread no
/// longer stands in it; every other thread stays.
pub proof fn without_facts(q: Seq<ThreadIdentity>, id: ThreadIdentity)
    requires
        q.no_duplicates(),
    ensures
        without(q, id).no_duplicates(),
        !without(q, id).contains(id),
        forall|other: ThreadIdentity|
            other != id ==> (q.contains(other) <==> without(q, id).contains(other)),
{
    let r = without(q, id);
    if q.contains(id) {
        let k = q.index_of(id);
        assert forall|other: ThreadIdentity| other != id && q.contains(other) implies r.contains(
            other,
        ) by {
            let i = choose|i: int| 0 <= i < q.len() && q[i] == other;
            let ri = if i < k {
                i
            } else {
                i - 1
            };
            assert(r[ri] == other);
        }
    }
}

/// The threads parked on one kernel word, in the order in which they came.
pub struct WaitQueue {
    items: Vec<ThreadIdentity>,
}

impl View for WaitQueue {
    type V = Seq<ThreadIdentity>;

    closed spec fn view(&self) -> Seq<ThreadIdentity> {
        self.items@
    }
}

impl WaitQueue {
    /// No thread stands in the queue twice.
    pub open spec fn wf(&self) -> bool {
        self@.no_duplicates()
    }

    /// The empty queue.
    pub fn new() -> (q: WaitQueue)
        ensures
            q@ == Seq::<ThreadIdentity>::empty(),
            q.wf(),
    {
        WaitQueue { items: Vec::new() }
    }

    /// The number of parked threads.
    pub fn len(&self) -> (n: usize)
        ensures
            n == self@.len(),
    {
        self.items.len()
    }

    /// Whether nobody is parked.
    pub fn is_empty(&self) -> (b: bool)
        ensures
            b <==> self@.len() == 0,
    {
        self.items.len() == 0
    }

    /// The place of `id` in the queue, if it stands there.
    pub fn position(&self, id: ThreadIdentity) -> (r: Option<usize>)
        ensures
            r is None <==> !self@.contains(id),
            r matches Some(i) ==> i < self@.len() && self@[i as int] == id && (self.wf()
                ==> i == self@.index_of(id)),
    {
        let mut i: usize = 0;
        while i < self.items.len()
            invariant
                i <= self.items.len(),
                forall|j: int| 0 <= j < i ==> self.items@[j] != id,
            decreases self.items.len() - i,
        {
            if self.items[i] == id {
                return Some(i);
            }
            i += 1;
        }
        None
    }

    /// Whether `id` is parked here.
    pub fn contains(&self, id: ThreadIdentity) -> (b: bool)
        ensures
            b <==> self@.contains(id),
    {
        self.position(id).is_some()
    }

    /// Parks `id` at the end of the queue; a thread that is parked already
    /// keeps its place.
    pub fn enqueue(&mut self, id: ThreadIdentity)
        requires
            old(self).wf(),
        ensures
            final(self)@ == enqueued(old(self)@, id),
            final(self).wf(),
    {
        proof {
            enqueued_facts(self@, id);
        }
        if !self.contains(id) {
            self.items.push(id);
        }
    }

    /// Takes the thread that has waited longest out of the queue.
    pub fn dequeue(&mut self) -> (r: Option<ThreadIdentity>)
        requires
            old(self).wf(),
        ensures
            old(self)@.len() == 0 ==> r is None && final(self)@ == old(self)@,
            old(self)@.len() > 0 ==> r == Some(old(self)@[0]) && final(self)@ == old(
                self,
            )@.drop_first(),
            final(self).wf(),
    {
        if self.items.len() == 0 {
            None
        } else {
            Some(self.items.remove(0))
        }
    }

    /// Takes `id` out of the queue, wherever it stands; says whether it
    /// stood there.
    pub fn remove(&mut self, id: ThreadIdentity) -> (was_parked: bool)
        requires
            old(self).wf(),
        ensures
            was_parked <==> old(self)@.contains(id),
            final(self)@ == without(old(self)@, id),
            final(self).wf(),
    {
        proof {
            without_facts(self@, id);
        }
        match self.position(id) {
            Some(i) => {
                let _gone = self.items.remove(i);
                true
            },
            None => false,
        }
    }

    /// Empties the queue and hands out everyone who stood in it, in order.
    pub fn drain(&mut self) -> (all: Vec<ThreadIdentity>)
        requires
            old(self).wf(),
        ensures
            all@ == old(self)@,
            final(self)@ == Seq::<ThreadIdentity>::empty(),
            final(self).wf(),
    {
        let mut all: Vec<ThreadIdentity> = Vec::new();
        all.append(&mut self.items);
        all
    }
}

} // verus!
