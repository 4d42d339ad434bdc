//! The reader/writer lock: many readers or one writer.
//!
//! The lock keeps the threads that read, one entry for each read lock taken,
//! and the writer if there is one. A request that cannot be granted parks
//! the caller; the release that frees the lock wakes everyone who is parked,
//! and each asks again.

use vstd::prelude::*;
use crate::identity::ThreadIdentity;
use crate::mutex::LockOutcome;
use crate::queue::{enqueued, enqueued_facts, WaitQueue};

verus! {

/// `s` without the first entry that equals `id`.
pub open spec fn without_first(s: Seq<ThreadIdentity>, id: ThreadIdentity) -> Seq<ThreadIdentity>
    decreases s.len(),
{
    if s.len() == 0 {
        s
    } else if s[0] == id {
        s.drop_first()
    } else {
        seq![s[0]] + without_first(s.drop_first(), id)
    }
}

/// Removing the entry at `i` removes the first entry that equals `id`, if
/// no earlier entry equals `id`.
pub proof fn without_first_at(s: Seq<ThreadIdentity>, id: ThreadIdentity, i: int)
    requires
        0 <= i < s.len(),
        s[i] == id,
        forall|j: int| 0 <= j < i ==> s[j] != id,
    ensures
        without_first(s, id) == s.remove(i),
    decreases s.len(),
{
    if i > 0 {
        without_first_at(s.drop_first(), id, i - 1);
    }
}

/// What a reader/writer lock is, as a value.
pub struct RWLockView {
    /// The thread that writes, if any.
    pub writer: Option<ThreadIdentity>,
    /// The threads that read, one entry for each read lock that is held.
    pub readers: Seq<ThreadIdentity>,
    /// The threads parked on the lock, the longest-waiting first.
    pub waiters: Seq<ThreadIdentity>,
}

impl RWLockView {
    /// A lock that nobody holds and on which nobody is parked.
    pub open spec fn idle() -> RWLockView {
        RWLockView { writer: None, readers: Seq::empty(), waiters: Seq::empty() }
    }

    /// While a thread writes nobody reads; nobody is parked twice.
    pub open spec fn wf(self) -> bool {
        &&& self.writer is Some ==> self.readers.len() == 0
        &&& self.waiters.no_duplicates()
    }

    /// Whether nobody holds the lock.
    pub open spec fn is_free(self) -> bool {
        self.writer is None && self.readers.len() == 0
    }

    /// Whether a reader is let in: nobody writes.
    pub open spec fn admits_reader(self) -> bool {
        self.writer is None
    }

    /// Whether a writer is let in: nobody holds the lock.
    pub open spec fn admits_writer(self) -> bool {
        self.is_free()
    }

    /// The same lock with `me` parked on it.
    pub open spec fn park(self, me: ThreadIdentity) -> RWLockView {
        RWLockView { waiters: enqueued(self.waiters, me), ..self }
    }

    /// The lock after `me` has asked to read without being willing to wait.
    pub open spec fn try_read(self, me: ThreadIdentity) -> RWLockView {
        if self.admits_reader() {
            RWLockView { readers: self.readers.push(me), ..self }
        } else {
            self
        }
    }

    /// The lock after `me` has asked to read and is willing to wait.
    pub open spec fn read(self, me: ThreadIdentity) -> RWLockView {
        if self.admits_reader() {
            self.try_read(me)
        } else {
            self.park(me)
        }
    }

    /// The lock after `me` has asked to write without being willing to wait.
    pub open spec fn try_write(self, me: ThreadIdentity) -> RWLockView {
        if self.admits_writer() {
            RWLockView { writer: Some(me), ..self }
        } else {
            self
        }
    }

    /// The lock after `me` has asked to write and is willing to wait.
    pub open spec fn write(self, me: ThreadIdentity) -> RWLockView {
        if self.admits_writer() {
            self.try_write(me)
        } else {
            self.park(me)
        }
    }

    /// The lock after `me` has given back one read lock. The last reader to
    /// leave wakes everyone who is parked.
    pub open spec fn read_unlock(self, me: ThreadIdentity) -> RWLockView {
        let readers = without_first(self.readers, me);
        RWLockView {
            readers,
            waiters: if readers.len() == 0 {
                Seq::empty()
            } else {
                self.waiters
            },
            ..self
        }
    }

    /// The threads that `read_unlock` by `me` wakes.
    pub open spec fn woken_by_read_unlock(self, me: ThreadIdentity) -> Seq<ThreadIdentity> {
        if without_first(self.readers, me).len() == 0 {
            self.waiters
        } else {
            Seq::empty()
        }
    }

    /// The lock after its writer has given it back: free, and everyone who
    /// was parked is woken.
    pub open spec fn write_unlock(self) -> RWLockView {
        RWLockView { writer: None, waiters: Seq::empty(), ..self }
    }
}

/// A reader/writer lock.
pub struct RWLock {
    writer: Option<ThreadIdentity>,
    readers: Vec<ThreadIdentity>,
    waiters: WaitQueue,
}

impl View for RWLock {
    type V = RWLockView;

    closed spec fn view(&self) -> RWLockView {
        RWLockView { writer: self.writer, readers: self.readers@, waiters: self.waiters@ }
    }
}

impl RWLock {
    /// The invariant of the lock, stated on its value.
    pub open spec fn wf(&self) -> bool {
        self@.wf()
    }

    /// A lock that nobody holds and on which nobody is parked.
    pub fn new() -> (lock: RWLock)
        ensures
            lock@ == RWLockView::idle(),
            lock.wf(),
    {
        let lock = RWLock { writer: None, readers: Vec::new(), waiters: WaitQueue::new() };
        lock
    }

    /// Asks to read on behalf of `me`, who is willing to wait. While nobody
    /// writes, `me` becomes a reader; otherwise `me` is parked.
    pub fn read(&mut self, me: ThreadIdentity) -> (outcome: LockOutcome)
        requires
            old(self).wf(),
        ensures
            final(self)@ == old(self)@.read(me),
            outcome is Acquired <==> old(self)@.admits_reader(),
            final(self).wf(),
    {
        if self.try_read(me) {
            LockOutcome::Acquired
        } else {
            proof {
                enqueued_facts(self@.waiters, me);
            }
            self.waiters.enqueue(me);
            LockOutcome::Parked
        }
    }

    /// Asks to write on behalf of `me`, who is willing to wait. If nobody
    /// holds the lock, `me` becomes the writer; otherwise `me` is parked.
    pub fn write(&mut self, me: ThreadIdentity) -> (outcome: LockOutcome)
        requires
            old(self).wf(),
        ensures
            final(self)@ == old(self)@.write(me),
            outcome is Acquired <==> old(self)@.admits_writer(),
            final(self).wf(),
    {
        if self.try_write(me) {
            LockOutcome::Acquired
        } else {
            proof {
                enqueued_facts(self@.waiters, me);
            }
            self.waiters.enqueue(me);
            LockOutcome::Parked
        }
    }

    /// Gives back one read lock that `me` holds. When the last reader leaves,
    /// everyone who is parked is woken and returned, to ask again.
    pub fn read_unlock(&mut self, me: ThreadIdentity) -> (woken: Vec<ThreadIdentity>)
        requires
            old(self).wf(),
            old(self)@.readers.contains(me),
        ensures
            final(self)@ == old(self)@.read_unlock(me),
            woken@ == old(self)@.woken_by_read_unlock(me),
            final(self).wf(),
    {
        let mut i: usize = 0;
        while i < self.readers.len() && self.readers[i] != me
            invariant
                i <= self.readers.len(),
                *self == *old(self),
                forall|j: int| 0 <= j < i ==> self.readers@[j] != me,
            decreases self.readers.len() - i,
        {
            i += 1;
        }
        proof {
            let k = choose|k: int| 0 <= k < self@.readers.len() && self@.readers[k] == me;
            assert(i <= k);
            without_first_at(self@.readers, me, i as int);
        }
        let _left = self.readers.remove(i);
        if self.readers.len() == 0 {
            self.waiters.drain()
        } else {
            Vec::new()
        }
    }

    /// Gives back the lock that `me` holds as writer, and wakes everyone who
    /// is parked; they are returned, to ask again.
    pub fn write_unlock(&mut self, me: ThreadIdentity) -> (woken: Vec<ThreadIdentity>)
        requires
            old(self).wf(),
            old(self)@.writer == Some(me),
        ensures
            final(self)@ == old(self)@.write_unlock(),
            woken@ == old(self)@.waiters,
            final(self).wf(),
    {
        self.writer = None;
        self.waiters.drain()
    }

    /// Lets `me` read if nobody writes, and says whether it did. Never parks
    /// anyone.
    pub fn try_read(&mut self, me: ThreadIdentity) -> (acquired: bool)
        requires
            old(self).wf(),
        ensures
            acquired <==> old(self)@.admits_reader(),
            final(self)@ == old(self)@.try_read(me),
            final(self).wf(),
    {
        if self.writer.is_none() {
            self.readers.push(me);
            true
        } else {
            false
        }
    }

    /// Lets `me` write if nobody holds the lock, and says whether it did.
    /// Never parks anyone.
    pub fn try_write(&mut self, me: ThreadIdentity) -> (acquired: bool)
        requires
            old(self).wf(),
        ensures
            acquired <==> old(self)@.admits_writer(),
            final(self)@ == old(self)@.try_write(me),
            final(self).wf(),
    {
        if self.writer.is_none() && self.readers.len() == 0 {
            self.writer = Some(me);
            true
        } else {
            false
        }
    }

    /// Does nothing: the lock keeps no kernel state of its own.
    pub fn destroy(&mut self)
        ensures
            *final(self) == *old(self),
    {
    }

    /// The thread that writes, if any.
    pub fn writer(&self) -> (w: Option<ThreadIdentity>)
        ensures
            w == self@.writer,
    {
        self.writer
    }

    /// How many read locks are held.
    pub fn readers(&self) -> (n: usize)
        ensures
            n == self@.readers.len(),
    {
        self.readers.len()
    }

    /// Whether `id` holds a read lock.
    pub fn is_reader(&self, id: ThreadIdentity) -> (b: bool)
        ensures
            b <==> self@.readers.contains(id),
    {
        let mut i: usize = 0;
        while i < self.readers.len()
            invariant
                i <= self.readers.len(),
                forall|j: int| 0 <= j < i ==> self.readers@[j] != id,
            decreases self.readers.len() - i,
        {
            if self.readers[i] == id {
                return true;
            }
            i += 1;
        }
        false
    }

    /// Whether `id` is parked on the lock.
    pub fn is_parked(&self, id: ThreadIdentity) -> (b: bool)
        ensures
            b <==> self@.waiters.contains(id),
    {
        self.waiters.contains(id)
    }
}

/// Readers and a writer never hold the lock together, and neither do two
/// writers: while a thread writes, no request to read or to write is
/// granted, and while any thread reads, no request to write is granted.
pub proof fn writer_is_alone(s: RWLockView, me: ThreadIdentity)
    requires
        s.wf(),
    ensures
        s.writer is Some ==> s.readers.len() == 0 && !s.admits_reader() && !s.admits_writer(),
        s.readers.len() > 0 ==> s.writer is None && !s.admits_writer(),
        s.writer is Some ==> s.try_read(me) == s && s.try_write(me) == s,
        s.readers.len() > 0 ==> s.try_write(me) == s,
        s.try_read(me).wf(),
        s.try_write(me).wf(),
{
}

} // verus!
