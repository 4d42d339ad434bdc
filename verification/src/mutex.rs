//! The lock primitive and the reentrant lock built on it.
//!
//! Both are explicit state machines. Every operation names the calling
//! thread, and an operation that would block says so in its result: the
//! caller is then parked on the lock's kernel word until a release wakes it,
//! and asks for the lock again.

use vstd::prelude::*;
use crate::identity::ThreadIdentity;
use crate::queue::{enqueued, enqueued_facts, WaitQueue};

verus! {

/// The kernel word of a lock: zero while the lock is free, otherwise the tag
/// of the thread that holds it.
#[derive(Clone, Copy, Debug, PartialEq, Eq, Structural)]
pub struct LockWord {
    raw: u32,
}

impl LockWord {
    /// The value of the word.
    pub closed spec fn raw_spec(self) -> u32 {
        self.raw
    }

    /// The thread that the word names as holder.
    pub open spec fn holder(self) -> Option<ThreadIdentity> {
        ThreadIdentity::decode(self.raw_spec())
    }

    /// The word of a free lock.
    pub fn free() -> (w: LockWord)
        ensures
            w.raw_spec() == 0,
            w.holder() is None,
    {
        proof {
            ThreadIdentity::decode_facts(0);
        }
        LockWord { raw: 0 }
    }

    /// The word of a lock that `id` holds.
    pub fn held_by(id: ThreadIdentity) -> (w: LockWord)
        ensures
            w.raw_spec() == id.tag_spec(),
            w.holder() == Some(id),
            id.wf(),
    {
        LockWord { raw: id.tag() }
    }

    /// The value of the word.
    pub fn raw(self) -> (r: u32)
        ensures
            r == self.raw_spec(),
    {
        self.raw
    }

    /// The thread that the word names as holder.
    pub fn owner(self) -> (r: Option<ThreadIdentity>)
        ensures
            r == self.holder(),
            r is None <==> self.raw_spec() == 0,
    {
        ThreadIdentity::new(self.raw)
    }
}

/// How a request for a lock ended.
#[derive(Clone, Copy, Debug, PartialEq, Eq, Structural)]
pub enum LockOutcome {
    /// The caller holds the lock.
    Acquired,
    /// The lock was not to be had: the caller is parked on its word.
    Parked,
}

/// What a lock primitive is, as a value.
pub struct MutexView {
    /// Whether `init` has run and `destroy` has not.
    pub ready: bool,
    /// The thread that holds the lock, if any.
    pub holder: Option<ThreadIdentity>,
    /// The threads parked on the word, the longest-waiting first.
    pub waiters: Seq<ThreadIdentity>,
}

impl MutexView {
    /// A lock whose kernel state is not set up.
    pub open spec fn fresh() -> MutexView {
        MutexView { ready: false, holder: None, waiters: Seq::empty() }
    }

    /// A lock that is set up, free, and has nobody parked on it.
    pub open spec fn idle() -> MutexView {
        MutexView { ready: true, holder: None, waiters: Seq::empty() }
    }

    /// Nobody is parked twice, the holder is a valid thread, and a lock that
    /// is not set up is free and has no waiters.
    pub open spec fn wf(self) -> bool {
        &&& self.waiters.no_duplicates()
        &&& (self.holder matches Some(h) ==> h.wf())
        &&& (!self.ready ==> self.holder is None && self.waiters.len() == 0)
    }

    /// Whether some thread holds the lock.
    pub open spec fn is_locked(self) -> bool {
        self.holder is Some
    }

    /// The lock after `me` has asked for it and is willing to wait.
    pub open spec fn lock(self, me: ThreadIdentity) -> MutexView {
        if self.holder is None {
            MutexView { holder: Some(me), ..self }
        } else {
            MutexView { waiters: enqueued(self.waiters, me), ..self }
        }
    }

    /// What `me` is told when it asks for the lock.
    pub open spec fn lock_outcome(self) -> LockOutcome {
        if self.holder is None {
            LockOutcome::Acquired
        } else {
            LockOutcome::Parked
        }
    }

    /// The lock after `me` has asked for it without being willing to wait.
    pub open spec fn try_lock(self, me: ThreadIdentity) -> MutexView {
        if self.holder is None {
            MutexView { holder: Some(me), ..self }
        } else {
            self
        }
    }

    /// The thread that a release wakes: the one parked longest, if any.
    pub open spec fn woken(self) -> Option<ThreadIdentity> {
        if self.waiters.len() > 0 {
            Some(self.waiters[0])
        } else {
            None
        }
    }

    /// The lock after its holder has released it: free, and the woken thread
    /// no longer parked.
    pub open spec fn unlock(self) -> MutexView {
        MutexView {
            holder: None,
            waiters: if self.waiters.len() > 0 {
                self.waiters.drop_first()
            } else {
                self.waiters
            },
            ..self
        }
    }
}

/// A mutual-exclusion lock that is not reentrant.
pub struct Mutex {
    word: LockWord,
    ready: bool,
    waiters: WaitQueue,
}

impl View for Mutex {
    type V = MutexView;

    closed spec fn view(&self) -> MutexView {
        MutexView { ready: self.ready, holder: self.word.holder(), waiters: self.waiters@ }
    }
}

/// The kernel word of `m`, as a wait on a condition variable hands it to the
/// kernel.
pub fn raw(m: &Mutex) -> (w: LockWord)
    ensures
        w.holder() == m@.holder,
{
    m.word
}

impl Mutex {
    /// The invariant of the lock, stated on its value.
    pub open spec fn wf(&self) -> bool {
        self@.wf()
    }

    /// A lock whose memory exists and whose kernel state is not yet set up.
    pub fn new() -> (m: Mutex)
        ensures
            m@ == MutexView::fresh(),
            m.wf(),
    {
        Mutex { word: LockWord::free(), ready: false, waiters: WaitQueue::new() }
    }

    /// Sets the kernel word to its free state. Runs once, before any other
    /// operation.
    pub fn init(&mut self)
        requires
            old(self).wf(),
            !old(self)@.ready,
        ensures
            final(self)@ == MutexView::idle(),
            final(self).wf(),
    {
        self.word = LockWord::free();
        self.ready = true;
        assert(self@.waiters =~= Seq::empty());
    }

    /// Asks for the lock on behalf of `me`, who is willing to wait. A free
    /// lock goes to `me`; otherwise `me` is parked behind those who wait
    /// already.
    pub fn lock(&mut self, me: ThreadIdentity) -> (outcome: LockOutcome)
        requires
            old(self).wf(),
            old(self)@.ready,
        ensures
            final(self)@ == old(self)@.lock(me),
            outcome == old(self)@.lock_outcome(),
            final(self).wf(),
    {
        proof {
            enqueued_facts(self@.waiters, me);
        }
        if self.word.owner().is_none() {
            self.word = LockWord::held_by(me);
            LockOutcome::Acquired
        } else {
            self.waiters.enqueue(me);
            LockOutcome::Parked
        }
    }

    /// Takes the lock for `me` if it is free, and says whether it did. Never
    /// parks anyone.
    pub fn try_lock(&mut self, me: ThreadIdentity) -> (acquired: bool)
        requires
            old(self).wf(),
            old(self)@.ready,
        ensures
            acquired <==> old(self)@.holder is None,
            final(self)@ == old(self)@.try_lock(me),
            final(self).wf(),
    {
        if self.word.owner().is_none() {
            self.word = LockWord::held_by(me);
            true
        } else {
            false
        }
    }

    /// Releases the lock that `me` holds and wakes the thread that was
    /// parked longest, if any; the woken thread is returned and asks for the
    /// lock again.
    pub fn unlock(&mut self, me: ThreadIdentity) -> (woken: Option<ThreadIdentity>)
        requires
            old(self).wf(),
            old(self)@.ready,
            old(self)@.holder == Some(me),
        ensures
            final(self)@ == old(self)@.unlock(),
            woken == old(self)@.woken(),
            final(self).wf(),
    {
        self.word = LockWord::free();
        self.waiters.dequeue()
    }

    /// Gives up the kernel state of a lock that is free and has nobody
    /// parked on it. The lock may be set up again afterwards.
    pub fn destroy(&mut self)
        requires
            old(self).wf(),
            old(self)@ == MutexView::idle(),
        ensures
            final(self)@ == MutexView::fresh(),
            final(self).wf(),
    {
        self.ready = false;
    }

    /// Whether `init` has run and `destroy` has not.
    pub fn is_ready(&self) -> (b: bool)
        ensures
            b == self@.ready,
    {
        self.ready
    }

    /// Whether some thread holds the lock.
    pub fn is_locked(&self) -> (b: bool)
        ensures
            b == self@.is_locked(),
    {
        self.word.owner().is_some()
    }

    /// The thread that holds the lock, if any.
    pub fn holder(&self) -> (h: Option<ThreadIdentity>)
        ensures
            h == self@.holder,
    {
        self.word.owner()
    }

    /// Whether `id` is parked on the lock.
    pub fn is_parked(&self, id: ThreadIdentity) -> (b: bool)
        ensures
            b <==> self@.waiters.contains(id),
    {
        self.waiters.contains(id)
    }

    /// The number of threads parked on the lock.
    pub fn parked(&self) -> (n: usize)
        ensures
            n == self@.waiters.len(),
    {
        self.waiters.len()
    }
}

/// One call in a history of calls that a single thread makes on a lock.
pub enum LockCall {
    /// A call of `lock`.
    Lock,
    /// A call of `unlock`.
    Unlock,
}

impl MutexView {
    /// Whether `call`, made by `me` on this lock, returns: a `lock` returns
    /// once the lock is acquired, so on a lock that is held it does not; an
    /// `unlock` is the holder's to make.
    pub open spec fn completes(self, me: ThreadIdentity, call: LockCall) -> bool {
        match call {
            LockCall::Lock => self.holder is None,
            LockCall::Unlock => self.holder == Some(me),
        }
    }

    /// The lock after `me` has made `call`.
    pub open spec fn after(self, me: ThreadIdentity, call: LockCall) -> MutexView {
        match call {
            LockCall::Lock => self.lock(me),
            LockCall::Unlock => self.unlock(),
        }
    }

    /// The lock after `me` has made `calls`, one after the other.
    pub open spec fn after_all(self, me: ThreadIdentity, calls: Seq<LockCall>) -> MutexView
        decreases calls.len(),
    {
        if calls.len() == 0 {
            self
        } else {
            self.after_all(me, calls.drop_last()).after(me, calls.last())
        }
    }

    /// Whether each of `calls` returns when `me` makes them one after the
    /// other.
    pub open spec fn all_complete(self, me: ThreadIdentity, calls: Seq<LockCall>) -> bool
        decreases calls.len(),
    {
        calls.len() == 0 || (self.all_complete(me, calls.drop_last()) && self.after_all(
            me,
            calls.drop_last(),
        ).completes(me, calls.last()))
    }
}

/// How many of `calls` are calls of `lock`.
pub open spec fn locks_in(calls: Seq<LockCall>) -> nat
    decreases calls.len(),
{
    if calls.len() == 0 {
        0
    } else {
        locks_in(calls.drop_last()) + if calls.last() is Lock {
            1nat
        } else {
            0nat
        }
    }
}

/// How many of `calls` are calls of `unlock`.
pub open spec fn unlocks_in(calls: Seq<LockCall>) -> nat
    decreases calls.len(),
{
    if calls.len() == 0 {
        0
    } else {
        unlocks_in(calls.drop_last()) + if calls.last() is Unlock {
            1nat
        } else {
            0nat
        }
    }
}

/// If all of `calls` return, so do all of the first `k` of them.
pub proof fn prefix_completes(s: MutexView, me: ThreadIdentity, calls: Seq<LockCall>, k: int)
    requires
        0 <= k <= calls.len(),
        s.all_complete(me, calls),
    ensures
        s.all_complete(me, calls.take(k)),
    decreases calls.len(),
{
    if k == calls.len() {
        assert(calls.take(k) =~= calls);
    } else {
        assert(calls.drop_last().take(k) =~= calls.take(k));
        prefix_completes(s, me, calls.drop_last(), k);
    }
}

/// After any history of completed `lock` and `unlock` calls that one thread
/// makes on a lock that was free at first, the completed locks outnumber the
/// completed unlocks by one if the lock is held, and equal them if it is
/// free; a held lock is held by that thread.
pub proof fn held_iff_one_more_lock(s: MutexView, me: ThreadIdentity, calls: Seq<LockCall>)
    requires
        s.ready,
        s.holder is None,
        s.all_complete(me, calls),
    ensures
        s.after_all(me, calls).is_locked() <==> locks_in(calls) == unlocks_in(calls) + 1,
        !s.after_all(me, calls).is_locked() <==> locks_in(calls) == unlocks_in(calls),
        s.after_all(me, calls).is_locked() ==> s.after_all(me, calls).holder == Some(me),
        s.after_all(me, calls).ready,
    decreases calls.len(),
{
    if calls.len() > 0 {
        held_iff_one_more_lock(s, me, calls.drop_last());
    }
}

/// The same at every instant of the history: after each prefix of the calls
/// the lock is held exactly if one more `lock` than `unlock` has completed.
pub proof fn held_iff_one_more_lock_throughout(
    s: MutexView,
    me: ThreadIdentity,
    calls: Seq<LockCall>,
)
    requires
        s.ready,
        s.holder is None,
        s.all_complete(me, calls),
    ensures
        forall|k: int|
            0 <= k <= calls.len() ==> (#[trigger] s.after_all(me, calls.take(k)).is_locked()
                <==> locks_in(calls.take(k)) == unlocks_in(calls.take(k)) + 1),
{
    assert forall|k: int| 0 <= k <= calls.len() implies (#[trigger] s.after_all(
        me,
        calls.take(k),
    ).is_locked() <==> locks_in(calls.take(k)) == unlocks_in(calls.take(k)) + 1) by {
        prefix_completes(s, me, calls, k);
        held_iff_one_more_lock(s, me, calls.take(k));
    }
}

/// What a reentrant lock is, as a value.
pub struct ReentrantView {
    /// Whether `init` has run and `destroy` has not.
    pub ready: bool,
    /// The thread that holds the lock, if any.
    pub owner: Option<ThreadIdentity>,
    /// How many times the owner has taken the lock and not yet given it back.
    pub depth: nat,
    /// The threads parked on the word, the longest-waiting first.
    pub waiters: Seq<ThreadIdentity>,
}

impl ReentrantView {
    /// A lock whose kernel state is not set up.
    pub open spec fn fresh() -> ReentrantView {
        ReentrantView { ready: false, owner: None, depth: 0, waiters: Seq::empty() }
    }

    /// A lock that is set up, free, and has nobody parked on it.
    pub open spec fn idle() -> ReentrantView {
        ReentrantView { ready: true, owner: None, depth: 0, waiters: Seq::empty() }
    }

    /// The lock has an owner exactly while its depth is positive; nobody is
    /// parked twice; a lock that is not set up is free and has no waiters.
    pub open spec fn wf(self) -> bool {
        &&& self.waiters.no_duplicates()
        &&& (self.owner is None <==> self.depth == 0)
        &&& (self.owner matches Some(h) ==> h.wf())
        &&& (!self.ready ==> self.owner is None && self.waiters.len() == 0)
    }

    /// Whether nobody holds the lock.
    pub open spec fn is_free(self) -> bool {
        self.depth == 0
    }

    /// Whether a request by `me` gets the lock at once: it is free, or `me`
    /// holds it already.
    pub open spec fn admits(self, me: ThreadIdentity) -> bool {
        self.owner is None || self.owner == Some(me)
    }

    /// The lock after `me` has asked for it without being willing to wait.
    pub open spec fn try_lock(self, me: ThreadIdentity) -> ReentrantView {
        if self.owner == Some(me) {
            ReentrantView { depth: self.depth + 1, ..self }
        } else if self.owner is None {
            ReentrantView { owner: Some(me), depth: 1, ..self }
        } else {
            self
        }
    }

    /// The lock after `me` has asked for it and is willing to wait.
    pub open spec fn lock(self, me: ThreadIdentity) -> ReentrantView {
        if self.admits(me) {
            self.try_lock(me)
        } else {
            ReentrantView { waiters: enqueued(self.waiters, me), ..self }
        }
    }

    /// What `me` is told when it asks for the lock.
    pub open spec fn lock_outcome(self, me: ThreadIdentity) -> LockOutcome {
        if self.admits(me) {
            LockOutcome::Acquired
        } else {
            LockOutcome::Parked
        }
    }

    /// The thread that the owner's next `unlock` wakes: none while the
    /// owner keeps the lock, else the one parked longest, if any.
    pub open spec fn woken(self) -> Option<ThreadIdentity> {
        if self.depth <= 1 && self.waiters.len() > 0 {
            Some(self.waiters[0])
        } else {
            None
        }
    }

    /// The lock after its owner has given it back once.
    pub open spec fn unlock(self) -> ReentrantView {
        if self.depth > 1 {
            ReentrantView { depth: (self.depth - 1) as nat, ..self }
        } else {
            ReentrantView {
                owner: None,
                depth: 0,
                waiters: if self.waiters.len() > 0 {
                    self.waiters.drop_first()
                } else {
                    self.waiters
                },
                ..self
            }
        }
    }

    /// The lock after `me` has asked for it `n` times in a row.
    pub open spec fn lock_times(self, me: ThreadIdentity, n: nat) -> ReentrantView
        decreases n,
    {
        if n == 0 {
            self
        } else {
            self.lock_times(me, (n - 1) as nat).lock(me)
        }
    }

    /// The lock after its owner has given it back `n` times in a row.
    pub open spec fn unlock_times(self, n: nat) -> ReentrantView
        decreases n,
    {
        if n == 0 {
            self
        } else {
            self.unlock_times((n - 1) as nat).unlock()
        }
    }
}

/// A lock that its holder may take again: it counts how often the holder
/// took it, and is free when the holder has given it back as often.
pub struct ReentrantMutex {
    lock: Mutex,
    thread_tag: u32,
    counter: u32,
}

impl View for ReentrantMutex {
    type V = ReentrantView;

    closed spec fn view(&self) -> ReentrantView {
        ReentrantView {
            ready: self.lock@.ready,
            owner: ThreadIdentity::decode(self.thread_tag),
            depth: self.counter as nat,
            waiters: self.lock@.waiters,
        }
    }
}

impl ReentrantMutex {
    /// The underlying primitive is held by the owner exactly while the
    /// depth is positive.
    pub closed spec fn coupled(&self) -> bool {
        &&& self.lock.wf()
        &&& self.lock@.holder == ThreadIdentity::decode(self.thread_tag)
        &&& (self.counter == 0 <==> self.thread_tag == 0)
    }

    /// The invariant of the lock: that of its value, and the tie between
    /// the value and the underlying primitive.
    pub open spec fn wf(&self) -> bool {
        self@.wf() && self.coupled()
    }

    /// A lock whose memory exists and whose kernel state is not yet set up.
    pub fn uninitialized() -> (m: ReentrantMutex)
        ensures
            m@ == ReentrantView::fresh(),
            m.wf(),
    {
        proof {
            ThreadIdentity::decode_facts(0);
        }
        ReentrantMutex { lock: Mutex::new(), thread_tag: 0, counter: 0 }
    }

    /// Sets up the kernel state: free, no owner, depth zero. Runs once,
    /// before any other operation.
    pub fn init(&mut self)
        requires
            old(self).wf(),
            !old(self)@.ready,
        ensures
            final(self)@ == ReentrantView::idle(),
            final(self).wf(),
    {
        proof {
            ThreadIdentity::decode_facts(0);
        }
        self.lock.init();
        self.thread_tag = 0;
        self.counter = 0;
    }

    /// Asks for the lock on behalf of `me`, who is willing to wait. If `me`
    /// holds the lock, the depth grows by one and nothing else happens. A
    /// free lock goes to `me` at depth one. Otherwise `me` is parked.
    pub fn lock(&mut self, me: ThreadIdentity) -> (outcome: LockOutcome)
        requires
            old(self).wf(),
            old(self)@.ready,
            old(self)@.owner == Some(me) ==> old(self)@.depth < u32::MAX,
        ensures
            final(self)@ == old(self)@.lock(me),
            outcome == old(self)@.lock_outcome(me),
            final(self).wf(),
    {
        proof {
            ThreadIdentity::decode_facts(self.thread_tag);
        }
        let tag = me.tag();
        if self.thread_tag == tag {
            self.counter = self.counter + 1;
            LockOutcome::Acquired
        } else {
            match self.lock.lock(me) {
                LockOutcome::Acquired => {
                    self.thread_tag = tag;
                    self.counter = 1;
                    LockOutcome::Acquired
                },
                LockOutcome::Parked => LockOutcome::Parked,
            }
        }
    }

    /// Takes the lock for `me` if `me` holds it already or it is free, and
    /// says whether it did. Never parks anyone.
    pub fn try_lock(&mut self, me: ThreadIdentity) -> (acquired: bool)
        requires
            old(self).wf(),
            old(self)@.ready,
            old(self)@.owner == Some(me) ==> old(self)@.depth < u32::MAX,
        ensures
            acquired <==> old(self)@.admits(me),
            final(self)@ == old(self)@.try_lock(me),
            final(self).wf(),
    {
        proof {
            ThreadIdentity::decode_facts(self.thread_tag);
        }
        let tag = me.tag();
        if self.thread_tag == tag {
            self.counter = self.counter + 1;
            true
        } else if self.lock.try_lock(me) {
            self.thread_tag = tag;
            self.counter = 1;
            true
        } else {
            false
        }
    }

    /// Gives the lock back once on behalf of its owner `me`. When the depth
    /// reaches zero the owner is cleared, the underlying primitive is
    /// released, and the thread parked longest, if any, is woken and
    /// returned.
    pub fn unlock(&mut self, me: ThreadIdentity) -> (woken: Option<ThreadIdentity>)
        requires
            old(self).wf(),
            old(self)@.ready,
            old(self)@.owner == Some(me),
        ensures
            final(self)@ == old(self)@.unlock(),
            woken == old(self)@.woken(),
            final(self).wf(),
    {
        proof {
            ThreadIdentity::decode_facts(self.thread_tag);
            ThreadIdentity::decode_facts(0);
        }
        self.counter = self.counter - 1;
        if self.counter == 0 {
            self.thread_tag = 0;
            self.lock.unlock(me)
        } else {
            None
        }
    }

    /// Gives up the kernel state of a lock that is free and has nobody
    /// parked on it. The lock may be set up again afterwards.
    pub fn destroy(&mut self)
        requires
            old(self).wf(),
            old(self)@ == ReentrantView::idle(),
        ensures
            final(self)@ == ReentrantView::fresh(),
            final(self).wf(),
    {
        proof {
            ThreadIdentity::decode_facts(self.thread_tag);
        }
        self.lock.destroy();
    }

    /// Whether `init` has run and `destroy` has not.
    pub fn is_ready(&self) -> (b: bool)
        ensures
            b == self@.ready,
    {
        self.lock.is_ready()
    }

    /// The thread that holds the lock, if any.
    pub fn owner(&self) -> (h: Option<ThreadIdentity>)
        ensures
            h == self@.owner,
    {
        ThreadIdentity::new(self.thread_tag)
    }

    /// How many times the owner has taken the lock and not yet given it back.
    pub fn depth(&self) -> (d: u32)
        ensures
            d == self@.depth,
    {
        self.counter
    }

    /// Whether `id` is parked on the lock.
    pub fn is_parked(&self, id: ThreadIdentity) -> (b: bool)
        ensures
            b <==> self@.waiters.contains(id),
    {
        self.lock.is_parked(id)
    }
}

/// A thread that takes a free reentrant lock `n` times is never parked, and
/// then holds it at depth `n`.
pub proof fn relock_never_blocks(s: ReentrantView, me: ThreadIdentity, n: nat)
    requires
        s.wf(),
        s.is_free(),
    ensures
        forall|k: nat| k < n ==> #[trigger] s.lock_times(me, k).lock_outcome(me) == LockOutcome::Acquired,
        n > 0 ==> s.lock_times(me, n).owner == Some(me),
        s.lock_times(me, n).depth == n,
        s.lock_times(me, n).waiters == s.waiters,
        s.lock_times(me, n).ready == s.ready,
    decreases n,
{
    if n > 0 {
        relock_never_blocks(s, me, (n - 1) as nat);
    }
}

/// While a thread gives back a lock that it holds at depth `d`, the lock
/// stays its own until the last of the `d` unlocks, which leaves it free.
pub proof fn unlock_counts_down(s: ReentrantView, me: ThreadIdentity, j: nat)
    requires
        s.wf(),
        s.owner == Some(me),
        j <= s.depth,
    ensures
        s.unlock_times(j).depth == s.depth - j,
        j < s.depth ==> s.unlock_times(j).owner == Some(me),
        j == s.depth ==> s.unlock_times(j).owner is None,
        s.unlock_times(j).ready == s.ready,
        s.unlock_times(j).wf(),
    decreases j,
{
    if j > 0 {
        unlock_counts_down(s, me, (j - 1) as nat);
    }
}

/// A thread that takes a free reentrant lock `n` times and gives it back `n`
/// times is never parked by its own requests and leaves the lock free. As
/// long as fewer than `n` unlocks have been made, another thread that tries
/// the lock fails and changes nothing; after the `n`-th it succeeds.
pub proof fn reentrant_round_trip(
    s: ReentrantView,
    me: ThreadIdentity,
    other: ThreadIdentity,
    n: nat,
)
    requires
        s.wf(),
        s.ready,
        s.is_free(),
        me.wf(),
        other != me,
    ensures
        forall|k: nat| k < n ==> #[trigger] s.lock_times(me, k).lock_outcome(me) == LockOutcome::Acquired,
        forall|k: nat|
            0 < k <= n ==> {
                let held = #[trigger] s.lock_times(me, k);
                held.depth == k && !held.admits(other) && held.try_lock(other) == held
            },
        s.lock_times(me, n).unlock_times(n).is_free(),
        s.lock_times(me, n).unlock_times(n).owner is None,
        forall|j: nat|
            j < n ==> {
                let held = #[trigger] s.lock_times(me, n).unlock_times(j);
                &&& held.depth > 0
                &&& !held.admits(other)
                &&& held.try_lock(other) == held
            },
        s.lock_times(me, n).unlock_times(n).admits(other),
        s.lock_times(me, n).unlock_times(n).try_lock(other).owner == Some(other),
{
    relock_never_blocks(s, me, n);
    assert forall|k: nat| 0 < k <= n implies {
        let held = #[trigger] s.lock_times(me, k);
        held.depth == k && !held.admits(other) && held.try_lock(other) == held
    } by {
        relock_never_blocks(s, me, k);
    }
    if n > 0 {
        let top = s.lock_times(me, n);
        unlock_counts_down(top, me, n);
        assert forall|j: nat| j < n implies {
            let held = #[trigger] top.unlock_times(j);
            &&& held.depth > 0
            &&& !held.admits(other)
            &&& held.try_lock(other) == held
        } by {
            unlock_counts_down(top, me, j);
        }
    }
}

} // verus!
