//! The condition variable: a wait/notify key on which threads park while
//! they have given up a lock, and from which a notification or a timeout
//! sends them back to take the lock again.

use vstd::prelude::*;
use crate::identity::ThreadIdentity;
use crate::mutex::{raw, LockOutcome, LockWord, Mutex, MutexView};
use crate::queue::{enqueued, enqueued_facts, without, WaitQueue};
use crate::time::Duration;

verus! {

/// The count that asks the kernel to wake one thread parked on a key.
pub const SIGNAL_ONE: i32 = 1;

/// The count that asks the kernel to wake every thread parked on a key.
pub const SIGNAL_ALL: i32 = -1;

/// The timeout, in milliseconds, of a wait that has no timeout.
pub const WAIT_FOREVER: u64 = u64::MAX;

/// The kernel word of a condition variable. It is a type of its own, so that
/// it cannot be taken for the word of a lock.
#[derive(Clone, Copy, Debug, PartialEq, Eq, Structural)]
pub struct WaitKey {
    raw: u32,
}

impl WaitKey {
    /// The value of the word.
    pub closed spec fn raw_spec(self) -> u32 {
        self.raw
    }

    /// The zeroed key.
    pub fn zero() -> (k: WaitKey)
        ensures
            k.raw_spec() == 0,
    {
        WaitKey { raw: 0 }
    }

    /// The value of the word.
    pub fn raw(self) -> (r: u32)
        ensures
            r == self.raw_spec(),
    {
        self.raw
    }
}

/// Why a parked thread left the key.
#[derive(Clone, Copy, Debug, PartialEq, Eq, Structural)]
pub enum Wake {
    /// A notification woke it.
    Notified,
    /// Its timeout ran out first.
    TimedOut,
}

impl Wake {
    /// Why the kernel's wait ended, read from its result code: zero reports
    /// a notification, every other code a timeout.
    pub fn from_native(rc: u32) -> (cause: Wake)
        ensures
            rc == 0 <==> cause is Notified,
            rc != 0 <==> cause is TimedOut,
    {
        if rc == 0 {
            Wake::Notified
        } else {
            Wake::TimedOut
        }
    }

    /// What `wait_timeout` returns to a thread that left the key for this
    /// cause: `true` after a notification, `false` after a timeout.
    pub fn as_result(self) -> (woken_by_notify: bool)
        ensures
            woken_by_notify == wait_result(self),
    {
        match self {
            Wake::Notified => true,
            Wake::TimedOut => false,
        }
    }
}

/// What the kernel is asked when a thread begins to wait, and what the
/// release of the lock did.
#[derive(Clone, Copy, Debug)]
pub struct WaitRequest {
    /// The key to park on.
    pub key: WaitKey,
    /// The word of the lock that the wait gives up and takes again.
    pub lock: LockWord,
    /// The timeout in whole milliseconds.
    pub millis: u64,
    /// The thread, parked on the lock, that the release of the lock woke.
    pub woken: Option<ThreadIdentity>,
}

/// What a condition variable is, as a value.
pub struct CondvarView {
    /// The value of the key.
    pub key: u32,
    /// The threads parked on the key, the longest-waiting first.
    pub waiters: Seq<ThreadIdentity>,
}

impl CondvarView {
    /// A condition variable with a zeroed key and nobody parked on it.
    pub open spec fn idle() -> CondvarView {
        CondvarView { key: 0, waiters: Seq::empty() }
    }

    /// Nobody is parked twice.
    pub open spec fn wf(self) -> bool {
        self.waiters.no_duplicates()
    }

    /// The condition variable after `me` has parked on it.
    pub open spec fn wait(self, me: ThreadIdentity) -> CondvarView {
        CondvarView { waiters: enqueued(self.waiters, me), ..self }
    }

    /// The thread that `notify_one` wakes: the one parked longest, if any.
    pub open spec fn notified(self) -> Option<ThreadIdentity> {
        if self.waiters.len() > 0 {
            Some(self.waiters[0])
        } else {
            None
        }
    }

    /// The condition variable after `notify_one`.
    pub open spec fn notify_one(self) -> CondvarView {
        if self.waiters.len() > 0 {
            CondvarView { waiters: self.waiters.drop_first(), ..self }
        } else {
            self
        }
    }

    /// The condition variable after `notify_all`.
    pub open spec fn notify_all(self) -> CondvarView {
        CondvarView { waiters: Seq::empty(), ..self }
    }

    /// The condition variable after the timeout of `me` has run out.
    pub open spec fn expire(self, me: ThreadIdentity) -> CondvarView {
        CondvarView { waiters: without(self.waiters, me), ..self }
    }

    /// The condition variable after `n` calls of `notify_one`.
    pub open spec fn notify_times(self, n: nat) -> CondvarView
        decreases n,
    {
        if n == 0 {
            self
        } else {
            self.notify_times((n - 1) as nat).notify_one()
        }
    }
}

/// The timeout that the kernel is given for a wait of `dur`: the whole
/// milliseconds of `dur`; what is left below a millisecond is dropped.
pub open spec fn timeout_millis_spec(dur: Duration) -> nat {
    dur.total_millis()
}

/// What `wait_timeout` returns to a thread that left the key for `cause`.
pub open spec fn wait_result(cause: Wake) -> bool {
    cause is Notified
}

/// A condition variable.
pub struct Condvar {
    key: WaitKey,
    waiters: WaitQueue,
}

impl View for Condvar {
    type V = CondvarView;

    closed spec fn view(&self) -> CondvarView {
        CondvarView { key: self.key.raw_spec(), waiters: self.waiters@ }
    }
}

impl Condvar {
    /// The invariant of the condition variable, stated on its value.
    pub open spec fn wf(&self) -> bool {
        self@.wf()
    }

    /// A condition variable with a zeroed key and nobody parked on it.
    pub fn new() -> (cv: Condvar)
        ensures
            cv@ == CondvarView::idle(),
            cv.wf(),
    {
        let cv = Condvar { key: WaitKey::zero(), waiters: WaitQueue::new() };
        cv
    }

    /// Zeroes the key of a condition variable on which nobody is parked.
    pub fn init(&mut self)
        requires
            old(self).wf(),
            old(self)@.waiters.len() == 0,
        ensures
            final(self)@ == CondvarView::idle(),
            final(self).wf(),
    {
        self.key = WaitKey::zero();
        assert(self@.waiters =~= Seq::empty());
    }

    /// The key, as it is handed to the kernel.
    pub fn key(&self) -> (k: WaitKey)
        ensures
            k.raw_spec() == self@.key,
    {
        self.key
    }

    /// The timeout in milliseconds that stands for `dur`.
    pub fn timeout_millis(dur: Duration) -> (millis: u64)
        requires
            timeout_millis_spec(dur) <= u64::MAX,
        ensures
            millis == timeout_millis_spec(dur),
    {
        dur.as_secs() * 1000 + dur.subsec_millis() as u64
    }

    /// The timeout in milliseconds that stands for `dur`, or none if it
    /// does not fit into the kernel's count of milliseconds.
    pub fn checked_timeout_millis(dur: Duration) -> (millis: Option<u64>)
        ensures
            millis is Some <==> timeout_millis_spec(dur) <= u64::MAX,
            millis matches Some(m) ==> m == timeout_millis_spec(dur),
    {
        let secs = dur.as_secs();
        let rest = dur.subsec_millis() as u64;
        if secs <= (u64::MAX - rest) / 1000 {
            Some(secs * 1000 + rest)
        } else {
            None
        }
    }

    /// Wakes the thread that has been parked longest, if anyone is parked,
    /// and returns it; it then has to take its lock again. Does nothing when
    /// nobody is parked.
    pub fn notify_one(&mut self) -> (woken: Option<ThreadIdentity>)
        requires
            old(self).wf(),
        ensures
            woken == old(self)@.notified(),
            final(self)@ == old(self)@.notify_one(),
            final(self).wf(),
    {
        self.waiters.dequeue()
    }

    /// Wakes every parked thread and returns them in the order in which
    /// they had parked; each then has to take its lock again.
    pub fn notify_all(&mut self) -> (woken: Vec<ThreadIdentity>)
        requires
            old(self).wf(),
        ensures
            woken@ == old(self)@.waiters,
            final(self)@ == old(self)@.notify_all(),
            final(self).wf(),
    {
        self.waiters.drain()
    }

    /// Begins a wait without timeout: `wait_timeout` with the longest
    /// timeout there is.
    pub fn wait(&mut self, mutex: &mut Mutex, me: ThreadIdentity) -> (req: WaitRequest)
        requires
            old(self).wf(),
            old(mutex).wf(),
            old(mutex)@.ready,
            old(mutex)@.holder == Some(me),
        ensures
            final(self)@ == old(self)@.wait(me),
            final(mutex)@ == old(mutex)@.unlock(),
            req.key.raw_spec() == old(self)@.key,
            req.lock.holder() == Some(me),
            req.millis == WAIT_FOREVER,
            req.woken == old(mutex)@.woken(),
            final(self).wf(),
            final(mutex).wf(),
    {
        let forever = Duration::from_millis(WAIT_FOREVER);
        self.wait_timeout(mutex, me, forever)
    }

    /// Begins a wait of at most `dur` by `me`, who holds `mutex`. In one
    /// step `me` parks on the key and gives up the lock, which wakes the
    /// thread parked longest on the lock, if any. The result says what the
    /// kernel is asked: the key, the word of the lock, and the timeout in
    /// whole milliseconds.
    ///
    /// The wait ends when a notification or the timeout takes `me` off the
    /// key and `reacquire` has then given `me` the lock back.
    pub fn wait_timeout(
        &mut self,
        mutex: &mut Mutex,
        me: ThreadIdentity,
        dur: Duration,
    ) -> (req: WaitRequest)
        requires
            old(self).wf(),
            old(mutex).wf(),
            old(mutex)@.ready,
            old(mutex)@.holder == Some(me),
            timeout_millis_spec(dur) <= u64::MAX,
        ensures
            final(self)@ == old(self)@.wait(me),
            final(mutex)@ == old(mutex)@.unlock(),
            req.key.raw_spec() == old(self)@.key,
            req.lock.holder() == Some(me),
            req.millis == timeout_millis_spec(dur),
            req.woken == old(mutex)@.woken(),
            final(self).wf(),
            final(mutex).wf(),
    {
        let millis = Self::timeout_millis(dur);
        let lock = raw(mutex);
        self.waiters.enqueue(me);
        let woken = mutex.unlock(me);
        WaitRequest { key: self.key, lock, millis, woken }
    }

    /// The timeout of the wait of `me` has run out. If `me` is still parked
    /// it leaves the key, and the result is `true`: its wait ends for
    /// `Wake::TimedOut`. If a notification came first, nothing changes and
    /// the result is `false`.
    pub fn expire(&mut self, me: ThreadIdentity) -> (timed_out: bool)
        requires
            old(self).wf(),
        ensures
            timed_out <==> old(self)@.waiters.contains(me),
            final(self)@ == old(self)@.expire(me),
            final(self).wf(),
    {
        self.waiters.remove(me)
    }

    /// The last step of a wait: `me`, who has left the key for `cause`, asks
    /// for `mutex` again. If the lock is free `me` takes it and the wait
    /// returns: the result holds what `wait_timeout` returns, `true` after a
    /// notification and `false` after a timeout. If the lock is held, `me`
    /// is parked on it, the wait has not returned, and `me` repeats this
    /// step when a release wakes it.
    pub fn reacquire(mutex: &mut Mutex, me: ThreadIdentity, cause: Wake) -> (returned: Option<bool>)
        requires
            old(mutex).wf(),
            old(mutex)@.ready,
        ensures
            returned is Some <==> old(mutex)@.holder is None,
            returned is Some ==> returned == Some(wait_result(cause)) && final(mutex)@.holder
                == Some(me),
            final(mutex)@ == old(mutex)@.lock(me),
            final(mutex).wf(),
    {
        match mutex.lock(me) {
            LockOutcome::Acquired => Some(cause.as_result()),
            LockOutcome::Parked => None,
        }
    }

    /// Does nothing: the kernel keeps no state of its own for a key.
    pub fn destroy(&mut self)
        ensures
            *final(self) == *old(self),
    {
    }

    /// Whether `id` is parked on the key.
    pub fn is_parked(&self, id: ThreadIdentity) -> (b: bool)
        ensures
            b <==> self@.waiters.contains(id),
    {
        self.waiters.contains(id)
    }

    /// The number of threads parked on the key.
    pub fn parked(&self) -> (n: usize)
        ensures
            n == self@.waiters.len(),
    {
        self.waiters.len()
    }
}

/// After `n` notifications the first `n` waiters are gone and the others
/// keep their order.
pub proof fn notify_times_skips(cv: CondvarView, n: nat)
    requires
        n <= cv.waiters.len(),
    ensures
        cv.notify_times(n).waiters == cv.waiters.skip(n as int),
        cv.notify_times(n).key == cv.key,
    decreases n,
{
    if n > 0 {
        notify_times_skips(cv, (n - 1) as nat);
    }
}

/// A thread that parks on a condition variable is woken in its turn: each
/// `notify_one` wakes the thread that has been parked longest, so after as
/// many notifications as there were threads parked before it, the next one
/// wakes this thread, and `notify_all` wakes it too.
pub proof fn waiter_is_woken_in_turn(cv: CondvarView, me: ThreadIdentity)
    requires
        cv.wf(),
        !cv.waiters.contains(me),
    ensures
        cv.wait(me).waiters.contains(me),
        forall|j: nat|
            j < cv.waiters.len() ==> {
                let then = #[trigger] cv.wait(me).notify_times(j);
                then.waiters.contains(me) && then.notified() != Some(me)
            },
        cv.wait(me).notify_times(cv.waiters.len()).notified() == Some(me),
        !cv.wait(me).notify_times(cv.waiters.len()).notify_one().waiters.contains(me),
        !cv.wait(me).notify_all().waiters.contains(me),
{
    let parked = cv.wait(me);
    let ahead = cv.waiters.len();
    assert forall|j: nat| j < ahead implies {
        let then = #[trigger] parked.notify_times(j);
        then.waiters.contains(me) && then.notified() != Some(me)
    } by {
        notify_times_skips(parked, j);
        assert(parked.notify_times(j).waiters[ahead - j] == me);
    }
    notify_times_skips(parked, ahead);
}

/// A waiter that a notification wakes returns from its wait holding the
/// lock. The waiter parks and gives up the lock; the notifier takes the
/// lock and notifies, which wakes the waiter. If the notifier still holds
/// the lock, the waiter is parked on the lock and its wait has not
/// returned; the notifier's release wakes it, and it then takes the lock.
/// If the notifier has released the lock already, the waiter takes it at
/// once.
pub proof fn notified_waiter_returns_with_lock(
    cv: CondvarView,
    m: MutexView,
    waiter: ThreadIdentity,
    notifier: ThreadIdentity,
)
    requires
        cv.wf(),
        m.wf(),
        m.ready,
        m.holder == Some(waiter),
        cv.waiters.len() == 0,
        m.waiters.len() == 0,
        waiter != notifier,
    ensures
        ({
            let parked = cv.wait(waiter);
            let released = m.unlock();
            let taken = released.lock(notifier);
            let contended = taken.lock(waiter);
            let handed_back = contended.unlock();
            &&& released.lock_outcome() == LockOutcome::Acquired
            &&& taken.holder == Some(notifier)
            &&& parked.notified() == Some(waiter)
            &&& !parked.notify_one().waiters.contains(waiter)
            &&& taken.lock_outcome() == LockOutcome::Parked
            &&& contended.holder == Some(notifier)
            &&& contended.woken() == Some(waiter)
            &&& handed_back.lock_outcome() == LockOutcome::Acquired
            &&& handed_back.lock(waiter).holder == Some(waiter)
            &&& taken.unlock().lock_outcome() == LockOutcome::Acquired
            &&& taken.unlock().lock(waiter).holder == Some(waiter)
        }),
{
}

/// A waiter whose timeout runs out before any notification leaves the key,
/// and when it has taken the free lock again it holds the lock as it did
/// before the wait.
pub proof fn timed_out_waiter_returns_with_lock(
    cv: CondvarView,
    m: MutexView,
    me: ThreadIdentity,
)
    requires
        cv.wf(),
        m.wf(),
        m.ready,
        m.holder == Some(me),
        !cv.waiters.contains(me),
    ensures
        cv.wait(me).waiters.contains(me),
        cv.wait(me).expire(me) == cv,
        m.unlock().lock_outcome() == LockOutcome::Acquired,
        m.unlock().lock(me).holder == Some(me),
        !wait_result(Wake::TimedOut),
{
    let parked = cv.wait(me);
    let last = cv.waiters.len() as int;
    assert(parked.waiters[last] == me);
    enqueued_facts(cv.waiters, me);
    assert(parked.waiters.remove(parked.waiters.index_of(me)) =~= cv.waiters);
}

} // verus!
