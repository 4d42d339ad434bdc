//! The thread identity registry: for each thread one slot that holds who the
//! thread is and where its stack guard lies. The slot is handed to every
//! operation, and so is the source from which a thread that has no record
//! yet draws a fresh identity.

use vstd::prelude::*;
use crate::identity::ThreadIdentity;

verus! {

/// The process-wide source of fresh identities. It hands out the tags one,
/// two, three and so on, each once.
pub struct IdentitySource {
    issued: u32,
}

impl View for IdentitySource {
    type V = nat;

    /// How many identities the source has handed out.
    closed spec fn view(&self) -> nat {
        self.issued as nat
    }
}

/// Whether a source that has handed out `issued` identities has one more.
pub open spec fn has_fresh(issued: nat) -> bool {
    issued < u32::MAX
}

impl IdentitySource {
    /// A source that has handed out nothing.
    pub fn new() -> (ids: IdentitySource)
        ensures
            ids@ == 0,
    {
        IdentitySource { issued: 0 }
    }

    /// How many identities the source has handed out.
    pub fn issued(&self) -> (n: u32)
        ensures
            n == self@,
    {
        self.issued
    }

    /// The next identity, whose tag is one more than the number handed out
    /// before; none when the tags are used up.
    pub fn fresh(&mut self) -> (id: Option<ThreadIdentity>)
        ensures
            has_fresh(old(self)@) ==> final(self)@ == old(self)@ + 1 && id
                == ThreadIdentity::decode((old(self)@ + 1) as u32) && id is Some,
            !has_fresh(old(self)@) ==> final(self)@ == old(self)@ && id is None,
    {
        if self.issued == u32::MAX {
            None
        } else {
            self.issued = self.issued + 1;
            ThreadIdentity::new(self.issued)
        }
    }
}

/// The record of one thread.
#[derive(Clone, Copy, Debug, PartialEq, Eq, Structural)]
pub struct ThreadInfo {
    /// Where the guard of the thread's stack lies, if that is recorded.
    pub stack_guard: Option<usize>,
    /// Who the thread is.
    pub thread: ThreadIdentity,
}

/// The slot of one thread in the registry.
#[derive(Clone, Copy, Debug, PartialEq, Eq, Structural)]
pub enum ThreadSlot {
    /// The thread has no record yet.
    Vacant,
    /// The thread has this record.
    Occupied(ThreadInfo),
    /// The thread is ending: its record is gone and none is made any more.
    Destroyed,
}

impl ThreadSlot {
    /// The slot of a thread that has just begun.
    pub fn new() -> (slot: ThreadSlot)
        ensures
            slot == ThreadSlot::Vacant,
    {
        ThreadSlot::Vacant
    }

    /// The record in the slot, if there is one.
    pub open spec fn record(self) -> Option<ThreadInfo> {
        match self {
            ThreadSlot::Occupied(info) => Some(info),
            _ => None,
        }
    }

    /// Who the thread of this slot is, if the slot holds a record.
    pub open spec fn identity(self) -> Option<ThreadIdentity> {
        match self {
            ThreadSlot::Occupied(info) => Some(info.thread),
            _ => None,
        }
    }

    /// The slot after a query: a vacant slot gets a record with the next
    /// fresh identity and no stack guard, if the source still has one;
    /// every other slot stays as it is.
    pub open spec fn queried(self, issued: nat) -> ThreadSlot {
        if self is Vacant && has_fresh(issued) {
            match ThreadIdentity::decode((issued + 1) as u32) {
                Some(thread) => ThreadSlot::Occupied(ThreadInfo { stack_guard: None, thread }),
                None => self,
            }
        } else {
            self
        }
    }

    /// How many identities the source has handed out after a query of this
    /// slot.
    pub open spec fn issued_after_query(self, issued: nat) -> nat {
        if self is Vacant && has_fresh(issued) {
            issued + 1
        } else {
            issued
        }
    }

    /// Ends the slot together with its thread: the record is dropped, and
    /// later queries find nothing.
    pub fn teardown(&mut self)
        ensures
            *final(self) == ThreadSlot::Destroyed,
    {
        *self = ThreadSlot::Destroyed;
    }
}

impl ThreadInfo {
    /// Runs `f` on the record of the thread whose slot this is, after making
    /// the record if the slot is vacant. The result is what `f` returned;
    /// none if the slot holds no record afterwards, because the thread is
    /// ending or no identity is left.
    pub fn with<R, F: FnOnce(&ThreadInfo) -> R>(
        slot: &mut ThreadSlot,
        ids: &mut IdentitySource,
        f: F,
    ) -> (r: Option<R>)
        requires
            forall|info: ThreadInfo| f.requires((&info,)),
        ensures
            *final(slot) == old(slot).queried(old(ids)@),
            final(ids)@ == old(slot).issued_after_query(old(ids)@),
            r is Some <==> final(slot).record() is Some,
            r matches Some(out) ==> f.ensures((&final(slot).record().unwrap(),), out),
    {
        if let ThreadSlot::Vacant = slot {
            if let Some(thread) = ids.fresh() {
                *slot = ThreadSlot::Occupied(ThreadInfo { stack_guard: None, thread });
            }
        }
        match slot {
            ThreadSlot::Occupied(info) => Some(f(info)),
            _ => None,
        }
    }
}

/// Who the calling thread is. The first query of a thread makes its record,
/// with a fresh identity; later queries find that record. None if the
/// thread is ending or no identity is left.
pub fn current_thread(slot: &mut ThreadSlot, ids: &mut IdentitySource) -> (r: Option<
    ThreadIdentity,
>)
    ensures
        *final(slot) == old(slot).queried(old(ids)@),
        final(ids)@ == old(slot).issued_after_query(old(ids)@),
        r == final(slot).identity(),
{
    let thread_of = |info: &ThreadInfo| -> (id: ThreadIdentity)
        ensures
            id == info.thread,
        { info.thread };
    ThreadInfo::with(slot, ids, thread_of)
}

/// Where the guard of the calling thread's stack lies. Like a query for the
/// identity, this makes the record of a thread that has none. None if no
/// guard is recorded, and none if there is no record.
pub fn stack_guard(slot: &mut ThreadSlot, ids: &mut IdentitySource) -> (r: Option<usize>)
    ensures
        *final(slot) == old(slot).queried(old(ids)@),
        final(ids)@ == old(slot).issued_after_query(old(ids)@),
        r == match final(slot).record() {
            Some(info) => info.stack_guard,
            None => None,
        },
{
    let guard_of = |info: &ThreadInfo| -> (g: Option<usize>)
        ensures
            g == info.stack_guard,
        { info.stack_guard };
    match ThreadInfo::with(slot, ids, guard_of) {
        Some(guard) => guard,
        None => None,
    }
}

/// Installs the record of the calling thread. This is done once, on a slot
/// that is vacant.
pub fn set(slot: &mut ThreadSlot, stack_guard: Option<usize>, thread: ThreadIdentity)
    requires
        *old(slot) == ThreadSlot::Vacant,
    ensures
        *final(slot) == ThreadSlot::Occupied(ThreadInfo { stack_guard, thread }),
{
    *slot = ThreadSlot::Occupied(ThreadInfo { stack_guard, thread });
}

/// A thread that asks twice who it is gets the same answer twice: the
/// second query finds the slot as the first one left it, and draws nothing
/// from the source.
pub proof fn same_thread_same_identity(slot: ThreadSlot, issued: nat)
    requires
        issued <= u32::MAX,
    ensures
        ({
            let once = slot.queried(issued);
            let drawn = slot.issued_after_query(issued);
            &&& once.queried(drawn) == once
            &&& once.issued_after_query(drawn) == drawn
            &&& once.queried(drawn).identity() == once.identity()
        }),
{
    if has_fresh(issued) {
        ThreadIdentity::decode_facts((issued + 1) as u32);
    }
}

/// A record that a query makes holds an identity that no record made before
/// it holds: its tag is one more than the number of identities handed out
/// until then.
pub proof fn fresh_identity_is_new(earlier: ThreadSlot, later: ThreadSlot, issued: nat)
    requires
        issued <= u32::MAX,
        later is Vacant,
        earlier.identity() matches Some(id) ==> id.tag_spec() <= issued,
    ensures
        later.queried(issued).identity() matches Some(id) ==> id.tag_spec() == issued + 1
            && earlier.identity() != Some(id),
{
    if has_fresh(issued) {
        ThreadIdentity::decode_facts((issued + 1) as u32);
    }
}

/// Two threads that ask who they are, one after the other and each for the
/// first time, get different answers.
pub proof fn distinct_threads_distinct_identities(issued: nat)
    requires
        issued <= u32::MAX,
    ensures
        ({
            let first = ThreadSlot::Vacant.queried(issued);
            let drawn = ThreadSlot::Vacant.issued_after_query(issued);
            let second = ThreadSlot::Vacant.queried(drawn);
            first.identity() is Some && second.identity() is Some ==> first.identity()
                != second.identity()
        }),
{
    let first = ThreadSlot::Vacant.queried(issued);
    let drawn = ThreadSlot::Vacant.issued_after_query(issued);
    if has_fresh(issued) {
        ThreadIdentity::decode_facts((issued + 1) as u32);
    }
    fresh_identity_is_new(first, ThreadSlot::Vacant, drawn);
}

} // verus!
