//! Thread identities: small copyable values by which the primitives tell
//! threads apart.

use vstd::prelude::*;

verus! {

/// The identity of one thread.
///
/// The tag is the word the kernel uses for the thread. Zero is never a
/// thread: a lock word of zero means that nobody holds the lock.
#[derive(Clone, Copy, Debug, PartialEq, Eq, Structural)]
pub struct ThreadIdentity {
    tag: u32,
}

impl ThreadIdentity {
    /// The tag of this identity.
    pub closed spec fn tag_spec(self) -> u32 {
        self.tag
    }

    /// An identity is valid when its tag is not zero.
    pub open spec fn wf(self) -> bool {
        self.tag_spec() != 0
    }

    #[verifier::type_invariant]
    spec fn nonzero(self) -> bool {
        self.tag != 0
    }

    /// The thread that a kernel word names: nobody for zero, otherwise the
    /// identity with that tag.
    pub closed spec fn decode(tag: u32) -> Option<ThreadIdentity> {
        if tag == 0 {
            None
        } else {
            Some(ThreadIdentity { tag })
        }
    }

    /// `decode` yields nobody exactly for zero, and otherwise a valid
    /// identity that carries the tag.
    pub proof fn decode_facts(tag: u32)
        ensures
            tag == 0 <==> Self::decode(tag) is None,
            Self::decode(tag) matches Some(id) ==> id.tag_spec() == tag && id.wf(),
    {
    }

    /// The identity with the given tag, or `None` for the tag zero.
    pub fn new(tag: u32) -> (r: Option<ThreadIdentity>)
        ensures
            r == Self::decode(tag),
            tag == 0 <==> r is None,
            r matches Some(id) ==> id.tag_spec() == tag && id.wf(),
    {
        if tag == 0 {
            None
        } else {
            Some(ThreadIdentity { tag })
        }
    }

    /// The tag of this identity; never zero.
    pub fn tag(self) -> (t: u32)
        ensures
            t == self.tag_spec(),
            t != 0,
            self.wf(),
            Self::decode(t) == Some(self),
    {
        proof {
            use_type_invariant(&self);
        }
        self.tag
    }
}

} // verus!
