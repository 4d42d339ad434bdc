//! Thread handles: what the native creation call's answer means, who owns
//! the deferred computation afterwards, and what the native layer is asked
//! for sleeping and joining.
//!
//! A `Thread` exists exactly while its native thread has been created and
//! not yet joined. `join` consumes it, so that no thread is joined twice.
//! A `Thread` that is dropped, or turned into its plain handle by
//! `into_id`, is detached: the native thread runs on, and nothing reclaims
//! its native resources.

use vstd::prelude::*;
use crate::identity::ThreadIdentity;
use crate::time::Duration;

pub mod guard;

verus! {

/// The smallest stack that a new thread is given.
pub const DEFAULT_MIN_STACK_SIZE: usize = 4096;

/// The native creation call's answer for "busy".
pub const THRD_BUSY: i32 = 1;

/// The native creation call's answer for an error without a kind.
pub const THRD_ERROR: i32 = 2;

/// The native creation call's answer for "out of memory".
pub const THRD_NOMEM: i32 = 3;

/// The native creation call's answer for success.
pub const THRD_SUCCESS: i32 = 4;

/// The native creation call's answer for "timed out".
pub const THRD_TIMEDOUT: i32 = 5;

/// What an answer of the native creation call means.
#[derive(Clone, Copy, Debug, PartialEq, Eq, Structural)]
pub enum CreationCode {
    /// The thread could not be created now.
    Busy,
    /// Creation failed without a kind.
    GenericError,
    /// There was no memory for the thread.
    OutOfMemory,
    /// The thread runs.
    Success,
    /// Creation timed out.
    Timeout,
    /// An answer that the interface does not define.
    Unknown(i32),
}

/// Why a thread was not created.
#[derive(Clone, Copy, Debug, PartialEq, Eq, Structural)]
pub enum CreationError {
    /// The thread could not be created now.
    Busy,
    /// Creation failed without a kind.
    GenericError,
    /// There was no memory for the thread.
    OutOfMemory,
    /// Creation timed out.
    Timeout,
    /// The native call gave an answer that the interface does not define.
    Unknown(i32),
}

/// What the native answer `code` means.
pub open spec fn classify_spec(code: i32) -> CreationCode {
    if code == THRD_BUSY {
        CreationCode::Busy
    } else if code == THRD_ERROR {
        CreationCode::GenericError
    } else if code == THRD_NOMEM {
        CreationCode::OutOfMemory
    } else if code == THRD_SUCCESS {
        CreationCode::Success
    } else if code == THRD_TIMEDOUT {
        CreationCode::Timeout
    } else {
        CreationCode::Unknown(code)
    }
}

/// What the native answer `code` means.
pub fn classify(code: i32) -> (meaning: CreationCode)
    ensures
        meaning == classify_spec(code),
{
    match code {
        1 => CreationCode::Busy,
        2 => CreationCode::GenericError,
        3 => CreationCode::OutOfMemory,
        4 => CreationCode::Success,
        5 => CreationCode::Timeout,
        other => CreationCode::Unknown(other),
    }
}

impl CreationCode {
    /// The error that this answer stands for; none for success.
    pub open spec fn error_spec(self) -> Option<CreationError> {
        match self {
            CreationCode::Busy => Some(CreationError::Busy),
            CreationCode::GenericError => Some(CreationError::GenericError),
            CreationCode::OutOfMemory => Some(CreationError::OutOfMemory),
            CreationCode::Success => None,
            CreationCode::Timeout => Some(CreationError::Timeout),
            CreationCode::Unknown(code) => Some(CreationError::Unknown(code)),
        }
    }

    /// The error that this answer stands for; none for success.
    pub fn error(self) -> (e: Option<CreationError>)
        ensures
            e == self.error_spec(),
    {
        match self {
            CreationCode::Busy => Some(CreationError::Busy),
            CreationCode::GenericError => Some(CreationError::GenericError),
            CreationCode::OutOfMemory => Some(CreationError::OutOfMemory),
            CreationCode::Success => None,
            CreationCode::Timeout => Some(CreationError::Timeout),
            CreationCode::Unknown(code) => Some(CreationError::Unknown(code)),
        }
    }
}

/// The character that stands for the digit `d`.
pub open spec fn digit_char(d: int) -> char {
    "0123456789"@[d]
}

/// The decimal digits of `n`, without leading zeros.
pub open spec fn decimal_digits(n: nat) -> Seq<char>
    decreases n,
{
    if n < 10 {
        seq![digit_char(n as int)]
    } else {
        decimal_digits(n / 10).push(digit_char((n % 10) as int))
    }
}

/// `i` written in decimal, with a minus sign in front if it is negative.
pub open spec fn decimal(i: int) -> Seq<char> {
    if i < 0 {
        seq!['-'] + decimal_digits((-i) as nat)
    } else {
        decimal_digits(i as nat)
    }
}

/// The text for an answer that the interface does not define. The body
/// calls `format!` of std with one `{}` for an `i32`, which writes the
/// number in decimal, with a minus sign if it is negative; the contract
/// claims that, and the fixed text around the number.
#[verifier::external_body]
fn unknown_code_text(code: i32) -> (text: String)
    ensures
        text@ == "Thread create retval: "@ + decimal(code as int) + "!"@,
{
    format!("Thread create retval: {}!", code)
}

impl CreationError {
    /// The text that describes the error.
    pub open spec fn message_spec(self) -> Seq<char> {
        match self {
            CreationError::Busy => "Thread busy!"@,
            CreationError::GenericError => "Thread error!"@,
            CreationError::OutOfMemory => "Thread nomem!"@,
            CreationError::Timeout => "Thread timeout!"@,
            CreationError::Unknown(code) => "Thread create retval: "@ + decimal(code as int)
                + "!"@,
        }
    }

    /// The text that describes the error.
    pub fn message(&self) -> (text: String)
        ensures
            text@ == self.message_spec(),
    {
        match self {
            CreationError::Busy => "Thread busy!".to_owned(),
            CreationError::GenericError => "Thread error!".to_owned(),
            CreationError::OutOfMemory => "Thread nomem!".to_owned(),
            CreationError::Timeout => "Thread timeout!".to_owned(),
            CreationError::Unknown(code) => unknown_code_text(*code),
        }
    }
}

/// The native handle of a thread and the slot for its result code, as a
/// plain value that may be copied and compared and that outlives the
/// `Thread` it was taken from.
#[derive(Clone, Copy, Debug, PartialEq, Eq, Structural)]
pub struct ThreadHandle {
    /// The handle that the kernel gave the thread.
    pub handle: u32,
    /// The result code of the thread; zero until the native layer fills it.
    pub rc: i32,
}

impl ThreadHandle {
    /// The identity under which the thread takes locks; none for the null
    /// handle.
    pub fn identity(&self) -> (id: Option<ThreadIdentity>)
        ensures
            id == ThreadIdentity::decode(self.handle),
    {
        ThreadIdentity::new(self.handle)
    }
}

/// What the native layer is given to sleep: whole seconds and nanoseconds.
#[derive(Clone, Copy, Debug, PartialEq, Eq, Structural)]
pub struct TimeSpec {
    /// Whole seconds.
    pub tv_sec: u64,
    /// Nanoseconds below one second.
    pub tv_nsec: u64,
}

/// A thread that has been created and not yet joined.
pub struct Thread {
    handle: ThreadHandle,
}

/// A creation that succeeded: the handle of the new thread, and the
/// deferred computation, which is now the new thread's to run, once.
pub struct Spawned<C> {
    /// The handle by which the creator joins the thread.
    pub thread: Thread,
    /// The computation, passed on to the new thread.
    pub computation: C,
}

/// A creation that failed: why, and the deferred computation, handed back
/// to the caller untouched.
pub struct CreationFailed<C> {
    /// Why the thread was not created.
    pub error: CreationError,
    /// The computation, still the caller's.
    pub computation: C,
}

impl Thread {
    /// The native handle of the thread.
    pub closed spec fn id_spec(&self) -> ThreadHandle {
        self.handle
    }

    /// Reads the native creation call's answer `code` for a thread that was
    /// to run `p`, with `native` the handle that the call filled in.
    ///
    /// On success the result holds the new `Thread` and passes `p` on to the
    /// new thread. On every other answer the result names the error and
    /// hands `p` back to the caller. The stack size plays no part: the
    /// native call takes none.
    pub fn new<C>(stack: usize, p: C, code: i32, native: u32) -> (r: Result<
        Spawned<C>,
        CreationFailed<C>,
    >)
        ensures
            r is Ok <==> code == THRD_SUCCESS,
            r matches Ok(spawned) ==> spawned.computation == p && spawned.thread.id_spec()
                == (ThreadHandle { handle: native, rc: 0 }),
            r matches Err(failed) ==> failed.computation == p && Some(failed.error)
                == classify_spec(code).error_spec(),
    {
        match classify(code).error() {
            None => {
                let handle = ThreadHandle { handle: native, rc: 0 };
                Ok(Spawned { thread: Thread { handle }, computation: p })
            },
            Some(error) => Err(CreationFailed { error, computation: p }),
        }
    }

    /// What the native layer is given to put the calling thread to sleep for
    /// at least `dur`: the whole seconds of `dur` and its nanoseconds below
    /// one second.
    pub fn sleep(dur: Duration) -> (ts: TimeSpec)
        ensures
            ts.tv_sec == dur.secs_spec(),
            ts.tv_nsec == dur.nanos_spec(),
            ts.tv_nsec < 1_000_000_000,
    {
        TimeSpec { tv_sec: dur.as_secs(), tv_nsec: dur.subsec_nanos() as u64 }
    }

    /// Ends the life of the handle by joining: the result names the native
    /// thread to wait for. Whatever result code the native join reports is
    /// not passed on.
    pub fn join(self) -> (target: ThreadHandle)
        ensures
            target == self.id_spec(),
    {
        self.handle
    }

    /// A copy of the native handle; the thread can still be joined.
    pub fn id(&self) -> (h: ThreadHandle)
        ensures
            h == self.id_spec(),
    {
        self.handle
    }

    /// Gives up the `Thread` for its native handle. The thread is detached:
    /// it can no longer be joined through this library.
    pub fn into_id(self) -> (h: ThreadHandle)
        ensures
            h == self.id_spec(),
    {
        self.handle
    }
}

} // verus!
