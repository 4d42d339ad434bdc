//! The synchronisation and thread-lifecycle layer of a runtime for a small
//! kernel, whose own means are one blocking word lock, one wait/wake key for
//! the whole process, and four calls to create, yield, sleep or join a
//! thread.
//!
//! The layer is written as state machines. A lock, a condition variable or a
//! registry slot is a value; an operation takes that value and the identity
//! of the calling thread, and states in its contract the value afterwards
//! and what the caller is told. Where the kernel would block the caller,
//! the operation parks the caller in a queue and says so; where the kernel
//! answers (a creation code, the end of a wait), the answer is an argument.
//! The code that calls the kernel performs what these operations decide.
//!
//! - [`identity`]: thread identities.
//! - [`queue`]: the queue of threads parked on a kernel word.
//! - [`mutex`]: the lock primitive and the reentrant lock.
//! - [`condvar`]: the condition variable.
//! - [`rwlock`]: the reader/writer lock.
//! - [`thread`]: thread handles, creation codes, sleeping and joining.
//! - [`thread_info`]: the registry of thread identities.
//! - [`time`]: spans of time.
//! - [`os`], [`hid`]: kernel pseudo-handles and controller numbers.

pub mod identity;
pub mod queue;
pub mod time;
pub mod mutex;
pub mod condvar;
pub mod rwlock;
pub mod thread;
pub mod thread_info;
pub mod os;
pub mod hid;
