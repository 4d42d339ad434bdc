//! The handles by which a thread names itself and its process to the kernel.

use vstd::prelude::*;

verus! {

/// The handle that always stands for the calling thread.
pub const CUR_THREAD_HANDLE: u32 = 0xffff_8000;

/// The handle that always stands for the calling process.
pub const CUR_PROCESS_HANDLE: u32 = 0xffff_8001;

/// The handle that stands for the calling thread.
pub fn get_current_thread_handle() -> (handle: u32)
    ensures
        handle == CUR_THREAD_HANDLE,
{
    0xffff_8000
}

/// The handle that stands for the calling process.
pub fn get_current_process_handle() -> (handle: u32)
    ensures
        handle == CUR_PROCESS_HANDLE,
{
    0xffff_8001
}

/// Whether the program was loaded as a relocatable object, given whether it
/// was loaded as a system object: it is the one or the other.
pub fn is_nro(is_nso: bool) -> (nro: bool)
    ensures
        nro == !is_nso,
{
    !is_nso
}

} // verus!
