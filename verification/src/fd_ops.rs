//! Descriptor calls: what goes back to the caller once the descriptor table
//! has answered.

use vstd::prelude::*;
use crate::error::SysError;
use crate::task::Task;

verus! {

/// What `dup` returns when the descriptor table has handed out `new_fd`
/// under the limit `fd_limit`.
pub open spec fn dup_result(fd_limit: u64, new_fd: i32) -> Result<isize, SysError> {
    if new_fd >= fd_limit {
        Err(SysError::TooManyOpenFiles)
    } else {
        Ok(new_fd as isize)
    }
}

/// The descriptor that has to be closed again after `dup`: the one handed
/// out, where it was rejected for the limit.
pub open spec fn dup_close(fd_limit: u64, new_fd: i32) -> Option<i32> {
    if new_fd >= fd_limit {
        Some(new_fd)
    } else {
        None
    }
}

/// Duplicates a descriptor: `new_fd` is the descriptor table's answer.
///
/// Returns the call's result and the descriptor that the kernel has to
/// close again, if any. An answer that meets or exceeds the caller's
/// descriptor limit is turned into "too many open files", and is itself
/// the descriptor to close, so that a rejected call leaves nothing open.
/// Every other answer, a negative one too, goes through with nothing to
/// close. So a successful call never returns a descriptor at or above the
/// limit.
pub fn sys_dup(task: &Task, new_fd: i32) -> (r: (Result<isize, SysError>, Option<i32>))
    ensures
        r.0 == dup_result(task.fd_limit, new_fd),
        r.1 == dup_close(task.fd_limit, new_fd),
        r.0 matches Ok(v) ==> v < task.fd_limit && r.1 is None,
        r.0 matches Err(e) ==> e == SysError::TooManyOpenFiles && r.1 == Some(new_fd),
{
    if new_fd >= 0 && new_fd as u64 >= task.fd_limit {
        return (Err(SysError::TooManyOpenFiles), Some(new_fd));
    }
    (Ok(new_fd as isize), None)
}

/// Duplicates a descriptor onto a chosen slot: the descriptor table's answer
/// `ret` goes through as it is.
pub fn sys_dup3(ret: i32) -> (r: Result<isize, SysError>)
    ensures
        r == Ok::<isize, SysError>(ret as isize),
{
    Ok(ret as isize)
}

/// Closes a descriptor: the descriptor table's answer `ret` goes through.
pub fn sys_close(ret: i32) -> (r: Result<isize, SysError>)
    ensures
        r == Ok::<isize, SysError>(ret as isize),
{
    Ok(ret as isize)
}

/// Descriptor control: the descriptor table's answer `ret` goes through.
pub fn sys_fcntl(ret: i32) -> (r: Result<isize, SysError>)
    ensures
        r == Ok::<isize, SysError>(ret as isize),
{
    Ok(ret as isize)
}

} // verus!
