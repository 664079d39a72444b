//! The error kinds that a system call can end with.

use vstd::prelude::*;

verus! {

/// Why a system call failed.
#[derive(Clone, Copy, Debug, PartialEq, Eq, Structural)]
pub enum SysError {
    /// An argument is outside what the call accepts.
    InvalidArgument,
    /// The caller has no child that matches the request.
    NoSuchChild,
    /// The descriptor would reach the caller's descriptor limit.
    TooManyOpenFiles,
    /// No new task identity could be had.
    OutOfMemory,
    /// The request names a facility that this machine does not offer.
    NoSuchDevice,
    /// The operation is not available.
    NotImplemented,
    /// A user-space address could not be read or written.
    BadAddress,
}

impl SysError {
    /// The Linux error number of each kind.
    pub open spec fn errno_spec(self) -> int {
        match self {
            SysError::InvalidArgument => 22,
            SysError::NoSuchChild => 10,
            SysError::TooManyOpenFiles => 24,
            SysError::OutOfMemory => 12,
            SysError::NoSuchDevice => 19,
            SysError::NotImplemented => 38,
            SysError::BadAddress => 14,
        }
    }

    /// The Linux error number of this kind (`EINVAL` is 22, and so on).
    pub fn errno(self) -> (r: i32)
        ensures
            r == self.errno_spec(),
    {
        linux_code(self)
    }
}

/// Calls `axerrno::LinuxError::code` on the Linux error that stands for the
/// kind. The contract claims the numbers that the outside crate takes from
/// its table of Linux error numbers for `EINVAL`, `ECHILD`, `EMFILE`,
/// `ENOMEM`, `ENODEV`, `ENOSYS` and `EFAULT`; they are believed, not proved.
#[verifier::external_body]
fn linux_code(e: SysError) -> (r: i32)
    ensures
        r == e.errno_spec(),
{
    let linux = match e {
        SysError::InvalidArgument => axerrno::LinuxError::EINVAL,
        SysError::NoSuchChild => axerrno::LinuxError::ECHILD,
        SysError::TooManyOpenFiles => axerrno::LinuxError::EMFILE,
        SysError::OutOfMemory => axerrno::LinuxError::ENOMEM,
        SysError::NoSuchDevice => axerrno::LinuxError::ENODEV,
        SysError::NotImplemented => axerrno::LinuxError::ENOSYS,
        SysError::BadAddress => axerrno::LinuxError::EFAULT,
    };
    linux.code()
}

/// The value that the dispatcher hands to user mode for a finished call: the
/// payload on success, the negated error number on failure.
pub open spec fn abi_value(r: Result<isize, SysError>) -> int {
    match r {
        Ok(v) => v as int,
        Err(e) => -e.errno_spec(),
    }
}

/// Computes [`abi_value`].
pub fn to_abi(r: Result<isize, SysError>) -> (v: isize)
    ensures
        v == abi_value(r),
{
    match r {
        Ok(v) => v,
        Err(e) => {
            let n: i32 = e.errno();
            let w: isize = n as isize;
            -w
        },
    }
}

/// Distinct error kinds have distinct error numbers, so the ABI value of a
/// failed call identifies its kind.
pub proof fn lemma_errno_injective(a: SysError, b: SysError)
    requires
        a.errno_spec() == b.errno_spec(),
    ensures
        a == b,
{
}

} // verus!
