//! Thread-pointer control on machines with settable segment bases.
//!
//! Only kernels built for such a machine route calls here; the others
//! leave the module out.

use vstd::prelude::*;
use crate::error::SysError;
use crate::task::{Task, UserPtr};

verus! {

/// The requests that `arch_prctl` knows.
#[derive(Clone, Copy, Debug, PartialEq, Eq, Structural)]
pub enum ArchPrctlCode {
    /// Set the secondary segment base.
    SetGs,
    /// Set the thread-pointer base.
    SetFs,
    /// Get the thread-pointer base.
    GetFs,
    /// Get the secondary segment base.
    GetGs,
    /// Ask whether the CPU-feature query instruction is enabled.
    GetCpuid,
    /// Enable or disable the CPU-feature query instruction.
    SetCpuid,
}

impl ArchPrctlCode {
    /// The request with the number `code`, if there is one.
    pub open spec fn from_code_spec(code: i32) -> Option<ArchPrctlCode> {
        if code == 0x1001 {
            Some(ArchPrctlCode::SetGs)
        } else if code == 0x1002 {
            Some(ArchPrctlCode::SetFs)
        } else if code == 0x1003 {
            Some(ArchPrctlCode::GetFs)
        } else if code == 0x1004 {
            Some(ArchPrctlCode::GetGs)
        } else if code == 0x1011 {
            Some(ArchPrctlCode::GetCpuid)
        } else if code == 0x1012 {
            Some(ArchPrctlCode::SetCpuid)
        } else {
            None
        }
    }

    /// The number of a request.
    pub open spec fn code_spec(self) -> i32 {
        match self {
            ArchPrctlCode::SetGs => 0x1001,
            ArchPrctlCode::SetFs => 0x1002,
            ArchPrctlCode::GetFs => 0x1003,
            ArchPrctlCode::GetGs => 0x1004,
            ArchPrctlCode::GetCpuid => 0x1011,
            ArchPrctlCode::SetCpuid => 0x1012,
        }
    }

    /// Decodes a request number.
    pub fn from_code(code: i32) -> (r: Option<ArchPrctlCode>)
        ensures
            r == ArchPrctlCode::from_code_spec(code),
    {
        if code == 0x1001 {
            Some(ArchPrctlCode::SetGs)
        } else if code == 0x1002 {
            Some(ArchPrctlCode::SetFs)
        } else if code == 0x1003 {
            Some(ArchPrctlCode::GetFs)
        } else if code == 0x1004 {
            Some(ArchPrctlCode::GetGs)
        } else if code == 0x1011 {
            Some(ArchPrctlCode::GetCpuid)
        } else if code == 0x1012 {
            Some(ArchPrctlCode::SetCpuid)
        } else {
            None
        }
    }

    /// The number of this request.
    pub fn code(self) -> (c: i32)
        ensures
            c == self.code_spec(),
            ArchPrctlCode::from_code_spec(c) == Some(self),
    {
        match self {
            ArchPrctlCode::SetGs => 0x1001,
            ArchPrctlCode::SetFs => 0x1002,
            ArchPrctlCode::GetFs => 0x1003,
            ArchPrctlCode::GetGs => 0x1004,
            ArchPrctlCode::GetCpuid => 0x1011,
            ArchPrctlCode::SetCpuid => 0x1012,
        }
    }
}

/// What the kernel has to do for an `arch_prctl` call that succeeded.
#[derive(Clone, Copy, Debug, PartialEq, Eq)]
pub enum ArchEffect {
    /// Nothing.
    Nothing,
    /// Load the thread-pointer base register with this value.
    LoadThreadPointer(usize),
    /// Load the secondary segment base register with this value.
    LoadGsBase(u64),
    /// Store `value` as a 64-bit word at the user address `addr`.
    Store { addr: usize, value: u64 },
}

/// The registers that `arch_prctl` reads and writes.
pub struct SegmentBases {
    pub tls_base: usize,
    pub gs_base: u64,
}

/// A user pointer through which a value can be stored.
pub open spec fn writable(p: UserPtr) -> bool {
    p.writable()
}

/// What `arch_prctl` returns on the registers `regs`: on success the status
/// 0 with what is left to do.
pub open spec fn arch_prctl_result(regs: SegmentBases, code: i32, addr: UserPtr) -> Result<
    (isize, ArchEffect),
    SysError,
> {
    match ArchPrctlCode::from_code_spec(code) {
        None => Err(SysError::InvalidArgument),
        Some(ArchPrctlCode::SetFs) => Ok((0isize, ArchEffect::LoadThreadPointer(addr.addr))),
        Some(ArchPrctlCode::SetGs) => Ok((0isize, ArchEffect::LoadGsBase(addr.addr as u64))),
        Some(ArchPrctlCode::GetFs) => if writable(addr) {
            Ok((0isize, ArchEffect::Store { addr: addr.addr, value: regs.tls_base as u64 }))
        } else {
            Err(SysError::BadAddress)
        },
        Some(ArchPrctlCode::GetGs) => if writable(addr) {
            Ok((0isize, ArchEffect::Store { addr: addr.addr, value: regs.gs_base }))
        } else {
            Err(SysError::BadAddress)
        },
        Some(ArchPrctlCode::GetCpuid) => Ok((0isize, ArchEffect::Nothing)),
        Some(ArchPrctlCode::SetCpuid) => Err(SysError::NoSuchDevice),
    }
}

/// The registers after `arch_prctl`: the two set requests replace one base
/// by the address, every other request leaves both.
pub open spec fn arch_prctl_regs(regs: SegmentBases, code: i32, addr: UserPtr) -> SegmentBases {
    match ArchPrctlCode::from_code_spec(code) {
        Some(ArchPrctlCode::SetFs) => SegmentBases { tls_base: addr.addr, gs_base: regs.gs_base },
        Some(ArchPrctlCode::SetGs) => SegmentBases {
            tls_base: regs.tls_base,
            gs_base: addr.addr as u64,
        },
        _ => regs,
    }
}

/// The segment bases that a task's record holds.
pub open spec fn bases_of(task: Task) -> SegmentBases {
    SegmentBases { tls_base: task.tls_base, gs_base: task.gs_base }
}

/// Gets or sets a segment base of the calling task.
///
/// `addr` is the new base for the two set requests, which take any value,
/// and the place to store the current base for the two get requests, which
/// need a pointer that is not null and can be written. The feature query
/// succeeds with nothing to do, the feature switch is no such device, and
/// any other request number is an invalid argument.
pub fn sys_arch_prctl(task: &mut Task, code: i32, addr: UserPtr) -> (r: Result<
    (isize, ArchEffect),
    SysError,
>)
    ensures
        r == arch_prctl_result(bases_of(*old(task)), code, addr),
        bases_of(*final(task)) == arch_prctl_regs(bases_of(*old(task)), code, addr),
        *final(task) == (Task {
            tls_base: final(task).tls_base,
            gs_base: final(task).gs_base,
            ..*old(task)
        }),
{
    match ArchPrctlCode::from_code(code) {
        None => Err(SysError::InvalidArgument),
        Some(ArchPrctlCode::SetFs) => {
            task.tls_base = addr.addr;
            Ok((0, ArchEffect::LoadThreadPointer(addr.addr)))
        },
        Some(ArchPrctlCode::SetGs) => {
            task.gs_base = addr.addr as u64;
            Ok((0, ArchEffect::LoadGsBase(addr.addr as u64)))
        },
        Some(ArchPrctlCode::GetFs) => {
            if addr.addr == 0 || !addr.accessible {
                return Err(SysError::BadAddress);
            }
            Ok((0, ArchEffect::Store { addr: addr.addr, value: task.tls_base as u64 }))
        },
        Some(ArchPrctlCode::GetGs) => {
            if addr.addr == 0 || !addr.accessible {
                return Err(SysError::BadAddress);
            }
            Ok((0, ArchEffect::Store { addr: addr.addr, value: task.gs_base }))
        },
        Some(ArchPrctlCode::GetCpuid) => Ok((0, ArchEffect::Nothing)),
        Some(ArchPrctlCode::SetCpuid) => Err(SysError::NoSuchDevice),
    }
}

/// Setting the thread-pointer base to `x` and then asking for it stores `x`
/// through the pointer given to the second call.
pub proof fn lemma_set_fs_then_get_fs(regs: SegmentBases, x: UserPtr, y: UserPtr)
    requires
        writable(y),
    ensures
        arch_prctl_result(regs, 0x1002, x) == Ok::<(isize, ArchEffect), SysError>(
            (0isize, ArchEffect::LoadThreadPointer(x.addr)),
        ),
        arch_prctl_result(arch_prctl_regs(regs, 0x1002, x), 0x1003, y) == Ok::<
            (isize, ArchEffect),
            SysError,
        >((0isize, ArchEffect::Store { addr: y.addr, value: x.addr as u64 })),
{
}

/// The same for the secondary segment base.
pub proof fn lemma_set_gs_then_get_gs(regs: SegmentBases, x: UserPtr, y: UserPtr)
    requires
        writable(y),
    ensures
        arch_prctl_result(arch_prctl_regs(regs, 0x1001, x), 0x1004, y) == Ok::<
            (isize, ArchEffect),
            SysError,
        >((0isize, ArchEffect::Store { addr: y.addr, value: x.addr as u64 })),
{
}

} // verus!
