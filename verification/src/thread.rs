//! Task identity, termination, creation and resource limits.

use vstd::prelude::*;
use crate::error::SysError;
use crate::task::{knows_child, Child, Task, UserPtr, MAX_PID};
use crate::wait::{is_first_zombie, selects, wait_status_spec, WaitStatus};

verus! {

/// The caller's process id.
pub fn sys_getpid(task: &Task) -> (r: Result<isize, SysError>)
    requires
        task.wf(),
    ensures
        r == Ok::<isize, SysError>(task.proc_id as isize),
{
    Ok(task.proc_id as isize)
}

/// The id of the process that created the caller's; 0 for the root.
pub fn sys_getppid(task: &Task) -> (r: Result<isize, SysError>)
    requires
        task.wf(),
    ensures
        r == Ok::<isize, SysError>(task.parent as isize),
{
    Ok(task.parent as isize)
}

/// The caller's task id.
pub fn sys_gettid(task: &Task) -> (r: Result<isize, SysError>)
    requires
        task.wf(),
    ensures
        r == Ok::<isize, SysError>(task.id as isize),
{
    Ok(task.id as isize)
}

/// Records `tid_ptr` as the address of the word to zero when the caller
/// exits, and returns the caller's task id. The address is not looked at, a
/// null one switches the notification off, and the call always succeeds.
pub fn sys_set_tid_address(task: &mut Task, tid_ptr: usize) -> (r: Result<isize, SysError>)
    requires
        old(task).wf(),
    ensures
        *final(task) == after_set_tid_address(*old(task), tid_ptr),
        final(task).wf(),
        r == Ok::<isize, SysError>(old(task).id as isize),
{
    task.clear_child_tid = tid_ptr;
    Ok(task.id as isize)
}

/// The record after `set_tid_address`.
pub open spec fn after_set_tid_address(task: Task, tid_ptr: usize) -> Task {
    Task { clear_child_tid: tid_ptr, ..task }
}

/// What is left to do when a task exits.
#[derive(Clone, Copy, Debug, PartialEq, Eq)]
pub struct ExitPlan {
    /// The user address of a 32-bit word to set to zero before the task
    /// goes, and whose waiters are then to be woken; `None` for no store.
    pub zero_word_at: Option<usize>,
    /// The status with which the scheduler ends the task.
    pub status: i32,
}

/// What is left to do when a whole process exits.
#[derive(Clone, Copy, Debug, PartialEq, Eq)]
pub struct GroupExitPlan {
    /// Every task of this process is to be ended.
    pub proc_id: u64,
    /// The status with which the scheduler ends each of them.
    pub status: i32,
}

/// The plan of `exit` on a task whose recorded notification address is
/// `writable` or not: a word is zeroed only at an address that is recorded
/// and can be written.
pub open spec fn exit_plan(task: Task, writable: bool, status: i32) -> ExitPlan {
    ExitPlan {
        zero_word_at: if task.clear_child_tid != 0 && writable {
            Some(task.clear_child_tid)
        } else {
            None
        },
        status,
    }
}

/// The exit status after a termination with `status`: the first one stays.
pub open spec fn settled_status(before: Option<i32>, status: i32) -> Option<i32> {
    if before is Some {
        before
    } else {
        Some(status)
    }
}

/// The record after `exit`: the exit status is settled and the address of
/// the word to zero is forgotten, so that it is never written again.
pub open spec fn after_exit(task: Task, status: i32) -> Task {
    Task { clear_child_tid: 0, exit_status: settled_status(task.exit_status, status), ..task }
}

/// Ends the calling task.
///
/// `writable` is the memory accessor's verdict on the recorded notification
/// address: whether a 32-bit word can be stored there. Returns what the
/// kernel has to carry out, in this order: the store of a zero word at that
/// address, if one is recorded and it can be written, and the termination
/// with `status`. An address that cannot be written is passed over: the
/// task ends all the same, and nothing is stored.
pub fn sys_exit(task: &mut Task, writable: bool, status: i32) -> (plan: ExitPlan)
    ensures
        plan == exit_plan(*old(task), writable, status),
        plan.status == status,
        *final(task) == after_exit(*old(task), status),
        old(task).wf() ==> final(task).wf(),
{
    let zero_word_at: Option<usize> = if task.clear_child_tid != 0 && writable {
        Some(task.clear_child_tid)
    } else {
        None
    };
    task.clear_child_tid = 0;
    if task.exit_status.is_none() {
        task.exit_status = Some(status);
    }
    ExitPlan { zero_word_at, status }
}

/// Ends the caller's whole process: the plan names the process whose tasks
/// are all to be ended with `status`. No word is zeroed on this path.
pub fn sys_exit_group(task: &mut Task, status: i32) -> (plan: GroupExitPlan)
    ensures
        plan == (GroupExitPlan { proc_id: old(task).proc_id, status }),
        *final(task) == (Task {
            exit_status: settled_status(old(task).exit_status, status),
            ..*old(task)
        }),
        old(task).wf() ==> final(task).wf(),
{
    if task.exit_status.is_none() {
        task.exit_status = Some(status);
    }
    GroupExitPlan { proc_id: task.proc_id, status }
}

/// Whether `task` belongs to the process that `plan` ends.
pub fn ends_with_group(task: &Task, plan: &GroupExitPlan) -> (r: bool)
    ensures
        r == (task.proc_id == plan.proc_id),
{
    task.proc_id == plan.proc_id
}

/// An exit after `set_tid_address(addr)` zeroes the word at `addr`, and only
/// there, provided `addr` is not null and can be written, and stores nothing
/// otherwise; any later exit of the same task stores nothing; and a task
/// without a recorded address stores nothing at all.
pub proof fn lemma_clear_child_tid_zeroed_once(
    task: Task,
    addr: usize,
    writable: bool,
    status: i32,
    later_writable: bool,
    later: i32,
)
    ensures
        addr != 0 && writable ==> exit_plan(
            after_set_tid_address(task, addr),
            writable,
            status,
        ).zero_word_at == Some(addr),
        addr == 0 || !writable ==> exit_plan(
            after_set_tid_address(task, addr),
            writable,
            status,
        ).zero_word_at is None,
        exit_plan(
            after_exit(after_set_tid_address(task, addr), status),
            later_writable,
            later,
        ).zero_word_at is None,
        task.clear_child_tid == 0 ==> exit_plan(task, writable, status).zero_word_at is None,
{
}

/// The stack-size resource.
pub const RLIMIT_STACK: i32 = 3;

/// A resource limit as user mode sees it.
#[derive(Clone, Copy, Debug, PartialEq, Eq)]
pub struct RLimit {
    /// The soft limit.
    pub rlim_cur: u64,
    /// The hard limit.
    pub rlim_max: u64,
}

/// The new limit that a caller handed in.
#[derive(Clone, Copy, Debug, PartialEq, Eq)]
pub enum NewLimit {
    /// The pointer was null: the limit stays.
    Absent,
    /// The pointer could not be read.
    Unreadable,
    /// The limit read through the pointer.
    Value(RLimit),
}

/// `pid` names the caller's own process.
pub open spec fn names_caller(proc_id: u64, pid: i32) -> bool {
    pid == 0 || pid == proc_id
}

/// The call reads or writes the stack limit: it is about the caller's own
/// stack limit and every pointer handed in can be used.
pub open spec fn touches_stack_limit(
    proc_id: u64,
    pid: i32,
    resource: i32,
    new_limit: NewLimit,
    old_limit: UserPtr,
) -> bool {
    &&& names_caller(proc_id, pid)
    &&& resource == RLIMIT_STACK
    &&& old_limit.usable()
    &&& !(new_limit is Unreadable)
}

/// What `prlimit64` returns for a process `proc_id` whose stack limit is
/// `stack_limit`: on success the status 0 and, where the old limit was asked
/// for, the address and the limit to store there.
pub open spec fn prlimit_result(
    proc_id: u64,
    stack_limit: u64,
    pid: i32,
    resource: i32,
    new_limit: NewLimit,
    old_limit: UserPtr,
) -> Result<(isize, Option<(usize, RLimit)>), SysError> {
    if !names_caller(proc_id, pid) {
        Err(SysError::InvalidArgument)
    } else if resource != RLIMIT_STACK {
        Ok((0isize, None))
    } else if !old_limit.usable() || new_limit is Unreadable {
        Err(SysError::BadAddress)
    } else if old_limit.addr == 0 {
        Ok((0isize, None))
    } else {
        Ok(
            (
                0isize,
                Some((old_limit.addr, RLimit { rlim_cur: stack_limit, rlim_max: stack_limit })),
            ),
        )
    }
}

/// The stack limit after `prlimit64`: the soft value of the new limit where
/// the call succeeds on the stack resource with a new limit, else unchanged.
pub open spec fn prlimit_stack_limit(
    proc_id: u64,
    stack_limit: u64,
    pid: i32,
    resource: i32,
    new_limit: NewLimit,
    old_limit: UserPtr,
) -> u64 {
    if touches_stack_limit(proc_id, pid, resource, new_limit, old_limit) {
        match new_limit {
            NewLimit::Value(l) => l.rlim_cur,
            _ => stack_limit,
        }
    } else {
        stack_limit
    }
}

/// Reads and sets a resource limit of the caller's process.
///
/// `pid` must be 0 or the caller's process id, else the argument is
/// invalid. Of the resources only the stack size is kept: the previous
/// limit is reported through `old_limit` unless that is null, soft and hard
/// value alike, and the soft value of `new_limit`, if one is given, becomes
/// the limit. A pointer that cannot be used fails the call with a bad
/// address before anything changes. Any other resource succeeds and does
/// nothing.
pub fn sys_prlimit64(
    task: &mut Task,
    pid: i32,
    resource: i32,
    new_limit: NewLimit,
    old_limit: UserPtr,
) -> (r: Result<(isize, Option<(usize, RLimit)>), SysError>)
    ensures
        r == prlimit_result(
            old(task).proc_id,
            old(task).stack_limit,
            pid,
            resource,
            new_limit,
            old_limit,
        ),
        *final(task) == (Task {
            stack_limit: prlimit_stack_limit(
                old(task).proc_id,
                old(task).stack_limit,
                pid,
                resource,
                new_limit,
                old_limit,
            ),
            ..*old(task)
        }),
        old(task).wf() ==> final(task).wf(),
{
    if !(pid == 0 || (pid > 0 && pid as u64 == task.proc_id)) {
        return Err(SysError::InvalidArgument);
    }
    if resource != RLIMIT_STACK {
        return Ok((0, None));
    }
    if old_limit.addr != 0 && !old_limit.accessible {
        return Err(SysError::BadAddress);
    }
    let previous: u64 = task.stack_limit;
    match new_limit {
        NewLimit::Unreadable => {
            return Err(SysError::BadAddress);
        },
        NewLimit::Value(l) => {
            task.stack_limit = l.rlim_cur;
        },
        NewLimit::Absent => {},
    }
    if old_limit.addr == 0 {
        Ok((0, None))
    } else {
        Ok((0, Some((old_limit.addr, RLimit { rlim_cur: previous, rlim_max: previous }))))
    }
}

/// Setting the stack limit to `new` while asking for the old one reports the
/// limit that was in force; the limit is then the soft value of `new`, and a
/// later call without a new limit reports just that.
pub proof fn lemma_stack_limit_round_trip(
    proc_id: u64,
    stack_limit: u64,
    new: RLimit,
    old_out: UserPtr,
    later_out: UserPtr,
)
    requires
        old_out.addr != 0 && old_out.accessible,
        later_out.addr != 0 && later_out.accessible,
    ensures
        prlimit_result(proc_id, stack_limit, 0, RLIMIT_STACK, NewLimit::Value(new), old_out) == Ok::<
            (isize, Option<(usize, RLimit)>),
            SysError,
        >(
            (
                0isize,
                Some((old_out.addr, RLimit { rlim_cur: stack_limit, rlim_max: stack_limit })),
            ),
        ),
        prlimit_stack_limit(proc_id, stack_limit, 0, RLIMIT_STACK, NewLimit::Value(new), old_out)
            == new.rlim_cur,
        prlimit_result(proc_id, new.rlim_cur, 0, RLIMIT_STACK, NewLimit::Absent, later_out) == Ok::<
            (isize, Option<(usize, RLimit)>),
            SysError,
        >(
            (
                0isize,
                Some((later_out.addr, RLimit { rlim_cur: new.rlim_cur, rlim_max: new.rlim_cur })),
            ),
        ),
        prlimit_stack_limit(proc_id, new.rlim_cur, 0, RLIMIT_STACK, NewLimit::Absent, later_out)
            == new.rlim_cur,
{
}

/// The new task shares the caller's address space.
pub const CLONE_VM: usize = 0x100;

/// The new task shares the caller's descriptor table.
pub const CLONE_FILES: usize = 0x400;

/// The new task shares the caller's signal handlers.
pub const CLONE_SIGHAND: usize = 0x800;

/// The new task gets the caller's parent as its parent.
pub const CLONE_PARENT: usize = 0x8000;

/// The new task joins the caller's thread group.
pub const CLONE_THREAD: usize = 0x10000;

/// Asks for `tls` as the new task's thread-pointer base, which every new
/// task gets.
pub const CLONE_SETTLS: usize = 0x80000;

/// The new task's id is stored at `ptid` in the caller's memory.
pub const CLONE_PARENT_SETTID: usize = 0x100000;

/// The word at `ctid` is zeroed when the new task exits.
pub const CLONE_CHILD_CLEARTID: usize = 0x200000;

/// The new task's id is stored at `ctid` in its own memory.
pub const CLONE_CHILD_SETTID: usize = 0x1000000;

/// Every bit that `clone` takes: the low byte, which names the signal sent
/// to the parent when the new task ends, and the nine flags above.
pub const CLONE_KNOWN_BITS: usize = 0x139_8dff;

/// `flags` holds the bit `bit`.
pub open spec fn has_flag(flags: usize, bit: usize) -> bool {
    flags & bit != 0
}

/// `flags` holds no bit outside [`CLONE_KNOWN_BITS`].
pub open spec fn only_known_bits(flags: usize) -> bool {
    (flags | CLONE_KNOWN_BITS) == CLONE_KNOWN_BITS
}

/// The flags can be carried out. Every bit above the signal byte must be
/// one that `clone` acts on: any other flag (a new namespace, shared
/// filesystem information, a suspended parent, a descriptor for the new
/// task, and whatever else) is refused rather than passed over. Of the
/// flags that are known, shared signal handlers need a shared address
/// space, and a common thread group needs shared signal handlers.
pub open spec fn flags_supported(flags: usize) -> bool {
    &&& only_known_bits(flags)
    &&& has_flag(flags, CLONE_SIGHAND) ==> has_flag(flags, CLONE_VM)
    &&& has_flag(flags, CLONE_THREAD) ==> has_flag(flags, CLONE_SIGHAND)
}

/// What the scheduler and the memory manager are asked to do for a new task.
#[derive(Clone, Copy, Debug, PartialEq, Eq)]
pub struct ClonePlan {
    /// Share the address space, rather than copy it.
    pub share_vm: bool,
    /// Share the descriptor table, rather than copy it.
    pub share_files: bool,
    /// Share the signal handlers, rather than copy them.
    pub share_sighand: bool,
    /// Put the new task into the caller's thread group.
    pub same_thread_group: bool,
    /// The new task's initial stack pointer; `None` to continue on a copy of
    /// the caller's stack.
    pub stack: Option<usize>,
    /// The thread-pointer base to install before the new task first runs.
    pub tls: usize,
    /// Where to store the new id in the caller's memory.
    pub parent_tid_ptr: Option<usize>,
    /// Where to store the new id in the new task's memory.
    pub child_tid_ptr: Option<usize>,
}

/// `Some(value)` where `flags` holds `bit`.
pub open spec fn when_flag(flags: usize, bit: usize, value: usize) -> Option<usize> {
    if has_flag(flags, bit) {
        Some(value)
    } else {
        None
    }
}

/// The plan that the arguments of `clone` stand for.
pub open spec fn clone_plan_spec(flags: usize, user_stack: usize, ptid: usize, tls: usize, ctid: usize) -> ClonePlan {
    ClonePlan {
        share_vm: has_flag(flags, CLONE_VM),
        share_files: has_flag(flags, CLONE_FILES),
        share_sighand: has_flag(flags, CLONE_SIGHAND),
        same_thread_group: has_flag(flags, CLONE_THREAD),
        stack: if user_stack == 0 {
            None
        } else {
            Some(user_stack)
        },
        tls,
        parent_tid_ptr: when_flag(flags, CLONE_PARENT_SETTID, ptid),
        child_tid_ptr: when_flag(flags, CLONE_CHILD_SETTID, ctid),
    }
}

/// What `clone` decides before a task is made: the plan, or why there is
/// none. Flags that cannot be carried out are an invalid argument; with
/// supported flags, a request to store the new id in the caller's memory
/// through a pointer that cannot be written is a bad address.
pub open spec fn clone_plan_result(
    flags: usize,
    user_stack: usize,
    ptid: UserPtr,
    tls: usize,
    ctid: usize,
) -> Result<ClonePlan, SysError> {
    if !flags_supported(flags) {
        Err(SysError::InvalidArgument)
    } else if has_flag(flags, CLONE_PARENT_SETTID) && !ptid.writable() {
        Err(SysError::BadAddress)
    } else {
        Ok(clone_plan_spec(flags, user_stack, ptid.addr, tls, ctid))
    }
}

/// Decides what has to be shared and set up for a new task, or why none
/// can be made. A `user_stack` of 0 stands for no stack of its own: the new
/// task then runs on a copy of the caller's, and 0 is never handed on as a
/// stack pointer.
pub fn clone_plan(flags: usize, user_stack: usize, ptid: UserPtr, tls: usize, ctid: usize) -> (r:
    Result<ClonePlan, SysError>)
    ensures
        r == clone_plan_result(flags, user_stack, ptid, tls, ctid),
{
    let vm: bool = flags & CLONE_VM != 0;
    let sighand: bool = flags & CLONE_SIGHAND != 0;
    let thread: bool = flags & CLONE_THREAD != 0;
    if (flags | CLONE_KNOWN_BITS) != CLONE_KNOWN_BITS || (sighand && !vm) || (thread && !sighand) {
        return Err(SysError::InvalidArgument);
    }
    let parent_settid: bool = flags & CLONE_PARENT_SETTID != 0;
    if parent_settid && (ptid.addr == 0 || !ptid.accessible) {
        return Err(SysError::BadAddress);
    }
    Ok(
        ClonePlan {
            share_vm: vm,
            share_files: flags & CLONE_FILES != 0,
            share_sighand: sighand,
            same_thread_group: thread,
            stack: if user_stack == 0 {
                None
            } else {
                Some(user_stack)
            },
            tls,
            parent_tid_ptr: if parent_settid {
                Some(ptid.addr)
            } else {
                None
            },
            child_tid_ptr: if flags & CLONE_CHILD_SETTID != 0 {
                Some(ctid)
            } else {
                None
            },
        },
    )
}

/// `id` can be the id of a new child of `task`: it is in range and names
/// neither the task itself, nor the task its descriptor table was made for,
/// nor one of its children.
pub open spec fn fresh_id(task: Task, id: u64) -> bool {
    &&& 0 < id <= MAX_PID
    &&& id != task.id
    &&& id != task.fd_table
    &&& !knows_child(task.children@, id)
}

/// `child` is the record of the task `id` that `parent` creates with these
/// arguments.
pub open spec fn is_clone_of(child: Task, parent: Task, flags: usize, tls: usize, ctid: usize, id: u64) -> bool {
    &&& child.id == id
    &&& child.proc_id == if has_flag(flags, CLONE_THREAD) {
        parent.proc_id
    } else {
        id
    }
    &&& child.parent == if has_flag(flags, CLONE_THREAD) || has_flag(flags, CLONE_PARENT) {
        parent.parent
    } else {
        parent.proc_id
    }
    &&& child.children@ == Seq::<Child>::empty()
    &&& child.clear_child_tid == if has_flag(flags, CLONE_CHILD_CLEARTID) {
        ctid
    } else {
        0
    }
    &&& child.fd_table == if has_flag(flags, CLONE_FILES) {
        parent.fd_table
    } else {
        id
    }
    &&& child.fd_limit == parent.fd_limit
    &&& child.stack_limit == parent.stack_limit
    &&& child.tls_base == tls
    &&& child.gs_base == parent.gs_base
    &&& child.exit_status is None
}

/// Whether one of the children has the id `pid`.
fn has_child(children: &Vec<Child>, pid: u64) -> (r: bool)
    ensures
        r == knows_child(children@, pid),
{
    let n: usize = children.len();
    let mut i: usize = 0;
    while i < n
        invariant
            0 <= i <= n,
            n == children@.len(),
            forall|j: int| 0 <= j < i ==> (#[trigger] children@[j]).pid != pid,
        decreases n - i,
    {
        let c: Child = children[i];
        if c.pid == pid {
            return true;
        }
        i += 1;
    }
    false
}

/// Creates a task.
///
/// `ptid` comes with the memory accessor's verdict, and `spawned` is the
/// scheduler's answer to the request for a new task identity. The call
/// fails as [`clone_plan`] does where no plan can be made. With a plan it is
/// out of memory where the scheduler gave no identity, or one that is no
/// new child's (out of range, the caller's own, that of the caller's
/// descriptor table, or a known child's). Otherwise the new task is entered
/// among the caller's children as running, and the call returns its id, its
/// record and the plan by which the kernel has to make it.
pub fn sys_clone(
    task: &mut Task,
    flags: usize,
    user_stack: usize,
    ptid: UserPtr,
    tls: usize,
    ctid: usize,
    spawned: Option<u64>,
) -> (r: Result<(isize, Task, ClonePlan), SysError>)
    requires
        old(task).wf(),
    ensures
        final(task).wf(),
        final(task).same_but_children(old(task)),
        clone_plan_result(flags, user_stack, ptid, tls, ctid) matches Err(e) ==> r == Err::<
            (isize, Task, ClonePlan),
            SysError,
        >(e),
        clone_plan_result(flags, user_stack, ptid, tls, ctid) is Ok && !(spawned matches Some(id)
            && fresh_id(*old(task), id)) ==> r == Err::<(isize, Task, ClonePlan), SysError>(
            SysError::OutOfMemory,
        ),
        r is Err ==> final(task).children@ == old(task).children@,
        clone_plan_result(flags, user_stack, ptid, tls, ctid) is Ok && (spawned matches Some(id)
            && fresh_id(*old(task), id)) ==> {
            &&& r matches Ok(made)
            &&& made.0 == spawned.unwrap() as isize
            &&& made.1.wf()
            &&& is_clone_of(made.1, *old(task), flags, tls, ctid, spawned.unwrap())
            &&& made.2 == clone_plan_spec(flags, user_stack, ptid.addr, tls, ctid)
            &&& final(task).children@ == old(task).children@.push(
                Child { pid: spawned.unwrap(), exit: None },
            )
        },
{
    let plan: ClonePlan = match clone_plan(flags, user_stack, ptid, tls, ctid) {
        Ok(plan) => plan,
        Err(e) => {
            return Err(e);
        },
    };
    let id: u64 = match spawned {
        Some(id) => id,
        None => {
            return Err(SysError::OutOfMemory);
        },
    };
    if id == 0 || id > MAX_PID || id == task.id || id == task.fd_table || has_child(&task.children, id) {
        return Err(SysError::OutOfMemory);
    }
    let thread: bool = flags & CLONE_THREAD != 0;
    let child = Task {
        id,
        proc_id: if thread {
            task.proc_id
        } else {
            id
        },
        parent: if thread || flags & CLONE_PARENT != 0 {
            task.parent
        } else {
            task.proc_id
        },
        children: Vec::new(),
        clear_child_tid: if flags & CLONE_CHILD_CLEARTID != 0 {
            ctid
        } else {
            0
        },
        fd_table: if flags & CLONE_FILES != 0 {
            task.fd_table
        } else {
            id
        },
        fd_limit: task.fd_limit,
        stack_limit: task.stack_limit,
        tls_base: tls,
        gs_base: task.gs_base,
        exit_status: None,
    };
    task.children.push(Child { pid: id, exit: None });
    proof {
        let before = old(task).children@;
        let after = task.children@;
        assert forall|i: int, j: int| 0 <= i < j < after.len() implies after[i].pid != after[j].pid by {
            if j == before.len() {
                assert(after[i] == before[i]);
            } else {
                assert(after[i] == before[i] && after[j] == before[j]);
            }
        }
        assert forall|i: int| 0 <= i < after.len() implies 0 < (#[trigger] after[i]).pid <= MAX_PID by {
            if i < before.len() {
                assert(after[i] == before[i]);
            }
        }
    }
    Ok((id as isize, child, plan))
}

/// A task created with the descriptor table shared uses the very table of
/// its creator, so what either opens the other sees; one created without
/// uses a table of its own, which no change to the creator's reaches.
pub proof fn lemma_descriptor_table_sharing(
    child: Task,
    parent: Task,
    flags: usize,
    tls: usize,
    ctid: usize,
    id: u64,
)
    requires
        fresh_id(parent, id),
        is_clone_of(child, parent, flags, tls, ctid, id),
    ensures
        has_flag(flags, CLONE_FILES) ==> child.fd_table == parent.fd_table,
        !has_flag(flags, CLONE_FILES) ==> child.fd_table != parent.fd_table,
        clone_plan_spec(flags, 0, 0, tls, ctid).share_files == has_flag(flags, CLONE_FILES),
{
}

/// A child is known to its parent as soon as `clone` has returned: a wait
/// for the new id finds it running, never missing.
pub proof fn lemma_new_child_is_running(cs: Seq<Child>, id: u64)
    requires
        0 < id <= MAX_PID,
        !knows_child(cs, id),
    ensures
        wait_status_spec(cs.push(Child { pid: id, exit: None }), id as i32) == WaitStatus::Running,
{
    let after = cs.push(Child { pid: id, exit: None });
    let pid = id as i32;
    assert forall|k: int| !is_first_zombie(after, pid, k) by {
        if 0 <= k < cs.len() {
            assert(after[k] == cs[k]);
            assert(cs[k].pid != id);
        }
    }
    assert(selects(pid, after[cs.len() as int]));
}

} // verus!
