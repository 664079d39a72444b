//! Reaping of terminated children: the status query and the `wait4` rule.

use vstd::prelude::*;
use crate::error::SysError;
use crate::task::{
    distinct_pids, knows_child, mark_exited, pids_in_range, Child, Task, UserPtr, MAX_PID,
};

verus! {

/// Return at once if no child has terminated.
pub const WNOHANG: u32 = 1;

/// Also report stopped children.
pub const WUNTRACED: u32 = 2;

/// Also report continued children.
pub const WCONTINUED: u32 = 8;

/// Every bit that is none of the options above.
pub const WAIT_UNKNOWN_BITS: u32 = 0xffff_fff4;

/// What a query for a child yields.
#[derive(Clone, Copy, Debug, PartialEq, Eq)]
pub enum WaitStatus {
    /// A matching child exists and none has terminated.
    Running,
    /// A matching child has terminated with this code and awaits its reap.
    Zombie(i32),
    /// The caller has no matching child.
    NotExist,
}

/// What `wait4` decides.
#[derive(Clone, Copy, Debug, PartialEq, Eq)]
pub enum WaitStep {
    /// The call is over: `ret` goes back to the caller, after `store`, an
    /// address and the word to write there, has been carried out.
    Done { ret: isize, store: Option<(usize, i32)> },
    /// The caller has to sleep until a child terminates and then ask again.
    Suspend,
}

/// The request `pid` is about the child `c`: any child for `pid <= 0`, the
/// child of that id otherwise.
pub open spec fn selects(pid: i32, c: Child) -> bool {
    pid <= 0 || c.pid == pid
}

/// `i` is the first entry of `cs` that `pid` selects and that has terminated.
pub open spec fn is_first_zombie(cs: Seq<Child>, pid: i32, i: int) -> bool {
    &&& 0 <= i < cs.len()
    &&& selects(pid, cs[i])
    &&& cs[i].exit is Some
    &&& forall|j: int| 0 <= j < i ==> !(selects(pid, #[trigger] cs[j]) && cs[j].exit is Some)
}

/// The position of the child that a wait for `pid` reaps, if there is one.
pub open spec fn zombie_index(cs: Seq<Child>, pid: i32) -> Option<int> {
    if exists|i: int| is_first_zombie(cs, pid, i) {
        Some(choose|i: int| is_first_zombie(cs, pid, i))
    } else {
        None
    }
}

/// The status of the children `cs` with respect to the request `pid`.
pub open spec fn wait_status_spec(cs: Seq<Child>, pid: i32) -> WaitStatus {
    match zombie_index(cs, pid) {
        Some(i) => WaitStatus::Zombie(cs[i].exit.unwrap()),
        None => if exists|i: int| 0 <= i < cs.len() && selects(pid, #[trigger] cs[i]) {
            WaitStatus::Running
        } else {
            WaitStatus::NotExist
        },
    }
}

/// `option` holds no unknown bit.
pub open spec fn valid_options(option: u32) -> bool {
    option & WAIT_UNKNOWN_BITS == 0
}

/// `option` asks not to block.
pub open spec fn wnohang(option: u32) -> bool {
    option & WNOHANG != 0
}

/// What `wait4` returns on the children `cs`. The pointer `out` matters only
/// where a child is reaped: it is then either null or has to be accessible.
pub open spec fn wait4_result(cs: Seq<Child>, pid: i32, out: UserPtr, option: u32) -> Result<
    WaitStep,
    SysError,
> {
    if !valid_options(option) {
        Err(SysError::InvalidArgument)
    } else {
        match wait_status_spec(cs, pid) {
            WaitStatus::NotExist => Err(SysError::NoSuchChild),
            WaitStatus::Zombie(code) => if !out.usable() {
                Err(SysError::BadAddress)
            } else {
                Ok(
                    WaitStep::Done {
                        ret: cs[zombie_index(cs, pid).unwrap()].pid as isize,
                        store: if out.addr == 0 {
                            None
                        } else {
                            Some((out.addr, code))
                        },
                    },
                )
            },
            WaitStatus::Running => if wnohang(option) {
                Ok(WaitStep::Done { ret: 0, store: None })
            } else {
                Ok(WaitStep::Suspend)
            },
        }
    }
}

/// The children that `wait4` leaves: `cs` without the reaped child where the
/// call reaps one, `cs` itself otherwise.
pub open spec fn wait4_children(cs: Seq<Child>, pid: i32, out: UserPtr, option: u32) -> Seq<
    Child,
> {
    if valid_options(option) && out.usable() && zombie_index(cs, pid) is Some {
        cs.remove(zombie_index(cs, pid).unwrap())
    } else {
        cs
    }
}

/// Finds the child that a wait for `pid` reaps: its position and exit code.
fn find_zombie(children: &Vec<Child>, pid: i32) -> (r: Option<(usize, i32)>)
    ensures
        match r {
            Some((i, code)) => zombie_index(children@, pid) == Some(i as int) && children@[i as int].exit
                == Some(code),
            None => zombie_index(children@, pid) is None,
        },
{
    let n: usize = children.len();
    let mut i: usize = 0;
    while i < n
        invariant
            0 <= i <= n,
            n == children@.len(),
            forall|j: int|
                0 <= j < i ==> !(selects(pid, #[trigger] children@[j]) && children@[j].exit
                    is Some),
        decreases n - i,
    {
        let c: Child = children[i];
        if pid <= 0 || (pid > 0 && c.pid == pid as u64) {
            if let Some(code) = c.exit {
                proof {
                    assert(is_first_zombie(children@, pid, i as int));
                    let k = choose|k: int| is_first_zombie(children@, pid, k);
                    assert(selects(pid, children@[k]));
                    assert(k == i);
                }
                return Some((i, code));
            }
        }
        i += 1;
    }
    proof {
        assert forall|k: int| !is_first_zombie(children@, pid, k) by {
            if 0 <= k < n {
                assert(!(selects(pid, children@[k]) && children@[k].exit is Some));
            }
        }
    }
    None
}

/// Whether `pid` selects any of the children.
fn any_selected(children: &Vec<Child>, pid: i32) -> (r: bool)
    ensures
        r == (exists|i: int| 0 <= i < children@.len() && selects(pid, #[trigger] children@[i])),
{
    let n: usize = children.len();
    let mut i: usize = 0;
    while i < n
        invariant
            0 <= i <= n,
            n == children@.len(),
            forall|j: int| 0 <= j < i ==> !selects(pid, #[trigger] children@[j]),
        decreases n - i,
    {
        let c: Child = children[i];
        if pid <= 0 || (pid > 0 && c.pid == pid as u64) {
            assert(selects(pid, children@[i as int]));
            return true;
        }
        i += 1;
    }
    false
}

/// The status of the caller's children with respect to `pid`.
pub fn wait_status(task: &Task, pid: i32) -> (s: WaitStatus)
    ensures
        s == wait_status_spec(task.children@, pid),
{
    match find_zombie(&task.children, pid) {
        Some((_, code)) => WaitStatus::Zombie(code),
        None => {
            if any_selected(&task.children, pid) {
                WaitStatus::Running
            } else {
                WaitStatus::NotExist
            }
        },
    }
}

/// Waits for a child to terminate.
///
/// `exit_code_ptr` is where the exit code goes: null if the caller does not
/// want it. Unknown option bits are an invalid argument. Otherwise the
/// outcome follows the children's status: no matching child is an error; a
/// terminated child is reaped, that is removed from the record, its id
/// returned and its code stored, unless the pointer is neither null nor
/// accessible, which is a bad address and reaps nothing; and while the
/// children run, the call returns 0 under `WNOHANG` and asks the caller to
/// suspend without it.
///
/// The pointer is judged only when a child is reaped, because nothing is
/// stored through it before: a call that stores nothing cannot fail on the
/// pointer, so a wait under `WNOHANG` on running children returns 0 whatever
/// the pointer, and a caller without children is told so.
pub fn sys_wait4(task: &mut Task, pid: i32, exit_code_ptr: UserPtr, option: u32) -> (r: Result<
    WaitStep,
    SysError,
>)
    requires
        old(task).wf(),
    ensures
        final(task).wf(),
        final(task).same_but_children(old(task)),
        r == wait4_result(old(task).children@, pid, exit_code_ptr, option),
        final(task).children@ == wait4_children(old(task).children@, pid, exit_code_ptr, option),
{
    if option & WAIT_UNKNOWN_BITS != 0 {
        return Err(SysError::InvalidArgument);
    }
    match find_zombie(&task.children, pid) {
        Some((i, code)) => {
            if exit_code_ptr.addr != 0 && !exit_code_ptr.accessible {
                return Err(SysError::BadAddress);
            }
            let c: Child = task.children.remove(i);
            proof {
                lemma_remove_keeps_wf(old(task).children@, i as int);
            }
            let store: Option<(usize, i32)> = if exit_code_ptr.addr == 0 {
                None
            } else {
                Some((exit_code_ptr.addr, code))
            };
            Ok(WaitStep::Done { ret: c.pid as isize, store })
        },
        None => {
            if !any_selected(&task.children, pid) {
                Err(SysError::NoSuchChild)
            } else if option & WNOHANG != 0 {
                Ok(WaitStep::Done { ret: 0, store: None })
            } else {
                Ok(WaitStep::Suspend)
            }
        },
    }
}

/// Removing an entry keeps the ids distinct and in range.
pub proof fn lemma_remove_keeps_wf(cs: Seq<Child>, i: int)
    requires
        distinct_pids(cs),
        pids_in_range(cs),
        0 <= i < cs.len(),
    ensures
        distinct_pids(cs.remove(i)),
        pids_in_range(cs.remove(i)),
        forall|k: int| 0 <= k < cs.remove(i).len() ==> (#[trigger] cs.remove(i)[k]).pid != cs[i].pid,
{
    let r = cs.remove(i);
    assert forall|k: int| 0 <= k < r.len() implies 0 < (#[trigger] r[k]).pid <= MAX_PID
        && r[k].pid != cs[i].pid by {
        if k < i {
            assert(r[k] == cs[k]);
        } else {
            assert(r[k] == cs[k + 1]);
        }
    }
    assert forall|a: int, b: int| 0 <= a < b < r.len() implies r[a].pid != r[b].pid by {
        let a2 = if a < i { a } else { a + 1 };
        let b2 = if b < i { b } else { b + 1 };
        assert(r[a] == cs[a2]);
        assert(r[b] == cs[b2]);
    }
}

/// A wait adds no child: whoever is known after it was known before.
pub proof fn lemma_wait4_adds_no_child(cs: Seq<Child>, pid: i32, out: UserPtr, option: u32, id: u64)
    requires
        knows_child(wait4_children(cs, pid, out, option), id),
    ensures
        knows_child(cs, id),
{
    let rest = wait4_children(cs, pid, out, option);
    let k = choose|k: int| 0 <= k < rest.len() && (#[trigger] rest[k]).pid == id;
    if rest != cs {
        let i = zombie_index(cs, pid).unwrap();
        assert(is_first_zombie(cs, pid, i));
        if k < i {
            assert(cs[k].pid == id);
        } else {
            assert(cs[k + 1].pid == id);
        }
    } else {
        assert(cs[k].pid == id);
    }
}

/// Under `WNOHANG`, a wait on children that still run returns 0, asks for no
/// suspension and no store, and leaves the children as they are.
pub proof fn lemma_wnohang_returns_zero(cs: Seq<Child>, pid: i32, out: UserPtr)
    requires
        wait_status_spec(cs, pid) == WaitStatus::Running,
    ensures
        wait4_result(cs, pid, out, WNOHANG) == Ok::<WaitStep, SysError>(
            WaitStep::Done { ret: 0, store: None },
        ),
        wait4_children(cs, pid, out, WNOHANG) == cs,
{
    assert(1u32 & 0xffff_fff4u32 == 0) by (bit_vector);
    assert(1u32 & 1u32 != 0) by (bit_vector);
}

/// A blocking wait for one child that has terminated with `code` returns the
/// child's id and stores `code`; the child is then gone, so a second wait for
/// it finds no such child.
pub proof fn lemma_reaped_once(cs: Seq<Child>, pid: i32, out: UserPtr, again: UserPtr, code: i32)
    requires
        distinct_pids(cs),
        pids_in_range(cs),
        pid > 0,
        out.usable(),
        again.usable(),
        wait_status_spec(cs, pid) == WaitStatus::Zombie(code),
    ensures
        wait4_result(cs, pid, out, 0) == Ok::<WaitStep, SysError>(
            WaitStep::Done {
                ret: pid as isize,
                store: if out.addr == 0 {
                    None
                } else {
                    Some((out.addr, code))
                },
            },
        ),
        wait4_result(wait4_children(cs, pid, out, 0), pid, again, 0) == Err::<WaitStep, SysError>(
            SysError::NoSuchChild,
        ),
{
    assert(0u32 & 0xffff_fff4u32 == 0) by (bit_vector);
    let i = zombie_index(cs, pid).unwrap();
    assert(is_first_zombie(cs, pid, i));
    lemma_remove_keeps_wf(cs, i);
    let rest = cs.remove(i);
    assert(rest == wait4_children(cs, pid, out, 0));
    assert forall|k: int| !is_first_zombie(rest, pid, k) by {
        if 0 <= k < rest.len() {
            assert(rest[k].pid != cs[i].pid);
        }
    }
    assert(!(exists|k: int| 0 <= k < rest.len() && selects(pid, #[trigger] rest[k])));
}

/// Where a wait finds no child to reap, none of the children it is about
/// has terminated.
pub proof fn lemma_no_zombie_among(cs: Seq<Child>, pid: i32, k: int)
    requires
        zombie_index(cs, pid) is None,
        0 <= k <= cs.len(),
    ensures
        forall|j: int| 0 <= j < k ==> !(selects(pid, #[trigger] cs[j]) && cs[j].exit is Some),
    decreases k,
{
    if k > 0 {
        lemma_no_zombie_among(cs, pid, k - 1);
        assert(!is_first_zombie(cs, pid, k - 1));
    }
}

/// No exit is lost: while a wait for `pid` finds its children running, the
/// news that one of them, `who`, has terminated with `code` makes the next
/// wait find exactly that child terminated with `code`.
pub proof fn lemma_exit_is_seen(cs: Seq<Child>, pid: i32, who: u64, code: i32)
    requires
        distinct_pids(cs),
        knows_child(cs, who),
        pid <= 0 || who == pid,
        wait_status_spec(cs, pid) == WaitStatus::Running,
    ensures
        wait_status_spec(mark_exited(cs, who, code), pid) == WaitStatus::Zombie(code),
        zombie_index(mark_exited(cs, who, code), pid) matches Some(i) && cs[i].pid == who,
{
    let after = mark_exited(cs, who, code);
    let i = choose|i: int| 0 <= i < cs.len() && (#[trigger] cs[i]).pid == who;
    lemma_no_zombie_among(cs, pid, cs.len() as int);
    assert(selects(pid, cs[i]));
    assert(cs[i].exit is None);
    assert(after[i] == Child { pid: who, exit: Some(code) });
    assert forall|j: int| 0 <= j < after.len() && j != i implies !(selects(pid, #[trigger] after[j])
        && after[j].exit is Some) by {
        if j < i {
            assert(cs[j].pid != cs[i].pid);
        } else {
            assert(cs[i].pid != cs[j].pid);
        }
        assert(after[j] == cs[j]);
    }
    assert(is_first_zombie(after, pid, i));
    let k = zombie_index(after, pid).unwrap();
    assert(is_first_zombie(after, pid, k));
    assert(selects(pid, after[k]));
    assert(k == i);
}

} // verus!
