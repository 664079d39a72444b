//! The per-task record that the lifecycle rules read and update, and the
//! plain values that stand for user-space pointers.

use vstd::prelude::*;

verus! {

/// What a parent knows of one task it created.
#[derive(Clone, Copy, Debug, PartialEq, Eq)]
pub struct Child {
    /// The child's task id.
    pub pid: u64,
    /// The child's exit code once it has terminated, `None` while it runs.
    pub exit: Option<i32>,
}

/// A user-space address together with the verdict of the memory accessor on
/// it: whether the object it points to may be accessed by the caller.
#[derive(Clone, Copy, Debug, PartialEq, Eq)]
pub struct UserPtr {
    pub addr: usize,
    pub accessible: bool,
}

impl UserPtr {
    /// The pointer is null.
    pub open spec fn is_null(self) -> bool {
        self.addr == 0
    }

    /// The pointer is null, or it may be accessed.
    pub open spec fn usable(self) -> bool {
        self.addr == 0 || self.accessible
    }

    /// A value can be stored through the pointer: it is not null and may
    /// be accessed.
    pub open spec fn writable(self) -> bool {
        self.addr != 0 && self.accessible
    }
}

/// The largest task id that fits every return value and every `pid` argument.
pub const MAX_PID: u64 = 0x7fff_ffff;

/// No two entries of `cs` have the same id.
pub open spec fn distinct_pids(cs: Seq<Child>) -> bool {
    forall|i: int, j: int| 0 <= i < j < cs.len() ==> cs[i].pid != cs[j].pid
}

/// Every id of `cs` is positive and at most [`MAX_PID`].
pub open spec fn pids_in_range(cs: Seq<Child>) -> bool {
    forall|i: int| 0 <= i < cs.len() ==> 0 < (#[trigger] cs[i]).pid <= MAX_PID
}

/// Some entry of `cs` has the id `pid`.
pub open spec fn knows_child(cs: Seq<Child>, pid: u64) -> bool {
    exists|i: int| 0 <= i < cs.len() && (#[trigger] cs[i]).pid == pid
}

/// `cs` after the news that task `pid` has terminated with `code`: a running
/// entry of that id records the code, everything else stays.
pub open spec fn mark_exited(cs: Seq<Child>, pid: u64, code: i32) -> Seq<Child> {
    Seq::new(
        cs.len(),
        |i: int|
            if cs[i].pid == pid && cs[i].exit is None {
                Child { pid, exit: Some(code) }
            } else {
                cs[i]
            },
    )
}

/// The news of an exit changes no id: the same children are known after it.
pub proof fn lemma_mark_exited_keeps_ids(cs: Seq<Child>, pid: u64, code: i32, id: u64)
    ensures
        knows_child(mark_exited(cs, pid, code), id) <==> knows_child(cs, id),
        distinct_pids(cs) ==> distinct_pids(mark_exited(cs, pid, code)),
        pids_in_range(cs) ==> pids_in_range(mark_exited(cs, pid, code)),
{
    let after = mark_exited(cs, pid, code);
    assert forall|i: int| 0 <= i < cs.len() implies (#[trigger] after[i]).pid == cs[i].pid by {}
    if knows_child(after, id) {
        let k = choose|k: int| 0 <= k < after.len() && (#[trigger] after[k]).pid == id;
        assert(cs[k].pid == id);
    }
    if knows_child(cs, id) {
        let k = choose|k: int| 0 <= k < cs.len() && (#[trigger] cs[k]).pid == id;
        assert(after[k].pid == id);
    }
    if pids_in_range(cs) {
        assert forall|i: int| 0 <= i < after.len() implies 0 < (#[trigger] after[i]).pid
            <= MAX_PID by {
            assert(after[i].pid == cs[i].pid);
        }
    }
}

/// The extension record of one task.
#[derive(Debug, PartialEq, Eq)]
pub struct Task {
    /// The task's own id, fixed at creation.
    pub id: u64,
    /// The process that the task belongs to.
    pub proc_id: u64,
    /// The process that created this one; 0 for the root.
    pub parent: u64,
    /// The tasks created by this one and not yet reaped.
    pub children: Vec<Child>,
    /// User address of the word to zero when the task exits; 0 if none.
    pub clear_child_tid: usize,
    /// The descriptor table that the task uses, named by the id of the
    /// task it was made for. Tasks that name the same table share it.
    pub fd_table: u64,
    /// One more than the largest descriptor the task may hold.
    pub fd_limit: u64,
    /// The stack-size limit, soft and hard alike.
    pub stack_limit: u64,
    /// Shadow of the thread-pointer base register.
    pub tls_base: usize,
    /// Shadow of the secondary segment base register.
    pub gs_base: u64,
    /// The exit code, once the task has terminated.
    pub exit_status: Option<i32>,
}

impl Task {
    /// The record's invariant: every id is positive (the parent's may be 0)
    /// and fits a `pid` argument, and the children's ids are distinct.
    pub open spec fn wf(&self) -> bool {
        &&& 0 < self.id <= MAX_PID
        &&& 0 < self.proc_id <= MAX_PID
        &&& self.parent <= MAX_PID
        &&& distinct_pids(self.children@)
        &&& pids_in_range(self.children@)
    }

    /// Everything of the record but the children is the same in `other`.
    pub open spec fn same_but_children(&self, other: &Task) -> bool {
        &&& self.id == other.id
        &&& self.proc_id == other.proc_id
        &&& self.parent == other.parent
        &&& self.clear_child_tid == other.clear_child_tid
        &&& self.fd_table == other.fd_table
        &&& self.fd_limit == other.fd_limit
        &&& self.stack_limit == other.stack_limit
        &&& self.tls_base == other.tls_base
        &&& self.gs_base == other.gs_base
        &&& self.exit_status == other.exit_status
    }

    /// Whether the record's invariant holds.
    pub fn is_wf(&self) -> (r: bool)
        ensures
            r == self.wf(),
    {
        if self.id == 0 || self.id > MAX_PID || self.proc_id == 0 || self.proc_id > MAX_PID
            || self.parent > MAX_PID {
            return false;
        }
        let n: usize = self.children.len();
        let mut i: usize = 0;
        while i < n
            invariant
                0 <= i <= n,
                n == self.children@.len(),
                forall|a: int, b: int| 0 <= a < b < i ==> self.children@[a].pid != self.children@[b].pid,
                forall|a: int| 0 <= a < i ==> 0 < (#[trigger] self.children@[a]).pid <= MAX_PID,
            decreases n - i,
        {
            let c: Child = self.children[i];
            if c.pid == 0 || c.pid > MAX_PID {
                return false;
            }
            let mut j: usize = 0;
            while j < i
                invariant
                    0 <= j <= i < n,
                    n == self.children@.len(),
                    c == self.children@[i as int],
                    forall|a: int| 0 <= a < j ==> self.children@[a].pid != c.pid,
                decreases i - j,
            {
                let d: Child = self.children[j];
                if d.pid == c.pid {
                    return false;
                }
                j += 1;
            }
            i += 1;
        }
        true
    }

    /// The record of a freshly started task without children, or `None`
    /// where an id is out of range: `id` and `proc_id` must be positive, and
    /// none of the three may exceed [`MAX_PID`].
    pub fn new(id: u64, proc_id: u64, parent: u64, fd_limit: u64, stack_limit: u64) -> (r: Option<
        Task,
    >)
        ensures
            r is Some <==> 0 < id <= MAX_PID && 0 < proc_id <= MAX_PID && parent <= MAX_PID,
            match r {
                Some(t) => {
                    &&& t.wf()
                    &&& t.id == id
                    &&& t.proc_id == proc_id
                    &&& t.parent == parent
                    &&& t.children@ == Seq::<Child>::empty()
                    &&& t.clear_child_tid == 0
                    &&& t.fd_table == id
                    &&& t.fd_limit == fd_limit
                    &&& t.stack_limit == stack_limit
                    &&& t.tls_base == 0
                    &&& t.gs_base == 0
                    &&& t.exit_status is None
                },
                None => true,
            },
    {
        if id == 0 || id > MAX_PID || proc_id == 0 || proc_id > MAX_PID || parent > MAX_PID {
            return None;
        }
        Some(Task {
            id,
            proc_id,
            parent,
            children: Vec::new(),
            clear_child_tid: 0,
            fd_table: id,
            fd_limit,
            stack_limit,
            tls_base: 0,
            gs_base: 0,
            exit_status: None,
        })
    }

    /// Records that the child `pid` has terminated with `code`. Returns
    /// whether a running child of that id was known. A code once recorded is
    /// never replaced.
    pub fn child_exited(&mut self, pid: u64, code: i32) -> (found: bool)
        requires
            old(self).wf(),
        ensures
            final(self).wf(),
            final(self).same_but_children(old(self)),
            final(self).children@ == mark_exited(old(self).children@, pid, code),
            found == (exists|i: int|
                0 <= i < old(self).children@.len() && (#[trigger] old(self).children@[i]).pid
                    == pid && old(self).children@[i].exit is None),
    {
        let n: usize = self.children.len();
        let mut i: usize = 0;
        let mut found: bool = false;
        while i < n
            invariant
                0 <= i <= n,
                n == self.children@.len(),
                n == old(self).children@.len(),
                self.same_but_children(old(self)),
                forall|k: int|
                    0 <= k < i ==> self.children@[k] == mark_exited(
                        old(self).children@,
                        pid,
                        code,
                    )[k],
                forall|k: int| i <= k < n ==> self.children@[k] == old(self).children@[k],
                found == (exists|k: int|
                    0 <= k < i && (#[trigger] old(self).children@[k]).pid == pid && old(
                        self,
                    ).children@[k].exit is None),
            decreases n - i,
        {
            let c: Child = self.children[i];
            if c.pid == pid && c.exit.is_none() {
                self.children.set(i, Child { pid, exit: Some(code) });
                found = true;
            }
            i += 1;
        }
        proof {
            assert(self.children@ =~= mark_exited(old(self).children@, pid, code));
        }
        found
    }
}

} // verus!
