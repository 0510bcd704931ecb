//! The task manager: which application runs, and which one runs next.
//!
//! Scheduling is round robin: starting after the current task, the manager
//! looks at the tasks up to the last application, then wraps around to the
//! first and looks up to (and including) the current task again.

pub mod context;
pub mod task;

use vstd::prelude::*;

use crate::config::MAX_APP_NUM;
use crate::task::context::TaskContext;
use crate::task::task::{TaskControlBlock, TaskStatus};

verus! {

/// The mutable part of the task manager.
pub struct TaskManagerInner {
    pub tasks: [TaskControlBlock; MAX_APP_NUM],
    pub current_task: usize,
}

/// All tasks of the kernel, one per application slot, and which one is current.
pub struct TaskManager {
    pub num_app: usize,
    pub inner: TaskManagerInner,
}

/// True of `i` when the round-robin search that starts after task `cur`,
/// among `n` applications, looks at task `i`: first the tasks after `cur` up
/// to the last application, then the tasks from `0` up to `cur` itself.
pub open spec fn in_search(cur: int, n: int, i: int) -> bool {
    (cur < i && i < n) || (0 <= i && i <= cur)
}

/// How many tasks the search looks at before task `i`.
pub open spec fn search_rank(cur: int, n: int, i: int) -> int {
    if i > cur {
        i - cur - 1
    } else if n > cur + 1 {
        (n - cur - 1) + i
    } else {
        i
    }
}

impl TaskManager {
    /// The status of task `i`.
    pub open spec fn status(&self, i: int) -> TaskStatus {
        self.inner.tasks@[i].task_status
    }

    /// The saved context of task `i`.
    pub open spec fn context(&self, i: int) -> TaskContext {
        self.inner.tasks@[i].task_cx
    }

    /// The index of the current task.
    pub open spec fn current(&self) -> int {
        self.inner.current_task as int
    }

    /// The manager's invariant: at most `MAX_APP_NUM` applications, and the
    /// current task is one of them (or task 0 when there is none).
    pub open spec fn wf(&self) -> bool {
        &&& self.num_app <= MAX_APP_NUM
        &&& self.inner.current_task < MAX_APP_NUM
        &&& (self.inner.current_task < self.num_app || self.inner.current_task == 0)
    }

    /// True when `i` is the first ready task of the round-robin search that
    /// starts after the current task.
    pub open spec fn first_ready(&self, i: int) -> bool {
        &&& in_search(self.current(), self.num_app as int, i)
        &&& self.status(i) == TaskStatus::Ready
        &&& forall|j: int|
            #![trigger self.status(j)]
            in_search(self.current(), self.num_app as int, j) && search_rank(
                self.current(),
                self.num_app as int,
                j,
            ) < search_rank(self.current(), self.num_app as int, i) ==> self.status(j)
                != TaskStatus::Ready
    }

    /// True when the round-robin search finds no ready task.
    pub open spec fn none_ready(&self) -> bool {
        forall|j: int|
            #![trigger self.status(j)]
            in_search(self.current(), self.num_app as int, j) ==> self.status(j)
                != TaskStatus::Ready
    }

    /// The manager for `num_app` applications: every slot gets a context that
    /// returns into `restore_entry` on the kernel stack `kernel_sps[i]`, and is
    /// ready; task 0 is current.
    pub fn new(num_app: usize, restore_entry: usize, kernel_sps: &[usize]) -> (tm: Self)
        requires
            num_app <= MAX_APP_NUM,
            kernel_sps@.len() == MAX_APP_NUM,
        ensures
            tm.wf(),
            tm.num_app == num_app,
            tm.current() == 0,
            forall|i: int|
                0 <= i < MAX_APP_NUM ==> {
                    &&& #[trigger] tm.status(i) == TaskStatus::Ready
                    &&& tm.context(i).spec_ra() == restore_entry
                    &&& tm.context(i).spec_sp() == kernel_sps@[i]
                    &&& tm.context(i).s_zeroed()
                },
    {
        let blank = TaskControlBlock {
            task_cx: TaskContext::zero_init(),
            task_status: TaskStatus::Uninit,
        };
        let mut tasks: [TaskControlBlock; MAX_APP_NUM] = [blank;MAX_APP_NUM];
        let mut i: usize = 0;
        while i < MAX_APP_NUM
            invariant
                i <= MAX_APP_NUM,
                kernel_sps@.len() == MAX_APP_NUM,
                forall|k: int|
                    0 <= k < i ==> {
                        &&& #[trigger] tasks@[k].task_status == TaskStatus::Ready
                        &&& tasks@[k].task_cx.spec_ra() == restore_entry
                        &&& tasks@[k].task_cx.spec_sp() == kernel_sps@[k]
                        &&& tasks@[k].task_cx.s_zeroed()
                    },
            decreases MAX_APP_NUM - i,
        {
            tasks[i] = TaskControlBlock {
                task_cx: TaskContext::go_restore(restore_entry, kernel_sps[i]),
                task_status: TaskStatus::Ready,
            };
            i = i + 1;
        }
        TaskManager { num_app, inner: TaskManagerInner { tasks, current_task: 0 } }
    }

    /// The first ready task in round-robin order after the current one, or
    /// `None` when no task is ready.
    pub fn find_next_ready_task(&self) -> (r: Option<usize>)
        requires
            self.wf(),
        ensures
            match r {
                Some(i) => self.first_ready(i as int),
                None => self.none_ready(),
            },
    {
        let cur = self.inner.current_task;
        let n = self.num_app;
        let mut i: usize = cur + 1;
        while i < n
            invariant
                self.wf(),
                cur == self.inner.current_task,
                n == self.num_app,
                cur + 1 <= i,
                i <= n || i == cur + 1,
                forall|j: int|
                    #![trigger self.status(j)]
                    cur < j < i ==> self.status(j) != TaskStatus::Ready,
            decreases n - i,
        {
            if self.inner.tasks[i].task_status == TaskStatus::Ready {
                return Some(i);
            }
            i = i + 1;
        }
        let mut k: usize = 0;
        while k <= cur
            invariant
                self.wf(),
                cur == self.inner.current_task,
                n == self.num_app,
                k <= cur + 1,
                forall|j: int|
                    #![trigger self.status(j)]
                    cur < j < n ==> self.status(j) != TaskStatus::Ready,
                forall|j: int|
                    #![trigger self.status(j)]
                    0 <= j < k ==> self.status(j) != TaskStatus::Ready,
            decreases cur + 1 - k,
        {
            if self.inner.tasks[k].task_status == TaskStatus::Ready {
                return Some(k);
            }
            k = k + 1;
        }
        None
    }

    /// The current task becomes ready again: it gives up the processor.
    pub fn mark_current_suspended(&mut self)
        requires
            old(self).wf(),
        ensures
            final(self).wf(),
            final(self).status(old(self).current()) == TaskStatus::Ready,
            tasks_unchanged_except(*old(self), *final(self), old(self).current()),
            final(self).context(old(self).current()) == old(self).context(old(self).current()),
    {
        let current = self.inner.current_task;
        let cx = self.inner.tasks[current].task_cx;
        self.inner.tasks[current] = TaskControlBlock { task_status: TaskStatus::Ready, task_cx: cx };
    }

    /// The current task has finished.
    pub fn mark_current_exited(&mut self)
        requires
            old(self).wf(),
        ensures
            final(self).wf(),
            final(self).status(old(self).current()) == TaskStatus::Exited,
            tasks_unchanged_except(*old(self), *final(self), old(self).current()),
            final(self).context(old(self).current()) == old(self).context(old(self).current()),
    {
        let current = self.inner.current_task;
        let cx = self.inner.tasks[current].task_cx;
        self.inner.tasks[current] = TaskControlBlock { task_status: TaskStatus::Exited, task_cx: cx };
    }

    /// Makes task 0 current and running, and returns its index: the task
    /// whose context the kernel switches to first.
    pub fn run_first_app(&mut self) -> (first: usize)
        requires
            old(self).wf(),
        ensures
            first == 0,
            final(self).wf(),
            final(self).current() == 0,
            final(self).status(0) == TaskStatus::Running,
            final(self).num_app == old(self).num_app,
            forall|i: int|
                #![trigger final(self).status(i)]
                0 < i < MAX_APP_NUM ==> final(self).status(i) == old(self).status(i),
            forall|i: int|
                #![trigger final(self).context(i)]
                0 <= i < MAX_APP_NUM ==> final(self).context(i) == old(self).context(i),
    {
        self.inner.current_task = 0;
        let cx = self.inner.tasks[0].task_cx;
        self.inner.tasks[0] = TaskControlBlock { task_status: TaskStatus::Running, task_cx: cx };
        0
    }

    /// Picks the next task in round-robin order and makes it current. Returns
    /// the pair (task switched from, task switched to), or `None` when no task
    /// is ready: then every application has completed. No status changes.
    pub fn run_next_app(&mut self) -> (r: Option<(usize, usize)>)
        requires
            old(self).wf(),
        ensures
            final(self).wf(),
            final(self).num_app == old(self).num_app,
            final(self).inner.tasks@ == old(self).inner.tasks@,
            match r {
                Some((from, to)) => {
                    &&& from == old(self).current()
                    &&& old(self).first_ready(to as int)
                    &&& final(self).current() == to
                },
                None => {
                    &&& old(self).none_ready()
                    &&& final(self).current() == old(self).current()
                },
            },
    {
        match self.find_next_ready_task() {
            Some(next) => {
                let current = self.inner.current_task;
                self.inner.current_task = next;
                Some((current, next))
            },
            None => None,
        }
    }
}

/// True when `new` differs from `old` at most in task `k`'s status: same
/// number of applications, same current task, and every other task keeps its
/// status and context.
pub open spec fn tasks_unchanged_except(old: TaskManager, new: TaskManager, k: int) -> bool {
    &&& new.num_app == old.num_app
    &&& new.inner.current_task == old.inner.current_task
    &&& forall|i: int|
        #![trigger new.status(i)]
        0 <= i < MAX_APP_NUM && i != k ==> new.status(i) == old.status(i)
    &&& forall|i: int|
        #![trigger new.context(i)]
        0 <= i < MAX_APP_NUM && i != k ==> new.context(i) == old.context(i)
}

/// Starts the first task: task 0 becomes current and running; returns 0, the
/// task to switch to.
pub fn run_first_task(tm: &mut TaskManager) -> (first: usize)
    requires
        old(tm).wf(),
    ensures
        first == 0,
        final(tm).wf(),
        final(tm).current() == 0,
        final(tm).status(0) == TaskStatus::Running,
        final(tm).num_app == old(tm).num_app,
        forall|i: int|
            #![trigger final(tm).status(i)]
            0 < i < MAX_APP_NUM ==> final(tm).status(i) == old(tm).status(i),
        forall|i: int|
            #![trigger final(tm).context(i)]
            0 <= i < MAX_APP_NUM ==> final(tm).context(i) == old(tm).context(i),
{
    tm.run_first_app()
}

/// The current task exits and the next ready task is chosen, as
/// `TaskManager::run_next_app` does; `None` means every application has completed.
pub fn exit_current_and_run_next(tm: &mut TaskManager) -> (r: Option<(usize, usize)>)
    requires
        old(tm).wf(),
    ensures
        final(tm).wf(),
        final(tm).num_app == old(tm).num_app,
        final(tm).status(old(tm).current()) == TaskStatus::Exited,
        forall|i: int|
            #![trigger final(tm).status(i)]
            0 <= i < MAX_APP_NUM && i != old(tm).current() ==> final(tm).status(i) == old(
                tm,
            ).status(i),
        forall|i: int|
            #![trigger final(tm).context(i)]
            0 <= i < MAX_APP_NUM ==> final(tm).context(i) == old(tm).context(i),
        match r {
            Some((from, to)) => {
                &&& from == old(tm).current()
                &&& to != from
                &&& old(tm).status(to as int) == TaskStatus::Ready
                &&& final(tm).current() == to
                &&& in_search(old(tm).current(), old(tm).num_app as int, to as int)
                &&& forall|j: int|
                    #![trigger old(tm).status(j)]
                    in_search(old(tm).current(), old(tm).num_app as int, j) && j != from
                        && search_rank(old(tm).current(), old(tm).num_app as int, j)
                        < search_rank(old(tm).current(), old(tm).num_app as int, to as int)
                        ==> old(tm).status(j) != TaskStatus::Ready
            },
            None => {
                &&& final(tm).current() == old(tm).current()
                &&& forall|j: int|
                    #![trigger old(tm).status(j)]
                    in_search(old(tm).current(), old(tm).num_app as int, j) && j != old(
                        tm,
                    ).current() ==> old(tm).status(j) != TaskStatus::Ready
            },
        },
{
    let ghost s0 = *tm;
    mark_current_exited(tm);
    let ghost s1 = *tm;
    let r = run_next_app(tm);
    proof {
        assert forall|i: int| 0 <= i < MAX_APP_NUM && i != s0.current() implies #[trigger] tm.status(
            i,
        ) == s0.status(i) by {
            assert(tm.status(i) == s1.status(i));
        }
        assert forall|j: int| 0 <= j < MAX_APP_NUM && j != s0.current() implies #[trigger] s0.status(
            j,
        ) == s1.status(j) by {}
        assert forall|i: int| 0 <= i < MAX_APP_NUM implies #[trigger] tm.context(i) == s0.context(
            i,
        ) by {
            assert(tm.context(i) == s1.context(i));
        }
    }
    r
}

/// The current task yields: it becomes ready and the next ready task in
/// round-robin order is chosen. Since the current task is itself ready by
/// then, a task is always found; it is the current task again only when no
/// other task is ready.
pub fn suspend_current_and_run_next(tm: &mut TaskManager) -> (r: Option<(usize, usize)>)
    requires
        old(tm).wf(),
    ensures
        final(tm).wf(),
        final(tm).num_app == old(tm).num_app,
        final(tm).status(old(tm).current()) == TaskStatus::Ready,
        forall|i: int|
            #![trigger final(tm).status(i)]
            0 <= i < MAX_APP_NUM && i != old(tm).current() ==> final(tm).status(i) == old(
                tm,
            ).status(i),
        r is Some,
        forall|i: int|
            #![trigger final(tm).context(i)]
            0 <= i < MAX_APP_NUM ==> final(tm).context(i) == old(tm).context(i),
        match r {
            Some((from, to)) => {
                &&& from == old(tm).current()
                &&& final(tm).current() == to
                &&& final(tm).status(to as int) == TaskStatus::Ready
                &&& in_search(old(tm).current(), old(tm).num_app as int, to as int)
                &&& forall|j: int|
                    #![trigger old(tm).status(j)]
                    in_search(old(tm).current(), old(tm).num_app as int, j) && j != from
                        && search_rank(old(tm).current(), old(tm).num_app as int, j)
                        < search_rank(old(tm).current(), old(tm).num_app as int, to as int)
                        ==> old(tm).status(j) != TaskStatus::Ready
                &&& (to == from <==> forall|j: int|
                    #![trigger old(tm).status(j)]
                    in_search(old(tm).current(), old(tm).num_app as int, j) && j != from
                        ==> old(tm).status(j) != TaskStatus::Ready)
            },
            None => true,
        },
{
    let ghost s0 = *tm;
    mark_current_suspended(tm);
    let ghost s1 = *tm;
    let r = run_next_app(tm);
    proof {
        lemma_current_ranks_last(s1.current(), s1.num_app as int);
        assert(s1.status(s1.current()) == TaskStatus::Ready);
        assert forall|i: int| 0 <= i < MAX_APP_NUM && i != s0.current() implies #[trigger] tm.status(
            i,
        ) == s0.status(i) by {
            assert(tm.status(i) == s1.status(i));
        }
        assert forall|j: int| 0 <= j < MAX_APP_NUM && j != s0.current() implies #[trigger] s0.status(
            j,
        ) == s1.status(j) by {}
        assert forall|i: int| 0 <= i < MAX_APP_NUM implies #[trigger] tm.context(i) == s0.context(
            i,
        ) by {
            assert(tm.context(i) == s1.context(i));
        }
        if r is None {
            assert(!s1.none_ready());
        }
    }
    r
}

fn run_next_app(tm: &mut TaskManager) -> (r: Option<(usize, usize)>)
    requires
        old(tm).wf(),
    ensures
        final(tm).wf(),
        final(tm).num_app == old(tm).num_app,
        final(tm).inner.tasks@ == old(tm).inner.tasks@,
        match r {
            Some((from, to)) => {
                &&& from == old(tm).current()
                &&& old(tm).first_ready(to as int)
                &&& final(tm).current() == to
            },
            None => {
                &&& old(tm).none_ready()
                &&& final(tm).current() == old(tm).current()
            },
        },
{
    tm.run_next_app()
}

fn mark_current_exited(tm: &mut TaskManager)
    requires
        old(tm).wf(),
    ensures
        final(tm).wf(),
        final(tm).status(old(tm).current()) == TaskStatus::Exited,
        tasks_unchanged_except(*old(tm), *final(tm), old(tm).current()),
        final(tm).context(old(tm).current()) == old(tm).context(old(tm).current()),
{
    tm.mark_current_exited()
}

fn mark_current_suspended(tm: &mut TaskManager)
    requires
        old(tm).wf(),
    ensures
        final(tm).wf(),
        final(tm).status(old(tm).current()) == TaskStatus::Ready,
        tasks_unchanged_except(*old(tm), *final(tm), old(tm).current()),
        final(tm).context(old(tm).current()) == old(tm).context(old(tm).current()),
{
    tm.mark_current_suspended()
}

/// The current task comes last in the round-robin search: every task that
/// the search looks at is looked at no later than the current one.
pub proof fn lemma_current_ranks_last(cur: int, n: int)
    requires
        0 <= cur,
        cur < n || cur == 0,
    ensures
        in_search(cur, n, cur),
        forall|j: int| in_search(cur, n, j) ==> #[trigger] search_rank(cur, n, j) <= search_rank(cur, n, cur),
        forall|j: int| in_search(cur, n, j) && j != cur ==> #[trigger] search_rank(cur, n, j) < search_rank(cur, n, cur),
{
}

/// An exited task is never the one the scheduler picks next: the pick is
/// always a ready task.
pub proof fn lemma_exited_never_picked(tm: TaskManager, i: int)
    requires
        tm.wf(),
        tm.status(i) == TaskStatus::Exited,
    ensures
        !tm.first_ready(i),
{
}

/// When every application is ready, the scheduler picks the application
/// right after the current one, wrapping from the last to the first.
pub proof fn lemma_all_ready_picks_successor(tm: TaskManager)
    requires
        tm.wf(),
        tm.num_app > 0,
        forall|i: int| 0 <= i < tm.num_app ==> #[trigger] tm.status(i) == TaskStatus::Ready,
    ensures
        tm.first_ready((tm.current() + 1) % (tm.num_app as int)),
        forall|i: int| #[trigger] tm.first_ready(i) ==> i == (tm.current() + 1) % (tm.num_app as int),
{
    let cur = tm.current();
    let n = tm.num_app as int;
    let next = (cur + 1) % n;
    if cur + 1 < n {
        vstd::arithmetic::div_mod::lemma_small_mod((cur + 1) as nat, n as nat);
    } else {
        vstd::arithmetic::div_mod::lemma_mod_self_0(n);
    }
    assert(search_rank(cur, n, next) == 0);
    assert(tm.status(next) == TaskStatus::Ready);
    assert forall|i: int| #[trigger] tm.first_ready(i) implies i == next by {
        if i != next {
            assert(search_rank(cur, n, i) > 0);
            assert(tm.status(next) != TaskStatus::Ready);
        }
    }
}

/// The place of a task in the round-robin search is its cyclic distance
/// after the current task: the successor of the current task comes first,
/// then the one after it, and so on around the applications, the current
/// task last.
pub proof fn lemma_search_rank_is_cyclic_distance(cur: int, n: int)
    requires
        0 <= cur < n,
    ensures
        forall|i: int| #[trigger] in_search(cur, n, i) ==> search_rank(cur, n, i) == (i - cur - 1) % n,
{
    assert forall|i: int| #[trigger] in_search(cur, n, i) implies search_rank(cur, n, i) == (i - cur
        - 1) % n by {
        if i > cur {
            vstd::arithmetic::div_mod::lemma_small_mod((i - cur - 1) as nat, n as nat);
        } else {
            vstd::arithmetic::div_mod::lemma_mod_add_multiples_vanish(i - cur - 1, n);
            vstd::arithmetic::div_mod::lemma_small_mod((n + i - cur - 1) as nat, n as nat);
        }
    }
}

/// The task `d` steps after the current one, counting cyclically from its
/// successor, is an application, and the search looks at it in place `d`.
proof fn lemma_task_at_distance(cur: int, n: int, d: int)
    requires
        0 <= cur < n,
        0 <= d < n,
    ensures
        0 <= (cur + 1 + d) % n < n,
        in_search(cur, n, (cur + 1 + d) % n),
        search_rank(cur, n, (cur + 1 + d) % n) == d,
{
    if cur + 1 + d < n {
        vstd::arithmetic::div_mod::lemma_small_mod((cur + 1 + d) as nat, n as nat);
    } else {
        vstd::arithmetic::div_mod::lemma_mod_sub_multiples_vanish(cur + 1 + d, n);
        vstd::arithmetic::div_mod::lemma_small_mod((cur + 1 + d - n) as nat, n as nat);
    }
}

/// The scheduler's pick, stated by cyclic distance: task `i` is picked
/// exactly when it is an application, it is ready, and no task met before it
/// going around from the current task's successor is ready.
pub proof fn lemma_first_ready_is_cyclic_first(tm: TaskManager, i: int)
    requires
        tm.wf(),
        tm.num_app > 0,
    ensures
        tm.first_ready(i) <==> {
            &&& 0 <= i < tm.num_app
            &&& tm.status(i) == TaskStatus::Ready
            &&& forall|d: int|
                0 <= d < (i - tm.current() - 1) % (tm.num_app as int) ==> #[trigger] tm.status(
                    (tm.current() + 1 + d) % (tm.num_app as int),
                ) != TaskStatus::Ready
        },
{
    let cur = tm.current();
    let n = tm.num_app as int;
    lemma_search_rank_is_cyclic_distance(cur, n);
    lemma_search_visits_each_app_once(cur, n);
    if tm.first_ready(i) {
        assert forall|d: int| 0 <= d < (i - cur - 1) % n implies #[trigger] tm.status(
            (cur + 1 + d) % n,
        ) != TaskStatus::Ready by {
            lemma_task_at_distance(cur, n, d);
            let j = (cur + 1 + d) % n;
            assert(in_search(cur, n, j));
        }
    }
    if 0 <= i < n && tm.status(i) == TaskStatus::Ready && (forall|d: int|
        0 <= d < (i - cur - 1) % n ==> #[trigger] tm.status((cur + 1 + d) % n) != TaskStatus::Ready) {
        assert(in_search(cur, n, i));
        assert forall|j: int|
            in_search(cur, n, j) && search_rank(cur, n, j) < search_rank(cur, n, i) implies #[trigger] tm.status(j)
            != TaskStatus::Ready by {
            let d = search_rank(cur, n, j);
            assert(0 <= d < n);
            lemma_task_at_distance(cur, n, d);
            let k = (cur + 1 + d) % n;
            assert(in_search(cur, n, k) && search_rank(cur, n, k) == d);
            assert(k == j);
            assert(tm.status(k) != TaskStatus::Ready);
        }
    }
}

/// The round-robin search looks at every application exactly once: when the
/// current task is one of the `n` applications, the tasks it looks at are
/// exactly the applications, and no two of them share a place in its order.
pub proof fn lemma_search_visits_each_app_once(cur: int, n: int)
    requires
        0 <= cur < n,
    ensures
        forall|i: int| #[trigger] in_search(cur, n, i) <==> 0 <= i < n,
        forall|i: int| in_search(cur, n, i) ==> 0 <= #[trigger] search_rank(cur, n, i) < n,
        forall|i: int, j: int|
            in_search(cur, n, i) && in_search(cur, n, j) && i != j ==> #[trigger] search_rank(
                cur,
                n,
                i,
            ) != #[trigger] search_rank(cur, n, j),
{
}

} // verus!
