use os_kernel::config::MAX_APP_NUM;
use os_kernel::task::context::TaskContext;
use os_kernel::task::task::TaskStatus;
use os_kernel::task::{
    exit_current_and_run_next, run_first_task, suspend_current_and_run_next, TaskManager,
};

fn manager(num_app: usize) -> TaskManager {
    let sps: Vec<usize> = (0..MAX_APP_NUM).map(|i| 0x1000 * (i + 1)).collect();
    TaskManager::new(num_app, 0xdead, &sps)
}

#[test]
fn new_manager_has_every_slot_ready() {
    let tm = manager(3);
    assert_eq!(tm.num_app, 3);
    assert_eq!(tm.inner.current_task, 0);
    for i in 0..MAX_APP_NUM {
        assert_eq!(tm.inner.tasks[i].task_status, TaskStatus::Ready);
        assert_eq!(tm.inner.tasks[i].task_cx.ra(), 0xdead);
        assert_eq!(tm.inner.tasks[i].task_cx.sp(), 0x1000 * (i + 1));
    }
}

#[test]
fn context_constructors() {
    let z = TaskContext::zero_init();
    assert_eq!(z.ra(), 0);
    assert_eq!(z.sp(), 0);
    let r = TaskContext::go_restore(0x8020_0000, 0x8030_0000);
    assert_eq!(r.ra(), 0x8020_0000);
    assert_eq!(r.sp(), 0x8030_0000);
}

#[test]
fn search_starts_after_current() {
    let tm = manager(3);
    assert_eq!(tm.find_next_ready_task(), Some(1));
}

#[test]
fn search_skips_tasks_that_are_not_ready() {
    let mut tm = manager(4);
    tm.inner.tasks[1].task_status = TaskStatus::Exited;
    tm.inner.tasks[2].task_status = TaskStatus::Running;
    assert_eq!(tm.find_next_ready_task(), Some(3));
}

#[test]
fn search_wraps_around() {
    let mut tm = manager(3);
    tm.inner.current_task = 2;
    assert_eq!(tm.find_next_ready_task(), Some(0));
    tm.inner.tasks[0].task_status = TaskStatus::Exited;
    assert_eq!(tm.find_next_ready_task(), Some(1));
}

#[test]
fn search_ends_at_current() {
    let mut tm = manager(3);
    tm.inner.current_task = 1;
    tm.inner.tasks[0].task_status = TaskStatus::Exited;
    tm.inner.tasks[2].task_status = TaskStatus::Exited;
    assert_eq!(tm.find_next_ready_task(), Some(1));
    tm.inner.tasks[1].task_status = TaskStatus::Running;
    assert_eq!(tm.find_next_ready_task(), None);
}

#[test]
fn search_ignores_slots_past_the_last_app() {
    let mut tm = manager(2);
    tm.inner.current_task = 1;
    tm.inner.tasks[0].task_status = TaskStatus::Exited;
    tm.inner.tasks[1].task_status = TaskStatus::Exited;
    assert_eq!(tm.inner.tasks[5].task_status, TaskStatus::Ready);
    assert_eq!(tm.find_next_ready_task(), None);
}

#[test]
fn without_apps_slot_zero_is_found() {
    let tm = manager(0);
    assert_eq!(tm.find_next_ready_task(), Some(0));
}

#[test]
fn first_task_runs() {
    let mut tm = manager(3);
    tm.inner.current_task = 2;
    assert_eq!(run_first_task(&mut tm), 0);
    assert_eq!(tm.inner.current_task, 0);
    assert_eq!(tm.inner.tasks[0].task_status, TaskStatus::Running);
    assert_eq!(tm.inner.tasks[1].task_status, TaskStatus::Ready);
}

#[test]
fn mark_current_changes_only_current() {
    let mut tm = manager(3);
    tm.inner.current_task = 1;
    tm.mark_current_exited();
    assert_eq!(tm.inner.tasks[1].task_status, TaskStatus::Exited);
    assert_eq!(tm.inner.tasks[0].task_status, TaskStatus::Ready);
    tm.mark_current_suspended();
    assert_eq!(tm.inner.tasks[1].task_status, TaskStatus::Ready);
}

#[test]
fn run_next_app_switches_without_changing_status() {
    let mut tm = manager(3);
    run_first_task(&mut tm);
    assert_eq!(tm.run_next_app(), Some((0, 1)));
    assert_eq!(tm.inner.current_task, 1);
    assert_eq!(tm.inner.tasks[0].task_status, TaskStatus::Running);
    assert_eq!(tm.inner.tasks[1].task_status, TaskStatus::Ready);
}

#[test]
fn exit_never_reschedules_the_exiting_task() {
    let mut tm = manager(3);
    run_first_task(&mut tm);
    assert_eq!(exit_current_and_run_next(&mut tm), Some((0, 1)));
    assert_eq!(tm.inner.tasks[0].task_status, TaskStatus::Exited);
    assert_eq!(exit_current_and_run_next(&mut tm), Some((1, 2)));
    assert_eq!(exit_current_and_run_next(&mut tm), None);
    assert_eq!(tm.inner.current_task, 2);
    assert_eq!(tm.inner.tasks[2].task_status, TaskStatus::Exited);
}

#[test]
fn yield_always_continues() {
    let mut tm = manager(3);
    run_first_task(&mut tm);
    assert_eq!(suspend_current_and_run_next(&mut tm), Some((0, 1)));
    assert_eq!(tm.inner.tasks[0].task_status, TaskStatus::Ready);
    tm.inner.tasks[2].task_status = TaskStatus::Exited;
    tm.inner.tasks[0].task_status = TaskStatus::Exited;
    assert_eq!(suspend_current_and_run_next(&mut tm), Some((1, 1)));
}

#[test]
fn round_robin_over_three_yielding_apps() {
    let mut tm = manager(3);
    run_first_task(&mut tm);
    let mut order = Vec::new();
    for _ in 0..6 {
        let (_, to) = suspend_current_and_run_next(&mut tm).unwrap();
        order.push(to);
    }
    assert_eq!(order, vec![1, 2, 0, 1, 2, 0]);
}
