use coco::context::ExitStatus;
use coco::context::TaskState;
use coco::context::WaitTarget;
use coco::error::CocoError;
use coco::jump::Entry;
use coco::jump::JumpPoint;
use coco::model::SchedAction;
use coco::model::Waited;
use coco::model::COCO_WNOHANG;
use coco::model::WAIT_ANY;
use coco::scheduler::Scheduler;

const KERNEL: Entry = Entry { id: 1 };
const CHILD: Entry = Entry { id: 2 };

fn back() -> JumpPoint {
    JumpPoint::capture(0)
}

/// A scheduler whose kernel task (1) is in the table and not running.
fn idle_kernel(max_tasks: u16, frame_capacity: usize, stack_size: usize) -> Scheduler<u32> {
    let mut s: Scheduler<u32> = Scheduler::new(max_tasks, frame_capacity, stack_size);
    assert_eq!(s.add_task(KERNEL, None), Ok(1));
    s
}

fn at(label: u64) -> JumpPoint {
    JumpPoint::capture(label)
}

/// A scheduler whose kernel task (1) is running and has `children` children.
fn kernel_with_children(children: i32) -> Scheduler<u32> {
    let mut s: Scheduler<u32> = Scheduler::coco_start(8, 16, 64, KERNEL, back()).unwrap();
    for k in 0..children {
        assert_eq!(s.add_task(CHILD, None), Ok(2 + k));
    }
    s
}

/// Switches the running task out and runs `tid` next, which must be the
/// task that the scheduler picks.
fn hand_over(s: &mut Scheduler<u32>, tid: i32) {
    assert_eq!(s.coco_yield(at(1)), Ok(back()));
    assert!(matches!(s.step(0, back()), Ok(SchedAction::Run(d)) if d.tid == tid));
}

#[test]
fn exit_status_is_reported_exactly() {
    for status in [0u32, 1, 2, 255, 256, 0x7fff_ffff, 0x8000_0000, u32::MAX] {
        let mut s = kernel_with_children(1);
        hand_over(&mut s, 2);
        assert_eq!(s.coco_exit(status), Ok(back()));
        assert_eq!(s.get_context(2).unwrap().state(), TaskState::Zombie(ExitStatus::Exited(status)));
        assert_eq!(s.get_context(2).unwrap().exit_status(), Some(ExitStatus::Exited(status)));
        assert!(matches!(s.step(0, back()), Ok(SchedAction::Run(d)) if d.tid == 1));
        assert_eq!(
            s.coco_waitpid(2, 0, at(2)),
            Ok(Waited::Reaped { tid: 2, status: ExitStatus::Exited(status) })
        );
    }
}

#[test]
fn exit_outside_a_task_is_invalid() {
    let mut s: Scheduler<u32> = idle_kernel(8, 16, 64);
    assert_eq!(s.coco_exit(0), Err(CocoError::InvalidArgument));
    assert_eq!(s.get_context(1).unwrap().state(), TaskState::Runnable);
}

#[test]
fn nonblocking_wait_on_running_task_returns_pending() {
    let mut s = kernel_with_children(1);
    for _ in 0..3 {
        assert_eq!(s.coco_waitpid(2, COCO_WNOHANG, at(2)), Ok(Waited::Pending));
        // The caller was not suspended and nothing changed.
        assert_eq!(s.current(), Some(1));
        assert_eq!(s.get_context(1).unwrap().state(), TaskState::Runnable);
        assert_eq!(s.get_context(1).unwrap().resume_point(), None);
        assert_eq!(s.get_context(2).unwrap().state(), TaskState::Runnable);
    }
    // Once the task has exited, the same call reaps it.
    hand_over(&mut s, 2);
    assert_eq!(s.coco_exit(41), Ok(back()));
    assert!(matches!(s.step(0, back()), Ok(SchedAction::Run(d)) if d.tid == 1));
    assert_eq!(
        s.coco_waitpid(2, COCO_WNOHANG, at(2)),
        Ok(Waited::Reaped { tid: 2, status: ExitStatus::Exited(41) })
    );
}

#[test]
fn wnohang_is_one_bit_of_the_options() {
    let mut s = kernel_with_children(1);
    assert_eq!(s.coco_waitpid(2, COCO_WNOHANG | 0xf0, at(2)), Ok(Waited::Pending));
    assert_eq!(s.current(), Some(1));
    // Without the bit the wait blocks.
    assert_eq!(s.coco_waitpid(2, 0xf0, at(2)), Ok(Waited::Blocked(back())));
    assert_eq!(s.current(), None);
}

#[test]
fn reaping_twice_gives_unknown_task() {
    let mut s = kernel_with_children(1);
    hand_over(&mut s, 2);
    assert_eq!(s.coco_exit(5), Ok(back()));
    assert!(matches!(s.step(0, back()), Ok(SchedAction::Run(d)) if d.tid == 1));
    assert_eq!(
        s.coco_waitpid(2, 0, at(2)),
        Ok(Waited::Reaped { tid: 2, status: ExitStatus::Exited(5) })
    );
    assert!(matches!(s.get_context(2), Err(CocoError::UnknownTask)));
    assert_eq!(s.coco_waitpid(2, 0, at(2)), Err(CocoError::UnknownTask));
    assert_eq!(s.coco_waitpid(2, COCO_WNOHANG, at(2)), Err(CocoError::UnknownTask));
    // The failed waits did not block the caller.
    assert_eq!(s.current(), Some(1));
}

#[test]
fn wait_for_a_task_that_never_existed_fails() {
    let mut s = kernel_with_children(1);
    for tid in [0, 3, 8, 9, 100, -2, i32::MIN, i32::MAX] {
        assert_eq!(s.coco_waitpid(tid, 0, at(2)), Err(CocoError::UnknownTask));
        assert_eq!(s.coco_waitpid(tid, COCO_WNOHANG, at(2)), Err(CocoError::UnknownTask));
    }
    assert_eq!(s.current(), Some(1));
}

#[test]
fn blocking_wait_suspends_until_the_target_exits() {
    let mut s = kernel_with_children(1);
    assert_eq!(s.coco_waitpid(2, 0, at(7)), Ok(Waited::Blocked(back())));
    assert_eq!(s.current(), None);
    assert_eq!(
        s.get_context(1).unwrap().state(),
        TaskState::BlockedOnWait(WaitTarget::Task(2))
    );
    assert_eq!(s.get_context(1).unwrap().resume_point(), Some(at(7)));
    // Only the child can run; it yields a few times, and the kernel stays blocked.
    for _ in 0..3 {
        assert!(matches!(s.step(0, back()), Ok(SchedAction::Run(d)) if d.tid == 2));
        assert_eq!(s.coco_yield(at(1)), Ok(back()));
    }
    assert!(matches!(s.step(0, back()), Ok(SchedAction::Run(d)) if d.tid == 2));
    assert_eq!(s.coco_exit(3), Ok(back()));
    // The exit woke the kernel, which repeats the wait and reaps.
    assert_eq!(s.get_context(1).unwrap().state(), TaskState::Runnable);
    match s.step(0, back()) {
        Ok(SchedAction::Run(d)) => {
            assert_eq!(d.tid, 1);
            assert_eq!(d.resume, coco::model::Resume::At(at(7)));
        }
        other => panic!("unexpected {:?}", other),
    }
    assert_eq!(
        s.coco_waitpid(2, 0, at(7)),
        Ok(Waited::Reaped { tid: 2, status: ExitStatus::Exited(3) })
    );
}

#[test]
fn blocking_wait_outside_a_task_is_invalid() {
    let mut s: Scheduler<u32> = idle_kernel(8, 16, 64);
    assert_eq!(s.coco_waitpid(1, 0, at(2)), Err(CocoError::InvalidArgument));
    assert_eq!(s.coco_waitpid(1, COCO_WNOHANG, at(2)), Ok(Waited::Pending));
    assert_eq!(s.get_context(1).unwrap().state(), TaskState::Runnable);
}

#[test]
fn wait_any_reaps_the_first_zombie_first() {
    let mut s = kernel_with_children(3);
    assert_eq!(s.coco_waitpid(WAIT_ANY, COCO_WNOHANG, at(2)), Ok(Waited::Pending));
    // Tasks 2, 3 and 4 run in turn; 3 exits first, then 2, then 4.
    hand_over(&mut s, 2);
    hand_over(&mut s, 3);
    assert_eq!(s.coco_exit(30), Ok(back()));
    assert!(matches!(s.step(0, back()), Ok(SchedAction::Run(d)) if d.tid == 4));
    hand_over(&mut s, 1);
    hand_over(&mut s, 2);
    assert_eq!(s.coco_exit(20), Ok(back()));
    assert!(matches!(s.step(0, back()), Ok(SchedAction::Run(d)) if d.tid == 4));
    assert_eq!(s.coco_exit(40), Ok(back()));
    assert!(matches!(s.step(0, back()), Ok(SchedAction::Run(d)) if d.tid == 1));
    assert_eq!(
        s.coco_waitpid(WAIT_ANY, 0, at(2)),
        Ok(Waited::Reaped { tid: 3, status: ExitStatus::Exited(30) })
    );
    assert_eq!(
        s.coco_waitpid(WAIT_ANY, COCO_WNOHANG, at(2)),
        Ok(Waited::Reaped { tid: 2, status: ExitStatus::Exited(20) })
    );
    assert_eq!(
        s.wait(WaitTarget::Any, false, at(2)),
        Ok(Waited::Reaped { tid: 4, status: ExitStatus::Exited(40) })
    );
    // No task but the caller is left.
    assert_eq!(s.coco_waitpid(WAIT_ANY, 0, at(2)), Err(CocoError::UnknownTask));
    assert_eq!(s.coco_waitpid(WAIT_ANY, COCO_WNOHANG, at(2)), Err(CocoError::UnknownTask));
    assert_eq!(s.current(), Some(1));
}

#[test]
fn wait_any_blocks_until_some_task_exits() {
    let mut s = kernel_with_children(2);
    assert_eq!(s.coco_waitpid(WAIT_ANY, 0, at(5)), Ok(Waited::Blocked(back())));
    assert_eq!(s.get_context(1).unwrap().state(), TaskState::BlockedOnWait(WaitTarget::Any));
    assert!(matches!(s.step(0, back()), Ok(SchedAction::Run(d)) if d.tid == 2));
    assert_eq!(s.coco_yield(at(1)), Ok(back()));
    assert!(matches!(s.step(0, back()), Ok(SchedAction::Run(d)) if d.tid == 3));
    assert_eq!(s.coco_exit(33), Ok(back()));
    assert_eq!(s.get_context(1).unwrap().state(), TaskState::Runnable);
    assert!(matches!(s.step(0, back()), Ok(SchedAction::Run(d)) if d.tid == 1));
    assert_eq!(
        s.coco_waitpid(WAIT_ANY, 0, at(5)),
        Ok(Waited::Reaped { tid: 3, status: ExitStatus::Exited(33) })
    );
}

#[test]
fn exit_wakes_only_the_tasks_that_wait_for_it() {
    let mut s = kernel_with_children(3);
    // The kernel waits for 4, task 2 waits for 3, task 3 exits.
    assert_eq!(s.coco_waitpid(4, 0, at(5)), Ok(Waited::Blocked(back())));
    assert!(matches!(s.step(0, back()), Ok(SchedAction::Run(d)) if d.tid == 2));
    assert_eq!(s.coco_waitpid(3, 0, at(5)), Ok(Waited::Blocked(back())));
    assert!(matches!(s.step(0, back()), Ok(SchedAction::Run(d)) if d.tid == 3));
    assert_eq!(s.coco_exit(0), Ok(back()));
    assert_eq!(s.get_context(1).unwrap().state(), TaskState::BlockedOnWait(WaitTarget::Task(4)));
    assert_eq!(s.get_context(2).unwrap().state(), TaskState::Runnable);
}

#[test]
fn zombie_status_survives_other_operations() {
    let mut s = kernel_with_children(2);
    hand_over(&mut s, 2);
    assert_eq!(s.coco_exit(123), Ok(back()));
    assert_eq!(s.zombie_status(2), Some(ExitStatus::Exited(123)));
    // Many things happen before the kernel waits.
    assert!(matches!(s.step(10, back()), Ok(SchedAction::Run(d)) if d.tid == 3));
    assert_eq!(s.yield_for_ms(5, s.clock(), at(1)), Ok(back()));
    assert!(matches!(s.step(11, back()), Ok(SchedAction::Run(d)) if d.tid == 1));
    assert_eq!(s.add_task(CHILD, Some(1)), Ok(4));
    assert_eq!(s.coco_waitpid(3, COCO_WNOHANG, at(2)), Ok(Waited::Pending));
    assert_eq!(s.raise(2, coco::signal::Signal::User), Ok(()));
    assert_eq!(s.coco_yield(at(1)), Ok(back()));
    assert!(matches!(s.step(20, back()), Ok(SchedAction::Run(d)) if d.tid == 3));
    assert_eq!(s.coco_exit(7), Ok(back()));
    assert!(matches!(s.step(20, back()), Ok(SchedAction::Run(d)) if d.tid == 4));
    assert_eq!(s.coco_yield(at(1)), Ok(back()));
    assert!(matches!(s.step(20, back()), Ok(SchedAction::Run(d)) if d.tid == 1));
    assert_eq!(s.zombie_status(2), Some(ExitStatus::Exited(123)));
    assert_eq!(
        s.coco_waitpid(2, 0, at(2)),
        Ok(Waited::Reaped { tid: 2, status: ExitStatus::Exited(123) })
    );
    assert_eq!(s.zombie_status(2), None);
}

#[test]
fn zombie_is_never_dispatched() {
    let mut s = kernel_with_children(1);
    hand_over(&mut s, 2);
    assert_eq!(s.coco_exit(0), Ok(back()));
    assert_eq!(s.get_context(2).unwrap().resume_point(), None);
    assert_eq!(s.switch_in(2, back()), Err(CocoError::InvalidArgument));
    for _ in 0..4 {
        assert!(matches!(s.step(0, back()), Ok(SchedAction::Run(d)) if d.tid == 1));
        assert_eq!(s.coco_yield(at(1)), Ok(back()));
    }
}
