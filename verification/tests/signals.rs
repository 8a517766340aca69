use coco::context::ExitStatus;
use coco::context::TaskState;
use coco::error::CocoError;
use coco::jump::Entry;
use coco::jump::JumpPoint;
use coco::model::Resume;
use coco::model::SchedAction;
use coco::model::Waited;
use coco::scheduler::Scheduler;
use coco::signal::HandlerTable;
use coco::signal::Signal;
use coco::signal::SignalSet;

const KERNEL: Entry = Entry { id: 1 };
const CHILD: Entry = Entry { id: 2 };
const ON_INT: Entry = Entry { id: 10 };
const ON_TERM: Entry = Entry { id: 11 };
const ON_USER: Entry = Entry { id: 12 };

fn back() -> JumpPoint {
    JumpPoint::capture(0)
}

/// A scheduler whose kernel task (1) is in the table and not running.
fn idle_kernel(max_tasks: u16, frame_capacity: usize, stack_size: usize) -> Scheduler<u32> {
    let mut s: Scheduler<u32> = Scheduler::new(max_tasks, frame_capacity, stack_size);
    assert_eq!(s.add_task(KERNEL, None), Ok(1));
    s
}

fn at(label: u64) -> JumpPoint {
    JumpPoint::capture(label)
}

#[test]
fn signal_set_is_a_bit_vector() {
    let s = SignalSet::empty();
    assert_eq!(s.bits(), 0);
    assert_eq!(Signal::Interrupt.mask(), 1);
    assert_eq!(Signal::Terminate.mask(), 2);
    assert_eq!(Signal::User.mask(), 4);
    for sig in [Signal::Interrupt, Signal::Terminate, Signal::User] {
        assert!(!s.contains(sig));
    }
    let s = s.insert(Signal::Terminate);
    assert_eq!(s.bits(), 2);
    assert!(s.contains(Signal::Terminate));
    assert!(!s.contains(Signal::Interrupt));
    assert!(!s.contains(Signal::User));
    let s = s.insert(Signal::User);
    assert_eq!(s.bits(), 6);
    let s = s.insert(Signal::Interrupt).insert(Signal::User);
    assert_eq!(s.bits(), 7);
    for sig in [Signal::Interrupt, Signal::Terminate, Signal::User] {
        assert!(s.contains(sig));
    }
}

#[test]
fn handler_table_maps_kinds_to_handlers() {
    let t = HandlerTable::none();
    for sig in [Signal::Interrupt, Signal::Terminate, Signal::User] {
        assert_eq!(t.get(sig), None);
    }
    let t = t.with(Signal::Terminate, Some(ON_TERM));
    assert_eq!(t.get(Signal::Interrupt), None);
    assert_eq!(t.get(Signal::Terminate), Some(ON_TERM));
    assert_eq!(t.get(Signal::User), None);
    let t = t.with(Signal::User, Some(ON_USER)).with(Signal::Terminate, None);
    assert_eq!(t, HandlerTable { interrupt: None, terminate: None, user: Some(ON_USER) });
}

#[test]
fn raise_marks_the_signal_pending() {
    let mut s: Scheduler<u32> = idle_kernel(4, 8, 16);
    assert_eq!(s.raise(1, Signal::User), Ok(()));
    assert_eq!(s.get_context(1).unwrap().sig_bits().bits(), 4);
    assert_eq!(s.raise(1, Signal::Interrupt), Ok(()));
    assert_eq!(s.raise(1, Signal::User), Ok(()));
    assert_eq!(s.get_context(1).unwrap().sig_bits().bits(), 5);
    assert_eq!(s.get_context(1).unwrap().state(), TaskState::Runnable);
}

#[test]
fn raise_and_set_handler_on_unknown_task_fail() {
    let mut s: Scheduler<u32> = idle_kernel(4, 8, 16);
    for tid in [0, 2, 4, 5, -1, i32::MAX, i32::MIN] {
        assert_eq!(s.raise(tid, Signal::User), Err(CocoError::UnknownTask));
        assert_eq!(s.set_handler(tid, Signal::User, Some(ON_USER)), Err(CocoError::UnknownTask));
    }
    assert_eq!(s.get_context(1).unwrap().sig_bits().bits(), 0);
    assert_eq!(s.get_context(1).unwrap().handlers(), HandlerTable::none());
}

#[test]
fn set_handler_returns_the_previous_handler() {
    let mut s: Scheduler<u32> = idle_kernel(4, 8, 16);
    assert_eq!(s.set_handler(1, Signal::Interrupt, Some(ON_INT)), Ok(None));
    assert_eq!(s.set_handler(1, Signal::Interrupt, Some(ON_TERM)), Ok(Some(ON_INT)));
    assert_eq!(s.set_handler(1, Signal::Interrupt, None), Ok(Some(ON_TERM)));
    assert_eq!(s.set_handler(1, Signal::Interrupt, None), Ok(None));
    assert_eq!(s.set_handler(1, Signal::User, Some(ON_USER)), Ok(None));
    assert_eq!(s.get_context(1).unwrap().handlers().get(Signal::User), Some(ON_USER));
    assert_eq!(s.get_context(1).unwrap().handlers().get(Signal::Interrupt), None);
}

#[test]
fn handled_signals_are_delivered_at_the_next_dispatch() {
    let mut s: Scheduler<u32> = idle_kernel(4, 8, 16);
    assert_eq!(s.set_handler(1, Signal::Interrupt, Some(ON_INT)), Ok(None));
    assert_eq!(s.set_handler(1, Signal::User, Some(ON_USER)), Ok(None));
    assert_eq!(s.set_handler(1, Signal::Terminate, Some(ON_TERM)), Ok(None));
    assert_eq!(s.raise(1, Signal::User), Ok(()));
    assert_eq!(s.raise(1, Signal::Interrupt), Ok(()));
    match s.step(0, back()) {
        Ok(SchedAction::Run(d)) => {
            assert_eq!(d.tid, 1);
            assert_eq!(d.resume, Resume::Start(KERNEL));
            assert_eq!(
                d.handlers,
                HandlerTable { interrupt: Some(ON_INT), terminate: None, user: Some(ON_USER) }
            );
        }
        other => panic!("unexpected {:?}", other),
    }
    // Delivery cleared the pending bits: the next dispatch invokes nothing.
    assert_eq!(s.current_context().unwrap().sig_bits().bits(), 0);
    assert_eq!(s.coco_yield(at(1)), Ok(back()));
    match s.step(0, back()) {
        Ok(SchedAction::Run(d)) => assert_eq!(d.handlers, HandlerTable::none()),
        other => panic!("unexpected {:?}", other),
    }
}

#[test]
fn signal_is_not_delivered_while_the_task_runs() {
    let mut s: Scheduler<u32> = idle_kernel(4, 8, 16);
    assert_eq!(s.set_handler(1, Signal::User, Some(ON_USER)), Ok(None));
    assert!(s.step(0, back()).is_ok());
    assert_eq!(s.raise(1, Signal::User), Ok(()));
    assert_eq!(s.current(), Some(1));
    assert_eq!(s.current_context().unwrap().sig_bits().bits(), 4);
    assert_eq!(s.coco_yield(at(1)), Ok(back()));
    match s.step(0, back()) {
        Ok(SchedAction::Run(d)) => assert_eq!(d.handlers.get(Signal::User), Some(ON_USER)),
        other => panic!("unexpected {:?}", other),
    }
}

#[test]
fn signal_does_not_wake_a_sleeper() {
    let mut s: Scheduler<u32> = idle_kernel(4, 8, 16);
    assert!(s.step(0, back()).is_ok());
    assert_eq!(s.yield_for_ms(100, s.clock(), at(1)), Ok(back()));
    assert_eq!(s.raise(1, Signal::Terminate), Ok(()));
    assert_eq!(s.step(50, back()), Ok(SchedAction::Idle));
    assert_eq!(s.get_context(1).unwrap().state(), TaskState::TimedWait(100));
    assert_eq!(s.get_context(1).unwrap().sig_bits().bits(), 2);
}

#[test]
fn unhandled_signal_ends_the_task_at_its_dispatch() {
    let mut s: Scheduler<u32> = idle_kernel(4, 8, 16);
    assert!(s.step(0, back()).is_ok());
    assert_eq!(s.add_task(CHILD, None), Ok(2));
    assert_eq!(s.raise(2, Signal::Terminate), Ok(()));
    assert_eq!(s.get_context(2).unwrap().state(), TaskState::Runnable);
    assert_eq!(s.coco_yield(at(1)), Ok(back()));
    assert_eq!(
        s.step(0, back()),
        Ok(SchedAction::Terminated { tid: 2, signal: Signal::Terminate })
    );
    assert_eq!(s.current(), None);
    assert_eq!(
        s.get_context(2).unwrap().state(),
        TaskState::Zombie(ExitStatus::Signaled(Signal::Terminate))
    );
    assert!(matches!(s.step(0, back()), Ok(SchedAction::Run(d)) if d.tid == 1));
    assert_eq!(
        s.coco_waitpid(2, 0, at(2)),
        Ok(Waited::Reaped { tid: 2, status: ExitStatus::Signaled(Signal::Terminate) })
    );
}

#[test]
fn first_unhandled_signal_in_the_order_of_the_kinds_is_named() {
    let mut s: Scheduler<u32> = idle_kernel(4, 8, 16);
    assert_eq!(s.set_handler(1, Signal::Interrupt, Some(ON_INT)), Ok(None));
    assert_eq!(s.raise(1, Signal::User), Ok(()));
    assert_eq!(s.raise(1, Signal::Terminate), Ok(()));
    assert_eq!(s.raise(1, Signal::Interrupt), Ok(()));
    assert_eq!(s.get_context(1).unwrap().fatal_signal(), Some(Signal::Terminate));
    assert_eq!(
        s.step(0, back()),
        Ok(SchedAction::Terminated { tid: 1, signal: Signal::Terminate })
    );
    assert_eq!(s.step(0, back()), Ok(SchedAction::Finished));
}

#[test]
fn termination_by_signal_wakes_the_waiter() {
    let mut s: Scheduler<u32> = idle_kernel(4, 8, 16);
    assert!(s.step(0, back()).is_ok());
    assert_eq!(s.add_task(CHILD, None), Ok(2));
    assert_eq!(s.raise(2, Signal::Interrupt), Ok(()));
    assert_eq!(s.coco_waitpid(2, 0, at(2)), Ok(Waited::Blocked(back())));
    assert_eq!(
        s.step(0, back()),
        Ok(SchedAction::Terminated { tid: 2, signal: Signal::Interrupt })
    );
    assert_eq!(s.get_context(1).unwrap().state(), TaskState::Runnable);
    assert!(matches!(s.step(0, back()), Ok(SchedAction::Run(d)) if d.tid == 1));
}
