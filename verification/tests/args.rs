use coco::error::CocoError;
use coco::jump::Entry;
use coco::jump::JumpPoint;
use coco::model::SchedAction;
use coco::scheduler::Scheduler;

const KERNEL: Entry = Entry { id: 1 };
const CHILD: Entry = Entry { id: 2 };

fn back() -> JumpPoint {
    JumpPoint::capture(0)
}

/// Starts a scheduler, spawns one child with `args`, and runs the child.
fn with_running_child<A>(args: Option<A>) -> Scheduler<A> {
    let mut s: Scheduler<A> = Scheduler::coco_start(4, 16, 64, KERNEL, back()).unwrap();
    assert_eq!(s.add_task(CHILD, args), Ok(2));
    assert_eq!(s.coco_yield(JumpPoint::capture(1)), Ok(back()));
    assert!(matches!(s.step(0, back()), Ok(SchedAction::Run(d)) if d.tid == 2));
    s
}

#[test]
fn arguments_round_trip() {
    for p in [0u32, 1, 250, 400, u32::MAX] {
        let mut s = with_running_child(Some(p));
        assert_eq!(s.take_args(), Ok(p));
    }
}

#[test]
fn arguments_of_any_type_round_trip() {
    let mut s = with_running_child(Some(String::from("payload")));
    assert_eq!(s.take_args(), Ok(String::from("payload")));
    let mut s = with_running_child(Some(vec![1u8, 2, 3]));
    assert_eq!(s.take_args(), Ok(vec![1u8, 2, 3]));
}

#[test]
fn arguments_are_taken_exactly_once() {
    let mut s = with_running_child(Some(77u32));
    assert!(s.current_context().unwrap().has_args());
    assert_eq!(s.take_args(), Ok(77));
    assert!(!s.current_context().unwrap().has_args());
    assert_eq!(s.take_args(), Err(CocoError::InvalidArgument));
    assert_eq!(s.see_args(), Err(CocoError::InvalidArgument));
}

#[test]
fn task_without_arguments_gets_invalid_argument() {
    let mut s = with_running_child(None::<u32>);
    assert_eq!(s.see_args(), Err(CocoError::InvalidArgument));
    assert_eq!(s.take_args(), Err(CocoError::InvalidArgument));
}

#[test]
fn see_args_keeps_the_arguments() {
    let mut s = with_running_child(Some(5u32));
    assert_eq!(s.see_args(), Ok(&5));
    assert_eq!(s.see_args(), Ok(&5));
    assert_eq!(s.take_args(), Ok(5));
}

#[test]
fn arguments_outside_a_task_are_invalid() {
    let mut s: Scheduler<u32> = Scheduler::new(4, 16, 64);
    assert_eq!(s.add_task(KERNEL, None), Ok(1));
    assert_eq!(s.add_task(CHILD, Some(3)), Ok(2));
    assert_eq!(s.take_args(), Err(CocoError::InvalidArgument));
    assert_eq!(s.see_args(), Err(CocoError::InvalidArgument));
    // The child still has them.
    assert!(s.get_context(2).unwrap().has_args());
}

#[test]
fn arguments_survive_suspension_of_their_task() {
    let mut s = with_running_child(Some(9u32));
    assert_eq!(s.yield_for_ms(10, s.clock(), JumpPoint::capture(4)), Ok(back()));
    assert!(matches!(s.step(5, back()), Ok(SchedAction::Run(d)) if d.tid == 1));
    assert_eq!(s.take_args(), Err(CocoError::InvalidArgument));
    assert_eq!(s.coco_exit(0), Ok(back()));
    assert_eq!(s.step(9, back()), Ok(SchedAction::Idle));
    assert!(matches!(s.step(10, back()), Ok(SchedAction::Run(d)) if d.tid == 2));
    assert_eq!(s.take_args(), Ok(9));
}
