use coco::error::CocoError;
use coco::frame::Snapshot;
use coco::jump::Entry;
use coco::jump::JumpPoint;
use coco::model::SchedAction;
use coco::scheduler::Scheduler;
use coco::stack::SharedStack;

const KERNEL: Entry = Entry { id: 1 };
const CHILD: Entry = Entry { id: 2 };

fn back() -> JumpPoint {
    JumpPoint::capture(0)
}

/// A scheduler whose kernel task (1) is in the table and not running.
fn idle_kernel(max_tasks: u16, frame_capacity: usize, stack_size: usize) -> Scheduler<u32> {
    let mut s: Scheduler<u32> = Scheduler::new(max_tasks, frame_capacity, stack_size);
    assert_eq!(s.add_task(KERNEL, None), Ok(1));
    s
}

fn at(label: u64) -> JumpPoint {
    JumpPoint::capture(label)
}

fn live(stack: &SharedStack) -> Vec<u8> {
    (0..stack.depth()).map(|i| stack.read(i).unwrap()).collect()
}

#[test]
fn stack_grows_downwards_from_its_base() {
    let mut st = SharedStack::new(4);
    assert_eq!(st.size(), 4);
    assert_eq!(st.sp(), 4);
    assert_eq!(st.depth(), 0);
    assert_eq!(st.read(0), None);
    assert!(st.push(10));
    assert_eq!(st.sp(), 3);
    assert!(st.push(20));
    assert!(st.push(30));
    assert_eq!(st.sp(), 1);
    assert_eq!(st.depth(), 3);
    assert_eq!(live(&st), vec![30, 20, 10]);
    assert_eq!(st.byte(3), Some(10));
    assert_eq!(st.byte(1), Some(30));
    assert_eq!(st.byte(0), Some(0));
    assert_eq!(st.read(3), None);
    assert_eq!(st.byte(4), None);
}

#[test]
fn stack_push_fails_when_the_region_is_full() {
    let mut st = SharedStack::new(2);
    assert!(st.push(1));
    assert!(st.push(2));
    assert!(!st.push(3));
    assert_eq!(st.sp(), 0);
    assert_eq!(live(&st), vec![2, 1]);
    let mut empty = SharedStack::new(0);
    assert!(!empty.push(1));
    assert_eq!(empty.pop(), None);
}

#[test]
fn stack_pop_returns_the_lowest_byte() {
    let mut st = SharedStack::new(4);
    assert_eq!(st.pop(), None);
    assert!(st.push(1));
    assert!(st.push(2));
    assert_eq!(st.pop(), Some(2));
    assert_eq!(st.pop(), Some(1));
    assert_eq!(st.pop(), None);
    assert_eq!(st.sp(), 4);
}

#[test]
fn stack_write_reaches_only_live_bytes() {
    let mut st = SharedStack::new(4);
    assert!(!st.write(0, 9));
    assert!(st.push(1));
    assert!(st.push(2));
    assert!(st.write(0, 7));
    assert!(st.write(1, 8));
    assert!(!st.write(2, 9));
    assert_eq!(live(&st), vec![7, 8]);
}

#[test]
fn stack_reset_keeps_the_bytes() {
    let mut st = SharedStack::new(3);
    assert!(st.push(5));
    assert!(st.push(6));
    st.reset();
    assert_eq!(st.depth(), 0);
    assert_eq!(st.sp(), 3);
    assert_eq!(st.byte(2), Some(5));
    assert_eq!(st.byte(1), Some(6));
}

#[test]
fn snapshot_save_and_restore_round_trip() {
    let mut st = SharedStack::new(8);
    for b in [1u8, 2, 3, 4, 5] {
        assert!(st.push(b));
    }
    let mut snap = Snapshot::new(5, 8);
    assert_eq!(snap.frame_size(), 0);
    assert_eq!(snap.frame_start(), 8);
    assert_eq!(snap.capacity(), 5);
    assert_eq!(snap.save(&st), Ok(()));
    assert_eq!(snap.frame_size(), 5);
    assert_eq!(snap.frame_start(), 3);
    assert_eq!(snap.byte(0), Some(5));
    assert_eq!(snap.byte(4), Some(1));
    assert_eq!(snap.byte(5), None);
    // Another task clobbers the stack.
    st.reset();
    for b in [9u8; 8] {
        assert!(st.push(b));
    }
    assert_eq!(snap.restore(&mut st), Ok(()));
    assert_eq!(st.sp(), 3);
    assert_eq!(live(&st), vec![5, 4, 3, 2, 1]);
    // Bytes outside the frame are not touched.
    assert_eq!(st.byte(0), Some(9));
    assert_eq!(st.byte(2), Some(9));
}

#[test]
fn snapshot_never_saves_a_frame_in_part() {
    let mut st = SharedStack::new(8);
    assert!(st.push(1));
    assert!(st.push(2));
    let mut snap = Snapshot::new(2, 8);
    assert_eq!(snap.save(&st), Ok(()));
    assert!(st.push(3));
    // Three live bytes do not fit two: nothing is saved, the old frame stays.
    assert_eq!(snap.save(&st), Err(CocoError::StackSnapshotOverflow));
    assert_eq!(snap.frame_size(), 2);
    assert_eq!(snap.frame_start(), 6);
    assert_eq!(snap.byte(0), Some(2));
    assert_eq!(snap.byte(1), Some(1));
}

#[test]
fn snapshot_of_exactly_the_capacity_fits() {
    let mut st = SharedStack::new(4);
    for b in [1u8, 2, 3] {
        assert!(st.push(b));
    }
    let mut snap = Snapshot::new(3, 4);
    assert_eq!(snap.save(&st), Ok(()));
    assert_eq!(snap.frame_size(), 3);
    let mut zero = Snapshot::new(0, 4);
    assert_eq!(zero.save(&st), Err(CocoError::StackSnapshotOverflow));
    st.reset();
    assert_eq!(zero.save(&st), Ok(()));
}

#[test]
fn snapshot_restores_only_to_a_stack_of_the_same_size() {
    let mut st = SharedStack::new(8);
    assert!(st.push(1));
    let mut snap = Snapshot::new(4, 8);
    assert_eq!(snap.save(&st), Ok(()));
    let mut smaller = SharedStack::new(4);
    assert_eq!(snap.restore(&mut smaller), Err(CocoError::InvalidArgument));
    assert_eq!(smaller.sp(), 4);
    let mut larger = SharedStack::new(16);
    assert_eq!(snap.restore(&mut larger), Err(CocoError::InvalidArgument));
    assert_eq!(larger.depth(), 0);
}

#[test]
fn running_task_uses_the_shared_stack() {
    let mut s: Scheduler<u32> = idle_kernel(4, 8, 4);
    // Outside a task the stack cannot be used.
    assert_eq!(s.stack_push(1), Err(CocoError::InvalidArgument));
    assert_eq!(s.stack_pop(), Err(CocoError::InvalidArgument));
    assert_eq!(s.stack_write(0, 1), Err(CocoError::InvalidArgument));
    assert!(s.step(0, back()).is_ok());
    assert_eq!(s.stack_pop(), Err(CocoError::InvalidArgument));
    assert_eq!(s.stack_push(1), Ok(()));
    assert_eq!(s.stack_push(2), Ok(()));
    assert_eq!(s.stack_write(1, 7), Ok(()));
    assert_eq!(s.stack_write(2, 7), Err(CocoError::InvalidArgument));
    assert_eq!(live(s.stack()), vec![2, 7]);
    assert_eq!(s.stack_pop(), Ok(2));
    assert_eq!(s.stack_push(3), Ok(()));
    assert_eq!(s.stack_push(4), Ok(()));
    assert_eq!(s.stack_push(5), Ok(()));
    assert_eq!(s.stack_push(6), Err(CocoError::InvalidArgument));
    assert_eq!(live(s.stack()), vec![5, 4, 3, 7]);
}

#[test]
fn each_task_finds_its_own_stack_again() {
    let mut s: Scheduler<u32> = idle_kernel(4, 8, 16);
    assert!(s.step(0, back()).is_ok());
    assert_eq!(s.add_task(CHILD, None), Ok(2));
    for b in [11u8, 12, 13] {
        assert_eq!(s.stack_push(b), Ok(()));
    }
    assert_eq!(s.coco_yield(at(1)), Ok(back()));
    assert_eq!(s.stack().depth(), 0);
    assert_eq!(s.get_context(1).unwrap().frame().frame_size(), 3);
    assert_eq!(s.get_context(1).unwrap().frame().frame_start(), 13);
    // Task 2 starts on an empty stack and fills the same addresses.
    assert!(matches!(s.step(0, back()), Ok(SchedAction::Run(d)) if d.tid == 2));
    assert_eq!(s.stack().depth(), 0);
    for b in [21u8, 22, 23, 24, 25] {
        assert_eq!(s.stack_push(b), Ok(()));
    }
    assert_eq!(s.coco_yield(at(1)), Ok(back()));
    for round in 0..3u8 {
        assert!(matches!(s.step(0, back()), Ok(SchedAction::Run(d)) if d.tid == 1));
        assert_eq!(s.stack().sp(), 13);
        assert_eq!(live(s.stack()), vec![13, 12, 11 + round]);
        assert_eq!(s.stack_write(2, 12 + round), Ok(()));
        assert_eq!(s.coco_yield(at(1)), Ok(back()));
        assert!(matches!(s.step(0, back()), Ok(SchedAction::Run(d)) if d.tid == 2));
        assert_eq!(s.stack().sp(), 11);
        assert_eq!(live(s.stack()), vec![25, 24, 23, 22, 21]);
        assert_eq!(s.coco_yield(at(1)), Ok(back()));
    }
}
