use std::io::ErrorKind;

use partial_io::op::{interpret_sized, interpret_unit, should_wake};
use partial_io::{OpQueue, PartialOp, SizedStep, UnitStep};

#[test]
fn unlimited_forwards_the_whole_buffer() {
    assert_eq!(interpret_sized(PartialOp::Unlimited, 256, true), SizedStep::Forward { len: 256 });
    assert_eq!(interpret_sized(PartialOp::Unlimited, 0, false), SizedStep::Forward { len: 0 });
}

#[test]
fn limited_forwards_the_lesser_length() {
    assert_eq!(interpret_sized(PartialOp::Limited(2), 256, true), SizedStep::Forward { len: 2 });
    assert_eq!(interpret_sized(PartialOp::Limited(300), 256, true), SizedStep::Forward { len: 256 });
    assert_eq!(interpret_sized(PartialOp::Limited(256), 256, false), SizedStep::Forward { len: 256 });
    assert_eq!(interpret_sized(PartialOp::Limited(0), 7, false), SizedStep::Forward { len: 0 });
    assert_eq!(interpret_sized(PartialOp::Limited(5), 0, true), SizedStep::Forward { len: 0 });
    assert_eq!(
        interpret_sized(PartialOp::Limited(usize::MAX), usize::MAX, true),
        SizedStep::Forward { len: usize::MAX }
    );
}

#[test]
fn error_fails_with_its_own_kind() {
    assert_eq!(
        interpret_sized(PartialOp::Error(ErrorKind::Interrupted), 16, true),
        SizedStep::Fail { kind: ErrorKind::Interrupted, wake: false }
    );
    assert_eq!(
        interpret_sized(PartialOp::Error(ErrorKind::ConnectionReset), 16, false),
        SizedStep::Fail { kind: ErrorKind::ConnectionReset, wake: false }
    );
    assert_eq!(
        interpret_sized(PartialOp::Error(ErrorKind::UnexpectedEof), 0, true),
        SizedStep::Fail { kind: ErrorKind::UnexpectedEof, wake: false }
    );
}

#[test]
fn would_block_wakes_only_a_scheduled_caller() {
    assert_eq!(
        interpret_sized(PartialOp::Error(ErrorKind::WouldBlock), 16, true),
        SizedStep::Fail { kind: ErrorKind::WouldBlock, wake: true }
    );
    assert_eq!(
        interpret_sized(PartialOp::Error(ErrorKind::WouldBlock), 16, false),
        SizedStep::Fail { kind: ErrorKind::WouldBlock, wake: false }
    );
    assert!(should_wake(ErrorKind::WouldBlock, true));
    assert!(!should_wake(ErrorKind::WouldBlock, false));
    assert!(!should_wake(ErrorKind::TimedOut, true));
    assert!(!should_wake(ErrorKind::Interrupted, false));
}

#[test]
fn unit_calls_are_all_or_nothing() {
    assert_eq!(interpret_unit(PartialOp::Unlimited, true), UnitStep::Forward);
    assert_eq!(interpret_unit(PartialOp::Unlimited, false), UnitStep::Forward);
    assert_eq!(interpret_unit(PartialOp::Limited(0), true), UnitStep::Skip);
    assert_eq!(interpret_unit(PartialOp::Limited(9), false), UnitStep::Skip);
    assert_eq!(
        interpret_unit(PartialOp::Error(ErrorKind::BrokenPipe), true),
        UnitStep::Fail { kind: ErrorKind::BrokenPipe, wake: false }
    );
    assert_eq!(
        interpret_unit(PartialOp::Error(ErrorKind::WouldBlock), true),
        UnitStep::Fail { kind: ErrorKind::WouldBlock, wake: true }
    );
    assert_eq!(
        interpret_unit(PartialOp::Error(ErrorKind::WouldBlock), false),
        UnitStep::Fail { kind: ErrorKind::WouldBlock, wake: false }
    );
}

#[test]
fn queue_hands_out_entries_in_order() {
    let mut queue = OpQueue::new(vec![
        PartialOp::Limited(1),
        PartialOp::Error(ErrorKind::Interrupted),
        PartialOp::Unlimited,
        PartialOp::Limited(4),
    ]);
    assert_eq!(queue.remaining(), 4);
    assert_eq!(queue.next(), PartialOp::Limited(1));
    assert_eq!(queue.next(), PartialOp::Error(ErrorKind::Interrupted));
    assert_eq!(queue.remaining(), 2);
    assert_eq!(queue.next(), PartialOp::Unlimited);
    assert_eq!(queue.next(), PartialOp::Limited(4));
    assert_eq!(queue.remaining(), 0);
}

#[test]
fn exhausted_queue_gives_unlimited_for_ever() {
    let mut queue = OpQueue::new(vec![PartialOp::Limited(3)]);
    assert_eq!(queue.next(), PartialOp::Limited(3));
    for _ in 0..5 {
        assert_eq!(queue.next(), PartialOp::Unlimited);
        assert_eq!(queue.remaining(), 0);
    }
    let mut empty = OpQueue::new(Vec::new());
    assert_eq!(empty.remaining(), 0);
    assert_eq!(empty.next(), PartialOp::Unlimited);
}

#[test]
fn replaced_queue_forgets_what_was_pending() {
    let mut queue = OpQueue::new(vec![
        PartialOp::Limited(1),
        PartialOp::Limited(2),
        PartialOp::Limited(3),
    ]);
    assert_eq!(queue.next(), PartialOp::Limited(1));
    queue.replace(vec![PartialOp::Error(ErrorKind::TimedOut), PartialOp::Limited(8)]);
    assert_eq!(queue.remaining(), 2);
    assert_eq!(queue.next(), PartialOp::Error(ErrorKind::TimedOut));
    assert_eq!(queue.next(), PartialOp::Limited(8));
    assert_eq!(queue.next(), PartialOp::Unlimited);
    queue.replace(Vec::new());
    assert_eq!(queue.next(), PartialOp::Unlimited);
    queue.replace(vec![PartialOp::Limited(5)]);
    assert_eq!(queue.next(), PartialOp::Limited(5));
}
