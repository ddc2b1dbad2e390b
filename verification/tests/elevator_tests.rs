use elevator::{Elevator, ElevatorError, State, MAX_FLOOR};

fn fresh(start: i32) -> Elevator {
    match Elevator::new(start) {
        Ok(e) => e,
        Err(err) => panic!("construction at {} failed: {:?}", start, err),
    }
}

#[test]
fn new_starts_idle_with_empty_queue() {
    let e = fresh(0);
    assert_eq!(e.floor(), 0);
    assert_eq!(e.state(), State::Idle);
    assert_eq!(e.queue(), Vec::<i32>::new());
}

#[test]
fn new_accepts_both_bounds() {
    assert_eq!(fresh(0).floor(), 0);
    assert_eq!(fresh(MAX_FLOOR).floor(), MAX_FLOOR);
}

#[test]
fn new_rejects_floor_below_range() {
    match Elevator::new(-1) {
        Ok(_) => panic!("floor -1 must be rejected"),
        Err(err) => assert_eq!(err, ElevatorError::InvalidFloor(-1)),
    }
}

#[test]
fn new_rejects_floor_above_range() {
    match Elevator::new(MAX_FLOOR + 1) {
        Ok(_) => panic!("floor above the top must be rejected"),
        Err(err) => assert_eq!(err, ElevatorError::InvalidFloor(MAX_FLOOR + 1)),
    }
}

#[test]
fn call_rejects_invalid_floor_and_changes_nothing() {
    let mut e = fresh(2);
    assert_eq!(e.call(-3), Err(ElevatorError::InvalidFloor(-3)));
    assert_eq!(e.call(6), Err(ElevatorError::InvalidFloor(6)));
    assert_eq!(e.floor(), 2);
    assert_eq!(e.state(), State::Idle);
    assert_eq!(e.queue(), Vec::<i32>::new());
}

#[test]
fn call_to_current_floor_is_absorbed() {
    let mut e = fresh(2);
    assert_eq!(e.call(2), Ok(()));
    assert_eq!(e.state(), State::Idle);
    assert_eq!(e.queue(), Vec::<i32>::new());
}

#[test]
fn call_twice_queues_floor_once() {
    let mut e = fresh(0);
    assert_eq!(e.call(3), Ok(()));
    assert_eq!(e.call(3), Ok(()));
    assert_eq!(e.queue(), vec![3]);
}

#[test]
fn call_from_idle_starts_moving_up() {
    let mut e = fresh(1);
    assert_eq!(e.call(4), Ok(()));
    assert_eq!(e.state(), State::MovingUp);
    assert_eq!(e.queue(), vec![4]);
}

#[test]
fn call_from_idle_starts_moving_down() {
    let mut e = fresh(4);
    assert_eq!(e.call(1), Ok(()));
    assert_eq!(e.state(), State::MovingDown);
    assert_eq!(e.queue(), vec![1]);
}

#[test]
fn call_while_moving_queues_without_changing_direction() {
    let mut e = fresh(0);
    assert_eq!(e.call(3), Ok(()));
    assert_eq!(e.call(1), Ok(()));
    assert_eq!(e.state(), State::MovingUp);
    assert_eq!(e.queue(), vec![3, 1]);
}

#[test]
fn queue_is_served_in_arrival_order() {
    let mut e = fresh(0);
    assert_eq!(e.call(3), Ok(()));
    assert_eq!(e.call(1), Ok(()));
    for _ in 0..3 {
        assert_eq!(e.step(), Ok(()));
    }
    assert_eq!(e.floor(), 3);
    assert_eq!(e.state(), State::DoorsOpen);
    assert_eq!(e.queue(), vec![1]);
    assert_eq!(e.close_doors(), Ok(()));
    assert_eq!(e.state(), State::MovingDown);
    assert_eq!(e.step(), Ok(()));
    assert_eq!(e.step(), Ok(()));
    assert_eq!(e.floor(), 1);
    assert_eq!(e.state(), State::DoorsOpen);
    assert_eq!(e.queue(), Vec::<i32>::new());
}

#[test]
fn moving_up_arrives_after_exact_distance() {
    let mut e = fresh(1);
    assert_eq!(e.call(5), Ok(()));
    for expected in 2..5 {
        assert_eq!(e.step(), Ok(()));
        assert_eq!(e.floor(), expected);
        assert_eq!(e.state(), State::MovingUp);
    }
    assert_eq!(e.step(), Ok(()));
    assert_eq!(e.floor(), 5);
    assert_eq!(e.state(), State::DoorsOpen);
    assert_eq!(e.queue(), Vec::<i32>::new());
}

#[test]
fn step_while_doors_open_fails_and_moves_nothing() {
    let mut e = fresh(2);
    assert_eq!(e.open_doors(), Ok(()));
    assert_eq!(e.step(), Err(ElevatorError::CannotMoveDoorsOpen));
    assert_eq!(e.floor(), 2);
    assert_eq!(e.state(), State::DoorsOpen);
}

#[test]
fn step_while_idle_with_no_calls_fails() {
    let mut e = fresh(0);
    assert_eq!(e.step(), Err(ElevatorError::EmptyQueue));
    assert_eq!(e.floor(), 0);
    assert_eq!(e.state(), State::Idle);
}

#[test]
fn open_doors_fails_while_moving() {
    let mut e = fresh(0);
    assert_eq!(e.call(2), Ok(()));
    assert_eq!(e.open_doors(), Err(ElevatorError::CannotOpenWhileMoving));
    assert_eq!(e.state(), State::MovingUp);
}

#[test]
fn open_doors_fails_while_already_open() {
    let mut e = fresh(0);
    assert_eq!(e.open_doors(), Ok(()));
    assert_eq!(e.open_doors(), Err(ElevatorError::CannotOpenWhileMoving));
    assert_eq!(e.state(), State::DoorsOpen);
}

#[test]
fn close_doors_fails_when_not_open() {
    let mut e = fresh(0);
    assert_eq!(e.close_doors(), Err(ElevatorError::DoorsAlreadyClosed));
    assert_eq!(e.state(), State::Idle);
}

#[test]
fn call_while_doors_open_queues_until_close() {
    let mut e = fresh(2);
    assert_eq!(e.open_doors(), Ok(()));
    assert_eq!(e.call(4), Ok(()));
    assert_eq!(e.state(), State::DoorsOpen);
    assert_eq!(e.queue(), vec![4]);
    assert_eq!(e.close_doors(), Ok(()));
    assert_eq!(e.state(), State::MovingUp);
    assert_eq!(e.queue(), vec![4]);
}

#[test]
fn full_trip_up_and_back_to_idle() {
    let mut e = fresh(0);
    assert_eq!(e.call(3), Ok(()));
    assert_eq!(e.state(), State::MovingUp);
    assert_eq!(e.queue(), vec![3]);
    for _ in 0..3 {
        assert_eq!(e.step(), Ok(()));
    }
    assert_eq!(e.floor(), 3);
    assert_eq!(e.state(), State::DoorsOpen);
    assert_eq!(e.queue(), Vec::<i32>::new());
    assert_eq!(e.close_doors(), Ok(()));
    assert_eq!(e.state(), State::Idle);
}

#[test]
fn invariant_holds_through_a_mixed_sequence() {
    let mut e = fresh(0);
    let _ = e.call(5);
    let _ = e.call(2);
    let _ = e.call(2);
    let _ = e.step();
    let _ = e.call(0);
    let _ = e.step();
    let _ = e.open_doors();
    let _ = e.step();
    let _ = e.step();
    let _ = e.step();
    let _ = e.close_doors();
    let _ = e.step();
    let _ = e.close_doors();
    let floor = e.floor();
    assert!((0..=MAX_FLOOR).contains(&floor));
    let queue = e.queue();
    for (i, a) in queue.iter().enumerate() {
        assert!((0..=MAX_FLOOR).contains(a));
        for b in queue.iter().skip(i + 1) {
            assert_ne!(a, b);
        }
    }
}

#[test]
fn status_reports_an_independent_snapshot() {
    let mut e = fresh(1);
    assert_eq!(e.call(4), Ok(()));
    let status = e.status();
    assert_eq!(status.floor, 1);
    assert_eq!(status.state, State::MovingUp);
    assert_eq!(status.queue, vec![4]);
    let mut copy = e.queue();
    copy.push(0);
    assert_eq!(e.queue(), vec![4]);
    assert_eq!(e.step(), Ok(()));
    assert_eq!(status.floor, 1);
    assert_eq!(status.state, State::MovingUp);
}
