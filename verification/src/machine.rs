//! The mathematical model of the elevator controller.
//!
//! [`ElevatorModel`] is the ghost state the contracts speak about, and the
//! `spec_*` functions give the exact effect of each operation on that state,
//! together with the result the operation returns. The executable methods in
//! [`crate::controller`] ensure that they follow these functions step for
//! step.

use vstd::prelude::*;

verus! {

/// Highest floor the car services; valid floors are `0` through `MAX_FLOOR`.
pub const MAX_FLOOR: i32 = 5;

/// Motion state of the car. Exactly one variant is active at a time.
#[derive(Clone, Copy, Debug, PartialEq, Eq, Structural)]
pub enum State {
    Idle,
    MovingUp,
    MovingDown,
    DoorsOpen,
}

/// Why an operation was refused. Every error leaves the controller unchanged.
#[derive(Clone, Copy, Debug, PartialEq, Eq, Structural)]
pub enum ElevatorError {
    /// A floor argument was outside `[0, MAX_FLOOR]`; carries that argument.
    InvalidFloor(i32),
    /// `step` was attempted while the doors are open.
    CannotMoveDoorsOpen,
    /// `open_doors` was attempted while moving or already open.
    CannotOpenWhileMoving,
    /// `close_doors` was attempted while the doors are not open.
    DoorsAlreadyClosed,
    /// `step` was attempted while idle with no pending destination.
    EmptyQueue,
}

/// The abstract state of the controller: the car's floor, its motion state,
/// and the FIFO queue of pending destination floors (oldest first).
#[verifier::ext_equal]
pub struct ElevatorModel {
    pub floor: int,
    pub state: State,
    pub queue: Seq<i32>,
}

/// A floor the controller accepts.
pub open spec fn valid_floor(f: int) -> bool {
    0 <= f <= MAX_FLOOR as int
}

/// The controller invariant. Beyond the stated rules — the car stays within
/// `[0, MAX_FLOOR]` and the queue holds valid floors without duplicates —
/// it records the design choice that a motion state always has a pending
/// destination strictly ahead of the car in its direction of travel, so the
/// car can never drift off the building, and that while the doors are open
/// no queued destination equals the current floor, so closing the doors can
/// always pick a strict direction.
pub open spec fn inv(m: ElevatorModel) -> bool {
    &&& valid_floor(m.floor)
    &&& forall|i: int| 0 <= i < m.queue.len() ==> valid_floor(#[trigger] m.queue[i] as int)
    &&& forall|i: int, j: int| 0 <= i < j < m.queue.len() ==> m.queue[i] != m.queue[j]
    &&& (m.state is Idle ==> m.queue.len() == 0)
    &&& (m.state is MovingUp ==> m.queue.len() > 0 && m.queue[0] > m.floor)
    &&& (m.state is MovingDown ==> m.queue.len() > 0 && m.queue[0] < m.floor)
    &&& (m.state is DoorsOpen ==> forall|i: int|
        0 <= i < m.queue.len() ==> #[trigger] m.queue[i] != m.floor)
}

/// Effect of `call`: the next state and the returned result.
///
/// An out-of-range floor is rejected and changes nothing. A floor the car
/// already stands at, or one already queued, is absorbed without effect.
/// Otherwise the floor is appended to the queue's tail; if the car was idle,
/// motion starts at once, with the direction taken from the sign of the
/// distance to the new destination. Direction is decided only here — calls
/// made while moving or while the doors are open just queue up.
pub open spec fn spec_call(m: ElevatorModel, target_floor: i32) -> (ElevatorModel, Result<
    (),
    ElevatorError,
>) {
    if !valid_floor(target_floor as int) {
        (m, Err(ElevatorError::InvalidFloor(target_floor)))
    } else if target_floor == m.floor || m.queue.contains(target_floor) {
        (m, Ok(()))
    } else {
        let state = if m.state is Idle {
            if target_floor > m.floor {
                State::MovingUp
            } else {
                State::MovingDown
            }
        } else {
            m.state
        };
        ((ElevatorModel { floor: m.floor, state, queue: m.queue.push(target_floor) }), Ok(()))
    }
}

/// Effect of `step`, one discrete simulation tick.
///
/// While moving, the car advances exactly one floor toward the queue's head;
/// on reaching it the head is removed and the doors open. Stepping with the
/// doors open fails and moves nothing, and stepping while idle fails for want
/// of a destination. The remaining arms — moving or idle with destinations in
/// the wrong place — are unreachable under [`inv`] and kept only so the
/// function is total: they change nothing and return success.
pub open spec fn spec_step(m: ElevatorModel) -> (ElevatorModel, Result<(), ElevatorError>) {
    match m.state {
        State::MovingUp => {
            if m.queue.len() == 0 {
                (m, Ok(()))
            } else if m.floor + 1 == m.queue[0] {
                (
                    (ElevatorModel {
                        floor: m.floor + 1,
                        state: State::DoorsOpen,
                        queue: m.queue.remove(0),
                    }),
                    Ok(()),
                )
            } else {
                ((ElevatorModel { floor: m.floor + 1, state: m.state, queue: m.queue }), Ok(()))
            }
        },
        State::MovingDown => {
            if m.queue.len() == 0 {
                (m, Ok(()))
            } else if m.floor - 1 == m.queue[0] {
                (
                    (ElevatorModel {
                        floor: m.floor - 1,
                        state: State::DoorsOpen,
                        queue: m.queue.remove(0),
                    }),
                    Ok(()),
                )
            } else {
                ((ElevatorModel { floor: m.floor - 1, state: m.state, queue: m.queue }), Ok(()))
            }
        },
        State::DoorsOpen => (m, Err(ElevatorError::CannotMoveDoorsOpen)),
        State::Idle => {
            if m.queue.len() == 0 {
                (m, Err(ElevatorError::EmptyQueue))
            } else {
                (m, Ok(()))
            }
        },
    }
}

/// Effect of `open_doors`: legal only while idle.
pub open spec fn spec_open_doors(m: ElevatorModel) -> (ElevatorModel, Result<(), ElevatorError>) {
    match m.state {
        State::Idle => (
            (ElevatorModel { floor: m.floor, state: State::DoorsOpen, queue: m.queue }),
            Ok(()),
        ),
        _ => (m, Err(ElevatorError::CannotOpenWhileMoving)),
    }
}

/// Effect of `close_doors`: legal only while the doors are open. With
/// destinations pending, motion resumes toward the queue's head; with none,
/// the car falls back to idle.
pub open spec fn spec_close_doors(m: ElevatorModel) -> (ElevatorModel, Result<(), ElevatorError>) {
    if !(m.state is DoorsOpen) {
        (m, Err(ElevatorError::DoorsAlreadyClosed))
    } else if m.queue.len() == 0 {
        ((ElevatorModel { floor: m.floor, state: State::Idle, queue: m.queue }), Ok(()))
    } else if m.queue[0] > m.floor {
        ((ElevatorModel { floor: m.floor, state: State::MovingUp, queue: m.queue }), Ok(()))
    } else {
        ((ElevatorModel { floor: m.floor, state: State::MovingDown, queue: m.queue }), Ok(()))
    }
}

/// The model after `n` ticks, ignoring the per-tick results.
pub open spec fn spec_step_n(m: ElevatorModel, n: nat) -> ElevatorModel
    decreases n,
{
    if n == 0 {
        m
    } else {
        spec_step(spec_step_n(m, (n - 1) as nat)).0
    }
}

} // verus!
