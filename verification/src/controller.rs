//! The executable elevator controller.
//!
//! [`Elevator`] carries the concrete state — an `i32` floor, a [`State`],
//! and a `Vec<i32>` queue — and each method's contract says that it follows
//! the corresponding transition function of [`crate::machine`] exactly and
//! keeps the controller invariant.

use vstd::prelude::*;

use crate::laws::{
    lemma_call_preserves_inv, lemma_close_doors_preserves_inv, lemma_open_doors_preserves_inv,
    lemma_step_preserves_inv,
};
use crate::machine::{
    inv, spec_call, spec_close_doors, spec_open_doors, spec_step, valid_floor, ElevatorError,
    ElevatorModel, State, MAX_FLOOR,
};

verus! {

/// The elevator controller: the single source of truth for the car's
/// position, motion state, and pending destinations. Constructed once with
/// [`Elevator::new`] and mutated in place by every later operation.
#[derive(Debug)]
pub struct Elevator {
    current_floor: i32,
    state: State,
    queue: Vec<i32>,
}

/// An immutable snapshot of the controller, copied out on demand so that
/// callers never hold a live handle into controller-owned storage.
#[derive(Clone, Debug, PartialEq)]
pub struct ElevatorStatus {
    pub floor: i32,
    pub state: State,
    pub queue: Vec<i32>,
}

impl View for Elevator {
    type V = ElevatorModel;

    closed spec fn view(&self) -> ElevatorModel {
        ElevatorModel {
            floor: self.current_floor as int,
            state: self.state,
            queue: self.queue@,
        }
    }
}

impl Elevator {
    /// Builds a controller parked at `start_floor` with no pending calls,
    /// or rejects an out-of-range floor with `InvalidFloor`.
    pub fn new(start_floor: i32) -> (r: Result<Elevator, ElevatorError>)
        ensures
            valid_floor(start_floor as int) ==> (r matches Ok(e) && inv(e@) && e@.floor
                == start_floor as int && e@.state is Idle && e@.queue == Seq::<i32>::empty()),
            !valid_floor(start_floor as int) ==> r == Err::<Elevator, ElevatorError>(
                ElevatorError::InvalidFloor(start_floor),
            ),
    {
        if start_floor < 0 || start_floor > MAX_FLOOR {
            return Err(ElevatorError::InvalidFloor(start_floor));
        }
        Ok(Elevator { current_floor: start_floor, state: State::Idle, queue: Vec::new() })
    }

    /// Whether `target_floor` is already queued.
    fn is_queued(&self, target_floor: i32) -> (r: bool)
        ensures
            r == self@.queue.contains(target_floor),
    {
        let mut i: usize = 0;
        while i < self.queue.len()
            invariant
                i <= self.queue.len(),
                forall|k: int| 0 <= k < i ==> self.queue@[k] != target_floor,
            decreases self.queue.len() - i,
        {
            if self.queue[i] == target_floor {
                return true;
            }
            i = i + 1;
        }
        false
    }

    /// Requests a visit to `target_floor`, following [`spec_call`]: an
    /// out-of-range floor is rejected with `InvalidFloor` and nothing
    /// changes; the current floor or an already-queued floor is absorbed
    /// without effect; any other valid floor joins the queue's tail, and a
    /// car that was idle starts moving toward it.
    pub fn call(&mut self, target_floor: i32) -> (r: Result<(), ElevatorError>)
        requires
            inv(old(self)@),
        ensures
            inv(final(self)@),
            final(self)@ == spec_call(old(self)@, target_floor).0,
            r == spec_call(old(self)@, target_floor).1,
    {
        proof {
            lemma_call_preserves_inv(old(self)@, target_floor);
        }
        if target_floor < 0 || target_floor > MAX_FLOOR {
            return Err(ElevatorError::InvalidFloor(target_floor));
        }
        if target_floor == self.current_floor || self.is_queued(target_floor) {
            return Ok(());
        }
        self.queue.push(target_floor);
        if self.state == State::Idle {
            if target_floor > self.current_floor {
                self.state = State::MovingUp;
            } else {
                self.state = State::MovingDown;
            }
        }
        Ok(())
    }

    /// Advances the simulation by one tick, following [`spec_step`]: a
    /// moving car advances one floor toward the queue's head and opens its
    /// doors on arrival, removing that head; with the doors open the tick
    /// fails with `CannotMoveDoorsOpen`; idle with nothing queued it fails
    /// with `EmptyQueue`. Under the invariant a moving car always has a
    /// destination, so the emptiness guards in the moving arms only mirror
    /// the model's totality.
    pub fn step(&mut self) -> (r: Result<(), ElevatorError>)
        requires
            inv(old(self)@),
        ensures
            inv(final(self)@),
            final(self)@ == spec_step(old(self)@).0,
            r == spec_step(old(self)@).1,
    {
        proof {
            lemma_step_preserves_inv(old(self)@);
        }
        match self.state {
            State::MovingUp => {
                if !self.queue.is_empty() {
                    let destination = self.queue[0];
                    self.current_floor = self.current_floor + 1;
                    if self.current_floor == destination {
                        self.state = State::DoorsOpen;
                        self.queue.remove(0);
                    }
                }
                Ok(())
            },
            State::MovingDown => {
                if !self.queue.is_empty() {
                    let destination = self.queue[0];
                    self.current_floor = self.current_floor - 1;
                    if self.current_floor == destination {
                        self.state = State::DoorsOpen;
                        self.queue.remove(0);
                    }
                }
                Ok(())
            },
            State::DoorsOpen => Err(ElevatorError::CannotMoveDoorsOpen),
            State::Idle => {
                if self.queue.is_empty() {
                    Err(ElevatorError::EmptyQueue)
                } else {
                    Ok(())
                }
            },
        }
    }

    /// Opens the doors, following [`spec_open_doors`]: legal only while
    /// idle; while moving or already open it fails with
    /// `CannotOpenWhileMoving`.
    pub fn open_doors(&mut self) -> (r: Result<(), ElevatorError>)
        requires
            inv(old(self)@),
        ensures
            inv(final(self)@),
            final(self)@ == spec_open_doors(old(self)@).0,
            r == spec_open_doors(old(self)@).1,
    {
        proof {
            lemma_open_doors_preserves_inv(old(self)@);
        }
        match self.state {
            State::Idle => {
                self.state = State::DoorsOpen;
                Ok(())
            },
            _ => Err(ElevatorError::CannotOpenWhileMoving),
        }
    }

    /// Closes the doors, following [`spec_close_doors`]: legal only while
    /// the doors are open. With destinations pending, motion resumes toward
    /// the queue's head; with none, the car falls back to idle.
    pub fn close_doors(&mut self) -> (r: Result<(), ElevatorError>)
        requires
            inv(old(self)@),
        ensures
            inv(final(self)@),
            final(self)@ == spec_close_doors(old(self)@).0,
            r == spec_close_doors(old(self)@).1,
    {
        proof {
            lemma_close_doors_preserves_inv(old(self)@);
        }
        match self.state {
            State::DoorsOpen => {
                if self.queue.is_empty() {
                    self.state = State::Idle;
                } else {
                    let next = self.queue[0];
                    if next > self.current_floor {
                        self.state = State::MovingUp;
                    } else {
                        self.state = State::MovingDown;
                    }
                }
                Ok(())
            },
            _ => Err(ElevatorError::DoorsAlreadyClosed),
        }
    }

    /// The car's current floor.
    pub fn floor(&self) -> (r: i32)
        ensures
            r as int == self@.floor,
    {
        self.current_floor
    }

    /// The current motion state.
    pub fn state(&self) -> (r: State)
        ensures
            r == self@.state,
    {
        self.state
    }

    /// An independent copy of the pending-destination queue, oldest first.
    pub fn queue(&self) -> (r: Vec<i32>)
        ensures
            r@ == self@.queue,
    {
        self.queue.clone()
    }

    /// A snapshot of floor, state, and queue, copied out of the controller.
    pub fn status(&self) -> (r: ElevatorStatus)
        ensures
            r.floor as int == self@.floor,
            r.state == self@.state,
            r.queue@ == self@.queue,
    {
        ElevatorStatus { floor: self.current_floor, state: self.state, queue: self.queue() }
    }
}

} // verus!
