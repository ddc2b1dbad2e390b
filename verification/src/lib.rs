//! A verified controller for a single elevator car.
//!
//! The controller owns the car's position, its motion state, and a FIFO
//! queue of pending destination floors. Every public operation is specified
//! against a mathematical model of that state ([`machine`]), and the general
//! rules of the controller — invariant preservation, idempotent calls,
//! liveness from idle, door discipline, and arrival after exactly the right
//! number of ticks — are proved once over the model in [`laws`].

mod controller;
mod laws;
mod machine;

pub use controller::{Elevator, ElevatorStatus};
pub use laws::{
    lemma_call_idempotent, lemma_call_preserves_inv, lemma_close_doors_preserves_inv,
    lemma_doors_block_motion, lemma_idle_call_starts_motion, lemma_invalid_floor_rejected,
    lemma_moving_down_arrival, lemma_moving_up_arrival, lemma_open_doors_preserves_inv,
    lemma_step_preserves_inv,
};
pub use machine::{
    inv, spec_call, spec_close_doors, spec_open_doors, spec_step, spec_step_n, valid_floor,
    ElevatorError, ElevatorModel, State, MAX_FLOOR,
};
