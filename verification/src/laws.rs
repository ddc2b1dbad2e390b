//! The general rules of the controller, proved once over the model.
//!
//! The preservation lemmas show that every operation keeps the controller
//! invariant, so after any sequence of operations the car is within bounds
//! and the queue is duplicate-free. The remaining lemmas state the scheduling
//! rules: rejected floors change nothing, repeated calls queue a floor at
//! most once, a call from idle starts motion toward its target, the doors
//! block motion, and a moving car arrives at the queue's head after exactly
//! the distance in ticks.

use vstd::prelude::*;

use crate::machine::{
    inv, spec_call, spec_close_doors, spec_open_doors, spec_step, spec_step_n, valid_floor,
    ElevatorError, ElevatorModel,
};

verus! {

/// `call` preserves the controller invariant.
pub proof fn lemma_call_preserves_inv(m: ElevatorModel, target_floor: i32)
    requires
        inv(m),
    ensures
        inv(spec_call(m, target_floor).0),
{
}

/// `step` preserves the controller invariant.
pub proof fn lemma_step_preserves_inv(m: ElevatorModel)
    requires
        inv(m),
    ensures
        inv(spec_step(m).0),
{
}

/// `open_doors` preserves the controller invariant.
pub proof fn lemma_open_doors_preserves_inv(m: ElevatorModel)
    requires
        inv(m),
    ensures
        inv(spec_open_doors(m).0),
{
}

/// `close_doors` preserves the controller invariant.
pub proof fn lemma_close_doors_preserves_inv(m: ElevatorModel)
    requires
        inv(m),
    ensures
        inv(spec_close_doors(m).0),
{
}

/// An out-of-range floor is rejected by `call` with exactly
/// `InvalidFloor`, and the controller is left unchanged.
pub proof fn lemma_invalid_floor_rejected(m: ElevatorModel, target_floor: i32)
    requires
        !valid_floor(target_floor as int),
    ensures
        spec_call(m, target_floor).0 == m,
        spec_call(m, target_floor).1 == Err::<(), ElevatorError>(
            ElevatorError::InvalidFloor(target_floor),
        ),
{
}

/// Calling the same floor twice in a row is idempotent: after two `call`s of
/// `target_floor` with nothing in between, the queue holds `target_floor` at
/// most once.
pub proof fn lemma_call_idempotent(m: ElevatorModel, target_floor: i32)
    requires
        inv(m),
    ensures
        ({
            let m2 = spec_call(spec_call(m, target_floor).0, target_floor).0;
            forall|i: int, j: int|
                0 <= i < j < m2.queue.len() ==> !(m2.queue[i] == target_floor && m2.queue[j]
                    == target_floor)
        }),
{
    lemma_call_preserves_inv(m, target_floor);
    lemma_call_preserves_inv(spec_call(m, target_floor).0, target_floor);
}

/// Liveness from idle: a call to a valid floor other than the current one
/// succeeds and starts motion toward it — up when the target is above the
/// car, down when it is below.
pub proof fn lemma_idle_call_starts_motion(m: ElevatorModel, target_floor: i32)
    requires
        inv(m),
        m.state is Idle,
        valid_floor(target_floor as int),
        target_floor != m.floor,
    ensures
        spec_call(m, target_floor).1 == Ok::<(), ElevatorError>(()),
        target_floor > m.floor ==> spec_call(m, target_floor).0.state is MovingUp,
        target_floor < m.floor ==> spec_call(m, target_floor).0.state is MovingDown,
        spec_call(m, target_floor).0.queue == m.queue.push(target_floor),
{
}

/// Door discipline: stepping with the doors open always fails with
/// `CannotMoveDoorsOpen` and changes nothing — in particular the car does
/// not move.
pub proof fn lemma_doors_block_motion(m: ElevatorModel)
    requires
        m.state is DoorsOpen,
    ensures
        spec_step(m).0 == m,
        spec_step(m).1 == Err::<(), ElevatorError>(ElevatorError::CannotMoveDoorsOpen),
{
}

/// Peels one tick off the front of an iterated step.
proof fn lemma_step_n_peels_front(m: ElevatorModel, n: nat)
    requires
        n > 0,
    ensures
        spec_step_n(m, n) == spec_step_n(spec_step(m).0, (n - 1) as nat),
    decreases n,
{
    let m1 = spec_step(m).0;
    if n == 1 {
        assert(spec_step_n(m, 0) == m);
        assert(spec_step_n(m1, 0) == m1);
        assert(spec_step_n(m, 1) == spec_step(spec_step_n(m, 0)).0);
    } else {
        lemma_step_n_peels_front(m, (n - 1) as nat);
        assert(spec_step_n(m, n) == spec_step(spec_step_n(m, (n - 1) as nat)).0);
        assert(spec_step_n(m1, (n - 1) as nat) == spec_step(spec_step_n(m1, (n - 2) as nat)).0);
    }
}

/// Arrival: a car moving up toward the queue's head `h` stays in `MovingUp`,
/// each tick succeeding, for exactly `h - floor` ticks, and then stands at
/// `h` with the doors open and `h` removed from the queue.
pub proof fn lemma_moving_up_arrival(m: ElevatorModel)
    requires
        inv(m),
        m.state is MovingUp,
    ensures
        ({
            let n = (m.queue[0] - m.floor) as nat;
            &&& forall|k: nat|
                k < n ==> (#[trigger] spec_step_n(m, k)).state is MovingUp && spec_step(
                    spec_step_n(m, k),
                ).1 == Ok::<(), ElevatorError>(())
            &&& spec_step_n(m, n).floor == m.queue[0]
            &&& spec_step_n(m, n).state is DoorsOpen
            &&& spec_step_n(m, n).queue == m.queue.remove(0)
        }),
    decreases m.queue[0] - m.floor,
{
    let n = (m.queue[0] - m.floor) as nat;
    let m1 = spec_step(m).0;
    lemma_step_preserves_inv(m);
    if m.floor + 1 == m.queue[0] {
        assert(spec_step_n(m, 1) == m1);
        assert(spec_step_n(m, 0) == m);
    } else {
        lemma_moving_up_arrival(m1);
        let n1 = (m1.queue[0] - m1.floor) as nat;
        assert(n1 == (n - 1) as nat);
        lemma_step_n_peels_front(m, n);
        assert(spec_step_n(m, n) == spec_step_n(m1, n1));
        assert forall|k: nat| 0 < k < n implies (#[trigger] spec_step_n(m, k)).state is MovingUp
            && spec_step(spec_step_n(m, k)).1 == Ok::<(), ElevatorError>(()) by {
            lemma_step_n_peels_front(m, k);
            assert(spec_step_n(m, k) == spec_step_n(m1, (k - 1) as nat));
        }
        assert(spec_step_n(m, 0) == m);
    }
}

/// Arrival, downward: a car moving down toward the queue's head `h` stays in
/// `MovingDown`, each tick succeeding, for exactly `floor - h` ticks, and
/// then stands at `h` with the doors open and `h` removed from the queue.
pub proof fn lemma_moving_down_arrival(m: ElevatorModel)
    requires
        inv(m),
        m.state is MovingDown,
    ensures
        ({
            let n = (m.floor - m.queue[0]) as nat;
            &&& forall|k: nat|
                k < n ==> (#[trigger] spec_step_n(m, k)).state is MovingDown && spec_step(
                    spec_step_n(m, k),
                ).1 == Ok::<(), ElevatorError>(())
            &&& spec_step_n(m, n).floor == m.queue[0]
            &&& spec_step_n(m, n).state is DoorsOpen
            &&& spec_step_n(m, n).queue == m.queue.remove(0)
        }),
    decreases m.floor - m.queue[0],
{
    let n = (m.floor - m.queue[0]) as nat;
    let m1 = spec_step(m).0;
    lemma_step_preserves_inv(m);
    if m.floor - 1 == m.queue[0] {
        assert(spec_step_n(m, 1) == m1);
        assert(spec_step_n(m, 0) == m);
    } else {
        lemma_moving_down_arrival(m1);
        let n1 = (m1.floor - m1.queue[0]) as nat;
        assert(n1 == (n - 1) as nat);
        lemma_step_n_peels_front(m, n);
        assert(spec_step_n(m, n) == spec_step_n(m1, n1));
        assert forall|k: nat| 0 < k < n implies (#[trigger] spec_step_n(m, k)).state is MovingDown
            && spec_step(spec_step_n(m, k)).1 == Ok::<(), ElevatorError>(()) by {
            lemma_step_n_peels_front(m, k);
            assert(spec_step_n(m, k) == spec_step_n(m1, (k - 1) as nat));
        }
        assert(spec_step_n(m, 0) == m);
    }
}

} // verus!
