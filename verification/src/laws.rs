//! What holds of the store across calls.

use vstd::prelude::*;
use crate::error::IkError;
use crate::pose::Pose;
use crate::state::{Solve, StateStore};

verus! {

/// Two stores describe the same robot under the same modes.
pub open spec fn same_robot(one: StateStore, other: StateStore) -> bool {
    &&& one.num_chains == other.num_chains
    &&& one.num_dof == other.num_dof
    &&& one.joint_names == other.joint_names
    &&& one.position_mode_relative == other.position_mode_relative
    &&& one.rotation_mode_relative == other.rotation_mode_relative
}

/// A store is well formed right after construction, and not yet recovered.
pub proof fn lemma_fresh_well_formed(
    num_chains: nat,
    num_dof: nat,
    joint_names: Seq<String>,
    position_mode_relative: bool,
    rotation_mode_relative: bool,
)
    ensures
        StateStore::fresh(
            num_chains,
            num_dof,
            joint_names,
            position_mode_relative,
            rotation_mode_relative,
        ).well_formed(),
        !StateStore::fresh(
            num_chains,
            num_dof,
            joint_names,
            position_mode_relative,
            rotation_mode_relative,
        ).recovered(),
{
}

/// A recovery that succeeds leaves a shaped store: one anchor and one goal per
/// chain, and one scalar per joint in the solution and in each history slot.
/// The goals lie on the anchors, and the solution and its history all are the
/// starting configuration, so that their differences are zero.
pub proof fn lemma_recover_shapes(store: StateStore, init_state: Seq<u64>, ee_poses: Seq<Pose>)
    requires
        store.well_formed(),
        store.recover(init_state, ee_poses) is Ok,
    ensures
        ({
            let after = store.recover(init_state, ee_poses)->Ok_0;
            &&& after.well_formed()
            &&& after.recovered()
            &&& after.shaped()
            &&& after.anchors == ee_poses
            &&& after.goals == after.anchors
            &&& after.history == seq![after.current, after.current, after.current]
        }),
{
}

/// When a recovery is refused and when it succeeds: an empty request with
/// nothing recorded is invalid input, whatever else is wrong with it; any
/// other request succeeds if and only if the configuration it starts from has
/// one scalar per joint and there is one pose per chain.
pub proof fn lemma_recover_refusals(store: StateStore, init_state: Seq<u64>, ee_poses: Seq<Pose>)
    requires
        store.well_formed(),
    ensures
        store.recover(init_state, ee_poses) == Err::<StateStore, IkError>(IkError::InvalidInput)
            <==> init_state.len() == 0 && !store.recovered(),
        store.recover(init_state, ee_poses) is Ok <==> ee_poses.len() == store.num_chains && (
        if init_state.len() == 0 {
            store.recovered()
        } else {
            init_state.len() == store.num_dof
        }),
{
}

/// A solve keeps the store shaped, whether a collision blocks it or the outcome
/// is committed.
pub proof fn lemma_solve_shapes(
    store: StateStore,
    requested: Seq<Pose>,
    anchored: Seq<Pose>,
    solution: Seq<u64>,
)
    requires
        store.well_formed(),
        store.recovered(),
        store.fits(requested, anchored),
        solution.len() == store.num_dof,
    ensures
        store.with_goals(requested, anchored).well_formed(),
        store.with_goals(requested, anchored).shaped(),
        store.commit(solution).well_formed(),
        store.commit(solution).shaped(),
        store.solved(Solve { requested, anchored, solution }).well_formed(),
        store.solved(Solve { requested, anchored, solution }).shaped(),
{
}

/// Under absolute position mode the goal position of every chain is the
/// requested one, whatever the anchors are.
pub proof fn lemma_absolute_position(store: StateStore, requested: Seq<Pose>, anchored: Seq<Pose>)
    requires
        !store.position_mode_relative,
        store.fits(requested, anchored),
    ensures
        forall|i: int|
            0 <= i < store.num_chains ==> (#[trigger] store.with_goals(
                requested,
                anchored,
            ).goals[i]).position == requested[i].position,
{
}

/// Under absolute rotation mode the goal orientation of every chain is the
/// requested one, whatever the anchors are.
pub proof fn lemma_absolute_orientation(
    store: StateStore,
    requested: Seq<Pose>,
    anchored: Seq<Pose>,
)
    requires
        !store.rotation_mode_relative,
        store.fits(requested, anchored),
    ensures
        forall|i: int|
            0 <= i < store.num_chains ==> (#[trigger] store.with_goals(
                requested,
                anchored,
            ).goals[i]).orientation == requested[i].orientation,
{
}

/// Under relative position mode, a chain whose anchor-relative position is the
/// anchor's own position has its goal at the anchor.
pub proof fn lemma_relative_position_at_anchor(
    store: StateStore,
    requested: Seq<Pose>,
    anchored: Seq<Pose>,
    i: int,
)
    requires
        store.position_mode_relative,
        store.fits(requested, anchored),
        0 <= i < store.num_chains,
        anchored[i].position == store.anchors[i].position,
    ensures
        store.with_goals(requested, anchored).goals[i].position == store.anchors[i].position,
{
}

/// Resolving goals touches nothing but the goals: a solve that the collision
/// check blocks leaves anchors, solution and history as they were.
pub proof fn lemma_blocked_solve(store: StateStore, requested: Seq<Pose>, anchored: Seq<Pose>)
    ensures
        store.with_goals(requested, anchored).current == store.current,
        store.with_goals(requested, anchored).history == store.history,
        store.with_goals(requested, anchored).anchors == store.anchors,
        store.with_goals(requested, anchored).init_state == store.init_state,
{
}

/// A commit leaves anchors and goals alone.
pub proof fn lemma_commit_keeps_frame(store: StateStore, solution: Seq<u64>)
    ensures
        store.commit(solution).anchors == store.anchors,
        store.commit(solution).goals == store.goals,
        store.commit(solution).init_state == store.init_state,
{
}

/// The robot's dimensions, its joint names and the two modes are fixed at
/// construction: no recovery, goal resolution or commit changes them.
pub proof fn lemma_descriptor_is_constant(
    store: StateStore,
    init_state: Seq<u64>,
    ee_poses: Seq<Pose>,
    requested: Seq<Pose>,
    anchored: Seq<Pose>,
    solution: Seq<u64>,
)
    ensures
        store.recover(init_state, ee_poses) is Ok ==> same_robot(
            store.recover(init_state, ee_poses)->Ok_0,
            store,
        ),
        same_robot(store.with_goals(requested, anchored), store),
        same_robot(store.commit(solution), store),
{
}

/// After `n` solves that were not blocked, the current solution is the `n`-th
/// outcome, and the history holds the outcomes before it, most recent first:
/// the first slot as soon as there was one solve, the second after two, the
/// third after three. The outcome numbered zero is the solution that was
/// current before the first of them.
pub proof fn lemma_history_prefix(store: StateStore, solves: Seq<Solve>)
    ensures
        ({
            let n = solves.len() as int;
            let after = store.solved_all(solves);
            &&& after.current == store.output(solves, n)
            &&& after.anchors == store.anchors
            &&& n >= 1 ==> after.history[0] == store.output(solves, n - 1)
            &&& n >= 2 ==> after.history[1] == store.output(solves, n - 2)
            &&& n >= 3 ==> after.history[2] == store.output(solves, n - 3)
            &&& n >= 1 ==> after.history.len() == 3
        }),
    decreases solves.len(),
{
    if solves.len() > 0 {
        let front = solves.drop_last();
        lemma_history_prefix(store, front);
        let n = solves.len() as int;
        assert(store.output(front, n - 1) == store.output(solves, n - 1));
        assert(store.output(front, n - 2) == store.output(solves, n - 2));
        assert(store.output(front, n - 3) == store.output(solves, n - 3));
    }
}

/// After three or more consecutive solves that were not blocked, the history
/// is exactly the three outcomes before the current one, most recent first.
pub proof fn lemma_history_shift(store: StateStore, solves: Seq<Solve>)
    requires
        solves.len() >= 3,
    ensures
        ({
            let n = solves.len() as int;
            let after = store.solved_all(solves);
            &&& after.current == store.output(solves, n)
            &&& after.history == seq![
                store.output(solves, n - 1),
                store.output(solves, n - 2),
                store.output(solves, n - 3),
            ]
        }),
{
    lemma_history_prefix(store, solves);
}

/// After a recovery from a configuration, a recovery from the empty
/// configuration starts from the same configuration and, given the same
/// poses, leaves the same store as a second recovery from that configuration
/// would.
pub proof fn lemma_recover_empty_repeats(
    store: StateStore,
    init_state: Seq<u64>,
    ee_poses: Seq<Pose>,
    again: Seq<Pose>,
)
    requires
        store.recover(init_state, ee_poses) is Ok,
    ensures
        ({
            let first = store.recover(init_state, ee_poses)->Ok_0;
            &&& first.starting_config(Seq::empty()) == first.starting_config(init_state)
            &&& first.recover(Seq::empty(), again) == first.recover(init_state, again)
        }),
{
}

/// A recovery forgets what was solved before it: two stores of the same robot
/// and the same modes that recover from the same configuration and poses end
/// up equal.
pub proof fn lemma_recover_resets(
    one: StateStore,
    other: StateStore,
    init_state: Seq<u64>,
    ee_poses: Seq<Pose>,
)
    requires
        init_state.len() > 0,
        same_robot(one, other),
    ensures
        other.recover(init_state, ee_poses) == one.recover(init_state, ee_poses),
{
}

} // verus!
