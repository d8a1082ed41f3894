//! The state that lives between calls, as a mathematical value, and the
//! transitions that recovery, goal resolution and commit make on it.

use vstd::prelude::*;
use crate::error::IkError;
use crate::pose::Pose;

verus! {

/// Everything the solver remembers from one call to the next.
#[verifier::ext_equal]
pub struct StateStore {
    /// How many kinematic chains the robot has.
    pub num_chains: nat,
    /// How many joints a configuration has.
    pub num_dof: nat,
    /// The robot's joint names, in declaration order.
    pub joint_names: Seq<String>,
    /// Whether a requested position is a displacement from the anchor.
    pub position_mode_relative: bool,
    /// Whether a requested rotation is composed onto the anchor.
    pub rotation_mode_relative: bool,
    /// The starting configuration of the last recovery, if there was one.
    pub init_state: Option<Seq<u64>>,
    /// Per chain, the pose recorded at the last recovery.
    pub anchors: Seq<Pose>,
    /// Per chain, the pose the optimizer is asked to reach.
    pub goals: Seq<Pose>,
    /// The latest committed solution.
    pub current: Seq<u64>,
    /// The three committed solutions before `current`, most recent first.
    pub history: Seq<Seq<u64>>,
}

impl StateStore {
    /// The store right after construction: nothing recovered, nothing solved.
    pub open spec fn fresh(
        num_chains: nat,
        num_dof: nat,
        joint_names: Seq<String>,
        position_mode_relative: bool,
        rotation_mode_relative: bool,
    ) -> StateStore {
        StateStore {
            num_chains,
            num_dof,
            joint_names,
            position_mode_relative,
            rotation_mode_relative,
            init_state: None,
            anchors: Seq::empty(),
            goals: Seq::empty(),
            current: Seq::empty(),
            history: seq![Seq::empty(), Seq::empty(), Seq::empty()],
        }
    }

    /// A recovery has succeeded at least once.
    pub open spec fn recovered(self) -> bool {
        self.init_state is Some
    }

    /// One pose per chain in anchors and goals, one scalar per joint in the
    /// current solution and in each of exactly three history slots.
    pub open spec fn shaped(self) -> bool {
        &&& self.anchors.len() == self.num_chains
        &&& self.goals.len() == self.num_chains
        &&& self.current.len() == self.num_dof
        &&& self.history.len() == 3
        &&& forall|k: int| 0 <= k < 3 ==> (#[trigger] self.history[k]).len() == self.num_dof
    }

    /// What holds of every store a solver can be in: a fresh one is empty, a
    /// recovered one is shaped and remembers a full starting configuration.
    pub open spec fn well_formed(self) -> bool {
        match self.init_state {
            Some(start) => self.shaped() && start.len() == self.num_dof,
            None => self == StateStore::fresh(
                self.num_chains,
                self.num_dof,
                self.joint_names,
                self.position_mode_relative,
                self.rotation_mode_relative,
            ),
        }
    }

    /// The configuration a recovery starts from: the one given, or the
    /// recorded one where the one given is empty.
    pub open spec fn starting_config(self, init_state: Seq<u64>) -> Result<Seq<u64>, IkError> {
        if init_state.len() == 0 && self.init_state is None {
            Err(IkError::InvalidInput)
        } else {
            let config = if init_state.len() == 0 {
                self.init_state->0
            } else {
                init_state
            };
            if config.len() == self.num_dof {
                Ok(config)
            } else {
                Err(IkError::ShapeMismatch)
            }
        }
    }

    /// The store after a recovery from `config`, whose end-effector poses are
    /// `ee_poses`: anchors and goals coincide, and the solution and all of its
    /// history are the starting configuration.
    pub open spec fn recovered_from(self, config: Seq<u64>, ee_poses: Seq<Pose>) -> StateStore {
        StateStore {
            init_state: Some(config),
            anchors: ee_poses,
            goals: ee_poses,
            current: config,
            history: seq![config, config, config],
            ..self
        }
    }

    /// What a recovery request does: the error it is refused with, or the
    /// store it leaves.
    pub open spec fn recover(self, init_state: Seq<u64>, ee_poses: Seq<Pose>) -> Result<
        StateStore,
        IkError,
    > {
        match self.starting_config(init_state) {
            Err(e) => Err(e),
            Ok(config) => if ee_poses.len() == self.num_chains {
                Ok(self.recovered_from(config, ee_poses))
            } else {
                Err(IkError::ShapeMismatch)
            },
        }
    }

    /// The goal of one chain: each half taken from `anchored` where its mode
    /// is relative, from `requested` where it is absolute.
    pub open spec fn resolved_goal(self, requested: Pose, anchored: Pose) -> Pose {
        Pose {
            position: if self.position_mode_relative {
                anchored.position
            } else {
                requested.position
            },
            orientation: if self.rotation_mode_relative {
                anchored.orientation
            } else {
                requested.orientation
            },
        }
    }

    /// Whether any half of a goal is taken relative to the anchor.
    pub open spec fn reads_anchored(self) -> bool {
        self.position_mode_relative || self.rotation_mode_relative
    }

    /// Whether a goal request has one pose per chain, in `requested` and, where
    /// a mode is relative, in `anchored` too.
    pub open spec fn fits(self, requested: Seq<Pose>, anchored: Seq<Pose>) -> bool {
        &&& requested.len() == self.num_chains
        &&& self.reads_anchored() ==> anchored.len() == self.num_chains
    }

    /// The store with its goals resolved from a request. Nothing else changes.
    pub open spec fn with_goals(self, requested: Seq<Pose>, anchored: Seq<Pose>) -> StateStore {
        StateStore {
            goals: Seq::new(
                self.num_chains,
                |i: int| self.resolved_goal(requested[i], anchored[i]),
            ),
            ..self
        }
    }

    /// The store after `solution` is committed: it becomes the current
    /// solution, the one before it moves to the front of the history, and the
    /// oldest slot is dropped.
    pub open spec fn commit(self, solution: Seq<u64>) -> StateStore {
        StateStore {
            current: solution,
            history: seq![self.current, self.history[0], self.history[1]],
            ..self
        }
    }

    /// The store after one solve that was not held for a collision: the
    /// goals are resolved, then the optimizer's outcome is committed.
    pub open spec fn solved(self, solve: Solve) -> StateStore {
        self.with_goals(solve.requested, solve.anchored).commit(solve.solution)
    }

    /// The store after each of `solves` in turn, none of them blocked.
    pub open spec fn solved_all(self, solves: Seq<Solve>) -> StateStore
        decreases solves.len(),
    {
        if solves.len() == 0 {
            self
        } else {
            self.solved_all(solves.drop_last()).solved(solves.last())
        }
    }

    /// The solution that is current after the first `k` of `solves`: for
    /// `k == 0`, the one that was current before any of them.
    pub open spec fn output(self, solves: Seq<Solve>, k: int) -> Seq<u64> {
        if k <= 0 {
            self.current
        } else {
            solves[k - 1].solution
        }
    }
}

/// One solve that was not blocked: the request, the same request taken
/// relative to the anchors, and the solution that the optimizer came to.
pub struct Solve {
    pub requested: Seq<Pose>,
    pub anchored: Seq<Pose>,
    pub solution: Seq<u64>,
}

} // verus!
