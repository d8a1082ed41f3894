//! The solver's state and the three requests it answers: recover, solve, commit.

use vstd::prelude::*;
use crate::error::IkError;
use crate::pose::{unflatten, Orientation, Pose, Position};
use crate::state::StateStore;

verus! {

/// How many iterations the optimizer gets for one solve.
pub const MAX_ITER: usize = 100;

/// What the caller is to do once the goals of a solve are resolved.
#[derive(Debug, PartialEq, Eq)]
pub enum SolveStep {
    /// The configuration is in collision. Nothing is to be optimized: the
    /// answer is the solution of the call before, held here.
    Blocked(Vec<u64>),
    /// The optimizer is to refine `candidate` for at most `max_iter`
    /// iterations, and the outcome is to be committed.
    Optimize { candidate: Vec<u64>, max_iter: usize },
}

/// The mutable part of the solver.
struct Vars {
    init_state: Option<Vec<u64>>,
    anchors: Vec<Pose>,
    goals: Vec<Pose>,
    xopt: Vec<u64>,
    prev_state: Vec<u64>,
    prev_state2: Vec<u64>,
    prev_state3: Vec<u64>,
}

/// One solver: the robot's dimensions, the two frame modes, and the state that
/// successive calls read and write.
pub struct RelaxedIK {
    num_chains: usize,
    num_dof: usize,
    joint_names: Vec<String>,
    position_mode_relative: bool,
    rotation_mode_relative: bool,
    vars: Vars,
}

/// A copy of a vector of plain values.
fn copy_of<T: Copy>(v: &Vec<T>) -> (r: Vec<T>)
    ensures
        r@ == v@,
{
    let mut r: Vec<T> = Vec::with_capacity(v.len());
    let mut i: usize = 0;
    while i < v.len()
        invariant
            i <= v.len(),
            r@ == v@.subrange(0, i as int),
        decreases v.len() - i,
    {
        r.push(v[i]);
        i += 1;
    }
    r
}

impl View for RelaxedIK {
    type V = StateStore;

    closed spec fn view(&self) -> StateStore {
        StateStore {
            num_chains: self.num_chains as nat,
            num_dof: self.num_dof as nat,
            joint_names: self.joint_names@,
            position_mode_relative: self.position_mode_relative,
            rotation_mode_relative: self.rotation_mode_relative,
            init_state: match self.vars.init_state {
                Some(start) => Some(start@),
                None => None,
            },
            anchors: self.vars.anchors@,
            goals: self.vars.goals@,
            current: self.vars.xopt@,
            history: seq![self.vars.prev_state@, self.vars.prev_state2@, self.vars.prev_state3@],
        }
    }
}

impl RelaxedIK {
    /// No solver exists whose store is not well formed.
    #[verifier::type_invariant]
    spec fn inv(self) -> bool {
        self@.well_formed()
    }

    /// A solver for a robot of `num_chains` chains and `num_dof` joints. It has
    /// no anchors yet: a recovery must come before the first solve.
    pub fn new(
        num_chains: usize,
        num_dof: usize,
        joint_names: Vec<String>,
        position_mode_relative: bool,
        rotation_mode_relative: bool,
    ) -> (ik: RelaxedIK)
        ensures
            ik@ == StateStore::fresh(
                num_chains as nat,
                num_dof as nat,
                joint_names@,
                position_mode_relative,
                rotation_mode_relative,
            ),
            ik@.well_formed(),
            !ik@.recovered(),
    {
        RelaxedIK {
            num_chains,
            num_dof,
            joint_names,
            position_mode_relative,
            rotation_mode_relative,
            vars: Vars {
                init_state: None,
                anchors: Vec::new(),
                goals: Vec::new(),
                xopt: Vec::new(),
                prev_state: Vec::new(),
                prev_state2: Vec::new(),
                prev_state3: Vec::new(),
            },
        }
    }

    /// How many kinematic chains the robot has.
    pub fn num_chains(&self) -> (n: usize)
        ensures
            n == self@.num_chains,
    {
        self.num_chains
    }

    /// How many joints a configuration has.
    pub fn num_dof(&self) -> (n: usize)
        ensures
            n == self@.num_dof,
    {
        self.num_dof
    }

    /// The robot's joint names, in declaration order.
    pub fn joint_names(&self) -> (names: &Vec<String>)
        ensures
            names@ == self@.joint_names,
    {
        &self.joint_names
    }

    /// Whether a requested position is a displacement from the anchor.
    pub fn position_mode_relative(&self) -> (b: bool)
        ensures
            b == self@.position_mode_relative,
    {
        self.position_mode_relative
    }

    /// Whether a requested rotation is composed onto the anchor.
    pub fn rotation_mode_relative(&self) -> (b: bool)
        ensures
            b == self@.rotation_mode_relative,
    {
        self.rotation_mode_relative
    }

    /// Whether a recovery has succeeded yet. Solving and committing ask for it.
    pub fn is_recovered(&self) -> (b: bool)
        ensures
            b == self@.recovered(),
            self@.well_formed(),
    {
        proof {
            use_type_invariant(self);
        }
        self.vars.init_state.is_some()
    }

    /// The starting configuration of the last recovery, if there was one.
    pub fn init_state(&self) -> (start: Option<&Vec<u64>>)
        ensures
            start is Some <==> self@.init_state is Some,
            start is Some ==> start->0@ == self@.init_state->0,
    {
        self.vars.init_state.as_ref()
    }

    /// Per chain, the pose recorded at the last recovery.
    pub fn anchors(&self) -> (poses: &Vec<Pose>)
        ensures
            poses@ == self@.anchors,
    {
        &self.vars.anchors
    }

    /// Per chain, the pose the optimizer is asked to reach.
    pub fn goals(&self) -> (poses: &Vec<Pose>)
        ensures
            poses@ == self@.goals,
    {
        &self.vars.goals
    }

    /// The latest committed solution.
    pub fn xopt(&self) -> (config: &Vec<u64>)
        ensures
            config@ == self@.current,
    {
        &self.vars.xopt
    }

    /// The committed solution before the current one.
    pub fn prev_state(&self) -> (config: &Vec<u64>)
        ensures
            config@ == self@.history[0],
    {
        &self.vars.prev_state
    }

    /// The committed solution two before the current one.
    pub fn prev_state2(&self) -> (config: &Vec<u64>)
        ensures
            config@ == self@.history[1],
    {
        &self.vars.prev_state2
    }

    /// The committed solution three before the current one.
    pub fn prev_state3(&self) -> (config: &Vec<u64>)
        ensures
            config@ == self@.history[2],
    {
        &self.vars.prev_state3
    }

    /// The configuration that a recovery from `init_state` starts from, for
    /// the caller to run forward kinematics on: `init_state` itself, or the
    /// recorded starting configuration where `init_state` is empty.
    pub fn starting_config(&self, init_state: &Vec<u64>) -> (r: Result<Vec<u64>, IkError>)
        ensures
            match self@.starting_config(init_state@) {
                Ok(config) => r is Ok && r->Ok_0@ == config,
                Err(e) => r == Err::<Vec<u64>, IkError>(e),
            },
            r is Ok ==> r->Ok_0@.len() == self@.num_dof,
    {
        proof {
            use_type_invariant(self);
        }
        if init_state.len() == 0 {
            match &self.vars.init_state {
                None => Err(IkError::InvalidInput),
                Some(start) => Ok(copy_of(start)),
            }
        } else if init_state.len() == self.num_dof {
            Ok(copy_of(init_state))
        } else {
            Err(IkError::ShapeMismatch)
        }
    }

    /// Re-anchors the solver at a starting configuration.
    ///
    /// `init_state` is that configuration, or empty for the one recorded at
    /// the last recovery. `ee_poses` holds, per chain, the forward-kinematics
    /// pose of the configuration that [`RelaxedIK::starting_config`] names.
    /// On success the anchors and the goals are `ee_poses`, and the solution
    /// and its whole history are the starting configuration, which is recorded
    /// for later recoveries. A refused request leaves the solver as it was.
    pub fn recover_vars(&mut self, init_state: &Vec<u64>, ee_poses: &Vec<Pose>) -> (r: Result<
        (),
        IkError,
    >)
        ensures
            match old(self)@.recover(init_state@, ee_poses@) {
                Ok(store) => r is Ok && final(self)@ == store,
                Err(e) => r == Err::<(), IkError>(e) && final(self)@ == old(self)@,
            },
            r is Ok ==> final(self)@.shaped(),
            r is Ok ==> final(self)@.recovered(),
            r is Ok ==> final(self)@.goals == final(self)@.anchors,
            final(self)@.well_formed(),
    {
        proof {
            use_type_invariant(&*self);
        }
        let config = match self.starting_config(init_state) {
            Ok(config) => config,
            Err(e) => {
                return Err(e);
            },
        };
        if ee_poses.len() != self.num_chains {
            return Err(IkError::ShapeMismatch);
        }
        self.vars = Vars {
            init_state: Some(copy_of(&config)),
            anchors: copy_of(ee_poses),
            goals: copy_of(ee_poses),
            xopt: copy_of(&config),
            prev_state: copy_of(&config),
            prev_state2: copy_of(&config),
            prev_state3: config,
        };
        Ok(())
    }

    /// Reads a flattened goal request: three position components per chain in
    /// `pos_goal`, four orientation components per chain, scalar part first, in
    /// `quat_goal`. Any other length is refused.
    pub fn solve(&self, pos_goal: &Vec<u64>, quat_goal: &Vec<u64>) -> (r: Result<
        Vec<Pose>,
        IkError,
    >)
        ensures
            r is Ok <==> pos_goal@.len() == 3 * self@.num_chains && quat_goal@.len() == 4
                * self@.num_chains,
            r is Ok ==> r->Ok_0@ == unflatten(pos_goal@, quat_goal@, self@.num_chains),
            r is Err ==> r->Err_0 == IkError::ShapeMismatch,
    {
        let n = self.num_chains;
        if pos_goal.len() % 3 != 0 || pos_goal.len() / 3 != n {
            return Err(IkError::ShapeMismatch);
        }
        if quat_goal.len() % 4 != 0 || quat_goal.len() / 4 != n {
            return Err(IkError::ShapeMismatch);
        }
        let mut poses: Vec<Pose> = Vec::with_capacity(n);
        let mut i: usize = 0;
        while i < n
            invariant
                i <= n,
                n == self@.num_chains,
                pos_goal.len() == 3 * n,
                quat_goal.len() == 4 * n,
                poses@ == unflatten(pos_goal@, quat_goal@, i as nat),
            decreases n - i,
        {
            let position = Position {
                x: pos_goal[3 * i],
                y: pos_goal[3 * i + 1],
                z: pos_goal[3 * i + 2],
            };
            let orientation = Orientation {
                w: quat_goal[4 * i],
                i: quat_goal[4 * i + 1],
                j: quat_goal[4 * i + 2],
                k: quat_goal[4 * i + 3],
            };
            poses.push(Pose { position, orientation });
            i += 1;
        }
        Ok(poses)
    }

    /// Resolves the goals of one solve and decides whether to optimize.
    ///
    /// `ee_sub` holds the requested pose of each chain. `anchored` holds, per
    /// chain, the same request taken relative to the anchor: the anchor's
    /// position displaced by the requested one, and the requested rotation
    /// composed onto the anchor's, the requested one on the left. Each half of
    /// a goal is taken from `anchored` where its mode is relative and from
    /// `ee_sub` where it is absolute; `anchored` is not read when neither is.
    /// `in_collision` is the collision world's answer for the current
    /// configuration.
    ///
    /// The goals are written whether or not the solve is blocked. Anchors,
    /// solution and history are left alone: the solution moves only when the
    /// optimizer's outcome is handed to [`RelaxedIK::commit`].
    pub fn solve_helper(
        &mut self,
        ee_sub: &Vec<Pose>,
        anchored: &Vec<Pose>,
        in_collision: bool,
    ) -> (r: Result<SolveStep, IkError>)
        requires
            old(self)@.recovered(),
        ensures
            r is Ok <==> old(self)@.fits(ee_sub@, anchored@),
            r is Err ==> r->Err_0 == IkError::ShapeMismatch && final(self)@ == old(self)@,
            r is Ok ==> final(self)@ == old(self)@.with_goals(ee_sub@, anchored@),
            r is Ok && in_collision ==> (r->Ok_0 matches SolveStep::Blocked(last) && last@
                == old(self)@.current),
            r is Ok && !in_collision ==> (r->Ok_0 matches SolveStep::Optimize { candidate, max_iter }
                && candidate@ == old(self)@.current && max_iter == MAX_ITER),
            r is Ok ==> final(self)@.shaped(),
            r is Ok ==> forall|i: int|
                0 <= i < ee_sub@.len() ==> (#[trigger] final(self)@.goals[i]).position == (
                if old(self)@.position_mode_relative {
                    anchored@[i].position
                } else {
                    ee_sub@[i].position
                }),
            r is Ok ==> forall|i: int|
                0 <= i < ee_sub@.len() ==> (#[trigger] final(self)@.goals[i]).orientation == (
                if old(self)@.rotation_mode_relative {
                    anchored@[i].orientation
                } else {
                    ee_sub@[i].orientation
                }),
            final(self)@.anchors == old(self)@.anchors,
            final(self)@.current == old(self)@.current,
            final(self)@.history == old(self)@.history,
            final(self)@.well_formed(),
    {
        proof {
            use_type_invariant(&*self);
        }
        let n = self.num_chains;
        let relative = self.position_mode_relative || self.rotation_mode_relative;
        if ee_sub.len() != n || (relative && anchored.len() != n) {
            return Err(IkError::ShapeMismatch);
        }
        let ghost before = self@;
        let mut goals: Vec<Pose> = Vec::with_capacity(n);
        let mut i: usize = 0;
        while i < n
            invariant
                i <= n,
                n == ee_sub@.len(),
                relative ==> n == anchored@.len(),
                relative == (self.position_mode_relative || self.rotation_mode_relative),
                before == self@,
                goals@.len() == i,
                forall|k: int|
                    0 <= k < i ==> #[trigger] goals@[k] == before.resolved_goal(
                        ee_sub@[k],
                        anchored@[k],
                    ),
            decreases n - i,
        {
            let requested = ee_sub[i];
            let position = if self.position_mode_relative {
                anchored[i].position
            } else {
                requested.position
            };
            let orientation = if self.rotation_mode_relative {
                anchored[i].orientation
            } else {
                requested.orientation
            };
            goals.push(Pose { position, orientation });
            i += 1;
        }
        self.vars.goals = goals;
        let last = copy_of(&self.vars.xopt);
        if in_collision {
            Ok(SolveStep::Blocked(last))
        } else {
            Ok(SolveStep::Optimize { candidate: last, max_iter: MAX_ITER })
        }
    }

    /// Commits the outcome of a solve that was not blocked: `solution`
    /// becomes the current solution, and the one before it enters the history
    /// in front, pushing the oldest of the three out. Returns the new current
    /// solution.
    pub fn commit(&mut self, solution: Vec<u64>) -> (out: Vec<u64>)
        requires
            old(self)@.recovered(),
            solution@.len() == old(self)@.num_dof,
        ensures
            final(self)@ == old(self)@.commit(solution@),
            final(self)@.shaped(),
            final(self)@.well_formed(),
            final(self)@.anchors == old(self)@.anchors,
            final(self)@.goals == old(self)@.goals,
            out@ == solution@,
    {
        proof {
            use_type_invariant(&*self);
        }
        let out = copy_of(&solution);
        self.vars.prev_state3 = copy_of(&self.vars.prev_state2);
        self.vars.prev_state2 = copy_of(&self.vars.prev_state);
        self.vars.prev_state = copy_of(&self.vars.xopt);
        self.vars.xopt = solution;
        out
    }
}

} // verus!
