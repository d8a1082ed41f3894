//! End-effector poses, component by component.

use vstd::prelude::*;

verus! {

/// A point in space. Each component is the bit pattern of a double.
#[derive(Clone, Copy, Debug, PartialEq, Eq, Structural)]
pub struct Position {
    pub x: u64,
    pub y: u64,
    pub z: u64,
}

/// A rotation as a quaternion, scalar part first. Each component is the bit
/// pattern of a double.
#[derive(Clone, Copy, Debug, PartialEq, Eq, Structural)]
pub struct Orientation {
    pub w: u64,
    pub i: u64,
    pub j: u64,
    pub k: u64,
}

/// Where one chain's end effector is, or should be.
#[derive(Clone, Copy, Debug, PartialEq, Eq, Structural)]
pub struct Pose {
    pub position: Position,
    pub orientation: Orientation,
}

/// The pose of chain `i` in a flattened request: three position components per
/// chain in `pos`, four orientation components per chain in `quat`.
pub open spec fn pose_at(pos: Seq<u64>, quat: Seq<u64>, i: int) -> Pose {
    Pose {
        position: Position { x: pos[3 * i], y: pos[3 * i + 1], z: pos[3 * i + 2] },
        orientation: Orientation {
            w: quat[4 * i],
            i: quat[4 * i + 1],
            j: quat[4 * i + 2],
            k: quat[4 * i + 3],
        },
    }
}

/// The poses of `chains` chains read out of a flattened request.
pub open spec fn unflatten(pos: Seq<u64>, quat: Seq<u64>, chains: nat) -> Seq<Pose> {
    Seq::new(chains, |i: int| pose_at(pos, quat, i))
}

} // verus!
