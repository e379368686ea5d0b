//! The values that cross the bridge: the state snapshot of a cycle and the
//! target that the impedance law tracks.

use vstd::prelude::*;
use crate::binary64::Binary64;

verus! {

/// Number of entries of a rigid transform written as a 4x4 homogeneous
/// matrix, column by column.
pub const TRANSFORM_LEN: usize = 16;

/// The state of the arm in one control cycle: a read-only snapshot.
#[derive(Clone, Copy, Debug, PartialEq, Eq)]
pub struct RobotState {
    /// The position of each joint.
    pub joints: [Binary64; 7],
    /// The pose of the end effector, column by column.
    pub transform: [Binary64; 16],
}

/// A desired pose of the end effector, column by column. It is the set-point
/// of the impedance law until another one replaces it.
#[derive(Clone, Copy, Debug, PartialEq, Eq)]
pub struct TargetCommand {
    pub transform: [Binary64; 16],
}

impl TargetCommand {
    /// The target with the given entries.
    pub fn new(transform: [Binary64; 16]) -> (target: Self)
        ensures
            target.transform == transform,
    {
        TargetCommand { transform }
    }

    /// Reads a target from a flattened matrix as it arrives from a client.
    /// A matrix that does not have sixteen entries is no transform and is
    /// refused.
    pub fn from_flat(flat: &Vec<Binary64>) -> (target: Option<Self>)
        ensures
            target is Some <==> flat@.len() == TRANSFORM_LEN,
            target is Some ==> target->0.transform@ == flat@,
    {
        if flat.len() != TRANSFORM_LEN {
            return None;
        }
        let mut transform: [Binary64; 16] = [Binary64 { bits: 0 };16];
        let mut i: usize = 0;
        while i < TRANSFORM_LEN
            invariant
                0 <= i <= TRANSFORM_LEN,
                flat@.len() == TRANSFORM_LEN,
                forall|j: int| 0 <= j < i ==> transform@[j] == #[trigger] flat@[j],
            decreases TRANSFORM_LEN - i,
        {
            transform[i] = flat[i];
            i = i + 1;
        }
        assert(transform@ =~= flat@);
        Some(TargetCommand { transform })
    }

    /// The entries of the target as a flattened matrix.
    pub fn to_flat(&self) -> (flat: Vec<Binary64>)
        ensures
            flat@ == self.transform@,
    {
        let mut flat: Vec<Binary64> = Vec::new();
        let mut i: usize = 0;
        while i < TRANSFORM_LEN
            invariant
                0 <= i <= TRANSFORM_LEN,
                flat@.len() == i,
                forall|j: int| 0 <= j < i ==> flat@[j] == #[trigger] self.transform@[j],
            decreases TRANSFORM_LEN - i,
        {
            flat.push(self.transform[i]);
            i = i + 1;
        }
        assert(flat@ =~= self.transform@);
        flat
    }
}

impl RobotState {
    /// The snapshot with the given joint positions and pose.
    pub fn new(joints: [Binary64; 7], transform: [Binary64; 16]) -> (state: Self)
        ensures
            state.joints == joints,
            state.transform == transform,
    {
        RobotState { joints, transform }
    }

    /// The pose of the snapshot as a target: holding it keeps the arm where
    /// it is.
    pub fn pose(&self) -> (target: TargetCommand)
        ensures
            target.transform == self.transform,
    {
        TargetCommand { transform: self.transform }
    }
}

} // verus!
