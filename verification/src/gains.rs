//! The gains of the impedance law.

use vstd::prelude::*;
use crate::binary64::Binary64;

verus! {

/// Number of task-space degrees of freedom: three of translation, then
/// three of rotation.
pub const TASK_DIMS: usize = 6;

/// Number of entries of a task-space gain matrix.
pub const GAIN_ENTRIES: usize = 36;

/// Stiffness and damping of the impedance law, one scalar each for
/// translation and for rotation. A controller keeps the profile it was made
/// with.
#[derive(Clone, Copy, Debug, PartialEq, Eq, Structural)]
pub struct GainProfile {
    pub translational_stiffness: Binary64,
    pub rotational_stiffness: Binary64,
    pub translational_damping: Binary64,
    pub rotational_damping: Binary64,
}

/// Entry `index` of the 6x6 diagonal matrix, written column by column, that
/// has `translational` on the first three places of its diagonal and
/// `rotational` on the last three. Off the diagonal it is zero.
pub open spec fn diagonal_entry(translational: Binary64, rotational: Binary64, index: int) -> Binary64 {
    let column = index / 6;
    let row = index % 6;
    if row != column {
        Binary64 { bits: 0 }
    } else if row < 3 {
        translational
    } else {
        rotational
    }
}

/// The 6x6 diagonal matrix of two gains, column by column.
pub open spec fn diagonal(translational: Binary64, rotational: Binary64) -> Seq<Binary64> {
    Seq::new(GAIN_ENTRIES as nat, |index: int| diagonal_entry(translational, rotational, index))
}

/// Expands two gains into their 6x6 diagonal matrix, column by column.
pub fn expand(translational: Binary64, rotational: Binary64) -> (matrix: [Binary64; 36])
    ensures
        matrix@ == diagonal(translational, rotational),
{
    let mut matrix: [Binary64; 36] = [Binary64 { bits: 0 };36];
    let mut index: usize = 0;
    while index < GAIN_ENTRIES
        invariant
            0 <= index <= GAIN_ENTRIES,
            forall|i: int|
                0 <= i < index ==> #[trigger] matrix@[i] == diagonal_entry(
                    translational,
                    rotational,
                    i,
                ),
        decreases GAIN_ENTRIES - index,
    {
        let column: usize = index / TASK_DIMS;
        let row: usize = index % TASK_DIMS;
        if row == column {
            if row < 3 {
                matrix[index] = translational;
            } else {
                matrix[index] = rotational;
            }
        } else {
            matrix[index] = Binary64 { bits: 0 };
        }
        index = index + 1;
    }
    assert(matrix@ =~= diagonal(translational, rotational));
    matrix
}

impl GainProfile {
    /// The profile with the given four gains.
    pub fn new(
        translational_stiffness: Binary64,
        rotational_stiffness: Binary64,
        translational_damping: Binary64,
        rotational_damping: Binary64,
    ) -> (gains: Self)
        ensures
            gains == (GainProfile {
                translational_stiffness,
                rotational_stiffness,
                translational_damping,
                rotational_damping,
            }),
    {
        GainProfile {
            translational_stiffness,
            rotational_stiffness,
            translational_damping,
            rotational_damping,
        }
    }

    /// The stiffness matrix of the task space.
    pub fn stiffness(&self) -> (matrix: [Binary64; 36])
        ensures
            matrix@ == diagonal(self.translational_stiffness, self.rotational_stiffness),
    {
        expand(self.translational_stiffness, self.rotational_stiffness)
    }

    /// The damping matrix of the task space.
    pub fn damping(&self) -> (matrix: [Binary64; 36])
        ensures
            matrix@ == diagonal(self.translational_damping, self.rotational_damping),
    {
        expand(self.translational_damping, self.rotational_damping)
    }
}

} // verus!
