//! The choice between the two quaternions that stand for one orientation.
//!
//! A quaternion and its negation describe the same rotation. Before the
//! orientation error is formed, the current orientation is given the sign
//! that puts it on the side of the desired one, so that the error describes
//! the shorter of the two rotations.

use vstd::prelude::*;
use crate::binary64::{Binary64, Number};

verus! {

/// Number of coordinates of a quaternion.
pub const QUATERNION_LEN: usize = 4;

/// Every coordinate with the opposite sign.
pub open spec fn negated_all(coordinates: Seq<Binary64>) -> Seq<Binary64> {
    Seq::new(coordinates.len(), |i: int| coordinates[i].negated())
}

/// The quaternion that stands for the current orientation in the error:
/// `current` negated where its dot product with the desired quaternion,
/// `alignment`, is below zero, and `current` itself otherwise.
pub open spec fn shorter_path_of(current: Seq<Binary64>, alignment: Binary64) -> Seq<Binary64> {
    if alignment.below_zero() {
        negated_all(current)
    } else {
        current
    }
}

/// Picks the quaternion of the current orientation that lies on the side of
/// the desired one. `alignment` is the dot product of the two.
pub fn shorter_path(current: [Binary64; 4], alignment: Binary64) -> (chosen: [Binary64; 4])
    ensures
        chosen@ == shorter_path_of(current@, alignment),
{
    if !alignment.is_below_zero() {
        return current;
    }
    let mut chosen: [Binary64; 4] = current;
    let mut i: usize = 0;
    while i < QUATERNION_LEN
        invariant
            0 <= i <= QUATERNION_LEN,
            forall|j: int| 0 <= j < i ==> chosen@[j] == (#[trigger] current@[j]).negated(),
            forall|j: int| i <= j < QUATERNION_LEN ==> chosen@[j] == #[trigger] current@[j],
        decreases QUATERNION_LEN - i,
    {
        chosen[i] = current[i].negate();
        i = i + 1;
    }
    assert(chosen@ =~= negated_all(current@));
    chosen
}

/// The choice does not depend on which of the two quaternions of the current
/// orientation one starts from. Negating the current quaternion negates its
/// dot product with the desired one, and the same quaternion is chosen. A dot
/// product of zero, or one that is no number, prefers neither side and is
/// left out.
pub proof fn lemma_double_cover(current: Seq<Binary64>, alignment: Binary64)
    requires
        !(alignment@ is Nan),
        alignment@ != (Number::Finite { value: 0 as real }),
    ensures
        shorter_path_of(negated_all(current), alignment.negated()) == shorter_path_of(
            current,
            alignment,
        ),
        alignment.below_zero() ==> shorter_path_of(current, alignment) == negated_all(current),
{
    alignment.lemma_negated();
    assert forall|i: int| 0 <= i < current.len() implies (#[trigger] current[i]).negated().negated()
        == current[i] by {
        current[i].lemma_negated();
    }
    assert(negated_all(negated_all(current)) =~= current);
}

} // verus!
