//! The safety governor: saturation of every commanded joint torque to the
//! hardware bound, and the stop command that ends a control session.

use vstd::prelude::*;
use vstd::arithmetic::power2::*;
use crate::binary64::{
    lemma_magnitude_steps_increase, lemma_steps_value, lemma_whole_value, magnitude_steps,
    steps_per_unit, Binary64, Number, INFINITY_BITS, SIGN_BIT,
};

verus! {

/// Number of joints of the manipulator.
pub const JOINTS: usize = 7;

/// Encoding of the torque bound, `12.0`.
pub const TORQUE_LIMIT_BITS: u64 = 0x4028_0000_0000_0000;

/// Encoding of the negated torque bound, `-12.0`.
pub const NEG_TORQUE_LIMIT_BITS: u64 = 0xC028_0000_0000_0000;

/// The torque bound: twelve, in the unit of torque of the device.
pub open spec fn torque_limit() -> real {
    12 as real
}

/// The number is finite and lies in the closed interval `[-12, 12]`.
pub open spec fn within_limit(x: Binary64) -> bool {
    match x@ {
        Number::Finite { value } => -torque_limit() <= value <= torque_limit(),
        _ => false,
    }
}

/// The torque that is commanded in place of `x`: `x` itself where it lies in
/// `[-12, 12]`, the nearer bound where it lies outside, and zero where it is
/// no number at all.
pub open spec fn saturated(x: Binary64) -> Binary64 {
    match x@ {
        Number::Nan => Binary64 { bits: 0 },
        Number::PosInfinity => Binary64 { bits: TORQUE_LIMIT_BITS },
        Number::NegInfinity => Binary64 { bits: NEG_TORQUE_LIMIT_BITS },
        Number::Finite { value } => if value > torque_limit() {
            Binary64 { bits: TORQUE_LIMIT_BITS }
        } else if value < -torque_limit() {
            Binary64 { bits: NEG_TORQUE_LIMIT_BITS }
        } else {
            x
        },
    }
}

/// `TORQUE_LIMIT_BITS` encodes twelve, and `NEG_TORQUE_LIMIT_BITS` minus
/// twelve.
pub proof fn lemma_torque_limit_encoding()
    ensures
        magnitude_steps(TORQUE_LIMIT_BITS as int) == 12 * steps_per_unit(),
        (Binary64 { bits: TORQUE_LIMIT_BITS })@ == (Number::Finite { value: torque_limit() }),
        (Binary64 { bits: NEG_TORQUE_LIMIT_BITS })@ == (Number::Finite { value: -torque_limit() }),
{
    lemma2_to64();
    lemma2_to64_rest();
    lemma_pow2_adds(51, 1025);
    lemma_pow2_adds(2, 1074);
    assert(TORQUE_LIMIT_BITS as int / 0x0010_0000_0000_0000 == 1026);
    assert(TORQUE_LIMIT_BITS as int % 0x0010_0000_0000_0000 == 0x8_0000_0000_0000);
    let p = pow2(1025) as int;
    assert(pow2(51) == 0x8_0000_0000_0000);
    assert((0x0010_0000_0000_0000 + 0x8_0000_0000_0000) * p == 3 * (0x8_0000_0000_0000 * p))
        by (nonlinear_arith);
    assert(pow2(1076) == 4 * pow2(1074));
    lemma_whole_value(12);
    lemma_steps_value(12 * steps_per_unit(), 0);
}

/// Saturation read off the encoding: a magnitude above that of infinity is
/// no number, one above that of twelve is out of bounds, and every other
/// encoding is kept.
pub proof fn lemma_saturated_by_encoding(x: Binary64)
    ensures
        saturated(x) == if x.magnitude() > INFINITY_BITS {
            Binary64 { bits: 0 }
        } else if x.magnitude() > TORQUE_LIMIT_BITS {
            if x.sign_negative() {
                Binary64 { bits: NEG_TORQUE_LIMIT_BITS }
            } else {
                Binary64 { bits: TORQUE_LIMIT_BITS }
            }
        } else {
            x
        },
        within_limit(saturated(x)),
{
    let magnitude = x.magnitude();
    let limit = 12 * steps_per_unit();
    lemma_torque_limit_encoding();
    if magnitude < TORQUE_LIMIT_BITS {
        lemma_magnitude_steps_increase(magnitude, TORQUE_LIMIT_BITS as int);
    }
    if TORQUE_LIMIT_BITS < magnitude < INFINITY_BITS {
        lemma_magnitude_steps_increase(TORQUE_LIMIT_BITS as int, magnitude);
    }
    lemma_whole_value(12);
    lemma_steps_value(x.steps(), limit);
    lemma_steps_value(-limit, x.steps());
}

/// Saturation changes nothing that is already within the bound.
pub proof fn lemma_saturated_idempotent(x: Binary64)
    ensures
        saturated(saturated(x)) == saturated(x),
        within_limit(x) ==> saturated(x) == x,
{
    lemma_saturated_by_encoding(x);
    lemma_saturated_by_encoding(saturated(x));
}

/// Saturates one torque component.
pub fn clamp_component(x: Binary64) -> (r: Binary64)
    ensures
        r == saturated(x),
        within_limit(r),
{
    let bits: u64 = x.to_bits();
    let negative: bool = bits >= SIGN_BIT;
    let magnitude: u64 = if negative {
        bits - SIGN_BIT
    } else {
        bits
    };
    proof {
        lemma_saturated_by_encoding(x);
    }
    if magnitude > INFINITY_BITS {
        Binary64::from_bits(0)
    } else if magnitude > TORQUE_LIMIT_BITS {
        if negative {
            Binary64::from_bits(NEG_TORQUE_LIMIT_BITS)
        } else {
            Binary64::from_bits(TORQUE_LIMIT_BITS)
        }
    } else {
        x
    }
}

/// The all-zero torque vector.
pub open spec fn zero_torques() -> Seq<Binary64> {
    Seq::new(JOINTS as nat, |i: int| Binary64 { bits: 0 })
}

/// The torque vector, saturated component by component.
pub open spec fn clamped(torques: Seq<Binary64>) -> Seq<Binary64> {
    Seq::new(torques.len(), |i: int| saturated(torques[i]))
}

/// Every component is finite and lies in `[-12, 12]`.
pub open spec fn all_within_limit(torques: Seq<Binary64>) -> bool {
    forall|i: int| 0 <= i < torques.len() ==> within_limit(#[trigger] torques[i])
}

/// Saturates every component of a torque vector.
pub fn clamp(torques: [Binary64; 7]) -> (r: [Binary64; 7])
    ensures
        r@ == clamped(torques@),
        all_within_limit(r@),
{
    let mut out: [Binary64; 7] = torques;
    let mut i: usize = 0;
    while i < JOINTS
        invariant
            0 <= i <= JOINTS,
            forall|j: int| 0 <= j < i ==> out@[j] == saturated(#[trigger] torques@[j]),
            forall|j: int| i <= j < JOINTS ==> out@[j] == #[trigger] torques@[j],
        decreases JOINTS - i,
    {
        out[i] = clamp_component(torques[i]);
        i = i + 1;
    }
    proof {
        assert(out@ =~= clamped(torques@));
        assert forall|j: int| 0 <= j < out@.len() implies within_limit(#[trigger] out@[j]) by {
            lemma_saturated_by_encoding(torques@[j]);
        }
    }
    out
}

/// The all-zero torque vector is within the bound, so clamping keeps it.
pub proof fn lemma_clamped_zero()
    ensures
        clamped(zero_torques()) == zero_torques(),
        all_within_limit(zero_torques()),
{
    let zero = Binary64 { bits: 0 };
    lemma_saturated_by_encoding(zero);
    assert(clamped(zero_torques()) =~= zero_torques());
}

/// What is handed to the device at the end of a cycle.
#[derive(Clone, Copy, Debug, PartialEq, Eq)]
pub struct TorqueCommand {
    /// The torque of each joint.
    pub torques: [Binary64; 7],
    /// The control session ends with this command.
    pub motion_finished: bool,
}

/// The command of a cycle whose raw torques are `raw`: the stop command once
/// nobody is left who could send a target, the saturated torques otherwise.
pub open spec fn governed(raw: Seq<Binary64>, commanders_gone: bool) -> (Seq<Binary64>, bool) {
    if commanders_gone {
        (zero_torques(), true)
    } else {
        (clamped(raw), false)
    }
}

impl TorqueCommand {
    /// Zero torque on every joint; the session goes on.
    pub fn idle() -> (r: Self)
        ensures
            r.torques@ == zero_torques(),
            !r.motion_finished,
    {
        let r = TorqueCommand { torques: [Binary64 { bits: 0 };7], motion_finished: false };
        assert(r.torques@ =~= zero_torques());
        r
    }

    /// Zero torque on every joint; the session ends.
    pub fn stop() -> (r: Self)
        ensures
            r.torques@ == zero_torques(),
            r.motion_finished,
    {
        let r = TorqueCommand { torques: [Binary64 { bits: 0 };7], motion_finished: true };
        assert(r.torques@ =~= zero_torques());
        r
    }
}

/// Turns the raw torques of a cycle into the command for the device.
///
/// Every cycle's output passes through here. The torques are saturated, and
/// once every sender of targets is gone the command is the stop command.
pub fn govern(raw: [Binary64; 7], commanders_gone: bool) -> (out: TorqueCommand)
    ensures
        (out.torques@, out.motion_finished) == governed(raw@, commanders_gone),
        all_within_limit(out.torques@),
{
    proof {
        lemma_clamped_zero();
    }
    if commanders_gone {
        TorqueCommand::stop()
    } else {
        TorqueCommand { torques: clamp(raw), motion_finished: false }
    }
}

} // verus!
