//! Frames that the display and simulation clients exchange with the
//! services: fixed layouts of little-endian binary64 numbers.

use vstd::prelude::*;
use crate::binary64::Binary64;
use crate::governor::JOINTS;

verus! {

/// Number of bytes of one binary64 number.
pub const NUMBER_LEN: usize = 8;

/// Number of bytes of the frame that answers a request for the drawable
/// size: width, then height.
pub const SIZE_FRAME_LEN: usize = 16;

/// Number of bytes of the frame that carries the joint positions.
pub const JOINTS_FRAME_LEN: usize = 56;

/// What the display client answers to a command.
#[derive(Clone, Copy, Debug, PartialEq, Eq)]
pub enum CommandResult {
    /// Width and height of the drawable area.
    DrawableSizeResult([Binary64; 2]),
}

/// The 64-bit number whose little-endian bytes are the eight bytes of
/// `bytes` that start at `start`.
pub open spec fn little_endian_at(bytes: Seq<u8>, start: int) -> int {
    bytes[start] + bytes[start + 1] * 0x100 + bytes[start + 2] * 0x1_0000 + bytes[start + 3]
        * 0x100_0000 + bytes[start + 4] * 0x1_0000_0000 + bytes[start + 5] * 0x100_0000_0000
        + bytes[start + 6] * 0x1_0000_0000_0000 + bytes[start + 7] * 0x100_0000_0000_0000
}

/// Byte `place` of the little-endian bytes of `bits`, `place` from 0 to 7.
pub open spec fn little_endian_byte(bits: int, place: int) -> int {
    if place == 0 {
        bits % 0x100
    } else if place == 1 {
        bits / 0x100 % 0x100
    } else if place == 2 {
        bits / 0x1_0000 % 0x100
    } else if place == 3 {
        bits / 0x100_0000 % 0x100
    } else if place == 4 {
        bits / 0x1_0000_0000 % 0x100
    } else if place == 5 {
        bits / 0x100_0000_0000 % 0x100
    } else if place == 6 {
        bits / 0x1_0000_0000_0000 % 0x100
    } else {
        bits / 0x100_0000_0000_0000 % 0x100
    }
}

/// Reads the number whose little-endian bytes start at `start`.
pub fn read_number(bytes: &[u8], start: usize) -> (number: Binary64)
    requires
        start + NUMBER_LEN <= bytes@.len(),
    ensures
        number.bits == little_endian_at(bytes@, start as int),
{
    let b0: u64 = bytes[start] as u64;
    let b1: u64 = bytes[start + 1] as u64;
    let b2: u64 = bytes[start + 2] as u64;
    let b3: u64 = bytes[start + 3] as u64;
    let b4: u64 = bytes[start + 4] as u64;
    let b5: u64 = bytes[start + 5] as u64;
    let b6: u64 = bytes[start + 6] as u64;
    let b7: u64 = bytes[start + 7] as u64;
    let low: u64 = b0 + b1 * 0x100 + b2 * 0x1_0000 + b3 * 0x100_0000;
    let high: u64 = b4 + b5 * 0x100 + b6 * 0x1_0000 + b7 * 0x100_0000;
    Binary64 { bits: low + high * 0x1_0000_0000 }
}

/// The bytes of a number, put together again, give the number.
pub proof fn lemma_little_endian_bytes(bits: u64)
    ensures
        forall|place: int|
            0 <= place < 8 ==> 0 <= #[trigger] little_endian_byte(bits as int, place) < 0x100,
        little_endian_byte(bits as int, 0) + little_endian_byte(bits as int, 1) * 0x100
            + little_endian_byte(bits as int, 2) * 0x1_0000 + little_endian_byte(bits as int, 3)
            * 0x100_0000 + little_endian_byte(bits as int, 4) * 0x1_0000_0000
            + little_endian_byte(bits as int, 5) * 0x100_0000_0000 + little_endian_byte(
            bits as int,
            6,
        ) * 0x1_0000_0000_0000 + little_endian_byte(bits as int, 7) * 0x100_0000_0000_0000
            == bits,
{
    let x = bits as int;
    let q1 = x / 0x100;
    let q2 = q1 / 0x100;
    let q3 = q2 / 0x100;
    let q4 = q3 / 0x100;
    let q5 = q4 / 0x100;
    let q6 = q5 / 0x100;
    let q7 = q6 / 0x100;
    assert(q2 == x / 0x1_0000);
    assert(q3 == x / 0x100_0000);
    assert(q4 == x / 0x1_0000_0000);
    assert(q5 == x / 0x100_0000_0000);
    assert(q6 == x / 0x1_0000_0000_0000);
    assert(q7 == x / 0x100_0000_0000_0000);
    assert(q7 < 0x100);
}

/// Appends the little-endian bytes of the number.
pub fn write_number(frame: &mut Vec<u8>, number: Binary64)
    ensures
        final(frame)@.len() == old(frame)@.len() + NUMBER_LEN,
        forall|i: int| 0 <= i < old(frame)@.len() ==> final(frame)@[i] == old(frame)@[i],
        forall|place: int|
            0 <= place < NUMBER_LEN ==> #[trigger] final(frame)@[old(frame)@.len() + place]
                == little_endian_byte(number.bits as int, place),
        little_endian_at(final(frame)@, old(frame)@.len() as int) == number.bits,
{
    let bits: u64 = number.bits;
    proof {
        lemma_little_endian_bytes(bits);
    }
    let b0: u8 = (bits % 0x100) as u8;
    let b1: u8 = (bits / 0x100 % 0x100) as u8;
    let b2: u8 = (bits / 0x1_0000 % 0x100) as u8;
    let b3: u8 = (bits / 0x100_0000 % 0x100) as u8;
    let b4: u8 = (bits / 0x1_0000_0000 % 0x100) as u8;
    let b5: u8 = (bits / 0x100_0000_0000 % 0x100) as u8;
    let b6: u8 = (bits / 0x1_0000_0000_0000 % 0x100) as u8;
    let b7: u8 = (bits / 0x100_0000_0000_0000 % 0x100) as u8;
    assert(b0 == little_endian_byte(bits as int, 0));
    assert(b1 == little_endian_byte(bits as int, 1));
    assert(b2 == little_endian_byte(bits as int, 2));
    assert(b3 == little_endian_byte(bits as int, 3));
    assert(b4 == little_endian_byte(bits as int, 4));
    assert(b5 == little_endian_byte(bits as int, 5));
    assert(b6 == little_endian_byte(bits as int, 6));
    assert(b7 == little_endian_byte(bits as int, 7));
    frame.push(b0);
    frame.push(b1);
    frame.push(b2);
    frame.push(b3);
    frame.push(b4);
    frame.push(b5);
    frame.push(b6);
    frame.push(b7);
    proof {
        let start = old(frame)@.len() as int;
        assert(frame@[start] == b0);
        assert(frame@[start + 1] == b1);
        assert(frame@[start + 2] == b2);
        assert(frame@[start + 3] == b3);
        assert(frame@[start + 4] == b4);
        assert(frame@[start + 5] == b5);
        assert(frame@[start + 6] == b6);
        assert(frame@[start + 7] == b7);
    }
}

/// Reads the answer to a request for the drawable size. A frame of any
/// other length than sixteen bytes is no answer.
pub fn parse_drawable_size(frame: &[u8]) -> (result: Option<CommandResult>)
    ensures
        result is Some <==> frame@.len() == SIZE_FRAME_LEN,
        result matches Some(CommandResult::DrawableSizeResult(size)) ==> size[0].bits
            == little_endian_at(frame@, 0) && size[1].bits == little_endian_at(frame@, 8),
{
    if frame.len() != SIZE_FRAME_LEN {
        return None;
    }
    let width = read_number(frame, 0);
    let height = read_number(frame, NUMBER_LEN);
    Some(CommandResult::DrawableSizeResult([width, height]))
}

/// The joint positions that a request to move the simulated arm carries:
/// the given values, in order, and zero for every joint that has none.
pub open spec fn joints_of(values: Seq<Binary64>) -> Seq<Binary64> {
    Seq::new(
        JOINTS as nat,
        |i: int|
            if i < values.len() {
                values[i]
            } else {
                Binary64 { bits: 0 }
            },
    )
}

/// Reads joint positions from a request. More values than the arm has
/// joints are refused.
pub fn joints_from(values: &Vec<Binary64>) -> (joints: Option<[Binary64; 7]>)
    ensures
        joints is Some <==> values@.len() <= JOINTS,
        joints matches Some(read) ==> read@ == joints_of(values@),
{
    if values.len() > JOINTS {
        return None;
    }
    let mut joints: [Binary64; 7] = [Binary64 { bits: 0 };7];
    let mut i: usize = 0;
    while i < values.len()
        invariant
            0 <= i <= values@.len() <= JOINTS,
            forall|j: int| 0 <= j < i ==> joints@[j] == #[trigger] values@[j],
            forall|j: int| i <= j < JOINTS ==> (#[trigger] joints@[j]).bits == 0,
        decreases values@.len() - i,
    {
        joints[i] = values[i];
        i = i + 1;
    }
    assert(joints@ =~= joints_of(values@));
    Some(joints)
}

/// The frame that carries joint positions to the simulation client: the
/// seven numbers, each by its little-endian bytes.
pub fn joints_frame(joints: &[Binary64; 7]) -> (frame: Vec<u8>)
    ensures
        frame@.len() == JOINTS_FRAME_LEN,
        forall|j: int|
            0 <= j < JOINTS ==> little_endian_at(frame@, 8 * j) == (#[trigger] joints@[j]).bits,
{
    let mut frame: Vec<u8> = Vec::new();
    let mut i: usize = 0;
    while i < JOINTS
        invariant
            0 <= i <= JOINTS,
            frame@.len() == 8 * i,
            forall|j: int|
                0 <= j < i ==> little_endian_at(frame@, 8 * j) == (#[trigger] joints@[j]).bits,
        decreases JOINTS - i,
    {
        let ghost before = frame@;
        write_number(&mut frame, joints[i]);
        proof {
            assert forall|j: int| 0 <= j < i implies little_endian_at(frame@, 8 * j) == (
            #[trigger] joints@[j]).bits by {
                assert(little_endian_at(before, 8 * j) == joints@[j].bits);
            }
        }
        i = i + 1;
    }
    frame
}

} // verus!
