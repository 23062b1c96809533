//! The barrel shifter.
//!
//! Each operation is defined for every amount a register can supply, 0 to
//! 255: a logical shift by 32 or more leaves nothing, an arithmetic one
//! leaves the sign, and a rotation counts modulo 32.

use vstd::prelude::*;
use crate::encoding::ShiftKind;

verus! {

/// Bit 31, the sign of a word read as a signed number.
pub const SIGN_BIT: u32 = 0x8000_0000;

/// Shift left; zeros come in from the right.
pub open spec fn logical_left(value: u32, amount: u32) -> u32 {
    if amount < 32 {
        value << amount
    } else {
        0
    }
}

/// Shift right; zeros come in from the left.
pub open spec fn logical_right(value: u32, amount: u32) -> u32 {
    if amount < 32 {
        value >> amount
    } else {
        0
    }
}

/// Shift right that copies the sign bit into the vacated positions: the
/// shift of the word read as a signed number.
pub open spec fn arithmetic_right(value: u32, amount: u32) -> u32 {
    if amount < 32 {
        ((value as i32) >> amount) as u32
    } else if value & SIGN_BIT == 0 {
        0
    } else {
        0xffff_ffff
    }
}

/// Rotation to the right: what leaves on the right comes back on the left.
pub open spec fn rotate_right(value: u32, amount: u32) -> u32 {
    let k = amount % 32;
    if k == 0 {
        value
    } else {
        (value >> k) | (value << ((32 - k) as u32))
    }
}

/// The shifter's output for `value` shifted by `amount`.
pub open spec fn shifted(kind: ShiftKind, value: u32, amount: u32) -> u32 {
    match kind {
        ShiftKind::LogicalLeft => logical_left(value, amount),
        ShiftKind::ArithmeticRight => arithmetic_right(value, amount),
        ShiftKind::LogicalRight => logical_right(value, amount),
        ShiftKind::RotateRight => rotate_right(value, amount),
    }
}

/// A shift by nothing changes nothing, whatever its kind.
pub proof fn lemma_shift_by_zero(kind: ShiftKind, value: u32)
    ensures
        shifted(kind, value, 0) == value,
{
    assert(value << 0u32 == value) by (bit_vector);
    assert(value >> 0u32 == value) by (bit_vector);
    assert(((value as i32) >> 0u32) as u32 == value) by (bit_vector);
}

/// Runs `value` through the shifter.
pub fn shift(kind: ShiftKind, value: u32, amount: u32) -> (out: u32)
    ensures
        out == shifted(kind, value, amount),
{
    match kind {
        ShiftKind::LogicalLeft => if amount < 32 {
            value << amount
        } else {
            0
        },
        ShiftKind::ArithmeticRight => if amount < 32 {
            ((value as i32) >> amount) as u32
        } else if value & SIGN_BIT == 0 {
            0
        } else {
            0xffff_ffff
        },
        ShiftKind::LogicalRight => if amount < 32 {
            value >> amount
        } else {
            0
        },
        ShiftKind::RotateRight => {
            let k = amount % 32;
            if k == 0 {
                value
            } else {
                (value >> k) | (value << (32 - k))
            }
        },
    }
}

} // verus!
