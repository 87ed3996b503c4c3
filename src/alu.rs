//! Arithmetic and the STATUS flags it sets.
use vstd::prelude::*;

use crate::inst::{ByteOrientedOperation, LiteralOrientedOperation};
use crate::reg::{FLAG_C, FLAG_DC, FLAG_Z};

verus! {

/// `st` with `flag` set when `on` holds and cleared otherwise; every other
/// bit is kept.
pub open spec fn flag_set(st: u8, flag: u8, on: bool) -> u8 {
    if on {
        st | flag
    } else {
        st & !flag
    }
}

pub fn set_flag(st: u8, flag: u8, on: bool) -> (r: u8)
    ensures
        r == flag_set(st, flag, on),
{
    if on {
        st | flag
    } else {
        st & !flag
    }
}

/// Whether the carry flag is set in `st`.
pub open spec fn carry_set(st: u8) -> bool {
    st & FLAG_C != 0
}

/// `a + b`, wrapping.
pub open spec fn add_result(a: u8, b: u8) -> u8 {
    ((a + b) % 256) as u8
}

/// Carry out of bit 7 of `a + b`.
pub open spec fn add_carry(a: u8, b: u8) -> bool {
    a + b > 0xFF
}

/// Carry out of bit 3 of `a + b`.
pub open spec fn add_digit_carry(a: u8, b: u8) -> bool {
    (a & 0x0F) + (b & 0x0F) > 0x0F
}

/// `a - b`, computed as `a + !b + 1`, wrapping.
pub open spec fn sub_result(a: u8, b: u8) -> u8 {
    ((a + !b + 1) % 256) as u8
}

/// Carry out of bit 7 of `a + !b + 1`: no borrow.
pub open spec fn sub_carry(a: u8, b: u8) -> bool {
    a + !b + 1 > 0xFF
}

/// Carry out of bit 3 of `a + !b + 1`: no borrow from the low nibble.
pub open spec fn sub_digit_carry(a: u8, b: u8) -> bool {
    (a & 0x0F) + (!b & 0x0F) + 1 > 0x0F
}

/// `v - 1`, wrapping.
pub open spec fn decremented(v: u8) -> u8 {
    ((v + 255) % 256) as u8
}

/// `v + 1`, wrapping.
pub open spec fn incremented(v: u8) -> u8 {
    ((v + 1) % 256) as u8
}

/// `st` with Z telling whether `res` is zero.
pub open spec fn zero_status(st: u8, res: u8) -> u8 {
    flag_set(st, FLAG_Z, res == 0)
}

/// `st` with Z, C and DC of an addition or subtraction.
pub open spec fn arith_status(st: u8, res: u8, c: bool, dc: bool) -> u8 {
    flag_set(flag_set(zero_status(st, res), FLAG_C, c), FLAG_DC, dc)
}

/// The result and the new STATUS of a byte-oriented operation on W and the
/// file register value `v`, from STATUS `st`.
pub open spec fn byte_alu(op: ByteOrientedOperation, w: u8, v: u8, st: u8) -> (u8, u8) {
    match op {
        ByteOrientedOperation::AddWf => (
            add_result(w, v),
            arith_status(st, add_result(w, v), add_carry(w, v), add_digit_carry(w, v)),
        ),
        ByteOrientedOperation::AndWf => (w & v, zero_status(st, w & v)),
        ByteOrientedOperation::ComplementF => (!v, zero_status(st, !v)),
        ByteOrientedOperation::DecrementF => (decremented(v), zero_status(st, decremented(v))),
        ByteOrientedOperation::DecrementFSkipIfZ => (decremented(v), st),
        ByteOrientedOperation::IncrementF => (incremented(v), zero_status(st, incremented(v))),
        ByteOrientedOperation::IncrementFSkipIfZ => (incremented(v), st),
        ByteOrientedOperation::OrWf => (w | v, zero_status(st, w | v)),
        ByteOrientedOperation::MoveF => (v, zero_status(st, v)),
        ByteOrientedOperation::RotateLeftFThroughCarry => (
            (v << 1u8) | (if carry_set(st) {
                1u8
            } else {
                0u8
            }),
            flag_set(st, FLAG_C, v & 0x80 != 0),
        ),
        ByteOrientedOperation::RotateRightFThroughCarry => (
            (v >> 1u8) | (if carry_set(st) {
                0x80u8
            } else {
                0u8
            }),
            flag_set(st, FLAG_C, v & 0x01 != 0),
        ),
        ByteOrientedOperation::SubtractWfromF => (
            sub_result(v, w),
            arith_status(st, sub_result(v, w), sub_carry(v, w), sub_digit_carry(v, w)),
        ),
        ByteOrientedOperation::SwapF => (((v & 0x0F) << 4u8) | (v >> 4u8), st),
        ByteOrientedOperation::XorWwithF => (w ^ v, zero_status(st, w ^ v)),
    }
}

/// Whether a byte-oriented operation skips the next instruction when its
/// result is zero.
pub open spec fn skips_on_zero(op: ByteOrientedOperation) -> bool {
    op is DecrementFSkipIfZ || op is IncrementFSkipIfZ
}

/// The new W and the new STATUS of a literal-oriented operation with literal
/// `k`, from W `w` and STATUS `st`.
pub open spec fn literal_alu(op: LiteralOrientedOperation, w: u8, k: u8, st: u8) -> (u8, u8) {
    match op {
        LiteralOrientedOperation::MoveLiteralToW => (k, st),
        LiteralOrientedOperation::ReturnWithLiteralInW => (k, st),
        LiteralOrientedOperation::AddLiteralToW => (
            add_result(w, k),
            arith_status(st, add_result(w, k), add_carry(w, k), add_digit_carry(w, k)),
        ),
        LiteralOrientedOperation::AndLiteralWithW => (w & k, zero_status(st, w & k)),
        LiteralOrientedOperation::OrLiteralWithW => (w | k, zero_status(st, w | k)),
        LiteralOrientedOperation::XorLiteralWithW => (w ^ k, zero_status(st, w ^ k)),
        LiteralOrientedOperation::SubtractWFromLiteral => (
            sub_result(k, w),
            arith_status(st, sub_result(k, w), sub_carry(k, w), sub_digit_carry(k, w)),
        ),
    }
}

fn add_with_flags(a: u8, b: u8, st: u8) -> (r: (u8, u8))
    ensures
        r == (add_result(a, b), arith_status(st, add_result(a, b), add_carry(a, b), add_digit_carry(a, b))),
{
    let res = ((a as u16 + b as u16) % 256) as u8;
    let c = a as u16 + b as u16 > 0xFF;
    let dc = (a & 0x0F) as u16 + (b & 0x0F) as u16 > 0x0F;
    let st = set_flag(set_flag(set_flag(st, FLAG_Z, res == 0), FLAG_C, c), FLAG_DC, dc);
    (res, st)
}

fn subtract_with_flags(a: u8, b: u8, st: u8) -> (r: (u8, u8))
    ensures
        r == (sub_result(a, b), arith_status(st, sub_result(a, b), sub_carry(a, b), sub_digit_carry(a, b))),
{
    let sum = a as u16 + (!b) as u16 + 1;
    let res = (sum % 256) as u8;
    let c = sum > 0xFF;
    let dc = (a & 0x0F) as u16 + (!b & 0x0F) as u16 + 1 > 0x0F;
    let st = set_flag(set_flag(set_flag(st, FLAG_Z, res == 0), FLAG_C, c), FLAG_DC, dc);
    (res, st)
}

fn with_zero(st: u8, res: u8) -> (r: (u8, u8))
    ensures
        r == (res, zero_status(st, res)),
{
    (res, set_flag(st, FLAG_Z, res == 0))
}

/// Computes `byte_alu`.
pub fn byte_operation(op: ByteOrientedOperation, w: u8, v: u8, st: u8) -> (r: (u8, u8))
    ensures
        r == byte_alu(op, w, v, st),
{
    let c = st & FLAG_C != 0;
    match op {
        ByteOrientedOperation::AddWf => add_with_flags(w, v, st),
        ByteOrientedOperation::AndWf => with_zero(st, w & v),
        ByteOrientedOperation::ComplementF => with_zero(st, !v),
        ByteOrientedOperation::DecrementF => with_zero(st, ((v as u16 + 255) % 256) as u8),
        ByteOrientedOperation::DecrementFSkipIfZ => (((v as u16 + 255) % 256) as u8, st),
        ByteOrientedOperation::IncrementF => with_zero(st, ((v as u16 + 1) % 256) as u8),
        ByteOrientedOperation::IncrementFSkipIfZ => (((v as u16 + 1) % 256) as u8, st),
        ByteOrientedOperation::OrWf => with_zero(st, w | v),
        ByteOrientedOperation::MoveF => with_zero(st, v),
        ByteOrientedOperation::RotateLeftFThroughCarry => {
            let carry_in: u8 = if c {
                1
            } else {
                0
            };
            ((v << 1u8) | carry_in, set_flag(st, FLAG_C, v & 0x80 != 0))
        },
        ByteOrientedOperation::RotateRightFThroughCarry => {
            let carry_in: u8 = if c {
                0x80
            } else {
                0
            };
            ((v >> 1u8) | carry_in, set_flag(st, FLAG_C, v & 0x01 != 0))
        },
        ByteOrientedOperation::SubtractWfromF => subtract_with_flags(v, w, st),
        ByteOrientedOperation::SwapF => (((v & 0x0F) << 4u8) | (v >> 4u8), st),
        ByteOrientedOperation::XorWwithF => with_zero(st, w ^ v),
    }
}

/// Computes `literal_alu`.
pub fn literal_operation(op: LiteralOrientedOperation, w: u8, k: u8, st: u8) -> (r: (u8, u8))
    ensures
        r == literal_alu(op, w, k, st),
{
    match op {
        LiteralOrientedOperation::MoveLiteralToW => (k, st),
        LiteralOrientedOperation::ReturnWithLiteralInW => (k, st),
        LiteralOrientedOperation::AddLiteralToW => add_with_flags(w, k, st),
        LiteralOrientedOperation::AndLiteralWithW => with_zero(st, w & k),
        LiteralOrientedOperation::OrLiteralWithW => with_zero(st, w | k),
        LiteralOrientedOperation::XorLiteralWithW => with_zero(st, w ^ k),
        LiteralOrientedOperation::SubtractWFromLiteral => subtract_with_flags(k, w, st),
    }
}

} // verus!

verus! {

/// Subtraction through `a + !b + 1` agrees with the borrow semantics: the
/// result is `a - b` modulo 256, C is set exactly when `a >= b`, and DC
/// exactly when the low nibble of `a` is at least that of `b`.
pub proof fn lemma_subtraction_flags(a: u8, b: u8)
    ensures
        sub_result(a, b) == (a - b) % 256,
        sub_carry(a, b) == (a >= b),
        sub_digit_carry(a, b) == ((a & 0x0F) >= (b & 0x0F)),
{
    assert(!b == 255 - b) by (bit_vector);
    assert((!b & 0x0F) == 15 - (b & 0x0F)) by (bit_vector);
    assert((a & 0x0F) <= 15 && (b & 0x0F) <= 15) by (bit_vector);
}

/// The STATUS bits that an operation may change: Z, C and DC for addition
/// and subtraction, Z for the logic and move operations, C for the
/// rotations, none for the others.
pub open spec fn affected_flags(op: ByteOrientedOperation) -> u8 {
    match op {
        ByteOrientedOperation::AddWf | ByteOrientedOperation::SubtractWfromF => FLAG_Z | FLAG_C | FLAG_DC,
        ByteOrientedOperation::RotateLeftFThroughCarry
        | ByteOrientedOperation::RotateRightFThroughCarry => FLAG_C,
        ByteOrientedOperation::DecrementFSkipIfZ
        | ByteOrientedOperation::IncrementFSkipIfZ
        | ByteOrientedOperation::SwapF => 0,
        _ => FLAG_Z,
    }
}

/// The STATUS bits that a literal-oriented operation may change.
pub open spec fn affected_literal_flags(op: LiteralOrientedOperation) -> u8 {
    match op {
        LiteralOrientedOperation::AddLiteralToW
        | LiteralOrientedOperation::SubtractWFromLiteral => FLAG_Z | FLAG_C | FLAG_DC,
        LiteralOrientedOperation::MoveLiteralToW
        | LiteralOrientedOperation::ReturnWithLiteralInW => 0,
        _ => FLAG_Z,
    }
}

proof fn lemma_flag_set_keeps_others(st: u8, on1: bool, on2: bool, on3: bool)
    by (bit_vector)
    ensures
        (if on1 { st | 0x04u8 } else { st & !0x04u8 }) & !0x04u8 == st & !0x04u8,
        (if on1 { st | 0x01u8 } else { st & !0x01u8 }) & !0x01u8 == st & !0x01u8,
        ({
            let s1 = if on1 { st | 0x04u8 } else { st & !0x04u8 };
            let s2 = if on2 { s1 | 0x01u8 } else { s1 & !0x01u8 };
            let s3 = if on3 { s2 | 0x02u8 } else { s2 & !0x02u8 };
            s3 & !((0x04u8 | 0x01u8) | 0x02u8) == st & !((0x04u8 | 0x01u8) | 0x02u8)
        }),
        st & !0u8 == st,
{
}

/// A byte-oriented operation leaves every STATUS bit outside its affected
/// flags as it was.
pub proof fn lemma_byte_flags_preserved(op: ByteOrientedOperation, w: u8, v: u8, st: u8)
    ensures
        byte_alu(op, w, v, st).1 & !affected_flags(op) == st & !affected_flags(op),
{
    let (res, _) = byte_alu(op, w, v, st);
    match op {
        ByteOrientedOperation::AddWf => lemma_flag_set_keeps_others(st, res == 0, add_carry(w, v), add_digit_carry(w, v)),
        ByteOrientedOperation::SubtractWfromF => lemma_flag_set_keeps_others(st, res == 0, sub_carry(v, w), sub_digit_carry(v, w)),
        ByteOrientedOperation::RotateLeftFThroughCarry => lemma_flag_set_keeps_others(st, v & 0x80 != 0, false, false),
        ByteOrientedOperation::RotateRightFThroughCarry => lemma_flag_set_keeps_others(st, v & 0x01 != 0, false, false),
        _ => lemma_flag_set_keeps_others(st, res == 0, false, false),
    }
}

/// A literal-oriented operation leaves every STATUS bit outside its affected
/// flags as it was.
pub proof fn lemma_literal_flags_preserved(op: LiteralOrientedOperation, w: u8, k: u8, st: u8)
    ensures
        literal_alu(op, w, k, st).1 & !affected_literal_flags(op) == st & !affected_literal_flags(op),
{
    let (res, _) = literal_alu(op, w, k, st);
    match op {
        LiteralOrientedOperation::AddLiteralToW => lemma_flag_set_keeps_others(st, res == 0, add_carry(w, k), add_digit_carry(w, k)),
        LiteralOrientedOperation::SubtractWFromLiteral => lemma_flag_set_keeps_others(st, res == 0, sub_carry(k, w), sub_digit_carry(k, w)),
        _ => lemma_flag_set_keeps_others(st, res == 0, false, false),
    }
}

} // verus!
