use vstd::prelude::*;

use crate::error::{Error, ErrorKind};
use crate::arm32::instruction::Instruction;
use crate::arm32::register::Register;
use crate::arm32::shifter::Shifter;
use crate::arm32::flag::Sflag;
use crate::arm32::predicate::Predicate;

verus! {

/// `v` rotated left by `n` bits, for `n` below 32.
pub open spec fn rotate_left(v: u32, n: u32) -> u32 {
    if n == 0 {
        v
    } else {
        (v << n) | (v >> ((32 - n) as u32))
    }
}

/// `v` rotated right by `n` bits, for `n` below 32.
pub open spec fn rotate_right(v: u32, n: u32) -> u32 {
    if n == 0 {
        v
    } else {
        (v >> n) | (v << ((32 - n) as u32))
    }
}

/// Whether `v` is an 8-bit value rotated right by `2 * r`.
pub open spec fn fits_rotation(v: u32, r: u32) -> bool {
    rotate_left(v, (2 * r) as u32) <= 0xFF
}

/// The least rotation `r` from `from` on (below 16) for which `v` fits.
pub open spec fn first_rotation(v: u32, from: u32) -> Option<u32>
    decreases 16 - from,
{
    if from >= 16 {
        None
    } else if fits_rotation(v, from) {
        Some(from)
    } else {
        first_rotation(v, (from + 1) as u32)
    }
}

/// The two-bit code of a shift function: LSL, LSR, ASR, ROR.
pub open spec fn shift_code(sh: Shifter) -> u32 {
    match sh {
        Shifter::LogicalShiftLeftImmediate { .. } | Shifter::LogicalShiftLeftRegister { .. } => 0,
        Shifter::LogicalShiftRightImmediate { .. } | Shifter::LogicalShiftRightRegister { .. } => 1,
        Shifter::ArithmeticShiftRightImmediate { .. } | Shifter::ArithmeticShiftRightRegister { .. } => 2,
        _ => 3,
    }
}

/// Register `r`'s number as a word.
pub open spec fn reg(r: Register) -> u32 {
    r.value() as u32
}

/// The shifter operand's bits in a data-processing opcode: bits 11 to 0
/// and the I bit (25).
pub open spec fn arm_shifter_field(sh: Shifter) -> Result<u32, ErrorKind> {
    match sh {
        Shifter::Immediate(v) => match first_rotation(v, 0) {
            Some(r) => Ok(0x0200_0000u32 | (r << 8u32) | rotate_left(v, (2 * r) as u32)),
            None => Err(ErrorKind::IllegalImmediate),
        },
        Shifter::LogicalShiftLeftImmediate { source, shift } =>
            if shift <= 31 {
                Ok(reg(source) | (shift << 7u32))
            } else {
                Err(ErrorKind::IllegalImmediate)
            },
        Shifter::LogicalShiftRightImmediate { source, shift }
        | Shifter::ArithmeticShiftRightImmediate { source, shift } =>
            if 1 <= shift <= 32 {
                Ok(reg(source) | (shift_code(sh) << 5u32) | ((shift % 32) << 7u32))
            } else {
                Err(ErrorKind::IllegalImmediate)
            },
        Shifter::RotateRightImmediate { source, shift } =>
            if 1 <= shift <= 31 {
                Ok(reg(source) | (3u32 << 5u32) | (shift << 7u32))
            } else {
                Err(ErrorKind::IllegalImmediate)
            },
        Shifter::RotateRightExtend { source } => Ok(reg(source) | 0x60u32),
        Shifter::LogicalShiftLeftRegister { source, shift }
        | Shifter::LogicalShiftRightRegister { source, shift }
        | Shifter::ArithmeticShiftRightRegister { source, shift }
        | Shifter::RotateRightRegister { source, shift } =>
            Ok(reg(source) | 0x10u32 | (shift_code(sh) << 5u32) | (reg(shift) << 8u32)),
    }
}

/// The condition nibble of an opcode whose predicate is encoded as `p`.
pub open spec fn cond(p: u8) -> u32 {
    (p as u32) << 28u32
}

/// The Arm opcode of `i`, or the kind of error that refuses it.
///
/// `B` and `BL` leave their 24-bit offset field zero: the target is not
/// encoded. Both are laid out as `cccc 1010`; `BL` does not set the link
/// bit (24).
pub open spec fn arm_encoding(i: Instruction) -> Result<u32, ErrorKind> {
    match i {
        Instruction::Branch { predicate, .. } => Ok(cond(predicate.value()) | 0x0A00_0000u32),
        Instruction::BranchExchange { predicate, source } =>
            Ok(cond(predicate.value()) | 0x012F_FF10u32 | reg(source)),
        Instruction::BranchLink { predicate, .. } => Ok(cond(predicate.value()) | 0x0A00_0000u32),
        Instruction::Breakpoint { immediate } =>
            Ok(0xE120_0070u32 | (immediate & 0xFu32) | ((immediate & 0xFFF0u32) << 4u32)),
        Instruction::Move { predicate, destination, source, s } => match arm_shifter_field(source) {
            Ok(field) => Ok(cond(predicate.value()) | 0x01A0_0000u32
                | (if s == Sflag::On { 0x0010_0000u32 } else { 0u32 }) | (reg(destination) << 12u32)
                | field),
            Err(e) => Err(e),
        },
        Instruction::SoftwareInterrupt { predicate, immediate } =>
            Ok(cond(predicate.value()) | 0x0F00_0000u32 | (immediate & 0x00FF_FFFFu32)),
        _ => Err(ErrorKind::IllegalInstruction),
    }
}

/// Rotates `v` left by `n` bits, for `n` below 32.
fn rotl(v: u32, n: u32) -> (r: u32)
    requires
        n < 32,
    ensures
        r == rotate_left(v, n),
{
    if n == 0 {
        v
    } else {
        (v << n) | (v >> (32 - n))
    }
}

/// The rotated 8-bit form of an Arm immediate: bits 11 to 0 and the I bit.
fn immediate_field(v: u32) -> (r: Result<u32, Error>)
    ensures
        match first_rotation(v, 0) {
            Some(rot) => r == Ok::<u32, Error>(0x0200_0000u32 | (rot << 8u32) | rotate_left(v, (2 * rot) as u32)),
            None => r matches Err(e) && e.kind() == ErrorKind::IllegalImmediate,
        },
{
    let mut rot: u32 = 0;
    while rot < 16
        invariant
            rot <= 16,
            first_rotation(v, 0) == first_rotation(v, rot),
        decreases 16 - rot,
    {
        let imm = rotl(v, 2 * rot);
        if imm <= 0xFF {
            return Ok(0x0200_0000u32 | (rot << 8u32) | imm);
        }
        rot = rot + 1;
    }
    Err(Error::IllegalImmediate { reason: "cannot encode as a rotated 8-bit value on arm" })
}

/// The two-bit code of a shift function: LSL, LSR, ASR, ROR.
fn code_of(sh: Shifter) -> (r: u32)
    ensures
        r == shift_code(sh),
{
    match sh {
        Shifter::LogicalShiftLeftImmediate { .. } | Shifter::LogicalShiftLeftRegister { .. } => 0,
        Shifter::LogicalShiftRightImmediate { .. } | Shifter::LogicalShiftRightRegister { .. } => 1,
        Shifter::ArithmeticShiftRightImmediate { .. } | Shifter::ArithmeticShiftRightRegister { .. } => 2,
        _ => 3,
    }
}

/// Whether `sh` is an immediate shift other than LSL by zero, which Arm
/// cannot encode.
pub open spec fn is_null_shift(sh: Shifter) -> bool {
    match sh {
        Shifter::LogicalShiftRightImmediate { shift, .. }
        | Shifter::ArithmeticShiftRightImmediate { shift, .. }
        | Shifter::RotateRightImmediate { shift, .. } => shift == 0,
        _ => false,
    }
}

/// Lays out a shifter operand for a data-processing opcode.
pub fn add_shifter(sh: Shifter) -> (r: Result<u32, Error>)
    ensures
        match arm_shifter_field(sh) {
            Ok(field) => r == Ok::<u32, Error>(field),
            Err(kind) => r matches Err(e) && e.kind() == kind,
        },
        is_null_shift(sh) ==> r == Err::<u32, Error>(
            Error::IllegalImmediate { reason: "immediate shift cannot be null on arm" },
        ),
{
    match sh {
        Shifter::Immediate(v) => immediate_field(v),
        Shifter::LogicalShiftLeftImmediate { source, shift } => {
            if shift <= 31 {
                Ok(source.value() as u32 | (shift << 7u32))
            } else {
                Err(Error::IllegalImmediate { reason: "left shifts on arm go from (0) to (31)" })
            }
        },
        Shifter::LogicalShiftRightImmediate { source, shift }
        | Shifter::ArithmeticShiftRightImmediate { source, shift } => {
            if shift == 0 {
                Err(Error::IllegalImmediate { reason: "immediate shift cannot be null on arm" })
            } else if shift > 32 {
                Err(Error::IllegalImmediate { reason: "right shifts on arm go up to (32)" })
            } else {
                Ok(source.value() as u32 | (code_of(sh) << 5u32) | ((shift % 32) << 7u32))
            }
        },
        Shifter::RotateRightImmediate { source, shift } => {
            if shift == 0 {
                Err(Error::IllegalImmediate { reason: "immediate shift cannot be null on arm" })
            } else if shift > 31 {
                Err(Error::IllegalImmediate { reason: "rotations on arm go up to (31)" })
            } else {
                Ok(source.value() as u32 | (3u32 << 5u32) | (shift << 7u32))
            }
        },
        Shifter::RotateRightExtend { source } => Ok(source.value() as u32 | 0x60u32),
        Shifter::LogicalShiftLeftRegister { source, shift }
        | Shifter::LogicalShiftRightRegister { source, shift }
        | Shifter::ArithmeticShiftRightRegister { source, shift }
        | Shifter::RotateRightRegister { source, shift } => {
            Ok(source.value() as u32 | 0x10u32 | (code_of(sh) << 5u32) | ((shift.value() as u32) << 8u32))
        },
    }
}

impl Instruction {
    /// Encodes the instruction as an Arm opcode.
    ///
    /// Covers `B`, `BX`, `BL`, `BKPT`, `MOV` and `SWI`; every other mnemonic
    /// is refused with `IllegalInstruction`.
    pub fn encode_arm(&self) -> (r: Result<crate::arm32::arm_opcode::ArmOpcode, Error>)
        ensures
            match arm_encoding(*self) {
                Ok(op) => r matches Ok(o) && o@ == op,
                Err(kind) => r matches Err(e) && e.kind() == kind,
            },
    {
        let op: u32 = match *self {
            Instruction::Branch { predicate, .. } => ((predicate.value() as u32) << 28u32) | 0x0A00_0000u32,
            Instruction::BranchExchange { predicate, source } =>
                ((predicate.value() as u32) << 28u32) | 0x012F_FF10u32 | source.value() as u32,
            Instruction::BranchLink { predicate, .. } => ((predicate.value() as u32) << 28u32) | 0x0A00_0000u32,
            Instruction::Breakpoint { immediate } =>
                0xE120_0070u32 | (immediate & 0xFu32) | ((immediate & 0xFFF0u32) << 4u32),
            Instruction::Move { predicate, destination, source, s } => {
                let field = match add_shifter(source) {
                    Ok(field) => field,
                    Err(e) => return Err(e),
                };
                let flag: u32 = if s.is_on() { 0x0010_0000u32 } else { 0u32 };
                ((predicate.value() as u32) << 28u32) | 0x01A0_0000u32 | flag
                    | ((destination.value() as u32) << 12u32) | field
            },
            Instruction::SoftwareInterrupt { predicate, immediate } =>
                ((predicate.value() as u32) << 28u32) | 0x0F00_0000u32 | (immediate & 0x00FF_FFFFu32),
            _ => return Err(Error::IllegalInstruction { reason: "not supported on arm" }),
        };
        Ok(crate::arm32::arm_opcode::ArmOpcode::from_u32(op))
    }
}

proof fn lemma_cond_top(p: u32, x: u32)
    requires
        p < 16,
        x < 0x1000_0000,
    ensures
        ((p << 28u32) | x) >> 28u32 == p,
{
    assert(((p << 28u32) | x) >> 28u32 == p) by (bit_vector)
        requires
            p < 16,
            x < 0x1000_0000,
    ;
}

/// Every shifter field fits below bit 26.
proof fn lemma_shifter_field_bound(sh: Shifter)
    ensures
        arm_shifter_field(sh) matches Ok(f) ==> f < 0x0400_0000,
{
    match sh {
        Shifter::Immediate(v) => {
            if let Some(r) = first_rotation(v, 0) {
                lemma_first_rotation_range(v, 0);
                let imm = rotate_left(v, (2 * r) as u32);
                assert(0x0200_0000u32 | (r << 8u32) | imm < 0x0400_0000) by (bit_vector)
                    requires
                        r < 16,
                        imm <= 0xFF,
                ;
            }
        },
        Shifter::LogicalShiftLeftImmediate { source, shift }
        | Shifter::LogicalShiftRightImmediate { source, shift }
        | Shifter::ArithmeticShiftRightImmediate { source, shift }
        | Shifter::RotateRightImmediate { source, shift } => {
            let m = reg(source);
            let c = shift_code(sh);
            let n = shift % 32;
            assert(m | (c << 5u32) | (n << 7u32) < 0x0400_0000) by (bit_vector)
                requires
                    m < 16,
                    c < 4,
                    n < 32,
            ;
            assert(m | (n << 7u32) < 0x0400_0000) by (bit_vector)
                requires
                    m < 16,
                    n < 32,
            ;
            assert(m | (3u32 << 5u32) | (n << 7u32) < 0x0400_0000) by (bit_vector)
                requires
                    m < 16,
                    n < 32,
            ;
        },
        Shifter::RotateRightExtend { source } => {
            let m = reg(source);
            assert(m | 0x60u32 < 0x0400_0000) by (bit_vector)
                requires
                    m < 16,
            ;
        },
        Shifter::LogicalShiftLeftRegister { source, shift }
        | Shifter::LogicalShiftRightRegister { source, shift }
        | Shifter::ArithmeticShiftRightRegister { source, shift }
        | Shifter::RotateRightRegister { source, shift } => {
            let m = reg(source);
            let c = shift_code(sh);
            let r = reg(shift);
            assert(m | 0x10u32 | (c << 5u32) | (r << 8u32) < 0x0400_0000) by (bit_vector)
                requires
                    m < 16,
                    c < 4,
                    r < 16,
            ;
        },
    }
}

/// A rotation found from `from` on is at least `from` and below 16, and `v`
/// fits it.
proof fn lemma_first_rotation_range(v: u32, from: u32)
    ensures
        first_rotation(v, from) matches Some(r) ==> from <= r < 16 && fits_rotation(v, r),
    decreases 16 - from,
{
    if from < 16 && !fits_rotation(v, from) {
        lemma_first_rotation_range(v, (from + 1) as u32);
    }
}

/// Every Arm opcode holds the instruction's condition code in its top four
/// bits; `BKPT` holds `AL` there.
pub proof fn lemma_arm_condition(i: Instruction)
    ensures
        arm_encoding(i) matches Ok(op) ==> op >> 28u32 == i.spec_predicate().value() as u32,
{
    let p = i.spec_predicate().value() as u32;
    match i {
        Instruction::Branch { .. } => lemma_cond_top(p, 0x0A00_0000u32),
        Instruction::BranchLink { .. } => lemma_cond_top(p, 0x0A00_0000u32),
        Instruction::BranchExchange { source, .. } => {
            let m = reg(source);
            assert(((p << 28u32) | 0x012F_FF10u32 | m) >> 28u32 == p) by (bit_vector)
                requires
                    p < 16,
                    m < 16,
            ;
        },
        Instruction::Breakpoint { immediate } => {
            assert((0xE120_0070u32 | (immediate & 0xFu32) | ((immediate & 0xFFF0u32) << 4u32)) >> 28u32
                == 14) by (bit_vector);
        },
        Instruction::Move { destination, source, s, .. } => {
            lemma_shifter_field_bound(source);
            if let Ok(field) = arm_shifter_field(source) {
                let f: u32 = if s == Sflag::On { 0x0010_0000u32 } else { 0u32 };
                let d = reg(destination);
                assert(((p << 28u32) | 0x01A0_0000u32 | f | (d << 12u32) | field) >> 28u32 == p)
                    by (bit_vector)
                    requires
                        p < 16,
                        f == 0 || f == 0x0010_0000u32,
                        d < 16,
                        field < 0x0400_0000,
                ;
            }
        },
        Instruction::SoftwareInterrupt { immediate, .. } => {
            assert(((p << 28u32) | 0x0F00_0000u32 | (immediate & 0x00FF_FFFFu32)) >> 28u32 == p)
                by (bit_vector)
                requires
                    p < 16,
            ;
        },
        _ => {},
    }
}

/// `B` and `BL` on Arm: a target 8 bytes past the cursor (an offset of zero)
/// leaves the 24-bit offset field zero.
pub proof fn lemma_arm_branch_offset(p: Predicate, cursor: u32, target: u32)
    requires
        target == (cursor as int + 8) as u32,
    ensures
        arm_encoding(Instruction::Branch { predicate: p, immediate: target }) matches Ok(op)
            && op & 0x00FF_FFFF == 0,
        arm_encoding(Instruction::BranchLink { predicate: p, source: target }) matches Ok(op)
            && op & 0x00FF_FFFF == 0,
{
    let c = p.value() as u32;
    assert(((c << 28u32) | 0x0A00_0000u32) & 0x00FF_FFFFu32 == 0) by (bit_vector);
    assert(((c << 28u32) | 0x0A00_0000u32) & 0x00FF_FFFFu32 == 0) by (bit_vector);
}

/// Rotating right and then left by the same amount gives back the value.
proof fn lemma_rotate_inverse(x: u32, n: u32)
    requires
        n < 32,
    ensures
        rotate_left(rotate_right(x, n), n) == x,
        rotate_right(rotate_left(x, n), n) == x,
{
    if n != 0 {
        assert((((x >> n) | (x << ((32 - n) as u32))) << n) | (((x >> n) | (x << ((32 - n) as u32)))
            >> ((32 - n) as u32)) == x) by (bit_vector)
            requires
                0 < n < 32,
        ;
        assert((((x << n) | (x >> ((32 - n) as u32))) >> n) | (((x << n) | (x >> ((32 - n) as u32)))
            << ((32 - n) as u32)) == x) by (bit_vector)
            requires
                0 < n < 32,
        ;
    }
}

/// Whether `v` is an 8-bit value rotated right by an even amount below 32.
pub open spec fn is_rotated_byte(v: u32) -> bool {
    exists|imm8: u32, n: u32| imm8 <= 0xFF && n < 32 && n % 2 == 0 && #[trigger] rotate_right(imm8, n) == v
}

/// A search from `from` finds a rotation exactly when one from `from` on
/// fits.
proof fn lemma_first_rotation_exists(v: u32, from: u32)
    ensures
        first_rotation(v, from) is Some <==> exists|r: u32| from <= r < 16 && fits_rotation(v, r),
    decreases 16 - from,
{
    if from < 16 && !fits_rotation(v, from) {
        lemma_first_rotation_exists(v, (from + 1) as u32);
        if exists|r: u32| from <= r < 16 && fits_rotation(v, r) {
            let r = choose|r: u32| from <= r < 16 && fits_rotation(v, r);
            assert(from + 1 <= r);
        }
    }
}

/// `MOV` on Arm with an immediate source succeeds exactly for the 8-bit
/// values rotated right by an even amount, and refuses every other value
/// with `IllegalImmediate`.
pub proof fn lemma_arm_move_immediate(p: Predicate, d: Register, v: u32, s: Sflag)
    ensures
        arm_encoding(Instruction::Move { predicate: p, destination: d, source: Shifter::Immediate(v), s }) is Ok
            <==> is_rotated_byte(v),
        !is_rotated_byte(v) ==> arm_encoding(
            Instruction::Move { predicate: p, destination: d, source: Shifter::Immediate(v), s },
        ) == Err::<u32, ErrorKind>(ErrorKind::IllegalImmediate),
{
    lemma_first_rotation_exists(v, 0);
    if is_rotated_byte(v) {
        let (imm8, n) = choose|imm8: u32, n: u32| imm8 <= 0xFF && n < 32 && n % 2 == 0 && #[trigger] rotate_right(imm8, n) == v;
        lemma_rotate_inverse(imm8, n);
        let r = n / 2;
        assert((2 * r) as u32 == n);
        assert(fits_rotation(v, r));
    }
    if first_rotation(v, 0) is Some {
        let r = choose|r: u32| 0 <= r < 16 && fits_rotation(v, r);
        let n = (2 * r) as u32;
        let imm8 = rotate_left(v, n);
        lemma_rotate_inverse(v, n);
        assert(imm8 <= 0xFF && n < 32 && n % 2 == 0 && rotate_right(imm8, n) == v);
    }
}

/// Immediate shifts on Arm: LSR and ASR by 32 write 0 in the 5-bit amount
/// field, LSL by 0 is the bare register and lays out just its number, and
/// LSL by 32 is refused.
pub proof fn lemma_arm_shift_amounts(m: Register)
    ensures
        arm_shifter_field(Shifter::LogicalShiftRightImmediate { source: m, shift: 32 }) matches Ok(f)
            && (f >> 7u32) & 0x1F == 0,
        arm_shifter_field(Shifter::ArithmeticShiftRightImmediate { source: m, shift: 32 }) matches Ok(f)
            && (f >> 7u32) & 0x1F == 0,
        arm_shifter_field(Shifter::LogicalShiftLeftImmediate { source: m, shift: 0 }) == Ok::<u32, ErrorKind>(reg(m)),
        arm_shifter_field(Shifter::LogicalShiftLeftImmediate { source: m, shift: 32 }) is Err,
{
    let x = reg(m);
    assert(((x | (1u32 << 5u32) | (0u32 << 7u32)) >> 7u32) & 0x1F == 0) by (bit_vector)
        requires
            x < 16,
    ;
    assert(((x | (2u32 << 5u32) | (0u32 << 7u32)) >> 7u32) & 0x1F == 0) by (bit_vector)
        requires
            x < 16,
    ;
    assert(x | (0u32 << 7u32) == x) by (bit_vector);
}

} // verus!
