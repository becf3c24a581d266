use vstd::prelude::*;

use crate::error::{outcome, Error, ErrorKind};
use crate::arm32::flag::Sflag;
use crate::arm32::instruction::Instruction;
use crate::arm32::predicate::Predicate;
use crate::arm32::register::Register;
use crate::arm32::shifter::Shifter;

verus! {

/// Register `r`'s number as a halfword.
pub open spec fn hreg(r: Register) -> u16 {
    r.value() as u16
}

/// The address that Thumb PC-relative offsets are measured from: the
/// cursor plus 4, wrapping around modulo 2^32.
pub open spec fn thumb_base(cursor: u32) -> u32 {
    (cursor as int + 4) as u32
}

/// The offset of `target` from the Thumb base of `cursor`, wrapping around
/// modulo 2^32 and read as signed.
pub open spec fn branch_offset(target: u32, cursor: u32) -> i32 {
    (target as int - thumb_base(cursor) as int) as i32
}

/// A two-operand data-processing form `template | m << 3 | d`, which needs
/// a bare low register as source, `AL`, `base == destination`, low registers
/// and the S flag on.
pub open spec fn low_alu(
    template: u16,
    p: Predicate,
    d: Register,
    b: Register,
    source: Shifter,
    s: Sflag,
) -> Result<u16, ErrorKind> {
    match source.spec_register() {
        None => Err(ErrorKind::IllegalShifter),
        Some(m) =>
            if p != Predicate::Always {
                Err(ErrorKind::IllegalPredicate)
            } else if b != d || !d.is_low() || !m.is_low() {
                Err(ErrorKind::IllegalRegister)
            } else if s != Sflag::On {
                Err(ErrorKind::IllegalFlag)
            } else {
                Ok(template | hreg(d) | (hreg(m) << 3u16))
            },
    }
}

/// `ADD` or `SUB` of low registers, with a register or a 3-bit immediate
/// source.
pub open spec fn add_sub(subtract: bool, p: Predicate, d: Register, b: Register, source: Shifter, s: Sflag) -> Result<u16, ErrorKind> {
    let op: u16 = if subtract { 0x0200 } else { 0 };
    if p != Predicate::Always {
        Err(ErrorKind::IllegalPredicate)
    } else if !d.is_low() || !b.is_low() {
        Err(ErrorKind::IllegalRegister)
    } else if s != Sflag::On {
        Err(ErrorKind::IllegalFlag)
    } else {
        match source {
            Shifter::Immediate(v) =>
                if v <= 7 {
                    Ok(0x1C00u16 | op | ((v as u16) << 6u16) | (hreg(b) << 3u16) | hreg(d))
                } else {
                    Err(ErrorKind::IllegalImmediate)
                },
            _ => match source.spec_register() {
                Some(m) =>
                    if m.is_low() {
                        Ok(0x1800u16 | op | (hreg(m) << 6u16) | (hreg(b) << 3u16) | hreg(d))
                    } else {
                        Err(ErrorKind::IllegalRegister)
                    },
                None => Err(ErrorKind::IllegalShifter),
            },
        }
    }
}

/// The 5-bit field of an immediate shift on Thumb: LSL takes 0 to 31, LSR
/// and ASR take 1 to 32, with 32 written as 0.
pub open spec fn thumb_shift_amount(sh: Shifter) -> Result<u16, ErrorKind> {
    match sh {
        Shifter::LogicalShiftLeftImmediate { shift, .. } =>
            if shift <= 31 { Ok(shift as u16) } else { Err(ErrorKind::IllegalImmediate) },
        Shifter::LogicalShiftRightImmediate { shift, .. }
        | Shifter::ArithmeticShiftRightImmediate { shift, .. } =>
            if 1 <= shift <= 31 {
                Ok(shift as u16)
            } else if shift == 32 {
                Ok(0)
            } else {
                Err(ErrorKind::IllegalImmediate)
            },
        _ => Err(ErrorKind::IllegalShifter),
    }
}

/// `MOV` on Thumb: a bare register with the S flag off may use any registers;
/// a shifted source becomes the shift's own opcode; an 8-bit immediate goes
/// to a low register.
pub open spec fn thumb_move(p: Predicate, d: Register, source: Shifter, s: Sflag) -> Result<u16, ErrorKind> {
    if p != Predicate::Always {
        Err(ErrorKind::IllegalPredicate)
    } else {
        match source {
            Shifter::LogicalShiftLeftImmediate { source: m, shift } if shift == 0 && s == Sflag::Off =>
                Ok(0x4600u16 | (hreg(d) & 7u16) | ((hreg(m) & 7u16) << 3u16)
                    | (if d.is_low() { 0u16 } else { 0x40u16 })
                    | (if m.is_low() { 0u16 } else { 0x80u16 })),
            Shifter::LogicalShiftLeftImmediate { source: m, .. }
            | Shifter::LogicalShiftRightImmediate { source: m, .. }
            | Shifter::ArithmeticShiftRightImmediate { source: m, .. } =>
                if !d.is_low() || !m.is_low() {
                    Err(ErrorKind::IllegalRegister)
                } else if s != Sflag::On {
                    Err(ErrorKind::IllegalFlag)
                } else {
                    match thumb_shift_amount(source) {
                        Ok(amount) => Ok(
                            (match source {
                                Shifter::LogicalShiftLeftImmediate { .. } => 0u16,
                                Shifter::LogicalShiftRightImmediate { .. } => 0x0800u16,
                                _ => 0x1000u16,
                            }) | (amount << 6u16) | (hreg(m) << 3u16) | hreg(d),
                        ),
                        Err(e) => Err(e),
                    }
                },
            Shifter::LogicalShiftLeftRegister { source: m, shift: r }
            | Shifter::LogicalShiftRightRegister { source: m, shift: r }
            | Shifter::ArithmeticShiftRightRegister { source: m, shift: r }
            | Shifter::RotateRightRegister { source: m, shift: r } =>
                if m != d || !d.is_low() || !r.is_low() {
                    Err(ErrorKind::IllegalRegister)
                } else if s != Sflag::On {
                    Err(ErrorKind::IllegalFlag)
                } else {
                    Ok(
                        (match source {
                            Shifter::LogicalShiftLeftRegister { .. } => 0x4080u16,
                            Shifter::LogicalShiftRightRegister { .. } => 0x40C0u16,
                            Shifter::ArithmeticShiftRightRegister { .. } => 0x4100u16,
                            _ => 0x41C0u16,
                        }) | (hreg(r) << 3u16) | hreg(d),
                    )
                },
            Shifter::Immediate(v) =>
                if s != Sflag::On {
                    Err(ErrorKind::IllegalShifter)
                } else if !d.is_low() {
                    Err(ErrorKind::IllegalRegister)
                } else if v > 0xFF {
                    Err(ErrorKind::IllegalImmediate)
                } else {
                    Ok(0x2000u16 | (hreg(d) << 8u16) | (v as u16))
                },
            _ => Err(ErrorKind::IllegalShifter),
        }
    }
}

/// The Thumb opcode of `i` at `cursor` (with a second opcode for `BL`), or
/// the kind of error that refuses it.
pub open spec fn thumb_encoding(i: Instruction, cursor: u32) -> Result<(u16, Option<u16>), ErrorKind> {
    let single = |r: Result<u16, ErrorKind>| match r {
        Ok(op) => Ok((op, None)),
        Err(e) => Err(e),
    };
    match i {
        Instruction::Add { predicate, destination, base, source, s } =>
            single(add_sub(false, predicate, destination, base, source, s)),
        Instruction::Subtract { predicate, destination, base, source, s } =>
            single(add_sub(true, predicate, destination, base, source, s)),
        Instruction::AddCarry { predicate, destination, base, source, s } =>
            single(low_alu(0x4140, predicate, destination, base, source, s)),
        Instruction::And { predicate, destination, base, source, s } =>
            single(low_alu(0x4000, predicate, destination, base, source, s)),
        Instruction::BitClear { predicate, destination, base, source, s } =>
            single(low_alu(0x4380, predicate, destination, base, source, s)),
        Instruction::ExclusiveOr { predicate, destination, base, source, s } =>
            single(low_alu(0x4040, predicate, destination, base, source, s)),
        Instruction::InclusiveOr { predicate, destination, base, source, s } =>
            single(low_alu(0x4300, predicate, destination, base, source, s)),
        Instruction::SubtractCarry { predicate, destination, base, source, s } =>
            single(low_alu(0x4180, predicate, destination, base, source, s)),
        Instruction::Branch { predicate, immediate } => {
            let off = branch_offset(immediate, cursor);
            if predicate == Predicate::Always {
                if -2048 <= off <= 2046 && off % 2 == 0 {
                    Ok((0xE000u16 | ((((off as u32) >> 1u32) & 0x7FFu32) as u16), None))
                } else {
                    Err(ErrorKind::IllegalImmediate)
                }
            } else {
                if -256 <= off <= 254 && off % 2 == 0 {
                    Ok((0xD000u16 | ((predicate.value() as u16) << 8u16)
                        | ((((off as u32) >> 1u32) & 0xFFu32) as u16), None))
                } else {
                    Err(ErrorKind::IllegalImmediate)
                }
            }
        },
        Instruction::BranchExchange { predicate, source } =>
            if predicate != Predicate::Always {
                Err(ErrorKind::IllegalPredicate)
            } else {
                Ok((0x4700u16 | (hreg(source) << 3u16), None))
            },
        Instruction::BranchLink { predicate, source } => {
            let off = branch_offset(source, cursor);
            if predicate != Predicate::Always {
                Err(ErrorKind::IllegalPredicate)
            } else if -0x40_0000 <= off <= 0x3F_FFFE && off % 2 == 0 {
                Ok((
                    0xF000u16 | ((((off as u32) >> 12u32) & 0x7FFu32) as u16),
                    Some(0xF800u16 | ((((off as u32) >> 1u32) & 0x7FFu32) as u16)),
                ))
            } else {
                Err(ErrorKind::IllegalImmediate)
            }
        },
        Instruction::BranchLinkExchange { predicate, source } =>
            if predicate != Predicate::Always {
                Err(ErrorKind::IllegalPredicate)
            } else {
                match source.spec_register() {
                    Some(m) => Ok((0x4780u16 | (hreg(m) << 3u16), None)),
                    None => Err(ErrorKind::IllegalShifter),
                }
            },
        Instruction::Breakpoint { immediate } =>
            if immediate <= 0xFF {
                Ok((0xBE00u16 | (immediate as u16), None))
            } else {
                Err(ErrorKind::IllegalImmediate)
            },
        Instruction::Move { predicate, destination, source, s } =>
            single(thumb_move(predicate, destination, source, s)),
        Instruction::MoveNot { predicate, destination, source, s } =>
            single(low_alu(0x43C0, predicate, destination, destination, source, s)),
        Instruction::Multiply { predicate, destination, base, source, s } =>
            single(low_alu(0x4340, predicate, destination, base, Shifter::LogicalShiftLeftImmediate { source, shift: 0 }, s)),
        Instruction::SoftwareInterrupt { predicate, immediate } =>
            if predicate != Predicate::Always {
                Err(ErrorKind::IllegalPredicate)
            } else if immediate > 0xFF {
                Err(ErrorKind::IllegalImmediate)
            } else {
                Ok((0xDF00u16 | (immediate as u16), None))
            },
        _ => Err(ErrorKind::IllegalInstruction),
    }
}

} // verus!

verus! {

fn predicate_always(p: Predicate) -> (r: Result<(), Error>)
    ensures
        outcome(r) == (if p != Predicate::Always { Err(ErrorKind::IllegalPredicate) } else { Ok::<(), ErrorKind>(()) }),
{
    if p != Predicate::Always {
        Err(Error::IllegalPredicate { reason: "must be `AL` on thumb" })
    } else {
        Ok(())
    }
}

fn low_register_error() -> (r: Error)
    ensures
        r.kind() == ErrorKind::IllegalRegister,
{
    Error::IllegalRegister { reason: "cannot encode high register on thumb" }
}

fn s_flag_error() -> (r: Error)
    ensures
        r.kind() == ErrorKind::IllegalFlag,
{
    Error::IllegalFlag { reason: "s flag must be on on thumb" }
}

fn encode_low_alu(template: u16, p: Predicate, d: Register, b: Register, source: Shifter, s: Sflag) -> (r: Result<u16, Error>)
    ensures
        outcome(r) == low_alu(template, p, d, b, source, s),
{
    let m = match source.as_register() {
        Ok(m) => m,
        Err(e) => return Err(e),
    };
    if let Err(e) = predicate_always(p) {
        return Err(e);
    }
    if b != d {
        return Err(Error::IllegalRegister { reason: "base must also be destination on thumb" });
    }
    if !d.is_low() || !m.is_low() {
        return Err(low_register_error());
    }
    if !s.is_on() {
        return Err(s_flag_error());
    }
    Ok(template | (d.value() as u16) | ((m.value() as u16) << 3u16))
}

fn encode_add_sub(subtract: bool, p: Predicate, d: Register, b: Register, source: Shifter, s: Sflag) -> (r: Result<u16, Error>)
    ensures
        outcome(r) == add_sub(subtract, p, d, b, source, s),
{
    let op: u16 = if subtract { 0x0200 } else { 0 };
    if let Err(e) = predicate_always(p) {
        return Err(e);
    }
    if !d.is_low() || !b.is_low() {
        return Err(low_register_error());
    }
    if !s.is_on() {
        return Err(s_flag_error());
    }
    match source {
        Shifter::Immediate(v) => {
            if v <= 7 {
                Ok(0x1C00u16 | op | ((v as u16) << 6u16) | ((b.value() as u16) << 3u16) | (d.value() as u16))
            } else {
                Err(Error::IllegalImmediate { reason: "cannot encode larger than (7) on thumb" })
            }
        },
        _ => match source.as_register() {
            Ok(m) => {
                if m.is_low() {
                    Ok(0x1800u16 | op | ((m.value() as u16) << 6u16) | ((b.value() as u16) << 3u16) | (d.value() as u16))
                } else {
                    Err(low_register_error())
                }
            },
            Err(e) => Err(e),
        },
    }
}

fn encode_shift_immediate(sh: Shifter) -> (r: Result<u16, Error>)
    ensures
        outcome(r) == thumb_shift_amount(sh),
{
    match sh {
        Shifter::LogicalShiftLeftImmediate { shift, .. } => {
            if shift <= 31 {
                Ok(shift as u16)
            } else {
                Err(Error::IllegalImmediate { reason: "shift must be at most (31)" })
            }
        },
        Shifter::LogicalShiftRightImmediate { shift, .. }
        | Shifter::ArithmeticShiftRightImmediate { shift, .. } => {
            if shift == 0 {
                Err(Error::IllegalImmediate { reason: "immediate shifts cannot be null on thumb" })
            } else if shift <= 31 {
                Ok(shift as u16)
            } else if shift == 32 {
                Ok(0)
            } else {
                Err(Error::IllegalImmediate { reason: "immediate shifts cannot be greater than (32) on thumb" })
            }
        },
        _ => Err(Error::IllegalShifter { reason: "not an immediate shift" }),
    }
}

fn encode_move(p: Predicate, d: Register, source: Shifter, s: Sflag) -> (r: Result<u16, Error>)
    ensures
        outcome(r) == thumb_move(p, d, source, s),
{
    if let Err(e) = predicate_always(p) {
        return Err(e);
    }
    match source {
        Shifter::LogicalShiftLeftImmediate { source: m, shift } if shift == 0 && s.is_off() => {
            let hd: u16 = if d.is_low() { 0 } else { 0x40 };
            let hm: u16 = if m.is_low() { 0 } else { 0x80 };
            Ok(0x4600u16 | ((d.value() as u16) & 7u16) | (((m.value() as u16) & 7u16) << 3u16) | hd | hm)
        },
        Shifter::LogicalShiftLeftImmediate { source: m, .. }
        | Shifter::LogicalShiftRightImmediate { source: m, .. }
        | Shifter::ArithmeticShiftRightImmediate { source: m, .. } => {
            if !d.is_low() || !m.is_low() {
                return Err(low_register_error());
            }
            if !s.is_on() {
                return Err(s_flag_error());
            }
            let amount = match encode_shift_immediate(source) {
                Ok(a) => a,
                Err(e) => return Err(e),
            };
            let template: u16 = match source {
                Shifter::LogicalShiftLeftImmediate { .. } => 0,
                Shifter::LogicalShiftRightImmediate { .. } => 0x0800,
                _ => 0x1000,
            };
            Ok(template | (amount << 6u16) | ((m.value() as u16) << 3u16) | (d.value() as u16))
        },
        Shifter::LogicalShiftLeftRegister { source: m, shift: r }
        | Shifter::LogicalShiftRightRegister { source: m, shift: r }
        | Shifter::ArithmeticShiftRightRegister { source: m, shift: r }
        | Shifter::RotateRightRegister { source: m, shift: r } => {
            if m != d {
                return Err(Error::IllegalRegister { reason: "source must also be destination on thumb" });
            }
            if !d.is_low() || !r.is_low() {
                return Err(low_register_error());
            }
            if !s.is_on() {
                return Err(s_flag_error());
            }
            let template: u16 = match source {
                Shifter::LogicalShiftLeftRegister { .. } => 0x4080,
                Shifter::LogicalShiftRightRegister { .. } => 0x40C0,
                Shifter::ArithmeticShiftRightRegister { .. } => 0x4100,
                _ => 0x41C0,
            };
            Ok(template | ((r.value() as u16) << 3u16) | (d.value() as u16))
        },
        Shifter::Immediate(v) => {
            if !s.is_on() {
                return Err(Error::IllegalShifter { reason: "can only encode registers with s flag off" });
            }
            if !d.is_low() {
                return Err(low_register_error());
            }
            if v > 0xFF {
                return Err(Error::IllegalImmediate { reason: "cannot encode larger than (255) on thumb" });
            }
            Ok(0x2000u16 | ((d.value() as u16) << 8u16) | (v as u16))
        },
        _ => Err(Error::IllegalShifter { reason: "not encodable on thumb" }),
    }
}

/// The Thumb base address of `cursor`.
fn base_of(cursor: u32) -> (r: u32)
    ensures
        r == thumb_base(cursor),
{
    ((cursor as u64) + 4) as u32
}

/// The signed offset of `target` from the Thumb base of `cursor`.
fn offset_of(target: u32, cursor: u32) -> (r: i32)
    ensures
        r == branch_offset(target, cursor),
{
    ((target as i64) - (base_of(cursor) as i64)) as i32
}

fn single(r: Result<u16, Error>) -> (o: Result<(u16, Option<u16>), Error>)
    ensures
        outcome(o) == (match outcome(r) {
            Ok(op) => Ok((op, None::<u16>)),
            Err(e) => Err(e),
        }),
{
    match r {
        Ok(op) => Ok((op, None)),
        Err(e) => Err(e),
    }
}

/// Encodes `i` as Thumb at `cursor`: one opcode, or two for `BL`.
#[verifier::spinoff_prover]
#[verifier::rlimit(50)]
pub fn encode_thumb_at(i: Instruction, cursor: u32) -> (r: Result<(u16, Option<u16>), Error>)
    ensures
        outcome(r) == thumb_encoding(i, cursor),
        thumb_encoding(i, cursor) == Err::<(u16, Option<u16>), ErrorKind>(ErrorKind::IllegalInstruction)
            ==> r == Err::<(u16, Option<u16>), Error>(Error::IllegalInstruction { reason: "not supported on thumb" }),
{
    match i {
        Instruction::Add { predicate, destination, base, source, s } =>
            single(encode_add_sub(false, predicate, destination, base, source, s)),
        Instruction::Subtract { predicate, destination, base, source, s } =>
            single(encode_add_sub(true, predicate, destination, base, source, s)),
        Instruction::AddCarry { predicate, destination, base, source, s } =>
            single(encode_low_alu(0x4140, predicate, destination, base, source, s)),
        Instruction::And { predicate, destination, base, source, s } =>
            single(encode_low_alu(0x4000, predicate, destination, base, source, s)),
        Instruction::BitClear { predicate, destination, base, source, s } =>
            single(encode_low_alu(0x4380, predicate, destination, base, source, s)),
        Instruction::ExclusiveOr { predicate, destination, base, source, s } =>
            single(encode_low_alu(0x4040, predicate, destination, base, source, s)),
        Instruction::InclusiveOr { predicate, destination, base, source, s } =>
            single(encode_low_alu(0x4300, predicate, destination, base, source, s)),
        Instruction::SubtractCarry { predicate, destination, base, source, s } =>
            single(encode_low_alu(0x4180, predicate, destination, base, source, s)),
        Instruction::Branch { predicate, immediate } => {
            let off = offset_of(immediate, cursor);
            if predicate == Predicate::Always {
                if -2048 <= off && off <= 2046 && off % 2 == 0 {
                    Ok((0xE000u16 | ((((off as u32) >> 1u32) & 0x7FFu32) as u16), None))
                } else {
                    Err(Error::IllegalImmediate { reason: "branch offset must be even and within (-2048) to (2046) on thumb" })
                }
            } else {
                if -256 <= off && off <= 254 && off % 2 == 0 {
                    Ok((0xD000u16 | ((predicate.value() as u16) << 8u16) | ((((off as u32) >> 1u32) & 0xFFu32) as u16), None))
                } else {
                    Err(Error::IllegalImmediate { reason: "conditional branch offset must be even and within (-256) to (254) on thumb" })
                }
            }
        },
        Instruction::BranchExchange { predicate, source } => {
            if let Err(e) = predicate_always(predicate) {
                return Err(e);
            }
            Ok((0x4700u16 | ((source.value() as u16) << 3u16), None))
        },
        Instruction::BranchLink { predicate, source } => {
            let off = offset_of(source, cursor);
            if let Err(e) = predicate_always(predicate) {
                return Err(e);
            }
            if -0x40_0000 <= off && off <= 0x3F_FFFE && off % 2 == 0 {
                Ok((
                    0xF000u16 | ((((off as u32) >> 12u32) & 0x7FFu32) as u16),
                    Some(0xF800u16 | ((((off as u32) >> 1u32) & 0x7FFu32) as u16)),
                ))
            } else {
                Err(Error::IllegalImmediate { reason: "long branch offset must be even and within (-4194304) to (4194302) on thumb" })
            }
        },
        Instruction::BranchLinkExchange { predicate, source } => {
            if let Err(e) = predicate_always(predicate) {
                return Err(e);
            }
            match source.as_register() {
                Ok(m) => Ok((0x4780u16 | ((m.value() as u16) << 3u16), None)),
                Err(_) => Err(Error::IllegalShifter { reason: "can only encode registers on thumb" }),
            }
        },
        Instruction::Breakpoint { immediate } => {
            if immediate <= 0xFF {
                Ok((0xBE00u16 | (immediate as u16), None))
            } else {
                Err(Error::IllegalImmediate { reason: "cannot encode larger than (255) on thumb" })
            }
        },
        Instruction::Move { predicate, destination, source, s } =>
            single(encode_move(predicate, destination, source, s)),
        Instruction::MoveNot { predicate, destination, source, s } =>
            single(encode_low_alu(0x43C0, predicate, destination, destination, source, s)),
        Instruction::Multiply { predicate, destination, base, source, s } =>
            single(encode_low_alu(0x4340, predicate, destination, base, Shifter::LogicalShiftLeftImmediate { source, shift: 0 }, s)),
        Instruction::SoftwareInterrupt { predicate, immediate } => {
            if let Err(e) = predicate_always(predicate) {
                return Err(e);
            }
            if immediate > 0xFF {
                return Err(Error::IllegalImmediate { reason: "cannot encode larger than (255) on thumb" });
            }
            Ok((0xDF00u16 | (immediate as u16), None))
        },
        _ => Err(Error::IllegalInstruction { reason: "not supported on thumb" }),
    }
}

} // verus!

verus! {

/// Thumb's two-operand data-processing forms (`ADC`, `AND`, `BIC`, `EOR`,
/// `ORR`, `SBC`, `MUL`) refuse to encode when the predicate is not `AL`, the
/// base is not the destination, an operand is a high register, or the S flag
/// is off.
pub proof fn lemma_thumb_two_operand_refusals(
    p: Predicate,
    d: Register,
    b: Register,
    m: Register,
    s: Sflag,
    cursor: u32,
)
    requires
        p != Predicate::Always || b != d || !d.is_low() || !m.is_low() || s != Sflag::On,
    ensures
        ({
            let source = Shifter::LogicalShiftLeftImmediate { source: m, shift: 0 };
            &&& thumb_encoding(Instruction::AddCarry { predicate: p, destination: d, base: b, source, s }, cursor) is Err
            &&& thumb_encoding(Instruction::And { predicate: p, destination: d, base: b, source, s }, cursor) is Err
            &&& thumb_encoding(Instruction::BitClear { predicate: p, destination: d, base: b, source, s }, cursor) is Err
            &&& thumb_encoding(Instruction::ExclusiveOr { predicate: p, destination: d, base: b, source, s }, cursor) is Err
            &&& thumb_encoding(Instruction::InclusiveOr { predicate: p, destination: d, base: b, source, s }, cursor) is Err
            &&& thumb_encoding(Instruction::SubtractCarry { predicate: p, destination: d, base: b, source, s }, cursor) is Err
            &&& thumb_encoding(Instruction::Multiply { predicate: p, destination: d, base: b, source: m, s }, cursor) is Err
        }),
{
}

/// Immediate shifts on Thumb: LSR and ASR by 32 write 0 in the 5-bit amount
/// field, LSL by 0 is allowed, and LSL by 32 is refused.
pub proof fn lemma_thumb_shift_amounts(m: Register)
    ensures
        thumb_shift_amount(Shifter::LogicalShiftRightImmediate { source: m, shift: 32 }) == Ok::<u16, ErrorKind>(0),
        thumb_shift_amount(Shifter::ArithmeticShiftRightImmediate { source: m, shift: 32 }) == Ok::<u16, ErrorKind>(0),
        thumb_shift_amount(Shifter::LogicalShiftLeftImmediate { source: m, shift: 0 }) == Ok::<u16, ErrorKind>(0),
        thumb_shift_amount(Shifter::LogicalShiftLeftImmediate { source: m, shift: 32 })
            == Err::<u16, ErrorKind>(ErrorKind::IllegalImmediate),
{
}

} // verus!
