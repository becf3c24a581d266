use vstd::prelude::*;

use crate::error::{outcome, Error, ErrorKind};
use crate::arm32::flag::Sflag;
use crate::arm32::instruction::Instruction;
use crate::arm32::predicate::Predicate;
use crate::arm32::register::Register;
use crate::arm32::shifter::Shifter;
use crate::arm32::thumb_encoding::{branch_offset, thumb_base, thumb_encoding};

verus! {

/// The low byte of `op` read as a signed 8-bit value.
pub open spec fn signed_byte(op: u16) -> int {
    ((op & 0xFFu16) as u8) as i8 as int
}

/// The register in the three bits of `op` that start at bit `at`.
pub open spec fn low_field(op: u16, at: u16) -> Register {
    Register::spec_from_bits(((op >> at) & 7u16) as u8)
}

/// The instruction that the Thumb opcode `op` at `cursor` stands for, or
/// `InvalidOpcode` outside the prefixes covered: `1101` (conditional branch
/// and `SWI`), `00011` (`ADD` / `SUB` of low registers) and `01000111`
/// (`BX` / `BLX`).
pub open spec fn thumb_decoding(op: u16, cursor: u32) -> Result<Instruction, ErrorKind> {
    if op >> 12u16 == 0xD {
        let c = ((op >> 8u16) & 0xFu16) as u8;
        if c == 0xF {
            Ok(Instruction::SoftwareInterrupt { predicate: Predicate::Always, immediate: (op & 0xFFu16) as u32 })
        } else {
            Ok(Instruction::Branch {
                predicate: Predicate::spec_from_bits(c),
                immediate: (thumb_base(cursor) as int + 2 * signed_byte(op)) as u32,
            })
        }
    } else if op >> 11u16 == 3 {
        let d = Register::spec_from_bits((op & 7u16) as u8);
        let b = low_field(op, 3);
        let x = (op >> 6u16) & 7u16;
        let source = if op & 0x0400u16 != 0 {
            Shifter::Immediate(x as u32)
        } else {
            Shifter::LogicalShiftLeftImmediate { source: Register::spec_from_bits(x as u8), shift: 0 }
        };
        if op & 0x0200u16 != 0 {
            Ok(Instruction::Subtract { predicate: Predicate::Always, destination: d, base: b, source, s: Sflag::On })
        } else {
            Ok(Instruction::Add { predicate: Predicate::Always, destination: d, base: b, source, s: Sflag::On })
        }
    } else if op >> 8u16 == 0x47 {
        let m = Register::spec_from_bits(((op >> 3u16) & 0xFu16) as u8);
        if op & 0x80u16 != 0 {
            Ok(Instruction::BranchLinkExchange {
                predicate: Predicate::Always,
                source: Shifter::LogicalShiftLeftImmediate { source: m, shift: 0 },
            })
        } else {
            Ok(Instruction::BranchExchange { predicate: Predicate::Always, source: m })
        }
    } else {
        Err(ErrorKind::InvalidOpcode)
    }
}

/// Decodes the Thumb opcode `op` at `cursor`.
pub fn decode_thumb_at(op: u16, cursor: u32) -> (r: Result<Instruction, Error>)
    ensures
        outcome(r) == thumb_decoding(op, cursor),
{
    if op >> 12u16 == 0xD {
        assert((op >> 8u16) & 0xFu16 <= 15) by (bit_vector);
        let c = ((op >> 8u16) & 0xFu16) as u8;
        if c == 0xF {
            Ok(Instruction::SoftwareInterrupt { predicate: Predicate::Always, immediate: (op & 0xFFu16) as u32 })
        } else {
            let predicate = match Predicate::from_u8(c) {
                Some(p) => p,
                None => return Err(Error::InvalidOpcode),
            };
            let base = ((cursor as u64) + 4) as u32;
            let offset: i64 = 2 * (((op & 0xFFu16) as u8) as i8 as i64);
            Ok(Instruction::Branch { predicate, immediate: ((base as i64) + offset) as u32 })
        }
    } else if op >> 11u16 == 3 {
        let d = Register::from_bits((op & 7u16) as u8);
        let b = Register::from_bits(((op >> 3u16) & 7u16) as u8);
        let x = (op >> 6u16) & 7u16;
        let source = if op & 0x0400u16 != 0 {
            Shifter::Immediate(x as u32)
        } else {
            Shifter::from_register(Register::from_bits(x as u8))
        };
        if op & 0x0200u16 != 0 {
            Ok(Instruction::Subtract { predicate: Predicate::Always, destination: d, base: b, source, s: Sflag::On })
        } else {
            Ok(Instruction::Add { predicate: Predicate::Always, destination: d, base: b, source, s: Sflag::On })
        }
    } else if op >> 8u16 == 0x47 {
        let m = Register::from_bits(((op >> 3u16) & 0xFu16) as u8);
        if op & 0x80u16 != 0 {
            Ok(Instruction::BranchLinkExchange { predicate: Predicate::Always, source: Shifter::from_register(m) })
        } else {
            Ok(Instruction::BranchExchange { predicate: Predicate::Always, source: m })
        }
    } else {
        Err(Error::InvalidOpcode)
    }
}

} // verus!

verus! {

proof fn lemma_register_bits(v: u8)
    ensures
        Register::spec_from_bits(v).value() == v % 16,
{
}

proof fn lemma_predicate_bits(c: u8)
    requires
        c < 15,
    ensures
        Predicate::spec_from_bits(c).value() == c,
        (Predicate::spec_from_bits(c) == Predicate::Always) == (c == 14),
{
}

/// Adding a signed offset to a base and measuring it from the base again
/// gives back the offset.
proof fn lemma_offset_wraps(base: u32, k: i32)
    ensures
        (((base as int + k as int) as u32) as int - base as int) as i32 == k,
{
    assert((((base as int + k as int) as u32) as int - base as int) as i32 == k) by (bit_vector);
}

/// Decoding a covered Thumb opcode and encoding the result at the same cursor
/// gives back the opcode. Two kinds of opcode are left out, because they
/// decode to an instruction whose own encoding differs: `0xDExx`, a
/// conditional branch on `AL`, which encodes as the unconditional form; and
/// `BX` / `BLX` with any of bits 2 to 0 set, which encode with them clear.
pub proof fn lemma_thumb_round_trip(op: u16, cursor: u32)
    requires
        thumb_decoding(op, cursor) is Ok,
        op >> 8u16 != 0xDE,
        op >> 8u16 == 0x47 ==> op & 7u16 == 0,
    ensures
        thumb_encoding(thumb_decoding(op, cursor)->Ok_0, cursor) == Ok::<(u16, Option<u16>), ErrorKind>((op, None)),
{
    if op >> 12u16 == 0xD {
        let c = ((op >> 8u16) & 0xFu16) as u8;
        assert((op >> 8u16) & 0xFu16 <= 15) by (bit_vector);
        if c == 0xF {
            let imm = (op & 0xFFu16) as u32;
            assert(imm <= 0xFF && 0xDF00u16 | (imm as u16) == op) by (bit_vector)
                requires
                    op >> 12u16 == 0xD,
                    (op >> 8u16) & 0xFu16 == 0xF,
                    imm == (op & 0xFFu16) as u32,
            ;
        } else {
            assert(c != 14) by (bit_vector)
                requires
                    op >> 12u16 == 0xD,
                    op >> 8u16 != 0xDE,
                    c == ((op >> 8u16) & 0xFu16) as u8,
            ;
            lemma_predicate_bits(c);
            let k = signed_byte(op);
            let base = thumb_base(cursor);
            let kk: i8 = (op & 0xFFu16) as u8 as i8;
            let off: i32 = (2 * kk) as i32;
            lemma_offset_wraps(base, off);
            assert(-256 <= off <= 254 && off % 2 == 0
                && 0xD000u16 | ((c as u16) << 8u16) | ((((off as u32) >> 1u32) & 0xFFu32) as u16) == op)
                by (bit_vector)
                requires
                    op >> 12u16 == 0xD,
                    c == ((op >> 8u16) & 0xFu16) as u8,
                    kk == (op & 0xFFu16) as u8 as i8,
                    off == (2 * kk) as i32,
            ;
        }
    } else if op >> 11u16 == 3 {
        let d = (op & 7u16) as u8;
        let b = ((op >> 3u16) & 7u16) as u8;
        let x = (op >> 6u16) & 7u16;
        lemma_register_bits(d);
        lemma_register_bits(b);
        lemma_register_bits(x as u8);
        assert(d < 8 && b < 8 && x < 8) by (bit_vector)
            requires
                d == (op & 7u16) as u8,
                b == ((op >> 3u16) & 7u16) as u8,
                x == (op >> 6u16) & 7u16,
        ;
        let sub: u16 = if op & 0x0200u16 != 0 { 0x0200 } else { 0 };
        assert(sub == op & 0x0200u16) by (bit_vector)
            requires
                sub == (if op & 0x0200u16 != 0 { 0x0200u16 } else { 0u16 }),
        ;
        assert(op & 0x0400u16 != 0 ==> 0x1C00u16 | sub | ((x as u32) as u16) << 6u16 | ((b as u16) << 3u16) | (d as u16) == op)
            by (bit_vector)
            requires
                op >> 11u16 == 3,
                sub == op & 0x0200u16,
                d == (op & 7u16) as u8,
                b == ((op >> 3u16) & 7u16) as u8,
                x == (op >> 6u16) & 7u16,
        ;
        assert(op & 0x0400u16 == 0 ==> 0x1800u16 | sub | (((x as u8) as u16) << 6u16) | ((b as u16) << 3u16) | (d as u16) == op)
            by (bit_vector)
            requires
                op >> 11u16 == 3,
                sub == op & 0x0200u16,
                d == (op & 7u16) as u8,
                b == ((op >> 3u16) & 7u16) as u8,
                x == (op >> 6u16) & 7u16,
        ;
    } else if op >> 8u16 == 0x47 {
        let m = ((op >> 3u16) & 0xFu16) as u8;
        lemma_register_bits(m);
        assert(m < 16) by (bit_vector)
            requires
                m == ((op >> 3u16) & 0xFu16) as u8,
        ;
        assert(op & 0x80u16 != 0 ==> 0x4780u16 | ((m as u16) << 3u16) == op) by (bit_vector)
            requires
                op >> 8u16 == 0x47,
                op & 7u16 == 0,
                m == ((op >> 3u16) & 0xFu16) as u8,
        ;
        assert(op & 0x80u16 == 0 ==> 0x4700u16 | ((m as u16) << 3u16) == op) by (bit_vector)
            requires
                op >> 8u16 == 0x47,
                op & 7u16 == 0,
                m == ((op >> 3u16) & 0xFu16) as u8,
        ;
    }
}

} // verus!

verus! {

/// The target of a Thumb `BL` pair at `cursor`: the 23-bit signed offset
/// spread over the two opcodes, added to the Thumb base.
pub open spec fn long_branch_target(first: u16, second: u16, cursor: u32) -> u32 {
    let v: u32 = (((first & 0x7FFu16) as u32) << 12u32) | (((second & 0x7FFu16) as u32) << 1u32);
    let off: i32 = ((v << 9u32) as i32) >> 9u32;
    (thumb_base(cursor) as int + off as int) as u32
}

/// A target `cursor + 4 + off` lies `off` from the Thumb base.
proof fn lemma_target_offset(cursor: u32, off: i32)
    ensures
        (thumb_base(cursor) as int + off as int) as u32 == (cursor as int + 4 + off as int) as u32,
        branch_offset((cursor as int + 4 + off as int) as u32, cursor) == off,
{
    let base = thumb_base(cursor);
    assert(((cursor as int + 4) as u32 as int + off as int) as u32 == (cursor as int + 4 + off as int) as u32)
        by (bit_vector);
    lemma_offset_wraps(base, off);
}

/// Conditional branches on Thumb: a target
/// `cursor + 4 + 2k` for `k` from -128 to 127 encodes, and the opcode decodes
/// back to the same branch; `k = 128` and `k = -129` are refused.
pub proof fn lemma_thumb_short_branch(p: Predicate, cursor: u32, k: i32)
    requires
        p != Predicate::Always,
        -0x1000_0000 <= k <= 0x1000_0000,
    ensures
        ({
            let target = (cursor as int + 4 + 2 * k) as u32;
            let i = Instruction::Branch { predicate: p, immediate: target };
            &&& -128 <= k <= 127 ==> (thumb_encoding(i, cursor) matches Ok((op, second)) && second is None
                && thumb_decoding(op, cursor) == Ok::<Instruction, ErrorKind>(i))
            &&& (k == 128 || k == -129) ==> thumb_encoding(i, cursor) == Err::<(u16, Option<u16>), ErrorKind>(
                ErrorKind::IllegalImmediate,
            )
        }),
{
    let off: i32 = (2 * k) as i32;
    assert(off as int == 2 * k);
    lemma_target_offset(cursor, off);
    crate::arm32::predicate::lemma_predicate_value_injective(p, p);
    let c = p.value();
    if -128 <= k <= 127 {
        let op = 0xD000u16 | ((c as u16) << 8u16) | ((((off as u32) >> 1u32) & 0xFFu32) as u16);
        assert(op >> 12u16 == 0xD && ((op >> 8u16) & 0xFu16) as u8 == c
            && ((op & 0xFFu16) as u8 as i8) as i32 == k && -256 <= off <= 254 && off % 2 == 0)
            by (bit_vector)
            requires
                c < 14,
                -128 <= k <= 127,
                off == 2 * k,
                op == 0xD000u16 | ((c as u16) << 8u16) | ((((off as u32) >> 1u32) & 0xFFu32) as u16),
        ;
        assert(thumb_base(cursor) as int + 2 * signed_byte(op) == thumb_base(cursor) as int + off as int);
    }
}

/// `BL` on Thumb: a target `cursor + 4 + 2k` for
/// `k` from -2^21 to 2^21 - 1 encodes as a pair whose offset fields give
/// back the target; an odd offset is refused.
pub proof fn lemma_thumb_long_branch(cursor: u32, k: i32)
    requires
        -0x2000_0000 <= k <= 0x2000_0000,
    ensures
        ({
            let target = (cursor as int + 4 + 2 * k) as u32;
            let i = Instruction::BranchLink { predicate: Predicate::Always, source: target };
            -0x20_0000 <= k <= 0x1F_FFFF ==> (thumb_encoding(i, cursor) matches Ok((first, second))
                && second matches Some(second) && long_branch_target(first, second, cursor) == target)
        }),
        ({
            let target = (cursor as int + 4 + 2 * k + 1) as u32;
            thumb_encoding(Instruction::BranchLink { predicate: Predicate::Always, source: target }, cursor)
                == Err::<(u16, Option<u16>), ErrorKind>(ErrorKind::IllegalImmediate)
        }),
{
    let off: i32 = (2 * k) as i32;
    lemma_target_offset(cursor, off);
    let odd: i32 = (2 * k + 1) as i32;
    lemma_target_offset(cursor, odd);
    assert(odd % 2 != 0);
    if -0x20_0000 <= k <= 0x1F_FFFF {
        let first = 0xF000u16 | ((((off as u32) >> 12u32) & 0x7FFu32) as u16);
        let second = 0xF800u16 | ((((off as u32) >> 1u32) & 0x7FFu32) as u16);
        let v: u32 = (((first & 0x7FFu16) as u32) << 12u32) | (((second & 0x7FFu16) as u32) << 1u32);
        assert(((v << 9u32) as i32) >> 9u32 == off && -0x40_0000 <= off <= 0x3F_FFFE && off % 2 == 0)
            by (bit_vector)
            requires
                -0x20_0000 <= k <= 0x1F_FFFF,
                off == 2 * k,
                first == 0xF000u16 | ((((off as u32) >> 12u32) & 0x7FFu32) as u16),
                second == 0xF800u16 | ((((off as u32) >> 1u32) & 0x7FFu32) as u16),
                v == (((first & 0x7FFu16) as u32) << 12u32) | (((second & 0x7FFu16) as u32) << 1u32),
        ;
    }
}

} // verus!
