use vstd::prelude::*;
use vstd::string::StringExecFns;

use crate::arm32::address::Address;
use crate::arm32::flag::{Bflag, Sflag, Tflag};
use crate::arm32::predicate::Predicate;
use crate::arm32::register::Register;
use crate::arm32::shifter::Shifter;
use crate::arm32::text::{decimal, push_decimal, same_text};
use crate::error::Error;

verus! {

/// One instruction of the 32-bit Arm family, with exactly the operands that
/// its mnemonic takes.
#[derive(Clone, Copy, Debug, PartialEq, Eq, Hash, Structural)]
pub enum Instruction {
    Add { predicate: Predicate, destination: Register, base: Register, source: Shifter, s: Sflag },
    AddCarry { predicate: Predicate, destination: Register, base: Register, source: Shifter, s: Sflag },
    And { predicate: Predicate, destination: Register, base: Register, source: Shifter, s: Sflag },
    BitClear { predicate: Predicate, destination: Register, base: Register, source: Shifter, s: Sflag },
    Branch { predicate: Predicate, immediate: u32 },
    BranchExchange { predicate: Predicate, source: Register },
    BranchLink { predicate: Predicate, source: u32 },
    BranchLinkExchange { predicate: Predicate, source: Shifter },
    Breakpoint { immediate: u32 },
    CountLeadingZeroes { predicate: Predicate, destination: Register, source: Register },
    Compare { predicate: Predicate, lhs: Register, rhs: Shifter },
    CompareNegated { predicate: Predicate, lhs: Register, rhs: Shifter },
    ExclusiveOr { predicate: Predicate, destination: Register, base: Register, source: Shifter, s: Sflag },
    InclusiveOr { predicate: Predicate, destination: Register, base: Register, source: Shifter, s: Sflag },
    Load { predicate: Predicate, register: Register, address: Address, b: Bflag, t: Tflag },
    Move { predicate: Predicate, destination: Register, source: Shifter, s: Sflag },
    MoveNot { predicate: Predicate, destination: Register, source: Shifter, s: Sflag },
    Multiply { predicate: Predicate, destination: Register, base: Register, source: Register, s: Sflag },
    MultiplyAccumulate {
        predicate: Predicate,
        destination: Register,
        base: Register,
        source: Register,
        shift: Register,
        s: Sflag,
    },
    Reverse { predicate: Predicate, destination: Register, source: Register },
    ReverseSubtract { predicate: Predicate, destination: Register, base: Register, source: Shifter, s: Sflag },
    ReverseSubtractCarry {
        predicate: Predicate,
        destination: Register,
        base: Register,
        source: Shifter,
        s: Sflag,
    },
    SaturatingAdd { predicate: Predicate, destination: Register, base: Register, source: Register },
    SaturatingSubtract { predicate: Predicate, destination: Register, base: Register, source: Register },
    SoftwareInterrupt { predicate: Predicate, immediate: u32 },
    Store { predicate: Predicate, register: Register, address: Address, b: Bflag, t: Tflag },
    Subtract { predicate: Predicate, destination: Register, base: Register, source: Shifter, s: Sflag },
    SubtractCarry { predicate: Predicate, destination: Register, base: Register, source: Shifter, s: Sflag },
    Swap { predicate: Predicate, register: Register, address: Address, b: Bflag },
    UnsignedSaturate { predicate: Predicate, destination: Register, immediate: u32, source: Shifter },
    Test { predicate: Predicate, lhs: Register, rhs: Shifter },
    TestEquivalence { predicate: Predicate, lhs: Register, rhs: Shifter },
}

/// `MNEMONIC<cond><s> d, b, source`.
#[verifier::opaque]
pub open spec fn alu_text(
    mnemonic: Seq<char>,
    p: Predicate,
    s: Sflag,
    d: Register,
    b: Register,
    source: Shifter,
) -> Seq<char> {
    mnemonic + p.spec_suffix() + s.spec_suffix() + " "@ + d.spec_name() + ", "@ + b.spec_name()
        + ", "@ + source.spec_text()
}

/// `MNEMONIC<cond><s> d, operand`, where the operand text is given.
#[verifier::opaque]
pub open spec fn unary_text(
    mnemonic: Seq<char>,
    p: Predicate,
    s: Sflag,
    d: Register,
    operand: Seq<char>,
) -> Seq<char> {
    mnemonic + p.spec_suffix() + s.spec_suffix() + " "@ + d.spec_name() + ", "@ + operand
}

/// `MNEMONIC<cond><s> d, m, amount`: a move with a shift, written as the shift.
#[verifier::opaque]
pub open spec fn shift_text(
    mnemonic: Seq<char>,
    p: Predicate,
    s: Sflag,
    d: Register,
    m: Register,
    amount: Seq<char>,
) -> Seq<char> {
    unary_text(mnemonic, p, s, d, m.spec_name() + ", "@ + amount)
}

/// `MNEMONIC<cond><b><t> r, address`.
#[verifier::opaque]
pub open spec fn memory_text(
    mnemonic: Seq<char>,
    p: Predicate,
    b: Seq<char>,
    t: Seq<char>,
    r: Register,
    address: Address,
) -> Seq<char> {
    mnemonic + p.spec_suffix() + b + t + " "@ + r.spec_name() + ", "@ + address.spec_text()
}

/// `MNEMONIC<cond> r, operand`, for a shifter operand.
#[verifier::opaque]
pub open spec fn compare_text(mnemonic: Seq<char>, p: Predicate, lhs: Register, rhs: Shifter) -> Seq<char> {
    mnemonic + p.spec_suffix() + " "@ + lhs.spec_name() + ", "@ + rhs.spec_text()
}

/// `MNEMONIC<cond> operand`, where the operand text is given.
#[verifier::opaque]
pub open spec fn single_text(mnemonic: Seq<char>, p: Predicate, operand: Seq<char>) -> Seq<char> {
    mnemonic + p.spec_suffix() + " "@ + operand
}

/// `MNEMONIC<suffix> #immediate`.
#[verifier::opaque]
pub open spec fn immediate_text(mnemonic: Seq<char>, suffix: Seq<char>, immediate: u32) -> Seq<char> {
    mnemonic + suffix + " #"@ + decimal(immediate as nat)
}

/// The text of a move: with a shift, the shift's own mnemonic; a bare
/// register without the S flag is `CPY`; anything else is `MOV`.
#[verifier::opaque]
pub open spec fn move_text(p: Predicate, d: Register, source: Shifter, s: Sflag) -> Seq<char> {
    match source {
        Shifter::LogicalShiftLeftImmediate { source: m, shift } if shift == 0 && s == Sflag::Off =>
            single_text("CPY"@, p, d.spec_name() + ", "@ + m.spec_name()),
        Shifter::ArithmeticShiftRightImmediate { source: m, shift } =>
            shift_text("ASR"@, p, s, d, m, "#"@ + decimal(shift as nat)),
        Shifter::ArithmeticShiftRightRegister { source: m, shift } =>
            shift_text("ASR"@, p, s, d, m, shift.spec_name()),
        Shifter::LogicalShiftLeftImmediate { source: m, shift } if shift != 0 =>
            shift_text("LSL"@, p, s, d, m, "#"@ + decimal(shift as nat)),
        Shifter::LogicalShiftLeftRegister { source: m, shift } =>
            shift_text("LSL"@, p, s, d, m, shift.spec_name()),
        Shifter::LogicalShiftRightImmediate { source: m, shift } =>
            shift_text("LSR"@, p, s, d, m, "#"@ + decimal(shift as nat)),
        Shifter::LogicalShiftRightRegister { source: m, shift } =>
            shift_text("LSR"@, p, s, d, m, shift.spec_name()),
        Shifter::RotateRightImmediate { source: m, shift } =>
            shift_text("ROR"@, p, s, d, m, "#"@ + decimal(shift as nat)),
        Shifter::RotateRightRegister { source: m, shift } =>
            shift_text("ROR"@, p, s, d, m, shift.spec_name()),
        _ => unary_text("MOV"@, p, s, d, source.spec_text()),
    }
}

impl Instruction {
    /// The instruction's condition code; `BKPT` has none and always executes.
    pub open spec fn spec_predicate(self) -> Predicate {
        match self {
            Instruction::Add { predicate, .. } => predicate,
            Instruction::AddCarry { predicate, .. } => predicate,
            Instruction::And { predicate, .. } => predicate,
            Instruction::BitClear { predicate, .. } => predicate,
            Instruction::Branch { predicate, .. } => predicate,
            Instruction::BranchExchange { predicate, .. } => predicate,
            Instruction::BranchLink { predicate, .. } => predicate,
            Instruction::BranchLinkExchange { predicate, .. } => predicate,
            Instruction::Breakpoint { .. } => Predicate::Always,
            Instruction::CountLeadingZeroes { predicate, .. } => predicate,
            Instruction::Compare { predicate, .. } => predicate,
            Instruction::CompareNegated { predicate, .. } => predicate,
            Instruction::ExclusiveOr { predicate, .. } => predicate,
            Instruction::InclusiveOr { predicate, .. } => predicate,
            Instruction::Load { predicate, .. } => predicate,
            Instruction::Move { predicate, .. } => predicate,
            Instruction::MoveNot { predicate, .. } => predicate,
            Instruction::Multiply { predicate, .. } => predicate,
            Instruction::MultiplyAccumulate { predicate, .. } => predicate,
            Instruction::Reverse { predicate, .. } => predicate,
            Instruction::ReverseSubtract { predicate, .. } => predicate,
            Instruction::ReverseSubtractCarry { predicate, .. } => predicate,
            Instruction::SaturatingAdd { predicate, .. } => predicate,
            Instruction::SaturatingSubtract { predicate, .. } => predicate,
            Instruction::SoftwareInterrupt { predicate, .. } => predicate,
            Instruction::Store { predicate, .. } => predicate,
            Instruction::Subtract { predicate, .. } => predicate,
            Instruction::SubtractCarry { predicate, .. } => predicate,
            Instruction::Swap { predicate, .. } => predicate,
            Instruction::UnsignedSaturate { predicate, .. } => predicate,
            Instruction::Test { predicate, .. } => predicate,
            Instruction::TestEquivalence { predicate, .. } => predicate,
        }
    }

    /// The instruction in assembly text.
    pub open spec fn spec_text(self) -> Seq<char> {
        match self {
            Instruction::Add { predicate: p, destination: d, base: b, source, s } =>
                alu_text("ADD"@, p, s, d, b, source),
            Instruction::AddCarry { predicate: p, destination: d, base: b, source, s } =>
                alu_text("ADC"@, p, s, d, b, source),
            Instruction::And { predicate: p, destination: d, base: b, source, s } =>
                alu_text("AND"@, p, s, d, b, source),
            Instruction::BitClear { predicate: p, destination: d, base: b, source, s } =>
                alu_text("BIC"@, p, s, d, b, source),
            Instruction::Branch { predicate: p, immediate } =>
                immediate_text("B"@, p.spec_suffix(), immediate),
            Instruction::BranchExchange { predicate: p, source } =>
                single_text("BX"@, p, source.spec_name()),
            Instruction::BranchLink { predicate: p, source } =>
                immediate_text("BL"@, p.spec_suffix(), source),
            Instruction::BranchLinkExchange { predicate: p, source } =>
                single_text("BLX"@, p, source.spec_text()),
            Instruction::Breakpoint { immediate } => immediate_text("BKPT"@, ""@, immediate),
            Instruction::CountLeadingZeroes { predicate: p, destination: d, source } =>
                unary_text("CLZ"@, p, Sflag::Off, d, source.spec_name()),
            Instruction::Compare { predicate: p, lhs, rhs } => compare_text("CMP"@, p, lhs, rhs),
            Instruction::CompareNegated { predicate: p, lhs, rhs } => compare_text("CMN"@, p, lhs, rhs),
            Instruction::ExclusiveOr { predicate: p, destination: d, base: b, source, s } =>
                alu_text("EOR"@, p, s, d, b, source),
            Instruction::InclusiveOr { predicate: p, destination: d, base: b, source, s } =>
                alu_text("ORR"@, p, s, d, b, source),
            Instruction::Load { predicate: p, register, address, b, t } =>
                memory_text("LDR"@, p, b.spec_suffix(), t.spec_suffix(), register, address),
            Instruction::Move { predicate: p, destination: d, source, s } => move_text(p, d, source, s),
            Instruction::MoveNot { predicate: p, destination: d, source, s } =>
                unary_text("MVN"@, p, s, d, source.spec_text()),
            Instruction::Multiply { predicate: p, destination: d, base: b, source, s } =>
                unary_text("MUL"@, p, s, d, b.spec_name() + ", "@ + source.spec_name()),
            Instruction::MultiplyAccumulate { predicate: p, destination: d, base: b, source, shift, s } =>
                unary_text(
                    "MLA"@,
                    p,
                    s,
                    d,
                    b.spec_name() + ", "@ + source.spec_name() + ", "@ + shift.spec_name(),
                ),
            Instruction::Reverse { predicate: p, destination: d, source } =>
                unary_text("REV"@, p, Sflag::Off, d, source.spec_name()),
            Instruction::ReverseSubtract { predicate: p, destination: d, base: b, source, s } =>
                if source == Shifter::Immediate(0) {
                    unary_text("NEG"@, p, s, d, b.spec_name())
                } else {
                    alu_text("RSB"@, p, s, d, b, source)
                },
            Instruction::ReverseSubtractCarry { predicate: p, destination: d, base: b, source, s } =>
                alu_text("RSC"@, p, s, d, b, source),
            Instruction::SaturatingAdd { predicate: p, destination: d, base: b, source } =>
                unary_text("QADD"@, p, Sflag::Off, d, b.spec_name() + ", "@ + source.spec_name()),
            Instruction::SaturatingSubtract { predicate: p, destination: d, base: b, source } =>
                unary_text("QSUB"@, p, Sflag::Off, d, b.spec_name() + ", "@ + source.spec_name()),
            Instruction::SoftwareInterrupt { predicate: p, immediate } =>
                immediate_text("SWI"@, p.spec_suffix(), immediate),
            Instruction::Store { predicate: p, register, address, b, t } =>
                memory_text("STR"@, p, b.spec_suffix(), t.spec_suffix(), register, address),
            Instruction::Subtract { predicate: p, destination: d, base: b, source, s } =>
                alu_text("SUB"@, p, s, d, b, source),
            Instruction::SubtractCarry { predicate: p, destination: d, base: b, source, s } =>
                alu_text("SBC"@, p, s, d, b, source),
            Instruction::Swap { predicate: p, register, address, b } =>
                memory_text("SWP"@, p, b.spec_suffix(), ""@, register, address),
            Instruction::UnsignedSaturate { predicate: p, destination: d, immediate, source } =>
                unary_text("USAT"@, p, Sflag::Off, d, "#"@ + decimal(immediate as nat) + ", "@ + source.spec_text()),
            Instruction::Test { predicate: p, lhs, rhs } => compare_text("TST"@, p, lhs, rhs),
            Instruction::TestEquivalence { predicate: p, lhs, rhs } => compare_text("TEQ"@, p, lhs, rhs),
        }
    }
}

/// Appends `MNEMONIC<cond><s> d, ` to `s`.
fn push_head(s: &mut String, mnemonic: &str, p: Predicate, flag: Sflag, d: Register)
    ensures
        final(s)@ == old(s)@ + (mnemonic@ + p.spec_suffix() + flag.spec_suffix() + " "@ + d.spec_name() + ", "@),
{
    let ghost s0 = s@;
    s.append(mnemonic);
    s.append(p.suffix());
    s.append(flag.suffix());
    s.append(" ");
    s.append(d.name());
    s.append(", ");
    proof {
        assert(s@ =~= s0 + (mnemonic@ + p.spec_suffix() + flag.spec_suffix() + " "@ + d.spec_name() + ", "@));
    }
}

/// Appends `alu_text` to `s`.
fn push_alu(s: &mut String, mnemonic: &str, p: Predicate, flag: Sflag, d: Register, b: Register, source: Shifter)
    ensures
        final(s)@ == old(s)@ + alu_text(mnemonic@, p, flag, d, b, source),
{
    let ghost s0 = s@;
    push_head(s, mnemonic, p, flag, d);
    s.append(b.name());
    s.append(", ");
    source.push_text(s);
    proof {
        reveal(alu_text);
        assert(s@ =~= s0 + alu_text(mnemonic@, p, flag, d, b, source));
    }
}

/// Appends `unary_text` to `s`, where the operand text is already in `operand`.
fn push_unary(s: &mut String, mnemonic: &str, p: Predicate, flag: Sflag, d: Register, operand: &str)
    ensures
        final(s)@ == old(s)@ + unary_text(mnemonic@, p, flag, d, operand@),
{
    let ghost s0 = s@;
    push_head(s, mnemonic, p, flag, d);
    s.append(operand);
    proof {
        reveal(unary_text);
        assert(s@ =~= s0 + unary_text(mnemonic@, p, flag, d, operand@));
    }
}

/// Appends `unary_text` with a shifter operand to `s`.
fn push_unary_shifter(s: &mut String, mnemonic: &str, p: Predicate, flag: Sflag, d: Register, source: Shifter)
    ensures
        final(s)@ == old(s)@ + unary_text(mnemonic@, p, flag, d, source.spec_text()),
{
    let ghost s0 = s@;
    push_head(s, mnemonic, p, flag, d);
    source.push_text(s);
    proof {
        reveal(unary_text);
        assert(s@ =~= s0 + unary_text(mnemonic@, p, flag, d, source.spec_text()));
    }
}

/// Appends `unary_text` with a list of registers as the operand to `s`.
fn push_registers(s: &mut String, mnemonic: &str, p: Predicate, flag: Sflag, d: Register, b: Register, m: Register)
    ensures
        final(s)@ == old(s)@ + unary_text(mnemonic@, p, flag, d, b.spec_name() + ", "@ + m.spec_name()),
{
    let ghost s0 = s@;
    push_head(s, mnemonic, p, flag, d);
    s.append(b.name());
    s.append(", ");
    s.append(m.name());
    proof {
        reveal(unary_text);
        assert(s@ =~= s0 + unary_text(mnemonic@, p, flag, d, b.spec_name() + ", "@ + m.spec_name()));
    }
}

/// Appends the text of a multiply-accumulate to `s`.
fn push_multiply_accumulate(s: &mut String, p: Predicate, flag: Sflag, d: Register, b: Register, m: Register, a: Register)
    ensures
        final(s)@ == old(s)@ + unary_text(
            "MLA"@,
            p,
            flag,
            d,
            b.spec_name() + ", "@ + m.spec_name() + ", "@ + a.spec_name(),
        ),
{
    let ghost s0 = s@;
    push_head(s, "MLA", p, flag, d);
    s.append(b.name());
    s.append(", ");
    s.append(m.name());
    s.append(", ");
    s.append(a.name());
    proof {
        reveal(unary_text);
        assert(s@ =~= s0 + unary_text(
            "MLA"@,
            p,
            flag,
            d,
            b.spec_name() + ", "@ + m.spec_name() + ", "@ + a.spec_name(),
        ));
    }
}

/// Appends the text of an unsigned saturation to `s`.
fn push_saturate(s: &mut String, p: Predicate, d: Register, immediate: u32, source: Shifter)
    ensures
        final(s)@ == old(s)@ + unary_text(
            "USAT"@,
            p,
            Sflag::Off,
            d,
            "#"@ + decimal(immediate as nat) + ", "@ + source.spec_text(),
        ),
{
    let ghost s0 = s@;
    push_head(s, "USAT", p, Sflag::Off, d);
    s.append("#");
    push_decimal(s, immediate);
    s.append(", ");
    source.push_text(s);
    proof {
        reveal(unary_text);
        assert(s@ =~= s0 + unary_text(
            "USAT"@,
            p,
            Sflag::Off,
            d,
            "#"@ + decimal(immediate as nat) + ", "@ + source.spec_text(),
        ));
    }
}

/// Appends `compare_text` to `s`.
fn push_compare(s: &mut String, mnemonic: &str, p: Predicate, lhs: Register, rhs: Shifter)
    ensures
        final(s)@ == old(s)@ + compare_text(mnemonic@, p, lhs, rhs),
{
    let ghost s0 = s@;
    s.append(mnemonic);
    s.append(p.suffix());
    s.append(" ");
    s.append(lhs.name());
    s.append(", ");
    rhs.push_text(s);
    proof {
        reveal(compare_text);
        assert(s@ =~= s0 + compare_text(mnemonic@, p, lhs, rhs));
    }
}

/// Appends `single_text` to `s`, where the operand text is already in `operand`.
fn push_single(s: &mut String, mnemonic: &str, p: Predicate, operand: &str)
    ensures
        final(s)@ == old(s)@ + single_text(mnemonic@, p, operand@),
{
    let ghost s0 = s@;
    s.append(mnemonic);
    s.append(p.suffix());
    s.append(" ");
    s.append(operand);
    proof {
        reveal(single_text);
        assert(s@ =~= s0 + single_text(mnemonic@, p, operand@));
    }
}

/// Appends `single_text` with a shifter operand to `s`.
fn push_single_shifter(s: &mut String, mnemonic: &str, p: Predicate, source: Shifter)
    ensures
        final(s)@ == old(s)@ + single_text(mnemonic@, p, source.spec_text()),
{
    let ghost s0 = s@;
    s.append(mnemonic);
    s.append(p.suffix());
    s.append(" ");
    source.push_text(s);
    proof {
        reveal(single_text);
        assert(s@ =~= s0 + single_text(mnemonic@, p, source.spec_text()));
    }
}

/// Appends `immediate_text` to `s`.
fn push_immediate(s: &mut String, mnemonic: &str, suffix: &str, immediate: u32)
    ensures
        final(s)@ == old(s)@ + immediate_text(mnemonic@, suffix@, immediate),
{
    let ghost s0 = s@;
    s.append(mnemonic);
    s.append(suffix);
    s.append(" #");
    push_decimal(s, immediate);
    proof {
        reveal(immediate_text);
        assert(s@ =~= s0 + immediate_text(mnemonic@, suffix@, immediate));
    }
}

/// Appends `memory_text` to `s`.
fn push_memory(s: &mut String, mnemonic: &str, p: Predicate, b: &str, t: &str, r: Register, address: Address)
    ensures
        final(s)@ == old(s)@ + memory_text(mnemonic@, p, b@, t@, r, address),
{
    let ghost s0 = s@;
    s.append(mnemonic);
    s.append(p.suffix());
    s.append(b);
    s.append(t);
    s.append(" ");
    s.append(r.name());
    s.append(", ");
    address.push_text(s);
    proof {
        reveal(memory_text);
        assert(s@ =~= s0 + memory_text(mnemonic@, p, b@, t@, r, address));
    }
}

/// Appends `shift_text` with an immediate amount to `s`.
fn push_shift_immediate(s: &mut String, mnemonic: &str, p: Predicate, flag: Sflag, d: Register, m: Register, amount: u32)
    ensures
        final(s)@ == old(s)@ + shift_text(mnemonic@, p, flag, d, m, "#"@ + decimal(amount as nat)),
{
    let ghost s0 = s@;
    push_head(s, mnemonic, p, flag, d);
    s.append(m.name());
    s.append(", ");
    s.append("#");
    push_decimal(s, amount);
    proof {
        reveal(unary_text);
        reveal(shift_text);
        assert(s@ =~= s0 + shift_text(mnemonic@, p, flag, d, m, "#"@ + decimal(amount as nat)));
    }
}

/// Appends `shift_text` with a register amount to `s`.
fn push_shift_register(s: &mut String, mnemonic: &str, p: Predicate, flag: Sflag, d: Register, m: Register, amount: Register)
    ensures
        final(s)@ == old(s)@ + shift_text(mnemonic@, p, flag, d, m, amount.spec_name()),
{
    let ghost s0 = s@;
    push_head(s, mnemonic, p, flag, d);
    s.append(m.name());
    s.append(", ");
    s.append(amount.name());
    proof {
        reveal(unary_text);
        reveal(shift_text);
        assert(s@ =~= s0 + shift_text(mnemonic@, p, flag, d, m, amount.spec_name()));
    }
}

/// Appends `move_text` to `s`.
fn push_move(s: &mut String, p: Predicate, d: Register, source: Shifter, flag: Sflag)
    ensures
        final(s)@ == old(s)@ + move_text(p, d, source, flag),
{
    proof {
        reveal(move_text);
    }
    match source {
        Shifter::LogicalShiftLeftImmediate { source: m, shift } if shift == 0 && flag.is_off() => {
            let ghost s0 = s@;
            s.append("CPY");
            s.append(p.suffix());
            s.append(" ");
            s.append(d.name());
            s.append(", ");
            s.append(m.name());
            proof {
                reveal(single_text);
                assert(s@ =~= s0 + single_text("CPY"@, p, d.spec_name() + ", "@ + m.spec_name()));
            }
        },
        Shifter::ArithmeticShiftRightImmediate { source: m, shift } =>
            push_shift_immediate(s, "ASR", p, flag, d, m, shift),
        Shifter::ArithmeticShiftRightRegister { source: m, shift } =>
            push_shift_register(s, "ASR", p, flag, d, m, shift),
        Shifter::LogicalShiftLeftImmediate { source: m, shift } if shift != 0 =>
            push_shift_immediate(s, "LSL", p, flag, d, m, shift),
        Shifter::LogicalShiftLeftRegister { source: m, shift } =>
            push_shift_register(s, "LSL", p, flag, d, m, shift),
        Shifter::LogicalShiftRightImmediate { source: m, shift } =>
            push_shift_immediate(s, "LSR", p, flag, d, m, shift),
        Shifter::LogicalShiftRightRegister { source: m, shift } =>
            push_shift_register(s, "LSR", p, flag, d, m, shift),
        Shifter::RotateRightImmediate { source: m, shift } =>
            push_shift_immediate(s, "ROR", p, flag, d, m, shift),
        Shifter::RotateRightRegister { source: m, shift } =>
            push_shift_register(s, "ROR", p, flag, d, m, shift),
        _ => push_unary_shifter(s, "MOV", p, flag, d, source),
    }
}

impl Instruction {
    /// Appends the instruction's assembly text to `s`.
    pub fn push_text(&self, s: &mut String)
        ensures
            final(s)@ == old(s)@ + self.spec_text(),
    {
        match *self {
            Instruction::Add { predicate: p, destination: d, base: b, source, s: f } =>
                push_alu(s, "ADD", p, f, d, b, source),
            Instruction::AddCarry { predicate: p, destination: d, base: b, source, s: f } =>
                push_alu(s, "ADC", p, f, d, b, source),
            Instruction::And { predicate: p, destination: d, base: b, source, s: f } =>
                push_alu(s, "AND", p, f, d, b, source),
            Instruction::BitClear { predicate: p, destination: d, base: b, source, s: f } =>
                push_alu(s, "BIC", p, f, d, b, source),
            Instruction::Branch { predicate: p, immediate } => push_immediate(s, "B", p.suffix(), immediate),
            Instruction::BranchExchange { predicate: p, source } => push_single(s, "BX", p, source.name()),
            Instruction::BranchLink { predicate: p, source } => push_immediate(s, "BL", p.suffix(), source),
            Instruction::BranchLinkExchange { predicate: p, source } =>
                push_single_shifter(s, "BLX", p, source),
            Instruction::Breakpoint { immediate } => push_immediate(s, "BKPT", "", immediate),
            Instruction::CountLeadingZeroes { predicate: p, destination: d, source } =>
                push_unary(s, "CLZ", p, Sflag::Off, d, source.name()),
            Instruction::Compare { predicate: p, lhs, rhs } => push_compare(s, "CMP", p, lhs, rhs),
            Instruction::CompareNegated { predicate: p, lhs, rhs } => push_compare(s, "CMN", p, lhs, rhs),
            Instruction::ExclusiveOr { predicate: p, destination: d, base: b, source, s: f } =>
                push_alu(s, "EOR", p, f, d, b, source),
            Instruction::InclusiveOr { predicate: p, destination: d, base: b, source, s: f } =>
                push_alu(s, "ORR", p, f, d, b, source),
            Instruction::Load { predicate: p, register, address, b, t } =>
                push_memory(s, "LDR", p, b.suffix(), t.suffix(), register, address),
            Instruction::Move { predicate: p, destination: d, source, s: f } => push_move(s, p, d, source, f),
            Instruction::MoveNot { predicate: p, destination: d, source, s: f } =>
                push_unary_shifter(s, "MVN", p, f, d, source),
            Instruction::Multiply { predicate: p, destination: d, base: b, source, s: f } =>
                push_registers(s, "MUL", p, f, d, b, source),
            Instruction::MultiplyAccumulate { predicate: p, destination: d, base: b, source, shift, s: f } =>
                push_multiply_accumulate(s, p, f, d, b, source, shift),
            Instruction::Reverse { predicate: p, destination: d, source } =>
                push_unary(s, "REV", p, Sflag::Off, d, source.name()),
            Instruction::ReverseSubtract { predicate: p, destination: d, base: b, source, s: f } => {
                if source == Shifter::Immediate(0) {
                    push_unary(s, "NEG", p, f, d, b.name());
                } else {
                    push_alu(s, "RSB", p, f, d, b, source);
                }
            },
            Instruction::ReverseSubtractCarry { predicate: p, destination: d, base: b, source, s: f } =>
                push_alu(s, "RSC", p, f, d, b, source),
            Instruction::SaturatingAdd { predicate: p, destination: d, base: b, source } =>
                push_registers(s, "QADD", p, Sflag::Off, d, b, source),
            Instruction::SaturatingSubtract { predicate: p, destination: d, base: b, source } =>
                push_registers(s, "QSUB", p, Sflag::Off, d, b, source),
            Instruction::SoftwareInterrupt { predicate: p, immediate } =>
                push_immediate(s, "SWI", p.suffix(), immediate),
            Instruction::Store { predicate: p, register, address, b, t } =>
                push_memory(s, "STR", p, b.suffix(), t.suffix(), register, address),
            Instruction::Subtract { predicate: p, destination: d, base: b, source, s: f } =>
                push_alu(s, "SUB", p, f, d, b, source),
            Instruction::SubtractCarry { predicate: p, destination: d, base: b, source, s: f } =>
                push_alu(s, "SBC", p, f, d, b, source),
            Instruction::Swap { predicate: p, register, address, b } =>
                push_memory(s, "SWP", p, b.suffix(), "", register, address),
            Instruction::UnsignedSaturate { predicate: p, destination: d, immediate, source } =>
                push_saturate(s, p, d, immediate, source),
            Instruction::Test { predicate: p, lhs, rhs } => push_compare(s, "TST", p, lhs, rhs),
            Instruction::TestEquivalence { predicate: p, lhs, rhs } => push_compare(s, "TEQ", p, lhs, rhs),
        }
    }

    /// Parses assembly text. Only `CPY r0, r1` and `BX lr` are recognised;
    /// any other text is refused with `UnknownMnemonic`, which carries the
    /// text.
    pub fn from_str(s: &str) -> (r: Result<Instruction, Error>)
        ensures
            s@ == "CPY r0, r1"@ ==> r == Ok::<Instruction, Error>(
                Instruction::Move {
                    predicate: Predicate::Always,
                    destination: Register::R0,
                    source: Shifter::LogicalShiftLeftImmediate { source: Register::R1, shift: 0 },
                    s: Sflag::Off,
                },
            ),
            s@ == "BX lr"@ ==> r == Ok::<Instruction, Error>(
                Instruction::BranchExchange { predicate: Predicate::Always, source: Register::Lr },
            ),
            s@ != "CPY r0, r1"@ && s@ != "BX lr"@ ==> (r matches Err(Error::UnknownMnemonic(t)) && t@ == s@),
    {
        proof {
            reveal_strlit("CPY r0, r1");
            reveal_strlit("BX lr");
            assert("CPY r0, r1"@[0] != "BX lr"@[0]);
        }
        if same_text(s, "CPY r0, r1") {
            Ok(Instruction::Move {
                predicate: Predicate::Always,
                destination: Register::R0,
                source: Shifter::from_register(Register::R1),
                s: Sflag::Off,
            })
        } else if same_text(s, "BX lr") {
            Ok(Instruction::BranchExchange { predicate: Predicate::Always, source: Register::Lr })
        } else {
            Err(Error::UnknownMnemonic(s.to_owned()))
        }
    }

    /// The instruction's assembly text, such as `ADDGE r1, r2, r3, ROR #2`.
    pub fn to_string(&self) -> (r: String)
        ensures
            r@ == self.spec_text(),
    {
        let mut s = String::new();
        self.push_text(&mut s);
        proof {
            assert(s@ =~= self.spec_text());
        }
        s
    }
}

} // verus!
