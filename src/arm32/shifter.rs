use vstd::prelude::*;
use vstd::string::StringExecFns;

use crate::error::Error;
use crate::arm32::register::Register;
use crate::arm32::text::{decimal, push_decimal};

verus! {

/// The second operand of most data-processing instructions: an immediate, or
/// a register shifted by an immediate amount or by another register.
///
/// A bare register is written as `LogicalShiftLeftImmediate` with a shift of
/// zero.
#[derive(Clone, Copy, Debug, PartialEq, Eq, Hash, Structural)]
pub enum Shifter {
    ArithmeticShiftRightImmediate { source: Register, shift: u32 },
    ArithmeticShiftRightRegister { source: Register, shift: Register },
    Immediate(u32),
    LogicalShiftLeftImmediate { source: Register, shift: u32 },
    LogicalShiftLeftRegister { source: Register, shift: Register },
    LogicalShiftRightImmediate { source: Register, shift: u32 },
    LogicalShiftRightRegister { source: Register, shift: Register },
    RotateRightExtend { source: Register },
    RotateRightImmediate { source: Register, shift: u32 },
    RotateRightRegister { source: Register, shift: Register },
}

impl Shifter {
    /// The bare register `register`: a left shift by zero.
    pub fn from_register(register: Register) -> (r: Shifter)
        ensures
            r == (Shifter::LogicalShiftLeftImmediate { source: register, shift: 0 }),
    {
        Shifter::LogicalShiftLeftImmediate { source: register, shift: 0 }
    }

    /// The register that this shifter is, if it is a bare register.
    pub open spec fn spec_register(self) -> Option<Register> {
        match self {
            Shifter::LogicalShiftLeftImmediate { source, shift } if shift == 0 => Some(source),
            _ => None,
        }
    }

    /// Collapses a bare register to that register; every other shifter is
    /// refused with `IllegalShifter`.
    pub fn as_register(self) -> (r: Result<Register, Error>)
        ensures
            match self.spec_register() {
                Some(reg) => r == Ok::<Register, Error>(reg),
                None => r == Err::<Register, Error>(Error::IllegalShifter { reason: "cannot collapse to register" }),
            },
    {
        match self {
            Shifter::LogicalShiftLeftImmediate { source, shift } if shift == 0 => Ok(source),
            _ => Err(Error::IllegalShifter { reason: "cannot collapse to register" }),
        }
    }

    /// The shifter in assembly text: `r1`, `r1, LSL #2`, `r1, ASR r2`,
    /// `r1, RRX` or `#5`.
    pub open spec fn spec_text(self) -> Seq<char> {
        match self {
            Shifter::ArithmeticShiftRightImmediate { source, shift } =>
                source.spec_name() + ", ASR #"@ + decimal(shift as nat),
            Shifter::ArithmeticShiftRightRegister { source, shift } =>
                source.spec_name() + ", ASR "@ + shift.spec_name(),
            Shifter::Immediate(v) => "#"@ + decimal(v as nat),
            Shifter::LogicalShiftLeftImmediate { source, shift } =>
                if shift == 0 {
                    source.spec_name()
                } else {
                    source.spec_name() + ", LSL #"@ + decimal(shift as nat)
                },
            Shifter::LogicalShiftLeftRegister { source, shift } =>
                source.spec_name() + ", LSL "@ + shift.spec_name(),
            Shifter::LogicalShiftRightImmediate { source, shift } =>
                source.spec_name() + ", LSR #"@ + decimal(shift as nat),
            Shifter::LogicalShiftRightRegister { source, shift } =>
                source.spec_name() + ", LSR "@ + shift.spec_name(),
            Shifter::RotateRightExtend { source } => source.spec_name() + ", RRX"@,
            Shifter::RotateRightImmediate { source, shift } =>
                source.spec_name() + ", ROR #"@ + decimal(shift as nat),
            Shifter::RotateRightRegister { source, shift } =>
                source.spec_name() + ", ROR "@ + shift.spec_name(),
        }
    }

    /// Appends the shifter's assembly text to `s`.
    pub fn push_text(self, s: &mut String)
        ensures
            final(s)@ == old(s)@ + self.spec_text(),
    {
        let ghost s0 = s@;
        match self {
            Shifter::ArithmeticShiftRightImmediate { source, shift } => {
                s.append(source.name());
                s.append(", ASR #");
                push_decimal(s, shift);
            },
            Shifter::ArithmeticShiftRightRegister { source, shift } => {
                s.append(source.name());
                s.append(", ASR ");
                s.append(shift.name());
            },
            Shifter::Immediate(v) => {
                s.append("#");
                push_decimal(s, v);
            },
            Shifter::LogicalShiftLeftImmediate { source, shift } => {
                s.append(source.name());
                if shift != 0 {
                    s.append(", LSL #");
                    push_decimal(s, shift);
                }
            },
            Shifter::LogicalShiftLeftRegister { source, shift } => {
                s.append(source.name());
                s.append(", LSL ");
                s.append(shift.name());
            },
            Shifter::LogicalShiftRightImmediate { source, shift } => {
                s.append(source.name());
                s.append(", LSR #");
                push_decimal(s, shift);
            },
            Shifter::LogicalShiftRightRegister { source, shift } => {
                s.append(source.name());
                s.append(", LSR ");
                s.append(shift.name());
            },
            Shifter::RotateRightExtend { source } => {
                s.append(source.name());
                s.append(", RRX");
            },
            Shifter::RotateRightImmediate { source, shift } => {
                s.append(source.name());
                s.append(", ROR #");
                push_decimal(s, shift);
            },
            Shifter::RotateRightRegister { source, shift } => {
                s.append(source.name());
                s.append(", ROR ");
                s.append(shift.name());
            },
        }
        proof {
            assert(s@ =~= s0 + self.spec_text());
        }
    }

    /// The shifter's assembly text.
    pub fn to_string(self) -> (r: String)
        ensures
            r@ == self.spec_text(),
    {
        let mut s = String::new();
        self.push_text(&mut s);
        s
    }
}

/// Collapsing a bare register gives back that register.
pub proof fn lemma_register_round_trip(r: Register)
    ensures
        (Shifter::LogicalShiftLeftImmediate { source: r, shift: 0 }).spec_register() == Some(r),
{
}

} // verus!
