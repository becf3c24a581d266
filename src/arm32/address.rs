use vstd::prelude::*;
use vstd::string::StringExecFns;

use crate::arm32::register::Register;
use crate::arm32::shifter::Shifter;
use crate::arm32::text::{push_signed_decimal, signed_decimal};

verus! {

/// The memory operand of loads, stores and swaps.
#[derive(Clone, Copy, Debug, PartialEq, Eq, Hash, Structural)]
pub enum Address {
    /// `[base, #source]`.
    ImmediateOffset { base: Register, source: i32 },
    /// `[base, source]`.
    RegisterOffset { base: Register, source: Register },
    /// `[base, source, shift]`; `shift` is one of the immediate shifts.
    ScaledRegisterOffset { base: Register, source: Register, shift: Shifter },
}

impl Address {
    /// Whether the operand is well formed: the shift of a scaled register
    /// offset is one of the immediate shifts.
    pub open spec fn spec_is_well_formed(self) -> bool {
        match self {
            Address::ScaledRegisterOffset { shift, .. } => match shift {
                Shifter::LogicalShiftLeftImmediate { .. }
                | Shifter::LogicalShiftRightImmediate { .. }
                | Shifter::ArithmeticShiftRightImmediate { .. }
                | Shifter::RotateRightImmediate { .. } => true,
                _ => false,
            },
            _ => true,
        }
    }

    /// Whether the operand is well formed: the shift of a scaled register
    /// offset is one of the immediate shifts.
    pub fn is_well_formed(self) -> (r: bool)
        ensures
            r == self.spec_is_well_formed(),
    {
        match self {
            Address::ScaledRegisterOffset { shift, .. } => match shift {
                Shifter::LogicalShiftLeftImmediate { .. }
                | Shifter::LogicalShiftRightImmediate { .. }
                | Shifter::ArithmeticShiftRightImmediate { .. }
                | Shifter::RotateRightImmediate { .. } => true,
                _ => false,
            },
            _ => true,
        }
    }

    /// The operand in assembly text.
    pub open spec fn spec_text(self) -> Seq<char> {
        match self {
            Address::ImmediateOffset { base, source } =>
                "["@ + base.spec_name() + ", #"@ + signed_decimal(source as int) + "]"@,
            Address::RegisterOffset { base, source } =>
                "["@ + base.spec_name() + ", "@ + source.spec_name() + "]"@,
            Address::ScaledRegisterOffset { base, source, shift } =>
                "["@ + base.spec_name() + ", "@ + source.spec_name() + ", "@ + shift.spec_text()
                    + "]"@,
        }
    }

    /// Appends the operand's assembly text to `s`.
    pub fn push_text(self, s: &mut String)
        ensures
            final(s)@ == old(s)@ + self.spec_text(),
    {
        let ghost s0 = s@;
        s.append("[");
        match self {
            Address::ImmediateOffset { base, source } => {
                s.append(base.name());
                s.append(", #");
                push_signed_decimal(s, source);
            },
            Address::RegisterOffset { base, source } => {
                s.append(base.name());
                s.append(", ");
                s.append(source.name());
            },
            Address::ScaledRegisterOffset { base, source, shift } => {
                s.append(base.name());
                s.append(", ");
                s.append(source.name());
                s.append(", ");
                shift.push_text(s);
            },
        }
        s.append("]");
        proof {
            assert(s@ =~= s0 + self.spec_text());
        }
    }
}

} // verus!
