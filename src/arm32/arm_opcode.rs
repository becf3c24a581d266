use vstd::prelude::*;

verus! {

/// A 32-bit Arm opcode.
#[derive(Clone, Copy, Debug, PartialEq, Eq, Hash, Structural)]
pub struct ArmOpcode(u32);

impl View for ArmOpcode {
    type V = u32;

    closed spec fn view(&self) -> u32 {
        self.0
    }
}

impl ArmOpcode {
    /// The opcode with the bits `value`.
    pub fn from_u32(value: u32) -> (r: ArmOpcode)
        ensures
            r@ == value,
    {
        ArmOpcode(value)
    }

    /// The opcode's bits.
    pub fn to_u32(self) -> (r: u32)
        ensures
            r == self@,
    {
        self.0
    }
}

impl PartialEq<u32> for ArmOpcode {
    fn eq(&self, other: &u32) -> (r: bool) {
        self.0 == *other
    }
}

impl vstd::std_specs::cmp::PartialEqSpecImpl<u32> for ArmOpcode {
    open spec fn obeys_eq_spec() -> bool {
        true
    }

    open spec fn eq_spec(&self, other: &u32) -> bool {
        self@ == *other
    }
}

} // verus!
