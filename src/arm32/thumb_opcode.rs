use vstd::prelude::*;

verus! {

/// A 16-bit Thumb opcode. A long branch with link takes two of them.
#[derive(Clone, Copy, Debug, PartialEq, Eq, Hash, Structural)]
pub struct ThumbOpcode(u16);

impl View for ThumbOpcode {
    type V = u16;

    closed spec fn view(&self) -> u16 {
        self.0
    }
}

impl ThumbOpcode {
    /// The size of one Thumb opcode, in bytes.
    pub const SIZE: u32 = 2;

    /// The opcode with the bits `value`.
    pub fn from_u16(value: u16) -> (r: ThumbOpcode)
        ensures
            r@ == value,
    {
        ThumbOpcode(value)
    }

    /// The opcode's bits.
    pub fn to_u16(self) -> (r: u16)
        ensures
            r == self@,
    {
        self.0
    }
}

impl PartialEq<u16> for ThumbOpcode {
    fn eq(&self, other: &u16) -> (r: bool) {
        self.0 == *other
    }
}

impl vstd::std_specs::cmp::PartialEqSpecImpl<u16> for ThumbOpcode {
    open spec fn obeys_eq_spec() -> bool {
        true
    }

    open spec fn eq_spec(&self, other: &u16) -> bool {
        self@ == *other
    }
}

} // verus!
