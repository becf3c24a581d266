use vstd::prelude::*;

verus! {

/// A general-purpose register, named by its procedure-call role where it has
/// one: `sb` (r9), `sl` (r10), `ip` (r12), `sp`, `lr`, `pc`.
#[derive(Clone, Copy, Debug, PartialEq, Eq, PartialOrd, Ord, Hash, Structural)]
pub enum Register {
    R0,
    R1,
    R2,
    R3,
    R4,
    R5,
    R6,
    R7,
    R8,
    Sb,
    Sl,
    R11,
    Ip,
    Sp,
    Lr,
    Pc,
}

impl Register {
    /// The register's name in assembly text.
    pub open spec fn spec_name(self) -> Seq<char> {
        match self {
            Register::R0 => "r0"@,
            Register::R1 => "r1"@,
            Register::R2 => "r2"@,
            Register::R3 => "r3"@,
            Register::R4 => "r4"@,
            Register::R5 => "r5"@,
            Register::R6 => "r6"@,
            Register::R7 => "r7"@,
            Register::R8 => "r8"@,
            Register::Sb => "sb"@,
            Register::Sl => "sl"@,
            Register::R11 => "r11"@,
            Register::Ip => "ip"@,
            Register::Sp => "sp"@,
            Register::Lr => "lr"@,
            Register::Pc => "pc"@,
        }
    }

    /// The register's name in assembly text.
    pub fn name(self) -> (r: &'static str)
        ensures
            r@ == self.spec_name(),
    {
        match self {
            Register::R0 => "r0",
            Register::R1 => "r1",
            Register::R2 => "r2",
            Register::R3 => "r3",
            Register::R4 => "r4",
            Register::R5 => "r5",
            Register::R6 => "r6",
            Register::R7 => "r7",
            Register::R8 => "r8",
            Register::Sb => "sb",
            Register::Sl => "sl",
            Register::R11 => "r11",
            Register::Ip => "ip",
            Register::Sp => "sp",
            Register::Lr => "lr",
            Register::Pc => "pc",
        }
    }
}

} // verus!
