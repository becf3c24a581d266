use vstd::prelude::*;
use vstd::string::StrSliceExecFns;

use crate::error::Error;

verus! {

/// One of the sixteen general-purpose registers, `r0` to `r15`.
#[derive(Clone, Copy, Debug, PartialEq, Eq, PartialOrd, Ord, Hash, Structural)]
pub enum Register {
    R0,
    R1,
    R2,
    R3,
    R4,
    R5,
    R6,
    R7,
    R8,
    R9,
    R10,
    R11,
    R12,
    Sp,
    Lr,
    Pc,
}

impl Register {
    /// The register's number, `0` to `15`.
    pub open spec fn spec_value(self) -> u8 {
        match self {
            Register::R0 => 0,
            Register::R1 => 1,
            Register::R2 => 2,
            Register::R3 => 3,
            Register::R4 => 4,
            Register::R5 => 5,
            Register::R6 => 6,
            Register::R7 => 7,
            Register::R8 => 8,
            Register::R9 => 9,
            Register::R10 => 10,
            Register::R11 => 11,
            Register::R12 => 12,
            Register::Sp => 13,
            Register::Lr => 14,
            Register::Pc => 15,
        }
    }

    /// The register with number `v` (taken modulo 16).
    pub open spec fn spec_from_bits(v: u8) -> Register {
        let v = v % 16;
        if v == 0 { Register::R0 }
        else if v == 1 { Register::R1 }
        else if v == 2 { Register::R2 }
        else if v == 3 { Register::R3 }
        else if v == 4 { Register::R4 }
        else if v == 5 { Register::R5 }
        else if v == 6 { Register::R6 }
        else if v == 7 { Register::R7 }
        else if v == 8 { Register::R8 }
        else if v == 9 { Register::R9 }
        else if v == 10 { Register::R10 }
        else if v == 11 { Register::R11 }
        else if v == 12 { Register::R12 }
        else if v == 13 { Register::Sp }
        else if v == 14 { Register::Lr }
        else { Register::Pc }
    }

    /// The register's number, `0` to `15`.
    #[verifier::when_used_as_spec(spec_value)]
    pub fn value(self) -> (r: u8)
        ensures
            r == self.spec_value(),
    {
        match self {
            Register::R0 => 0,
            Register::R1 => 1,
            Register::R2 => 2,
            Register::R3 => 3,
            Register::R4 => 4,
            Register::R5 => 5,
            Register::R6 => 6,
            Register::R7 => 7,
            Register::R8 => 8,
            Register::R9 => 9,
            Register::R10 => 10,
            Register::R11 => 11,
            Register::R12 => 12,
            Register::Sp => 13,
            Register::Lr => 14,
            Register::Pc => 15,
        }
    }

    /// The register whose number is the low four bits of `v`.
    #[verifier::when_used_as_spec(spec_from_bits)]
    pub fn from_bits(v: u8) -> (r: Register)
        ensures
            r == Self::spec_from_bits(v),
            r.value() == v % 16,
    {
        let v = v % 16;
        if v == 0 { Register::R0 }
        else if v == 1 { Register::R1 }
        else if v == 2 { Register::R2 }
        else if v == 3 { Register::R3 }
        else if v == 4 { Register::R4 }
        else if v == 5 { Register::R5 }
        else if v == 6 { Register::R6 }
        else if v == 7 { Register::R7 }
        else if v == 8 { Register::R8 }
        else if v == 9 { Register::R9 }
        else if v == 10 { Register::R10 }
        else if v == 11 { Register::R11 }
        else if v == 12 { Register::R12 }
        else if v == 13 { Register::Sp }
        else if v == 14 { Register::Lr }
        else { Register::Pc }
    }

    /// Converts a byte into a register: `Some` exactly for the values `0` to
    /// `15`.
    pub fn from_u8(value: u8) -> (r: Option<Register>)
        ensures
            r is Some <==> value <= 15,
            r matches Some(reg) ==> reg.value() == value,
    {
        if value <= 15 {
            Some(Register::from_bits(value))
        } else {
            None
        }
    }

    /// Whether this is one of `r0` to `r7`.
    pub open spec fn spec_is_low(self) -> bool {
        self.value() <= 7
    }

    /// Whether this is one of `r0` to `r7`.
    #[verifier::when_used_as_spec(spec_is_low)]
    pub fn is_low(self) -> (r: bool)
        ensures
            r == (self.value() <= 7),
    {
        self.value() <= 7
    }

    /// Whether this is one of `r8` to `r15`.
    pub fn is_high(self) -> (r: bool)
        ensures
            r == (self.value() > 7),
            r == !self.is_low(),
    {
        self.value() > 7
    }

    /// The register's name in assembly text.
    pub open spec fn spec_name(self) -> Seq<char> {
        match self {
            Register::R0 => "r0"@,
            Register::R1 => "r1"@,
            Register::R2 => "r2"@,
            Register::R3 => "r3"@,
            Register::R4 => "r4"@,
            Register::R5 => "r5"@,
            Register::R6 => "r6"@,
            Register::R7 => "r7"@,
            Register::R8 => "r8"@,
            Register::R9 => "r9"@,
            Register::R10 => "r10"@,
            Register::R11 => "r11"@,
            Register::R12 => "r12"@,
            Register::Sp => "sp"@,
            Register::Lr => "lr"@,
            Register::Pc => "pc"@,
        }
    }

    /// The register's name in assembly text.
    pub fn name(self) -> (r: &'static str)
        ensures
            r@ == self.spec_name(),
    {
        match self {
            Register::R0 => "r0",
            Register::R1 => "r1",
            Register::R2 => "r2",
            Register::R3 => "r3",
            Register::R4 => "r4",
            Register::R5 => "r5",
            Register::R6 => "r6",
            Register::R7 => "r7",
            Register::R8 => "r8",
            Register::R9 => "r9",
            Register::R10 => "r10",
            Register::R11 => "r11",
            Register::R12 => "r12",
            Register::Sp => "sp",
            Register::Lr => "lr",
            Register::Pc => "pc",
        }
    }
}


/// `c` with an ASCII capital turned to lower case.
pub open spec fn lower(c: char) -> char {
    if 'A' <= c && c <= 'Z' {
        (c as int + 32) as char
    } else {
        c
    }
}

/// The register with the two-letter name `ab` (in lower case).
pub open spec fn named2(a: char, b: char) -> Option<Register> {
    match (a, b) {
        ('r', '0') | ('a', '1') => Some(Register::R0),
        ('r', '1') | ('a', '2') => Some(Register::R1),
        ('r', '2') | ('a', '3') => Some(Register::R2),
        ('r', '3') | ('a', '4') => Some(Register::R3),
        ('r', '4') | ('v', '1') => Some(Register::R4),
        ('r', '5') | ('v', '2') => Some(Register::R5),
        ('r', '6') | ('v', '3') => Some(Register::R6),
        ('r', '7') | ('v', '4') => Some(Register::R7),
        ('r', '8') | ('v', '5') => Some(Register::R8),
        ('r', '9') | ('s', 'b') | ('v', '6') => Some(Register::R9),
        ('s', 'l') | ('v', '7') => Some(Register::R10),
        ('v', '8') => Some(Register::R11),
        ('i', 'p') => Some(Register::R12),
        ('s', 'p') => Some(Register::Sp),
        ('l', 'r') => Some(Register::Lr),
        ('p', 'c') => Some(Register::Pc),
        _ => None,
    }
}

/// The register with the three-letter name `abc` (in lower case).
pub open spec fn named3(a: char, b: char, c: char) -> Option<Register> {
    if a == 'r' && b == '1' {
        match c {
            '0' => Some(Register::R10),
            '1' => Some(Register::R11),
            '2' => Some(Register::R12),
            '3' => Some(Register::Sp),
            '4' => Some(Register::Lr),
            '5' => Some(Register::Pc),
            _ => None,
        }
    } else {
        None
    }
}

/// The register named `t`, ignoring the case of ASCII letters: `r0` to
/// `r15`, `sp`, `lr`, `pc`, and the aliases `a1`-`a4`, `v1`-`v8`, `sb`, `sl`
/// and `ip`.
pub open spec fn register_named(t: Seq<char>) -> Option<Register> {
    if t.len() == 2 {
        named2(lower(t[0]), lower(t[1]))
    } else if t.len() == 3 {
        named3(lower(t[0]), lower(t[1]), lower(t[2]))
    } else {
        None
    }
}

fn lower_char(c: char) -> (r: char)
    ensures
        r == lower(c),
{
    if 'A' <= c && c <= 'Z' {
        ((c as u8) + 32u8) as char
    } else {
        c
    }
}

fn find2(a: char, b: char) -> (r: Option<Register>)
    ensures
        r == named2(a, b),
{
    match (a, b) {
        ('r', '0') | ('a', '1') => Some(Register::R0),
        ('r', '1') | ('a', '2') => Some(Register::R1),
        ('r', '2') | ('a', '3') => Some(Register::R2),
        ('r', '3') | ('a', '4') => Some(Register::R3),
        ('r', '4') | ('v', '1') => Some(Register::R4),
        ('r', '5') | ('v', '2') => Some(Register::R5),
        ('r', '6') | ('v', '3') => Some(Register::R6),
        ('r', '7') | ('v', '4') => Some(Register::R7),
        ('r', '8') | ('v', '5') => Some(Register::R8),
        ('r', '9') | ('s', 'b') | ('v', '6') => Some(Register::R9),
        ('s', 'l') | ('v', '7') => Some(Register::R10),
        ('v', '8') => Some(Register::R11),
        ('i', 'p') => Some(Register::R12),
        ('s', 'p') => Some(Register::Sp),
        ('l', 'r') => Some(Register::Lr),
        ('p', 'c') => Some(Register::Pc),
        _ => None,
    }
}

fn find3(a: char, b: char, c: char) -> (r: Option<Register>)
    ensures
        r == named3(a, b, c),
{
    if a == 'r' && b == '1' {
        match c {
            '0' => Some(Register::R10),
            '1' => Some(Register::R11),
            '2' => Some(Register::R12),
            '3' => Some(Register::Sp),
            '4' => Some(Register::Lr),
            '5' => Some(Register::Pc),
            _ => None,
        }
    } else {
        None
    }
}

impl Register {
    /// Parses a register name, ignoring the case of ASCII letters: `r0` to
    /// `r15`, `sp`, `lr`, `pc`, and the aliases `a1`-`a4`, `v1`-`v8`, `sb`,
    /// `sl` and `ip`. Any other text is refused with `UnknownRegister`,
    /// which carries the text.
    pub fn from_str(s: &str) -> (r: Result<Register, Error>)
        ensures
            match register_named(s@) {
                Some(reg) => r == Ok::<Register, Error>(reg),
                None => r matches Err(Error::UnknownRegister(t)) && t@ == s@,
            },
    {
        let n = s.unicode_len();
        let found = if n == 2 {
            find2(lower_char(s.get_char(0)), lower_char(s.get_char(1)))
        } else if n == 3 {
            find3(lower_char(s.get_char(0)), lower_char(s.get_char(1)), lower_char(s.get_char(2)))
        } else {
            None
        };
        match found {
            Some(reg) => Ok(reg),
            None => Err(Error::UnknownRegister(s.to_owned())),
        }
    }
}

impl core::str::FromStr for Register {
    type Err = Error;

    fn from_str(s: &str) -> Result<Register, Error> {
        Register::from_str(s)
    }
}

} // verus!
