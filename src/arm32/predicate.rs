use vstd::prelude::*;

verus! {

/// A condition code: the instruction executes only when it holds.
///
/// The encoding `0b1111` is reserved and has no value here.
#[derive(Clone, Copy, Debug, PartialEq, Eq, PartialOrd, Ord, Hash, Structural)]
pub enum Predicate {
    Equal,
    NotEqual,
    HigherOrSame,
    Lower,
    Minus,
    Plus,
    Overflow,
    NoOverflow,
    Higher,
    LowerOrSame,
    GreaterThanOrEqual,
    LessThan,
    GreaterThan,
    LessThanOrEqual,
    Always,
}

impl Predicate {
    /// The condition code's four-bit encoding.
    pub open spec fn spec_value(self) -> u8 {
        match self {
            Predicate::Equal => 0,
            Predicate::NotEqual => 1,
            Predicate::HigherOrSame => 2,
            Predicate::Lower => 3,
            Predicate::Minus => 4,
            Predicate::Plus => 5,
            Predicate::Overflow => 6,
            Predicate::NoOverflow => 7,
            Predicate::Higher => 8,
            Predicate::LowerOrSame => 9,
            Predicate::GreaterThanOrEqual => 10,
            Predicate::LessThan => 11,
            Predicate::GreaterThan => 12,
            Predicate::LessThanOrEqual => 13,
            Predicate::Always => 14,
        }
    }

    /// The condition code encoded as `v`, for `v` below `15`.
    pub open spec fn spec_from_bits(v: u8) -> Predicate {
        if v == 0 { Predicate::Equal }
        else if v == 1 { Predicate::NotEqual }
        else if v == 2 { Predicate::HigherOrSame }
        else if v == 3 { Predicate::Lower }
        else if v == 4 { Predicate::Minus }
        else if v == 5 { Predicate::Plus }
        else if v == 6 { Predicate::Overflow }
        else if v == 7 { Predicate::NoOverflow }
        else if v == 8 { Predicate::Higher }
        else if v == 9 { Predicate::LowerOrSame }
        else if v == 10 { Predicate::GreaterThanOrEqual }
        else if v == 11 { Predicate::LessThan }
        else if v == 12 { Predicate::GreaterThan }
        else if v == 13 { Predicate::LessThanOrEqual }
        else { Predicate::Always }
    }

    /// The condition code's four-bit encoding.
    #[verifier::when_used_as_spec(spec_value)]
    pub fn value(self) -> (r: u8)
        ensures
            r == self.spec_value(),
    {
        match self {
            Predicate::Equal => 0,
            Predicate::NotEqual => 1,
            Predicate::HigherOrSame => 2,
            Predicate::Lower => 3,
            Predicate::Minus => 4,
            Predicate::Plus => 5,
            Predicate::Overflow => 6,
            Predicate::NoOverflow => 7,
            Predicate::Higher => 8,
            Predicate::LowerOrSame => 9,
            Predicate::GreaterThanOrEqual => 10,
            Predicate::LessThan => 11,
            Predicate::GreaterThan => 12,
            Predicate::LessThanOrEqual => 13,
            Predicate::Always => 14,
        }
    }

    /// The condition code encoded as `value`: `Some` exactly for the values
    /// `0` to `14`.
    pub fn from_u8(value: u8) -> (r: Option<Predicate>)
        ensures
            r is Some <==> value <= 14,
            r matches Some(p) ==> p.value() == value && p == Self::spec_from_bits(value),
    {
        if value == 0 { Some(Predicate::Equal) }
        else if value == 1 { Some(Predicate::NotEqual) }
        else if value == 2 { Some(Predicate::HigherOrSame) }
        else if value == 3 { Some(Predicate::Lower) }
        else if value == 4 { Some(Predicate::Minus) }
        else if value == 5 { Some(Predicate::Plus) }
        else if value == 6 { Some(Predicate::Overflow) }
        else if value == 7 { Some(Predicate::NoOverflow) }
        else if value == 8 { Some(Predicate::Higher) }
        else if value == 9 { Some(Predicate::LowerOrSame) }
        else if value == 10 { Some(Predicate::GreaterThanOrEqual) }
        else if value == 11 { Some(Predicate::LessThan) }
        else if value == 12 { Some(Predicate::GreaterThan) }
        else if value == 13 { Some(Predicate::LessThanOrEqual) }
        else if value == 14 { Some(Predicate::Always) }
        else { None }
    }

    /// The condition's suffix in assembly text; `AL` is written as nothing.
    pub open spec fn spec_suffix(self) -> Seq<char> {
        match self {
            Predicate::Equal => "EQ"@,
            Predicate::NotEqual => "NE"@,
            Predicate::HigherOrSame => "HS"@,
            Predicate::Lower => "LO"@,
            Predicate::Minus => "MI"@,
            Predicate::Plus => "PL"@,
            Predicate::Overflow => "VS"@,
            Predicate::NoOverflow => "VC"@,
            Predicate::Higher => "HI"@,
            Predicate::LowerOrSame => "LS"@,
            Predicate::GreaterThanOrEqual => "GE"@,
            Predicate::LessThan => "LT"@,
            Predicate::GreaterThan => "GT"@,
            Predicate::LessThanOrEqual => "LE"@,
            Predicate::Always => ""@,
        }
    }

    /// The condition's suffix in assembly text; `AL` is written as nothing.
    pub fn suffix(self) -> (r: &'static str)
        ensures
            r@ == self.spec_suffix(),
    {
        match self {
            Predicate::Equal => "EQ",
            Predicate::NotEqual => "NE",
            Predicate::HigherOrSame => "HS",
            Predicate::Lower => "LO",
            Predicate::Minus => "MI",
            Predicate::Plus => "PL",
            Predicate::Overflow => "VS",
            Predicate::NoOverflow => "VC",
            Predicate::Higher => "HI",
            Predicate::LowerOrSame => "LS",
            Predicate::GreaterThanOrEqual => "GE",
            Predicate::LessThan => "LT",
            Predicate::GreaterThan => "GT",
            Predicate::LessThanOrEqual => "LE",
            Predicate::Always => "",
        }
    }
}

/// A condition code's encoding identifies it, and is never the reserved
/// `0b1111`.
pub proof fn lemma_predicate_value_injective(a: Predicate, b: Predicate)
    ensures
        a.value() == b.value() ==> a == b,
        Predicate::spec_from_bits(a.value()) == a,
        a.value() < 15,
{
}

} // verus!
