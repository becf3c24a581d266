use vstd::prelude::*;

use core::cmp::Ordering;

use vstd::string::StringExecFns;

use crate::arm32::signed::Signed;
use crate::arm32::text::{decimal, push_decimal};

verus! {

/// An unsigned 32-bit word.
#[derive(Clone, Copy, Debug, PartialEq, Eq, Hash, Structural)]
pub struct Unsigned(u32);

impl View for Unsigned {
    type V = u32;

    closed spec fn view(&self) -> u32 {
        self.0
    }
}

impl Unsigned {
    /// The word holding `value`.
    pub fn new(value: u32) -> (r: Unsigned)
        ensures
            r@ == value,
    {
        Unsigned(value)
    }

    /// The word's value.
    pub fn get(self) -> (r: u32)
        ensures
            r == self@,
    {
        self.0
    }

    /// Replaces the word's value.
    pub fn set(&mut self, value: u32)
        ensures
            final(self)@ == value,
    {
        self.0 = value;
    }

    /// The same 32 bits read as signed.
    pub fn as_signed(self) -> (r: Signed)
        ensures
            r@ == self@ as i32,
    {
        Signed::new(self.0 as i32)
    }

    /// The word plus a signed offset, wrapping around modulo 2^32.
    pub fn offset(self, value: i32) -> (r: Unsigned)
        ensures
            r@ == (self@ as int + value as int) as u32,
    {
        Unsigned(((self.0 as i64) + (value as i64)) as u32)
    }

    /// `self + rhs`, wrapping around.
    pub fn wrapping_add(self, rhs: u32) -> (r: Unsigned)
        ensures
            r@ == (self@ as int + rhs as int) as u32,
    {
        Unsigned(((self.0 as u64) + (rhs as u64)) as u32)
    }

    /// `self - rhs`, wrapping around.
    pub fn wrapping_sub(self, rhs: u32) -> (r: Unsigned)
        ensures
            r@ == (self@ as int - rhs as int) as u32,
    {
        Unsigned(((self.0 as i64) - (rhs as i64)) as u32)
    }

    /// `self * rhs`, wrapping around.
    pub fn wrapping_mul(self, rhs: u32) -> (r: Unsigned)
        ensures
            r@ == (self@ as int * rhs as int) as u32,
    {
        proof {
            assert(self@ as int * rhs as int <= 0xFFFF_FFFF * 0xFFFF_FFFF) by (nonlinear_arith)
                requires
                    0 <= self@ as int <= 0xFFFF_FFFF,
                    0 <= rhs as int <= 0xFFFF_FFFF,
            ;
            assert(0 <= self@ as int * rhs as int) by (nonlinear_arith)
                requires
                    0 <= self@ as int,
                    0 <= rhs as int,
            ;
        }
        Unsigned(((self.0 as u64) * (rhs as u64)) as u32)
    }

    /// `self / rhs`, rounded down.
    pub fn wrapping_div(self, rhs: u32) -> (r: Unsigned)
        requires
            rhs != 0,
        ensures
            r@ == self@ as int / rhs as int,
    {
        Unsigned(self.0 / rhs)
    }

    /// The sum of two words, wrapping around.
    pub fn wrapping_add_word(self, rhs: Unsigned) -> (r: Unsigned)
        ensures
            r@ == (self@ as int + rhs@ as int) as u32,
    {
        self.wrapping_add(rhs.0)
    }

    /// The difference of two words, wrapping around.
    pub fn wrapping_sub_word(self, rhs: Unsigned) -> (r: Unsigned)
        ensures
            r@ == (self@ as int - rhs@ as int) as u32,
    {
        self.wrapping_sub(rhs.0)
    }

    /// The product of two words, wrapping around.
    pub fn wrapping_mul_word(self, rhs: Unsigned) -> (r: Unsigned)
        ensures
            r@ == (self@ as int * rhs@ as int) as u32,
    {
        self.wrapping_mul(rhs.0)
    }

    /// The quotient of two words, rounded down.
    pub fn wrapping_div_word(self, rhs: Unsigned) -> (r: Unsigned)
        requires
            rhs@ != 0,
        ensures
            r@ == self@ as int / rhs@ as int,
    {
        self.wrapping_div(rhs.0)
    }

    /// The word as an immediate in assembly text: `#5`.
    pub open spec fn spec_text(self) -> Seq<char> {
        "#"@ + decimal(self@ as nat)
    }

    /// The word as an immediate in assembly text.
    pub fn to_string(self) -> (r: String)
        ensures
            r@ == self.spec_text(),
    {
        let mut s = String::new();
        s.append("#");
        push_decimal(&mut s, self.0);
        proof {
            reveal_strlit("");
        }
        s
    }
}

impl PartialEq<u32> for Unsigned {
    fn eq(&self, other: &u32) -> (r: bool) {
        self.0 == *other
    }
}

impl vstd::std_specs::cmp::PartialEqSpecImpl<u32> for Unsigned {
    open spec fn obeys_eq_spec() -> bool {
        true
    }

    open spec fn eq_spec(&self, other: &u32) -> bool {
        self@ == *other
    }
}

impl PartialOrd<u32> for Unsigned {
    fn partial_cmp(&self, other: &u32) -> (r: Option<Ordering>) {
        if self.0 < *other {
            Some(Ordering::Less)
        } else if self.0 == *other {
            Some(Ordering::Equal)
        } else {
            Some(Ordering::Greater)
        }
    }
}

impl vstd::std_specs::cmp::PartialOrdSpecImpl<u32> for Unsigned {
    open spec fn obeys_partial_cmp_spec() -> bool {
        true
    }

    open spec fn partial_cmp_spec(&self, other: &u32) -> Option<Ordering> {
        if self@ < *other {
            Some(Ordering::Less)
        } else if self@ == *other {
            Some(Ordering::Equal)
        } else {
            Some(Ordering::Greater)
        }
    }
}

} // verus!
