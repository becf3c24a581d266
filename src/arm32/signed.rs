use vstd::prelude::*;

use core::cmp::Ordering;

use vstd::string::StringExecFns;

use crate::arm32::text::{decimal, push_decimal};
use crate::arm32::unsigned::Unsigned;

verus! {

/// A signed 32-bit word.
#[derive(Clone, Copy, Debug, PartialEq, Eq, PartialOrd, Ord, Hash, Structural)]
pub struct Signed(i32);

impl View for Signed {
    type V = i32;

    closed spec fn view(&self) -> i32 {
        self.0
    }
}

impl Signed {
    /// The word holding `value`.
    pub fn new(value: i32) -> (r: Signed)
        ensures
            r@ == value,
    {
        Signed(value)
    }

    /// The word's value.
    pub fn get(self) -> (r: i32)
        ensures
            r == self@,
    {
        self.0
    }

    /// Replaces the word's value.
    pub fn set(&mut self, value: i32)
        ensures
            final(self)@ == value,
    {
        self.0 = value;
    }

    /// The same 32 bits read as unsigned.
    pub fn as_unsigned(self) -> (r: Unsigned)
        ensures
            r@ == self@ as u32,
    {
        Unsigned::new(self.0 as u32)
    }

    /// `self + rhs`, wrapping around.
    pub fn wrapping_add(self, rhs: i32) -> (r: Signed)
        ensures
            r@ == (self@ as int + rhs as int) as i32,
    {
        Signed(((self.0 as i64) + (rhs as i64)) as i32)
    }

    /// `self - rhs`, wrapping around.
    pub fn wrapping_sub(self, rhs: i32) -> (r: Signed)
        ensures
            r@ == (self@ as int - rhs as int) as i32,
    {
        Signed(((self.0 as i64) - (rhs as i64)) as i32)
    }

    /// `self * rhs`, wrapping around.
    pub fn wrapping_mul(self, rhs: i32) -> (r: Signed)
        ensures
            r@ == (self@ as int * rhs as int) as i32,
    {
        proof {
            assert(-0x8000_0000 * 0x8000_0000 <= self@ as int * rhs as int <= 0x8000_0000 * 0x8000_0000)
                by (nonlinear_arith)
                requires
                    -0x8000_0000 <= self@ as int <= 0x7FFF_FFFF,
                    -0x8000_0000 <= rhs as int <= 0x7FFF_FFFF,
            ;
        }
        Signed(((self.0 as i64) * (rhs as i64)) as i32)
    }

    /// `self / rhs`, rounded towards zero and wrapping around: `i32::MIN / -1`
    /// is `i32::MIN`.
    pub fn wrapping_div(self, rhs: i32) -> (r: Signed)
        requires
            rhs != 0,
        ensures
            r@ == quotient(self@ as int, rhs as int) as i32,
    {
        let x = self.0 as i64;
        let d = rhs as i64;
        let ax: u64 = if x < 0 { (0 - x) as u64 } else { x as u64 };
        let ad: u64 = if d < 0 { (0 - d) as u64 } else { d as u64 };
        let q = ax / ad;
        proof {
            assert(q <= ax) by (nonlinear_arith)
                requires
                    ad >= 1,
                    q == ax / ad,
            ;
        }
        let signed_q: i64 = if (x < 0) != (d < 0) { 0 - (q as i64) } else { q as i64 };
        Signed(signed_q as i32)
    }

    /// The sum of two words, wrapping around.
    pub fn wrapping_add_word(self, rhs: Signed) -> (r: Signed)
        ensures
            r@ == (self@ as int + rhs@ as int) as i32,
    {
        self.wrapping_add(rhs.0)
    }

    /// The difference of two words, wrapping around.
    pub fn wrapping_sub_word(self, rhs: Signed) -> (r: Signed)
        ensures
            r@ == (self@ as int - rhs@ as int) as i32,
    {
        self.wrapping_sub(rhs.0)
    }

    /// The product of two words, wrapping around.
    pub fn wrapping_mul_word(self, rhs: Signed) -> (r: Signed)
        ensures
            r@ == (self@ as int * rhs@ as int) as i32,
    {
        self.wrapping_mul(rhs.0)
    }

    /// The quotient of two words, as `wrapping_div`.
    pub fn wrapping_div_word(self, rhs: Signed) -> (r: Signed)
        requires
            rhs@ != 0,
        ensures
            r@ == quotient(self@ as int, rhs@ as int) as i32,
    {
        self.wrapping_div(rhs.0)
    }

    /// The word as an immediate in assembly text, always signed: `#+5`,
    /// `#-5`, `#+0`.
    pub open spec fn spec_text(self) -> Seq<char> {
        if self@ < 0 {
            "#-"@ + decimal((-(self@ as int)) as nat)
        } else {
            "#+"@ + decimal(self@ as nat)
        }
    }

    /// The word as an immediate in assembly text, always signed.
    pub fn to_string(self) -> (r: String)
        ensures
            r@ == self.spec_text(),
    {
        let mut s = String::new();
        if self.0 < 0 {
            s.append("#-");
            push_decimal(&mut s, (0i64 - self.0 as i64) as u32);
        } else {
            s.append("#+");
            push_decimal(&mut s, self.0 as u32);
        }
        proof {
            reveal_strlit("");
        }
        s
    }
}

/// `x / d` rounded towards zero, for `d` other than zero.
pub open spec fn quotient(x: int, d: int) -> int {
    if x == 0 {
        0
    } else if x > 0 && d > 0 {
        x / d
    } else if x < 0 && d < 0 {
        (x * -1) / (d * -1)
    } else if x < 0 {
        ((x * -1) / d) * -1
    } else {
        (x / (d * -1)) * -1
    }
}

impl PartialEq<i32> for Signed {
    fn eq(&self, other: &i32) -> (r: bool) {
        self.0 == *other
    }
}

impl vstd::std_specs::cmp::PartialEqSpecImpl<i32> for Signed {
    open spec fn obeys_eq_spec() -> bool {
        true
    }

    open spec fn eq_spec(&self, other: &i32) -> bool {
        self@ == *other
    }
}

impl PartialOrd<i32> for Signed {
    fn partial_cmp(&self, other: &i32) -> (r: Option<Ordering>) {
        if self.0 < *other {
            Some(Ordering::Less)
        } else if self.0 == *other {
            Some(Ordering::Equal)
        } else {
            Some(Ordering::Greater)
        }
    }
}

impl vstd::std_specs::cmp::PartialOrdSpecImpl<i32> for Signed {
    open spec fn obeys_partial_cmp_spec() -> bool {
        true
    }

    open spec fn partial_cmp_spec(&self, other: &i32) -> Option<Ordering> {
        if self@ < *other {
            Some(Ordering::Less)
        } else if self@ == *other {
            Some(Ordering::Equal)
        } else {
            Some(Ordering::Greater)
        }
    }
}

} // verus!
