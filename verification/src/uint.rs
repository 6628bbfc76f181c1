//! Unsigned 256-bit quantities: values, gas amounts, prices and difficulties.

use vstd::prelude::*;
use crate::outside::u256_decimal_string;

verus! {

/// Two to the power 64: the weight of one limb.
pub open spec fn limb() -> nat {
    0x1_0000_0000_0000_0000
}

/// The number that four 64-bit limbs spell, least significant limb first.
pub open spec fn limbs_value(limbs: Seq<u64>) -> nat {
    (limbs[0] as nat) + (limbs[1] as nat) * limb() + (limbs[2] as nat) * limb() * limb() + (
    limbs[3] as nat) * limb() * limb() * limb()
}

/// The character of the decimal digit `d`, where `0 <= d < 10`.
pub open spec fn decimal_digit(d: nat) -> char {
    (d + 48) as char
}

/// `n` written in decimal, without sign, padding or leading zeros.
pub open spec fn decimal_text(n: nat) -> Seq<char>
    decreases n,
{
    if n < 10 {
        seq![decimal_digit(n)]
    } else {
        decimal_text(n / 10).push(decimal_digit(n % 10))
    }
}

/// An unsigned integer of 256 bits, held as four 64-bit limbs, least significant first.
#[derive(Clone, Copy, Debug, PartialEq, Eq)]
pub struct Uint256 {
    pub limbs: [u64; 4],
}

impl Uint256 {
    /// The number that this value stands for.
    pub open spec fn view(&self) -> nat {
        limbs_value(self.limbs@)
    }

    /// Zero.
    pub fn zero() -> (r: Uint256)
        ensures
            r@ == 0,
    {
        Uint256 { limbs: [0, 0, 0, 0] }
    }

    /// The 256-bit value of a 64-bit number.
    pub fn from_u64(n: u64) -> (r: Uint256)
        ensures
            r@ == n,
    {
        Uint256 { limbs: [n, 0, 0, 0] }
    }

    /// The 256-bit value of a 128-bit number.
    pub fn from_u128(n: u128) -> (r: Uint256)
        ensures
            r@ == n,
    {
        let low: u64 = (n % 0x1_0000_0000_0000_0000) as u64;
        let high: u64 = (n / 0x1_0000_0000_0000_0000) as u64;
        Uint256 { limbs: [low, high, 0, 0] }
    }

    /// The value as a 128-bit number, or `None` where it does not fit.
    pub fn to_u128(&self) -> (r: Option<u128>)
        ensures
            match r {
                Some(v) => v == self@,
                None => self@ > u128::MAX,
            },
    {
        if self.limbs[2] != 0 || self.limbs[3] != 0 {
            let ghost w = limb();
            assert(self@ >= w * w) by (nonlinear_arith)
                requires
                    self@ == (self.limbs[0] as nat) + (self.limbs[1] as nat) * w + (
                    self.limbs[2] as nat) * w * w + (self.limbs[3] as nat) * w * w * w,
                    self.limbs[2] != 0 || self.limbs[3] != 0,
                    w > 0,
            ;
            assert(w * w > u128::MAX) by (nonlinear_arith)
                requires
                    w == 0x1_0000_0000_0000_0000,
            ;
            return None;
        }
        let low: u128 = self.limbs[0] as u128;
        let high: u128 = self.limbs[1] as u128;
        Some(high * 0x1_0000_0000_0000_0000 + low)
    }

    /// Whether the value is zero.
    pub fn is_zero(&self) -> (r: bool)
        ensures
            r == (self@ == 0),
    {
        self.limbs[0] == 0 && self.limbs[1] == 0 && self.limbs[2] == 0 && self.limbs[3] == 0
    }

    /// The value written in decimal.
    pub fn to_decimal(&self) -> (s: String)
        ensures
            s@ == decimal_text(self@),
    {
        u256_decimal_string(&self.limbs)
    }
}

} // verus!
