//! Wide-integer accumulation primitives.
//!
//! Stake is measured in 128-bit token amounts; stake integrated over time
//! (`Volume`) needs a 256-bit range, since it grows without bound over a
//! pool's lifetime.  `Volume` keeps two 128-bit limbs; its mathematical
//! value is the view `v@`.  Addition, subtraction and comparison are
//! verified here; the one product-and-quotient operation goes through the
//! 512-bit integers of an outside crate behind a trusted wrapper.

use vstd::arithmetic::div_mod::{
    lemma_div_basics, lemma_div_is_ordered, lemma_div_multiples_vanish_fancy,
    lemma_fundamental_div_mod, lemma_mod_multiples_vanish, lemma_small_mod,
};
use vstd::arithmetic::mul::lemma_mul_upper_bound;
use vstd::prelude::*;

use crate::errors::RewardsError;

use cosmwasm_std::Uint512;

verus! {

/// A moment in time: the block timestamp of the execution environment.
pub type Moment = u64;

/// A span of time: the difference of two `Moment`s.
pub type Duration = u64;

/// A token quantity.
pub type Amount = u128;

/// A ratio, written as (numerator, denominator).
pub type Ratio = (u128, u128);

/// Seconds in 24 hours: the default bonding period.
pub const DAY: Duration = 86400;

/// 2^128: the weight of the high limb of a `Volume`.
#[verifier::inline]
pub open spec fn pow2_128() -> int {
    0x1_0000_0000_0000_0000_0000_0000_0000_0000int
}

/// 2^256: the exclusive upper bound of a `Volume`.
#[verifier::inline]
pub open spec fn pow2_256() -> int {
    pow2_128() * pow2_128()
}

/// Amount integrated over time, as a 256-bit unsigned integer held in two
/// 128-bit limbs.  The value of `v` is `v@ == v.hi * 2^128 + v.lo`.
#[derive(Clone, Copy, Debug, PartialEq, Eq, Structural)]
pub struct Volume {
    pub hi: u128,
    pub lo: u128,
}

impl View for Volume {
    type V = int;

    open spec fn view(&self) -> int {
        self.hi * pow2_128() + self.lo
    }
}

impl Volume {
    /// The zero volume.
    pub fn zero() -> (r: Volume)
        ensures
            r@ == 0,
    {
        Volume { hi: 0, lo: 0 }
    }

    /// Widen a token amount into a volume.
    pub fn from_amount(amount: Amount) -> (r: Volume)
        ensures
            r@ == amount,
    {
        Volume { hi: 0, lo: amount }
    }

    /// Whether the volume is zero.
    pub fn is_zero(&self) -> (r: bool)
        ensures
            r == (self@ == 0),
    {
        self.hi == 0 && self.lo == 0
    }

    /// Whether `self <= other` holds of the values.
    pub fn le(&self, other: &Volume) -> (r: bool)
        ensures
            r == (self@ <= other@),
    {
        if self.hi == other.hi {
            self.lo <= other.lo
        } else {
            self.hi < other.hi
        }
    }

    /// The value reduced modulo 2^128: the low limb.
    pub fn low_u128(&self) -> (r: u128)
        ensures
            r == self@ % pow2_128(),
    {
        proof {
            lemma_mod_multiples_vanish(self.hi as int, self.lo as int, pow2_128());
            lemma_small_mod(self.lo as nat, pow2_128() as nat);
        }
        self.lo
    }

    /// The sum of two volumes, or `None` where it would exceed the
    /// 256-bit range.
    pub fn checked_add(self, other: Volume) -> (r: Option<Volume>)
        ensures
            match r {
                Some(v) => self@ + other@ < pow2_256() && v@ == self@ + other@,
                None => self@ + other@ >= pow2_256(),
            },
    {
        let lo = self.lo.wrapping_add(other.lo);
        let carry: u128 = if lo < self.lo {
            1
        } else {
            0
        };
        match self.hi.checked_add(other.hi) {
            Some(partial) => match partial.checked_add(carry) {
                Some(hi) => Some(Volume { hi, lo }),
                None => None,
            },
            None => None,
        }
    }

    /// The difference of two volumes, or `None` where `other` exceeds
    /// `self`.
    pub fn checked_sub(self, other: Volume) -> (r: Option<Volume>)
        ensures
            match r {
                Some(v) => other@ <= self@ && v@ == self@ - other@,
                None => other@ > self@,
            },
    {
        let lo = self.lo.wrapping_sub(other.lo);
        let borrow: u128 = if self.lo < other.lo {
            1
        } else {
            0
        };
        match self.hi.checked_sub(other.hi) {
            Some(partial) => match partial.checked_sub(borrow) {
                Some(hi) => Some(Volume { hi, lo }),
                None => None,
            },
            None => None,
        }
    }
}

/// The unique pair of limbs whose value is `v`, for `0 <= v < 2^256`.
pub open spec fn vol_limbs(v: int) -> Volume {
    Volume { hi: (v / pow2_128()) as u128, lo: (v % pow2_128()) as u128 }
}

/// A volume is the limb pair of its own value.
pub proof fn lemma_vol_limbs(v: Volume)
    ensures
        vol_limbs(v@) == v,
        0 <= v@ < pow2_256(),
{
    lemma_div_multiples_vanish_fancy(v.hi as int, v.lo as int, pow2_128());
    lemma_mod_multiples_vanish(v.hi as int, v.lo as int, pow2_128());
    lemma_small_mod(v.lo as nat, pow2_128() as nat);
    assert(v.hi * pow2_128() <= (pow2_128() - 1) * pow2_128()) by {
        lemma_mul_upper_bound(v.hi as int, pow2_128() - 1, pow2_128(), pow2_128());
    }
}

/// The limb pair of a value in range carries exactly that value.
pub proof fn lemma_vol_limbs_value(v: int)
    requires
        0 <= v < pow2_256(),
    ensures
        vol_limbs(v)@ == v,
{
    lemma_fundamental_div_mod(v, pow2_128());
    lemma_div_is_ordered(v, pow2_256() - 1, pow2_128());
}

/// Floor of `x * num / denom`, or `None` where the quotient itself
/// exceeds the 256-bit range.
///
/// Relies on `cosmwasm_std::Uint512`: 512-bit multiplication, which holds
/// any product of two 256-bit values exactly, and 512-bit floor division.
#[verifier::external_body]
pub(crate) fn vol_mul_div(x: &Volume, num: &Volume, denom: &Volume) -> (r: Option<Volume>)
    requires
        denom@ != 0,
    ensures
        match r {
            Some(v) => v@ == (x@ * num@) / denom@ && (x@ * num@) / denom@ < pow2_256(),
            None => (x@ * num@) / denom@ >= pow2_256(),
        },
{
    let xw = (Uint512::new(x.hi) << 128u32) + Uint512::new(x.lo);
    let nw = (Uint512::new(num.hi) << 128u32) + Uint512::new(num.lo);
    let dw = (Uint512::new(denom.hi) << 128u32) + Uint512::new(denom.lo);
    let b = ((xw * nw) / dw).to_be_bytes();
    if b[0..32] != [0u8; 32] {
        return None;
    }
    let mut h = [0u8; 16];
    let mut l = [0u8; 16];
    h.copy_from_slice(&b[32..48]);
    l.copy_from_slice(&b[48..64]);
    Some(Volume { hi: u128::from_be_bytes(h), lo: u128::from_be_bytes(l) })
}

/// Advance an accumulator: `total_before + value_after * elapsed`.
///
/// This is the one mechanism by which every integral of stake over time is
/// carried forward, pool-wide and per account alike; it stands in for a
/// complete transaction history at a constant cost per update.  Fails with
/// an overflow error where the sum would leave the 256-bit range.
pub fn accumulate(total_before: Volume, elapsed: Duration, value_after: Amount) -> (r: Result<
    Volume,
    RewardsError,
>)
    ensures
        match r {
            Ok(v) => total_before@ + value_after * elapsed < pow2_256() && v@ == total_before@
                + value_after * elapsed,
            Err(e) => e == RewardsError::Overflow && total_before@ + value_after * elapsed
                >= pow2_256(),
        },
{
    let grown = Volume::from_amount(value_after);
    let factor = Volume::from_amount(elapsed as u128);
    let unit = Volume::from_amount(1);
    proof {
        lemma_mul_upper_bound(
            value_after as int,
            pow2_128() - 1,
            elapsed as int,
            pow2_128() - 1,
        );
        lemma_div_basics(value_after * elapsed);
    }
    match vol_mul_div(&grown, &factor, &unit) {
        Some(product) => match total_before.checked_add(product) {
            Some(v) => Ok(v),
            None => Err(RewardsError::Overflow),
        },
        None => {
            proof {
                let p: int = pow2_128();
                assert((p - 1) * (p - 1) < p * p) by (nonlinear_arith)
                    requires
                        p >= 2,
                ;
                assert(false);
            }
            Err(RewardsError::Overflow)
        },
    }
}

} // verus!
