//! 256-bit unsigned words, held as four 64-bit limbs (least significant first).
//! Arithmetic is done by the `U256` type of `alloy`'s primitives.
use alloy::primitives::U256;
use vstd::prelude::*;
use crate::text::decimal;

verus! {

/// 2^64.
pub open spec fn limb_base() -> int {
    0x1_0000_0000_0000_0000
}

/// 2^256, the modulus of 256-bit arithmetic.
pub open spec fn word_modulus() -> int {
    limb_base() * limb_base() * limb_base() * limb_base()
}

/// A 256-bit unsigned integer; `limbs[0]` is the least significant limb.
#[derive(Debug, Clone, Copy, PartialEq, Eq)]
pub struct Word256 {
    pub limbs: [u64; 4],
}

impl Word256 {
    /// The number the limbs stand for.
    pub open spec fn value(self) -> nat {
        (self.limbs[0] + limb_base() * (self.limbs[1] + limb_base() * (self.limbs[2] + limb_base()
            * self.limbs[3]))) as nat
    }

    /// Limb-wise bitwise and.
    pub open spec fn spec_bitand(self, other: Word256) -> Word256 {
        Word256 {
            limbs: [
                self.limbs[0] & other.limbs[0],
                self.limbs[1] & other.limbs[1],
                self.limbs[2] & other.limbs[2],
                self.limbs[3] & other.limbs[3],
            ],
        }
    }

    /// The word of a 64-bit number.
    pub open spec fn spec_from_u64(x: u64) -> Word256 {
        Word256 { limbs: [x, 0, 0, 0] }
    }

    /// Builds a word from a 64-bit number.
    pub fn from_u64(x: u64) -> (r: Word256)
        ensures
            r == Self::spec_from_u64(x),
            r.value() == x,
    {
        Word256 { limbs: [x, 0, 0, 0] }
    }
}

/// `a + b` on `U256`, which wraps around at 2^256.
#[verifier::external_body]
pub(crate) fn word_add(a: Word256, b: Word256) -> (r: Word256)
    ensures
        r.value() == (a.value() + b.value()) as int % word_modulus(),
{
    let x = U256::from_limbs(a.limbs) + U256::from_limbs(b.limbs);
    Word256 { limbs: x.into_limbs() }
}

/// `a & b` on `U256`, which ands limb by limb.
#[verifier::external_body]
pub(crate) fn word_bitand(a: Word256, b: Word256) -> (r: Word256)
    ensures
        r == a.spec_bitand(b),
{
    let x = U256::from_limbs(a.limbs) & U256::from_limbs(b.limbs);
    Word256 { limbs: x.into_limbs() }
}

/// `a < b` on `U256`, the order of the numbers.
#[verifier::external_body]
pub(crate) fn word_lt(a: Word256, b: Word256) -> (r: bool)
    ensures
        r == (a.value() < b.value()),
{
    U256::from_limbs(a.limbs) < U256::from_limbs(b.limbs)
}

/// The `Display` text of a `U256`: its decimal notation.
#[verifier::external_body]
pub(crate) fn word_to_decimal(a: Word256) -> (r: String)
    ensures
        r@ == decimal(a.value()),
{
    U256::from_limbs(a.limbs).to_string()
}

} // verus!
