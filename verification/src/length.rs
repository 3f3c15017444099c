//! Exact lengths in display points.
//!
//! Stroke geometry needs the half of a width, and the half of a whole number is
//! not always whole.  A [`Length`] is therefore a binary fraction: a signed
//! count of units of `2^-frac_bits` points.  Halving adds one bit to the
//! resolution and never rounds.

use vstd::arithmetic::power2::{lemma2_to64, lemma_pow2_pos, lemma_pow2_unfold, pow2};
use vstd::prelude::*;

verus! {

/// The length `units / 2^frac_bits`, in display points.
///
/// Two lengths are equal when both fields are; `2 / 2^1` and `1 / 2^0` measure
/// the same distance and are still different values.
#[derive(Clone, Copy, PartialEq, Eq, Structural, Debug)]
pub struct Length {
    /// The number of units; negative for a length that points backwards.
    pub units: i64,
    /// The binary logarithm of the number of units in one point.
    pub frac_bits: u32,
}

impl Length {
    /// The length in units of `2^-bits` points, for a resolution `bits` that is
    /// at least as fine as the length's own.
    pub open spec fn scaled(self, bits: nat) -> int
        recommends
            bits >= self.frac_bits,
    {
        self.units * pow2((bits - self.frac_bits) as nat)
    }

    /// Whether the length is greater than zero.
    pub open spec fn positive(self) -> bool {
        self.units > 0
    }

    /// Whether the length can be halved without leaving the range of
    /// `frac_bits`.
    pub open spec fn halvable(self) -> bool {
        self.frac_bits < u32::MAX
    }

    /// Half of the length: the same number of units, each half as long.
    pub open spec fn halved(self) -> Length
        recommends
            self.halvable(),
    {
        Length { units: self.units, frac_bits: (self.frac_bits + 1) as u32 }
    }

    /// The length `units / 2^frac_bits`.
    pub fn new(units: i64, frac_bits: u32) -> (length: Length)
        ensures
            length == (Length { units, frac_bits }),
    {
        Length { units, frac_bits }
    }

    /// The zero length.
    pub fn zero() -> (length: Length)
        ensures
            length == (Length { units: 0, frac_bits: 0 }),
            !length.positive(),
    {
        Length { units: 0, frac_bits: 0 }
    }

    /// A whole number of points.
    pub fn from_points(points: i64) -> (length: Length)
        ensures
            length == (Length { units: points, frac_bits: 0 }),
            length.scaled(0) == points,
    {
        proof {
            lemma2_to64();
            let one = pow2(0) as int;
            assert(points * one == points) by (nonlinear_arith)
                requires
                    one == 1,
            ;
        }
        Length { units: points, frac_bits: 0 }
    }

    /// Whether the length is greater than zero.
    pub fn is_positive(&self) -> (b: bool)
        ensures
            b == self.positive(),
    {
        self.units > 0
    }

    /// Whether [`Length::half`] accepts the length.
    pub fn can_halve(&self) -> (b: bool)
        ensures
            b == self.halvable(),
    {
        self.frac_bits < u32::MAX
    }

    /// Half of the length, exactly.
    pub fn half(&self) -> (half: Length)
        requires
            self.halvable(),
        ensures
            half == self.halved(),
            forall|bits: nat| bits > self.frac_bits ==> 2 * #[trigger] half.scaled(bits) == self.scaled(bits),
    {
        proof {
            assert forall|bits: nat| bits > self.frac_bits implies 2 * #[trigger] self.halved().scaled(
                bits,
            ) == self.scaled(bits) by {
                lemma_half_is_exact(*self, bits);
            }
        }
        Length { units: self.units, frac_bits: self.frac_bits + 1 }
    }
}

/// Twice the half of a length is the length: at every resolution that holds
/// the half, the half counts exactly half as many units as the whole.
pub proof fn lemma_half_is_exact(whole: Length, bits: nat)
    requires
        whole.halvable(),
        bits > whole.frac_bits,
    ensures
        2 * whole.halved().scaled(bits) == whole.scaled(bits),
{
    let fine = (bits - whole.frac_bits) as nat;
    lemma_pow2_unfold(fine);
    assert(pow2(fine) == 2 * pow2((fine - 1) as nat));
    assert(whole.units * (2 * pow2((fine - 1) as nat)) == 2 * (whole.units * pow2((fine - 1) as nat)))
        by (nonlinear_arith);
}

/// A length is positive exactly when it counts a positive number of units at
/// every resolution that holds it.
pub proof fn lemma_positive_at_every_resolution(length: Length, bits: nat)
    requires
        bits >= length.frac_bits,
    ensures
        length.positive() <==> length.scaled(bits) > 0,
{
    let fine = (bits - length.frac_bits) as nat;
    lemma_pow2_pos(fine);
    let scale = pow2(fine) as int;
    let units = length.units as int;
    assert(units > 0 ==> units * scale > 0) by (nonlinear_arith)
        requires
            scale > 0,
    ;
    assert(units <= 0 ==> units * scale <= 0) by (nonlinear_arith)
        requires
            scale > 0,
    ;
}

} // verus!
