//! The decimal domain in which a settlement is computed: 96-bit mantissas
//! scaled by a power of ten of at most 28.

use rust_decimal::Decimal;
use rust_decimal::RoundingStrategy;
use vstd::arithmetic::power::pow;
use vstd::prelude::*;

verus! {

/// The first mantissa that the decimal domain cannot hold: 2^96.
pub const MANTISSA_LIMIT: u128 = 0x1_0000_0000_0000_0000_0000_0000;

/// The largest scale of the decimal domain.
pub const MAX_SCALE: u32 = 28;

/// What the decimal division of two whole numbers yields: the mantissa and
/// the scale of the quotient, or `None` where the division is refused.
pub uninterp spec fn decimal_quotient(dividend: nat, divisor: nat) -> Option<(nat, nat)>;

/// The whole number nearest to `mantissa / 10^scale`, a tie going up.
pub open spec fn nearest_whole(mantissa: nat, scale: nat) -> nat {
    let unit = pow(10, scale) as nat;
    if 2 * (mantissa % unit) >= unit {
        mantissa / unit + 1
    } else {
        mantissa / unit
    }
}

/// Calls `Decimal::checked_mul` on two whole numbers. Both have scale 0, so
/// the product is the exact one where it fits 96 bits, and is refused as an
/// overflow where it does not.
#[verifier::external_body]
pub(crate) fn whole_product(a: u64, b: u64) -> (product: Option<u128>)
    ensures
        a * b < MANTISSA_LIMIT ==> product == Some((a * b) as u128),
        a * b >= MANTISSA_LIMIT ==> product is None,
{
    match Decimal::from(a).checked_mul(Decimal::from(b)) {
        Some(p) => Some(p.mantissa() as u128),
        None => None,
    }
}

/// Calls `Decimal::checked_div` on two whole numbers and hands out the
/// quotient's mantissa and scale. The contract names the quotient and adds
/// only the bounds that every decimal keeps.
#[verifier::external_body]
pub(crate) fn whole_quotient(dividend: u128, divisor: u64) -> (quotient: Option<(u128, u32)>)
    requires
        dividend < MANTISSA_LIMIT,
    ensures
        match quotient {
            Some((mantissa, scale)) => {
                &&& decimal_quotient(dividend as nat, divisor as nat) == Some(
                    (mantissa as nat, scale as nat),
                )
                &&& mantissa < MANTISSA_LIMIT
                &&& scale <= MAX_SCALE
            },
            None => decimal_quotient(dividend as nat, divisor as nat) is None,
        },
{
    let n = Decimal::from_i128_with_scale(dividend as i128, 0);
    match n.checked_div(Decimal::from(divisor)) {
        Some(q) => Some((q.mantissa() as u128, q.scale())),
        None => None,
    }
}

/// Calls `Decimal::round_dp_with_strategy` with no decimal places and the
/// strategy `MidpointAwayFromZero` on the decimal `mantissa / 10^scale`,
/// which is not negative: the nearest whole number, a tie going up.
#[verifier::external_body]
pub(crate) fn round_to_whole(mantissa: u128, scale: u32) -> (whole: u128)
    requires
        mantissa < MANTISSA_LIMIT,
        scale <= MAX_SCALE,
    ensures
        whole == nearest_whole(mantissa as nat, scale as nat),
{
    let d = Decimal::from_i128_with_scale(mantissa as i128, scale);
    d.round_dp_with_strategy(0, RoundingStrategy::MidpointAwayFromZero).mantissa() as u128
}

} // verus!
