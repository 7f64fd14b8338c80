//! The settlement engine: constant-product swap outputs, computed in the
//! decimal domain and accepted only where they are exact.

use crate::decimal::{
    decimal_quotient, nearest_whole, round_to_whole, whole_product, whole_quotient,
    MANTISSA_LIMIT,
};
use crate::error::PoolError;
use vstd::prelude::*;

verus! {

/// One of the pool's two assets, or the vault that holds it.
#[derive(Debug, Clone, Copy, PartialEq, Eq, Structural)]
pub enum Side {
    X,
    Y,
}

impl Side {
    /// The other asset of the pair.
    pub open spec fn spec_other(self) -> Side {
        match self {
            Side::X => Side::Y,
            Side::Y => Side::X,
        }
    }

    /// The other asset of the pair.
    pub fn other(&self) -> (side: Side)
        ensures
            side == self.spec_other(),
    {
        match self {
            Side::X => Side::Y,
            Side::Y => Side::X,
        }
    }
}

/// The outcome of one swap: the reserves to store, the amount to pay out,
/// and the vaults that take the deposit and make the payment.
#[derive(Debug, Clone, Copy, PartialEq, Eq, Structural)]
pub struct Settlement {
    pub new_x: u64,
    pub new_y: u64,
    pub out_amount: u64,
    pub receiving: Side,
    pub paying: Side,
}

/// The whole number nearest to `numerator / denominator`, a tie going up.
pub open spec fn nearest_quotient(numerator: nat, denominator: nat) -> nat
    recommends
        denominator > 0,
{
    (2 * numerator + denominator) / (2 * denominator)
}

/// The reserve of the asset that is deposited.
pub open spec fn reserve_in(reserve_x: u64, reserve_y: u64, deposited: Side) -> u64 {
    match deposited {
        Side::X => reserve_x,
        Side::Y => reserve_y,
    }
}

/// The reserve of the asset that is paid out.
pub open spec fn reserve_out(reserve_x: u64, reserve_y: u64, deposited: Side) -> u64 {
    match deposited {
        Side::X => reserve_y,
        Side::Y => reserve_x,
    }
}

/// The paying reserve after the swap: the old product of the reserves
/// divided by the grown reserve, rounded to the nearest unit.
pub open spec fn new_reserve_out(
    reserve_x: u64,
    reserve_y: u64,
    deposit: u64,
    deposited: Side,
) -> nat {
    nearest_quotient(
        (reserve_x * reserve_y) as nat,
        (reserve_in(reserve_x, reserve_y, deposited) + deposit) as nat,
    )
}

/// Whether the swap stays inside the numeric domain: the grown reserve is
/// positive and fits 64 bits, and the product of the reserves fits the
/// 96-bit mantissa.
pub open spec fn in_domain(reserve_x: u64, reserve_y: u64, deposit: u64, deposited: Side) -> bool {
    &&& 0 < reserve_in(reserve_x, reserve_y, deposited) + deposit <= u64::MAX
    &&& reserve_x * reserve_y < MANTISSA_LIMIT
}

/// The settlement of a deposit of `deposit` units of the asset `deposited`
/// into reserves `(reserve_x, reserve_y)`.
pub open spec fn spec_settlement(
    reserve_x: u64,
    reserve_y: u64,
    deposit: u64,
    deposited: Side,
) -> Settlement {
    let grown = (reserve_in(reserve_x, reserve_y, deposited) + deposit) as u64;
    let shrunk = new_reserve_out(reserve_x, reserve_y, deposit, deposited) as u64;
    let paid = (reserve_out(reserve_x, reserve_y, deposited) - shrunk) as u64;
    match deposited {
        Side::X => Settlement {
            new_x: grown,
            new_y: shrunk,
            out_amount: paid,
            receiving: Side::X,
            paying: Side::Y,
        },
        Side::Y => Settlement {
            new_x: shrunk,
            new_y: grown,
            out_amount: paid,
            receiving: Side::Y,
            paying: Side::X,
        },
    }
}

/// Whether the decimal division of `numerator` by `denominator`, rounded to
/// a whole number, is the nearest whole number to the exact quotient.
pub open spec fn decimal_is_exact(numerator: nat, denominator: nat) -> bool {
    match decimal_quotient(numerator, denominator) {
        Some((mantissa, scale)) => nearest_whole(mantissa, scale) == nearest_quotient(
            numerator,
            denominator,
        ),
        None => false,
    }
}

/// The outcome of settling a swap: the exact settlement where the swap
/// stays inside the numeric domain and the decimal domain computes its
/// quotient exactly, `ArithmeticOverflow` elsewhere.
pub open spec fn spec_settle(reserve_x: u64, reserve_y: u64, deposit: u64, deposited: Side) -> Result<
    Settlement,
    PoolError,
> {
    if in_domain(reserve_x, reserve_y, deposit, deposited) && decimal_is_exact(
        (reserve_x * reserve_y) as nat,
        (reserve_in(reserve_x, reserve_y, deposited) + deposit) as nat,
    ) {
        Ok(spec_settlement(reserve_x, reserve_y, deposit, deposited))
    } else {
        Err(PoolError::ArithmeticOverflow)
    }
}

/// A whole number is the quotient of a division exactly when the dividend
/// lies between its multiple of the divisor and the next one.
proof fn lemma_quotient_by_bounds(dividend: nat, divisor: nat, candidate: nat)
    requires
        divisor > 0,
    ensures
        (dividend / divisor == candidate) <==> (candidate * divisor <= dividend < candidate
            * divisor + divisor),
{
    vstd::arithmetic::div_mod::lemma_fundamental_div_mod(dividend as int, divisor as int);
    vstd::arithmetic::div_mod::lemma_mod_bound(dividend as int, divisor as int);
    let q = dividend / divisor;
    let r = dividend % divisor;
    assert(dividend == divisor * q + r);
    if candidate * divisor <= dividend < candidate * divisor + divisor {
        assert(q == candidate) by (nonlinear_arith)
            requires
                dividend == divisor * q + r,
                0 <= r < divisor,
                candidate * divisor <= dividend < candidate * divisor + divisor,
        ;
    }
    if q == candidate {
        assert(candidate * divisor == divisor * q) by (nonlinear_arith)
            requires
                q == candidate,
        ;
    }
}

/// The nearest whole number to a quotient is the one whose doubled
/// multiple of the divisor is within the divisor of the doubled dividend.
pub proof fn lemma_nearest_by_bounds(numerator: nat, denominator: nat, candidate: nat)
    requires
        denominator > 0,
    ensures
        (nearest_quotient(numerator, denominator) == candidate) <==> (2 * (candidate * denominator)
            <= 2 * numerator + denominator < 2 * (candidate * denominator) + 2 * denominator),
{
    lemma_quotient_by_bounds(2 * numerator + denominator, 2 * denominator, candidate);
    assert(candidate * (2 * denominator) == 2 * (candidate * denominator)) by (nonlinear_arith);
}

/// The paying reserve never grows: the quotient of the old product by a
/// reserve that did not shrink is at most the old paying reserve.
pub proof fn lemma_new_reserve_at_most_old(
    reserve_x: u64,
    reserve_y: u64,
    deposit: u64,
    deposited: Side,
)
    requires
        0 < reserve_in(reserve_x, reserve_y, deposited) + deposit,
    ensures
        new_reserve_out(reserve_x, reserve_y, deposit, deposited) <= reserve_out(
            reserve_x,
            reserve_y,
            deposited,
        ),
{
    let r_in = reserve_in(reserve_x, reserve_y, deposited) as nat;
    let r_out = reserve_out(reserve_x, reserve_y, deposited) as nat;
    let n = (reserve_x * reserve_y) as nat;
    let d = (r_in + deposit) as nat;
    let q = nearest_quotient(n, d);
    assert(n == r_in * r_out) by (nonlinear_arith)
        requires
            n == reserve_x * reserve_y,
            (r_in == reserve_x && r_out == reserve_y) || (r_in == reserve_y && r_out
                == reserve_x),
    ;
    lemma_nearest_by_bounds(n, d, q);
    assert(q <= r_out) by (nonlinear_arith)
        requires
            n == r_in * r_out,
            d >= r_in,
            d > 0,
            2 * (q * d) <= 2 * n + d,
    ;
}

/// Whether `candidate` is the whole number nearest to
/// `numerator / denominator`, a tie going up: checked by one
/// multiplication, without dividing.
pub fn is_nearest(candidate: u64, numerator: u128, denominator: u64) -> (nearest: bool)
    requires
        denominator > 0,
    ensures
        nearest == (candidate == nearest_quotient(numerator as nat, denominator as nat)),
{
    assert(candidate * denominator <= 0xFFFF_FFFF_FFFF_FFFF * 0xFFFF_FFFF_FFFF_FFFF)
        by (nonlinear_arith)
        requires
            0 <= candidate <= 0xFFFF_FFFF_FFFF_FFFF,
            0 <= denominator <= 0xFFFF_FFFF_FFFF_FFFF,
    ;
    let multiple: u128 = candidate as u128 * denominator as u128;
    proof {
        lemma_nearest_by_bounds(numerator as nat, denominator as nat, candidate as nat);
    }
    if multiple > numerator {
        let over = multiple - numerator;
        over <= (denominator / 2) as u128
    } else {
        let short = numerator - multiple;
        short <= ((denominator - 1) / 2) as u128
    }
}

/// Completes a settlement from the rounded quotient that the decimal
/// domain produced for it. The result is the exact settlement where the
/// swap stays inside the numeric domain and `rounded` is the nearest whole
/// number to the exact quotient, and `ArithmeticOverflow` in every other
/// case.
pub fn settle_rounded(
    reserve_x: u64,
    reserve_y: u64,
    deposit: u64,
    deposited: Side,
    rounded: u128,
) -> (r: Result<Settlement, PoolError>)
    ensures
        r is Ok <==> in_domain(reserve_x, reserve_y, deposit, deposited) && rounded
            == new_reserve_out(reserve_x, reserve_y, deposit, deposited),
        r is Ok ==> r.unwrap() == spec_settlement(reserve_x, reserve_y, deposit, deposited),
        r is Err ==> r == Err::<Settlement, PoolError>(PoolError::ArithmeticOverflow),
{
    let (r_in, r_out) = match deposited {
        Side::X => (reserve_x, reserve_y),
        Side::Y => (reserve_y, reserve_x),
    };
    let grown = match r_in.checked_add(deposit) {
        Some(g) => g,
        None => {
            return Err(PoolError::ArithmeticOverflow);
        },
    };
    if grown == 0 {
        return Err(PoolError::ArithmeticOverflow);
    }
    assert(reserve_x * reserve_y <= 0xFFFF_FFFF_FFFF_FFFF * 0xFFFF_FFFF_FFFF_FFFF)
        by (nonlinear_arith)
        requires
            0 <= reserve_x <= 0xFFFF_FFFF_FFFF_FFFF,
            0 <= reserve_y <= 0xFFFF_FFFF_FFFF_FFFF,
    ;
    let product: u128 = reserve_x as u128 * reserve_y as u128;
    if product >= MANTISSA_LIMIT {
        return Err(PoolError::ArithmeticOverflow);
    }
    proof {
        lemma_new_reserve_at_most_old(reserve_x, reserve_y, deposit, deposited);
    }
    if rounded > r_out as u128 {
        return Err(PoolError::ArithmeticOverflow);
    }
    let shrunk = rounded as u64;
    if !is_nearest(shrunk, product, grown) {
        return Err(PoolError::ArithmeticOverflow);
    }
    let paid = r_out - shrunk;
    Ok(
        match deposited {
            Side::X => Settlement {
                new_x: grown,
                new_y: shrunk,
                out_amount: paid,
                receiving: Side::X,
                paying: Side::Y,
            },
            Side::Y => Settlement {
                new_x: shrunk,
                new_y: grown,
                out_amount: paid,
                receiving: Side::Y,
                paying: Side::X,
            },
        },
    )
}

/// Settles a deposit of `deposit` units of the asset `deposited` into
/// reserves `(reserve_x, reserve_y)`.
///
/// The product and the quotient are computed in the decimal domain. The
/// result is accepted only where the rounded decimal quotient is the
/// nearest whole number to the exact quotient; then it is the exact
/// settlement. Where the swap leaves the numeric domain, or the decimal
/// quotient is not exact enough, the result is `ArithmeticOverflow`.
pub fn settle(reserve_x: u64, reserve_y: u64, deposit: u64, deposited: Side) -> (r: Result<
    Settlement,
    PoolError,
>)
    ensures
        r == spec_settle(reserve_x, reserve_y, deposit, deposited),
{
    let r_in = match deposited {
        Side::X => reserve_x,
        Side::Y => reserve_y,
    };
    let grown = match r_in.checked_add(deposit) {
        Some(g) => g,
        None => {
            return Err(PoolError::ArithmeticOverflow);
        },
    };
    if grown == 0 {
        return Err(PoolError::ArithmeticOverflow);
    }
    let product = match whole_product(reserve_x, reserve_y) {
        Some(p) => p,
        None => {
            return Err(PoolError::ArithmeticOverflow);
        },
    };
    let (mantissa, scale) = match whole_quotient(product, grown) {
        Some(q) => q,
        None => {
            return Err(PoolError::ArithmeticOverflow);
        },
    };
    let rounded = round_to_whole(mantissa, scale);
    settle_rounded(reserve_x, reserve_y, deposit, deposited, rounded)
}

/// Whether the exact quotient of the swap lies below the midpoint between
/// two whole numbers, so that rounding it does not raise it.
pub open spec fn rounds_down(reserve_x: u64, reserve_y: u64, deposit: u64, deposited: Side) -> bool {
    let grown = reserve_in(reserve_x, reserve_y, deposited) + deposit;
    2 * ((reserve_x * reserve_y) % grown) < grown
}

/// Whether the division of the swap leaves no remainder.
pub open spec fn divides_exactly(
    reserve_x: u64,
    reserve_y: u64,
    deposit: u64,
    deposited: Side,
) -> bool {
    (reserve_x * reserve_y) % (reserve_in(reserve_x, reserve_y, deposited) + deposit) == 0
}

/// The product of the reserves does not grow in a swap whose quotient
/// rounds down, and stays the same exactly when the division leaves no
/// remainder. (Where the quotient rounds up, the product grows: reserves
/// 1 and 3 with a deposit of 1 give 2 and 2.)
pub proof fn lemma_product_never_grows(
    reserve_x: u64,
    reserve_y: u64,
    deposit: u64,
    deposited: Side,
)
    requires
        in_domain(reserve_x, reserve_y, deposit, deposited),
        rounds_down(reserve_x, reserve_y, deposit, deposited),
    ensures
        ({
            let after = spec_settlement(reserve_x, reserve_y, deposit, deposited);
            &&& after.new_x * after.new_y <= reserve_x * reserve_y
            &&& after.new_x * after.new_y == reserve_x * reserve_y <==> divides_exactly(
                reserve_x,
                reserve_y,
                deposit,
                deposited,
            )
        }),
{
    let after = spec_settlement(reserve_x, reserve_y, deposit, deposited);
    let n = (reserve_x * reserve_y) as nat;
    let d = (reserve_in(reserve_x, reserve_y, deposited) + deposit) as nat;
    let k = n / d;
    let r = n % d;
    vstd::arithmetic::div_mod::lemma_fundamental_div_mod(n as int, d as int);
    vstd::arithmetic::div_mod::lemma_mod_bound(n as int, d as int);
    assert(n == d * k + r);
    assert(k * d == d * k) by (nonlinear_arith);
    lemma_nearest_by_bounds(n, d, k);
    assert(nearest_quotient(n, d) == k);
    lemma_new_reserve_at_most_old(reserve_x, reserve_y, deposit, deposited);
    assert(after.new_x * after.new_y == d * k) by (nonlinear_arith)
        requires
            (after.new_x == d && after.new_y == k) || (after.new_x == k && after.new_y == d),
    ;
}

/// What is paid out is what the paying reserve loses, and what is deposited
/// is what the other reserve gains: a swap creates and destroys nothing.
pub proof fn lemma_settlement_conserves(
    reserve_x: u64,
    reserve_y: u64,
    deposit: u64,
    deposited: Side,
)
    requires
        in_domain(reserve_x, reserve_y, deposit, deposited),
    ensures
        ({
            let after = spec_settlement(reserve_x, reserve_y, deposit, deposited);
            match deposited {
                Side::X => after.new_x == reserve_x + deposit && after.new_y + after.out_amount
                    == reserve_y,
                Side::Y => after.new_y == reserve_y + deposit && after.new_x + after.out_amount
                    == reserve_x,
            }
        }),
{
    lemma_new_reserve_at_most_old(reserve_x, reserve_y, deposit, deposited);
}

/// One deposit of a sequence of swaps.
pub struct Deposit {
    pub amount: u64,
    pub deposited: Side,
}

/// The reserves after the swaps of `deposits`, one after the other.
pub open spec fn reserves_after(reserve_x: u64, reserve_y: u64, deposits: Seq<Deposit>) -> (u64, u64)
    decreases deposits.len(),
{
    if deposits.len() == 0 {
        (reserve_x, reserve_y)
    } else {
        let first = spec_settlement(reserve_x, reserve_y, deposits[0].amount, deposits[0].deposited);
        reserves_after(first.new_x, first.new_y, deposits.drop_first())
    }
}

/// Whether every swap of `deposits` stays inside the numeric domain and
/// rounds down, each taken at the reserves that the swaps before it left.
pub open spec fn every_swap_rounds_down(
    reserve_x: u64,
    reserve_y: u64,
    deposits: Seq<Deposit>,
) -> bool
    decreases deposits.len(),
{
    if deposits.len() == 0 {
        true
    } else {
        let first = spec_settlement(reserve_x, reserve_y, deposits[0].amount, deposits[0].deposited);
        &&& in_domain(reserve_x, reserve_y, deposits[0].amount, deposits[0].deposited)
        &&& rounds_down(reserve_x, reserve_y, deposits[0].amount, deposits[0].deposited)
        &&& every_swap_rounds_down(first.new_x, first.new_y, deposits.drop_first())
    }
}

/// Over any sequence of swaps that each round down, the product of the
/// reserves at the end is at most the product at the start.
pub proof fn lemma_product_never_grows_over_swaps(
    reserve_x: u64,
    reserve_y: u64,
    deposits: Seq<Deposit>,
)
    requires
        every_swap_rounds_down(reserve_x, reserve_y, deposits),
    ensures
        ({
            let (end_x, end_y) = reserves_after(reserve_x, reserve_y, deposits);
            end_x * end_y <= reserve_x * reserve_y
        }),
    decreases deposits.len(),
{
    if deposits.len() > 0 {
        let first = spec_settlement(reserve_x, reserve_y, deposits[0].amount, deposits[0].deposited);
        lemma_product_never_grows(reserve_x, reserve_y, deposits[0].amount, deposits[0].deposited);
        lemma_product_never_grows_over_swaps(first.new_x, first.new_y, deposits.drop_first());
    }
}

} // verus!
