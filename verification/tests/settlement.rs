use solana_amm::error::PoolError;
use solana_amm::settlement::{is_nearest, settle, settle_rounded, Settlement, Side};

const ONE_X: u64 = 100_000_000;
const ONE_Y: u64 = 10_000;

#[test]
fn deposit_of_y_pays_out_x() {
    let s = settle(100 * ONE_X, 10_000 * ONE_Y, 100 * ONE_Y, Side::Y).unwrap();
    assert_eq!(
        s,
        Settlement {
            new_x: 9_900_990_099,
            new_y: 101_000_000,
            out_amount: 99_009_901,
            receiving: Side::Y,
            paying: Side::X,
        }
    );
}

#[test]
fn deposit_of_x_pays_out_y() {
    let s = settle(1_000, 2_000, 1_000, Side::X).unwrap();
    assert_eq!(
        s,
        Settlement {
            new_x: 2_000,
            new_y: 1_000,
            out_amount: 1_000,
            receiving: Side::X,
            paying: Side::Y,
        }
    );
}

#[test]
fn a_tie_rounds_up() {
    // 1 * 5 / 2 = 2.5
    let s = settle(1, 5, 1, Side::X).unwrap();
    assert_eq!((s.new_x, s.new_y, s.out_amount), (2, 3, 2));
    // 1 * 3 / 2 = 1.5
    let s = settle(3, 1, 1, Side::Y).unwrap();
    assert_eq!((s.new_x, s.new_y, s.out_amount), (2, 2, 1));
}

#[test]
fn below_and_above_the_midpoint() {
    // 10 * 10 / 13 = 7.69...
    let s = settle(10, 10, 3, Side::X).unwrap();
    assert_eq!((s.new_x, s.new_y, s.out_amount), (13, 8, 2));
    // 10 * 10 / 14 = 7.14...
    let s = settle(10, 10, 4, Side::X).unwrap();
    assert_eq!((s.new_x, s.new_y, s.out_amount), (14, 7, 3));
}

#[test]
fn the_output_is_the_old_reserve_less_the_rounded_new_one() {
    // 7 * 9 / 10 = 6.3: the new reserve is 6 and the output 9 - 6
    let s = settle(7, 9, 3, Side::X).unwrap();
    assert_eq!((s.new_x, s.new_y, s.out_amount), (10, 6, 3));
    assert_eq!(s.new_y + s.out_amount, 9);
}

#[test]
fn an_empty_deposit_pays_nothing() {
    let s = settle(500, 700, 0, Side::Y).unwrap();
    assert_eq!((s.new_x, s.new_y, s.out_amount), (500, 700, 0));
}

#[test]
fn a_negligible_output_is_not_rejected() {
    let s = settle(1_000_000, 1, 1, Side::X).unwrap();
    assert_eq!((s.new_x, s.new_y, s.out_amount), (1_000_001, 1, 0));
}

#[test]
fn an_empty_reserve_pays_nothing() {
    let s = settle(0, 700, 5, Side::X).unwrap();
    assert_eq!((s.new_x, s.new_y, s.out_amount), (5, 0, 700));
    let s = settle(40, 0, 5, Side::X).unwrap();
    assert_eq!((s.new_x, s.new_y, s.out_amount), (45, 0, 0));
}

#[test]
fn nothing_into_nothing_is_refused() {
    assert_eq!(settle(0, 700, 0, Side::X), Err(PoolError::ArithmeticOverflow));
    assert_eq!(settle(0, 0, 0, Side::Y), Err(PoolError::ArithmeticOverflow));
}

#[test]
fn a_reserve_beyond_64_bits_is_refused() {
    assert_eq!(settle(u64::MAX, 1, 1, Side::X), Err(PoolError::ArithmeticOverflow));
    assert_eq!(settle(1, u64::MAX - 1, 2, Side::Y), Err(PoolError::ArithmeticOverflow));
    assert!(settle(u64::MAX - 1, 1, 1, Side::X).is_ok());
}

#[test]
fn a_product_beyond_96_bits_is_refused() {
    let r = settle(1 << 48, 1 << 48, 1, Side::X);
    assert_eq!(r, Err(PoolError::ArithmeticOverflow));
    assert_eq!(settle(u64::MAX, u64::MAX, 0, Side::X), Err(PoolError::ArithmeticOverflow));
    // (2^48 - 1) * 2^48 is below 2^96 and divides exactly by 2^48
    let s = settle(1 << 48, (1 << 48) - 1, 0, Side::X).unwrap();
    assert_eq!((s.new_x, s.new_y, s.out_amount), (1 << 48, (1 << 48) - 1, 0));
}

#[test]
fn large_reserves_settle_exactly() {
    // 2^47 * 2^47 / 2^48 = 2^46
    let s = settle(1 << 47, 1 << 47, 1 << 47, Side::Y).unwrap();
    assert_eq!((s.new_x, s.new_y, s.out_amount), (1 << 46, 1 << 48, 1 << 46));
}

#[test]
fn rounded_quotient_must_be_the_nearest() {
    let r = settle_rounded(100 * ONE_X, 10_000 * ONE_Y, 100 * ONE_Y, Side::Y, 9_900_990_100);
    assert_eq!(r, Err(PoolError::ArithmeticOverflow));
    let r = settle_rounded(100 * ONE_X, 10_000 * ONE_Y, 100 * ONE_Y, Side::Y, 9_900_990_098);
    assert_eq!(r, Err(PoolError::ArithmeticOverflow));
    let r = settle_rounded(100 * ONE_X, 10_000 * ONE_Y, 100 * ONE_Y, Side::Y, 9_900_990_099);
    assert_eq!(
        r,
        Ok(Settlement {
            new_x: 9_900_990_099,
            new_y: 101_000_000,
            out_amount: 99_009_901,
            receiving: Side::Y,
            paying: Side::X,
        })
    );
}

#[test]
fn rounded_quotient_at_a_tie() {
    assert!(settle_rounded(1, 5, 1, Side::X, 2).is_err());
    let s = settle_rounded(1, 5, 1, Side::X, 3).unwrap();
    assert_eq!((s.new_x, s.new_y, s.out_amount), (2, 3, 2));
    assert!(settle_rounded(1, 5, 1, Side::X, u128::MAX).is_err());
    assert!(settle_rounded(1, 5, 1, Side::X, (1 << 64) + 3).is_err());
}

#[test]
fn rounded_quotient_outside_the_domain() {
    assert!(settle_rounded(0, 0, 0, Side::X, 0).is_err());
    assert!(settle_rounded(u64::MAX, 1, 1, Side::X, 0).is_err());
    assert!(settle_rounded(1 << 48, 1 << 48, 0, Side::X, 1 << 48).is_err());
}

#[test]
fn nearest_is_checked_by_multiplying() {
    assert!(is_nearest(3, 5, 2));
    assert!(!is_nearest(2, 5, 2));
    assert!(is_nearest(2, 7, 3));
    assert!(!is_nearest(3, 7, 3));
    assert!(is_nearest(0, 0, 9));
    assert!(is_nearest(0, 4, 9));
    assert!(is_nearest(1, 5, 9));
    assert!(is_nearest(u64::MAX, u64::MAX as u128, 1));
    assert!(!is_nearest(u64::MAX, 5, u64::MAX));
    // 2^32 + 1/2 goes up
    assert!(is_nearest((1u64 << 32) + 1, (1u128 << 95) + (1u128 << 62), 1u64 << 63));
    assert!(!is_nearest(1u64 << 32, (1u128 << 95) + (1u128 << 62), 1u64 << 63));
}

#[test]
fn product_never_grows_when_rounding_down() {
    // 10 * 10 / 14 leaves 2, less than half of 14
    let s = settle(10, 10, 4, Side::X).unwrap();
    assert!(s.new_x * s.new_y < 100);
    // an exact division keeps the product
    let s = settle(10, 10, 10, Side::X).unwrap();
    assert_eq!(s.new_x * s.new_y, 100);
    // rounding up lets it grow
    let s = settle(1, 3, 1, Side::X).unwrap();
    assert_eq!(s.new_x * s.new_y, 4);
}

#[test]
fn four_swaps_round_trip() {
    let (mut x, mut y) = (100 * ONE_X, 10_000 * ONE_Y);
    let alice = settle(x, y, 100 * ONE_Y, Side::Y).unwrap();
    (x, y) = (alice.new_x, alice.new_y);
    let bob = settle(x, y, 100 * ONE_Y, Side::Y).unwrap();
    (x, y) = (bob.new_x, bob.new_y);
    assert_eq!(bob.out_amount, 97_068_530);
    let alice_back = settle(x, y, alice.out_amount, Side::X).unwrap();
    (x, y) = (alice_back.new_x, alice_back.new_y);
    let bob_back = settle(x, y, bob.out_amount, Side::X).unwrap();
    (x, y) = (bob_back.new_x, bob_back.new_y);
    assert_eq!(alice_back.out_amount + bob_back.out_amount, 200 * ONE_Y);
    assert_eq!((x, y), (100 * ONE_X, 10_000 * ONE_Y));
}

#[test]
fn sides() {
    assert_eq!(Side::X.other(), Side::Y);
    assert_eq!(Side::Y.other(), Side::X);
}

#[test]
fn an_inexact_decimal_quotient_is_refused() {
    // The exact quotient is 4_999_999_999.49999999999999999996..., which the
    // decimal domain holds as 4_999_999_999.5 and would round up.
    let x: u64 = 14_999_999_998_499_999_999;
    let y: u64 = 5_000_000_000;
    let deposit: u64 = 1_500_000_000;
    assert_eq!(settle(x, y, deposit, Side::X), Err(PoolError::ArithmeticOverflow));
    let exact = settle_rounded(x, y, deposit, Side::X, 4_999_999_999).unwrap();
    assert_eq!(
        (exact.new_x, exact.new_y, exact.out_amount),
        (14_999_999_999_999_999_999, 4_999_999_999, 1)
    );
    assert!(settle_rounded(x, y, deposit, Side::X, 5_000_000_000).is_err());
}
