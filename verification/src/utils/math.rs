//! Fixed-point arithmetic on amounts and basis-point shares.
use crate::constants::general::BPS;
use vstd::prelude::*;

verus! {

/// `amount * share_bps / 10000`, rounded down: the part of `amount` that a
/// share of `share_bps` basis points stands for.
pub open spec fn share_of(amount: int, share_bps: int) -> int {
    amount * share_bps / 10000
}

/// The value of a signed 64-bit number read as an unsigned one.
pub open spec fn unsigned_bits(value: i64) -> int {
    if value >= 0 {
        value as int
    } else {
        value + 0x1_0000_0000_0000_0000
    }
}

/// A share of at most one whole never exceeds the amount it is taken from,
/// and a larger share of the same amount is never smaller.
pub proof fn lemma_share_of_bounds(amount: int, share_bps: int)
    requires
        0 <= amount,
        0 <= share_bps,
    ensures
        0 <= share_of(amount, share_bps),
        share_bps <= 10000 ==> share_of(amount, share_bps) <= amount,
        share_bps == 10000 ==> share_of(amount, share_bps) == amount,
        share_bps == 0 || amount == 0 ==> share_of(amount, share_bps) == 0,
{
    assert(0 <= amount * share_bps) by (nonlinear_arith)
        requires
            0 <= amount,
            0 <= share_bps,
    ;
    if share_bps <= 10000 {
        assert(amount * share_bps <= amount * 10000) by (nonlinear_arith)
            requires
                0 <= amount,
                share_bps <= 10000,
        ;
    }
    if share_bps == 0 || amount == 0 {
        assert(amount * share_bps == 0) by (nonlinear_arith)
            requires
                share_bps == 0 || amount == 0,
        ;
    }
}

/// Rounding down each part never makes the parts add up to more than the
/// same share taken of the whole at once.
pub proof fn lemma_share_of_superadditive(amount: int, first_bps: int, second_bps: int)
    requires
        0 <= amount,
        0 <= first_bps,
        0 <= second_bps,
    ensures
        share_of(amount, first_bps) + share_of(amount, second_bps) <= share_of(
            amount,
            first_bps + second_bps,
        ),
{
    assert(amount * (first_bps + second_bps) == amount * first_bps + amount * second_bps)
        by (nonlinear_arith);
    assert(0 <= amount * first_bps) by (nonlinear_arith)
        requires
            0 <= amount,
            0 <= first_bps,
    ;
    assert(0 <= amount * second_bps) by (nonlinear_arith)
        requires
            0 <= amount,
            0 <= second_bps,
    ;
}

/// Whether `x` is strictly greater than `y`.
pub fn is_greater_than(x: &u64, y: &u64) -> (greater: bool)
    ensures
        greater == (*x > *y),
{
    if *x > *y {
        true
    } else {
        false
    }
}

/// `x * y / d`, rounded down. The product has to fit in 128 bits and the
/// divisor must not be zero.
pub fn mul_div_down(x: &u128, y: &u128, d: &u128) -> (quotient: u128)
    requires
        *x * *y <= u128::MAX,
        *d != 0,
    ensures
        quotient == (*x * *y) / (*d as int),
{
    let product: u128 = *x * *y;
    product / *d
}

/// The share of `share_bps` basis points of `amount`, rounded down, for an
/// amount as large as two pools together and any sum of shares. The result
/// leaves room in 128 bits for adding a few such shares up.
pub(crate) fn wide_share(amount: u128, share_bps: u32) -> (share: u128)
    requires
        amount <= 2 * u64::MAX,
    ensures
        share == share_of(amount as int, share_bps as int),
        share <= 0x2_0000_0000_0000_0000_0000_0000,
{
    proof {
        assert(amount * share_bps <= (2 * 0xffff_ffff_ffff_ffff) * 0xffff_ffff) by (nonlinear_arith)
            requires
                0 <= amount <= 2 * 0xffff_ffff_ffff_ffff,
                0 <= share_bps <= 0xffff_ffff,
        ;
    }
    mul_div_down(&amount, &(share_bps as u128), &(BPS as u128))
}

/// The share of `share_bps` basis points of `amount`, rounded down, or `None`
/// where it does not fit in 64 bits (which takes a share of more than one
/// whole).
pub fn checked_share(amount: u64, share_bps: u16) -> (share: Option<u64>)
    ensures
        share == (if share_of(amount as int, share_bps as int) <= u64::MAX {
            Some(share_of(amount as int, share_bps as int) as u64)
        } else {
            None
        }),
        share_bps <= 10000 ==> share is Some,
{
    proof {
        lemma_share_of_bounds(amount as int, share_bps as int);
    }
    let wide: u128 = wide_share(amount as u128, share_bps as u32);
    match u64::try_from(wide) {
        Ok(share) => Some(share),
        Err(_) => None,
    }
}

/// A signed 64-bit number read as an unsigned one, as a cast does: a
/// negative value becomes the value plus two to the power of 64.
pub fn as_unsigned(value: i64) -> (bits: u64)
    ensures
        bits == unsigned_bits(value),
{
    if value >= 0 {
        value as u64
    } else {
        let wide: i128 = value as i128 + 0x1_0000_0000_0000_0000i128;
        wide as u64
    }
}

} // verus!
