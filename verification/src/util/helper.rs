use crate::util::errors::Errors;
use vstd::prelude::*;

verus! {

/// The shares owed for a deposit of base assets into a pool that records
/// `total_assets` against `total_shares` outstanding shares.
///
/// An empty pool mints one share per unit. Otherwise the depositor receives
/// the share of the pool that the deposit is worth, rounded down. Shares
/// outstanding against no assets have no price, and a quotient beyond `u64`
/// is refused.
pub open spec fn shares_for(deposit_amount: u64, total_assets: u64, total_shares: u64) -> Result<
    u64,
    Errors,
> {
    if total_shares == 0 {
        Ok(deposit_amount)
    } else if total_assets == 0 {
        Err(Errors::DivideByZero)
    } else if deposit_amount * total_shares / (total_assets as int) > u64::MAX {
        Err(Errors::MathOverflow)
    } else {
        Ok((deposit_amount * total_shares / (total_assets as int)) as u64)
    }
}

/// The product of two `u64` values fits in 128 bits.
proof fn lemma_product_fits(x: u64, y: u64)
    ensures
        x * y <= u128::MAX,
{
    assert(x * y <= 0xffff_ffff_ffff_ffff * 0xffff_ffff_ffff_ffff) by (nonlinear_arith)
        requires
            0 <= x <= 0xffff_ffff_ffff_ffff,
            0 <= y <= 0xffff_ffff_ffff_ffff,
    ;
}

/// Division rounds down: the quotient is the largest whole number of
/// divisors that the dividend holds.
proof fn lemma_quotient_is_floor(dividend: int, divisor: int)
    by (nonlinear_arith)
    requires
        0 <= dividend,
        0 < divisor,
    ensures
        (dividend / divisor) * divisor <= dividend < (dividend / divisor + 1) * divisor,
{
}

/// Converts a deposit amount of the base asset into vault shares.
///
/// The base asset and the shares must have the same number of decimals; the
/// quotient is rounded down.
pub fn convert_to_shares(deposit_amount: u64, total_assets: u64, total_shares: u64) -> (shares:
    Result<u64, Errors>)
    ensures
        shares == shares_for(deposit_amount, total_assets, total_shares),
        // The first deposit mints one share per unit.
        total_shares == 0 ==> shares == Ok::<u64, Errors>(deposit_amount),
        // Shares outstanding against no assets have no price.
        total_shares > 0 && total_assets == 0 ==> shares == Err::<u64, Errors>(
            Errors::DivideByZero,
        ),
        // Otherwise the result is the quotient rounded down, never one that
        // wrapped around: a quotient beyond `u64` is refused.
        total_shares > 0 && total_assets > 0 ==> match shares {
            Ok(minted) => {
                &&& minted == deposit_amount * total_shares / (total_assets as int)
                &&& minted * total_assets <= deposit_amount * total_shares
                &&& deposit_amount * total_shares < (minted + 1) * total_assets
            },
            Err(refusal) => {
                &&& refusal == Errors::MathOverflow
                &&& deposit_amount * total_shares / (total_assets as int) > u64::MAX
            },
        },
{
    if total_shares == 0 {
        return Ok(deposit_amount);
    }
    if total_assets == 0 {
        return Err(Errors::DivideByZero);
    }
    proof {
        lemma_product_fits(deposit_amount, total_shares);
        lemma_quotient_is_floor(deposit_amount * total_shares, total_assets as int);
    }
    let product = match (deposit_amount as u128).checked_mul(total_shares as u128) {
        Some(product) => product,
        None => { return Err(Errors::MathOverflow); },
    };
    let quotient = match product.checked_div(total_assets as u128) {
        Some(quotient) => quotient,
        None => { return Err(Errors::MathOverflow); },
    };
    match u64::try_from(quotient) {
        Ok(shares) => Ok(shares),
        Err(_) => Err(Errors::MathOverflow),
    }
}

} // verus!
