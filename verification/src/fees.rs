//! The fee split at settlement.

use vstd::prelude::*;
use crate::state::MAX_FEE_BPS;

verus! {

/// The fee on `amount` at `fee_bps` basis points, rounded down.
pub open spec fn fee_of(amount: u128, fee_bps: u64) -> int {
    (amount * fee_bps) / (MAX_FEE_BPS as int)
}

/// What is left for the seller once the fee is taken.
pub open spec fn seller_share(amount: u128, fee_bps: u64) -> int {
    amount - fee_of(amount, fee_bps)
}

/// Calls `cosmwasm_std::Uint128::multiply_ratio`, which computes
/// `amount * numerator / denominator` over 256 bits, rounds down and panics
/// when the denominator is zero or the quotient exceeds 128 bits. The contract
/// leaves both cases out and states the quotient.
#[verifier::external_body]
fn multiply_ratio(amount: u128, numerator: u128, denominator: u128) -> (r: u128)
    requires
        denominator != 0,
        (amount * numerator) / (denominator as int) <= u128::MAX,
    ensures
        r == (amount * numerator) / (denominator as int),
{
    cosmwasm_std::Uint128::new(amount).multiply_ratio(numerator, denominator).u128()
}

/// A fee at no more than 100 % never exceeds the amount it is taken from.
pub proof fn lemma_fee_bounded(amount: u128, fee_bps: u64)
    requires
        fee_bps <= MAX_FEE_BPS,
    ensures
        0 <= fee_of(amount, fee_bps) <= amount,
{
    let a = amount as int;
    let b = fee_bps as int;
    assert(0 <= a * b <= a * 10000) by (nonlinear_arith)
        requires
            0 <= a,
            0 <= b <= 10000,
    ;
    assert((a * b) / 10000 <= a) by (nonlinear_arith)
        requires
            0 <= a * b <= a * 10000,
    ;
    assert(0 <= (a * b) / 10000) by (nonlinear_arith)
        requires
            0 <= a * b,
    ;
}

/// Splits a winning bid into the fee and the seller's share. Nothing is lost:
/// the two parts add up to `amount`.
pub fn split_payout(amount: u128, fee_bps: u64) -> (r: (u128, u128))
    requires
        fee_bps <= MAX_FEE_BPS,
    ensures
        r.0 == fee_of(amount, fee_bps),
        r.1 == seller_share(amount, fee_bps),
        r.0 + r.1 == amount,
{
    proof {
        lemma_fee_bounded(amount, fee_bps);
    }
    let fee = multiply_ratio(amount, fee_bps as u128, MAX_FEE_BPS as u128);
    let seller_amount = amount - fee;
    (fee, seller_amount)
}

} // verus!
