use vstd::prelude::*;

use crate::errors::SolFightError;

verus! {

/// How a match pot is split at claim time: the whole pot, the platform fee
/// carved out of it, and the remainder owed to the winner.
#[derive(Clone, Copy, Debug, PartialEq, Eq, Structural)]
pub struct PayoutBreakdown {
    /// Both players' stakes together.
    pub total_pot: u64,
    /// Platform fee, rounded down.
    pub fee: u64,
    /// What the winner receives: the pot minus the fee.
    pub payout: u64,
}

/// The pot of a match: both players' equal stakes.
pub open spec fn spec_total_pot(bet_amount: u64) -> int {
    2 * bet_amount
}

/// The platform fee on a pot: `fee_bps` basis points of it, rounded down.
pub open spec fn spec_fee(bet_amount: u64, fee_bps: u16) -> int {
    2 * bet_amount * fee_bps / 10000
}

/// What the winner receives: the pot minus the fee.
pub open spec fn spec_payout(bet_amount: u64, fee_bps: u16) -> int {
    spec_total_pot(bet_amount) - spec_fee(bet_amount, fee_bps)
}

/// When the pot arithmetic stays within the ledger's 64-bit amounts: the
/// pot itself fits, the fee multiplication fits, and the fee does not
/// exceed the pot (it never does while the fee is at most 10000 basis
/// points).
pub open spec fn payout_computable(bet_amount: u64, fee_bps: u16) -> bool {
    &&& spec_total_pot(bet_amount) <= u64::MAX
    &&& spec_total_pot(bet_amount) * fee_bps <= u64::MAX
    &&& spec_fee(bet_amount, fee_bps) <= spec_total_pot(bet_amount)
}

/// Splits the pot of a match with stake `bet_amount` under a fee of
/// `fee_bps` basis points.  Succeeds exactly when the arithmetic fits in
/// 64-bit ledger amounts; any overflow is reported, never truncated.
pub fn compute_payout(bet_amount: u64, fee_bps: u16) -> (r: Result<
    PayoutBreakdown,
    SolFightError,
>)
    ensures
        r is Ok <==> payout_computable(bet_amount, fee_bps),
        r matches Ok(b) ==> {
            &&& b.total_pot == spec_total_pot(bet_amount)
            &&& b.fee == spec_fee(bet_amount, fee_bps)
            &&& b.payout == spec_payout(bet_amount, fee_bps)
        },
        r matches Err(e) ==> e == SolFightError::MathOverflow,
{
    let total_pot: u64 = match bet_amount.checked_mul(2) {
        Some(p) => p,
        None => {
            return Err(SolFightError::MathOverflow);
        },
    };
    let scaled: u64 = match total_pot.checked_mul(fee_bps as u64) {
        Some(s) => s,
        None => {
            return Err(SolFightError::MathOverflow);
        },
    };
    let fee: u64 = scaled / 10000;
    let payout: u64 = match total_pot.checked_sub(fee) {
        Some(p) => p,
        None => {
            return Err(SolFightError::MathOverflow);
        },
    };
    Ok(PayoutBreakdown { total_pot, fee, payout })
}

/// The pot is conserved: fee and payout always recombine to exactly twice
/// the stake, and the fee is exactly the stated floor.  Under the platform
/// invariant `fee_bps <= 2500` the computation succeeds whenever the fee
/// multiplication fits, so the split is total on every realistic stake.
pub proof fn lemma_payout_conservation(bet_amount: u64, fee_bps: u16)
    requires
        spec_total_pot(bet_amount) <= u64::MAX,
        spec_total_pot(bet_amount) * fee_bps <= u64::MAX,
        fee_bps <= 10000,
    ensures
        payout_computable(bet_amount, fee_bps),
        spec_payout(bet_amount, fee_bps) + spec_fee(bet_amount, fee_bps) == 2 * bet_amount,
        spec_fee(bet_amount, fee_bps) == 2 * bet_amount * fee_bps / 10000,
{
    let pot = spec_total_pot(bet_amount);
    assert(pot * fee_bps / 10000 <= pot * 10000 / 10000) by {
        assert(pot * fee_bps <= pot * 10000) by (nonlinear_arith)
            requires
                fee_bps <= 10000,
                pot >= 0,
        ;
        vstd::arithmetic::div_mod::lemma_div_is_ordered(pot * fee_bps, pot * 10000, 10000);
    }
    assert(pot * 10000 / 10000 == pot) by (nonlinear_arith);
}

/// The fee is zero exactly when the scaled pot is too small for one whole
/// unit: either the fee rate is zero or `2 * stake * fee_bps` falls short
/// of one whole basis-point denominator.
pub proof fn lemma_fee_zero(bet_amount: u64, fee_bps: u16)
    ensures
        spec_fee(bet_amount, fee_bps) == 0 <==> 2 * bet_amount * fee_bps < 10000,
{
    let scaled = 2 * bet_amount * fee_bps;
    vstd::arithmetic::mul::lemma_mul_nonnegative(2 * bet_amount, fee_bps as int);
    if scaled < 10000 {
        assert(scaled / 10000 == 0) by {
            vstd::arithmetic::div_mod::lemma_basic_div(scaled, 10000);
        }
    } else {
        assert(scaled / 10000 >= 1) by {
            vstd::arithmetic::div_mod::lemma_div_is_ordered(10000, scaled, 10000);
            assert(10000int / 10000 == 1);
        }
    }
}

} // verus!
