//! Fixed-point commission arithmetic: the one-percent commission on the input
//! and the 40/60 split of its settled proceeds.

use vstd::prelude::*;
use crate::error::SwapError;

verus! {

/// The commission is `COMMISSION_NUMERATOR / COMMISSION_DENOMINATOR` of the input amount.
pub const COMMISSION_NUMERATOR: u128 = 1;

pub const COMMISSION_DENOMINATOR: u128 = 100;

/// The referral receives `REFERRAL_NUMERATOR / REFERRAL_DENOMINATOR` of the settled commission.
pub const REFERRAL_NUMERATOR: u128 = 4;

pub const REFERRAL_DENOMINATOR: u128 = 10;

/// The commission withheld from `input_amount`: one hundredth, rounded down.
pub open spec fn commission_of(input_amount: nat) -> nat {
    input_amount * 1 / 100
}

/// What is left of `input_amount` for the caller's own conversion.
pub open spec fn net_of(input_amount: nat) -> nat {
    (input_amount - commission_of(input_amount)) as nat
}

/// The referral's share of a settlement balance: four tenths, rounded down.
pub open spec fn referral_share_of(balance: nat) -> nat {
    balance * 4 / 10
}

/// The admin's share of a settlement balance: everything the referral does not get.
pub open spec fn admin_share_of(balance: nat) -> nat {
    (balance - referral_share_of(balance)) as nat
}

/// The commission is the floor of a hundredth of the input, never more than the input, and
/// together with the net amount it gives back the input exactly.
pub proof fn lemma_commission_split(input_amount: nat)
    ensures
        commission_of(input_amount) == input_amount / 100,
        100 * commission_of(input_amount) <= input_amount < 100 * (commission_of(input_amount) + 1),
        commission_of(input_amount) <= input_amount,
        commission_of(input_amount) + net_of(input_amount) == input_amount,
{
}

/// The referral's share is the floor of four tenths of the balance, never more than the
/// balance, and together with the admin's share it gives back the balance exactly.
pub proof fn lemma_shares_split(balance: nat)
    ensures
        10 * referral_share_of(balance) <= 4 * balance < 10 * (referral_share_of(balance) + 1),
        referral_share_of(balance) <= balance,
        referral_share_of(balance) + admin_share_of(balance) == balance,
{
}

/// How an input amount divides between the commission leg and the caller's leg.
#[derive(Clone, Copy, Debug, PartialEq, Eq, Hash, Structural)]
pub struct CommissionSplit {
    /// Units of the source asset routed to the commission conversion.
    pub commission: u64,
    /// Units of the source asset routed to the caller's conversion.
    pub net_amount: u64,
}

/// How a settlement balance divides between the two beneficiaries.
#[derive(Clone, Copy, Debug, PartialEq, Eq, Hash, Structural)]
pub struct Shares {
    /// Units of the settlement asset owed to the referral.
    pub referral_share: u64,
    /// Units of the settlement asset owed to the admin.
    pub admin_share: u64,
}

/// Splits `input_amount` into the commission and the net amount. The product is formed in
/// 128 bits and every step is checked; for a 64-bit input no step can fail, so the result
/// is always `Ok`.
pub fn compute_commission(input_amount: u64) -> (split: Result<CommissionSplit, SwapError>)
    ensures
        split == Ok::<CommissionSplit, SwapError>(
            CommissionSplit {
                commission: commission_of(input_amount as nat) as u64,
                net_amount: net_of(input_amount as nat) as u64,
            },
        ),
        split.unwrap().commission == input_amount / 100,
        split.unwrap().commission + split.unwrap().net_amount == input_amount,
{
    let product = match (input_amount as u128).checked_mul(COMMISSION_NUMERATOR) {
        Some(product) => product,
        None => { return Err(SwapError::CommissionOverflow); },
    };
    let wide = match product.checked_div(COMMISSION_DENOMINATOR) {
        Some(quotient) => quotient,
        None => { return Err(SwapError::CommissionOverflow); },
    };
    if wide > u64::MAX as u128 {
        return Err(SwapError::CommissionOverflow);
    }
    let commission = wide as u64;
    match input_amount.checked_sub(commission) {
        Some(net_amount) => Ok(CommissionSplit { commission, net_amount }),
        None => Err(SwapError::CommissionOverflow),
    }
}

/// Splits a settlement balance between the referral and the admin. The product is formed in
/// 128 bits and every step is checked; for a 64-bit balance no step can fail, so the result
/// is always `Ok`.
pub fn compute_shares(balance: u64) -> (shares: Result<Shares, SwapError>)
    ensures
        shares == Ok::<Shares, SwapError>(
            Shares {
                referral_share: referral_share_of(balance as nat) as u64,
                admin_share: admin_share_of(balance as nat) as u64,
            },
        ),
        shares.unwrap().referral_share == balance * 4 / 10,
        shares.unwrap().referral_share + shares.unwrap().admin_share == balance,
{
    let product = match (balance as u128).checked_mul(REFERRAL_NUMERATOR) {
        Some(product) => product,
        None => { return Err(SwapError::CommissionOverflow); },
    };
    let wide = match product.checked_div(REFERRAL_DENOMINATOR) {
        Some(quotient) => quotient,
        None => { return Err(SwapError::CommissionOverflow); },
    };
    if wide > u64::MAX as u128 {
        return Err(SwapError::CommissionOverflow);
    }
    let referral_share = wide as u64;
    match balance.checked_sub(referral_share) {
        Some(admin_share) => Ok(Shares { referral_share, admin_share }),
        None => Err(SwapError::CommissionOverflow),
    }
}

} // verus!
