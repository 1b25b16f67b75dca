//! The accounts a swap call is made with, as plain values.

use vstd::prelude::*;
use crate::identity::Identity;
use crate::registry::SwapAccount;

verus! {

/// A balance of one asset, held for one owner.
#[derive(Clone, Copy, Debug, PartialEq, Eq, Hash)]
pub struct TokenAccount {
    /// The account's own address.
    pub key: Identity,
    /// The asset the balance is denominated in.
    pub mint: Identity,
    /// Who may move the balance.
    pub owner: Identity,
    /// The balance.
    pub amount: u64,
}

impl TokenAccount {
    /// Whether the account holds `mint` for `owner`.
    pub open spec fn bound_to(self, mint: Identity, owner: Identity) -> bool {
        self.mint == mint && self.owner == owner
    }

    /// Whether the account holds `mint` for `owner`.
    pub fn is_bound_to(&self, mint: &Identity, owner: &Identity) -> (bound: bool)
        ensures
            bound == self.bound_to(*mint, *owner),
    {
        self.mint == *mint && self.owner == *owner
    }
}

/// Everything a swap call reads: the registry, the caller, and the holding accounts. The
/// ledger has checked that each address is what its field says; whether the token accounts
/// are bound to the right asset and owner is checked by the protocol.
#[derive(Clone, Copy, Debug, PartialEq, Eq, Hash)]
pub struct SwapTokens {
    /// The registry.
    pub swap_account: SwapAccount,
    /// The registry's address, which is also the authority over the protocol's own accounts.
    pub swap_account_key: Identity,
    /// The caller.
    pub user: Identity,
    /// The source asset.
    pub input_token_mint: Identity,
    /// The caller's source-asset account.
    pub user_token_account: TokenAccount,
    /// The protocol's holding account for the source asset on its way to the caller's conversion.
    pub swap_token_account: TokenAccount,
    /// The protocol's holding account for the source asset on its way to the commission conversion.
    pub commission_token_account: TokenAccount,
    /// The protocol's settlement account, which the commission conversion credits.
    pub commission_usdc_account: TokenAccount,
    /// The referral's settlement-asset account.
    pub referral_usdc_account: TokenAccount,
    /// The admin's settlement-asset account.
    pub admin_usdc_account: TokenAccount,
    /// The asset presented as the settlement asset.
    pub usdc_mint: Identity,
    /// The token program.
    pub token_program: Identity,
    /// The associated-token program.
    pub associated_token_program: Identity,
    /// The system program.
    pub system_program: Identity,
    /// The program presented as the router.
    pub jupiter_program: Identity,
    /// The route account handed to the router.
    pub jupiter_route: Identity,
    /// The caller's destination account, which the caller's conversion credits.
    pub user_sol_account: Identity,
}

impl SwapTokens {
    /// Every token account holds the asset it is used for, for the party it is used for.
    pub open spec fn bindings_hold(self) -> bool {
        &&& self.user_token_account.bound_to(self.input_token_mint, self.user)
        &&& self.swap_token_account.bound_to(self.input_token_mint, self.swap_account_key)
        &&& self.commission_token_account.bound_to(self.input_token_mint, self.swap_account_key)
        &&& self.commission_usdc_account.bound_to(self.usdc_mint, self.swap_account_key)
        &&& self.referral_usdc_account.bound_to(self.usdc_mint, self.swap_account.referral)
        &&& self.admin_usdc_account.bound_to(self.usdc_mint, self.swap_account.admin)
    }

    /// Checks the bindings of all six token accounts.
    pub fn check_bindings(&self) -> (hold: bool)
        ensures
            hold == self.bindings_hold(),
    {
        self.user_token_account.is_bound_to(&self.input_token_mint, &self.user)
            && self.swap_token_account.is_bound_to(&self.input_token_mint, &self.swap_account_key)
            && self.commission_token_account.is_bound_to(
            &self.input_token_mint,
            &self.swap_account_key,
        ) && self.commission_usdc_account.is_bound_to(&self.usdc_mint, &self.swap_account_key)
            && self.referral_usdc_account.is_bound_to(&self.usdc_mint, &self.swap_account.referral)
            && self.admin_usdc_account.is_bound_to(&self.usdc_mint, &self.swap_account.admin)
    }
}

} // verus!
