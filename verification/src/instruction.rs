//! What the protocol asks the ledger to do: token transfers and delegated calls to the router.

use vstd::prelude::*;
use crate::identity::Identity;
use crate::registry::AuthorityProof;

verus! {

/// One account of a delegated call, with what the callee may do to it.
#[derive(Clone, Copy, Debug, PartialEq, Eq, Hash)]
pub struct AccountMeta {
    /// The account's address.
    pub pubkey: Identity,
    /// Whether the call carries a signature for the account.
    pub is_signer: bool,
    /// Whether the callee may change the account.
    pub is_writable: bool,
}

impl AccountMeta {
    /// An account the callee may change.
    pub fn new(pubkey: Identity, is_signer: bool) -> (meta: AccountMeta)
        ensures
            meta == (AccountMeta { pubkey, is_signer, is_writable: true }),
    {
        AccountMeta { pubkey, is_signer, is_writable: true }
    }

    /// An account the callee may only read.
    pub fn new_readonly(pubkey: Identity, is_signer: bool) -> (meta: AccountMeta)
        ensures
            meta == (AccountMeta { pubkey, is_signer, is_writable: false }),
    {
        AccountMeta { pubkey, is_signer, is_writable: false }
    }
}

/// A call into another program.
#[derive(Debug, PartialEq, Eq, Hash)]
pub struct Instruction {
    /// The program called.
    pub program_id: Identity,
    /// The accounts handed to it, in order.
    pub accounts: Vec<AccountMeta>,
    /// The bytes handed to it.
    pub data: Vec<u8>,
}

/// An `Instruction` as a mathematical value.
pub struct InstructionView {
    pub program_id: Identity,
    pub accounts: Seq<AccountMeta>,
    pub data: Seq<u8>,
}

impl View for Instruction {
    type V = InstructionView;

    open spec fn view(&self) -> InstructionView {
        InstructionView { program_id: self.program_id, accounts: self.accounts@, data: self.data@ }
    }
}

/// A call to the router, signed by the protocol's own authority.
#[derive(Debug, PartialEq, Eq, Hash)]
pub struct DelegatedCall {
    /// The call.
    pub instruction: Instruction,
    /// The evidence with which the protocol signs it.
    pub signer: AuthorityProof,
}

/// A `DelegatedCall` as a mathematical value.
pub struct DelegatedCallView {
    pub instruction: InstructionView,
    pub signer: AuthorityProof,
}

impl View for DelegatedCall {
    type V = DelegatedCallView;

    open spec fn view(&self) -> DelegatedCallView {
        DelegatedCallView { instruction: self.instruction@, signer: self.signer }
    }
}

/// A movement of `amount` units from one token account to another.
#[derive(Clone, Copy, Debug, PartialEq, Eq, Hash)]
pub struct Transfer {
    /// The account debited.
    pub from: Identity,
    /// The account credited.
    pub to: Identity,
    /// Who orders the movement: the owner of `from`.
    pub authority: Identity,
    /// How many units move.
    pub amount: u64,
    /// The evidence with which the protocol signs, where `authority` is its own; `None`
    /// where the caller's signature on the whole call already covers the movement.
    pub signer: Option<AuthorityProof>,
}

} // verus!
