//! The registry: the singleton record of the two beneficiaries and of the tag from which
//! the protocol derives its own signing authority.

use vstd::prelude::*;
use crate::error::{InitializeError, SwapError};
use crate::identity::Identity;

verus! {

/// The fixed tag from which the registry's address is derived: the bytes of `swap`.
pub const REGISTRY_SEED: [u8; 4] = [0x73, 0x77, 0x61, 0x70];

/// The registry record. It is written once, by `initialize`, and only read afterwards.
#[derive(Clone, Copy, Debug, PartialEq, Eq, Hash)]
pub struct SwapAccount {
    /// The primary beneficiary, who receives the larger share of every commission.
    pub admin: Identity,
    /// The secondary beneficiary.
    pub referral: Identity,
    /// The tag that completes `REGISTRY_SEED` to the seeds of the registry's own address.
    pub bump: u8,
}

/// What an initialization call is made with, besides its two arguments.
#[derive(Clone, Copy, Debug, PartialEq, Eq, Hash)]
pub struct Initialize {
    /// The record held at the registry's address, if there is one.
    pub swap_account: Option<SwapAccount>,
    /// The identity that authorized the call as admin.
    pub admin: Identity,
    /// The identity that authorized the call as referral.
    pub referral: Identity,
    /// The tag found when the registry's address was derived.
    pub bump: u8,
}

/// The evidence that lets the protocol sign for the accounts it owns: the seeds of the
/// registry's address. It is rebuilt for every signed operation and never stored.
#[derive(Clone, Copy, Debug, PartialEq, Eq, Hash)]
pub struct AuthorityProof {
    pub seed: [u8; 4],
    pub bump: u8,
}

/// Whether an initialization call is accepted, and why not.
pub open spec fn initialize_result(ctx: Initialize, admin: Identity, referral: Identity) -> Result<
    (),
    InitializeError,
> {
    if ctx.swap_account is Some {
        Err(InitializeError::AlreadyInitialized)
    } else if admin != ctx.admin {
        Err(InitializeError::Protocol(SwapError::InvalidAdmin))
    } else if referral != ctx.referral {
        Err(InitializeError::Protocol(SwapError::InvalidReferral))
    } else {
        Ok(())
    }
}

/// The registry slot after an initialization call: filled by an accepted call, untouched by
/// a refused one.
pub open spec fn initialize_effect(ctx: Initialize, admin: Identity, referral: Identity) -> Option<
    SwapAccount,
> {
    if initialize_result(ctx, admin, referral) is Ok {
        Some(SwapAccount { admin, referral, bump: ctx.bump })
    } else {
        ctx.swap_account
    }
}

/// Creates the registry with the two beneficiaries, each of whom must have authorized the
/// call under the identity passed for it. One party may take both roles. Nothing but the
/// registry slot changes, and a refused call changes nothing.
pub fn initialize(ctx: &mut Initialize, admin: Identity, referral: Identity) -> (result: Result<
    (),
    InitializeError,
>)
    ensures
        result == initialize_result(*old(ctx), admin, referral),
        final(ctx).swap_account == initialize_effect(*old(ctx), admin, referral),
        final(ctx).admin == old(ctx).admin,
        final(ctx).referral == old(ctx).referral,
        final(ctx).bump == old(ctx).bump,
{
    if ctx.swap_account.is_some() {
        return Err(InitializeError::AlreadyInitialized);
    }
    if admin != ctx.admin {
        return Err(InitializeError::Protocol(SwapError::InvalidAdmin));
    }
    if referral != ctx.referral {
        return Err(InitializeError::Protocol(SwapError::InvalidReferral));
    }
    ctx.swap_account = Some(SwapAccount { admin, referral, bump: ctx.bump });
    Ok(())
}

/// Initialization succeeds at most once: against a slot that holds a registry, every call
/// fails with `AlreadyInitialized` and leaves the registry as it was, whoever authorized it
/// and whatever identities it names.
pub proof fn lemma_initialize_never_overwrites(ctx: Initialize, admin: Identity, referral: Identity)
    requires
        ctx.swap_account is Some,
    ensures
        initialize_result(ctx, admin, referral) == Err::<(), InitializeError>(
            InitializeError::AlreadyInitialized,
        ),
        initialize_effect(ctx, admin, referral) == ctx.swap_account,
{
}

/// After an accepted initialization, a second call against the same slot is refused and the
/// registry still holds what the first call wrote.
pub proof fn lemma_second_initialize_fails(
    ctx: Initialize,
    admin: Identity,
    referral: Identity,
    again: Initialize,
    admin_again: Identity,
    referral_again: Identity,
)
    requires
        initialize_result(ctx, admin, referral) is Ok,
        again.swap_account == initialize_effect(ctx, admin, referral),
    ensures
        initialize_result(again, admin_again, referral_again) == Err::<(), InitializeError>(
            InitializeError::AlreadyInitialized,
        ),
        initialize_effect(again, admin_again, referral_again) == Some(
            SwapAccount { admin, referral, bump: ctx.bump },
        ),
{
}

/// Rebuilds the protocol's signing evidence from the tag stored in the registry.
pub fn derive_authority(bump: u8) -> (proof: AuthorityProof)
    ensures
        proof.seed == REGISTRY_SEED,
        proof.bump == bump,
{
    AuthorityProof { seed: REGISTRY_SEED, bump }
}

} // verus!
