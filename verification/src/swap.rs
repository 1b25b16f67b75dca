//! The swap orchestrator.
//!
//! A swap is one indivisible unit of work on the ledger. The orchestrator decides; the
//! ledger acts. `swap_tokens` validates a request and, if it stands, returns the first of
//! six states:
//!
//! `Validated → NetTransferred → UserConverted → SlippageChecked → CommissionConverted → Distributed`
//!
//! Each state names what the ledger has to do next and, told how that went, yields the next
//! state or the error that aborts the call. A state is consumed by its transition, so the
//! steps can only be taken once and in this order. The orchestrator never compensates: on any
//! error the caller hands the error to the ledger, which undoes whatever the call did.

use vstd::prelude::*;
use crate::accounts::SwapTokens;
use crate::commission::{
    admin_share_of,
    commission_of,
    compute_commission,
    compute_shares,
    net_of,
    referral_share_of,
    CommissionSplit,
};
use crate::error::SwapError;
use crate::identity::{settlement_asset, trusted_router, Identity, JUPITER_PROGRAM_ID};
use crate::instruction::{
    AccountMeta,
    DelegatedCall,
    DelegatedCallView,
    Instruction,
    InstructionView,
    Transfer,
};
use crate::registry::{derive_authority, AuthorityProof, REGISTRY_SEED};

verus! {

/// One swap call: what is to be exchanged, and the accounts it is exchanged through.
#[derive(Debug, PartialEq, Eq, Hash)]
pub struct SwapRequest {
    /// The accounts of the call.
    pub accounts: SwapTokens,
    /// Units of the source asset to exchange, commission included.
    pub input_amount: u64,
    /// The least the caller's destination account may hold after the caller's conversion.
    pub min_output_amount: u64,
    /// Bytes for the router, forwarded as they are.
    pub route_payload: Vec<u8>,
}

/// A `SwapRequest` as a mathematical value.
pub struct SwapRequestView {
    pub accounts: SwapTokens,
    pub input_amount: u64,
    pub min_output_amount: u64,
    pub route_payload: Seq<u8>,
}

impl View for SwapRequest {
    type V = SwapRequestView;

    open spec fn view(&self) -> SwapRequestView {
        SwapRequestView {
            accounts: self.accounts,
            input_amount: self.input_amount,
            min_output_amount: self.min_output_amount,
            route_payload: self.route_payload@,
        }
    }
}

impl SwapRequestView {
    /// The request passes validation.
    pub open spec fn is_valid(self) -> bool {
        validation_result(self.accounts, self.input_amount, self.min_output_amount) is Ok
    }
}

/// Whether a request is accepted, and the error it is rejected with. The checks are made in
/// this order and the first that fails decides.
pub open spec fn validation_result(
    accounts: SwapTokens,
    input_amount: u64,
    min_output_amount: u64,
) -> Result<(), SwapError> {
    if input_amount == 0 {
        Err(SwapError::InvalidAmount)
    } else if min_output_amount == 0 {
        Err(SwapError::InvalidMinOutAmount)
    } else if !accounts.jupiter_program.is_trusted_router() {
        Err(SwapError::InvalidJupiterRoute)
    } else if !accounts.usdc_mint.is_settlement_asset() {
        Err(SwapError::InvalidJupiterRoute)
    } else if !accounts.bindings_hold() {
        Err(SwapError::InvalidTokenAccount)
    } else if accounts.user_token_account.amount < input_amount {
        Err(SwapError::InsufficientBalance)
    } else {
        Ok(())
    }
}

/// Validates a request. It only reads; nothing has moved when it returns.
pub fn validate(accounts: &SwapTokens, input_amount: u64, min_output_amount: u64) -> (result:
    Result<(), SwapError>)
    ensures
        result == validation_result(*accounts, input_amount, min_output_amount),
{
    if input_amount == 0 {
        return Err(SwapError::InvalidAmount);
    }
    if min_output_amount == 0 {
        return Err(SwapError::InvalidMinOutAmount);
    }
    if accounts.jupiter_program != trusted_router() {
        return Err(SwapError::InvalidJupiterRoute);
    }
    if accounts.usdc_mint != settlement_asset() {
        return Err(SwapError::InvalidJupiterRoute);
    }
    if !accounts.check_bindings() {
        return Err(SwapError::InvalidTokenAccount);
    }
    if accounts.user_token_account.amount < input_amount {
        return Err(SwapError::InsufficientBalance);
    }
    Ok(())
}

/// How the ledger reports on what a state asked of it.
#[derive(Clone, Copy, Debug, PartialEq, Eq, Hash, Structural)]
pub enum Outcome {
    /// Everything asked for was carried out.
    Completed,
    /// The ledger refused a transfer.
    TransferRefused,
    /// The router failed.
    RouterFailed,
}

/// The error a reported outcome aborts the call with, if it is a failure.
pub open spec fn outcome_result(outcome: Outcome) -> Result<(), SwapError> {
    match outcome {
        Outcome::Completed => Ok(()),
        Outcome::TransferRefused => Err(SwapError::InvalidTokenAccount),
        Outcome::RouterFailed => Err(SwapError::JupiterSwapFailed),
    }
}

impl Outcome {
    /// Maps a reported failure to the error that aborts the call.
    pub fn into_result(self) -> (result: Result<(), SwapError>)
        ensures
            result == outcome_result(self),
    {
        match self {
            Outcome::Completed => Ok(()),
            Outcome::TransferRefused => Err(SwapError::InvalidTokenAccount),
            Outcome::RouterFailed => Err(SwapError::JupiterSwapFailed),
        }
    }
}

/// Whether the caller's destination balance, read after the router returned, meets the floor.
pub open spec fn slippage_result(min_output_amount: u64, destination_balance: u64) -> Result<
    (),
    SwapError,
> {
    if destination_balance >= min_output_amount {
        Ok(())
    } else {
        Err(SwapError::SlippageExceeded)
    }
}

/// The signing evidence for the accounts the registry of `accounts` owns.
pub open spec fn authority_of(accounts: SwapTokens) -> AuthorityProof {
    AuthorityProof { seed: REGISTRY_SEED, bump: accounts.swap_account.bump }
}

/// The call that has the router convert what `source` holds and credit `destination`: the two
/// accounts, the protocol's authority as signer, the token and system programs, the router
/// and the route account, with the payload as data.
pub open spec fn router_call_of(
    source: Identity,
    destination: Identity,
    accounts: SwapTokens,
    payload: Seq<u8>,
) -> DelegatedCallView {
    DelegatedCallView {
        instruction: InstructionView {
            program_id: Identity { bytes: JUPITER_PROGRAM_ID },
            accounts: seq![
                AccountMeta { pubkey: source, is_signer: false, is_writable: true },
                AccountMeta { pubkey: destination, is_signer: false, is_writable: true },
                AccountMeta { pubkey: accounts.swap_account_key, is_signer: true, is_writable: true },
                AccountMeta { pubkey: accounts.token_program, is_signer: false, is_writable: true },
                AccountMeta { pubkey: accounts.system_program, is_signer: false, is_writable: true },
                AccountMeta {
                    pubkey: Identity { bytes: JUPITER_PROGRAM_ID },
                    is_signer: false,
                    is_writable: false,
                },
                AccountMeta { pubkey: accounts.jupiter_route, is_signer: false, is_writable: false },
            ],
            data: payload,
        },
        signer: authority_of(accounts),
    }
}

/// The transfer that moves the net amount from the caller into the protocol's holding account.
pub open spec fn net_transfer_of(request: SwapRequestView) -> Transfer {
    Transfer {
        from: request.accounts.user_token_account.key,
        to: request.accounts.swap_token_account.key,
        authority: request.accounts.user,
        amount: net_of(request.input_amount as nat) as u64,
        signer: None,
    }
}

/// The call that converts the net amount for the caller.
pub open spec fn user_leg_of(request: SwapRequestView) -> DelegatedCallView {
    router_call_of(
        request.accounts.swap_token_account.key,
        request.accounts.user_sol_account,
        request.accounts,
        request.route_payload,
    )
}

/// The transfer that moves the commission from the caller into the protocol's holding account.
pub open spec fn commission_funding_of(request: SwapRequestView) -> Transfer {
    Transfer {
        from: request.accounts.user_token_account.key,
        to: request.accounts.commission_token_account.key,
        authority: request.accounts.user,
        amount: commission_of(request.input_amount as nat) as u64,
        signer: None,
    }
}

/// The call that converts the commission into the settlement asset.
pub open spec fn commission_call_of(request: SwapRequestView) -> DelegatedCallView {
    router_call_of(
        request.accounts.commission_token_account.key,
        request.accounts.commission_usdc_account.key,
        request.accounts,
        request.route_payload,
    )
}

/// The transfer that pays the referral its share of a settlement balance.
pub open spec fn referral_transfer_of(request: SwapRequestView, settlement_balance: u64) -> Transfer {
    Transfer {
        from: request.accounts.commission_usdc_account.key,
        to: request.accounts.referral_usdc_account.key,
        authority: request.accounts.swap_account_key,
        amount: referral_share_of(settlement_balance as nat) as u64,
        signer: Some(authority_of(request.accounts)),
    }
}

/// The transfer that pays the admin its share of a settlement balance.
pub open spec fn admin_transfer_of(request: SwapRequestView, settlement_balance: u64) -> Transfer {
    Transfer {
        from: request.accounts.commission_usdc_account.key,
        to: request.accounts.admin_usdc_account.key,
        authority: request.accounts.swap_account_key,
        amount: admin_share_of(settlement_balance as nat) as u64,
        signer: Some(authority_of(request.accounts)),
    }
}

/// What the commission leg asks of the ledger: fund the holding account, then call the router.
#[derive(Debug, PartialEq, Eq, Hash)]
pub struct CommissionLeg {
    /// Moves the commission from the caller into the protocol's holding account.
    pub funding: Transfer,
    /// Converts it into the settlement asset.
    pub call: DelegatedCall,
}

/// What the distribution asks of the ledger: the two transfers that empty the settlement
/// account into the beneficiaries' accounts.
#[derive(Clone, Copy, Debug, PartialEq, Eq, Hash)]
pub struct Distribution {
    /// Pays the referral.
    pub referral: Transfer,
    /// Pays the admin.
    pub admin: Transfer,
}

/// A request with positive amounts is rejected with `InvalidJupiterRoute` whenever the router
/// or the settlement asset it presents is not the trusted one, whatever else is wrong with it.
pub proof fn lemma_untrusted_route_is_rejected(
    accounts: SwapTokens,
    input_amount: u64,
    min_output_amount: u64,
)
    requires
        input_amount > 0,
        min_output_amount > 0,
        !accounts.jupiter_program.is_trusted_router() || !accounts.usdc_mint.is_settlement_asset(),
    ensures
        validation_result(accounts, input_amount, min_output_amount) == Err::<(), SwapError>(
            SwapError::InvalidJupiterRoute,
        ),
{
}

/// A request is accepted exactly when its amounts are positive, its router and settlement
/// asset are the trusted ones, its token accounts are bound as they must be, and the
/// caller's balance covers the input amount.
pub proof fn lemma_validation_accepts(
    accounts: SwapTokens,
    input_amount: u64,
    min_output_amount: u64,
)
    ensures
        validation_result(accounts, input_amount, min_output_amount) is Ok <==> {
            &&& input_amount > 0
            &&& min_output_amount > 0
            &&& accounts.jupiter_program.is_trusted_router()
            &&& accounts.usdc_mint.is_settlement_asset()
            &&& accounts.bindings_hold()
            &&& accounts.user_token_account.amount >= input_amount
        },
{
}

/// What validation buys. For a valid request, each transfer the protocol asks for is ordered
/// by the owner of the account it debits and moves an asset between two accounts of that
/// asset; the caller's balance covers both debits of the caller's account; and the two
/// payments go to accounts of the beneficiaries named in the registry.
pub proof fn lemma_valid_request_transfers(request: SwapRequestView, settlement_balance: u64)
    requires
        request.is_valid(),
    ensures
        net_transfer_of(request).from == request.accounts.user_token_account.key,
        net_transfer_of(request).to == request.accounts.swap_token_account.key,
        net_transfer_of(request).authority == request.accounts.user_token_account.owner,
        request.accounts.user_token_account.mint == request.accounts.swap_token_account.mint,
        commission_funding_of(request).from == request.accounts.user_token_account.key,
        commission_funding_of(request).to == request.accounts.commission_token_account.key,
        commission_funding_of(request).authority == request.accounts.user_token_account.owner,
        request.accounts.user_token_account.mint == request.accounts.commission_token_account.mint,
        net_transfer_of(request).amount + commission_funding_of(request).amount
            <= request.accounts.user_token_account.amount,
        referral_transfer_of(request, settlement_balance).from
            == request.accounts.commission_usdc_account.key,
        referral_transfer_of(request, settlement_balance).to
            == request.accounts.referral_usdc_account.key,
        referral_transfer_of(request, settlement_balance).authority
            == request.accounts.commission_usdc_account.owner,
        request.accounts.referral_usdc_account.owner == request.accounts.swap_account.referral,
        request.accounts.commission_usdc_account.mint == request.accounts.referral_usdc_account.mint,
        admin_transfer_of(request, settlement_balance).from
            == request.accounts.commission_usdc_account.key,
        admin_transfer_of(request, settlement_balance).to == request.accounts.admin_usdc_account.key,
        admin_transfer_of(request, settlement_balance).authority
            == request.accounts.commission_usdc_account.owner,
        request.accounts.admin_usdc_account.owner == request.accounts.swap_account.admin,
        request.accounts.commission_usdc_account.mint == request.accounts.admin_usdc_account.mint,
        request.accounts.commission_usdc_account.mint.is_settlement_asset(),
{
}

/// A failure that the ledger reports is never swallowed: every transition that is told of
/// one returns an error and no next state, so nothing further is asked of the ledger. A
/// router failure becomes `JupiterSwapFailed`, a refused transfer `InvalidTokenAccount`.
pub proof fn lemma_failure_aborts(outcome: Outcome)
    ensures
        outcome != Outcome::Completed <==> outcome_result(outcome) is Err,
        outcome == Outcome::RouterFailed ==> outcome_result(outcome) == Err::<(), SwapError>(
            SwapError::JupiterSwapFailed,
        ),
        outcome == Outcome::TransferRefused ==> outcome_result(outcome) == Err::<(), SwapError>(
            SwapError::InvalidTokenAccount,
        ),
{
}

/// A conversion that leaves the caller's destination balance under the floor fails the call
/// with `SlippageExceeded`. The balance read is what the account held before plus what the
/// router credited, so an output under the floor fails the call whenever the account held
/// nothing before, and whenever what it held does not make up the difference.
pub proof fn lemma_output_below_floor_fails(
    min_output_amount: u64,
    held_before: u64,
    realized_output: u64,
)
    requires
        held_before + realized_output < min_output_amount,
    ensures
        realized_output < min_output_amount,
        slippage_result(min_output_amount, (held_before + realized_output) as u64) == Err::<
            (),
            SwapError,
        >(SwapError::SlippageExceeded),
{
}

/// The two legs take the input amount apart exactly. The caller is debited the net amount
/// for the caller's conversion and the commission for the commission conversion; the
/// commission is the floor of a hundredth of the input amount, and the two add up to it.
pub proof fn lemma_legs_conserve_input(request: SwapRequestView)
    ensures
        commission_funding_of(request).amount == request.input_amount / 100,
        net_transfer_of(request).amount + commission_funding_of(request).amount
            == request.input_amount,
        net_transfer_of(request).from == commission_funding_of(request).from,
{
}

/// The distribution empties the settlement balance it is given. The referral is paid the
/// floor of four tenths of it, the admin the rest, and the two payments add up to it.
pub proof fn lemma_distribution_pays_out_balance(request: SwapRequestView, settlement_balance: u64)
    ensures
        referral_transfer_of(request, settlement_balance).amount == settlement_balance * 4 / 10,
        referral_transfer_of(request, settlement_balance).amount + admin_transfer_of(
            request,
            settlement_balance,
        ).amount == settlement_balance,
        referral_transfer_of(request, settlement_balance).from == admin_transfer_of(
            request,
            settlement_balance,
        ).from,
{
}

/// What every state of a swap holds: the request passed validation, and the split is the
/// split of its input amount.
spec fn consistent(request: SwapRequest, split: CommissionSplit) -> bool {
    &&& request@.is_valid()
    &&& split.commission == commission_of(request.input_amount as nat)
    &&& split.net_amount == net_of(request.input_amount as nat)
}

fn router_call(source: Identity, destination: Identity, accounts: &SwapTokens, payload: &Vec<u8>) -> (call:
    DelegatedCall)
    ensures
        call@ == router_call_of(source, destination, *accounts, payload@),
{
    let mut metas: Vec<AccountMeta> = Vec::new();
    metas.push(AccountMeta::new(source, false));
    metas.push(AccountMeta::new(destination, false));
    metas.push(AccountMeta::new(accounts.swap_account_key, true));
    metas.push(AccountMeta::new(accounts.token_program, false));
    metas.push(AccountMeta::new(accounts.system_program, false));
    metas.push(AccountMeta::new_readonly(trusted_router(), false));
    metas.push(AccountMeta::new_readonly(accounts.jupiter_route, false));
    let data = payload.clone();
    let call = DelegatedCall {
        instruction: Instruction { program_id: trusted_router(), accounts: metas, data },
        signer: derive_authority(accounts.swap_account.bump),
    };
    assert(call@.instruction.accounts =~= router_call_of(
        source,
        destination,
        *accounts,
        payload@,
    ).instruction.accounts);
    call
}

/// A request that passed validation. Nothing has moved yet.
#[derive(Debug)]
pub struct Validated {
    request: SwapRequest,
    split: CommissionSplit,
}

/// The net amount sits in the protocol's holding account.
#[derive(Debug)]
pub struct NetTransferred {
    request: SwapRequest,
    split: CommissionSplit,
}

/// The router has converted the net amount for the caller.
#[derive(Debug)]
pub struct UserConverted {
    request: SwapRequest,
    split: CommissionSplit,
}

/// The caller's destination balance has met the slippage floor.
#[derive(Debug)]
pub struct SlippageChecked {
    request: SwapRequest,
    split: CommissionSplit,
}

/// The router has converted the commission into the settlement asset.
#[derive(Debug)]
pub struct CommissionConverted {
    request: SwapRequest,
    split: CommissionSplit,
}

/// The settlement balance has been paid out. The call has succeeded.
#[derive(Debug)]
pub struct Distributed {
    request: SwapRequest,
    split: CommissionSplit,
}

/// Validates a swap request and computes its commission split. On `Ok` nothing has moved
/// yet: the state returned names the first transfer. On `Err` nothing ever will, since no
/// state exists to name one.
pub fn swap_tokens(
    ctx: SwapTokens,
    input_amount: u64,
    min_output_amount: u64,
    route_data: Vec<u8>,
) -> (result: Result<Validated, SwapError>)
    ensures
        validation_result(ctx, input_amount, min_output_amount) is Ok ==> result is Ok
            && result.unwrap()@ == (SwapRequestView {
            accounts: ctx,
            input_amount,
            min_output_amount,
            route_payload: route_data@,
        }),
        validation_result(ctx, input_amount, min_output_amount) matches Err(e) ==> result
            == Err::<Validated, SwapError>(e),
{
    match validate(&ctx, input_amount, min_output_amount) {
        Ok(()) => {},
        Err(e) => { return Err(e); },
    }
    let split = match compute_commission(input_amount) {
        Ok(split) => split,
        Err(e) => { return Err(e); },
    };
    let request = SwapRequest {
        accounts: ctx,
        input_amount,
        min_output_amount,
        route_payload: route_data,
    };
    Ok(Validated { request, split })
}

impl View for Validated {
    type V = SwapRequestView;

    closed spec fn view(&self) -> SwapRequestView {
        self.request@
    }
}

impl Validated {
    #[verifier::type_invariant]
    spec fn well_formed(self) -> bool {
        consistent(self.request, self.split)
    }

    /// The request, which is known to be valid.
    pub fn request(&self) -> (request: &SwapRequest)
        ensures
            request@ == self@,
            self@.is_valid(),
    {
        proof {
            use_type_invariant(self);
        }
        &self.request
    }

    /// What the ledger has to do next: move the net amount into the protocol's holding account.
    pub fn net_transfer(&self) -> (transfer: Transfer)
        ensures
            transfer == net_transfer_of(self@),
    {
        proof {
            use_type_invariant(self);
        }
        Transfer {
            from: self.request.accounts.user_token_account.key,
            to: self.request.accounts.swap_token_account.key,
            authority: self.request.accounts.user,
            amount: self.split.net_amount,
            signer: None,
        }
    }

    /// Takes the ledger's report on the net transfer.
    pub fn net_transferred(self, outcome: Outcome) -> (next: Result<NetTransferred, SwapError>)
        ensures
            outcome_result(outcome) is Ok ==> next is Ok && next.unwrap()@ == self@,
            outcome_result(outcome) matches Err(e) ==> next == Err::<NetTransferred, SwapError>(e),
    {
        proof {
            use_type_invariant(&self);
        }
        match outcome.into_result() {
            Ok(()) => Ok(NetTransferred { request: self.request, split: self.split }),
            Err(e) => Err(e),
        }
    }
}

impl View for NetTransferred {
    type V = SwapRequestView;

    closed spec fn view(&self) -> SwapRequestView {
        self.request@
    }
}

impl NetTransferred {
    #[verifier::type_invariant]
    spec fn well_formed(self) -> bool {
        consistent(self.request, self.split)
    }

    /// The request, which is known to be valid.
    pub fn request(&self) -> (request: &SwapRequest)
        ensures
            request@ == self@,
            self@.is_valid(),
    {
        proof {
            use_type_invariant(self);
        }
        &self.request
    }

    /// What the ledger has to do next: have the router convert the holding account's balance
    /// for the caller.
    pub fn user_leg(&self) -> (call: DelegatedCall)
        ensures
            call@ == user_leg_of(self@),
    {
        router_call(
            self.request.accounts.swap_token_account.key,
            self.request.accounts.user_sol_account,
            &self.request.accounts,
            &self.request.route_payload,
        )
    }

    /// Takes the ledger's report on the caller's conversion.
    pub fn user_converted(self, outcome: Outcome) -> (next: Result<UserConverted, SwapError>)
        ensures
            outcome_result(outcome) is Ok ==> next is Ok && next.unwrap()@ == self@,
            outcome_result(outcome) matches Err(e) ==> next == Err::<UserConverted, SwapError>(e),
    {
        proof {
            use_type_invariant(&self);
        }
        match outcome.into_result() {
            Ok(()) => Ok(UserConverted { request: self.request, split: self.split }),
            Err(e) => Err(e),
        }
    }
}

impl View for UserConverted {
    type V = SwapRequestView;

    closed spec fn view(&self) -> SwapRequestView {
        self.request@
    }
}

impl UserConverted {
    #[verifier::type_invariant]
    spec fn well_formed(self) -> bool {
        consistent(self.request, self.split)
    }

    /// The request, which is known to be valid.
    pub fn request(&self) -> (request: &SwapRequest)
        ensures
            request@ == self@,
            self@.is_valid(),
    {
        proof {
            use_type_invariant(self);
        }
        &self.request
    }

    /// Holds the caller's destination balance, read after the router returned, against the
    /// slippage floor.
    pub fn check_slippage(self, destination_balance: u64) -> (next: Result<
        SlippageChecked,
        SwapError,
    >)
        ensures
            slippage_result(self@.min_output_amount, destination_balance) is Ok ==> next is Ok
                && next.unwrap()@ == self@,
            slippage_result(self@.min_output_amount, destination_balance) matches Err(e) ==> next
                == Err::<SlippageChecked, SwapError>(e),
            destination_balance < self@.min_output_amount ==> next == Err::<
                SlippageChecked,
                SwapError,
            >(SwapError::SlippageExceeded),
    {
        proof {
            use_type_invariant(&self);
        }
        if destination_balance < self.request.min_output_amount {
            return Err(SwapError::SlippageExceeded);
        }
        Ok(SlippageChecked { request: self.request, split: self.split })
    }
}

impl View for SlippageChecked {
    type V = SwapRequestView;

    closed spec fn view(&self) -> SwapRequestView {
        self.request@
    }
}

impl SlippageChecked {
    #[verifier::type_invariant]
    spec fn well_formed(self) -> bool {
        consistent(self.request, self.split)
    }

    /// The request, which is known to be valid.
    pub fn request(&self) -> (request: &SwapRequest)
        ensures
            request@ == self@,
            self@.is_valid(),
    {
        proof {
            use_type_invariant(self);
        }
        &self.request
    }

    /// What the ledger has to do next: move the commission into the protocol's holding
    /// account and have the router convert it into the settlement asset.
    pub fn commission_leg(&self) -> (leg: CommissionLeg)
        ensures
            leg.funding == commission_funding_of(self@),
            leg.call@ == commission_call_of(self@),
    {
        proof {
            use_type_invariant(self);
        }
        let funding = Transfer {
            from: self.request.accounts.user_token_account.key,
            to: self.request.accounts.commission_token_account.key,
            authority: self.request.accounts.user,
            amount: self.split.commission,
            signer: None,
        };
        let call = router_call(
            self.request.accounts.commission_token_account.key,
            self.request.accounts.commission_usdc_account.key,
            &self.request.accounts,
            &self.request.route_payload,
        );
        CommissionLeg { funding, call }
    }

    /// Takes the ledger's report on the commission leg.
    pub fn commission_converted(self, outcome: Outcome) -> (next: Result<
        CommissionConverted,
        SwapError,
    >)
        ensures
            outcome_result(outcome) is Ok ==> next is Ok && next.unwrap()@ == self@,
            outcome_result(outcome) matches Err(e) ==> next == Err::<CommissionConverted, SwapError>(
                e,
            ),
    {
        proof {
            use_type_invariant(&self);
        }
        match outcome.into_result() {
            Ok(()) => Ok(CommissionConverted { request: self.request, split: self.split }),
            Err(e) => Err(e),
        }
    }
}

impl View for CommissionConverted {
    type V = SwapRequestView;

    closed spec fn view(&self) -> SwapRequestView {
        self.request@
    }
}

impl CommissionConverted {
    #[verifier::type_invariant]
    spec fn well_formed(self) -> bool {
        consistent(self.request, self.split)
    }

    /// The request, which is known to be valid.
    pub fn request(&self) -> (request: &SwapRequest)
        ensures
            request@ == self@,
            self@.is_valid(),
    {
        proof {
            use_type_invariant(self);
        }
        &self.request
    }

    /// What the ledger has to do next: pay out the settlement account's balance, read after
    /// the router returned. The balance is split as it stands, whatever the commission was
    /// before its conversion. For a 64-bit balance the split cannot fail, so the result is
    /// always `Ok`.
    pub fn distribution(&self, settlement_balance: u64) -> (result: Result<Distribution, SwapError>)
        ensures
            result == Ok::<Distribution, SwapError>(
                Distribution {
                    referral: referral_transfer_of(self@, settlement_balance),
                    admin: admin_transfer_of(self@, settlement_balance),
                },
            ),
            result.unwrap().referral.amount + result.unwrap().admin.amount == settlement_balance,
    {
        let shares = match compute_shares(settlement_balance) {
            Ok(shares) => shares,
            Err(e) => { return Err(e); },
        };
        let signer = derive_authority(self.request.accounts.swap_account.bump);
        let referral = Transfer {
            from: self.request.accounts.commission_usdc_account.key,
            to: self.request.accounts.referral_usdc_account.key,
            authority: self.request.accounts.swap_account_key,
            amount: shares.referral_share,
            signer: Some(signer),
        };
        let admin = Transfer {
            from: self.request.accounts.commission_usdc_account.key,
            to: self.request.accounts.admin_usdc_account.key,
            authority: self.request.accounts.swap_account_key,
            amount: shares.admin_share,
            signer: Some(signer),
        };
        Ok(Distribution { referral, admin })
    }

    /// Takes the ledger's report on the two transfers of the distribution.
    pub fn distributed(self, outcome: Outcome) -> (next: Result<Distributed, SwapError>)
        ensures
            outcome_result(outcome) is Ok ==> next is Ok && next.unwrap()@ == self@,
            outcome_result(outcome) matches Err(e) ==> next == Err::<Distributed, SwapError>(e),
    {
        proof {
            use_type_invariant(&self);
        }
        match outcome.into_result() {
            Ok(()) => Ok(Distributed { request: self.request, split: self.split }),
            Err(e) => Err(e),
        }
    }
}

impl View for Distributed {
    type V = SwapRequestView;

    closed spec fn view(&self) -> SwapRequestView {
        self.request@
    }
}

impl Distributed {
    #[verifier::type_invariant]
    spec fn well_formed(self) -> bool {
        consistent(self.request, self.split)
    }

    /// The request, which is known to be valid.
    pub fn request(&self) -> (request: &SwapRequest)
        ensures
            request@ == self@,
            self@.is_valid(),
    {
        proof {
            use_type_invariant(self);
        }
        &self.request
    }
}

} // verus!
