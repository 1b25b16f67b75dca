use std::collections::HashMap;
use swap_protocol::accounts::{SwapTokens, TokenAccount};
use swap_protocol::error::SwapError;
use swap_protocol::identity::{settlement_asset, trusted_router, Identity};
use swap_protocol::instruction::{DelegatedCall, Transfer};
use swap_protocol::registry::SwapAccount;
use swap_protocol::swap::{swap_tokens, Outcome};

fn key(n: u8) -> Identity {
    Identity { bytes: [n; 32] }
}

const REGISTRY: u8 = 10;
const USER: u8 = 11;
const SOURCE_ASSET: u8 = 12;
const ADMIN: u8 = 13;
const REFERRAL: u8 = 14;
const USER_SOURCE: u8 = 20;
const HOLDING: u8 = 21;
const COMMISSION_HOLDING: u8 = 22;
const SETTLEMENT: u8 = 23;
const REFERRAL_SETTLEMENT: u8 = 24;
const ADMIN_SETTLEMENT: u8 = 25;
const USER_DESTINATION: u8 = 34;

/// The steps of a swap at which the ledger can be made to fail.
#[derive(Clone, Copy, Debug, PartialEq)]
enum Fault {
    Nowhere,
    NetTransfer,
    UserConversion,
    CommissionFunding,
    CommissionConversion,
    ReferralPayment,
    AdminPayment,
}

/// A ledger of balances that applies a call as a whole or not at all.
#[derive(Clone, Debug, PartialEq)]
struct Ledger {
    balances: HashMap<Identity, u64>,
    /// What the router credits for the caller's conversion.
    user_output: u64,
    /// What the router credits for the commission conversion.
    settlement_output: u64,
}

impl Ledger {
    fn new(user_balance: u64, user_output: u64, settlement_output: u64) -> Ledger {
        let mut balances = HashMap::new();
        balances.insert(key(USER_SOURCE), user_balance);
        for account in [
            HOLDING,
            COMMISSION_HOLDING,
            SETTLEMENT,
            REFERRAL_SETTLEMENT,
            ADMIN_SETTLEMENT,
            USER_DESTINATION,
        ] {
            balances.insert(key(account), 0);
        }
        Ledger { balances, user_output, settlement_output }
    }

    fn balance(&self, account: u8) -> u64 {
        self.balances[&key(account)]
    }

    fn accounts(&self) -> SwapTokens {
        let token = |account: u8, mint: Identity, owner: u8| TokenAccount {
            key: key(account),
            mint,
            owner: key(owner),
            amount: self.balance(account),
        };
        SwapTokens {
            swap_account: SwapAccount { admin: key(ADMIN), referral: key(REFERRAL), bump: 253 },
            swap_account_key: key(REGISTRY),
            user: key(USER),
            input_token_mint: key(SOURCE_ASSET),
            user_token_account: token(USER_SOURCE, key(SOURCE_ASSET), USER),
            swap_token_account: token(HOLDING, key(SOURCE_ASSET), REGISTRY),
            commission_token_account: token(COMMISSION_HOLDING, key(SOURCE_ASSET), REGISTRY),
            commission_usdc_account: token(SETTLEMENT, settlement_asset(), REGISTRY),
            referral_usdc_account: token(REFERRAL_SETTLEMENT, settlement_asset(), REFERRAL),
            admin_usdc_account: token(ADMIN_SETTLEMENT, settlement_asset(), ADMIN),
            usdc_mint: settlement_asset(),
            token_program: key(30),
            associated_token_program: key(31),
            system_program: key(32),
            jupiter_program: trusted_router(),
            jupiter_route: key(33),
            user_sol_account: key(USER_DESTINATION),
        }
    }

    fn transfer(&mut self, transfer: &Transfer, fail: bool) -> Outcome {
        let available = self.balances[&transfer.from];
        if fail || available < transfer.amount {
            return Outcome::TransferRefused;
        }
        self.balances.insert(transfer.from, available - transfer.amount);
        let credited = self.balances[&transfer.to] + transfer.amount;
        self.balances.insert(transfer.to, credited);
        Outcome::Completed
    }

    /// The router takes all that the first account of the call holds and credits the second.
    fn convert(&mut self, call: &DelegatedCall, output: u64, fail: bool) -> Outcome {
        if fail || call.instruction.program_id != trusted_router() {
            return Outcome::RouterFailed;
        }
        let source = call.instruction.accounts[0].pubkey;
        let destination = call.instruction.accounts[1].pubkey;
        self.balances.insert(source, 0);
        let credited = self.balances[&destination] + output;
        self.balances.insert(destination, credited);
        Outcome::Completed
    }

    /// Runs one swap call against a copy of the ledger and keeps the copy only if the call
    /// succeeded.
    fn swap(&mut self, input_amount: u64, min_output_amount: u64, fault: Fault) -> Result<(), SwapError> {
        let mut working = self.clone();
        let result = working.run(input_amount, min_output_amount, fault);
        if result.is_ok() {
            *self = working;
        }
        result
    }

    fn run(&mut self, input_amount: u64, min_output_amount: u64, fault: Fault) -> Result<(), SwapError> {
        let validated = swap_tokens(self.accounts(), input_amount, min_output_amount, vec![0xAB, 0xCD])?;

        let outcome = self.transfer(&validated.net_transfer(), fault == Fault::NetTransfer);
        let net_transferred = validated.net_transferred(outcome)?;

        let outcome =
            self.convert(&net_transferred.user_leg(), self.user_output, fault == Fault::UserConversion);
        let user_converted = net_transferred.user_converted(outcome)?;

        let slippage_checked = user_converted.check_slippage(self.balance(USER_DESTINATION))?;

        let leg = slippage_checked.commission_leg();
        let mut outcome = self.transfer(&leg.funding, fault == Fault::CommissionFunding);
        if outcome == Outcome::Completed {
            outcome =
                self.convert(&leg.call, self.settlement_output, fault == Fault::CommissionConversion);
        }
        let commission_converted = slippage_checked.commission_converted(outcome)?;

        let distribution = commission_converted.distribution(self.balance(SETTLEMENT))?;
        let mut outcome = self.transfer(&distribution.referral, fault == Fault::ReferralPayment);
        if outcome == Outcome::Completed {
            outcome = self.transfer(&distribution.admin, fault == Fault::AdminPayment);
        }
        commission_converted.distributed(outcome)?;
        Ok(())
    }
}

#[test]
fn successful_swap_routes_net_and_commission_and_pays_both_beneficiaries() {
    let mut ledger = Ledger::new(600_000, 57_477_400, 7_064_650);
    assert_eq!(ledger.swap(587_000, 57_000_000, Fault::Nowhere), Ok(()));

    assert_eq!(ledger.balance(USER_SOURCE), 13_000);
    assert_eq!(ledger.balance(HOLDING), 0);
    assert_eq!(ledger.balance(COMMISSION_HOLDING), 0);
    assert_eq!(ledger.balance(USER_DESTINATION), 57_477_400);
    assert_eq!(ledger.balance(SETTLEMENT), 0);
    assert_eq!(ledger.balance(REFERRAL_SETTLEMENT), 2_825_860);
    assert_eq!(ledger.balance(ADMIN_SETTLEMENT), 4_238_790);
}

#[test]
fn swap_of_one_unit_has_no_commission_and_distributes_nothing() {
    let mut ledger = Ledger::new(1, 9, 0);
    let validated = swap_tokens(ledger.accounts(), 1, 1, vec![]).unwrap();
    assert_eq!(validated.net_transfer().amount, 1);

    assert_eq!(ledger.swap(1, 1, Fault::Nowhere), Ok(()));
    assert_eq!(ledger.balance(USER_SOURCE), 0);
    assert_eq!(ledger.balance(USER_DESTINATION), 9);
    assert_eq!(ledger.balance(SETTLEMENT), 0);
    assert_eq!(ledger.balance(REFERRAL_SETTLEMENT), 0);
    assert_eq!(ledger.balance(ADMIN_SETTLEMENT), 0);
}

#[test]
fn settlement_of_nothing_pays_two_transfers_of_zero() {
    let ledger = Ledger::new(1, 9, 0);
    let state = swap_tokens(ledger.accounts(), 1, 1, vec![]).unwrap();
    let state = state.net_transferred(Outcome::Completed).unwrap();
    let state = state.user_converted(Outcome::Completed).unwrap();
    let state = state.check_slippage(9).unwrap();
    assert_eq!(state.commission_leg().funding.amount, 0);
    let state = state.commission_converted(Outcome::Completed).unwrap();
    let distribution = state.distribution(0).unwrap();
    assert_eq!(distribution.referral.amount, 0);
    assert_eq!(distribution.admin.amount, 0);
    assert!(state.distributed(Outcome::Completed).is_ok());
}

#[test]
fn failure_at_any_step_leaves_every_balance_as_it_was() {
    let faults = [
        (Fault::NetTransfer, SwapError::InvalidTokenAccount),
        (Fault::UserConversion, SwapError::JupiterSwapFailed),
        (Fault::CommissionFunding, SwapError::InvalidTokenAccount),
        (Fault::CommissionConversion, SwapError::JupiterSwapFailed),
        (Fault::ReferralPayment, SwapError::InvalidTokenAccount),
        (Fault::AdminPayment, SwapError::InvalidTokenAccount),
    ];
    for (fault, error) in faults {
        let mut ledger = Ledger::new(600_000, 57_477_400, 7_064_650);
        let before = ledger.clone();
        assert_eq!(ledger.swap(587_000, 57_000_000, fault), Err(error), "{:?}", fault);
        assert_eq!(ledger, before, "{:?}", fault);
    }
}

#[test]
fn failed_commission_conversion_undoes_the_user_leg() {
    let mut ledger = Ledger::new(600_000, 57_477_400, 7_064_650);
    let before = ledger.clone();
    assert_eq!(
        ledger.swap(587_000, 57_000_000, Fault::CommissionConversion),
        Err(SwapError::JupiterSwapFailed)
    );
    assert_eq!(ledger.balance(USER_SOURCE), 600_000);
    assert_eq!(ledger.balance(USER_DESTINATION), 0);
    assert_eq!(ledger, before);
}

#[test]
fn output_below_the_floor_fails_with_slippage_and_changes_nothing() {
    let mut ledger = Ledger::new(600_000, 56_999_999, 7_064_650);
    let before = ledger.clone();
    assert_eq!(ledger.swap(587_000, 57_000_000, Fault::Nowhere), Err(SwapError::SlippageExceeded));
    assert_eq!(ledger.balance(USER_DESTINATION), 0);
    assert_eq!(ledger, before);
}

#[test]
fn output_at_the_floor_passes() {
    let mut ledger = Ledger::new(600_000, 57_000_000, 7_064_650);
    assert_eq!(ledger.swap(587_000, 57_000_000, Fault::Nowhere), Ok(()));
    assert_eq!(ledger.balance(USER_DESTINATION), 57_000_000);
}

#[test]
fn slippage_is_judged_on_the_balance_read_after_the_call() {
    let ledger = Ledger::new(1_000, 0, 0);
    let state = |floor: u64| {
        swap_tokens(ledger.accounts(), 1_000, floor, vec![])
            .unwrap()
            .net_transferred(Outcome::Completed)
            .unwrap()
            .user_converted(Outcome::Completed)
            .unwrap()
    };
    assert_eq!(state(8).check_slippage(7).unwrap_err(), SwapError::SlippageExceeded);
    assert!(state(8).check_slippage(8).is_ok());
    assert!(state(8).check_slippage(15).is_ok());
    assert_eq!(state(u64::MAX).check_slippage(u64::MAX - 1).unwrap_err(), SwapError::SlippageExceeded);
    assert!(state(u64::MAX).check_slippage(u64::MAX).is_ok());
    assert_eq!(state(1).check_slippage(0).unwrap_err(), SwapError::SlippageExceeded);
}

#[test]
fn rejected_request_moves_nothing() {
    let mut ledger = Ledger::new(100, 5, 5);
    let before = ledger.clone();
    assert_eq!(ledger.swap(101, 1, Fault::Nowhere), Err(SwapError::InsufficientBalance));
    assert_eq!(ledger.swap(0, 1, Fault::Nowhere), Err(SwapError::InvalidAmount));
    assert_eq!(ledger.swap(100, 0, Fault::Nowhere), Err(SwapError::InvalidMinOutAmount));
    assert_eq!(ledger, before);
}

#[test]
fn every_transition_turns_a_failure_into_its_error() {
    let ledger = Ledger::new(1_000, 0, 0);
    let validated = || swap_tokens(ledger.accounts(), 1_000, 1, vec![]).unwrap();

    assert_eq!(
        validated().net_transferred(Outcome::TransferRefused).unwrap_err(),
        SwapError::InvalidTokenAccount
    );
    assert_eq!(
        validated().net_transferred(Outcome::RouterFailed).unwrap_err(),
        SwapError::JupiterSwapFailed
    );

    let net_transferred = || validated().net_transferred(Outcome::Completed).unwrap();
    assert_eq!(
        net_transferred().user_converted(Outcome::RouterFailed).unwrap_err(),
        SwapError::JupiterSwapFailed
    );
    assert_eq!(
        net_transferred().user_converted(Outcome::TransferRefused).unwrap_err(),
        SwapError::InvalidTokenAccount
    );

    let slippage_checked = || {
        net_transferred()
            .user_converted(Outcome::Completed)
            .unwrap()
            .check_slippage(1)
            .unwrap()
    };
    assert_eq!(
        slippage_checked().commission_converted(Outcome::RouterFailed).unwrap_err(),
        SwapError::JupiterSwapFailed
    );
    assert_eq!(
        slippage_checked().commission_converted(Outcome::TransferRefused).unwrap_err(),
        SwapError::InvalidTokenAccount
    );

    let commission_converted =
        || slippage_checked().commission_converted(Outcome::Completed).unwrap();
    assert_eq!(
        commission_converted().distributed(Outcome::TransferRefused).unwrap_err(),
        SwapError::InvalidTokenAccount
    );
    assert_eq!(
        commission_converted().distributed(Outcome::RouterFailed).unwrap_err(),
        SwapError::JupiterSwapFailed
    );
    assert!(commission_converted().distributed(Outcome::Completed).is_ok());
}

#[test]
fn outcomes_map_to_their_errors() {
    assert_eq!(Outcome::Completed.into_result(), Ok(()));
    assert_eq!(Outcome::TransferRefused.into_result(), Err(SwapError::InvalidTokenAccount));
    assert_eq!(Outcome::RouterFailed.into_result(), Err(SwapError::JupiterSwapFailed));
}

#[test]
fn request_is_carried_unchanged_through_every_state() {
    let ledger = Ledger::new(1_000, 0, 0);
    let accounts = ledger.accounts();
    let state = swap_tokens(accounts, 1_000, 3, vec![7, 8, 9]).unwrap();
    let state = state.net_transferred(Outcome::Completed).unwrap();
    assert_eq!(state.request().route_payload, vec![7, 8, 9]);
    let state = state.user_converted(Outcome::Completed).unwrap();
    assert_eq!(state.request().input_amount, 1_000);
    let state = state.check_slippage(3).unwrap();
    assert_eq!(state.request().min_output_amount, 3);
    let state = state.commission_converted(Outcome::Completed).unwrap();
    assert_eq!(state.request().accounts, accounts);
    let state = state.distributed(Outcome::Completed).unwrap();
    assert_eq!(state.request().accounts, accounts);
    assert_eq!(state.request().input_amount, 1_000);
    assert_eq!(state.request().min_output_amount, 3);
    assert_eq!(state.request().route_payload, vec![7, 8, 9]);
}

#[test]
fn two_swaps_in_a_row_each_empty_the_settlement_account() {
    let mut ledger = Ledger::new(1_000_000, 50, 333);
    assert_eq!(ledger.swap(500_000, 1, Fault::Nowhere), Ok(()));
    assert_eq!(ledger.balance(REFERRAL_SETTLEMENT), 133);
    assert_eq!(ledger.balance(ADMIN_SETTLEMENT), 200);
    assert_eq!(ledger.swap(500_000, 1, Fault::Nowhere), Ok(()));
    assert_eq!(ledger.balance(USER_SOURCE), 0);
    assert_eq!(ledger.balance(SETTLEMENT), 0);
    assert_eq!(ledger.balance(REFERRAL_SETTLEMENT), 266);
    assert_eq!(ledger.balance(ADMIN_SETTLEMENT), 400);
    assert_eq!(ledger.balance(USER_DESTINATION), 100);
}
