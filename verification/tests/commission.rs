use swap_protocol::commission::{compute_commission, compute_shares, CommissionSplit, Shares};

#[test]
fn commission_is_one_hundredth_rounded_down() {
    assert_eq!(
        compute_commission(587_000),
        Ok(CommissionSplit { commission: 5_870, net_amount: 581_130 })
    );
    assert_eq!(compute_commission(100), Ok(CommissionSplit { commission: 1, net_amount: 99 }));
    assert_eq!(compute_commission(199), Ok(CommissionSplit { commission: 1, net_amount: 198 }));
    assert_eq!(compute_commission(200), Ok(CommissionSplit { commission: 2, net_amount: 198 }));
}

#[test]
fn commission_of_small_inputs_is_zero() {
    assert_eq!(compute_commission(0), Ok(CommissionSplit { commission: 0, net_amount: 0 }));
    assert_eq!(compute_commission(1), Ok(CommissionSplit { commission: 0, net_amount: 1 }));
    assert_eq!(compute_commission(99), Ok(CommissionSplit { commission: 0, net_amount: 99 }));
}

#[test]
fn commission_of_largest_input_does_not_overflow() {
    assert_eq!(
        compute_commission(u64::MAX),
        Ok(CommissionSplit {
            commission: 184_467_440_737_095_516,
            net_amount: 18_262_276_632_972_456_099,
        })
    );
}

#[test]
fn commission_and_net_add_up_to_input() {
    let inputs = [0u64, 1, 7, 99, 100, 101, 12_345, 587_000, 1 << 40, u64::MAX - 1, u64::MAX];
    for input in inputs {
        let split = compute_commission(input).unwrap();
        assert_eq!(split.commission, input / 100);
        assert_eq!(split.commission as u128 + split.net_amount as u128, input as u128);
    }
}

#[test]
fn shares_are_four_tenths_and_the_rest() {
    assert_eq!(
        compute_shares(7_064_650),
        Ok(Shares { referral_share: 2_825_860, admin_share: 4_238_790 })
    );
    assert_eq!(2_825_860u64 + 4_238_790, 7_064_650);
    assert_eq!(compute_shares(10), Ok(Shares { referral_share: 4, admin_share: 6 }));
    assert_eq!(compute_shares(9), Ok(Shares { referral_share: 3, admin_share: 6 }));
    assert_eq!(compute_shares(3), Ok(Shares { referral_share: 1, admin_share: 2 }));
    assert_eq!(compute_shares(2), Ok(Shares { referral_share: 0, admin_share: 2 }));
    assert_eq!(compute_shares(1), Ok(Shares { referral_share: 0, admin_share: 1 }));
}

#[test]
fn shares_of_nothing_are_nothing() {
    assert_eq!(compute_shares(0), Ok(Shares { referral_share: 0, admin_share: 0 }));
}

#[test]
fn shares_of_largest_balance_do_not_overflow() {
    assert_eq!(
        compute_shares(u64::MAX),
        Ok(Shares {
            referral_share: 7_378_697_629_483_820_646,
            admin_share: 11_068_046_444_225_730_969,
        })
    );
}

#[test]
fn shares_add_up_to_balance() {
    let balances = [0u64, 1, 2, 3, 9, 10, 11, 7_064_650, 1 << 50, u64::MAX - 1, u64::MAX];
    for balance in balances {
        let shares = compute_shares(balance).unwrap();
        assert_eq!(shares.referral_share as u128, balance as u128 * 4 / 10);
        assert_eq!(shares.referral_share as u128 + shares.admin_share as u128, balance as u128);
    }
}

#[test]
fn referral_share_agrees_with_forty_percent() {
    let balances = [0u64, 1, 2, 3, 5, 99, 7_064_650, u64::MAX];
    for balance in balances {
        let shares = compute_shares(balance).unwrap();
        assert_eq!(shares.referral_share as u128, balance as u128 * 40 / 100);
    }
}
