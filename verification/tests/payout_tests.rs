use payermint::config::{initialize_global_config, GlobalConfig};
use payermint::errors::ErrorVault;
use payermint::member::Member;
use payermint::payout::{
    bulk_process_payouts, process_scheduled_payout, process_sol_payout, PayoutData,
};
use payermint::payout_batch::create_payroll_batch;
use payermint::vault_account::{
    create_vault, AllocationType, AssetType, PayoutSchedule, VaultAccount, VaultType,
};

fn config(fee_bps: u16) -> GlobalConfig {
    initialize_global_config(1, 2, fee_bps).unwrap()
}

fn funded_vault(c: &mut GlobalConfig, balance: u64) -> VaultAccount {
    let mut v = create_vault(
        c,
        1,
        String::from("payroll"),
        VaultType::Company,
        vec![AssetType::SOL],
        None,
        AllocationType::AllocationPerBps,
        None,
        None,
        0,
    )
    .unwrap();
    if balance > 0 {
        v.deposit_sol(balance, 1).unwrap();
    }
    v
}

fn member(bps: Option<u16>, fixed_sol: Option<u64>) -> Member {
    Member::add(7, 100, String::from("dev"), bps, fixed_sol, None, None).unwrap()
}

#[test]
fn deposit_then_full_payout_conserves_value() {
    let mut c = config(250);
    let mut v = funded_vault(&mut c, 0);
    v.deposit_sol(1_000, 1).unwrap();
    let mut b = create_payroll_batch(&c, 1, 1, 1_000, 1);
    let out = process_sol_payout(&mut v, &mut b, &c, 1_000).unwrap();
    assert_eq!(out.service_fee, 25);
    assert_eq!(out.net_amount, 975);
    assert_eq!(out.service_fee + out.net_amount, 1_000);
    assert_eq!(v.total_balance, 0);
    assert_eq!(b.payout_count, 1);
}

#[test]
fn batch_freezes_the_fee_at_creation() {
    let c = config(250);
    let b = create_payroll_batch(&c, 9, 5, 40_000, 77);
    assert_eq!(b.vault, 9);
    assert_eq!(b.batch_id, 5);
    assert_eq!(b.timestamp, 77);
    assert_eq!(b.total_amount, 40_000);
    assert_eq!(b.service_fee, 1_000);
    assert_eq!(b.payout_count, 0);
    assert!(!b.finalized);
}

#[test]
fn finalize_is_terminal() {
    let c = config(250);
    let mut b = create_payroll_batch(&c, 1, 1, 0, 0);
    b.finalize().unwrap();
    assert!(b.finalized);
    let again = b.finalize();
    assert_eq!(again.unwrap_err(), ErrorVault::BatchAlreadyFinalized);
    assert!(b.finalized);
    assert_eq!(b.payout_count, 0);
}

#[test]
fn payout_against_a_finalized_batch_fails() {
    let mut c = config(250);
    let mut v = funded_vault(&mut c, 10_000);
    let mut b = create_payroll_batch(&c, 1, 1, 10_000, 0);
    b.finalize().unwrap();
    let r = process_sol_payout(&mut v, &mut b, &c, 1_000);
    assert_eq!(r.unwrap_err(), ErrorVault::BatchAlreadyFinalized);
    assert_eq!(v.total_balance, 10_000);
    assert_eq!(b.payout_count, 0);
}

#[test]
fn payout_needs_a_covering_balance() {
    let mut c = config(250);
    let mut v = funded_vault(&mut c, 999);
    let mut b = create_payroll_batch(&c, 1, 1, 999, 0);
    let r = process_sol_payout(&mut v, &mut b, &c, 1_000);
    assert_eq!(r.unwrap_err(), ErrorVault::InsufficientBalance);
    assert_eq!(v.total_balance, 999);
    assert_eq!(b.payout_count, 0);
}

#[test]
fn early_scheduled_payout_leaves_the_schedule_alone() {
    let mut c = config(250);
    let mut v = funded_vault(&mut c, 5_000);
    let s = PayoutSchedule { interval: 60, next_payout_ts: 100, active: true };
    v.configure_payout_schedule(s);
    let m = member(Some(10_000), None);
    let r = process_scheduled_payout(&mut v, &m, &c, 99);
    assert_eq!(r.unwrap_err(), ErrorVault::PayoutTimeNotReached);
    assert_eq!(v.payout_schedule, Some(s));
    assert_eq!(v.total_balance, 5_000);
}

#[test]
fn due_scheduled_payout_advances_by_one_interval() {
    let mut c = config(0);
    let mut v = funded_vault(&mut c, 5_000);
    v.configure_payout_schedule(PayoutSchedule { interval: 60, next_payout_ts: 100, active: true });
    let m = member(Some(10_000), None);
    // Long after the due time: the cadence still advances by exactly one
    // interval, not up to the present.
    let out = process_scheduled_payout(&mut v, &m, &c, 1_000).unwrap();
    assert_eq!(out.amount, 5_000);
    assert_eq!(out.service_fee, 0);
    assert_eq!(out.net_amount, 5_000);
    assert_eq!(
        v.payout_schedule,
        Some(PayoutSchedule { interval: 60, next_payout_ts: 160, active: true })
    );
    assert_eq!(v.total_balance, 0);
}

#[test]
fn scheduled_payout_takes_the_percentage_share() {
    let mut c = config(250);
    let mut v = funded_vault(&mut c, 8_000);
    v.configure_payout_schedule(PayoutSchedule { interval: 60, next_payout_ts: 100, active: true });
    let m = member(Some(2_500), None);
    let out = process_scheduled_payout(&mut v, &m, &c, 100).unwrap();
    assert_eq!(out.amount, 2_000);
    assert_eq!(out.service_fee, 50);
    assert_eq!(out.net_amount, 1_950);
    assert_eq!(v.total_balance, 6_000);
}

#[test]
fn scheduled_payout_falls_back_to_the_fixed_amount() {
    let mut c = config(0);
    let mut v = funded_vault(&mut c, 5_000);
    v.configure_payout_schedule(PayoutSchedule { interval: 60, next_payout_ts: 100, active: true });
    let m = member(None, Some(1_200));
    let out = process_scheduled_payout(&mut v, &m, &c, 100).unwrap();
    assert_eq!(out.amount, 1_200);
    assert_eq!(v.total_balance, 3_800);
}

#[test]
fn scheduled_payout_needs_a_schedule() {
    let mut c = config(250);
    let mut v = funded_vault(&mut c, 5_000);
    let m = member(Some(100), None);
    let r = process_scheduled_payout(&mut v, &m, &c, 100);
    assert_eq!(r.unwrap_err(), ErrorVault::PayoutScheduleNotActive);
}

#[test]
fn scheduled_payout_needs_an_active_schedule() {
    let mut c = config(250);
    let mut v = funded_vault(&mut c, 5_000);
    v.configure_payout_schedule(PayoutSchedule { interval: 60, next_payout_ts: 100, active: false });
    let m = member(Some(100), None);
    let r = process_scheduled_payout(&mut v, &m, &c, 100);
    assert_eq!(r.unwrap_err(), ErrorVault::PayoutScheduleNotActive);
}

#[test]
fn scheduled_payout_needs_an_active_member() {
    let mut c = config(250);
    let mut v = funded_vault(&mut c, 5_000);
    v.configure_payout_schedule(PayoutSchedule { interval: 60, next_payout_ts: 100, active: true });
    let mut m = member(Some(100), None);
    m.toggle_active_status();
    let r = process_scheduled_payout(&mut v, &m, &c, 100);
    assert_eq!(r.unwrap_err(), ErrorVault::MemberNotActive);
}

#[test]
fn scheduled_payout_needs_a_resolvable_amount() {
    let mut c = config(250);
    let mut v = funded_vault(&mut c, 5_000);
    v.configure_payout_schedule(PayoutSchedule { interval: 60, next_payout_ts: 100, active: true });
    let m = member(None, None);
    let r = process_scheduled_payout(&mut v, &m, &c, 100);
    assert_eq!(r.unwrap_err(), ErrorVault::InvalidAllocationBps);
}

#[test]
fn scheduled_fixed_payout_needs_a_covering_balance() {
    let mut c = config(250);
    let mut v = funded_vault(&mut c, 5_000);
    let s = PayoutSchedule { interval: 60, next_payout_ts: 100, active: true };
    v.configure_payout_schedule(s);
    let m = member(None, Some(5_001));
    let r = process_scheduled_payout(&mut v, &m, &c, 100);
    assert_eq!(r.unwrap_err(), ErrorVault::InsufficientBalance);
    assert_eq!(v.total_balance, 5_000);
    assert_eq!(v.payout_schedule, Some(s));
}

#[test]
fn bulk_over_an_empty_list_is_a_noop() {
    let mut c = config(250);
    let mut v = funded_vault(&mut c, 5_000);
    let mut b = create_payroll_batch(&c, 1, 1, 0, 0);
    let out = bulk_process_payouts(&mut v, &mut b, &c, &Vec::new()).unwrap();
    assert_eq!(out.total_amount, 0);
    assert_eq!(out.total_service_fee, 0);
    assert_eq!(v.total_balance, 5_000);
    assert_eq!(b.payout_count, 0);
}

#[test]
fn bulk_debits_once_and_counts_the_run() {
    let mut c = config(250);
    let mut v = funded_vault(&mut c, 5_000);
    let mut b = create_payroll_batch(&c, 1, 1, 3_000, 0);
    let run = vec![
        PayoutData { member: 100, amount: 1_000, asset_type: AssetType::SOL },
        PayoutData { member: 101, amount: 999, asset_type: AssetType::SOL },
        PayoutData { member: 102, amount: 1_001, asset_type: AssetType::SOL },
    ];
    let out = bulk_process_payouts(&mut v, &mut b, &c, &run).unwrap();
    assert_eq!(out.total_amount, 3_000);
    // floor(1000*250/10000) + floor(999*250/10000) + floor(1001*250/10000)
    assert_eq!(out.total_service_fee, 25 + 24 + 25);
    assert_eq!(v.total_balance, 2_000);
    assert_eq!(b.payout_count, 3);
}

#[test]
fn bulk_rejects_an_uncovered_run_wholesale() {
    let mut c = config(250);
    let mut v = funded_vault(&mut c, 1_999);
    let mut b = create_payroll_batch(&c, 1, 1, 2_000, 0);
    let run = vec![
        PayoutData { member: 100, amount: 1_000, asset_type: AssetType::SOL },
        PayoutData { member: 101, amount: 1_000, asset_type: AssetType::SOL },
    ];
    let r = bulk_process_payouts(&mut v, &mut b, &c, &run);
    assert_eq!(r.unwrap_err(), ErrorVault::InsufficientBalance);
    assert_eq!(v.total_balance, 1_999);
    assert_eq!(b.payout_count, 0);
}

#[test]
fn bulk_against_a_finalized_batch_fails() {
    let mut c = config(250);
    let mut v = funded_vault(&mut c, 5_000);
    let mut b = create_payroll_batch(&c, 1, 1, 0, 0);
    b.finalize().unwrap();
    let run = vec![PayoutData { member: 100, amount: 1, asset_type: AssetType::SOL }];
    let r = bulk_process_payouts(&mut v, &mut b, &c, &run);
    assert_eq!(r.unwrap_err(), ErrorVault::BatchAlreadyFinalized);
    assert_eq!(v.total_balance, 5_000);
}

#[test]
fn config_updates_are_guarded() {
    let mut c = config(250);
    c.update_default_fee(10_000).unwrap();
    assert_eq!(c.default_fee_bps, 10_000);
    let r = c.update_default_fee(10_001);
    assert_eq!(r.unwrap_err(), ErrorVault::InvalidFeeBps);
    assert_eq!(c.default_fee_bps, 10_000);
    c.update_treasury(9);
    assert_eq!(c.treasury, 9);
    let bad = initialize_global_config(1, 2, 10_001);
    assert_eq!(bad.unwrap_err(), ErrorVault::InvalidFeeBps);
}
