use payermint::config::{initialize_global_config, GlobalConfig};
use payermint::errors::ErrorVault;
use payermint::vault_account::{
    create_vault, AllocationType, AssetType, PayoutSchedule, VaultAccount, VaultType,
};

fn config() -> GlobalConfig {
    initialize_global_config(1, 2, 250).unwrap()
}

fn plain_vault(config: &mut GlobalConfig) -> VaultAccount {
    create_vault(
        config,
        1,
        String::from("payroll"),
        VaultType::Company,
        vec![AssetType::SOL],
        None,
        AllocationType::AllocationPerBps,
        None,
        None,
        1_700_000_000,
    )
    .unwrap()
}

#[test]
fn create_vault_sets_fields_and_counter() {
    let mut c = config();
    let v = plain_vault(&mut c);
    assert_eq!(v.owner, 1);
    assert_eq!(v.name, "payroll");
    assert_eq!(v.total_balance, 0);
    assert_eq!(v.sol_balance, 0);
    assert_eq!(v.last_deposit_ts, 1_700_000_000);
    assert!(v.members.is_empty());
    assert!(v.spl_balances.is_empty());
    assert_eq!(c.next_company_id, 2);
}

#[test]
fn create_vault_rejects_long_name() {
    let mut c = config();
    let r = create_vault(
        &mut c,
        1,
        "n".repeat(33),
        VaultType::Company,
        vec![],
        None,
        AllocationType::AllocationPerBps,
        None,
        None,
        0,
    );
    assert_eq!(r.unwrap_err(), ErrorVault::NameTooLong);
    assert_eq!(c.next_company_id, 1);
}

#[test]
fn create_vault_rejects_long_uri() {
    let mut c = config();
    let r = create_vault(
        &mut c,
        1,
        String::from("v"),
        VaultType::Organization,
        vec![],
        None,
        AllocationType::AllocationPerBps,
        Some("u".repeat(201)),
        None,
        0,
    );
    assert_eq!(r.unwrap_err(), ErrorVault::MetadataUriTooLong);
}

#[test]
fn create_vault_rejects_oversized_whitelist() {
    let mut c = config();
    let assets = vec![
        AssetType::SOL,
        AssetType::SPLToken { mint: 10 },
        AssetType::SPLToken { mint: 11 },
        AssetType::SPLToken { mint: 12 },
    ];
    let r = create_vault(
        &mut c,
        1,
        String::from("v"),
        VaultType::Divisions,
        assets,
        None,
        AllocationType::AllocationPerBps,
        None,
        None,
        0,
    );
    assert_eq!(r.unwrap_err(), ErrorVault::TooManyAssets);
}

#[test]
fn create_vault_rejects_duplicate_whitelist() {
    let mut c = config();
    let r = create_vault(
        &mut c,
        1,
        String::from("v"),
        VaultType::Individuals,
        vec![AssetType::SOL, AssetType::SOL],
        None,
        AllocationType::AllocationPerBps,
        None,
        None,
        0,
    );
    assert_eq!(r.unwrap_err(), ErrorVault::AssetAlreadyWhitelisted);
}

#[test]
fn fourth_asset_is_rejected_and_whitelist_unchanged() {
    let mut c = config();
    let mut v = plain_vault(&mut c);
    v.add_whitelisted_asset(AssetType::SPLToken { mint: 10 }).unwrap();
    v.add_whitelisted_asset(AssetType::SPLToken { mint: 11 }).unwrap();
    let before = v.whitelisted_assets.clone();
    assert_eq!(before.len(), 3);
    let r = v.add_whitelisted_asset(AssetType::SPLToken { mint: 12 });
    assert_eq!(r.unwrap_err(), ErrorVault::TooManyAssets);
    assert_eq!(v.whitelisted_assets, before);
}

#[test]
fn duplicate_asset_is_rejected() {
    let mut c = config();
    let mut v = plain_vault(&mut c);
    let r = v.add_whitelisted_asset(AssetType::SOL);
    assert_eq!(r.unwrap_err(), ErrorVault::AssetAlreadyWhitelisted);
    assert_eq!(v.whitelisted_assets, vec![AssetType::SOL]);
}

#[test]
fn remove_whitelisted_asset_strikes_the_entry() {
    let mut c = config();
    let mut v = plain_vault(&mut c);
    v.add_whitelisted_asset(AssetType::SPLToken { mint: 10 }).unwrap();
    v.remove_whitelisted_asset(AssetType::SOL);
    assert_eq!(v.whitelisted_assets, vec![AssetType::SPLToken { mint: 10 }]);
    // Removing an absent kind changes nothing.
    v.remove_whitelisted_asset(AssetType::SOL);
    assert_eq!(v.whitelisted_assets, vec![AssetType::SPLToken { mint: 10 }]);
}

#[test]
fn schedule_is_replaced_wholesale() {
    let mut c = config();
    let mut v = plain_vault(&mut c);
    let s = PayoutSchedule { interval: 60, next_payout_ts: 100, active: true };
    v.configure_payout_schedule(s);
    assert_eq!(v.payout_schedule, Some(s));
    v.update_payout_schedule(None);
    assert_eq!(v.payout_schedule, None);
    let s2 = PayoutSchedule { interval: 3_600, next_payout_ts: 500, active: false };
    v.update_payout_schedule(Some(s2));
    assert_eq!(v.payout_schedule, Some(s2));
}

#[test]
fn deposit_sol_credits_balance_and_timestamp() {
    let mut c = config();
    let mut v = plain_vault(&mut c);
    v.deposit_sol(1_000, 42).unwrap();
    assert_eq!(v.total_balance, 1_000);
    assert_eq!(v.last_deposit_ts, 42);
    v.deposit_sol(500, 43).unwrap();
    assert_eq!(v.total_balance, 1_500);
    assert_eq!(v.last_deposit_ts, 43);
}

#[test]
fn deposit_sol_requires_whitelisting() {
    let mut c = config();
    let mut v = create_vault(
        &mut c,
        1,
        String::from("tokens-only"),
        VaultType::Company,
        vec![AssetType::SPLToken { mint: 10 }],
        None,
        AllocationType::AllocationPerBps,
        None,
        None,
        0,
    )
    .unwrap();
    let r = v.deposit_sol(1_000, 42);
    assert_eq!(r.unwrap_err(), ErrorVault::AssetNotWhitelisted);
    assert_eq!(v.total_balance, 0);
    assert_eq!(v.last_deposit_ts, 0);
}

#[test]
fn deposit_spl_token_tracks_per_mint_balances() {
    let mut c = config();
    let mut v = create_vault(
        &mut c,
        1,
        String::from("tokens"),
        VaultType::Company,
        vec![AssetType::SPLToken { mint: 10 }, AssetType::SPLToken { mint: 11 }],
        None,
        AllocationType::AllocationPerBps,
        None,
        None,
        0,
    )
    .unwrap();
    v.deposit_spl_token(10, 700, 5).unwrap();
    v.deposit_spl_token(11, 40, 6).unwrap();
    v.deposit_spl_token(10, 300, 7).unwrap();
    assert_eq!(v.spl_balances.len(), 2);
    assert_eq!(v.spl_balances[0].mint, 10);
    assert_eq!(v.spl_balances[0].balance, 1_000);
    assert_eq!(v.spl_balances[1].mint, 11);
    assert_eq!(v.spl_balances[1].balance, 40);
    assert_eq!(v.last_deposit_ts, 7);
    let r = v.deposit_spl_token(12, 1, 8);
    assert_eq!(r.unwrap_err(), ErrorVault::AssetNotWhitelisted);
}
