use vault::address::Address;
use vault::ledger::Ledger;
use vault::vault::{
    find_custody_address, find_record_address, CloseAccounts, Initialize, Payments, VaultError, VaultState,
};
use vault::{close, deposit, initialize, withraw};

const RECORD_RENT: u64 = 960_480;
const VAULT_RENT: u64 = 890_880;
const START: u64 = 10_000_000;

fn program() -> Address {
    Address::new([7u8; 32])
}

fn owner(b: u8) -> Address {
    Address::new([b; 32])
}

struct Keys {
    signer: Address,
    state: Address,
    state_bump: u8,
    vault: Address,
    vault_bump: u8,
}

fn keys_of(signer: Address) -> Keys {
    let (state, state_bump) = find_record_address(&signer, &program()).expect("record derivation");
    let (vault, vault_bump) = find_custody_address(&state, &program()).expect("custody derivation");
    Keys { signer, state, state_bump, vault, vault_bump }
}

fn init_ctx(k: &Keys) -> Initialize {
    Initialize { signer: k.signer, vault_state: k.state, vault: k.vault }
}

fn pay_ctx(k: &Keys) -> Payments {
    Payments { signer: k.signer, vault_state: k.state, vault: k.vault }
}

fn close_ctx(k: &Keys) -> CloseAccounts {
    CloseAccounts { signer: k.signer, vault_state: k.state, vault: k.vault }
}

fn funded_ledger(owners: &[Address]) -> Ledger {
    let mut ledger = Ledger::new(program());
    for o in owners {
        ledger.fund(o, START).unwrap();
    }
    ledger
}

#[test]
fn derivation_is_deterministic_and_not_the_input() {
    let a = find_record_address(&owner(1), &program()).unwrap();
    let b = find_record_address(&owner(1), &program()).unwrap();
    assert_eq!(a.0.bytes, b.0.bytes);
    assert_eq!(a.1, b.1);
    assert_ne!(a.0.bytes, owner(1).bytes);
    let c = find_custody_address(&a.0, &program()).unwrap();
    assert_ne!(c.0.bytes, a.0.bytes);
}

#[test]
fn distinct_owners_get_distinct_addresses() {
    let k1 = keys_of(owner(1));
    let k2 = keys_of(owner(2));
    assert_ne!(k1.state.bytes, k2.state.bytes);
    assert_ne!(k1.vault.bytes, k2.vault.bytes);
}

#[test]
fn initialize_stores_nonces_and_funds_custody() {
    let k = keys_of(owner(1));
    let mut ledger = funded_ledger(&[k.signer]);
    assert_eq!(initialize(&init_ctx(&k), &mut ledger, RECORD_RENT, VAULT_RENT), Ok(()));
    assert_eq!(ledger.record(&k.state), Some(VaultState { vault_bump: k.vault_bump, state_bump: k.state_bump }));
    assert_eq!(ledger.lamports(&k.vault), VAULT_RENT);
    assert_eq!(ledger.lamports(&k.state), RECORD_RENT);
    assert_eq!(ledger.lamports(&k.signer), START - RECORD_RENT - VAULT_RENT);
}

#[test]
fn second_initialize_fails() {
    let k = keys_of(owner(1));
    let mut ledger = funded_ledger(&[k.signer]);
    assert_eq!(initialize(&init_ctx(&k), &mut ledger, RECORD_RENT, VAULT_RENT), Ok(()));
    assert_eq!(initialize(&init_ctx(&k), &mut ledger, RECORD_RENT, VAULT_RENT), Err(VaultError::AccountInUse));
    assert_eq!(ledger.lamports(&k.signer), START - RECORD_RENT - VAULT_RENT);
    assert_eq!(ledger.lamports(&k.vault), VAULT_RENT);
}

#[test]
fn two_owners_initialize_independently() {
    let k1 = keys_of(owner(1));
    let k2 = keys_of(owner(2));
    let mut ledger = funded_ledger(&[k1.signer, k2.signer]);
    assert_eq!(initialize(&init_ctx(&k1), &mut ledger, RECORD_RENT, VAULT_RENT), Ok(()));
    assert_eq!(initialize(&init_ctx(&k2), &mut ledger, RECORD_RENT, VAULT_RENT), Ok(()));
    assert_eq!(ledger.lamports(&k1.vault), VAULT_RENT);
    assert_eq!(ledger.lamports(&k2.vault), VAULT_RENT);
}

#[test]
fn initialize_with_wrong_record_address_fails() {
    let k1 = keys_of(owner(1));
    let k2 = keys_of(owner(2));
    let mut ledger = funded_ledger(&[k1.signer]);
    let ctx = Initialize { signer: k1.signer, vault_state: k2.state, vault: k1.vault };
    assert_eq!(initialize(&ctx, &mut ledger, RECORD_RENT, VAULT_RENT), Err(VaultError::ConstraintSeeds));
    let ctx = Initialize { signer: k1.signer, vault_state: k1.state, vault: k2.vault };
    assert_eq!(initialize(&ctx, &mut ledger, RECORD_RENT, VAULT_RENT), Err(VaultError::ConstraintSeeds));
    assert_eq!(ledger.lamports(&k1.signer), START);
    assert_eq!(ledger.record(&k1.state), None);
}

#[test]
fn initialize_without_funds_fails_and_changes_nothing() {
    let k = keys_of(owner(1));
    let mut ledger = Ledger::new(program());
    ledger.fund(&k.signer, RECORD_RENT + VAULT_RENT - 1).unwrap();
    assert_eq!(initialize(&init_ctx(&k), &mut ledger, RECORD_RENT, VAULT_RENT), Err(VaultError::InsufficientFunds));
    assert_eq!(ledger.lamports(&k.signer), RECORD_RENT + VAULT_RENT - 1);
    assert_eq!(ledger.lamports(&k.state), 0);
    assert_eq!(ledger.record(&k.state), None);
}

#[test]
fn deposits_and_withdrawals_are_conserved() {
    let k = keys_of(owner(1));
    let mut ledger = funded_ledger(&[k.signer]);
    initialize(&init_ctx(&k), &mut ledger, RECORD_RENT, VAULT_RENT).unwrap();
    deposit(&pay_ctx(&k), &mut ledger, 700).unwrap();
    deposit(&pay_ctx(&k), &mut ledger, 0).unwrap();
    withraw(&pay_ctx(&k), &mut ledger, 250).unwrap();
    deposit(&pay_ctx(&k), &mut ledger, 1_000).unwrap();
    withraw(&pay_ctx(&k), &mut ledger, 450).unwrap();
    assert_eq!(ledger.lamports(&k.vault), VAULT_RENT + 700 + 1_000 - 250 - 450);
    assert_eq!(ledger.lamports(&k.signer), START - RECORD_RENT - VAULT_RENT - 1_000);
}

#[test]
fn deposit_beyond_owner_balance_fails() {
    let k = keys_of(owner(1));
    let mut ledger = funded_ledger(&[k.signer]);
    initialize(&init_ctx(&k), &mut ledger, RECORD_RENT, VAULT_RENT).unwrap();
    let held = ledger.lamports(&k.signer);
    assert_eq!(deposit(&pay_ctx(&k), &mut ledger, held + 1), Err(VaultError::InsufficientFunds));
    assert_eq!(ledger.lamports(&k.signer), held);
    assert_eq!(ledger.lamports(&k.vault), VAULT_RENT);
}

#[test]
fn withdraw_beyond_custody_balance_fails() {
    let k = keys_of(owner(1));
    let mut ledger = funded_ledger(&[k.signer]);
    initialize(&init_ctx(&k), &mut ledger, RECORD_RENT, VAULT_RENT).unwrap();
    assert_eq!(withraw(&pay_ctx(&k), &mut ledger, VAULT_RENT + 1), Err(VaultError::InsufficientFunds));
    assert_eq!(ledger.lamports(&k.vault), VAULT_RENT);
}

#[test]
fn withdraw_may_take_the_minimum_balance() {
    let k = keys_of(owner(1));
    let mut ledger = funded_ledger(&[k.signer]);
    initialize(&init_ctx(&k), &mut ledger, RECORD_RENT, VAULT_RENT).unwrap();
    assert_eq!(withraw(&pay_ctx(&k), &mut ledger, VAULT_RENT), Ok(()));
    assert_eq!(ledger.lamports(&k.vault), 0);
}

#[test]
fn round_trip_returns_the_owner_balance() {
    let k = keys_of(owner(1));
    let mut ledger = funded_ledger(&[k.signer]);
    initialize(&init_ctx(&k), &mut ledger, RECORD_RENT, VAULT_RENT).unwrap();
    deposit(&pay_ctx(&k), &mut ledger, 1_000).unwrap();
    withraw(&pay_ctx(&k), &mut ledger, 1_000).unwrap();
    assert_eq!(close(&close_ctx(&k), &mut ledger), Ok(()));
    assert_eq!(ledger.lamports(&k.signer), START);
    assert_eq!(ledger.lamports(&k.vault), 0);
    assert_eq!(ledger.lamports(&k.state), 0);
    assert_eq!(ledger.record(&k.state), None);
}

#[test]
fn scenario_deposit_withdraw_close() {
    let k = keys_of(owner(0xA));
    let mut ledger = funded_ledger(&[k.signer]);
    initialize(&init_ctx(&k), &mut ledger, RECORD_RENT, VAULT_RENT).unwrap();
    deposit(&pay_ctx(&k), &mut ledger, 5_000).unwrap();
    withraw(&pay_ctx(&k), &mut ledger, 2_000).unwrap();
    assert_eq!(ledger.lamports(&k.vault), VAULT_RENT + 3_000);
    let before = ledger.lamports(&k.signer);
    assert_eq!(close(&close_ctx(&k), &mut ledger), Ok(()));
    assert_eq!(ledger.lamports(&k.signer), before + 3_000 + VAULT_RENT + RECORD_RENT);
    assert_eq!(ledger.lamports(&k.vault), 0);
    assert_eq!(ledger.lamports(&k.state), 0);
    assert_eq!(ledger.record(&k.state), None);
}

#[test]
fn initialize_again_after_close() {
    let k = keys_of(owner(1));
    let mut ledger = funded_ledger(&[k.signer]);
    initialize(&init_ctx(&k), &mut ledger, RECORD_RENT, VAULT_RENT).unwrap();
    close(&close_ctx(&k), &mut ledger).unwrap();
    assert_eq!(initialize(&init_ctx(&k), &mut ledger, RECORD_RENT, VAULT_RENT), Ok(()));
}

#[test]
fn mismatched_accounts_are_rejected() {
    let k1 = keys_of(owner(1));
    let k2 = keys_of(owner(2));
    let mut ledger = funded_ledger(&[k1.signer, k2.signer]);
    initialize(&init_ctx(&k1), &mut ledger, RECORD_RENT, VAULT_RENT).unwrap();
    initialize(&init_ctx(&k2), &mut ledger, RECORD_RENT, VAULT_RENT).unwrap();
    deposit(&pay_ctx(&k1), &mut ledger, 4_000).unwrap();
    let signer_before = ledger.lamports(&k2.signer);
    // Owner 2 presents owner 1's record and custody account.
    let stolen = Payments { signer: k2.signer, vault_state: k1.state, vault: k1.vault };
    assert_eq!(withraw(&stolen, &mut ledger, 4_000), Err(VaultError::ConstraintSeeds));
    let stolen_close = CloseAccounts { signer: k2.signer, vault_state: k1.state, vault: k1.vault };
    assert_eq!(close(&stolen_close, &mut ledger), Err(VaultError::ConstraintSeeds));
    // Owner 2's own record with owner 1's custody account.
    let mixed = Payments { signer: k2.signer, vault_state: k2.state, vault: k1.vault };
    assert_eq!(withraw(&mixed, &mut ledger, 1), Err(VaultError::ConstraintSeeds));
    assert_eq!(ledger.lamports(&k1.vault), VAULT_RENT + 4_000);
    assert_eq!(ledger.lamports(&k2.signer), signer_before);
    assert_eq!(ledger.record(&k1.state), Some(VaultState { vault_bump: k1.vault_bump, state_bump: k1.state_bump }));
}

#[test]
fn operations_without_record_fail() {
    let k = keys_of(owner(3));
    let mut ledger = funded_ledger(&[k.signer]);
    assert_eq!(deposit(&pay_ctx(&k), &mut ledger, 10), Err(VaultError::AccountNotInitialized));
    assert_eq!(withraw(&pay_ctx(&k), &mut ledger, 10), Err(VaultError::AccountNotInitialized));
    assert_eq!(close(&close_ctx(&k), &mut ledger), Err(VaultError::AccountNotInitialized));
    assert_eq!(ledger.lamports(&k.signer), START);
}

#[test]
fn funding_overflow_is_refused() {
    let mut ledger = Ledger::new(program());
    ledger.fund(&owner(1), u64::MAX).unwrap();
    assert_eq!(ledger.fund(&owner(1), 1), Err(VaultError::ArithmeticOverflow));
    assert_eq!(ledger.lamports(&owner(1)), u64::MAX);
}

#[test]
fn address_comparison() {
    assert!(owner(1).same(&owner(1)));
    let mut b = [1u8; 32];
    b[31] = 2;
    assert!(!owner(1).same(&Address::new(b)));
}

#[test]
fn guarded_withdraw_keeps_the_minimum() {
    let k = keys_of(owner(1));
    let mut ledger = funded_ledger(&[k.signer]);
    initialize(&init_ctx(&k), &mut ledger, RECORD_RENT, VAULT_RENT).unwrap();
    deposit(&pay_ctx(&k), &mut ledger, 3_000).unwrap();
    let ctx = pay_ctx(&k);
    assert_eq!(ctx.withdraw_keeping(&mut ledger, 3_001, VAULT_RENT), Err(VaultError::BelowMinimumBalance));
    assert_eq!(ledger.lamports(&k.vault), VAULT_RENT + 3_000);
    assert_eq!(ctx.withdraw_keeping(&mut ledger, VAULT_RENT + 3_001, 0), Err(VaultError::InsufficientFunds));
    assert_eq!(ctx.withdraw_keeping(&mut ledger, 3_000, VAULT_RENT), Ok(()));
    assert_eq!(ledger.lamports(&k.vault), VAULT_RENT);
    assert_eq!(ledger.lamports(&k.signer), START - RECORD_RENT - VAULT_RENT);
}

#[test]
fn guarded_withdraw_checks_the_accounts_first() {
    let k1 = keys_of(owner(1));
    let k2 = keys_of(owner(2));
    let mut ledger = funded_ledger(&[k1.signer]);
    initialize(&init_ctx(&k1), &mut ledger, RECORD_RENT, VAULT_RENT).unwrap();
    let stolen = Payments { signer: k2.signer, vault_state: k1.state, vault: k1.vault };
    assert_eq!(stolen.withdraw_keeping(&mut ledger, 1, 0), Err(VaultError::ConstraintSeeds));
    assert_eq!(ledger.lamports(&k1.vault), VAULT_RENT);
}
