use on_chain_vault::account::{AccountId, VaultAddress};
use on_chain_vault::address::derive_vault_address;
use on_chain_vault::events::VaultEvent;
use on_chain_vault::guard::{verify, Authorization};
use on_chain_vault::events::EventLog;
use on_chain_vault::service::{deposit, toggle_lock, withdraw, Deposit, ToggleLock, Withdraw};
use on_chain_vault::vault::{Vault, VaultError};

fn acct(id: u64) -> AccountId {
    AccountId { id }
}

fn addr_for(authority: AccountId) -> VaultAddress {
    derive_vault_address(authority).expect("the derivation finds an address")
}

#[test]
fn new_vault_is_empty_and_unlocked() {
    let vault = Vault::new(acct(9));
    assert_eq!(vault.authority, acct(9));
    assert_eq!(vault.balance, 0);
    assert!(!vault.locked);
}

#[test]
fn guard_accepts_only_the_required_identity() {
    assert_eq!(verify(acct(4), acct(4)), Authorization::Authorized);
    assert_eq!(verify(acct(4), acct(5)), Authorization::Unauthorized);
}

#[test]
fn deposit_moves_value_and_reports_it() {
    let authority = acct(1);
    let depositor = acct(2);
    let vault_address = addr_for(authority);
    let mut ctx = Deposit {
        signer: depositor,
        signer_balance: 500,
        vault: Vault::new(authority),
        vault_address: vault_address.clone(),
    };
    let event = deposit(&mut ctx, 120).expect("an unlocked, funded deposit succeeds");
    assert_eq!(ctx.vault.balance, 120);
    assert_eq!(ctx.signer_balance, 380);
    assert_eq!(ctx.vault.authority, authority);
    assert!(!ctx.vault.locked);
    assert_eq!(event.user, depositor);
    assert_eq!(event.vault, vault_address);
    assert_eq!(event.amount, 120);
}

#[test]
fn deposit_of_zero_is_refused() {
    let mut ctx = Deposit {
        signer: acct(2),
        signer_balance: 500,
        vault: Vault::new(acct(1)),
        vault_address: addr_for(acct(1)),
    };
    let r = deposit(&mut ctx, 0);
    assert!(matches!(r, Err(VaultError::InvalidAmount)));
    assert_eq!(ctx.vault.balance, 0);
    assert_eq!(ctx.signer_balance, 500);
}

#[test]
fn deposit_beyond_the_callers_funds_is_refused() {
    let mut ctx = Deposit {
        signer: acct(2),
        signer_balance: 99,
        vault: Vault::new(acct(1)),
        vault_address: addr_for(acct(1)),
    };
    let r = deposit(&mut ctx, 100);
    assert!(matches!(r, Err(VaultError::InsufficientCallerBalance)));
    assert_eq!(ctx.vault.balance, 0);
    assert_eq!(ctx.signer_balance, 99);
}

#[test]
fn deposit_that_would_overflow_is_refused() {
    let mut vault = Vault::new(acct(1));
    vault.balance = u64::MAX - 5;
    let mut ctx = Deposit {
        signer: acct(2),
        signer_balance: u64::MAX,
        vault,
        vault_address: addr_for(acct(1)),
    };
    let r = deposit(&mut ctx, 6);
    assert!(matches!(r, Err(VaultError::Overflow)));
    assert_eq!(ctx.vault.balance, u64::MAX - 5);
    assert_eq!(ctx.signer_balance, u64::MAX);
    let filled = deposit(&mut ctx, 5).expect("filling exactly to the maximum succeeds");
    assert_eq!(ctx.vault.balance, u64::MAX);
    assert_eq!(filled.amount, 5);
}

#[test]
fn withdraw_moves_value_back_to_the_authority() {
    let authority = acct(1);
    let vault_address = addr_for(authority);
    let mut vault = Vault::new(authority);
    vault.balance = 300;
    let mut ctx = Withdraw {
        signer: authority,
        signer_balance: 40,
        vault,
        vault_address: vault_address.clone(),
    };
    let event = withdraw(&mut ctx, 260).expect("an authorized withdrawal succeeds");
    assert_eq!(ctx.vault.balance, 40);
    assert_eq!(ctx.signer_balance, 300);
    assert_eq!(event.vault_authority, authority);
    assert_eq!(event.vault, vault_address);
    assert_eq!(event.amount, 260);
}

#[test]
fn withdraw_of_the_full_balance_empties_the_vault() {
    let authority = acct(1);
    let mut vault = Vault::new(authority);
    vault.balance = 77;
    let mut ctx = Withdraw {
        signer: authority,
        signer_balance: 0,
        vault,
        vault_address: addr_for(authority),
    };
    withdraw(&mut ctx, 77).expect("withdrawing everything succeeds");
    assert_eq!(ctx.vault.balance, 0);
    assert_eq!(ctx.signer_balance, 77);
}

#[test]
fn withdraw_by_anyone_else_is_unauthorized() {
    let authority = acct(1);
    let outsider = acct(8);
    let mut vault = Vault::new(authority);
    vault.balance = 300;
    let mut ctx = Withdraw {
        signer: outsider,
        signer_balance: 0,
        vault,
        vault_address: addr_for(authority),
    };
    let r = withdraw(&mut ctx, 10);
    assert!(matches!(r, Err(VaultError::Unauthorized)));
    assert_eq!(ctx.vault.balance, 300);
    assert_eq!(ctx.signer_balance, 0);
}

#[test]
fn withdraw_of_zero_is_refused() {
    let authority = acct(1);
    let mut vault = Vault::new(authority);
    vault.balance = 300;
    let mut ctx = Withdraw {
        signer: authority,
        signer_balance: 0,
        vault,
        vault_address: addr_for(authority),
    };
    let r = withdraw(&mut ctx, 0);
    assert!(matches!(r, Err(VaultError::InvalidAmount)));
    assert_eq!(ctx.vault.balance, 300);
}

#[test]
fn withdraw_beyond_the_vaults_funds_is_refused() {
    let authority = acct(1);
    let mut vault = Vault::new(authority);
    vault.balance = 50;
    let mut ctx = Withdraw {
        signer: authority,
        signer_balance: 0,
        vault,
        vault_address: addr_for(authority),
    };
    let r = withdraw(&mut ctx, 51);
    assert!(matches!(r, Err(VaultError::InsufficientVaultBalance)));
    assert_eq!(ctx.vault.balance, 50);
    assert_eq!(ctx.signer_balance, 0);
}

#[test]
fn withdraw_that_would_overflow_the_authority_is_refused() {
    let authority = acct(1);
    let mut vault = Vault::new(authority);
    vault.balance = 50;
    let mut ctx = Withdraw {
        signer: authority,
        signer_balance: u64::MAX - 10,
        vault,
        vault_address: addr_for(authority),
    };
    let r = withdraw(&mut ctx, 11);
    assert!(matches!(r, Err(VaultError::Overflow)));
    assert_eq!(ctx.vault.balance, 50);
    assert_eq!(ctx.signer_balance, u64::MAX - 10);
}

#[test]
fn locked_vault_refuses_deposits_and_withdrawals() {
    let authority = acct(1);
    let mut vault = Vault::new(authority);
    vault.balance = 200;
    vault.locked = true;
    let mut dep = Deposit {
        signer: acct(2),
        signer_balance: 1000,
        vault,
        vault_address: addr_for(authority),
    };
    assert!(matches!(deposit(&mut dep, 10), Err(VaultError::VaultLocked)));
    assert_eq!(dep.vault.balance, 200);
    let mut wd = Withdraw {
        signer: authority,
        signer_balance: 0,
        vault,
        vault_address: addr_for(authority),
    };
    assert!(matches!(withdraw(&mut wd, 10), Err(VaultError::VaultLocked)));
    assert_eq!(wd.vault.balance, 200);
}

#[test]
fn toggle_lock_flips_and_flips_back() {
    let authority = acct(1);
    let vault_address = addr_for(authority);
    let mut ctx = ToggleLock {
        signer: authority,
        vault: Vault::new(authority),
        vault_address: vault_address.clone(),
    };
    let event = toggle_lock(&mut ctx).expect("the authority may toggle");
    assert!(ctx.vault.locked);
    assert!(event.locked);
    assert_eq!(event.vault_authority, authority);
    assert_eq!(event.vault, vault_address);
    let event = toggle_lock(&mut ctx).expect("the authority may toggle again");
    assert!(!ctx.vault.locked);
    assert!(!event.locked);
    assert_eq!(ctx.vault, Vault::new(authority));
}

#[test]
fn toggle_lock_by_anyone_else_is_unauthorized() {
    let authority = acct(1);
    let mut ctx = ToggleLock {
        signer: acct(2),
        vault: Vault::new(authority),
        vault_address: addr_for(authority),
    };
    let r = toggle_lock(&mut ctx);
    assert!(matches!(r, Err(VaultError::Unauthorized)));
    assert!(!ctx.vault.locked);
}

#[test]
fn event_log_keeps_everything_in_order() {
    let mut log = EventLog::new();
    assert_eq!(log.entries.len(), 0);
    let authority = acct(1);
    let mut ctx = ToggleLock {
        signer: authority,
        vault: Vault::new(authority),
        vault_address: addr_for(authority),
    };
    let first = toggle_lock(&mut ctx).expect("toggle on");
    log.publish(VaultEvent::ToggleLock(first.clone()));
    let second = toggle_lock(&mut ctx).expect("toggle off");
    log.publish(VaultEvent::ToggleLock(second.clone()));
    assert_eq!(log.entries.len(), 2);
    assert_eq!(log.entries[0], VaultEvent::ToggleLock(first));
    assert_eq!(log.entries[1], VaultEvent::ToggleLock(second));
}

#[test]
fn scenario_deposit_withdraw_lock_and_refusals() {
    let authority = acct(10);
    let depositor = acct(20);
    let outsider = acct(30);
    let vault_address = addr_for(authority);
    let mut log = EventLog::new();

    // Create the vault on first use: balance 0, unlocked.
    let vault = Vault::new(authority);

    // Deposit 100 by the depositor.
    let mut dep = Deposit {
        signer: depositor,
        signer_balance: 100,
        vault,
        vault_address: vault_address.clone(),
    };
    let event = deposit(&mut dep, 100).expect("deposit of 100");
    assert_eq!(dep.vault.balance, 100);
    assert_eq!(dep.signer_balance, 0);
    assert_eq!(event.user, depositor);
    assert_eq!(event.vault, vault_address);
    assert_eq!(event.amount, 100);
    log.publish(VaultEvent::Deposit(event));

    // Withdraw 40 by the authority.
    let mut wd = Withdraw {
        signer: authority,
        signer_balance: 0,
        vault: dep.vault,
        vault_address: vault_address.clone(),
    };
    let event = withdraw(&mut wd, 40).expect("withdrawal of 40");
    assert_eq!(wd.vault.balance, 60);
    assert_eq!(wd.signer_balance, 40);
    assert_eq!(event.vault_authority, authority);
    assert_eq!(event.vault, vault_address);
    assert_eq!(event.amount, 40);
    log.publish(VaultEvent::Withdraw(event));

    // The authority locks the vault.
    let mut tg = ToggleLock {
        signer: authority,
        vault: wd.vault,
        vault_address: vault_address.clone(),
    };
    let event = toggle_lock(&mut tg).expect("toggle to locked");
    assert!(tg.vault.locked);
    log.publish(VaultEvent::ToggleLock(event));

    // A deposit of 10 now fails and moves nothing.
    let mut dep = Deposit {
        signer: depositor,
        signer_balance: 50,
        vault: tg.vault,
        vault_address: vault_address.clone(),
    };
    assert!(matches!(deposit(&mut dep, 10), Err(VaultError::VaultLocked)));
    assert_eq!(dep.vault.balance, 60);
    assert_eq!(dep.signer_balance, 50);

    // A withdrawal of 60 by an outsider fails and moves nothing.
    let mut wd = Withdraw {
        signer: outsider,
        signer_balance: 0,
        vault: dep.vault,
        vault_address: vault_address.clone(),
    };
    assert!(matches!(withdraw(&mut wd, 60), Err(VaultError::Unauthorized)));
    assert_eq!(wd.vault.balance, 60);

    assert_eq!(log.entries.len(), 3);
}
