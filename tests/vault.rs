use ledger_log::{deposit, vault_address, withdraw, Address, Deposit, LedgerAccount, Vault, VaultError, Withdraw};

fn program() -> Address {
    Address::new([7u8; 32])
}

fn authority_x() -> Address {
    Address::new([10u8; 32])
}

fn user_u() -> Address {
    Address::new([11u8; 32])
}

fn vault_key() -> Address {
    vault_address(&authority_x(), &program()).unwrap().0
}

fn deposit_ctx(user: Address, user_lamports: u64, vault_lamports: u64, locked: bool) -> Deposit {
    Deposit {
        user: LedgerAccount { key: user, lamports: user_lamports },
        user_signed: true,
        vault: LedgerAccount { key: vault_key(), lamports: vault_lamports },
        vault_state: Vault { vault_authority: authority_x(), locked },
        program_id: program(),
    }
}

fn withdraw_ctx(authority_lamports: u64, vault_lamports: u64, locked: bool) -> Withdraw {
    Withdraw {
        vault_authority: LedgerAccount { key: authority_x(), lamports: authority_lamports },
        authority_signed: true,
        vault: LedgerAccount { key: vault_key(), lamports: vault_lamports },
        vault_state: Vault { vault_authority: authority_x(), locked },
        program_id: program(),
    }
}

#[test]
fn deposit_and_withdraw_scenario() {
    let mut d = deposit_ctx(user_u(), 1000, 0, false);
    let event = deposit(&mut d, 100).unwrap();
    assert_eq!(d.vault.lamports, 100);
    assert_eq!(d.user.lamports, 900);
    assert_eq!(event.user, user_u());
    assert_eq!(event.vault, vault_key());
    assert_eq!(event.amount, 100);

    let mut w = withdraw_ctx(50, d.vault.lamports, false);
    assert_eq!(withdraw(&mut w, 150).unwrap_err(), VaultError::InsufficientBalance);
    assert_eq!(w.vault.lamports, 100);
    assert_eq!(w.vault_authority.lamports, 50);

    let event = withdraw(&mut w, 100).unwrap();
    assert_eq!(w.vault.lamports, 0);
    assert_eq!(w.vault_authority.lamports, 150);
    assert_eq!(event.vault_authority, authority_x());
    assert_eq!(event.vault, vault_key());
    assert_eq!(event.amount, 100);
}

#[test]
fn locked_vault_refuses_withdraw_whatever_the_balance() {
    for balance in [0u64, 5, 100, u64::MAX] {
        let mut w = withdraw_ctx(7, balance, true);
        assert_eq!(withdraw(&mut w, 5).unwrap_err(), VaultError::VaultLocked);
        assert_eq!(w.vault.lamports, balance);
        assert_eq!(w.vault_authority.lamports, 7);
    }
}

#[test]
fn locked_empty_vault_reports_locked() {
    let mut w = withdraw_ctx(0, 0, true);
    assert_eq!(withdraw(&mut w, 1).unwrap_err(), VaultError::VaultLocked);
}

#[test]
fn locked_vault_refuses_deposit() {
    let mut d = deposit_ctx(user_u(), 1000, 0, true);
    assert_eq!(deposit(&mut d, 10).unwrap_err(), VaultError::VaultLocked);
    assert_eq!(d.user.lamports, 1000);
    assert_eq!(d.vault.lamports, 0);
}

#[test]
fn deposit_beyond_the_user_balance_is_refused() {
    let mut d = deposit_ctx(user_u(), 99, 0, false);
    assert_eq!(deposit(&mut d, 100).unwrap_err(), VaultError::InsufficientBalance);
    assert_eq!(d.user.lamports, 99);
    assert!(deposit(&mut d, 99).is_ok());
    assert_eq!(d.user.lamports, 0);
    assert_eq!(d.vault.lamports, 99);
}

#[test]
fn deposit_that_overflows_the_vault_is_refused() {
    let mut d = deposit_ctx(user_u(), 10, u64::MAX - 5, false);
    assert_eq!(deposit(&mut d, 6).unwrap_err(), VaultError::Overflow);
    assert_eq!(d.vault.lamports, u64::MAX - 5);
    assert_eq!(d.user.lamports, 10);
}

#[test]
fn withdraw_that_overflows_the_authority_is_refused() {
    let mut w = withdraw_ctx(u64::MAX, 10, false);
    assert_eq!(withdraw(&mut w, 1).unwrap_err(), VaultError::Overflow);
    assert_eq!(w.vault.lamports, 10);
    assert_eq!(w.vault_authority.lamports, u64::MAX);
}

#[test]
fn deposit_then_withdraw_restores_balances() {
    let mut d = deposit_ctx(authority_x(), 500, 20, false);
    deposit(&mut d, 123).unwrap();
    let mut w = withdraw_ctx(d.user.lamports, d.vault.lamports, false);
    withdraw(&mut w, 123).unwrap();
    assert_eq!(w.vault_authority.lamports, 500);
    assert_eq!(w.vault.lamports, 20);
}

#[test]
fn withdraw_by_another_signer_is_refused() {
    let mut w = withdraw_ctx(0, 100, false);
    w.vault_authority.key = user_u();
    assert_eq!(withdraw(&mut w, 10).unwrap_err(), VaultError::Unauthorized);
    let mut w = withdraw_ctx(0, 100, false);
    w.authority_signed = false;
    assert_eq!(withdraw(&mut w, 10).unwrap_err(), VaultError::Unauthorized);
    assert_eq!(w.vault.lamports, 100);
}

#[test]
fn unsigned_deposit_is_refused() {
    let mut d = deposit_ctx(user_u(), 100, 0, false);
    d.user_signed = false;
    assert_eq!(deposit(&mut d, 10).unwrap_err(), VaultError::Unauthorized);
}

#[test]
fn vault_at_a_foreign_address_is_refused() {
    let mut d = deposit_ctx(user_u(), 100, 0, false);
    d.vault.key = user_u();
    assert_eq!(deposit(&mut d, 10).unwrap_err(), VaultError::AddressMismatch);
    let mut w = withdraw_ctx(0, 100, false);
    w.vault.key = vault_address(&user_u(), &program()).unwrap().0;
    assert_eq!(withdraw(&mut w, 10).unwrap_err(), VaultError::AddressMismatch);
    assert_eq!(w.vault.lamports, 100);
}
