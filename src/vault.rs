//! A custody vault: metadata (authority, lock flag) kept apart from the ledger
//! balances that deposit and withdraw move.

use crate::address::{derivation_view, derived, is_derived, seeds_view, Address, Namespace};
use vstd::prelude::*;

verus! {

/// The vault record: who may withdraw, and whether funds are frozen.
#[derive(Clone, Copy, Debug)]
pub struct Vault {
    pub vault_authority: Address,
    pub locked: bool,
}

/// A ledger entry: the balance, in lamports, held at an address.
#[derive(Clone, Copy, Debug)]
pub struct LedgerAccount {
    pub key: Address,
    pub lamports: u64,
}

/// The accounts of a deposit: the paying user, the vault's ledger entry and its
/// record, and the program that owns the vault.
#[derive(Clone, Copy, Debug)]
pub struct Deposit {
    pub user: LedgerAccount,
    pub user_signed: bool,
    pub vault: LedgerAccount,
    pub vault_state: Vault,
    pub program_id: Address,
}

/// The accounts of a withdrawal: the vault's authority, who receives the funds,
/// the vault's ledger entry and its record, and the program that owns the vault.
#[derive(Clone, Copy, Debug)]
pub struct Withdraw {
    pub vault_authority: LedgerAccount,
    pub authority_signed: bool,
    pub vault: LedgerAccount,
    pub vault_state: Vault,
    pub program_id: Address,
}

/// Emitted after a deposit.
#[derive(Clone, Copy, Debug)]
pub struct DepositEvent {
    pub user: Address,
    pub vault: Address,
    pub amount: u64,
}

/// Emitted after a withdrawal.
#[derive(Clone, Copy, Debug)]
pub struct WithdrawEvent {
    pub vault_authority: Address,
    pub vault: Address,
    pub amount: u64,
}

#[derive(Clone, Copy, Debug, PartialEq, Eq, Structural)]
pub enum VaultError {
    /// The required signature is missing, or the signer is not the vault's authority.
    Unauthorized,
    /// The vault's ledger address is not the one derived from its authority.
    AddressMismatch,
    VaultLocked,
    InsufficientBalance,
    /// A balance would leave the range of `u64`.
    Overflow,
}

/// The seeds that follow the `vault` tag: the authority's key.
pub open spec fn vault_components(authority: Address) -> Seq<Seq<u8>> {
    seq![authority@]
}

/// Whether `vault` is the ledger address of the vault bound to `authority`.
pub open spec fn is_vault_address(authority: Address, program_id: Address, vault: Address) -> bool {
    is_derived(Namespace::Vault, vault_components(authority), program_id@, vault@)
}

/// The ledger address and bump seed of the vault bound to `authority`.
pub fn vault_address(authority: &Address, program_id: &Address) -> (r: Option<(Address, u8)>)
    ensures
        derivation_view(r) == derived(Namespace::Vault, vault_components(*authority), program_id@),
{
    let components: Vec<Vec<u8>> = vec![authority.to_vec()];
    assert(seeds_view(components@) =~= vault_components(*authority));
    crate::address::derive(Namespace::Vault, &components, program_id)
}

fn check_vault_address(authority: &Address, program_id: &Address, vault: &Address) -> (r: bool)
    ensures
        r == is_vault_address(*authority, *program_id, *vault),
{
    match vault_address(authority, program_id) {
        Some((a, _)) => a == *vault,
        None => false,
    }
}

/// Why a deposit of `amount` with the accounts `ctx` is refused, checked in this
/// order; `None` when it goes through.
pub open spec fn deposit_error(ctx: Deposit, amount: u64) -> Option<VaultError> {
    if !ctx.user_signed {
        Some(VaultError::Unauthorized)
    } else if !is_vault_address(ctx.vault_state.vault_authority, ctx.program_id, ctx.vault.key) {
        Some(VaultError::AddressMismatch)
    } else if ctx.vault_state.locked {
        Some(VaultError::VaultLocked)
    } else if ctx.user.lamports < amount {
        Some(VaultError::InsufficientBalance)
    } else if ctx.vault.lamports + amount > u64::MAX {
        Some(VaultError::Overflow)
    } else {
        None
    }
}

/// The accounts after `amount` moved from the user to the vault.
pub open spec fn deposited(ctx: Deposit, amount: u64) -> Deposit {
    Deposit {
        user: LedgerAccount { lamports: (ctx.user.lamports - amount) as u64, ..ctx.user },
        vault: LedgerAccount { lamports: (ctx.vault.lamports + amount) as u64, ..ctx.vault },
        ..ctx
    }
}

/// Moves `amount` lamports from the user to the vault, all or nothing.
pub fn deposit(ctx: &mut Deposit, amount: u64) -> (r: Result<DepositEvent, VaultError>)
    ensures
        match r {
            Ok(event) => {
                &&& deposit_error(*old(ctx), amount) is None
                &&& *final(ctx) == deposited(*old(ctx), amount)
                &&& event == (DepositEvent { user: old(ctx).user.key, vault: old(ctx).vault.key, amount })
            },
            Err(e) => deposit_error(*old(ctx), amount) == Some(e) && *final(ctx) == *old(ctx),
        },
{
    if !ctx.user_signed {
        return Err(VaultError::Unauthorized);
    }
    if !check_vault_address(&ctx.vault_state.vault_authority, &ctx.program_id, &ctx.vault.key) {
        return Err(VaultError::AddressMismatch);
    }
    if ctx.vault_state.locked {
        return Err(VaultError::VaultLocked);
    }
    if ctx.user.lamports < amount {
        return Err(VaultError::InsufficientBalance);
    }
    let vault_lamports = match ctx.vault.lamports.checked_add(amount) {
        Some(v) => v,
        None => return Err(VaultError::Overflow),
    };
    ctx.user.lamports = ctx.user.lamports - amount;
    ctx.vault.lamports = vault_lamports;
    Ok(DepositEvent { user: ctx.user.key, vault: ctx.vault.key, amount })
}

/// Why a withdrawal of `amount` with the accounts `ctx` is refused, checked in
/// this order; `None` when it goes through.
pub open spec fn withdraw_error(ctx: Withdraw, amount: u64) -> Option<VaultError> {
    if !ctx.authority_signed || ctx.vault_state.vault_authority@ != ctx.vault_authority.key@ {
        Some(VaultError::Unauthorized)
    } else if !is_vault_address(ctx.vault_authority.key, ctx.program_id, ctx.vault.key) {
        Some(VaultError::AddressMismatch)
    } else if ctx.vault_state.locked {
        Some(VaultError::VaultLocked)
    } else if ctx.vault.lamports < amount {
        Some(VaultError::InsufficientBalance)
    } else if ctx.vault_authority.lamports + amount > u64::MAX {
        Some(VaultError::Overflow)
    } else {
        None
    }
}

/// The accounts after `amount` moved from the vault to its authority.
pub open spec fn withdrawn(ctx: Withdraw, amount: u64) -> Withdraw {
    Withdraw {
        vault: LedgerAccount { lamports: (ctx.vault.lamports - amount) as u64, ..ctx.vault },
        vault_authority: LedgerAccount {
            lamports: (ctx.vault_authority.lamports + amount) as u64,
            ..ctx.vault_authority
        },
        ..ctx
    }
}

/// Moves `amount` lamports from the vault to its authority, all or nothing.
pub fn withdraw(ctx: &mut Withdraw, amount: u64) -> (r: Result<WithdrawEvent, VaultError>)
    ensures
        match r {
            Ok(event) => {
                &&& withdraw_error(*old(ctx), amount) is None
                &&& *final(ctx) == withdrawn(*old(ctx), amount)
                &&& event == (WithdrawEvent {
                    vault_authority: old(ctx).vault_authority.key,
                    vault: old(ctx).vault.key,
                    amount,
                })
            },
            Err(e) => withdraw_error(*old(ctx), amount) == Some(e) && *final(ctx) == *old(ctx),
        },
        old(ctx).vault_state.locked && old(ctx).authority_signed
            && old(ctx).vault_state.vault_authority@ == old(ctx).vault_authority.key@
            && is_vault_address(old(ctx).vault_authority.key, old(ctx).program_id, old(ctx).vault.key)
            ==> r == Err::<WithdrawEvent, VaultError>(VaultError::VaultLocked),
{
    if !ctx.authority_signed || ctx.vault_state.vault_authority != ctx.vault_authority.key {
        return Err(VaultError::Unauthorized);
    }
    if !check_vault_address(&ctx.vault_authority.key, &ctx.program_id, &ctx.vault.key) {
        return Err(VaultError::AddressMismatch);
    }
    if ctx.vault_state.locked {
        return Err(VaultError::VaultLocked);
    }
    if ctx.vault.lamports < amount {
        return Err(VaultError::InsufficientBalance);
    }
    let authority_lamports = match ctx.vault_authority.lamports.checked_add(amount) {
        Some(v) => v,
        None => return Err(VaultError::Overflow),
    };
    ctx.vault.lamports = ctx.vault.lamports - amount;
    ctx.vault_authority.lamports = authority_lamports;
    Ok(WithdrawEvent { vault_authority: ctx.vault_authority.key, vault: ctx.vault.key, amount })
}

/// A signed withdrawal by a locked vault's own authority, from the vault's derived
/// address, is refused as `VaultLocked` whatever the balances and the amount;
/// `withdraw` then leaves every account as it was.
pub proof fn lemma_locked_vault_refuses_withdraw(ctx: Withdraw, amount: u64)
    requires
        ctx.vault_state.locked,
        ctx.authority_signed,
        ctx.vault_state.vault_authority@ == ctx.vault_authority.key@,
        is_vault_address(ctx.vault_authority.key, ctx.program_id, ctx.vault.key),
    ensures
        withdraw_error(ctx, amount) == Some(VaultError::VaultLocked),
{
}

/// A deposit by the vault's authority followed by the authority's withdrawal of
/// the same amount from the same unlocked vault succeeds and leaves the vault's
/// and the authority's balances as they were before the deposit.
pub proof fn lemma_deposit_withdraw_round_trip(d: Deposit, amount: u64, w: Withdraw)
    requires
        deposit_error(d, amount) is None,
        d.vault_state.vault_authority@ == d.user.key@,
        w.vault == deposited(d, amount).vault,
        w.vault_authority == deposited(d, amount).user,
        w.vault_state == d.vault_state,
        w.program_id == d.program_id,
        w.authority_signed,
    ensures
        withdraw_error(w, amount) is None,
        withdrawn(w, amount).vault == d.vault,
        withdrawn(w, amount).vault_authority == d.user,
{
}

} // verus!
