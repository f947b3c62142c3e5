use vstd::prelude::*;

use crate::account::{AccountId, VaultAddress};
use crate::events::{DepositEvent, ToggleLockEvent, WithdrawEvent};
use crate::guard::{verify, Authorization};
use crate::vault::{Vault, VaultError};

verus! {

// Each handler takes an explicit request object carrying the caller's
// verified identity, the target vault, the vault's derived address, and the
// caller's spendable external balance where the operation moves value. A
// request either fully succeeds -- every balance change and the lock flip
// become visible together and an event is returned for publication -- or
// fails with one typed error and changes nothing.

/// A deposit request. The signer is the depositor: the execution environment
/// has already checked that the depositor signed this request, so no further
/// identity is demanded (anyone may pay into any unlocked vault).
pub struct Deposit {
    /// The verified signer of the request: the depositor.
    pub signer: AccountId,
    /// The depositor's spendable external balance.
    pub signer_balance: u64,
    /// The vault being paid into.
    pub vault: Vault,
    /// The vault's derived address, echoed in the emitted event.
    pub vault_address: VaultAddress,
}

/// A withdrawal request. It succeeds only when the signer is the vault's
/// stored authority.
pub struct Withdraw {
    /// The verified signer of the request.
    pub signer: AccountId,
    /// The signer's external balance, credited by a successful withdrawal.
    pub signer_balance: u64,
    /// The vault being drawn from.
    pub vault: Vault,
    /// The vault's derived address, echoed in the emitted event.
    pub vault_address: VaultAddress,
}

/// A lock-toggle request. It succeeds only when the signer is the vault's
/// stored authority.
pub struct ToggleLock {
    /// The verified signer of the request.
    pub signer: AccountId,
    /// The vault whose lock is being flipped.
    pub vault: Vault,
    /// The vault's derived address, echoed in the emitted event.
    pub vault_address: VaultAddress,
}

/// When a deposit of `amount` goes through against vault `v` by a depositor
/// holding `signer_balance`.
pub open spec fn deposit_allowed(v: Vault, signer_balance: u64, amount: u64) -> bool {
    &&& !v.locked
    &&& amount > 0
    &&& signer_balance >= amount
    &&& v.balance + amount <= u64::MAX
}

/// The error a refused deposit reports. Checks run in a fixed order: the
/// lock first, then the amount's domain, then the depositor's funds, then
/// the vault's headroom.
pub open spec fn deposit_error(v: Vault, signer_balance: u64, amount: u64) -> VaultError {
    if v.locked {
        VaultError::VaultLocked
    } else if amount == 0 {
        VaultError::InvalidAmount
    } else if signer_balance < amount {
        VaultError::InsufficientCallerBalance
    } else {
        VaultError::Overflow
    }
}

/// The vault state a successful deposit leaves behind: only the balance
/// moves, by exactly the deposited amount.
pub open spec fn deposit_transition(v: Vault, amount: u64) -> Vault
    recommends
        v.balance + amount <= u64::MAX,
{
    Vault { authority: v.authority, locked: v.locked, balance: (v.balance + amount) as u64 }
}

/// Deposit `amount` into the vault. On success the vault's balance grows by
/// `amount`, the depositor's external balance shrinks by the same `amount`,
/// and the returned event records the depositor, the vault's address and the
/// amount. On failure nothing changes.
pub fn deposit(ctx: &mut Deposit, amount: u64) -> (r: Result<DepositEvent, VaultError>)
    ensures
        r is Ok <==> deposit_allowed(old(ctx).vault, old(ctx).signer_balance, amount),
        r matches Ok(event) ==> ({
            &&& final(ctx).vault == deposit_transition(old(ctx).vault, amount)
            &&& final(ctx).signer_balance == old(ctx).signer_balance - amount
            &&& final(ctx).signer == old(ctx).signer
            &&& final(ctx).vault_address == old(ctx).vault_address
            &&& event.user == old(ctx).signer
            &&& event.vault@ == old(ctx).vault_address@
            &&& event.amount == amount
        }),
        r matches Err(e) ==> ({
            &&& e == deposit_error(old(ctx).vault, old(ctx).signer_balance, amount)
            &&& *final(ctx) == *old(ctx)
        }),
{
    if ctx.vault.locked {
        return Err(VaultError::VaultLocked);
    }
    if amount == 0 {
        return Err(VaultError::InvalidAmount);
    }
    if ctx.signer_balance < amount {
        return Err(VaultError::InsufficientCallerBalance);
    }
    let new_balance = match ctx.vault.balance.checked_add(amount) {
        Some(b) => b,
        None => {
            return Err(VaultError::Overflow);
        },
    };
    ctx.signer_balance = ctx.signer_balance - amount;
    ctx.vault.balance = new_balance;
    Ok(DepositEvent { user: ctx.signer, vault: ctx.vault_address.clone(), amount })
}

/// When a withdrawal of `amount` goes through against vault `v`, requested
/// by `signer` whose external balance is `signer_balance`.
pub open spec fn withdraw_allowed(
    v: Vault,
    signer: AccountId,
    signer_balance: u64,
    amount: u64,
) -> bool {
    &&& signer == v.authority
    &&& !v.locked
    &&& amount > 0
    &&& amount <= v.balance
    &&& signer_balance + amount <= u64::MAX
}

/// The error a refused withdrawal reports. Authorization is checked before
/// anything else, then the lock, then the amount's domain, then the vault's
/// funds, then the headroom of the authority's external balance.
pub open spec fn withdraw_error(
    v: Vault,
    signer: AccountId,
    signer_balance: u64,
    amount: u64,
) -> VaultError {
    if signer != v.authority {
        VaultError::Unauthorized
    } else if v.locked {
        VaultError::VaultLocked
    } else if amount == 0 {
        VaultError::InvalidAmount
    } else if amount > v.balance {
        VaultError::InsufficientVaultBalance
    } else {
        VaultError::Overflow
    }
}

/// The vault state a successful withdrawal leaves behind: only the balance
/// moves, down by exactly the withdrawn amount.
pub open spec fn withdraw_transition(v: Vault, amount: u64) -> Vault
    recommends
        amount <= v.balance,
{
    Vault { authority: v.authority, locked: v.locked, balance: (v.balance - amount) as u64 }
}

/// Withdraw `amount` from the vault to its authority. On success the vault's
/// balance shrinks by `amount`, the authority's external balance grows by the
/// same `amount`, and the returned event records the authority, the vault's
/// address and the amount. On failure -- any signer other than the stored
/// authority, a locked vault, a zero amount, or insufficient funds -- nothing
/// changes.
pub fn withdraw(ctx: &mut Withdraw, amount: u64) -> (r: Result<WithdrawEvent, VaultError>)
    ensures
        r is Ok <==> withdraw_allowed(
            old(ctx).vault,
            old(ctx).signer,
            old(ctx).signer_balance,
            amount,
        ),
        r matches Ok(event) ==> ({
            &&& final(ctx).vault == withdraw_transition(old(ctx).vault, amount)
            &&& final(ctx).signer_balance == old(ctx).signer_balance + amount
            &&& final(ctx).signer == old(ctx).signer
            &&& final(ctx).vault_address == old(ctx).vault_address
            &&& event.vault_authority == old(ctx).signer
            &&& event.vault@ == old(ctx).vault_address@
            &&& event.amount == amount
        }),
        r matches Err(e) ==> ({
            &&& e == withdraw_error(old(ctx).vault, old(ctx).signer, old(ctx).signer_balance, amount)
            &&& *final(ctx) == *old(ctx)
        }),
{
    match verify(ctx.signer, ctx.vault.authority) {
        Authorization::Authorized => {},
        Authorization::Unauthorized => {
            return Err(VaultError::Unauthorized);
        },
    }
    if ctx.vault.locked {
        return Err(VaultError::VaultLocked);
    }
    if amount == 0 {
        return Err(VaultError::InvalidAmount);
    }
    if amount > ctx.vault.balance {
        return Err(VaultError::InsufficientVaultBalance);
    }
    let new_signer_balance = match ctx.signer_balance.checked_add(amount) {
        Some(b) => b,
        None => {
            return Err(VaultError::Overflow);
        },
    };
    ctx.vault.balance = ctx.vault.balance - amount;
    ctx.signer_balance = new_signer_balance;
    Ok(WithdrawEvent { amount, vault_authority: ctx.signer, vault: ctx.vault_address.clone() })
}

/// The vault state a lock toggle leaves behind: the flag flips, nothing else
/// moves.
pub open spec fn toggle_lock_transition(v: Vault) -> Vault {
    Vault { authority: v.authority, locked: !v.locked, balance: v.balance }
}

/// Flip the vault's lock. Only the stored authority may do so; any other
/// signer is refused and nothing changes. The returned event records the
/// vault's address, its authority and the new lock state.
pub fn toggle_lock(ctx: &mut ToggleLock) -> (r: Result<ToggleLockEvent, VaultError>)
    ensures
        r is Ok <==> old(ctx).signer == old(ctx).vault.authority,
        r matches Ok(event) ==> ({
            &&& final(ctx).vault == toggle_lock_transition(old(ctx).vault)
            &&& final(ctx).signer == old(ctx).signer
            &&& final(ctx).vault_address == old(ctx).vault_address
            &&& event.vault@ == old(ctx).vault_address@
            &&& event.vault_authority == old(ctx).signer
            &&& event.locked == !old(ctx).vault.locked
        }),
        r is Err ==> r == Err::<ToggleLockEvent, VaultError>(VaultError::Unauthorized)
            && *final(ctx) == *old(ctx),
{
    match verify(ctx.signer, ctx.vault.authority) {
        Authorization::Authorized => {},
        Authorization::Unauthorized => {
            return Err(VaultError::Unauthorized);
        },
    }
    ctx.vault.locked = !ctx.vault.locked;
    Ok(ToggleLockEvent {
        vault: ctx.vault_address.clone(),
        vault_authority: ctx.signer,
        locked: ctx.vault.locked,
    })
}

/// Law: toggling the lock twice returns a vault to exactly its original
/// state; a toggle pair is the identity on the vault.
pub proof fn lemma_toggle_lock_twice(v: Vault)
    ensures
        toggle_lock_transition(toggle_lock_transition(v)) == v,
{
}

/// Law: a withdrawal signed by anyone but the stored authority is refused as
/// `Unauthorized`, whatever the amount and whatever the vault's state.
pub proof fn lemma_withdraw_unauthorized(
    v: Vault,
    signer: AccountId,
    signer_balance: u64,
    amount: u64,
)
    requires
        signer != v.authority,
    ensures
        !withdraw_allowed(v, signer, signer_balance, amount),
        withdraw_error(v, signer, signer_balance, amount) == VaultError::Unauthorized,
{
}

/// Law: while a vault is locked, every deposit, and every withdrawal by the
/// authority itself, is refused as `VaultLocked`, whatever the amount.
pub proof fn lemma_locked_refuses(v: Vault, signer_balance: u64, amount: u64)
    requires
        v.locked,
    ensures
        !deposit_allowed(v, signer_balance, amount),
        deposit_error(v, signer_balance, amount) == VaultError::VaultLocked,
        !withdraw_allowed(v, v.authority, signer_balance, amount),
        withdraw_error(v, v.authority, signer_balance, amount) == VaultError::VaultLocked,
{
}

/// Law: an authorized withdrawal from an unlocked vault that asks for more
/// than the vault holds is refused as `InsufficientVaultBalance`.
pub proof fn lemma_withdraw_insufficient(v: Vault, signer_balance: u64, amount: u64)
    requires
        !v.locked,
        amount > 0,
        amount > v.balance,
    ensures
        !withdraw_allowed(v, v.authority, signer_balance, amount),
        withdraw_error(v, v.authority, signer_balance, amount)
            == VaultError::InsufficientVaultBalance,
{
}

/// Law: a deposit that would push the vault's balance past the representable
/// maximum is refused as `Overflow`.
pub proof fn lemma_deposit_overflow(v: Vault, signer_balance: u64, amount: u64)
    requires
        !v.locked,
        amount > 0,
        signer_balance >= amount,
        v.balance + amount > u64::MAX,
    ensures
        !deposit_allowed(v, signer_balance, amount),
        deposit_error(v, signer_balance, amount) == VaultError::Overflow,
{
}

} // verus!
