use vstd::prelude::*;

use crate::account::AccountId;

verus! {

/// One variant for each way a vault request can be refused. Every check runs
/// before any mutation, so a failed request leaves all state as it was.
#[derive(Clone, Copy, PartialEq, Eq, Structural, Debug)]
pub enum VaultError {
    /// The signer is not the identity that the requested mutation demands.
    Unauthorized,
    /// A deposit or withdrawal was attempted while the vault was locked.
    VaultLocked,
    /// A withdrawal asked for more than the vault holds.
    InsufficientVaultBalance,
    /// A deposit asked for more than the depositor holds.
    InsufficientCallerBalance,
    /// The update would push a balance past the representable maximum.
    Overflow,
    /// The requested amount is zero.
    InvalidAmount,
}

/// The per-owner custodial record: who may withdraw, whether deposits and
/// withdrawals are currently blocked, and how much value is held.
#[derive(Clone, Copy, PartialEq, Eq, Structural, Debug)]
pub struct Vault {
    /// The identity permitted to withdraw and to toggle the lock. Set once at
    /// creation and immutable thereafter.
    pub authority: AccountId,
    /// While true, deposits and withdrawals are refused; toggling the lock
    /// itself stays allowed.
    pub locked: bool,
    /// Value held by the vault, in native currency units.
    pub balance: u64,
}

impl Vault {
    /// A fresh vault: empty and unlocked. This is the state a vault is
    /// created in on its owner's first deposit.
    pub fn new(authority: AccountId) -> (v: Vault)
        ensures
            v == (Vault { authority, locked: false, balance: 0u64 }),
    {
        Vault { authority, locked: false, balance: 0 }
    }
}

} // verus!
