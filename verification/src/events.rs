use vstd::prelude::*;

use crate::account::{AccountId, VaultAddress};

verus! {

/// Published after a successful deposit: who paid in, into which vault, and
/// how much.
#[derive(Clone, PartialEq, Eq, Debug)]
pub struct DepositEvent {
    pub user: AccountId,
    pub vault: VaultAddress,
    pub amount: u64,
}

/// Published after a successful withdrawal: how much left which vault, to its
/// authority.
#[derive(Clone, PartialEq, Eq, Debug)]
pub struct WithdrawEvent {
    pub amount: u64,
    pub vault_authority: AccountId,
    pub vault: VaultAddress,
}

/// Published after a successful lock toggle, carrying the new lock state.
#[derive(Clone, PartialEq, Eq, Debug)]
pub struct ToggleLockEvent {
    pub vault: VaultAddress,
    pub vault_authority: AccountId,
    pub locked: bool,
}

/// Any notification record the protocol can publish.
#[derive(Clone, PartialEq, Eq, Debug)]
pub enum VaultEvent {
    Deposit(DepositEvent),
    Withdraw(WithdrawEvent),
    ToggleLock(ToggleLockEvent),
}

/// The event emitter's interface: an append-only record of published events.
/// Nothing is ever rewritten or removed; each publication adds exactly one
/// entry at the end.
pub struct EventLog {
    pub entries: Vec<VaultEvent>,
}

impl EventLog {
    /// An emitter that has published nothing yet.
    pub fn new() -> (log: EventLog)
        ensures
            log.entries@ == Seq::<VaultEvent>::empty(),
    {
        EventLog { entries: Vec::new() }
    }

    /// Publish one event: the log grows by that entry and keeps everything
    /// already published, in order.
    pub fn publish(&mut self, event: VaultEvent)
        ensures
            final(self).entries@ == old(self).entries@.push(event),
    {
        self.entries.push(event);
    }
}

} // verus!
