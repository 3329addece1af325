use vstd::prelude::*;

verus! {

/// Metadata that a registered participant advertises for its node: a display
/// name and a network address.  A descriptor is created at registration,
/// removed at deregistration, and never updated in place.
#[derive(Debug, Clone, PartialEq, Eq)]
pub struct Node {
    pub name: String,
    pub uri: String,
}

/// The provenance of a call into the registry: either the enclosing ledger's
/// privileged administrator, or an ordinary signed account.
#[derive(Debug, Clone, Copy)]
pub enum Origin {
    Root,
    Signed(u64),
}

/// Why a registry operation was refused.  Every error is terminal for the
/// attempted operation and is surfaced verbatim to the caller.
#[derive(Debug, Clone, Copy, PartialEq, Eq)]
pub enum Error {
    /// The caller lacks the authority the operation demands.
    BadOrigin,
    /// The caller already holds a registration.
    NodeAlreadyRegistered,
    /// The participant holds no registration.
    NodeNotRegistered,
    /// The custody-pool transfer was rejected by the balance ledger.
    TransferFailed,
}

/// Why the balance ledger refused to move value.
#[derive(Debug, Clone, Copy, PartialEq, Eq)]
pub enum TransferError {
    /// The source account's spendable balance is below the requested amount.
    InsufficientBalance,
    /// Crediting the destination would overflow its balance.
    Overflow,
}

/// Notifications the registry emits on its append-only event channel.
#[derive(Debug, Clone, PartialEq, Eq)]
pub enum Event {
    DepositAmountSet { deposit_amount: u64 },
    SlashAmountSet { slash_amount: u64 },
    NodeRegistered { account: u64, name: String, uri: String },
    NodeDeregistered { account: u64 },
    NodeRewarded { account: u64, value: u64 },
    /// `value` reports the amount actually deducted, after clamping to the
    /// participant's deposit balance.
    NodeSlashed { account: u64, value: u64 },
}

} // verus!
