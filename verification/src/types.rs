//! The records the engine works on.

use vstd::prelude::*;

verus! {

/// Who a party is: the 32-byte key of an account or of a contract, held as
/// two words. Two principals are the same party exactly when all fields agree.
#[derive(Clone, Copy, Debug, PartialEq, Eq, Structural)]
pub struct Principal {
    /// Whether the key names a contract rather than an account.
    pub contract: bool,
    /// The first sixteen bytes of the key, big-endian.
    pub high: u128,
    /// The last sixteen bytes of the key, big-endian.
    pub low: u128,
}

/// The settings the engine is set up with, once.
#[derive(Clone, Copy, Debug, PartialEq, Eq, Structural)]
pub struct StreamSettings {
    /// The party that may set fees and administer the engine.
    pub admin: Principal,
    /// The base fee, kept with the settings. Creating a stream charges the
    /// fee set for the asset, and nothing where none is set.
    pub base_fee: i128,
}

/// One stream: a deposit that unlocks to the recipient linearly between
/// `start_time` and `stop_time`, with nothing claimable before `cliff_time`.
#[derive(Clone, Copy, Debug, PartialEq, Eq, Structural)]
pub struct DirectStreamData {
    pub id: u32,
    pub sender: Principal,
    pub recipient: Principal,
    pub start_time: u64,
    pub cliff_time: u64,
    pub stop_time: u64,
    /// The amount locked at creation.
    pub deposit: i128,
    /// What has been paid out to the recipient so far.
    pub withdrawn: i128,
    /// What has been returned to the sender so far.
    pub refunded: i128,
    pub is_cancellable: bool,
    pub is_cancelled: bool,
    pub is_depleted: bool,
    pub token_address: Principal,
}

/// The lifecycle status of a stream at some time. It is always derived from
/// the record and the time, never stored.
#[derive(Clone, Copy, Debug, PartialEq, Eq, Structural)]
pub enum Status {
    /// Created, not started yet.
    Pending,
    /// Started and still unlocking.
    Active,
    /// Fully unlocked.
    Completed,
    /// Cancelled and settled.
    Cancelled,
    /// Started, but the cliff has not been reached.
    Cliff,
    /// Fully settled; nothing is left in the stream.
    Depleted,
}

/// Why an operation was refused. Every refusal leaves all records as they were.
#[derive(Clone, Copy, Debug, PartialEq, Eq, Structural)]
pub enum StreamError {
    AlreadyInitialized,
    NotInitialized,
    StreamNotFound,
    /// The caller, or the named recipient, is not the party the stream requires.
    Unauthorized,
    /// The amount is zero or negative.
    InvalidAmount,
    /// The start, cliff and stop times are not in order, or the start is past.
    InvalidTimeOrdering,
    /// More was requested than has streamed so far.
    ExceedsEntitlement,
    /// The payout would go to the engine's own custody address.
    SelfTransferRejected,
    /// The asset's ledger refused a transfer.
    TransferFailed,
}

impl DirectStreamData {
    /// What holds of every stream record: the times are in order, the deposit
    /// is positive, and nothing paid out or returned is negative.
    pub open spec fn wf(&self) -> bool {
        &&& self.start_time <= self.cliff_time < self.stop_time
        &&& self.deposit > 0
        &&& self.withdrawn >= 0
        &&& self.refunded >= 0
    }

    /// Tests whether the record is well formed.
    pub fn is_wf(&self) -> (ok: bool)
        ensures
            ok == self.wf(),
    {
        self.start_time <= self.cliff_time && self.cliff_time < self.stop_time && self.deposit > 0
            && self.withdrawn >= 0 && self.refunded >= 0
    }

    /// What has left the stream, to either party, does not exceed the deposit.
    pub open spec fn within_deposit(&self) -> bool {
        self.withdrawn + self.refunded <= self.deposit
    }

    /// Whether `who` is one of the two parties of the stream.
    pub open spec fn is_party(&self, who: Principal) -> bool {
        who == self.sender || who == self.recipient
    }
}

} // verus!
