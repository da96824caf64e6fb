//! Shared ledger-facing primitives: principal identities, the error taxonomy,
//! transfer instructions, and the monotonic identifier source that both
//! engines draw record ids from.

use vstd::prelude::*;

verus! {

/// A principal on the ledger: a party to an escrow or order, an asset
/// contract, or an engine's own custody identity. Identities are opaque to
/// the engines; only equality matters.
#[derive(Clone, Copy, Debug, PartialEq, Eq, Structural)]
pub struct Address {
    pub id: u64,
}

/// Why an entrypoint rejected a call. Every failure aborts the whole call
/// with no state change; the contracts say exactly which inputs yield which
/// variant.
#[derive(Clone, Copy, Debug, PartialEq, Eq, Structural)]
pub enum Error {
    /// No record is stored under the given id.
    NotFound,
    /// The authenticated caller does not hold the role the operation demands.
    Unauthorized,
    /// The record has already reached a terminal state.
    AlreadyFinalized,
    /// An order's unlock time must lie strictly in the future at creation.
    InvalidUnlockTime,
    /// A claim was attempted before the order's unlock time.
    FundsLocked,
    /// A cancellation was attempted at or after the order's unlock time.
    WindowClosed,
}

/// An instruction to the value-transfer collaborator: move `amount` of
/// `token` from `from` to `to`. The engines only emit these; performing them
/// is the host's job, after the state change has been persisted.
#[derive(Clone, Copy, Debug, PartialEq, Eq, Structural)]
pub struct Transfer {
    pub token: Address,
    pub from: Address,
    pub to: Address,
    pub amount: i128,
}

/// The injected identifier source: hands out strictly increasing `u64`
/// values, so every id it ever returns is fresh. Both engines may share one
/// sequencer; their record stores are disjoint keyspaces, so even a value
/// reused across engines names distinct records.
pub struct Sequencer {
    next: u64,
}

impl Sequencer {
    /// The value the next call of `next_id` will return.
    pub closed spec fn spec_next(&self) -> u64 {
        self.next
    }

    pub fn new(start: u64) -> (s: Sequencer)
        ensures
            s.spec_next() == start,
    {
        Sequencer { next: start }
    }

    /// Returns the current value and advances, so no value is returned twice.
    pub fn next_id(&mut self) -> (id: u64)
        requires
            old(self).spec_next() < u64::MAX,
        ensures
            id == old(self).spec_next(),
            final(self).spec_next() == old(self).spec_next() + 1,
    {
        let id = self.next;
        self.next = self.next + 1;
        id
    }
}

} // verus!
