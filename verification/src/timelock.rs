//! The time-lock engine: one creator's deposit per order, claimable by the
//! beneficiary once the unlock time has arrived, cancellable by the creator
//! strictly before it; a single flag marks either terminal outcome.

use vstd::prelude::*;

use crate::ledger::Address;
use crate::ledger::Error;
use crate::ledger::Sequencer;
use crate::ledger::Transfer;

use std::collections::HashMap;

verus! {

broadcast use vstd::std_specs::hash::group_hash_axioms;

/// The storage keyspace of the time-lock engine: orders are keyed by their
/// id, disjoint from every other record kind's keyspace.
#[derive(Clone, Copy, Debug, PartialEq, Eq, Structural)]
pub enum DataKey {
    Order(u64),
}

/// One time-locked order. `amount` of `token` was deposited by `creator` at
/// creation; `unlock_time` never changes; `claimed` marks either terminal
/// outcome, a beneficiary's claim as well as a creator's cancellation.
#[derive(Clone, Copy, Debug, PartialEq, Eq, Structural)]
pub struct TimeLockOrder {
    pub creator: Address,
    pub beneficiary: Address,
    pub amount: i128,
    pub token: Address,
    pub unlock_time: u64,
    pub claimed: bool,
}

/// The time-lock engine: its custody identity and its record store.
pub struct TimeLockContract {
    custody: Address,
    store: HashMap<u64, TimeLockOrder>,
}

/// The order a creation with these arguments stores: the arguments
/// themselves, not yet claimed.
pub open spec fn new_order(
    creator: Address,
    beneficiary: Address,
    amount: i128,
    token: Address,
    unlock_time: u64,
) -> TimeLockOrder {
    TimeLockOrder { creator, beneficiary, amount, token, unlock_time, claimed: false }
}

/// An order is claimable exactly when it is not yet finalized and the unlock
/// time has arrived.
pub open spec fn order_claimable(o: TimeLockOrder, now: u64) -> bool {
    !o.claimed && now >= o.unlock_time
}

/// What creating an order does to a record store, and what it returns: the
/// authorization proof must name the creator, whose deposit the engine
/// takes, and the unlock time must lie strictly after `now`; on success the
/// new order is stored under `id` and the deposit instruction is returned
/// beside the id.
pub open spec fn spec_create_order(
    records: Map<u64, TimeLockOrder>,
    custody: Address,
    id: u64,
    caller: Address,
    creator: Address,
    beneficiary: Address,
    amount: i128,
    token: Address,
    unlock_time: u64,
    now: u64,
) -> (Map<u64, TimeLockOrder>, Result<(u64, Transfer), Error>) {
    if caller != creator {
        (records, Err(Error::Unauthorized))
    } else if unlock_time <= now {
        (records, Err(Error::InvalidUnlockTime))
    } else {
        (
            records.insert(id, new_order(creator, beneficiary, amount, token, unlock_time)),
            Ok((id, Transfer { token, from: creator, to: custody, amount })),
        )
    }
}

/// What claiming an order does to a record store, and what it returns: the
/// order must exist, the caller must be its beneficiary, the unlock time
/// must have arrived — checked before the terminal flag — and the order
/// must not be finalized; then the order is marked claimed and the deposit
/// is paid out to the beneficiary.
pub open spec fn spec_claim(
    records: Map<u64, TimeLockOrder>,
    custody: Address,
    caller: Address,
    id: u64,
    now: u64,
) -> (Map<u64, TimeLockOrder>, Result<Transfer, Error>) {
    if !records.contains_key(id) {
        (records, Err(Error::NotFound))
    } else {
        let o = records[id];
        if caller != o.beneficiary {
            (records, Err(Error::Unauthorized))
        } else if now < o.unlock_time {
            (records, Err(Error::FundsLocked))
        } else if o.claimed {
            (records, Err(Error::AlreadyFinalized))
        } else {
            (
                records.insert(id, TimeLockOrder { claimed: true, ..o }),
                Ok(Transfer { token: o.token, from: custody, to: o.beneficiary, amount: o.amount }),
            )
        }
    }
}

/// What cancelling an order does to a record store, and what it returns:
/// the order must exist, the caller must be its creator, the order must not
/// be finalized — checked before the timing guard — and `now` must lie
/// strictly before the unlock time; then the order is marked claimed and
/// the deposit goes back to the creator.
pub open spec fn spec_cancel(
    records: Map<u64, TimeLockOrder>,
    custody: Address,
    caller: Address,
    id: u64,
    now: u64,
) -> (Map<u64, TimeLockOrder>, Result<Transfer, Error>) {
    if !records.contains_key(id) {
        (records, Err(Error::NotFound))
    } else {
        let o = records[id];
        if caller != o.creator {
            (records, Err(Error::Unauthorized))
        } else if o.claimed {
            (records, Err(Error::AlreadyFinalized))
        } else if now >= o.unlock_time {
            (records, Err(Error::WindowClosed))
        } else {
            (
                records.insert(id, TimeLockOrder { claimed: true, ..o }),
                Ok(Transfer { token: o.token, from: custody, to: o.creator, amount: o.amount }),
            )
        }
    }
}

impl TimeLockContract {
    /// The stored orders, as a map from id to order.
    pub closed spec fn records(&self) -> Map<u64, TimeLockOrder> {
        self.store@
    }

    /// The engine's own custody identity: deposits flow to it, payouts from it.
    pub closed spec fn custody(&self) -> Address {
        self.custody
    }

    /// A fresh engine holding no orders, custodying value under `custody`.
    pub fn new(custody: Address) -> (c: TimeLockContract)
        ensures
            c.records() == Map::<u64, TimeLockOrder>::empty(),
            c.custody() == custody,
    {
        TimeLockContract { custody, store: HashMap::new() }
    }

    /// The stored order under `order_id`, if any.
    fn lookup(&self, order_id: u64) -> (r: Option<TimeLockOrder>)
        ensures
            r == if self.records().contains_key(order_id) {
                Some(self.records()[order_id])
            } else {
                None::<TimeLockOrder>
            },
    {
        match self.store.get(&order_id) {
            Some(o) => Some(*o),
            None => None,
        }
    }

    /// Creates an order holding `creator`'s deposit of `amount` of `token`,
    /// claimable by `beneficiary` from `unlock_time` on. `caller` is the one
    /// principal the call context authenticated; it must be the creator,
    /// whose funds are taken; `unlock_time` must lie strictly after `now`.
    /// On success the order is stored under a fresh id from `seq`, and the
    /// id is returned beside the instruction that moves the deposit from the
    /// creator into custody. A rejected call consumes no id.
    pub fn create_order(
        &mut self,
        seq: &mut Sequencer,
        caller: Address,
        creator: Address,
        beneficiary: Address,
        amount: i128,
        token: Address,
        unlock_time: u64,
        now: u64,
    ) -> (r: Result<(u64, Transfer), Error>)
        requires
            old(seq).spec_next() < u64::MAX,
        ensures
            final(self).custody() == old(self).custody(),
            final(self).records() == spec_create_order(
                old(self).records(),
                old(self).custody(),
                old(seq).spec_next(),
                caller,
                creator,
                beneficiary,
                amount,
                token,
                unlock_time,
                now,
            ).0,
            r == spec_create_order(
                old(self).records(),
                old(self).custody(),
                old(seq).spec_next(),
                caller,
                creator,
                beneficiary,
                amount,
                token,
                unlock_time,
                now,
            ).1,
            r is Ok ==> final(seq).spec_next() == old(seq).spec_next() + 1,
            r is Err ==> final(seq).spec_next() == old(seq).spec_next(),
    {
        if caller != creator {
            return Err(Error::Unauthorized);
        }
        if unlock_time <= now {
            return Err(Error::InvalidUnlockTime);
        }
        let order_id = seq.next_id();
        let order = TimeLockOrder {
            creator,
            beneficiary,
            amount,
            token,
            unlock_time,
            claimed: false,
        };
        self.store.insert(order_id, order);
        Ok((order_id, Transfer { token, from: creator, to: self.custody, amount }))
    }

    /// Claims the deposit for the beneficiary. `caller` must be the order's
    /// beneficiary, `now` must have reached the unlock time, and the order
    /// must not be terminal; the order is marked claimed and the payout
    /// instruction is returned. Every failure leaves the store unchanged.
    pub fn claim(&mut self, caller: Address, order_id: u64, now: u64) -> (r: Result<
        Transfer,
        Error,
    >)
        ensures
            final(self).custody() == old(self).custody(),
            final(self).records() == spec_claim(
                old(self).records(),
                old(self).custody(),
                caller,
                order_id,
                now,
            ).0,
            r == spec_claim(old(self).records(), old(self).custody(), caller, order_id, now).1,
    {
        match self.lookup(order_id) {
            None => Err(Error::NotFound),
            Some(o) => {
                if caller != o.beneficiary {
                    Err(Error::Unauthorized)
                } else if now < o.unlock_time {
                    Err(Error::FundsLocked)
                } else if o.claimed {
                    Err(Error::AlreadyFinalized)
                } else {
                    self.store.insert(order_id, TimeLockOrder { claimed: true, ..o });
                    Ok(Transfer {
                        token: o.token,
                        from: self.custody,
                        to: o.beneficiary,
                        amount: o.amount,
                    })
                }
            },
        }
    }

    /// Cancels the order for the creator, strictly before the unlock time.
    /// `caller` must be the order's creator and the order must not be
    /// terminal; the order is marked claimed — the one flag covers both
    /// outcomes — and the refund instruction is returned. Every failure
    /// leaves the store unchanged.
    pub fn cancel(&mut self, caller: Address, order_id: u64, now: u64) -> (r: Result<
        Transfer,
        Error,
    >)
        ensures
            final(self).custody() == old(self).custody(),
            final(self).records() == spec_cancel(
                old(self).records(),
                old(self).custody(),
                caller,
                order_id,
                now,
            ).0,
            r == spec_cancel(old(self).records(), old(self).custody(), caller, order_id, now).1,
    {
        match self.lookup(order_id) {
            None => Err(Error::NotFound),
            Some(o) => {
                if caller != o.creator {
                    Err(Error::Unauthorized)
                } else if o.claimed {
                    Err(Error::AlreadyFinalized)
                } else if now >= o.unlock_time {
                    Err(Error::WindowClosed)
                } else {
                    self.store.insert(order_id, TimeLockOrder { claimed: true, ..o });
                    Ok(Transfer {
                        token: o.token,
                        from: self.custody,
                        to: o.creator,
                        amount: o.amount,
                    })
                }
            },
        }
    }

    /// Returns the stored order, or `NotFound`. Order state is public: no
    /// authorization is required to read it.
    pub fn get_order(&self, order_id: u64) -> (r: Result<TimeLockOrder, Error>)
        ensures
            r == if self.records().contains_key(order_id) {
                Ok::<TimeLockOrder, Error>(self.records()[order_id])
            } else {
                Err::<TimeLockOrder, Error>(Error::NotFound)
            },
    {
        match self.lookup(order_id) {
            Some(o) => Ok(o),
            None => Err(Error::NotFound),
        }
    }

    /// Whether the order could be claimed now: it exists, is not finalized,
    /// and the unlock time has arrived. Read-only, with no side effects.
    pub fn is_claimable(&self, order_id: u64, now: u64) -> (r: Result<bool, Error>)
        ensures
            r == if self.records().contains_key(order_id) {
                Ok::<bool, Error>(order_claimable(self.records()[order_id], now))
            } else {
                Err::<bool, Error>(Error::NotFound)
            },
    {
        match self.lookup(order_id) {
            Some(o) => Ok(!o.claimed && now >= o.unlock_time),
            None => Err(Error::NotFound),
        }
    }
}

/// A valid creation, looked up under the id it returns, yields an order
/// whose fields are exactly the creation arguments and which is not yet
/// finalized.
pub proof fn lemma_create_order_then_get(
    records: Map<u64, TimeLockOrder>,
    custody: Address,
    id: u64,
    caller: Address,
    creator: Address,
    beneficiary: Address,
    amount: i128,
    token: Address,
    unlock_time: u64,
    now: u64,
)
    requires
        caller == creator,
        unlock_time > now,
    ensures
        spec_create_order(
            records,
            custody,
            id,
            caller,
            creator,
            beneficiary,
            amount,
            token,
            unlock_time,
            now,
        ).1 == Ok::<(u64, Transfer), Error>(
            (id, Transfer { token, from: creator, to: custody, amount }),
        ),
        spec_create_order(
            records,
            custody,
            id,
            caller,
            creator,
            beneficiary,
            amount,
            token,
            unlock_time,
            now,
        ).0.contains_key(id),
        spec_create_order(
            records,
            custody,
            id,
            caller,
            creator,
            beneficiary,
            amount,
            token,
            unlock_time,
            now,
        ).0[id] == new_order(creator, beneficiary, amount, token, unlock_time),
        !new_order(creator, beneficiary, amount, token, unlock_time).claimed,
{
}

/// The timing guards: a claim before the unlock time fails with
/// `FundsLocked`, and a cancel at or after the unlock time of an order not
/// yet finalized fails with `WindowClosed`; either way the store — and so
/// the order — is left exactly as it was. (A cancel of an already finalized
/// order is rejected as `AlreadyFinalized` instead, whatever the time.)
pub proof fn lemma_timing_guards(
    records: Map<u64, TimeLockOrder>,
    custody: Address,
    caller: Address,
    id: u64,
    now: u64,
)
    requires
        records.contains_key(id),
    ensures
        caller == records[id].beneficiary && now < records[id].unlock_time ==> spec_claim(
            records,
            custody,
            caller,
            id,
            now,
        ) == (records, Err::<Transfer, Error>(Error::FundsLocked)),
        caller == records[id].creator && !records[id].claimed && now >= records[id].unlock_time
            ==> spec_cancel(records, custody, caller, id, now) == (
            records,
            Err::<Transfer, Error>(Error::WindowClosed),
        ),
{
}

/// For every stored order, `is_claimable` answers exactly whether the
/// beneficiary's own claim would succeed at the same time.
pub proof fn lemma_claimable_iff_claim_succeeds(
    records: Map<u64, TimeLockOrder>,
    custody: Address,
    id: u64,
    now: u64,
)
    requires
        records.contains_key(id),
    ensures
        order_claimable(records[id], now) <==> spec_claim(
            records,
            custody,
            records[id].beneficiary,
            id,
            now,
        ).1 is Ok,
{
}

/// The two transition guards are complementary: for a stored order, at any
/// one time at most one of a beneficiary's claim and a creator's cancel can
/// succeed.
pub proof fn lemma_claim_cancel_exclusive(
    records: Map<u64, TimeLockOrder>,
    custody: Address,
    id: u64,
    now: u64,
)
    requires
        records.contains_key(id),
    ensures
        !(spec_claim(records, custody, records[id].beneficiary, id, now).1 is Ok && spec_cancel(
            records,
            custody,
            records[id].creator,
            id,
            now,
        ).1 is Ok),
{
}

/// Once a claim or a cancel has succeeded, the order is terminal: a later
/// claim with the unlock time reached fails with `AlreadyFinalized`, as
/// does any later cancel by the creator, and the store is left unchanged.
pub proof fn lemma_finalized_order_is_terminal(
    records: Map<u64, TimeLockOrder>,
    custody: Address,
    first: Address,
    id: u64,
    now: u64,
    later_now: u64,
)
    requires
        spec_claim(records, custody, first, id, now).1 is Ok || spec_cancel(
            records,
            custody,
            first,
            id,
            now,
        ).1 is Ok,
    ensures
        ({
            let after = if spec_claim(records, custody, first, id, now).1 is Ok {
                spec_claim(records, custody, first, id, now).0
            } else {
                spec_cancel(records, custody, first, id, now).0
            };
            &&& after[id].claimed
            &&& later_now >= after[id].unlock_time ==> spec_claim(
                after,
                custody,
                after[id].beneficiary,
                id,
                later_now,
            ).1 == Err::<Transfer, Error>(Error::AlreadyFinalized)
            &&& spec_cancel(after, custody, after[id].creator, id, later_now).1 == Err::<
                Transfer,
                Error,
            >(Error::AlreadyFinalized)
            &&& spec_claim(after, custody, after[id].beneficiary, id, later_now).0 == after
            &&& spec_cancel(after, custody, after[id].creator, id, later_now).0 == after
        }),
{
}

/// A caller who is not the principal the operation demands is rejected with
/// `Unauthorized`, and the record store is left exactly as it was: creation
/// demands the creator's own authorization, claim the beneficiary's, cancel
/// the creator's.
pub proof fn lemma_timelock_unauthorized_rejected(
    records: Map<u64, TimeLockOrder>,
    custody: Address,
    caller: Address,
    id: u64,
    creator: Address,
    beneficiary: Address,
    amount: i128,
    token: Address,
    unlock_time: u64,
    now: u64,
)
    ensures
        caller != creator ==> spec_create_order(
            records,
            custody,
            id,
            caller,
            creator,
            beneficiary,
            amount,
            token,
            unlock_time,
            now,
        ) == (records, Err::<(u64, Transfer), Error>(Error::Unauthorized)),
        records.contains_key(id) && caller != records[id].beneficiary ==> spec_claim(
            records,
            custody,
            caller,
            id,
            now,
        ) == (records, Err::<Transfer, Error>(Error::Unauthorized)),
        records.contains_key(id) && caller != records[id].creator ==> spec_cancel(
            records,
            custody,
            caller,
            id,
            now,
        ) == (records, Err::<Transfer, Error>(Error::Unauthorized)),
{
}

/// A successful claim or cancel changes only the `claimed` flag: the
/// parties, the amount, the token and above all the unlock time are fixed
/// at creation and never change.
pub proof fn lemma_finalize_preserves_fields(
    records: Map<u64, TimeLockOrder>,
    custody: Address,
    caller: Address,
    id: u64,
    now: u64,
)
    requires
        records.contains_key(id),
    ensures
        ({
            let after_claim = spec_claim(records, custody, caller, id, now).0;
            let after_cancel = spec_cancel(records, custody, caller, id, now).0;
            &&& after_claim[id].creator == records[id].creator
            &&& after_claim[id].beneficiary == records[id].beneficiary
            &&& after_claim[id].amount == records[id].amount
            &&& after_claim[id].token == records[id].token
            &&& after_claim[id].unlock_time == records[id].unlock_time
            &&& after_cancel[id].creator == records[id].creator
            &&& after_cancel[id].beneficiary == records[id].beneficiary
            &&& after_cancel[id].amount == records[id].amount
            &&& after_cancel[id].token == records[id].token
            &&& after_cancel[id].unlock_time == records[id].unlock_time
        }),
{
}

/// Ids already stored all lie below the sequencer's next value.
pub open spec fn order_ids_below(records: Map<u64, TimeLockOrder>, next: u64) -> bool {
    forall|id: u64| #[trigger] records.contains_key(id) ==> id < next
}

/// A strictly increasing id source never hands creation an id that is
/// already stored: a new order never overwrites an existing record, and the
/// bound is kept for the next creation.
pub proof fn lemma_fresh_id_never_overwrites(
    records: Map<u64, TimeLockOrder>,
    custody: Address,
    next: u64,
    caller: Address,
    creator: Address,
    beneficiary: Address,
    amount: i128,
    token: Address,
    unlock_time: u64,
    now: u64,
)
    requires
        order_ids_below(records, next),
        next < u64::MAX,
    ensures
        !records.contains_key(next),
        order_ids_below(
            spec_create_order(
                records,
                custody,
                next,
                caller,
                creator,
                beneficiary,
                amount,
                token,
                unlock_time,
                now,
            ).0,
            (next + 1) as u64,
        ),
{
}

} // verus!
