//! The escrow engine: one buyer's deposit per record, released to the seller
//! or refunded to the buyer, gated by role checks, with the two terminal
//! outcomes mutually exclusive.

use vstd::prelude::*;

use crate::ledger::Address;
use crate::ledger::Error;
use crate::ledger::Sequencer;
use crate::ledger::Transfer;

use std::collections::HashMap;

verus! {

broadcast use vstd::std_specs::hash::group_hash_axioms;

/// The storage keyspace of the escrow engine: escrow records are keyed by
/// their id, disjoint from every other record kind's keyspace.
#[derive(Clone, Copy, Debug, PartialEq, Eq, Structural)]
pub enum DataKey {
    Escrow(u64),
}

/// One escrow record. `amount` of `token` was deposited by `buyer` at
/// creation; at most one of `released` and `refunded` ever becomes true, and
/// once one is true the record is terminal.
#[derive(Clone, Copy, Debug, PartialEq, Eq, Structural)]
pub struct EscrowData {
    pub buyer: Address,
    pub seller: Address,
    pub arbiter: Address,
    pub amount: i128,
    pub token: Address,
    pub released: bool,
    pub refunded: bool,
}

/// The escrow engine: its custody identity and its record store.
pub struct EscrowContract {
    custody: Address,
    store: HashMap<u64, EscrowData>,
}

/// The record a creation with these arguments stores: the arguments
/// themselves, with both terminal flags false.
pub open spec fn new_escrow(
    buyer: Address,
    seller: Address,
    arbiter: Address,
    amount: i128,
    token: Address,
) -> EscrowData {
    EscrowData { buyer, seller, arbiter, amount, token, released: false, refunded: false }
}

/// A record is terminal once either outcome has fired.
pub open spec fn escrow_finalized(e: EscrowData) -> bool {
    e.released || e.refunded
}

/// Only the buyer or the arbiter may force release to the seller.
pub open spec fn may_release(e: EscrowData, caller: Address) -> bool {
    caller == e.buyer || caller == e.arbiter
}

/// Only the seller or the arbiter may force refund to the buyer.
pub open spec fn may_refund(e: EscrowData, caller: Address) -> bool {
    caller == e.seller || caller == e.arbiter
}

/// What creating an escrow does to a record store, and what it returns:
/// the authorization proof must name the buyer, whose deposit the engine
/// takes into custody; on success the new record is stored under `id` and
/// the deposit instruction is returned beside the id.
pub open spec fn spec_create_escrow(
    records: Map<u64, EscrowData>,
    custody: Address,
    id: u64,
    caller: Address,
    buyer: Address,
    seller: Address,
    arbiter: Address,
    amount: i128,
    token: Address,
) -> (Map<u64, EscrowData>, Result<(u64, Transfer), Error>) {
    if caller != buyer {
        (records, Err(Error::Unauthorized))
    } else {
        (
            records.insert(id, new_escrow(buyer, seller, arbiter, amount, token)),
            Ok((id, Transfer { token, from: buyer, to: custody, amount })),
        )
    }
}

/// What releasing an escrow does to a record store, and what it returns:
/// the record must exist, the caller must be its buyer or arbiter, and the
/// record must not be terminal; then the record is marked released and the
/// deposit is paid out to the seller.
pub open spec fn spec_release(
    records: Map<u64, EscrowData>,
    custody: Address,
    caller: Address,
    id: u64,
) -> (Map<u64, EscrowData>, Result<Transfer, Error>) {
    if !records.contains_key(id) {
        (records, Err(Error::NotFound))
    } else {
        let e = records[id];
        if !may_release(e, caller) {
            (records, Err(Error::Unauthorized))
        } else if escrow_finalized(e) {
            (records, Err(Error::AlreadyFinalized))
        } else {
            (
                records.insert(id, EscrowData { released: true, ..e }),
                Ok(Transfer { token: e.token, from: custody, to: e.seller, amount: e.amount }),
            )
        }
    }
}

/// What refunding an escrow does to a record store, and what it returns:
/// symmetric to release — the caller must be the seller or arbiter, and the
/// deposit goes back to the buyer.
pub open spec fn spec_refund(
    records: Map<u64, EscrowData>,
    custody: Address,
    caller: Address,
    id: u64,
) -> (Map<u64, EscrowData>, Result<Transfer, Error>) {
    if !records.contains_key(id) {
        (records, Err(Error::NotFound))
    } else {
        let e = records[id];
        if !may_refund(e, caller) {
            (records, Err(Error::Unauthorized))
        } else if escrow_finalized(e) {
            (records, Err(Error::AlreadyFinalized))
        } else {
            (
                records.insert(id, EscrowData { refunded: true, ..e }),
                Ok(Transfer { token: e.token, from: custody, to: e.buyer, amount: e.amount }),
            )
        }
    }
}

impl EscrowContract {
    /// The stored records, as a map from id to record.
    pub closed spec fn records(&self) -> Map<u64, EscrowData> {
        self.store@
    }

    /// The engine's own custody identity: deposits flow to it, payouts from it.
    pub closed spec fn custody(&self) -> Address {
        self.custody
    }

    /// A fresh engine holding no records, custodying value under `custody`.
    pub fn new(custody: Address) -> (c: EscrowContract)
        ensures
            c.records() == Map::<u64, EscrowData>::empty(),
            c.custody() == custody,
    {
        EscrowContract { custody, store: HashMap::new() }
    }

    /// The stored record under `escrow_id`, if any.
    fn lookup(&self, escrow_id: u64) -> (r: Option<EscrowData>)
        ensures
            r == if self.records().contains_key(escrow_id) {
                Some(self.records()[escrow_id])
            } else {
                None::<EscrowData>
            },
    {
        match self.store.get(&escrow_id) {
            Some(e) => Some(*e),
            None => None,
        }
    }

    /// Creates an escrow holding `buyer`'s deposit of `amount` of `token`.
    /// `caller` is the one principal the call context authenticated; it must
    /// be the buyer, whose funds are taken. On success the record is stored
    /// under a fresh id from `seq`, and the id is returned beside the
    /// instruction that moves the deposit from the buyer into custody. A
    /// rejected call consumes no id.
    pub fn create_escrow(
        &mut self,
        seq: &mut Sequencer,
        caller: Address,
        buyer: Address,
        seller: Address,
        arbiter: Address,
        amount: i128,
        token: Address,
    ) -> (r: Result<(u64, Transfer), Error>)
        requires
            old(seq).spec_next() < u64::MAX,
        ensures
            final(self).custody() == old(self).custody(),
            final(self).records() == spec_create_escrow(
                old(self).records(),
                old(self).custody(),
                old(seq).spec_next(),
                caller,
                buyer,
                seller,
                arbiter,
                amount,
                token,
            ).0,
            r == spec_create_escrow(
                old(self).records(),
                old(self).custody(),
                old(seq).spec_next(),
                caller,
                buyer,
                seller,
                arbiter,
                amount,
                token,
            ).1,
            caller == buyer ==> final(seq).spec_next() == old(seq).spec_next() + 1,
            caller != buyer ==> final(seq).spec_next() == old(seq).spec_next(),
    {
        if caller != buyer {
            return Err(Error::Unauthorized);
        }
        let escrow_id = seq.next_id();
        let escrow = EscrowData {
            buyer,
            seller,
            arbiter,
            amount,
            token,
            released: false,
            refunded: false,
        };
        self.store.insert(escrow_id, escrow);
        Ok((escrow_id, Transfer { token, from: buyer, to: self.custody, amount }))
    }

    /// Releases the deposit to the seller. `caller` must be the record's
    /// buyer or arbiter and the record must not be terminal; the record is
    /// marked released and the payout instruction is returned. Every failure
    /// leaves the store unchanged.
    pub fn release(&mut self, caller: Address, escrow_id: u64) -> (r: Result<Transfer, Error>)
        ensures
            final(self).custody() == old(self).custody(),
            final(self).records() == spec_release(
                old(self).records(),
                old(self).custody(),
                caller,
                escrow_id,
            ).0,
            r == spec_release(old(self).records(), old(self).custody(), caller, escrow_id).1,
    {
        match self.lookup(escrow_id) {
            None => Err(Error::NotFound),
            Some(e) => {
                if caller != e.buyer && caller != e.arbiter {
                    Err(Error::Unauthorized)
                } else if e.released || e.refunded {
                    Err(Error::AlreadyFinalized)
                } else {
                    self.store.insert(escrow_id, EscrowData { released: true, ..e });
                    Ok(Transfer {
                        token: e.token,
                        from: self.custody,
                        to: e.seller,
                        amount: e.amount,
                    })
                }
            },
        }
    }

    /// Refunds the deposit to the buyer. `caller` must be the record's
    /// seller or arbiter and the record must not be terminal; the record is
    /// marked refunded and the payout instruction is returned. Every failure
    /// leaves the store unchanged.
    pub fn refund(&mut self, caller: Address, escrow_id: u64) -> (r: Result<Transfer, Error>)
        ensures
            final(self).custody() == old(self).custody(),
            final(self).records() == spec_refund(
                old(self).records(),
                old(self).custody(),
                caller,
                escrow_id,
            ).0,
            r == spec_refund(old(self).records(), old(self).custody(), caller, escrow_id).1,
    {
        match self.lookup(escrow_id) {
            None => Err(Error::NotFound),
            Some(e) => {
                if caller != e.seller && caller != e.arbiter {
                    Err(Error::Unauthorized)
                } else if e.released || e.refunded {
                    Err(Error::AlreadyFinalized)
                } else {
                    self.store.insert(escrow_id, EscrowData { refunded: true, ..e });
                    Ok(Transfer {
                        token: e.token,
                        from: self.custody,
                        to: e.buyer,
                        amount: e.amount,
                    })
                }
            },
        }
    }

    /// Returns the stored record, or `NotFound`. Escrow state is public:
    /// no authorization is required to read it.
    pub fn get_escrow(&self, escrow_id: u64) -> (r: Result<EscrowData, Error>)
        ensures
            r == if self.records().contains_key(escrow_id) {
                Ok::<EscrowData, Error>(self.records()[escrow_id])
            } else {
                Err::<EscrowData, Error>(Error::NotFound)
            },
    {
        match self.lookup(escrow_id) {
            Some(e) => Ok(e),
            None => Err(Error::NotFound),
        }
    }
}

/// A valid creation, looked up under the id it returns, yields a record
/// whose fields are exactly the creation arguments and whose terminal flags
/// are both false.
pub proof fn lemma_create_escrow_then_get(
    records: Map<u64, EscrowData>,
    custody: Address,
    id: u64,
    caller: Address,
    buyer: Address,
    seller: Address,
    arbiter: Address,
    amount: i128,
    token: Address,
)
    requires
        caller == buyer,
    ensures
        spec_create_escrow(records, custody, id, caller, buyer, seller, arbiter, amount, token).1
            == Ok::<(u64, Transfer), Error>(
            (id, Transfer { token, from: buyer, to: custody, amount }),
        ),
        spec_create_escrow(
            records,
            custody,
            id,
            caller,
            buyer,
            seller,
            arbiter,
            amount,
            token,
        ).0.contains_key(id),
        spec_create_escrow(records, custody, id, caller, buyer, seller, arbiter, amount, token).0[
            id] == new_escrow(buyer, seller, arbiter, amount, token),
        !new_escrow(buyer, seller, arbiter, amount, token).released,
        !new_escrow(buyer, seller, arbiter, amount, token).refunded,
{
}

/// Once `release` has succeeded, the record is terminal: every further
/// `release` or `refund` by a caller holding the required role fails with
/// `AlreadyFinalized`, and the store is left unchanged either way.
pub proof fn lemma_release_is_terminal(
    records: Map<u64, EscrowData>,
    custody: Address,
    first: Address,
    later: Address,
    id: u64,
)
    requires
        spec_release(records, custody, first, id).1 is Ok,
    ensures
        ({
            let after = spec_release(records, custody, first, id).0;
            &&& after[id].released
            &&& !after[id].refunded
            &&& may_release(after[id], later) ==> spec_release(after, custody, later, id).1
                == Err::<Transfer, Error>(Error::AlreadyFinalized)
            &&& may_refund(after[id], later) ==> spec_refund(after, custody, later, id).1
                == Err::<Transfer, Error>(Error::AlreadyFinalized)
            &&& spec_release(after, custody, later, id).0 == after
            &&& spec_refund(after, custody, later, id).0 == after
        }),
{
}

/// The converse: once `refund` has succeeded, every further `release` or
/// `refund` by a caller holding the required role fails with
/// `AlreadyFinalized`, and the store is left unchanged either way.
pub proof fn lemma_refund_is_terminal(
    records: Map<u64, EscrowData>,
    custody: Address,
    first: Address,
    later: Address,
    id: u64,
)
    requires
        spec_refund(records, custody, first, id).1 is Ok,
    ensures
        ({
            let after = spec_refund(records, custody, first, id).0;
            &&& after[id].refunded
            &&& !after[id].released
            &&& may_release(after[id], later) ==> spec_release(after, custody, later, id).1
                == Err::<Transfer, Error>(Error::AlreadyFinalized)
            &&& may_refund(after[id], later) ==> spec_refund(after, custody, later, id).1
                == Err::<Transfer, Error>(Error::AlreadyFinalized)
            &&& spec_release(after, custody, later, id).0 == after
            &&& spec_refund(after, custody, later, id).0 == after
        }),
{
}

/// A caller who does not hold the required role is rejected with
/// `Unauthorized`, and the record store is left exactly as it was: creation
/// demands the buyer's own authorization, release the buyer's or arbiter's,
/// refund the seller's or arbiter's.
pub proof fn lemma_escrow_unauthorized_rejected(
    records: Map<u64, EscrowData>,
    custody: Address,
    caller: Address,
    id: u64,
    buyer: Address,
    seller: Address,
    arbiter: Address,
    amount: i128,
    token: Address,
)
    ensures
        caller != buyer ==> spec_create_escrow(
            records,
            custody,
            id,
            caller,
            buyer,
            seller,
            arbiter,
            amount,
            token,
        ) == (records, Err::<(u64, Transfer), Error>(Error::Unauthorized)),
        records.contains_key(id) && !may_release(records[id], caller) ==> spec_release(
            records,
            custody,
            caller,
            id,
        ) == (records, Err::<Transfer, Error>(Error::Unauthorized)),
        records.contains_key(id) && !may_refund(records[id], caller) ==> spec_refund(
            records,
            custody,
            caller,
            id,
        ) == (records, Err::<Transfer, Error>(Error::Unauthorized)),
{
}

/// The store's invariant: no record has both terminal flags set. Release
/// and refund are mutually exclusive outcomes.
pub open spec fn escrow_store_wf(records: Map<u64, EscrowData>) -> bool {
    forall|id: u64| #[trigger]
        records.contains_key(id) ==> !(records[id].released && records[id].refunded)
}

/// An empty store satisfies the invariant, and every transition preserves
/// it: no sequence of engine calls ever reaches a record that is both
/// released and refunded.
pub proof fn lemma_transitions_preserve_wf(
    records: Map<u64, EscrowData>,
    custody: Address,
    id: u64,
    caller: Address,
    buyer: Address,
    seller: Address,
    arbiter: Address,
    amount: i128,
    token: Address,
)
    requires
        escrow_store_wf(records),
    ensures
        escrow_store_wf(Map::<u64, EscrowData>::empty()),
        escrow_store_wf(
            spec_create_escrow(
                records,
                custody,
                id,
                caller,
                buyer,
                seller,
                arbiter,
                amount,
                token,
            ).0,
        ),
        escrow_store_wf(spec_release(records, custody, caller, id).0),
        escrow_store_wf(spec_refund(records, custody, caller, id).0),
{
}

/// A successful release or refund changes only the terminal flag it is
/// about: the parties, the amount and the token are fixed at creation.
pub proof fn lemma_finalize_preserves_fields(
    records: Map<u64, EscrowData>,
    custody: Address,
    caller: Address,
    id: u64,
)
    requires
        records.contains_key(id),
    ensures
        ({
            let after_release = spec_release(records, custody, caller, id).0;
            let after_refund = spec_refund(records, custody, caller, id).0;
            &&& after_release[id].buyer == records[id].buyer
            &&& after_release[id].seller == records[id].seller
            &&& after_release[id].arbiter == records[id].arbiter
            &&& after_release[id].amount == records[id].amount
            &&& after_release[id].token == records[id].token
            &&& after_refund[id].buyer == records[id].buyer
            &&& after_refund[id].seller == records[id].seller
            &&& after_refund[id].arbiter == records[id].arbiter
            &&& after_refund[id].amount == records[id].amount
            &&& after_refund[id].token == records[id].token
        }),
{
}

/// Ids already stored all lie below the sequencer's next value.
pub open spec fn escrow_ids_below(records: Map<u64, EscrowData>, next: u64) -> bool {
    forall|id: u64| #[trigger] records.contains_key(id) ==> id < next
}

/// A strictly increasing id source never hands creation an id that is
/// already stored: a new escrow never overwrites an existing record, and
/// the bound is kept for the next creation.
pub proof fn lemma_fresh_id_never_overwrites(
    records: Map<u64, EscrowData>,
    custody: Address,
    next: u64,
    caller: Address,
    buyer: Address,
    seller: Address,
    arbiter: Address,
    amount: i128,
    token: Address,
)
    requires
        escrow_ids_below(records, next),
        next < u64::MAX,
    ensures
        !records.contains_key(next),
        escrow_ids_below(
            spec_create_escrow(
                records,
                custody,
                next,
                caller,
                buyer,
                seller,
                arbiter,
                amount,
                token,
            ).0,
            (next + 1) as u64,
        ),
{
}

} // verus!
