//! The swap state machine: create, claim and refund.
//!
//! The engine decides; the host acts. A claim or a refund runs in two steps.
//! First the host asks which transfer the request authorises
//! (`authorize_claim`, `authorize_refund`), which changes nothing. It then has
//! its ledger perform that transfer and hands the ledger's answer to
//! `claim_swap` or `refund_sender`, which checks the guards again and moves
//! the swap to its terminal state only if the transfer was completed. The
//! event that the host has to emit comes back from the call that changed the
//! store.

use crate::commitment::{commit, AccountId, Balance, HashedProof, PaymentHash};
use crate::errors::SwapError;
use crate::hashing::{get_hash_algo, hash_using, same_bytes, Secret};
use crate::laws::{
    law_claim_succeeds_iff, law_create_keeps_invariant, law_refund_succeeds_iff,
    law_settle_keeps_invariant,
};
use crate::model::{
    after_transfer, claim_judgement, refund_judgement, SwapsView, TransferOutcome,
};
use crate::record::{stored_view, LockTime, PaymentState, RecordView, StoredSwap, SwapRecord};
use crate::registry::SwapRegistry;
use crate::tables::{swap_entries, SwapId, SwapTable};
use vstd::prelude::*;
use vstd::slice::slice_to_vec;

verus! {

/// Announces that a swap was created and funded.
#[derive(Clone, Debug, PartialEq, Eq)]
pub struct PaymentSent {
    /// The bytes of the swap's identifier.
    pub id: Vec<u8>,
}

/// Announces that a swap was claimed.
#[derive(Clone, Debug, PartialEq, Eq)]
pub struct PaymentClaimed {
    /// The bytes of the swap's identifier.
    pub id: Vec<u8>,
}

/// Announces that a swap was refunded to its sender.
#[derive(Clone, Debug, PartialEq, Eq)]
pub struct SenderRefunded {
    /// The bytes of the swap's identifier.
    pub id: Vec<u8>,
}

/// A transfer that the host's ledger is asked to perform.
#[derive(Clone, Copy, Debug, PartialEq, Eq)]
pub struct Transfer {
    /// The account that receives the funds.
    pub to: AccountId,
    /// The amount to move.
    pub amount: Balance,
}

/// Applies the guards of a claim to a stored record and the commitment
/// recomputed from the claimant's inputs.
pub fn judge_claim(record: &SwapRecord, candidate: &PaymentHash) -> (verdict: Result<(), SwapError>)
    ensures
        verdict == claim_judgement(record@, candidate@),
{
    match record.state {
        PaymentState::PaymentSent => {
            if same_bytes(candidate, &record.payment_hash) {
                Ok(())
            } else {
                Err(SwapError::VerificationMismatch)
            }
        },
        _ => Err(SwapError::InvalidState),
    }
}

/// Applies the guards of a refund to a stored record, the commitment
/// recomputed from the caller's inputs, and the current time.
pub fn judge_refund(record: &SwapRecord, candidate: &PaymentHash, now: LockTime) -> (verdict:
    Result<(), SwapError>)
    ensures
        verdict == refund_judgement(record@, candidate@, now),
{
    match record.state {
        PaymentState::PaymentSent => {
            if !same_bytes(candidate, &record.hashed_proof) {
                Err(SwapError::VerificationMismatch)
            } else if record.lock_time >= now {
                Ok(())
            } else {
                Err(SwapError::LockExpired)
            }
        },
        _ => Err(SwapError::InvalidState),
    }
}

/// What a request comes to once the ledger has answered.
pub fn conclude(verdict: Result<(), SwapError>, ledger: TransferOutcome) -> (outcome: Result<
    (),
    SwapError,
>)
    ensures
        outcome == after_transfer(verdict, ledger),
{
    match verdict {
        Err(e) => Err(e),
        Ok(_) => match ledger {
            TransferOutcome::Completed => Ok(()),
            TransferOutcome::Failed => Err(SwapError::TransferFailed),
        },
    }
}

/// The store of all swaps: the registry of identifiers and the record of each
/// slot.
pub struct AtomicSwaps {
    registry: SwapRegistry,
    pending_swaps: SwapTable,
}

impl View for AtomicSwaps {
    type V = SwapsView;

    closed spec fn view(&self) -> SwapsView {
        SwapsView {
            registry: self.registry@,
            records: swap_entries(self.pending_swaps).map_values(|s: StoredSwap| stored_view(s)),
        }
    }
}

impl AtomicSwaps {
    /// Whether the store's invariant holds. Every store that `new` made and
    /// the operations changed is well formed.
    pub open spec fn wf(&self) -> bool {
        self@.wf()
    }

    /// An empty store: no identifier is registered, no slot is handed out.
    pub fn new() -> (swaps: AtomicSwaps)
        ensures
            swaps.wf(),
            swaps@.registry.counter == 0,
            swaps@.registry.slots == Map::<Seq<u8>, u64>::empty(),
            swaps@.registry.ids == Map::<u64, Seq<u8>>::empty(),
            swaps@.records == Map::<u64, RecordView>::empty(),
    {
        let swaps = AtomicSwaps { registry: SwapRegistry::new(), pending_swaps: SwapTable::new() };
        assert(swaps@.records =~= Map::<u64, RecordView>::empty());
        swaps
    }

    /// An empty store, as `new` makes it.
    pub fn default() -> (swaps: AtomicSwaps)
        ensures
            swaps.wf(),
            swaps@.registry.counter == 0,
            swaps@.registry.slots == Map::<Seq<u8>, u64>::empty(),
            swaps@.registry.ids == Map::<u64, Seq<u8>>::empty(),
            swaps@.records == Map::<u64, RecordView>::empty(),
    {
        Self::new()
    }

    /// The slot handed out last; 0 while no swap was created.
    pub fn counter(&self) -> (counter: u64)
        ensures
            counter == self@.registry.counter,
    {
        self.registry.counter()
    }

    /// The slot registered for `id`, or `UnknownSwap`.
    pub fn resolve(&self, id: &SwapId) -> (slot: Result<u64, SwapError>)
        ensures
            slot == self@.registry.resolve(id@),
    {
        self.registry.resolve(id)
    }

    /// The identifier that `slot` was handed out for, if it was handed out.
    pub fn id_of(&self, slot: u64) -> (id: Option<SwapId>)
        ensures
            id.is_some() == self@.registry.ids.dom().contains(slot),
            id matches Some(bytes) ==> bytes@ == self@.registry.ids[slot],
    {
        self.registry.id_of(slot)
    }

    /// The record held in `slot`, if there is one.
    pub fn swap(&self, slot: u64) -> (record: Option<SwapRecord>)
        ensures
            record.is_some() == self@.records.dom().contains(slot),
            record matches Some(r) ==> r@ == self@.records[slot],
    {
        match self.pending_swaps.get(slot) {
            Some(stored) => Some(SwapRecord::from_stored(&stored)),
            None => None,
        }
    }

    /// The record that `id` leads to, or `UnknownSwap`.
    pub fn lookup(&self, id: &SwapId) -> (record: Result<SwapRecord, SwapError>)
        ensures
            record is Ok == self@.lookup(id@) is Ok,
            record matches Ok(r) ==> self@.lookup(id@) == Ok::<RecordView, SwapError>(
                r@,
            ),
            record matches Err(e) ==> self@.lookup(id@) == Err::<RecordView, SwapError>(e),
    {
        match self.registry.resolve(id) {
            Err(e) => Err(e),
            Ok(slot) => match self.swap(slot) {
                Some(record) => Ok(record),
                None => Err(SwapError::UnknownSwap),
            },
        }
    }

    /// Creates a swap. `caller` funds it with `amount`, which the host has
    /// already taken in; `target` may claim it with the secret whose hash under
    /// the algorithm of tag `hash_algo` is `hashed_proof`. The swap gets the
    /// next slot and starts in `PaymentSent`, with a payment hash over caller,
    /// target, hashed proof and amount. An identifier that is registered
    /// already is registered anew: it then leads to the new swap, and the
    /// earlier one keeps its slot but can no longer be reached by identifier.
    ///
    /// The tables count their keys in 32 bits, so the store takes a new swap
    /// only while fewer than `u32::MAX` were created.
    pub fn create_swap(
        &mut self,
        caller: AccountId,
        amount: Balance,
        id: SwapId,
        target: AccountId,
        hashed_proof: HashedProof,
        lock_time: LockTime,
        hash_algo: u8,
    ) -> (event: PaymentSent)
        requires
            old(self).wf(),
            old(self)@.registry.counter < u32::MAX,
        ensures
            final(self).wf(),
            final(self)@ == old(self)@.create(
                caller@,
                amount,
                id@,
                target@,
                hashed_proof@,
                lock_time,
                hash_algo,
            ),
            old(self)@.evolves_to(final(self)@),
            event.id@ == id@,
    {
        let slot = self.registry.register(id);
        let record = SwapRecord {
            creator: caller,
            target,
            hashed_proof,
            lock_time,
            state: PaymentState::PaymentSent,
            hash_algorithm: hash_algo,
            payment_hash: commit(&caller, &target, &hashed_proof, amount),
        };
        let stored = record.to_stored();
        proof {
            let held = swap_entries(self.pending_swaps);
            assert(held.dom() =~= old(self)@.records.dom());
        }
        self.pending_swaps.insert(slot, stored);
        proof {
            let after = old(self)@.create(
                caller@,
                amount,
                id@,
                target@,
                hashed_proof@,
                lock_time,
                hash_algo,
            );
            assert(self@.records =~= after.records);
            law_create_keeps_invariant(
                old(self)@,
                caller@,
                amount,
                id@,
                target@,
                hashed_proof@,
                lock_time,
                hash_algo,
            );
        }
        PaymentSent { id: slice_to_vec(id.as_slice()) }
    }

    /// Evaluates the guards of a claim without changing anything.
    fn check_claim(
        &self,
        caller: &AccountId,
        id: &SwapId,
        amount: Balance,
        secret: &Secret,
        sender: &AccountId,
    ) -> (verdict: Result<SwapRecord, SwapError>)
        ensures
            verdict matches Ok(record) ==> {
                &&& self@.claim_verdict(caller@, id@, amount, secret@, sender@) is Ok
                &&& self@.lookup(id@) == Ok::<RecordView, SwapError>(record@)
            },
            verdict matches Err(e) ==> self@.claim_verdict(caller@, id@, amount, secret@, sender@)
                == Err::<(), SwapError>(e),
    {
        match self.lookup(id) {
            Err(e) => Err(e),
            Ok(record) => {
                let algo = get_hash_algo(record.hash_algorithm);
                let expected_hash = hash_using(algo, secret);
                let candidate = commit(sender, caller, &expected_hash, amount);
                match judge_claim(&record, &candidate) {
                    Ok(_) => Ok(record),
                    Err(e) => Err(e),
                }
            },
        }
    }

    /// Evaluates the guards of a refund without changing anything.
    fn check_refund(
        &self,
        caller: &AccountId,
        now: LockTime,
        id: &SwapId,
        target: &AccountId,
        proof: &HashedProof,
        amount: Balance,
    ) -> (verdict: Result<SwapRecord, SwapError>)
        ensures
            verdict matches Ok(record) ==> {
                &&& self@.refund_verdict(caller@, now, id@, target@, proof@, amount) is Ok
                &&& self@.lookup(id@) == Ok::<RecordView, SwapError>(record@)
            },
            verdict matches Err(e) ==> self@.refund_verdict(
                caller@,
                now,
                id@,
                target@,
                proof@,
                amount,
            ) == Err::<(), SwapError>(e),
    {
        match self.lookup(id) {
            Err(e) => Err(e),
            Ok(record) => {
                let candidate = commit(caller, target, proof, amount);
                match judge_refund(&record, &candidate, now) {
                    Ok(_) => Ok(record),
                    Err(e) => Err(e),
                }
            },
        }
    }

    /// Moves the swap of `id`, whose record is `record`, to a terminal state.
    fn settle(&mut self, id: &SwapId, record: SwapRecord, state: PaymentState)
        requires
            old(self).wf(),
            old(self)@.lookup(id@) == Ok::<RecordView, SwapError>(record@),
            record.state == PaymentState::PaymentSent,
            state == PaymentState::ReceivedSpent || state == PaymentState::SenderRefunded,
        ensures
            final(self).wf(),
            final(self)@ == old(self)@.settle(id@, state),
    {
        match self.registry.resolve(id) {
            Ok(slot) => {
                let settled = SwapRecord { state, ..record };
                let stored = settled.to_stored();
                proof {
                    let held = swap_entries(self.pending_swaps);
                    assert(held.dom() =~= old(self)@.records.dom());
                }
                self.pending_swaps.insert(slot, stored);
                proof {
                    assert(self@.records =~= old(self)@.settle(id@, state).records);
                    law_settle_keeps_invariant(old(self)@, id@, state);
                }
            },
            Err(_) => {},
        }
    }

    /// Says which transfer a claim authorises; changes nothing. The claim is
    /// made by `caller`, who names the sender of the swap and the amount, and
    /// reveals the secret. It is authorised if `id` is registered, the swap is
    /// in `PaymentSent`, and the commitment over sender, caller, the digest of
    /// the secret and the amount equals the stored payment hash; the transfer
    /// then pays `amount` to `caller`.
    pub fn authorize_claim(
        &self,
        caller: AccountId,
        id: SwapId,
        amount: Balance,
        secret: Secret,
        sender: AccountId,
    ) -> (transfer: Result<Transfer, SwapError>)
        ensures
            transfer matches Ok(t) ==> {
                &&& self@.claim_verdict(caller@, id@, amount, secret@, sender@) is Ok
                &&& t.to@ == caller@
                &&& t.amount == amount
            },
            transfer matches Err(e) ==> self@.claim_verdict(caller@, id@, amount, secret@, sender@)
                == Err::<(), SwapError>(e),
    {
        match self.check_claim(&caller, &id, amount, &secret, &sender) {
            Ok(_) => Ok(Transfer { to: caller, amount }),
            Err(e) => Err(e),
        }
    }

    /// Claims a swap, given what the ledger answered to the transfer that
    /// `authorize_claim` named. Every guard is checked again. If they pass and
    /// the transfer was completed, the swap moves to `ReceivedSpent` and the
    /// event to emit is returned. In every other case nothing changes, and the
    /// error says why: `UnknownSwap`, `InvalidState`, `VerificationMismatch`,
    /// in this order, or `TransferFailed` if only the ledger stood in the way.
    pub fn claim_swap(
        &mut self,
        caller: AccountId,
        id: SwapId,
        amount: Balance,
        secret: Secret,
        sender: AccountId,
        ledger: TransferOutcome,
    ) -> (event: Result<PaymentClaimed, SwapError>)
        requires
            old(self).wf(),
        ensures
            final(self).wf(),
            final(self)@ == old(self)@.claim(caller@, id@, amount, secret@, sender@, ledger),
            old(self)@.evolves_to(final(self)@),
            event matches Ok(ev) ==> {
                &&& after_transfer(
                    old(self)@.claim_verdict(caller@, id@, amount, secret@, sender@),
                    ledger,
                ) is Ok
                &&& ev.id@ == id@
            },
            event matches Err(e) ==> after_transfer(
                old(self)@.claim_verdict(caller@, id@, amount, secret@, sender@),
                ledger,
            ) == Err::<(), SwapError>(e),
    {
        proof {
            law_claim_succeeds_iff(old(self)@, caller@, id@, amount, secret@, sender@, ledger);
        }
        match self.check_claim(&caller, &id, amount, &secret, &sender) {
            Err(e) => Err(e),
            Ok(record) => match conclude(Ok(()), ledger) {
                Err(e) => Err(e),
                Ok(_) => {
                    self.settle(&id, record, PaymentState::ReceivedSpent);
                    Ok(PaymentClaimed { id: slice_to_vec(id.as_slice()) })
                },
            },
        }
    }

    /// Says which transfer a refund authorises; changes nothing. The refund is
    /// asked by `caller` at time `now`, who names the target, a proof value and
    /// the amount. It is authorised if `id` is registered, the swap is in
    /// `PaymentSent`, the commitment over caller, target, proof and amount
    /// equals the stored hashed proof, and the lock time is not before `now`;
    /// the transfer then pays `amount` back to `caller`.
    pub fn authorize_refund(
        &self,
        caller: AccountId,
        now: LockTime,
        id: SwapId,
        target: AccountId,
        proof: HashedProof,
        amount: Balance,
    ) -> (transfer: Result<Transfer, SwapError>)
        ensures
            transfer matches Ok(t) ==> {
                &&& self@.refund_verdict(caller@, now, id@, target@, proof@, amount) is Ok
                &&& t.to@ == caller@
                &&& t.amount == amount
            },
            transfer matches Err(e) ==> self@.refund_verdict(
                caller@,
                now,
                id@,
                target@,
                proof@,
                amount,
            ) == Err::<(), SwapError>(e),
    {
        match self.check_refund(&caller, now, &id, &target, &proof, amount) {
            Ok(_) => Ok(Transfer { to: caller, amount }),
            Err(e) => Err(e),
        }
    }

    /// Refunds a swap to its sender, given what the ledger answered to the
    /// transfer that `authorize_refund` named. Every guard is checked again. If
    /// they pass and the transfer was completed, the swap moves to
    /// `SenderRefunded` and the event to emit is returned. In every other case
    /// nothing changes, and the error says why: `UnknownSwap`, `InvalidState`,
    /// `VerificationMismatch`, `LockExpired`, in this order, or
    /// `TransferFailed` if only the ledger stood in the way.
    pub fn refund_sender(
        &mut self,
        caller: AccountId,
        now: LockTime,
        id: SwapId,
        target: AccountId,
        proof: HashedProof,
        amount: Balance,
        ledger: TransferOutcome,
    ) -> (event: Result<SenderRefunded, SwapError>)
        requires
            old(self).wf(),
        ensures
            final(self).wf(),
            final(self)@ == old(self)@.refund(caller@, now, id@, target@, proof@, amount, ledger),
            old(self)@.evolves_to(final(self)@),
            event matches Ok(ev) ==> {
                &&& after_transfer(
                    old(self)@.refund_verdict(caller@, now, id@, target@, proof@, amount),
                    ledger,
                ) is Ok
                &&& ev.id@ == id@
            },
            event matches Err(e) ==> after_transfer(
                old(self)@.refund_verdict(caller@, now, id@, target@, proof@, amount),
                ledger,
            ) == Err::<(), SwapError>(e),
    {
        proof {
            law_refund_succeeds_iff(
                old(self)@,
                caller@,
                now,
                id@,
                target@,
                proof@,
                amount,
                ledger,
            );
        }
        match self.check_refund(&caller, now, &id, &target, &proof, amount) {
            Err(e) => Err(e),
            Ok(record) => match conclude(Ok(()), ledger) {
                Err(e) => Err(e),
                Ok(_) => {
                    self.settle(&id, record, PaymentState::SenderRefunded);
                    Ok(SenderRefunded { id: slice_to_vec(id.as_slice()) })
                },
            },
        }
    }
}

} // verus!
