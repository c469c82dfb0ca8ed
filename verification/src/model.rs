//! The swap engine as a mathematical state machine: the store as a value, and
//! each operation as a function on it.

use crate::commitment::{commitment, Balance};
use crate::errors::SwapError;
use crate::hashing::{algo_of_tag, digest};
use crate::record::{LockTime, PaymentState, RecordView};
use crate::registry::RegistryView;
use vstd::prelude::*;

verus! {

/// What the host's ledger answered when it was asked for a transfer.
#[derive(Clone, Copy, Debug, PartialEq, Eq, Structural)]
pub enum TransferOutcome {
    /// The funds were moved.
    Completed,
    /// The funds could not be moved.
    Failed,
}

impl RecordView {
    /// The invariant of a stored record: the identities and the hashed proof
    /// are 32 bytes long, and a stored swap is never `Uninitialized`.
    pub open spec fn wf(self) -> bool {
        &&& self.creator.len() == 32
        &&& self.target.len() == 32
        &&& self.hashed_proof.len() == 32
        &&& self.state != PaymentState::Uninitialized
    }
}

/// Whether a refund may still be had at time `now`. Mind the direction: the
/// window is open up to and including the lock time and closed after it, the
/// reverse of the usual hash-time-lock rule, under which a refund becomes
/// possible only once the lock has expired.
pub open spec fn refund_window_open(lock_time: LockTime, now: LockTime) -> bool {
    lock_time >= now
}

/// The guards of a claim, given the stored record and the commitment that was
/// recomputed from the claimant's inputs: the swap must still be in
/// `PaymentSent`, and the commitment must equal the stored payment hash.
pub open spec fn claim_judgement(record: RecordView, candidate: Seq<u8>) -> Result<(), SwapError> {
    if record.state != PaymentState::PaymentSent {
        Err(SwapError::InvalidState)
    } else if candidate != record.payment_hash {
        Err(SwapError::VerificationMismatch)
    } else {
        Ok(())
    }
}

/// The guards of a refund, given the stored record, the commitment that was
/// recomputed from the caller's inputs and the current time: the swap must
/// still be in `PaymentSent`, the commitment must equal the stored hashed
/// proof, and the refund window must be open.
pub open spec fn refund_judgement(
    record: RecordView,
    candidate: Seq<u8>,
    now: LockTime,
) -> Result<(), SwapError> {
    if record.state != PaymentState::PaymentSent {
        Err(SwapError::InvalidState)
    } else if candidate != record.hashed_proof {
        Err(SwapError::VerificationMismatch)
    } else if !refund_window_open(record.lock_time, now) {
        Err(SwapError::LockExpired)
    } else {
        Ok(())
    }
}

/// What a request comes to once the ledger has answered: a request that passed
/// its guards succeeds only if the transfer was completed.
pub open spec fn after_transfer(
    verdict: Result<(), SwapError>,
    ledger: TransferOutcome,
) -> Result<(), SwapError> {
    match verdict {
        Err(e) => Err(e),
        Ok(_) => if ledger == TransferOutcome::Completed {
            Ok(())
        } else {
            Err(SwapError::TransferFailed)
        },
    }
}

/// The mathematical content of the swap store.
pub struct SwapsView {
    /// The registry of identifiers.
    pub registry: RegistryView,
    /// The record of each slot.
    pub records: Map<u64, RecordView>,
}

impl SwapsView {
    /// The invariant of the store: the registry is well formed, a record exists
    /// for exactly the slots that were handed out, and each record is well
    /// formed.
    pub open spec fn wf(self) -> bool {
        &&& self.registry.wf()
        &&& self.records.dom().finite()
        &&& self.records.dom().len() <= self.registry.counter
        &&& forall|slot: u64| #[trigger]
            self.records.dom().contains(slot) <==> 1 <= slot <= self.registry.counter
        &&& forall|slot: u64| #[trigger]
            self.records.dom().contains(slot) ==> self.records[slot].wf()
    }

    /// The record that `id` leads to, or `UnknownSwap`.
    pub open spec fn lookup(self, id: Seq<u8>) -> Result<RecordView, SwapError> {
        match self.registry.resolve(id) {
            Err(e) => Err(e),
            Ok(slot) => if self.records.dom().contains(slot) {
                Ok(self.records[slot])
            } else {
                Err(SwapError::UnknownSwap)
            },
        }
    }

    /// The record that a creation request stores.
    pub open spec fn new_record(
        caller: Seq<u8>,
        amount: Balance,
        target: Seq<u8>,
        hashed_proof: Seq<u8>,
        lock_time: LockTime,
        hash_algo: u8,
    ) -> RecordView {
        RecordView {
            creator: caller,
            target,
            hashed_proof,
            lock_time,
            state: PaymentState::PaymentSent,
            hash_algorithm: hash_algo,
            payment_hash: commitment(caller, target, hashed_proof, amount),
        }
    }

    /// The store after a swap has been created: `id` is registered under the
    /// next slot, and that slot holds the new record in state `PaymentSent`.
    pub open spec fn create(
        self,
        caller: Seq<u8>,
        amount: Balance,
        id: Seq<u8>,
        target: Seq<u8>,
        hashed_proof: Seq<u8>,
        lock_time: LockTime,
        hash_algo: u8,
    ) -> SwapsView {
        let registry = self.registry.register(id);
        SwapsView {
            registry,
            records: self.records.insert(
                registry.counter,
                Self::new_record(caller, amount, target, hashed_proof, lock_time, hash_algo),
            ),
        }
    }

    /// The commitment that a claim has to reproduce: over the sender that the
    /// claimant names, the claimant, the digest of the revealed secret under
    /// the swap's algorithm, and the amount claimed.
    pub open spec fn claim_commitment(
        record: RecordView,
        caller: Seq<u8>,
        amount: Balance,
        secret: Seq<u8>,
        sender: Seq<u8>,
    ) -> Seq<u8> {
        commitment(sender, caller, digest(algo_of_tag(record.hash_algorithm), secret), amount)
    }

    /// Whether a claim passes its guards, and if not, why.
    pub open spec fn claim_verdict(
        self,
        caller: Seq<u8>,
        id: Seq<u8>,
        amount: Balance,
        secret: Seq<u8>,
        sender: Seq<u8>,
    ) -> Result<(), SwapError> {
        match self.lookup(id) {
            Err(e) => Err(e),
            Ok(record) => claim_judgement(
                record,
                Self::claim_commitment(record, caller, amount, secret, sender),
            ),
        }
    }

    /// Whether a refund passes its guards, and if not, why. The commitment is
    /// taken over the caller, the target and the proof that the caller names,
    /// and the amount asked back.
    pub open spec fn refund_verdict(
        self,
        caller: Seq<u8>,
        now: LockTime,
        id: Seq<u8>,
        target: Seq<u8>,
        proof: Seq<u8>,
        amount: Balance,
    ) -> Result<(), SwapError> {
        match self.lookup(id) {
            Err(e) => Err(e),
            Ok(record) => refund_judgement(record, commitment(caller, target, proof, amount), now),
        }
    }

    /// The store after the swap of `id` has moved to `state`; nothing else
    /// changes.
    pub open spec fn settle(self, id: Seq<u8>, state: PaymentState) -> SwapsView {
        let slot = self.registry.slots[id];
        SwapsView {
            registry: self.registry,
            records: self.records.insert(slot, self.records[slot].with_state(state)),
        }
    }

    /// The store after a claim whose guards gave `verdict` and whose transfer
    /// the ledger answered with `ledger`.
    pub open spec fn claim(
        self,
        caller: Seq<u8>,
        id: Seq<u8>,
        amount: Balance,
        secret: Seq<u8>,
        sender: Seq<u8>,
        ledger: TransferOutcome,
    ) -> SwapsView {
        if after_transfer(self.claim_verdict(caller, id, amount, secret, sender), ledger) is Ok {
            self.settle(id, PaymentState::ReceivedSpent)
        } else {
            self
        }
    }

    /// The store after a refund request.
    pub open spec fn refund(
        self,
        caller: Seq<u8>,
        now: LockTime,
        id: Seq<u8>,
        target: Seq<u8>,
        proof: Seq<u8>,
        amount: Balance,
        ledger: TransferOutcome,
    ) -> SwapsView {
        if after_transfer(self.refund_verdict(caller, now, id, target, proof, amount), ledger)
            is Ok {
            self.settle(id, PaymentState::SenderRefunded)
        } else {
            self
        }
    }

    /// Whether one operation may lead from this store to `later`: no slot is
    /// taken back, every record keeps its fixed fields and its state stays or
    /// moves forward, and every new record starts in `PaymentSent`.
    pub open spec fn evolves_to(self, later: SwapsView) -> bool {
        &&& self.registry.counter <= later.registry.counter
        &&& forall|slot: u64| #[trigger]
            self.records.dom().contains(slot) ==> {
                &&& later.records.dom().contains(slot)
                &&& self.records[slot].evolves_to(later.records[slot])
            }
        &&& forall|slot: u64| #[trigger]
            later.records.dom().contains(slot) && !self.records.dom().contains(slot)
                ==> later.records[slot].state == PaymentState::PaymentSent
    }
}

} // verus!
