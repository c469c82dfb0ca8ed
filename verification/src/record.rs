//! The per-swap record and the states it moves through.

use crate::commitment::{AccountId, HashedProof, PaymentHash};
use vstd::prelude::*;

verus! {

/// The deadline of a swap, on the host's clock.
pub type LockTime = u64;

/// The state of a swap. It only moves forward: `PaymentSent` on creation, then
/// once to `ReceivedSpent` (claimed) or to `SenderRefunded` (refunded).
#[derive(Clone, Copy, Debug, PartialEq, Eq, Structural)]
pub enum PaymentState {
    Uninitialized,
    PaymentSent,
    ReceivedSpent,
    SenderRefunded,
}

/// The state that a stored tag stands for. Tags above 3 read as `Uninitialized`.
pub open spec fn state_of_tag(tag: u8) -> PaymentState {
    if tag == 1 {
        PaymentState::PaymentSent
    } else if tag == 2 {
        PaymentState::ReceivedSpent
    } else if tag == 3 {
        PaymentState::SenderRefunded
    } else {
        PaymentState::Uninitialized
    }
}

/// The tag under which a state is stored.
pub open spec fn tag_of_state(state: PaymentState) -> u8 {
    match state {
        PaymentState::Uninitialized => 0,
        PaymentState::PaymentSent => 1,
        PaymentState::ReceivedSpent => 2,
        PaymentState::SenderRefunded => 3,
    }
}

/// Whether a swap in state `from` may be found in state `to` later on: it may
/// stay as it is, or leave `PaymentSent` for one of the two terminal states.
pub open spec fn step_allowed(from: PaymentState, to: PaymentState) -> bool {
    ||| to == from
    ||| from == PaymentState::PaymentSent && to == PaymentState::ReceivedSpent
    ||| from == PaymentState::PaymentSent && to == PaymentState::SenderRefunded
}

/// Decodes a stored state tag.
pub fn get_payment_state(inx: u8) -> (state: PaymentState)
    ensures
        state == state_of_tag(inx),
{
    match inx {
        0 => PaymentState::Uninitialized,
        1 => PaymentState::PaymentSent,
        2 => PaymentState::ReceivedSpent,
        3 => PaymentState::SenderRefunded,
        _ => PaymentState::Uninitialized,
    }
}

/// Encodes a state as the tag under which it is stored.
pub fn payment_state_tag(state: PaymentState) -> (tag: u8)
    ensures
        tag == tag_of_state(state),
        state_of_tag(tag) == state,
{
    match state {
        PaymentState::Uninitialized => 0,
        PaymentState::PaymentSent => 1,
        PaymentState::ReceivedSpent => 2,
        PaymentState::SenderRefunded => 3,
    }
}

/// A swap as the store holds it: creator, target, hash of the secret, lock
/// time, state tag, algorithm tag, payment hash.
pub type StoredSwap = (AccountId, AccountId, HashedProof, LockTime, u8, u8, PaymentHash);

/// A swap record. Everything but `state` is fixed when the swap is created.
#[derive(Clone, Copy, Debug, PartialEq, Eq)]
pub struct SwapRecord {
    /// The party that funded the swap.
    pub creator: AccountId,
    /// The party that may claim it.
    pub target: AccountId,
    /// The hash that the claimant's secret must have.
    pub hashed_proof: HashedProof,
    /// The deadline that gates a refund.
    pub lock_time: LockTime,
    /// Where the swap stands.
    pub state: PaymentState,
    /// The tag of the algorithm that hashes the revealed secret.
    pub hash_algorithm: u8,
    /// The commitment over creator, target, hashed proof and amount.
    pub payment_hash: PaymentHash,
}

/// The mathematical content of a swap record.
pub struct RecordView {
    pub creator: Seq<u8>,
    pub target: Seq<u8>,
    pub hashed_proof: Seq<u8>,
    pub lock_time: LockTime,
    pub state: PaymentState,
    pub hash_algorithm: u8,
    pub payment_hash: Seq<u8>,
}

impl RecordView {
    /// The same record in another state.
    pub open spec fn with_state(self, state: PaymentState) -> RecordView {
        RecordView { state, ..self }
    }

    /// Whether `later` is this swap at a later time: the fixed fields are
    /// untouched and the state has only moved forward.
    pub open spec fn evolves_to(self, later: RecordView) -> bool {
        &&& later == self.with_state(later.state)
        &&& step_allowed(self.state, later.state)
    }
}

impl View for SwapRecord {
    type V = RecordView;

    open spec fn view(&self) -> RecordView {
        RecordView {
            creator: self.creator@,
            target: self.target@,
            hashed_proof: self.hashed_proof@,
            lock_time: self.lock_time,
            state: self.state,
            hash_algorithm: self.hash_algorithm,
            payment_hash: self.payment_hash@,
        }
    }
}

/// The record that a stored tuple stands for.
pub open spec fn stored_view(stored: StoredSwap) -> RecordView {
    RecordView {
        creator: stored.0@,
        target: stored.1@,
        hashed_proof: stored.2@,
        lock_time: stored.3,
        state: state_of_tag(stored.4),
        hash_algorithm: stored.5,
        payment_hash: stored.6@,
    }
}

impl SwapRecord {
    /// Reads a record out of its stored form.
    pub fn from_stored(stored: &StoredSwap) -> (record: SwapRecord)
        ensures
            record@ == stored_view(*stored),
    {
        SwapRecord {
            creator: stored.0,
            target: stored.1,
            hashed_proof: stored.2,
            lock_time: stored.3,
            state: get_payment_state(stored.4),
            hash_algorithm: stored.5,
            payment_hash: stored.6,
        }
    }

    /// The stored form of this record.
    pub fn to_stored(&self) -> (stored: StoredSwap)
        ensures
            stored == (
                self.creator,
                self.target,
                self.hashed_proof,
                self.lock_time,
                tag_of_state(self.state),
                self.hash_algorithm,
                self.payment_hash,
            ),
            stored_view(stored) == self@,
    {
        (
            self.creator,
            self.target,
            self.hashed_proof,
            self.lock_time,
            payment_state_tag(self.state),
            self.hash_algorithm,
            self.payment_hash,
        )
    }
}

} // verus!
