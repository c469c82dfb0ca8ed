//! What holds of the engine as a whole, proved over its mathematical model.

use crate::commitment::{commitment, commitment_preimage, lemma_preimage_injective, Balance};
use crate::errors::SwapError;
use crate::hashing::{digest, SecretHashAlgo};
use crate::model::{after_transfer, refund_window_open, SwapsView, TransferOutcome};
use crate::record::{LockTime, PaymentState, RecordView};
use crate::registry::RegistryView;
use vstd::prelude::*;

verus! {

/// Registering an identifier keeps the registry well formed and hands out the
/// slot after the counter. Resolving the identifier afterwards gives that slot,
/// and the slot is greater than every slot handed out before.
pub proof fn law_register_then_resolve(registry: RegistryView, id: Seq<u8>)
    requires
        registry.wf(),
        registry.counter < u32::MAX,
    ensures
        registry.register(id).wf(),
        registry.register(id).counter == registry.counter + 1,
        registry.register(id).resolve(id) == Ok::<u64, SwapError>((registry.counter + 1) as u64),
        forall|other: Seq<u8>| #[trigger]
            registry.slots.dom().contains(other) ==> registry.slots[other] < registry.register(
                id,
            ).counter,
        forall|slot: u64| #[trigger]
            registry.ids.dom().contains(slot) ==> slot < registry.register(id).counter,
{
    let after = registry.register(id);
    assert(after.slots.dom() =~= registry.slots.dom().insert(id));
    assert(after.ids.dom() =~= registry.ids.dom().insert(after.counter));
    assert forall|other: Seq<u8>| #[trigger] after.slots.dom().contains(other) implies {
        &&& 1 <= after.slots[other] <= after.counter
        &&& after.ids[after.slots[other]] == other
    } by {
        if other != id {
            assert(registry.slots.dom().contains(other));
        }
    }
}

/// Two identifiers never share a slot.
pub proof fn law_slots_are_not_shared(registry: RegistryView, a: Seq<u8>, b: Seq<u8>)
    requires
        registry.wf(),
        registry.slots.dom().contains(a),
        registry.slots.dom().contains(b),
        a != b,
    ensures
        registry.slots[a] != registry.slots[b],
{
}

/// A digest depends on the algorithm and the input alone: equal inputs give
/// equal digests.
pub proof fn law_digest_is_deterministic(
    algo_a: SecretHashAlgo,
    input_a: Seq<u8>,
    algo_b: SecretHashAlgo,
    input_b: Seq<u8>,
)
    requires
        algo_a == algo_b,
        input_a == input_b,
    ensures
        digest(algo_a, input_a) == digest(algo_b, input_b),
{
}

/// A record is stored for a registered identifier, and only for a slot that
/// was handed out.
pub proof fn law_record_exists_with_registration(store: SwapsView, id: Seq<u8>)
    requires
        store.wf(),
    ensures
        store.registry.slots.dom().contains(id) <==> store.lookup(id) is Ok,
        store.lookup(id) is Ok ==> store.lookup(id)->Ok_0.wf(),
        forall|slot: u64| #[trigger]
            store.records.dom().contains(slot) <==> store.registry.ids.dom().contains(slot),
{
    if store.registry.slots.dom().contains(id) {
        let slot = store.registry.slots[id];
        assert(store.records.dom().contains(slot));
    }
}

/// Creating a swap keeps the store well formed and only moves it forward.
pub proof fn law_create_keeps_invariant(
    store: SwapsView,
    caller: Seq<u8>,
    amount: Balance,
    id: Seq<u8>,
    target: Seq<u8>,
    hashed_proof: Seq<u8>,
    lock_time: LockTime,
    hash_algo: u8,
)
    requires
        store.wf(),
        store.registry.counter < u32::MAX,
        caller.len() == 32,
        target.len() == 32,
        hashed_proof.len() == 32,
    ensures
        store.create(caller, amount, id, target, hashed_proof, lock_time, hash_algo).wf(),
        store.evolves_to(
            store.create(caller, amount, id, target, hashed_proof, lock_time, hash_algo),
        ),
{
    law_register_then_resolve(store.registry, id);
    let after = store.create(caller, amount, id, target, hashed_proof, lock_time, hash_algo);
    let slot = after.registry.counter;
    assert(!store.records.dom().contains(slot));
    assert(after.records.dom() =~= store.records.dom().insert(slot));
    assert forall|k: u64| #[trigger] store.records.dom().contains(k) implies {
        &&& after.records.dom().contains(k)
        &&& store.records[k].evolves_to(after.records[k])
    } by {
        assert(k != slot);
        assert(after.records[k] == store.records[k]);
        assert(store.records[k].with_state(store.records[k].state) == store.records[k]);
    }
}

/// After a swap has been created, its identifier leads to a record whose
/// fields are exactly those that were passed in, in state `PaymentSent`, with
/// the payment hash bound to creator, target, hashed proof and amount.
pub proof fn law_created_record_round_trip(
    store: SwapsView,
    caller: Seq<u8>,
    amount: Balance,
    id: Seq<u8>,
    target: Seq<u8>,
    hashed_proof: Seq<u8>,
    lock_time: LockTime,
    hash_algo: u8,
)
    requires
        store.wf(),
        store.registry.counter < u32::MAX,
    ensures
        ({
            let after = store.create(caller, amount, id, target, hashed_proof, lock_time, hash_algo);
            &&& after.registry.resolve(id) == Ok::<u64, SwapError>(
                (store.registry.counter + 1) as u64,
            )
            &&& after.lookup(id) == Ok::<RecordView, SwapError>(
                RecordView {
                    creator: caller,
                    target,
                    hashed_proof,
                    lock_time,
                    state: PaymentState::PaymentSent,
                    hash_algorithm: hash_algo,
                    payment_hash: commitment(caller, target, hashed_proof, amount),
                },
            )
        }),
{
}

/// Moving the swap of a registered identifier out of `PaymentSent` keeps the
/// store well formed and only moves it forward.
pub proof fn law_settle_keeps_invariant(store: SwapsView, id: Seq<u8>, state: PaymentState)
    requires
        store.wf(),
        store.lookup(id) is Ok,
        store.lookup(id)->Ok_0.state == PaymentState::PaymentSent,
        state == PaymentState::ReceivedSpent || state == PaymentState::SenderRefunded,
    ensures
        store.settle(id, state).wf(),
        store.evolves_to(store.settle(id, state)),
        store.settle(id, state).lookup(id) == Ok::<RecordView, SwapError>(
            store.lookup(id)->Ok_0.with_state(state),
        ),
{
    let after = store.settle(id, state);
    let slot = store.registry.slots[id];
    assert(store.records.dom().contains(slot));
    assert(after.records.dom() =~= store.records.dom());
    assert forall|k: u64| #[trigger] store.records.dom().contains(k) implies {
        &&& after.records.dom().contains(k)
        &&& store.records[k].evolves_to(after.records[k])
    } by {
        if k != slot {
            assert(after.records[k] == store.records[k]);
            assert(store.records[k].with_state(store.records[k].state) == store.records[k]);
        }
    }
    assert forall|k: u64| #[trigger] after.records.dom().contains(k) implies after.records[k].wf() by {
        assert(store.records.dom().contains(k));
        if k != slot {
            assert(after.records[k] == store.records[k]);
        }
    }
}

/// A claim succeeds if and only if the identifier is registered, the swap is
/// still in `PaymentSent`, the commitment over the named sender, the claimant,
/// the digest of the revealed secret and the amount equals the stored payment
/// hash, and the ledger completed the transfer. A successful claim moves the
/// swap to `ReceivedSpent`; any other claim leaves the store as it was.
pub proof fn law_claim_succeeds_iff(
    store: SwapsView,
    caller: Seq<u8>,
    id: Seq<u8>,
    amount: Balance,
    secret: Seq<u8>,
    sender: Seq<u8>,
    ledger: TransferOutcome,
)
    requires
        store.wf(),
    ensures
        ({
            let outcome = after_transfer(
                store.claim_verdict(caller, id, amount, secret, sender),
                ledger,
            );
            let after = store.claim(caller, id, amount, secret, sender, ledger);
            &&& outcome is Ok <==> {
                &&& store.lookup(id) matches Ok(record)
                &&& record.state == PaymentState::PaymentSent
                &&& SwapsView::claim_commitment(record, caller, amount, secret, sender)
                    == record.payment_hash
                &&& ledger == TransferOutcome::Completed
            }
            &&& outcome is Ok ==> after.lookup(id) == Ok::<RecordView, SwapError>(
                store.lookup(id)->Ok_0.with_state(PaymentState::ReceivedSpent),
            )
            &&& !(outcome is Ok) ==> after == store
            &&& after.wf()
            &&& store.evolves_to(after)
        }),
{
    let outcome = after_transfer(store.claim_verdict(caller, id, amount, secret, sender), ledger);
    if outcome is Ok {
        law_settle_keeps_invariant(store, id, PaymentState::ReceivedSpent);
    } else {
        lemma_evolves_to_itself(store);
    }
}

/// A refund succeeds if and only if the identifier is registered, the swap is
/// still in `PaymentSent`, the commitment over the caller, the named target,
/// the named proof and the amount equals the stored hashed proof, the refund
/// window is open, and the ledger completed the transfer. A successful refund
/// moves the swap to `SenderRefunded`; any other refund leaves the store as it
/// was, so a swap that was claimed or refunded is never touched again.
pub proof fn law_refund_succeeds_iff(
    store: SwapsView,
    caller: Seq<u8>,
    now: LockTime,
    id: Seq<u8>,
    target: Seq<u8>,
    proof: Seq<u8>,
    amount: Balance,
    ledger: TransferOutcome,
)
    requires
        store.wf(),
    ensures
        ({
            let outcome = after_transfer(
                store.refund_verdict(caller, now, id, target, proof, amount),
                ledger,
            );
            let after = store.refund(caller, now, id, target, proof, amount, ledger);
            &&& outcome is Ok <==> {
                &&& store.lookup(id) matches Ok(record)
                &&& record.state == PaymentState::PaymentSent
                &&& commitment(caller, target, proof, amount) == record.hashed_proof
                &&& refund_window_open(record.lock_time, now)
                &&& ledger == TransferOutcome::Completed
            }
            &&& outcome is Ok ==> after.lookup(id) == Ok::<RecordView, SwapError>(
                store.lookup(id)->Ok_0.with_state(PaymentState::SenderRefunded),
            )
            &&& !(outcome is Ok) ==> after == store
            &&& after.wf()
            &&& store.evolves_to(after)
        }),
{
    let outcome = after_transfer(
        store.refund_verdict(caller, now, id, target, proof, amount),
        ledger,
    );
    if outcome is Ok {
        law_settle_keeps_invariant(store, id, PaymentState::SenderRefunded);
    } else {
        lemma_evolves_to_itself(store);
    }
}

/// Once a swap has left `PaymentSent`, no claim and no refund changes the
/// store, whatever the inputs and whatever the ledger answers.
pub proof fn law_settled_swap_is_final(
    store: SwapsView,
    caller: Seq<u8>,
    now: LockTime,
    id: Seq<u8>,
    amount: Balance,
    secret: Seq<u8>,
    other_party: Seq<u8>,
    proof: Seq<u8>,
    ledger: TransferOutcome,
)
    requires
        store.wf(),
        store.lookup(id) matches Ok(record) && record.state != PaymentState::PaymentSent,
    ensures
        store.claim_verdict(caller, id, amount, secret, other_party) == Err::<(), SwapError>(
            SwapError::InvalidState,
        ),
        store.refund_verdict(caller, now, id, other_party, proof, amount) == Err::<(), SwapError>(
            SwapError::InvalidState,
        ),
        store.claim(caller, id, amount, secret, other_party, ledger) == store,
        store.refund(caller, now, id, other_party, proof, amount, ledger) == store,
{
}

/// The bytes that a claim's commitment digests change with every change of
/// the named sender, the claimant, the digest of the secret or the amount. Two
/// claims that differ in one of them can agree on the commitment only where
/// BLAKE2 gives two different byte strings the same digest.
pub proof fn law_commitment_binds_inputs(
    sender_a: Seq<u8>,
    caller_a: Seq<u8>,
    hash_a: Seq<u8>,
    amount_a: Balance,
    sender_b: Seq<u8>,
    caller_b: Seq<u8>,
    hash_b: Seq<u8>,
    amount_b: Balance,
)
    requires
        sender_a.len() == 32 && caller_a.len() == 32 && hash_a.len() == 32,
        sender_b.len() == 32 && caller_b.len() == 32 && hash_b.len() == 32,
        sender_a != sender_b || caller_a != caller_b || hash_a != hash_b || amount_a != amount_b,
    ensures
        commitment_preimage(sender_a, caller_a, hash_a, amount_a) != commitment_preimage(
            sender_b,
            caller_b,
            hash_b,
            amount_b,
        ),
{
    if commitment_preimage(sender_a, caller_a, hash_a, amount_a) == commitment_preimage(
        sender_b,
        caller_b,
        hash_b,
        amount_b,
    ) {
        lemma_preimage_injective(
            sender_a,
            caller_a,
            hash_a,
            amount_a,
            sender_b,
            caller_b,
            hash_b,
            amount_b,
        );
    }
}

/// Every store can be its own later self.
pub proof fn lemma_evolves_to_itself(store: SwapsView)
    ensures
        store.evolves_to(store),
{
    assert forall|k: u64| #[trigger] store.records.dom().contains(k) implies store.records[k].evolves_to(
        store.records[k],
    ) by {
        assert(store.records[k].with_state(store.records[k].state) == store.records[k]);
    }
}

} // verus!
