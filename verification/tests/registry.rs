use atomic_swap::{AtomicSwaps, PaymentState, SwapError, SwapRegistry};

#[test]
fn new_registry_knows_nothing() {
    let registry = SwapRegistry::new();
    assert_eq!(registry.counter(), 0);
    assert_eq!(registry.resolve(&[0; 32]), Err(SwapError::UnknownSwap));
    assert_eq!(registry.id_of(0), None);
    assert_eq!(registry.id_of(1), None);
}

#[test]
fn register_hands_out_increasing_slots() {
    let mut registry = SwapRegistry::new();
    let mut last = 0;
    for byte in 0u8..50 {
        let slot = registry.register([byte; 32]);
        assert!(slot > last);
        assert_eq!(slot, byte as u64 + 1);
        assert_eq!(registry.counter(), slot);
        assert_eq!(registry.resolve(&[byte; 32]), Ok(slot));
        assert_eq!(registry.id_of(slot), Some([byte; 32]));
        last = slot;
    }
    for byte in 0u8..50 {
        assert_eq!(registry.resolve(&[byte; 32]), Ok(byte as u64 + 1));
    }
    assert_eq!(registry.resolve(&[50; 32]), Err(SwapError::UnknownSwap));
    assert_eq!(registry.id_of(51), None);
    assert_eq!(registry.id_of(0), None);
}

#[test]
fn identifiers_that_differ_in_one_bit_are_distinct() {
    let mut registry = SwapRegistry::new();
    let first = [0u8; 32];
    let mut second = [0u8; 32];
    second[31] = 1;
    assert_eq!(registry.register(first), 1);
    assert_eq!(registry.resolve(&second), Err(SwapError::UnknownSwap));
    assert_eq!(registry.register(second), 2);
    assert_eq!(registry.resolve(&first), Ok(1));
    assert_eq!(registry.resolve(&second), Ok(2));
}

#[test]
fn registering_an_identifier_again_leads_to_the_new_slot() {
    let mut registry = SwapRegistry::new();
    assert_eq!(registry.register([9; 32]), 1);
    assert_eq!(registry.register([9; 32]), 2);
    assert_eq!(registry.counter(), 2);
    assert_eq!(registry.resolve(&[9; 32]), Ok(2));
    assert_eq!(registry.id_of(1), Some([9; 32]));
    assert_eq!(registry.id_of(2), Some([9; 32]));
}

#[test]
fn creating_under_a_used_identifier_keeps_the_earlier_record() {
    let mut swaps = AtomicSwaps::new();
    swaps.create_swap([1; 32], 10, [9; 32], [2; 32], [3; 32], 100, 0);
    swaps.create_swap([4; 32], 20, [9; 32], [5; 32], [6; 32], 200, 1);
    assert_eq!(swaps.counter(), 2);
    assert_eq!(swaps.resolve(&[9; 32]), Ok(2));
    let first = swaps.swap(1).unwrap();
    let second = swaps.swap(2).unwrap();
    assert_eq!(first.creator, [1; 32]);
    assert_eq!(first.lock_time, 100);
    assert_eq!(first.state, PaymentState::PaymentSent);
    assert_eq!(second.creator, [4; 32]);
    assert_eq!(second.lock_time, 200);
    assert_eq!(swaps.lookup(&[9; 32]), Ok(second));
}

#[test]
fn every_created_swap_has_a_record_and_a_registration() {
    let mut swaps = AtomicSwaps::new();
    for byte in 1u8..=20 {
        swaps.create_swap([1; 32], byte as u128, [byte; 32], [2; 32], [3; 32], 100, 0);
    }
    assert_eq!(swaps.counter(), 20);
    for byte in 1u8..=20 {
        let slot = swaps.resolve(&[byte; 32]).unwrap();
        assert_eq!(slot, byte as u64);
        assert_eq!(swaps.id_of(slot), Some([byte; 32]));
        assert!(swaps.swap(slot).is_some());
    }
    assert!(swaps.swap(0).is_none());
    assert!(swaps.swap(21).is_none());
    assert!(swaps.id_of(21).is_none());
}
