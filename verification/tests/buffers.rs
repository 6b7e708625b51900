//! The escrow for boundary-owned buffers: exactly one matching release.

use safe_ffi::buffer::BufferEscrow;
use safe_ffi::drop_vector;

#[test]
fn single_release_reclaims_buffer() {
    let mut escrow = BufferEscrow::new();
    let (token, size, capacity) = escrow.hand_out(vec![1u8, 2, 3], 8);
    assert!(token != 0);
    assert_eq!(size, 3);
    assert_eq!(capacity, 8);

    assert_eq!(drop_vector(&mut escrow, token, size, capacity), 0);
}

#[test]
fn second_release_of_same_triple_is_refused() {
    let mut escrow = BufferEscrow::new();
    let (token, size, capacity) = escrow.hand_out(vec![9u8; 16], 16);

    assert_eq!(drop_vector(&mut escrow, token, size, capacity), 0);
    // the exact same triple again: refused, not undefined
    assert!(drop_vector(&mut escrow, token, size, capacity) < 0);
}

#[test]
fn mismatched_release_is_refused() {
    let mut escrow = BufferEscrow::new();
    let (token, size, capacity) = escrow.hand_out(vec![5u8, 6], 4);

    assert!(drop_vector(&mut escrow, token, size + 1, capacity) < 0);
    assert!(drop_vector(&mut escrow, token, size, capacity + 1) < 0);
    assert!(drop_vector(&mut escrow, token + 1, size, capacity) < 0);
    assert!(drop_vector(&mut escrow, 0, size, capacity) < 0);
    // the correct triple still works after the refused attempts
    assert_eq!(drop_vector(&mut escrow, token, size, capacity), 0);
}

#[test]
fn tokens_are_not_reused() {
    let mut escrow = BufferEscrow::new();
    let (first, s1, c1) = escrow.hand_out(vec![1u8], 1);
    assert_eq!(drop_vector(&mut escrow, first, s1, c1), 0);
    let (second, _, _) = escrow.hand_out(vec![2u8], 1);
    assert!(second != first);
}
