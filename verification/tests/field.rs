//! Tests of the field primitives and the permutation core on exact values.

use poseidon2_starky::field::{f_add, f_mul, f_sub, GOLDILOCKS_ORDER};
use poseidon2_starky::instances::{goldilocks_12_params, goldilocks_8_params};
use poseidon2_starky::params::Poseidon2Params;
use poseidon2_starky::poseidon2::Poseidon2;

#[test]
fn field_ops_exact_values() {
    assert_eq!(GOLDILOCKS_ORDER, 18446744069414584321);
    assert_eq!(f_add(1, 2), 3);
    assert_eq!(f_add(GOLDILOCKS_ORDER - 1, 1), 0);
    assert_eq!(f_add(GOLDILOCKS_ORDER - 1, GOLDILOCKS_ORDER - 1), GOLDILOCKS_ORDER - 2);
    assert_eq!(f_sub(5, 3), 2);
    assert_eq!(f_sub(3, 5), GOLDILOCKS_ORDER - 2);
    assert_eq!(f_sub(0, 1), GOLDILOCKS_ORDER - 1);
    assert_eq!(f_mul(3, 5), 15);
    assert_eq!(f_mul(GOLDILOCKS_ORDER - 1, GOLDILOCKS_ORDER - 1), 1);
    assert_eq!(f_mul(1 << 32, 1 << 32), 0xffff_ffff);
}

#[test]
fn sbox_is_seventh_power() {
    let instance = Poseidon2::new(goldilocks_8_params());
    assert_eq!(instance.sbox_p(0), 0);
    assert_eq!(instance.sbox_p(1), 1);
    assert_eq!(instance.sbox_p(2), 128);
    assert_eq!(instance.sbox_p(3), 2187);
    // (p - 1)^7 = -1 in the field.
    assert_eq!(instance.sbox_p(GOLDILOCKS_ORDER - 1), GOLDILOCKS_ORDER - 1);
}

#[test]
fn parameter_shapes() {
    let p8 = goldilocks_8_params();
    assert_eq!(p8.t, 8);
    assert_eq!(p8.d, 7);
    assert_eq!(p8.rounds_f_beginning, 4);
    assert_eq!(p8.rounds_f_end, 4);
    assert_eq!(p8.rounds_p, 22);
    assert_eq!(p8.rounds, 30);
    assert_eq!(p8.round_constants.len(), 30);
    assert!(p8.round_constants.iter().all(|row| row.len() == 8));
    assert_eq!(p8.mat_internal_diag_m_1.len(), 8);

    let p12 = goldilocks_12_params();
    assert_eq!(p12.t, 12);
    assert_eq!(p12.d, 7);
    assert_eq!(p12.rounds, 30);
    assert_eq!(p12.round_constants.len(), 30);
    assert!(p12.round_constants.iter().all(|row| row.len() == 12));
    assert_eq!(p12.mat_internal_diag_m_1.len(), 12);
}

#[test]
fn get_t_reports_the_width() {
    let instance = Poseidon2::new(goldilocks_8_params());
    assert_eq!(instance.get_t(), 8);
    let instance = Poseidon2::new(goldilocks_12_params());
    assert_eq!(instance.get_t(), 12);
}

#[test]
fn permutation_width_2_small_matrices() {
    // Width 2 exercises the closed-form circ(2, 1) external layer and the
    // [2 1; 1 3] internal layer through the parameter constructor.
    let diag: Vec<u64> = vec![1, 2];
    let rc: Vec<Vec<u64>> = (0..6).map(|i| vec![i as u64 + 1, i as u64 + 2]).collect();
    let params = Poseidon2Params::new(2, 3, 4, 2, diag, rc);
    let instance = Poseidon2::new(params);
    let out = instance.permutation(&vec![1, 2]);
    assert_eq!(out.len(), 2);
    // The permutation is deterministic: the same input gives the same image.
    let out2 = instance.permutation(&vec![1, 2]);
    assert_eq!(out, out2);
}
