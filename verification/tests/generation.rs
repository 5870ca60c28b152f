//! Tests of the trace generators: stage composition, trace shape, output
//! columns cross-checked against an independent Poseidon2 implementation,
//! and the padding and zero-row rules.

use poseidon2_starky::generation;
use poseidon2_starky::generation12;
use poseidon2_starky::generation::Row;
use poseidon2_starky::trace::{next_pow2, pad_trace};

use zkhash::fields::goldilocks::FpGoldiLocks;
use zkhash::poseidon2::poseidon2::Poseidon2 as RefPoseidon2;
use zkhash::poseidon2::poseidon2_instance_goldilocks::POSEIDON2_GOLDILOCKS_8_PARAMS;

/// A fixed "random enough" value stream, so that test inputs are arbitrary
/// field elements without any dependence on a random source.
fn arbitrary_elem(seed: u64) -> u64 {
    // A 64-bit mix, reduced into the field.
    let x = seed
        .wrapping_mul(0x9e37_79b9_7f4a_7c15)
        .wrapping_add(0x7f4a_7c15_9e37_79b9);
    let x = x ^ (x >> 29);
    let x = x.wrapping_mul(0xbf58_476d_1ce4_e5b9);
    x % 0xffff_ffff_0000_0001
}

fn arbitrary_state(width: usize, seed: u64) -> Vec<u64> {
    (0..width).map(|i| arbitrary_elem(seed.wrapping_add(i as u64))).collect()
}

fn row_vals(trace: &Vec<Vec<u64>>, i: usize) -> Vec<u64> {
    trace.iter().map(|col| col[i]).collect()
}

#[test]
fn generation_rounds_generation() {
    // Width 8: the three stages composed sequentially equal one direct
    // permutation call.
    let preimage = arbitrary_state(8, 11);
    let output0 = generation::generate_1st_full_round_state(&preimage);
    let output1 = generation::generate_partial_round_state(output0.last().unwrap());
    let output2 = generation::generate_2st_full_round_state(output1.last().unwrap());
    let expected_output = generation::generate_outputs(&preimage);
    assert_eq!(expected_output, *output2.last().unwrap());

    // Width 12 likewise.
    let preimage = arbitrary_state(12, 23);
    let output0 = generation12::generate_1st_full_round_state(&preimage);
    let output1 = generation12::generate_partial_round_state(output0.last().unwrap());
    let output2 = generation12::generate_2st_full_round_state(output1.last().unwrap());
    let expected_output = generation12::generate_outputs(&preimage);
    assert_eq!(expected_output, *output2.last().unwrap());
}

#[test]
fn generation_generate_poseidon2_trace() {
    let num_rows = 12;

    // Width 8: 12 rows pad to 16, and the output columns agree with an
    // independent Poseidon2 implementation over the same field.
    let mut step_rows = Vec::with_capacity(num_rows);
    for r in 0..num_rows {
        step_rows.push(Row {
            preimage: arbitrary_state(8, 100 + r as u64 * 31),
        });
    }
    let preimages: Vec<Vec<u64>> = step_rows.iter().map(|r| r.preimage.clone()).collect();
    let trace = generation::generate_poseidon2_trace(step_rows);
    assert_eq!(trace.len(), generation::layout_8().num_cols);
    for col in trace.iter() {
        assert_eq!(col.len(), 16);
    }

    let instance = RefPoseidon2::new(&POSEIDON2_GOLDILOCKS_8_PARAMS);
    let output_start = generation::layout_8().output_start;
    for (i, preimage) in preimages.iter().enumerate() {
        let input: Vec<FpGoldiLocks> = preimage.iter().map(|x| FpGoldiLocks::from(*x)).collect();
        let perm = instance.permutation(&input);
        for j in 0..8 {
            let expected_val = FpGoldiLocks::from(trace[output_start + j][i]);
            assert_eq!(perm[j], expected_val, "Mismatch at row {}, position {}", i, j);
        }
    }

    // Width 12: 12 rows pad to 16, and the output columns equal the
    // library's own permutation of each preimage.
    let mut step_rows = Vec::with_capacity(num_rows);
    for r in 0..num_rows {
        step_rows.push(Row {
            preimage: arbitrary_state(12, 500 + r as u64 * 37),
        });
    }
    let trace = generation12::generate_poseidon2_trace(&step_rows);
    assert_eq!(trace.len(), generation12::layout_12().num_cols);
    for col in trace.iter() {
        assert_eq!(col.len(), 16);
    }
    let output_start = generation12::layout_12().output_start;
    for (i, row) in step_rows.iter().enumerate() {
        let expected_hash = generation12::generate_outputs(&row.preimage);
        for j in 0..12 {
            assert_eq!(
                expected_hash[j],
                trace[output_start + j][i],
                "Mismatch at row {}, position {}",
                i,
                j
            );
        }
    }
}

#[test]
fn generate_poseidon2_trace_with_dummy() {
    let step_rows = vec![];
    let trace = generation12::generate_poseidon2_trace(&step_rows);
    assert_eq!(trace[0].len(), 1);
}

#[test]
fn zero_row_synthesis_selector_is_zero() {
    // An empty input synthesizes exactly one row whose selector is 0 and
    // whose output columns are the permutation of the all-zero state.
    let step_rows = vec![];
    let trace = generation12::generate_poseidon2_trace(&step_rows);
    let layout = generation12::layout_12();
    assert_eq!(trace.len(), layout.num_cols);
    for col in trace.iter() {
        assert_eq!(col.len(), 1);
    }
    assert_eq!(trace[generation12::COL_IS_EXE][0], 0);
    let zero_state = vec![0u64; 12];
    let expected = generation12::generate_outputs(&zero_state);
    for j in 0..12 {
        assert_eq!(trace[layout.output_start + j][0], expected[j]);
    }
}

#[test]
fn selector_marks_real_rows_and_padding() {
    let step_rows = vec![
        Row { preimage: arbitrary_state(12, 1) },
        Row { preimage: arbitrary_state(12, 2) },
        Row { preimage: arbitrary_state(12, 3) },
    ];
    let trace = generation12::generate_poseidon2_trace(&step_rows);
    // 3 rows pad to 4.
    assert_eq!(trace[0].len(), 4);
    assert_eq!(trace[generation12::COL_IS_EXE][0], 1);
    assert_eq!(trace[generation12::COL_IS_EXE][1], 1);
    assert_eq!(trace[generation12::COL_IS_EXE][2], 1);
    assert_eq!(trace[generation12::COL_IS_EXE][3], 0);
    // Every other column of the padding row repeats the last real row.
    let last = row_vals(&trace, 2);
    let pad = row_vals(&trace, 3);
    for c in 1..trace.len() {
        assert_eq!(pad[c], last[c], "Mismatch at padding column {}", c);
    }
}

#[test]
fn pad_trace_is_a_no_op_on_power_of_two_heights() {
    // A 4-row (power-of-two) matrix is unchanged by padding.
    let cols: Vec<Vec<u64>> = vec![vec![1, 2, 3, 4], vec![5, 6, 7, 8]];
    let padded = pad_trace(cols.clone(), false);
    assert_eq!(padded, cols);
    // A 3-row matrix grows to 4 rows, duplicating each column's last value,
    // with a selector column forced to 0 instead.
    let cols: Vec<Vec<u64>> = vec![vec![1, 1, 1], vec![9, 8, 7]];
    let padded = pad_trace(cols, true);
    assert_eq!(padded, vec![vec![1, 1, 1, 0], vec![9, 8, 7, 7]]);
}

#[test]
fn next_pow2_values() {
    assert_eq!(next_pow2(0), 1);
    assert_eq!(next_pow2(1), 1);
    assert_eq!(next_pow2(2), 2);
    assert_eq!(next_pow2(3), 4);
    assert_eq!(next_pow2(12), 16);
    assert_eq!(next_pow2(16), 16);
    assert_eq!(next_pow2(17), 32);
}
