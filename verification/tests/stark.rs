//! Tests of the constraint evaluator: every constraint vanishes on a
//! generated trace row, corrupting any recorded column breaks at least one
//! constraint, and the declared degree bound holds.

use poseidon2_starky::generation;
use poseidon2_starky::generation12;
use poseidon2_starky::generation::Row;
use poseidon2_starky::stark::Poseidon2Stark;
use poseidon2_starky::stark12::Poseidon2_12Stark;

fn arbitrary_elem(seed: u64) -> u64 {
    let x = seed
        .wrapping_mul(0x9e37_79b9_7f4a_7c15)
        .wrapping_add(0x7f4a_7c15_9e37_79b9);
    let x = x ^ (x >> 29);
    let x = x.wrapping_mul(0xbf58_476d_1ce4_e5b9);
    x % 0xffff_ffff_0000_0001
}

fn row_vals(trace: &Vec<Vec<u64>>, i: usize) -> Vec<u64> {
    trace.iter().map(|col| col[i]).collect()
}

#[test]
fn stark_poseidon2_constraints() {
    // Width 8, the literal input state [1..8]: the recorded state after the
    // last partial round holds its known value, and every constraint on the
    // row evaluates to the additive identity of the field.
    let preimage: Vec<u64> = (1..=8u64).collect();
    let step_rows = vec![Row { preimage: preimage.clone() }];
    let trace = generation::generate_poseidon2_trace(step_rows);
    let layout = generation::layout_8();

    let expected_partial_end: [u64; 8] = [
        8819548283525844653,
        12228992105858652070,
        4861132991556502187,
        5587681080442376794,
        1339891673634421267,
        13568472719586988937,
        16342764561928125140,
        13652518956506335588,
    ];
    for j in 0..8 {
        assert_eq!(trace[layout.partial_end_start + j][0], expected_partial_end[j]);
    }

    let stark = Poseidon2Stark::new();
    let lv = row_vals(&trace, 0);
    let constraints = stark.evaluate(&lv);
    assert_eq!(constraints.len(), 94);
    for (k, c) in constraints.iter().enumerate() {
        assert_eq!(*c, 0, "Constraint {} is nonzero on a valid row", k);
    }

    // Corrupting any single recorded column by a nonzero field element
    // makes at least one constraint nonzero.
    for c in layout.first_start..layout.num_cols {
        let mut bad = lv.clone();
        bad[c] = (bad[c] + 1) % 0xffff_ffff_0000_0001;
        let constraints = stark.evaluate(&bad);
        assert!(
            constraints.iter().any(|v| *v != 0),
            "No constraint caught a corruption of column {}",
            c
        );
    }

    // Width 12: the constraints vanish on every genuine row of a 12-row
    // trace, and on its padding rows.
    let mut step_rows = Vec::new();
    for r in 0..12u64 {
        let preimage: Vec<u64> = (0..12).map(|i| arbitrary_elem(r * 1000 + i)).collect();
        step_rows.push(Row { preimage });
    }
    let trace = generation12::generate_poseidon2_trace(&step_rows);
    let stark = Poseidon2_12Stark::new();
    for i in 0..16 {
        let lv = row_vals(&trace, i);
        let constraints = stark.evaluate(&lv);
        assert_eq!(constraints.len(), 130);
        for (k, c) in constraints.iter().enumerate() {
            assert_eq!(*c, 0, "Constraint {} is nonzero on row {}", k, i);
        }
    }

    // Corrupting a width-12 row likewise breaks a constraint.
    let layout = generation12::layout_12();
    let lv = row_vals(&trace, 0);
    for c in layout.first_start..layout.num_cols {
        let mut bad = lv.clone();
        bad[c] = (bad[c] + 1) % 0xffff_ffff_0000_0001;
        let constraints = stark.evaluate(&bad);
        assert!(
            constraints.iter().any(|v| *v != 0),
            "No constraint caught a corruption of column {}",
            c
        );
    }
}

#[test]
fn stark_poseidon2_stark_degree() {
    // The declared constraint degree is 7, and the degree accounting bounds
    // every constraint by it, reaching it on the S-box rounds.
    let stark = Poseidon2Stark::new();
    assert_eq!(stark.constraint_degree(), 7);
    let bounds = stark.degree_bounds();
    assert_eq!(bounds.len(), 94);
    assert!(bounds.iter().all(|b| 1 <= *b && *b <= 7));
    assert_eq!(bounds.iter().max().copied(), Some(7));

    let stark = Poseidon2_12Stark::new();
    assert_eq!(stark.constraint_degree(), 7);
    let bounds = stark.degree_bounds();
    assert_eq!(bounds.len(), 130);
    assert!(bounds.iter().all(|b| 1 <= *b && *b <= 7));
    assert_eq!(bounds.iter().max().copied(), Some(7));
}
