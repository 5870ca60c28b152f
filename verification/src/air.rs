//! The row-local constraint evaluator: re-computes each round of the
//! permutation from the values a trace row records, emits one constraint
//! per recorded value (re-computation minus record), and substitutes the
//! recorded value back before continuing — the "snap to trace" step that
//! keeps every constraint's polynomial degree bounded by one S-box.

use vstd::prelude::*;

use crate::field::{f_add, f_sub, fsub, is_elem};
use crate::layout::ColumnLayout;
use crate::model::{
    elems_ok, ext_layer_spec, first_state, full_round_spec, partial_round_spec, partial_state,
    second_state,
};
use crate::params::ParamsView;
use crate::poseidon2::Poseidon2;
use crate::trace::row_records;

verus! {

/// The input-state block of a row of values.
pub open spec fn input_block(lv: Seq<u64>, l: ColumnLayout) -> Seq<u64> {
    lv.subrange(l.input_start as int, l.input_start + l.state_size)
}

/// The recorded state after full round `r` of the first half.
pub open spec fn recorded_first(lv: Seq<u64>, l: ColumnLayout, r: int) -> Seq<u64> {
    let t = l.state_size as int;
    lv.subrange(l.first_start + t * r, l.first_start + t * r + t)
}

/// The recorded state after the last partial round.
pub open spec fn recorded_end(lv: Seq<u64>, l: ColumnLayout) -> Seq<u64> {
    lv.subrange(l.partial_end_start as int, l.partial_end_start + l.state_size)
}

/// The recorded state after full round `r` of the second half.
pub open spec fn recorded_second(lv: Seq<u64>, l: ColumnLayout, r: int) -> Seq<u64> {
    let t = l.state_size as int;
    lv.subrange(l.second_start + t * r, l.second_start + t * r + t)
}

/// The state the evaluator starts round `r` of the first half from: the
/// external layer over the inputs for round 0, else the previous recorded
/// state.
pub open spec fn first_round_input(lv: Seq<u64>, pv: ParamsView, l: ColumnLayout, r: int) -> Seq<
    u64,
> {
    if r == 0 {
        ext_layer_spec(input_block(lv, l))
    } else {
        recorded_first(lv, l, r - 1)
    }
}

/// The evaluator's working state after `r` partial rounds: each round
/// re-computes from the previous state and substitutes the recorded value
/// into element 0.
pub open spec fn air_partial_state(lv: Seq<u64>, pv: ParamsView, l: ColumnLayout, r: nat) -> Seq<
    u64,
>
    decreases r,
{
    if r == 0 {
        recorded_first(lv, l, l.rounds_f_half - 1)
    } else {
        partial_round_spec(
            air_partial_state(lv, pv, l, (r - 1) as nat),
            pv.rc[pv.rounds_f_beginning + r - 1][0],
            pv.diag,
            pv.d,
        ).update(0, lv[l.partial_start + r - 1])
    }
}

/// The state the evaluator starts round `r` of the second half from: the
/// recorded partial-round-end state for round 0, else the previous recorded
/// state.
pub open spec fn second_round_input(lv: Seq<u64>, pv: ParamsView, l: ColumnLayout, r: int) -> Seq<
    u64,
> {
    if r == 0 {
        recorded_end(lv, l)
    } else {
        recorded_second(lv, l, r - 1)
    }
}

/// Total number of emitted constraints: one per recorded value.
pub open spec fn n_constraints(l: ColumnLayout) -> int {
    let t = l.state_size as int;
    t * l.rounds_f_half + l.rounds_p + t + t * l.rounds_f_half
}

/// The `k`-th emitted constraint: the re-computed value minus the recorded
/// value, in emission order (first-half rounds, partial rounds, the
/// partial-round-end block, second-half rounds).
pub open spec fn constraint_at(lv: Seq<u64>, pv: ParamsView, l: ColumnLayout, k: int) -> u64 {
    let t = l.state_size as int;
    let rf = l.rounds_f_half as int;
    let rp = l.rounds_p as int;
    if k < t * rf {
        let r = k / t;
        let i = k % t;
        fsub(
            full_round_spec(first_round_input(lv, pv, l, r), pv.rc[r], pv.d)[i],
            lv[l.first_start + k],
        )
    } else if k < t * rf + rp {
        let r = k - t * rf;
        fsub(
            partial_round_spec(
                air_partial_state(lv, pv, l, r as nat),
                pv.rc[l.rounds_f_half + r][0],
                pv.diag,
                pv.d,
            )[0],
            lv[l.partial_start + r],
        )
    } else if k < t * rf + rp + t {
        let i = k - (t * rf + rp);
        fsub(air_partial_state(lv, pv, l, l.rounds_p as nat)[i], lv[l.partial_end_start + i])
    } else {
        let k2 = k - (t * rf + rp + t);
        let r = k2 / t;
        let i = k2 % t;
        fsub(
            full_round_spec(second_round_input(lv, pv, l, r), pv.rc[rf + rp + r], pv.d)[i],
            lv[l.second_start + k2],
        )
    }
}

/// Copies `t` consecutive values out of a row of values.
pub fn read_block(lv: &Vec<u64>, start: usize, t: usize) -> (b: Vec<u64>)
    requires
        start + t <= lv@.len(),
    ensures
        b@ == lv@.subrange(start as int, start + t),
        b@.len() == t,
{
    let n = lv.len();
    let mut b: Vec<u64> = Vec::new();
    let mut k: usize = 0;
    while k < t
        invariant
            start + t <= n,
            n == lv@.len(),
            k <= t,
            b@.len() == k,
            forall|i: int| 0 <= i < k ==> #[trigger] b@[i] == lv@[start + i],
        decreases t - k,
    {
        b.push(lv[start + k]);
        k = k + 1;
    }
    proof {
        assert(b@ =~= lv@.subrange(start as int, start + t));
    }
    b
}

/// Evaluates every constraint on one row of values. The result is all zeros
/// exactly when the row records a run of the permutation.
#[verifier::rlimit(100)]
pub fn eval_constraints(perm: &Poseidon2, layout: &ColumnLayout, lv: &Vec<u64>) -> (out: Vec<u64>)
    requires
        perm.params.wf(),
        layout.wf(),
        layout.matches(perm.params@),
        lv@.len() == layout.num_cols,
        elems_ok(lv@),
    ensures
        out@.len() == n_constraints(*layout),
        forall|k: int|
            0 <= k < out@.len() ==> #[trigger] out@[k] == constraint_at(
                lv@,
                perm.params@,
                *layout,
                k,
            ),
        elems_ok(out@),
{
    let ghost pv = perm.params@;
    let ghost l = *layout;
    let t = perm.params.t;
    let rf = perm.params.rounds_f_beginning;
    let rp = perm.params.rounds_p;
    let mut out: Vec<u64> = Vec::new();

    // The external layer over the input block.
    let mut state = read_block(lv, layout.input_start, t);
    perm.matmul_external(&mut state);
    proof {
        assert(state@ == first_round_input(lv@, pv, l, 0));
    }

    // First half of the full rounds: re-compute, emit, snap.
    let mut r: usize = 0;
    while r < rf
        invariant
            perm.params.wf(),
            pv == perm.params@,
            l == *layout,
            l.wf(),
            l.matches(pv),
            lv@.len() == l.num_cols,
            elems_ok(lv@),
            t == perm.params.t,
            rf == perm.params.rounds_f_beginning,
            rp == perm.params.rounds_p,
            r <= rf,
            state@ == first_round_input(lv@, pv, l, r as int),
            state@.len() == t,
            elems_ok(state@),
            out@.len() == t * r,
            forall|k: int|
                0 <= k < out@.len() ==> #[trigger] out@[k] == constraint_at(lv@, pv, l, k),
            elems_ok(out@),
        decreases rf - r,
    {
        proof {
            assert(pv.rc[r as int].len() == pv.t);
            assert(pv.rc[r as int] == perm.params.round_constants@[r as int]@);
            crate::trace::lemma_block_step(t as int, r as int, rf as int);
            assert(t * rf == l.state_size * l.rounds_f_half);
            assert(l.first_start + t * r + t <= l.partial_start);
        }
        let base = layout.first_start + t * r;
        let added = perm.add_rc(&state, &perm.params.round_constants[r]);
        let boxed = perm.sbox(&added);
        state = boxed;
        perm.matmul_external(&mut state);
        let ghost recomputed = state@;
        proof {
            assert(recomputed == full_round_spec(
                first_round_input(lv@, pv, l, r as int),
                pv.rc[r as int],
                pv.d,
            ));
        }
        let mut i: usize = 0;
        while i < t
            invariant
                perm.params.wf(),
                pv == perm.params@,
                l == *layout,
                l.wf(),
                l.matches(pv),
                lv@.len() == l.num_cols,
                elems_ok(lv@),
                t == perm.params.t,
                rf == perm.params.rounds_f_beginning,
                r < rf,
                base == l.first_start + t * r,
                base + t <= l.partial_start,
                state@ == recomputed,
                recomputed == full_round_spec(
                    first_round_input(lv@, pv, l, r as int),
                    pv.rc[r as int],
                    pv.d,
                ),
                state@.len() == t,
                elems_ok(state@),
                i <= t,
                out@.len() == t * r + i,
                forall|k: int|
                    0 <= k < out@.len() ==> #[trigger] out@[k] == constraint_at(lv@, pv, l, k),
                elems_ok(out@),
            decreases t - i,
        {
            out.push(f_sub(state[i], lv[base + i]));
            proof {
                let k = t * (r as int) + i;
                assert(k / (t as int) == r as int && k % (t as int) == i) by (nonlinear_arith)
                    requires
                        k == t * (r as int) + i,
                        0 <= i < t,
                        0 <= (r as int),
                ;
                assert(k < t * rf);
                assert(out@[k] == constraint_at(lv@, pv, l, k));
            }
            i = i + 1;
        }
        // Snap to the recorded state.
        state = read_block(lv, base, t);
        proof {
            assert(state@ == recorded_first(lv@, l, r as int));
            assert(first_round_input(lv@, pv, l, (r + 1) as int) == recorded_first(
                lv@,
                l,
                r as int,
            ));
        }
        r = r + 1;
    }

    // Partial rounds: re-compute, emit element 0, snap element 0.
    let mut q: usize = 0;
    proof {
        assert(state@ == air_partial_state(lv@, pv, l, 0));
    }
    while q < rp
        invariant
            perm.params.wf(),
            pv == perm.params@,
            l == *layout,
            l.wf(),
            l.matches(pv),
            lv@.len() == l.num_cols,
            elems_ok(lv@),
            t == perm.params.t,
            rf == perm.params.rounds_f_beginning,
            rp == perm.params.rounds_p,
            q <= rp,
            state@ == air_partial_state(lv@, pv, l, q as nat),
            state@.len() == t,
            elems_ok(state@),
            out@.len() == t * rf + q,
            forall|k: int|
                0 <= k < out@.len() ==> #[trigger] out@[k] == constraint_at(lv@, pv, l, k),
            elems_ok(out@),
        decreases rp - q,
    {
        let idx = perm.params.rounds_f_beginning + q;
        proof {
            assert(pv.rc[idx as int].len() == pv.t);
            assert(pv.rc[idx as int] == perm.params.round_constants@[idx as int]@);
        }
        let rc0 = perm.params.round_constants[idx][0];
        let x = f_add(state[0], rc0);
        let sx = perm.sbox_p(x);
        let ghost before = state@;
        state[0] = sx;
        perm.matmul_internal(&mut state, &perm.params.mat_internal_diag_m_1);
        proof {
            assert(state@ == partial_round_spec(before, pv.rc[idx as int][0], pv.diag, pv.d));
        }
        out.push(f_sub(state[0], lv[layout.partial_start + q]));
        state[0] = lv[layout.partial_start + q];
        proof {
            let k = t * (rf as int) + q;
            assert(out@[k] == constraint_at(lv@, pv, l, k));
            assert(state@ == air_partial_state(lv@, pv, l, (q + 1) as nat));
        }
        q = q + 1;
    }

    // The partial-round-end block: emit the whole state, snap it.
    let mut i: usize = 0;
    while i < t
        invariant
            perm.params.wf(),
            pv == perm.params@,
            l == *layout,
            l.wf(),
            l.matches(pv),
            lv@.len() == l.num_cols,
            elems_ok(lv@),
            t == perm.params.t,
            rf == perm.params.rounds_f_beginning,
            rp == perm.params.rounds_p,
            state@ == air_partial_state(lv@, pv, l, rp as nat),
            state@.len() == t,
            elems_ok(state@),
            i <= t,
            out@.len() == t * rf + rp + i,
            forall|k: int|
                0 <= k < out@.len() ==> #[trigger] out@[k] == constraint_at(lv@, pv, l, k),
            elems_ok(out@),
        decreases t - i,
    {
        out.push(f_sub(state[i], lv[layout.partial_end_start + i]));
        proof {
            let k = t * (rf as int) + rp + i;
            assert(out@[k] == constraint_at(lv@, pv, l, k));
        }
        i = i + 1;
    }
    state = read_block(lv, layout.partial_end_start, t);
    proof {
        assert(state@ == second_round_input(lv@, pv, l, 0));
    }

    // Second half of the full rounds: re-compute, emit, snap.
    let mut r2: usize = 0;
    while r2 < rf
        invariant
            perm.params.wf(),
            pv == perm.params@,
            l == *layout,
            l.wf(),
            l.matches(pv),
            lv@.len() == l.num_cols,
            elems_ok(lv@),
            t == perm.params.t,
            rf == perm.params.rounds_f_beginning,
            rp == perm.params.rounds_p,
            r2 <= rf,
            state@ == second_round_input(lv@, pv, l, r2 as int),
            state@.len() == t,
            elems_ok(state@),
            out@.len() == t * rf + rp + t + t * r2,
            forall|k: int|
                0 <= k < out@.len() ==> #[trigger] out@[k] == constraint_at(lv@, pv, l, k),
            elems_ok(out@),
        decreases rf - r2,
    {
        let idx = perm.params.rounds_f_beginning + perm.params.rounds_p + r2;
        proof {
            assert(pv.rc[idx as int].len() == pv.t);
            assert(pv.rc[idx as int] == perm.params.round_constants@[idx as int]@);
            crate::trace::lemma_block_step(t as int, r2 as int, rf as int);
            assert(t * rf == l.state_size * l.rounds_f_half);
            assert(l.second_start + t * r2 + t <= l.num_cols);
        }
        let base2 = layout.second_start + t * r2;
        let added = perm.add_rc(&state, &perm.params.round_constants[idx]);
        let boxed = perm.sbox(&added);
        state = boxed;
        perm.matmul_external(&mut state);
        let ghost recomputed = state@;
        proof {
            assert(recomputed == full_round_spec(
                second_round_input(lv@, pv, l, r2 as int),
                pv.rc[idx as int],
                pv.d,
            ));
        }
        let mut i2: usize = 0;
        while i2 < t
            invariant
                perm.params.wf(),
                pv == perm.params@,
                l == *layout,
                l.wf(),
                l.matches(pv),
                lv@.len() == l.num_cols,
                elems_ok(lv@),
                t == perm.params.t,
                rf == perm.params.rounds_f_beginning,
                rp == perm.params.rounds_p,
                r2 < rf,
                base2 == l.second_start + t * r2,
                base2 + t <= l.num_cols,
                state@ == recomputed,
                recomputed == full_round_spec(
                    second_round_input(lv@, pv, l, r2 as int),
                    pv.rc[rf as int + rp as int + r2 as int],
                    pv.d,
                ),
                state@.len() == t,
                elems_ok(state@),
                i2 <= t,
                out@.len() == t * rf + rp + t + t * r2 + i2,
                forall|k: int|
                    0 <= k < out@.len() ==> #[trigger] out@[k] == constraint_at(lv@, pv, l, k),
                elems_ok(out@),
            decreases t - i2,
        {
            out.push(f_sub(state[i2], lv[base2 + i2]));
            proof {
                let k2 = t * (r2 as int) + i2;
                let k = t * (rf as int) + rp + t + k2;
                assert(k2 / (t as int) == r2 as int && k2 % (t as int) == i2) by (nonlinear_arith)
                    requires
                        k2 == t * (r2 as int) + i2,
                        0 <= i2 < t,
                        0 <= (r2 as int),
                ;
                assert(out@[k] == constraint_at(lv@, pv, l, k));
            }
            i2 = i2 + 1;
        }
        state = read_block(lv, base2, t);
        proof {
            assert(state@ == recorded_second(lv@, l, r2 as int));
            assert(second_round_input(lv@, pv, l, (r2 + 1) as int) == recorded_second(
                lv@,
                l,
                r2 as int,
            ));
        }
        r2 = r2 + 1;
    }
    out
}

/// The largest element of a non-empty vector.
fn max_in(v: &Vec<u64>) -> (m: u64)
    requires
        v@.len() >= 1,
    ensures
        forall|i: int| 0 <= i < v@.len() ==> #[trigger] v@[i] <= m,
        exists|i: int| 0 <= i < v@.len() && #[trigger] v@[i] == m,
{
    let mut m = v[0];
    let mut i: usize = 1;
    while i < v.len()
        invariant
            1 <= i <= v@.len(),
            forall|j: int| 0 <= j < i ==> #[trigger] v@[j] <= m,
            exists|j: int| 0 <= j < i && #[trigger] v@[j] == m,
        decreases v@.len() - i,
    {
        if v[i] > m {
            m = v[i];
        }
        i = i + 1;
    }
    m
}

/// Degree accounting for the constraint system, mirroring the evaluator's
/// control flow over degree bounds instead of field values: every trace
/// column is a degree-1 variable; adding a round constant keeps the degree;
/// the S-box multiplies it by the S-box exponent; a linear layer bounds
/// every output by the largest input degree; each emitted constraint is the
/// re-computed value minus a degree-1 column; and the snap to the recorded
/// column resets the working degree to 1. The bound on every constraint is
/// the S-box exponent — one S-box application per constraint — which is why
/// `constraint_degree` reports that exponent.
pub fn constraint_degree_bounds(perm: &Poseidon2, layout: &ColumnLayout) -> (out: Vec<u64>)
    requires
        perm.params.wf(),
        layout.wf(),
        layout.matches(perm.params@),
    ensures
        out@.len() == n_constraints(*layout),
        forall|k: int| 0 <= k < out@.len() ==> 1 <= #[trigger] out@[k] <= perm.params.d,
{
    let ghost l = *layout;
    let t = perm.params.t;
    let rf = perm.params.rounds_f_beginning;
    let rp = perm.params.rounds_p;
    let d = perm.params.d as u64;
    let mut out: Vec<u64> = Vec::new();
    // The input columns are degree-1 variables; the initial external layer
    // is linear and keeps every degree at 1.
    let mut state: Vec<u64> = Vec::new();
    let mut k: usize = 0;
    while k < t
        invariant
            k <= t,
            state@.len() == k,
            forall|i: int| 0 <= i < k ==> #[trigger] state@[i] == 1,
        decreases t - k,
    {
        state.push(1);
        k = k + 1;
    }
    // First half of the full rounds.
    let mut r: usize = 0;
    while r < rf
        invariant
            perm.params.wf(),
            l == *layout,
            l.wf(),
            l.matches(perm.params@),
            t == perm.params.t,
            rf == perm.params.rounds_f_beginning,
            d == perm.params.d,
            3 <= d <= 7,
            t >= 2,
            r <= rf,
            state@.len() == t,
            forall|i: int| 0 <= i < t ==> #[trigger] state@[i] == 1,
            out@.len() == t * r,
            forall|k2: int| 0 <= k2 < out@.len() ==> 1 <= #[trigger] out@[k2] <= d,
        decreases rf - r,
    {
        proof {
            crate::trace::lemma_block_step(t as int, r as int, rf as int);
        }
        // Round constants keep the degree; the S-box multiplies it by `d`;
        // the external layer takes the maximum.
        let mut i: usize = 0;
        while i < t
            invariant
                i <= t,
                d >= 1,
                state@.len() == t,
                forall|j: int| 0 <= j < i ==> #[trigger] state@[j] == d,
                forall|j: int| i <= j < t ==> #[trigger] state@[j] == 1,
            decreases t - i,
        {
            let v = state[i];
            state[i] = d * v;
            i = i + 1;
        }
        let mx = max_in(&state);
        proof {
            assert(mx == d);
        }
        // One constraint per state element, then the snap to degree 1.
        let mut i2: usize = 0;
        while i2 < t
            invariant
                i2 <= t,
                1 <= d <= 7,
                t * r + i2 <= t * r + t,
                out@.len() == t * r + i2,
                mx == d,
                forall|k2: int| 0 <= k2 < out@.len() ==> 1 <= #[trigger] out@[k2] <= d,
            decreases t - i2,
        {
            out.push(if mx > 1 {
                mx
            } else {
                1
            });
            i2 = i2 + 1;
        }
        let mut i3: usize = 0;
        while i3 < t
            invariant
                i3 <= t,
                state@.len() == t,
                forall|j: int| 0 <= j < i3 ==> #[trigger] state@[j] == 1,
            decreases t - i3,
        {
            state[i3] = 1;
            i3 = i3 + 1;
        }
        r = r + 1;
    }
    // Partial rounds: the S-box touches element 0 only; the internal layer
    // spreads the maximum; only element 0 is snapped.
    let mut q: usize = 0;
    while q < rp
        invariant
            d >= 1,
            3 <= d <= 7,
            t >= 2,
            rp == perm.params.rounds_p,
            q <= rp,
            state@.len() == t,
            state@[0] == 1,
            forall|i: int| 0 <= i < t ==> 1 <= #[trigger] state@[i] <= d,
            out@.len() == t * rf + q,
            forall|k2: int| 0 <= k2 < out@.len() ==> 1 <= #[trigger] out@[k2] <= d,
        decreases rp - q,
    {
        let v0 = state[0];
        state[0] = d * v0;
        let mx = max_in(&state);
        proof {
            assert(1 <= mx <= d);
        }
        let mut i: usize = 0;
        while i < t
            invariant
                i <= t,
                1 <= mx <= d,
                state@.len() == t,
                forall|j: int| 0 <= j < i ==> #[trigger] state@[j] == mx,
                forall|j: int| i <= j < t ==> 1 <= #[trigger] state@[j] <= 7 * d,
            decreases t - i,
        {
            state[i] = mx;
            i = i + 1;
        }
        out.push(if mx > 1 {
            mx
        } else {
            1
        });
        state[0] = 1;
        q = q + 1;
    }
    // The partial-round-end block: one constraint per element, then the
    // snap of the whole state.
    let mut i4: usize = 0;
    while i4 < t
        invariant
            3 <= d <= 7,
            t >= 2,
            i4 <= t,
            state@.len() == t,
            forall|i: int| 0 <= i < t ==> 1 <= #[trigger] state@[i] <= d,
            forall|j: int| 0 <= j < i4 ==> #[trigger] state@[j] == 1,
            out@.len() == t * rf + rp + i4,
            forall|k2: int| 0 <= k2 < out@.len() ==> 1 <= #[trigger] out@[k2] <= d,
        decreases t - i4,
    {
        let v = state[i4];
        out.push(if v > 1 {
            v
        } else {
            1
        });
        state[i4] = 1;
        i4 = i4 + 1;
    }
    // Second half of the full rounds: identical accounting.
    let mut r2: usize = 0;
    while r2 < rf
        invariant
            perm.params.wf(),
            l == *layout,
            l.wf(),
            l.matches(perm.params@),
            t == perm.params.t,
            rf == perm.params.rounds_f_beginning,
            rp == perm.params.rounds_p,
            d == perm.params.d,
            3 <= d <= 7,
            t >= 2,
            r2 <= rf,
            state@.len() == t,
            forall|i: int| 0 <= i < t ==> #[trigger] state@[i] == 1,
            out@.len() == t * rf + rp + t + t * r2,
            forall|k2: int| 0 <= k2 < out@.len() ==> 1 <= #[trigger] out@[k2] <= d,
        decreases rf - r2,
    {
        proof {
            crate::trace::lemma_block_step(t as int, r2 as int, rf as int);
        }
        let mut i: usize = 0;
        while i < t
            invariant
                i <= t,
                d >= 1,
                state@.len() == t,
                forall|j: int| 0 <= j < i ==> #[trigger] state@[j] == d,
                forall|j: int| i <= j < t ==> #[trigger] state@[j] == 1,
            decreases t - i,
        {
            let v = state[i];
            state[i] = d * v;
            i = i + 1;
        }
        let mx = max_in(&state);
        proof {
            assert(mx == d);
        }
        let mut i2: usize = 0;
        while i2 < t
            invariant
                i2 <= t,
                1 <= d <= 7,
                out@.len() == t * rf + rp + t + t * r2 + i2,
                mx == d,
                forall|k2: int| 0 <= k2 < out@.len() ==> 1 <= #[trigger] out@[k2] <= d,
            decreases t - i2,
        {
            out.push(if mx > 1 {
                mx
            } else {
                1
            });
            i2 = i2 + 1;
        }
        let mut i3: usize = 0;
        while i3 < t
            invariant
                i3 <= t,
                state@.len() == t,
                forall|j: int| 0 <= j < i3 ==> #[trigger] state@[j] == 1,
            decreases t - i3,
        {
            state[i3] = 1;
            i3 = i3 + 1;
        }
        r2 = r2 + 1;
    }
    out
}

/// On a recorded row, the evaluator's partial-round state equals the
/// generator's: substituting the recorded element 0 back is a no-op.
#[verifier::rlimit(100)]
proof fn lemma_air_partial_on_records(
    lv: Seq<u64>,
    pre: Seq<u64>,
    pv: ParamsView,
    l: ColumnLayout,
    r: nat,
)
    requires
        pv.wf(),
        l.wf(),
        l.matches(pv),
        pre.len() == pv.t,
        row_records(lv, pre, pv, l),
        r <= pv.rounds_p,
    ensures
        air_partial_state(lv, pv, l, r) == partial_state(pre, pv, r),
        air_partial_state(lv, pv, l, r).len() == pv.t,
    decreases r,
{
    let t = l.state_size as int;
    if r == 0 {
        let last = l.rounds_f_half - 1;
        crate::trace::lemma_block_step(t, last, l.rounds_f_half as int);
        assert(lv.subrange(l.first_start + t * last, l.first_start + t * last + t) == first_state(
            pre,
            pv,
            (last + 1) as nat,
        ));
        assert(recorded_first(lv, l, last) == first_state(pre, pv, pv.rounds_f_beginning));
        assert(first_state(pre, pv, pv.rounds_f_beginning) == partial_state(pre, pv, 0));
    } else {
        lemma_air_partial_on_records(lv, pre, pv, l, (r - 1) as nat);
        let prev = partial_state(pre, pv, (r - 1) as nat);
        let rc0 = pv.rc[pv.rounds_f_beginning + r - 1][0];
        let stepped = partial_round_spec(prev, rc0, pv.diag, pv.d);
        assert(stepped == partial_state(pre, pv, r));
        assert(lv[l.partial_start + (r - 1)] == partial_state(pre, pv, ((r - 1) + 1) as nat)[0]);
        crate::model::lemma_int_layer_len(
            prev.update(0, crate::model::sbox_spec(crate::field::fadd(prev[0], rc0), pv.d)),
            pv.diag,
        );
        assert(stepped.len() == prev.len());
        assert(stepped.update(0, stepped[0]) =~= stepped);
    }
}

/// On a row that records a run of the permutation (as the trace generator
/// produces), every emitted constraint evaluates to the additive identity
/// of the field.
#[verifier::rlimit(100)]
pub proof fn lemma_constraints_vanish(lv: Seq<u64>, pre: Seq<u64>, pv: ParamsView, l: ColumnLayout)
    requires
        pv.wf(),
        l.wf(),
        l.matches(pv),
        pre.len() == pv.t,
        row_records(lv, pre, pv, l),
    ensures
        forall|k: int| 0 <= k < n_constraints(l) ==> #[trigger] constraint_at(lv, pv, l, k) == 0,
{
    let t = l.state_size as int;
    let rf = l.rounds_f_half as int;
    let rp = l.rounds_p as int;
    assert(input_block(lv, l) == pre);
    // First half: the re-computation from the previous record lands exactly
    // on this round's record.
    assert forall|r: int| 0 <= r < rf implies full_round_spec(
        first_round_input(lv, pv, l, r),
        pv.rc[r],
        pv.d,
    ) == first_state(pre, pv, (r + 1) as nat) by {
        if r == 0 {
            assert(first_round_input(lv, pv, l, 0) == ext_layer_spec(pre));
            assert(ext_layer_spec(pre) == first_state(pre, pv, 0));
        } else {
            assert(lv.subrange(l.first_start + t * (r - 1), l.first_start + t * (r - 1) + t)
                == first_state(pre, pv, ((r - 1) + 1) as nat));
            assert(first_round_input(lv, pv, l, r) == first_state(pre, pv, r as nat));
        }
        assert(first_state(pre, pv, (r + 1) as nat) == full_round_spec(
            first_state(pre, pv, r as nat),
            pv.rc[0 + (r + 1) - 1],
            pv.d,
        ));
    }
    // Second half likewise, starting from the partial-round-end record.
    assert(recorded_end(lv, l) == partial_state(pre, pv, pv.rounds_p));
    assert(second_state(pre, pv, 0) == partial_state(pre, pv, pv.rounds_p));
    assert forall|r: int| 0 <= r < rf implies full_round_spec(
        second_round_input(lv, pv, l, r),
        pv.rc[rf + rp + r],
        pv.d,
    ) == second_state(pre, pv, (r + 1) as nat) by {
        if r > 0 {
            assert(lv.subrange(l.second_start + t * (r - 1), l.second_start + t * (r - 1) + t)
                == second_state(pre, pv, ((r - 1) + 1) as nat));
        }
        assert(second_round_input(lv, pv, l, r) == second_state(pre, pv, r as nat));
        assert(second_state(pre, pv, (r + 1) as nat) == full_round_spec(
            second_state(pre, pv, r as nat),
            pv.rc[pv.rounds_f_beginning + pv.rounds_p as int + (r + 1) - 1],
            pv.d,
        ));
    }
    assert forall|k: int| 0 <= k < n_constraints(l) implies #[trigger] constraint_at(lv, pv, l, k)
        == 0 by {
        if k < t * rf {
            let r = k / t;
            let i = k % t;
            assert(0 <= r < rf && 0 <= i < t && k == t * r + i) by (nonlinear_arith)
                requires
                    0 <= k < t * rf,
                    t >= 1,
                    r == k / t,
                    i == k % t,
            ;
            crate::trace::lemma_block_step(t, r, rf);
            assert(lv.subrange(l.first_start + t * r, l.first_start + t * r + t) == first_state(
                pre,
                pv,
                (r + 1) as nat,
            ));
            assert(lv[l.first_start + k] == first_state(pre, pv, (r + 1) as nat)[i]);
        } else if k < t * rf + rp {
            let r = k - t * rf;
            lemma_air_partial_on_records(lv, pre, pv, l, r as nat);
            let stepped = partial_round_spec(
                partial_state(pre, pv, r as nat),
                pv.rc[l.rounds_f_half + r][0],
                pv.diag,
                pv.d,
            );
            assert(stepped == partial_state(pre, pv, (r + 1) as nat));
            assert(lv[l.partial_start + r] == partial_state(pre, pv, (r + 1) as nat)[0]);
        } else if k < t * rf + rp + t {
            let i = k - (t * rf + rp);
            lemma_air_partial_on_records(lv, pre, pv, l, pv.rounds_p);
            assert(lv[l.partial_end_start + i] == recorded_end(lv, l)[i]);
        } else {
            let k2 = k - (t * rf + rp + t);
            let r = k2 / t;
            let i = k2 % t;
            assert(0 <= r < rf && 0 <= i < t && k2 == t * r + i) by (nonlinear_arith)
                requires
                    0 <= k2 < t * rf,
                    t >= 1,
                    r == k2 / t,
                    i == k2 % t,
            ;
            crate::trace::lemma_block_step(t, r, rf);
            assert(lv.subrange(l.second_start + t * r, l.second_start + t * r + t) == second_state(
                pre,
                pv,
                (r + 1) as nat,
            ));
            assert(lv[l.second_start + k2] == second_state(pre, pv, (r + 1) as nat)[i]);
        }
    }
}

/// The evaluator's partial-round state reads only the last first-half
/// record and the partial-round columns before `r`: two rows of values that
/// agree below `partial_start + r` give the same state.
proof fn lemma_air_partial_agrees(
    lv1: Seq<u64>,
    lv2: Seq<u64>,
    pv: ParamsView,
    l: ColumnLayout,
    r: nat,
)
    requires
        l.wf(),
        l.matches(pv),
        lv1.len() == l.num_cols,
        lv2.len() == l.num_cols,
        forall|j: int| 0 <= j < l.partial_start + r ==> lv1[j] == lv2[j],
        r <= pv.rounds_p,
    ensures
        air_partial_state(lv1, pv, l, r) == air_partial_state(lv2, pv, l, r),
    decreases r,
{
    let t = l.state_size as int;
    if r == 0 {
        crate::trace::lemma_block_step(t, l.rounds_f_half - 1, l.rounds_f_half as int);
        assert(recorded_first(lv1, l, l.rounds_f_half - 1) =~= recorded_first(
            lv2,
            l,
            l.rounds_f_half - 1,
        ));
    } else {
        lemma_air_partial_agrees(lv1, lv2, pv, l, (r - 1) as nat);
        assert(lv1[l.partial_start + r - 1] == lv2[l.partial_start + r - 1]);
    }
}

/// Law: corrupting any single recorded column of a recorded row by a
/// nonzero field element makes at least one constraint nonzero. Together
/// with `lemma_constraints_vanish`, the constraint system accepts a row
/// exactly as the generator wrote it.
#[verifier::rlimit(100)]
pub proof fn lemma_constraint_detects_mutation(
    lv: Seq<u64>,
    pre: Seq<u64>,
    pv: ParamsView,
    l: ColumnLayout,
    c: int,
    delta: u64,
)
    requires
        pv.wf(),
        l.wf(),
        l.matches(pv),
        pre.len() == pv.t,
        row_records(lv, pre, pv, l),
        elems_ok(lv),
        l.first_start <= c < l.num_cols,
        0 < delta,
        is_elem(delta),
    ensures
        exists|k: int|
            0 <= k < n_constraints(l) && #[trigger] constraint_at(
                lv.update(c, crate::field::fadd(lv[c], delta)),
                pv,
                l,
                k,
            ) != 0,
{
    let t = l.state_size as int;
    let rf = l.rounds_f_half as int;
    let rp = l.rounds_p as int;
    let v = lv[c];
    let lv2 = lv.update(c, crate::field::fadd(v, delta));
    // The original value at `c` is a canonical element (it is a recorded
    // state entry), so the shift lemma applies.
    if c < l.partial_start {
        // A first-half block: the re-computation of this very round reads
        // only columns before the block, which the update left unchanged.
        let off = c - l.first_start;
        let r = off / t;
        let i = off % t;
        assert(0 <= r < rf && 0 <= i < t && off == t * r + i) by (nonlinear_arith)
            requires
                0 <= off < t * rf,
                t >= 1,
                r == off / t,
                i == off % t,
        ;
        crate::trace::lemma_block_step(t, r, rf);
        let k = t * r + i;
        if r == 0 {
            assert(input_block(lv2, l) =~= input_block(lv, l));
            assert(first_round_input(lv2, pv, l, 0) == ext_layer_spec(pre));
            assert(ext_layer_spec(pre) == first_state(pre, pv, 0));
        } else {
            crate::trace::lemma_block_step(t, r - 1, rf);
            assert(recorded_first(lv2, l, r - 1) =~= recorded_first(lv, l, r - 1));
            assert(lv.subrange(l.first_start + t * (r - 1), l.first_start + t * (r - 1) + t)
                == first_state(pre, pv, ((r - 1) + 1) as nat));
            assert(first_round_input(lv2, pv, l, r) == first_state(pre, pv, r as nat));
        }
        assert(first_state(pre, pv, (r + 1) as nat) == full_round_spec(
            first_state(pre, pv, r as nat),
            pv.rc[0 + (r + 1) - 1],
            pv.d,
        ));
        assert(lv.subrange(l.first_start + t * r, l.first_start + t * r + t) == first_state(
            pre,
            pv,
            (r + 1) as nat,
        ));
        assert(v == first_state(pre, pv, (r + 1) as nat)[i]);
        crate::field::lemma_fsub_shift_nonzero(v, delta);
        assert(constraint_at(lv2, pv, l, k) == crate::field::fsub(
            v,
            crate::field::fadd(v, delta),
        ));
        assert(constraint_at(lv2, pv, l, k) != 0);
        assert(0 <= k < n_constraints(l));
    } else if c < l.partial_end_start {
        // A partial-round column: the working state up to this round reads
        // only earlier columns.
        let r = c - l.partial_start;
        let k = t * rf + r;
        lemma_air_partial_agrees(lv, lv2, pv, l, r as nat);
        lemma_air_partial_on_records(lv, pre, pv, l, r as nat);
        let stepped = partial_round_spec(
            partial_state(pre, pv, r as nat),
            pv.rc[l.rounds_f_half + r][0],
            pv.diag,
            pv.d,
        );
        assert(stepped == partial_state(pre, pv, (r + 1) as nat));
        assert(v == partial_state(pre, pv, (r + 1) as nat)[0]);
        crate::field::lemma_fsub_shift_nonzero(v, delta);
        assert(constraint_at(lv2, pv, l, k) == crate::field::fsub(
            stepped[0],
            crate::field::fadd(v, delta),
        ));
        assert(constraint_at(lv2, pv, l, k) != 0);
        assert(0 <= k < n_constraints(l));
    } else if c < l.second_start {
        // The partial-round-end block: the working state after all partial
        // rounds reads only columns before this block.
        let i = c - l.partial_end_start;
        let k = t * rf + rp + i;
        lemma_air_partial_agrees(lv, lv2, pv, l, pv.rounds_p);
        lemma_air_partial_on_records(lv, pre, pv, l, pv.rounds_p);
        assert(recorded_end(lv, l) == partial_state(pre, pv, pv.rounds_p));
        assert(v == partial_state(pre, pv, pv.rounds_p)[i]);
        crate::field::lemma_fsub_shift_nonzero(v, delta);
        assert(constraint_at(lv2, pv, l, k) == crate::field::fsub(
            partial_state(pre, pv, pv.rounds_p)[i],
            crate::field::fadd(v, delta),
        ));
        assert(constraint_at(lv2, pv, l, k) != 0);
        assert(0 <= k < n_constraints(l));
    } else {
        // A second-half block: the re-computation of this round reads the
        // previous block only.
        let off = c - l.second_start;
        let r = off / t;
        let i = off % t;
        assert(0 <= r < rf && 0 <= i < t && off == t * r + i) by (nonlinear_arith)
            requires
                0 <= off < t * rf,
                t >= 1,
                r == off / t,
                i == off % t,
        ;
        crate::trace::lemma_block_step(t, r, rf);
        let k = t * rf + rp + t + off;
        assert(recorded_end(lv, l) == partial_state(pre, pv, pv.rounds_p));
        assert(second_state(pre, pv, 0) == partial_state(pre, pv, pv.rounds_p));
        if r == 0 {
            assert(recorded_end(lv2, l) =~= recorded_end(lv, l));
        } else {
            crate::trace::lemma_block_step(t, r - 1, rf);
            assert(recorded_second(lv2, l, r - 1) =~= recorded_second(lv, l, r - 1));
            assert(lv.subrange(l.second_start + t * (r - 1), l.second_start + t * (r - 1) + t)
                == second_state(pre, pv, ((r - 1) + 1) as nat));
        }
        assert(second_round_input(lv2, pv, l, r) == second_state(pre, pv, r as nat));
        assert(second_state(pre, pv, (r + 1) as nat) == full_round_spec(
            second_state(pre, pv, r as nat),
            pv.rc[pv.rounds_f_beginning + pv.rounds_p as int + (r + 1) - 1],
            pv.d,
        ));
        assert(lv.subrange(l.second_start + t * r, l.second_start + t * r + t) == second_state(
            pre,
            pv,
            (r + 1) as nat,
        ));
        assert(v == second_state(pre, pv, (r + 1) as nat)[i]);
        crate::field::lemma_fsub_shift_nonzero(v, delta);
        assert(constraint_at(lv2, pv, l, k) == crate::field::fsub(
            v,
            crate::field::fadd(v, delta),
        ));
        assert(constraint_at(lv2, pv, l, k) != 0);
        assert(0 <= k < n_constraints(l));
    }
}

} // verus!
