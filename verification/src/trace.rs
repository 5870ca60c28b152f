//! The trace generator: runs the permutation once per input row, records
//! every intermediate round state into the column layout, and pads the
//! column matrix to a power-of-two height.

use vstd::prelude::*;

use crate::field::is_elem;
use crate::layout::ColumnLayout;
use crate::model::{
    elems_ok, first_state, full_round_spec, partial_round_spec, partial_state, permute_spec,
    rounds_full_spec, rounds_partial_spec, second_state,
};
use crate::params::ParamsView;
use crate::poseidon2::{copy_state, Poseidon2};

verus! {

/// One unit of input work: a preimage to be permuted.
pub struct Row {
    /// The input state of this row.
    pub preimage: Vec<u64>,
}

impl Row {
    /// A row is well-formed for width `t` when its preimage has that width
    /// and holds canonical field elements.
    pub open spec fn wf(&self, t: nat) -> bool {
        self.preimage@.len() == t && elems_ok(self.preimage@)
    }
}

/// `n` is a power of two.
pub open spec fn is_pow2(n: nat) -> bool
    decreases n,
{
    if n == 0 {
        false
    } else if n == 1 {
        true
    } else {
        n % 2 == 0 && is_pow2(n / 2)
    }
}

/// Two powers of two within a factor of two of each other are equal.
pub proof fn lemma_pow2_tight(a: nat, b: nat)
    requires
        is_pow2(a),
        is_pow2(b),
        b <= a < 2 * b,
    ensures
        a == b,
    decreases a,
{
    if b == 1 {
        assert(a == 1);
    } else {
        assert(a != 1);
        lemma_pow2_tight(a / 2, b / 2);
    }
}

/// The smallest power of two that is at least `n` (and at least 1).
pub fn next_pow2(n: usize) -> (r: usize)
    requires
        n <= usize::MAX / 2,
    ensures
        is_pow2(r as nat),
        r >= n,
        r >= 1,
        r == 1 || r < 2 * n,
{
    let mut r: usize = 1;
    while r < n
        invariant
            is_pow2(r as nat),
            1 <= r,
            n <= usize::MAX / 2,
            r == 1 || r < 2 * n,
        decreases 2 * n - r,
    {
        r = r * 2;
    }
    r
}

/// The `i`-th row of a column-major matrix.
pub open spec fn row_of(cols: Seq<Vec<u64>>, i: int) -> Seq<u64> {
    Seq::new(cols.len(), |c: int| cols[c]@[i])
}

/// The row holds exactly the records the layout asks for: the preimage in
/// the input block, each first-half full-round state, element 0 of each
/// partial-round state, the state after the last partial round, and each
/// second-half full-round state (whose last block is the output).
pub open spec fn row_records(row: Seq<u64>, pre: Seq<u64>, pv: ParamsView, l: ColumnLayout) -> bool {
    let t = l.state_size as int;
    &&& row.len() == l.num_cols
    &&& row.subrange(l.input_start as int, l.input_start + t) == pre
    &&& (forall|r: int|
        0 <= r < l.rounds_f_half ==> #[trigger] row.subrange(
            l.first_start + t * r,
            l.first_start + t * r + t,
        ) == first_state(pre, pv, (r + 1) as nat))
    &&& (forall|r: int|
        0 <= r < l.rounds_p ==> #[trigger] row[l.partial_start + r] == partial_state(
            pre,
            pv,
            (r + 1) as nat,
        )[0])
    &&& row.subrange(l.partial_end_start as int, l.partial_end_start + t) == partial_state(
        pre,
        pv,
        pv.rounds_p,
    )
    &&& (forall|r: int|
        0 <= r < l.rounds_f_half ==> #[trigger] row.subrange(
            l.second_start + t * r,
            l.second_start + t * r + t,
        ) == second_state(pre, pv, (r + 1) as nat))
}

/// In a recorded row, the output block holds the permutation of the
/// preimage.
pub proof fn lemma_row_output(row: Seq<u64>, pre: Seq<u64>, pv: ParamsView, l: ColumnLayout)
    requires
        l.wf(),
        l.matches(pv),
        row_records(row, pre, pv, l),
    ensures
        row.subrange(l.output_start as int, l.output_start + l.state_size) == permute_spec(pre, pv),
{
    let t = l.state_size as int;
    let rf = l.rounds_f_half as int;
    assert(l.output_start == l.second_start + t * (rf - 1)) by (nonlinear_arith)
        requires
            l.output_start == l.num_cols - t,
            l.num_cols == l.second_start + t * rf,
            rf >= 1,
    ;
    assert(row.subrange(l.second_start + t * (rf - 1), l.second_start + t * (rf - 1) + t)
        == second_state(pre, pv, ((rf - 1) + 1) as nat));
    assert(second_state(pre, pv, rf as nat) == permute_spec(pre, pv));
}

/// Law: in a generated trace, the output columns of every genuine row hold
/// the permutation of that row's preimage.
pub proof fn lemma_trace_output(
    trace: Seq<Vec<u64>>,
    rows: Seq<Row>,
    pv: ParamsView,
    l: ColumnLayout,
    i: int,
)
    requires
        l.wf(),
        l.matches(pv),
        trace_records(trace, rows, pv, l),
        0 <= i < rows.len(),
    ensures
        row_of(trace, i).subrange(l.output_start as int, l.output_start + l.state_size)
            == permute_spec(rows[i].preimage@, pv),
{
    lemma_row_output(row_of(trace, i), rows[i].preimage@, pv, l);
}

/// Pads every column to the next power-of-two length by repeating its last
/// value; when `selector` is set, column 0 is a selector column and its new
/// entries are 0 instead.
pub fn pad_trace(trace: Vec<Vec<u64>>, selector: bool) -> (out: Vec<Vec<u64>>)
    requires
        trace@.len() >= 1,
        trace@[0]@.len() >= 1,
        trace@[0]@.len() <= usize::MAX / 2,
        forall|c: int| 0 <= c < trace@.len() ==> (#[trigger] trace@[c])@.len() == trace@[0]@.len(),
    ensures
        out@.len() == trace@.len(),
        forall|c: int| 0 <= c < out@.len() ==> (#[trigger] out@[c])@.len() >= trace@[0]@.len(),
        forall|c: int| 0 <= c < out@.len() ==> (#[trigger] out@[c])@.len() == out@[0]@.len(),
        is_pow2(out@[0]@.len() as nat),
        out@[0]@.len() < 2 * trace@[0]@.len(),
        forall|c: int, j: int|
            0 <= c < trace@.len() && 0 <= j < trace@[0]@.len() ==> (#[trigger] out@[c]@[j])
                == trace@[c]@[j],
        forall|c: int, j: int|
            0 <= c < trace@.len() && trace@[0]@.len() <= j < out@[0]@.len() ==> (
            #[trigger] out@[c]@[j]) == (if selector && c == 0 {
                0u64
            } else {
                trace@[c]@[trace@[0]@.len() - 1]
            }),
        is_pow2(trace@[0]@.len() as nat) ==> out@[0]@.len() == trace@[0]@.len(),
{
    let orig_len = trace[0].len();
    let target = next_pow2(orig_len);
    proof {
        if is_pow2(orig_len as nat) {
            lemma_pow2_tight(target as nat, orig_len as nat);
        }
    }
    let mut out: Vec<Vec<u64>> = Vec::new();
    let mut c: usize = 0;
    while c < trace.len()
        invariant
            trace@.len() >= 1,
            orig_len == trace@[0]@.len(),
            1 <= orig_len,
            orig_len <= target,
            forall|cc: int|
                0 <= cc < trace@.len() ==> (#[trigger] trace@[cc])@.len() == orig_len,
            c <= trace@.len(),
            out@.len() == c,
            forall|cc: int| 0 <= cc < c ==> (#[trigger] out@[cc])@.len() == target,
            forall|cc: int, j: int|
                0 <= cc < c && 0 <= j < orig_len ==> (#[trigger] out@[cc]@[j]) == trace@[cc]@[j],
            forall|cc: int, j: int|
                0 <= cc < c && orig_len <= j < target ==> (#[trigger] out@[cc]@[j]) == (if selector
                    && cc == 0 {
                    0u64
                } else {
                    trace@[cc]@[orig_len - 1]
                }),
        decreases trace@.len() - c,
    {
        let src = &trace[c];
        let mut col: Vec<u64> = Vec::new();
        let mut j: usize = 0;
        while j < target
            invariant
                src@.len() == orig_len,
                1 <= orig_len <= target,
                j <= target,
                col@.len() == j,
                forall|k: int| 0 <= k < j && k < orig_len ==> #[trigger] col@[k] == src@[k],
                forall|k: int|
                    orig_len <= k < j ==> #[trigger] col@[k] == (if selector && c == 0 {
                        0u64
                    } else {
                        src@[orig_len - 1]
                    }),
            decreases target - j,
        {
            if j < orig_len {
                col.push(src[j]);
            } else if selector && c == 0 {
                col.push(0);
            } else {
                col.push(src[orig_len - 1]);
            }
            j = j + 1;
        }
        out.push(col);
        c = c + 1;
    }
    out
}

/// An all-zero state of width `t`.
pub fn zero_state(t: usize) -> (r: Vec<u64>)
    ensures
        r@.len() == t,
        elems_ok(r@),
        forall|i: int| 0 <= i < t ==> #[trigger] r@[i] == 0,
{
    let mut r: Vec<u64> = Vec::new();
    let mut i: usize = 0;
    while i < t
        invariant
            i <= t,
            r@.len() == i,
            forall|k: int| 0 <= k < i ==> #[trigger] r@[k] == 0,
        decreases t - i,
    {
        r.push(0);
        i = i + 1;
    }
    r
}

/// The state after each full round of the first half, starting from the
/// preimage (with the initial external layer applied before round 0).
pub fn first_full_round_states(perm: &Poseidon2, preimage: &Vec<u64>) -> (out: Vec<Vec<u64>>)
    requires
        perm.params.wf(),
        preimage@.len() == perm.params.t,
        elems_ok(preimage@),
    ensures
        out@.len() == perm.params.rounds_f_beginning,
        forall|r: int|
            0 <= r < out@.len() ==> (#[trigger] out@[r])@ == first_state(
                preimage@,
                perm.params@,
                (r + 1) as nat,
            ),
        forall|r: int|
            0 <= r < out@.len() ==> (#[trigger] out@[r])@.len() == perm.params.t && elems_ok(
                out@[r]@,
            ),
{
    let ghost pv = perm.params@;
    let mut out: Vec<Vec<u64>> = Vec::new();
    let mut current_state = copy_state(preimage);
    perm.matmul_external(&mut current_state);
    let mut r1: usize = 0;
    while r1 < perm.params.rounds_f_beginning
        invariant
            perm.params.wf(),
            pv == perm.params@,
            preimage@.len() == perm.params.t,
            r1 <= perm.params.rounds_f_beginning,
            current_state@ == first_state(preimage@, pv, r1 as nat),
            current_state@.len() == perm.params.t,
            elems_ok(current_state@),
            out@.len() == r1,
            forall|r: int|
                0 <= r < r1 ==> (#[trigger] out@[r])@ == first_state(
                    preimage@,
                    pv,
                    (r + 1) as nat,
                ),
            forall|r: int|
                0 <= r < r1 ==> (#[trigger] out@[r])@.len() == perm.params.t && elems_ok(out@[r]@),
        decreases perm.params.rounds_f_beginning - r1,
    {
        proof {
            assert(pv.rc[r1 as int].len() == pv.t);
            assert(pv.rc[r1 as int] == perm.params.round_constants@[r1 as int]@);
        }
        let added = perm.add_rc(&current_state, &perm.params.round_constants[r1]);
        let boxed = perm.sbox(&added);
        current_state = boxed;
        perm.matmul_external(&mut current_state);
        proof {
            assert(current_state@ == full_round_spec(
                first_state(preimage@, pv, r1 as nat),
                pv.rc[r1 as int],
                pv.d,
            ));
            assert(first_state(preimage@, pv, (r1 + 1) as nat) == full_round_spec(
                first_state(preimage@, pv, r1 as nat),
                pv.rc[0 + (r1 + 1) - 1],
                pv.d,
            ));
        }
        out.push(copy_state(&current_state));
        r1 = r1 + 1;
    }
    out
}

/// The state after each partial round, starting from the output of the
/// first full-round half.
pub fn partial_round_states(perm: &Poseidon2, last_round_output: &Vec<u64>) -> (out: Vec<Vec<u64>>)
    requires
        perm.params.wf(),
        last_round_output@.len() == perm.params.t,
        elems_ok(last_round_output@),
    ensures
        out@.len() == perm.params.rounds_p,
        forall|r: int|
            0 <= r < out@.len() ==> (#[trigger] out@[r])@ == rounds_partial_spec(
                last_round_output@,
                perm.params@,
                (r + 1) as nat,
            ),
        forall|r: int|
            0 <= r < out@.len() ==> (#[trigger] out@[r])@.len() == perm.params.t && elems_ok(
                out@[r]@,
            ),
{
    let ghost pv = perm.params@;
    let mut out: Vec<Vec<u64>> = Vec::new();
    let mut current_state = copy_state(last_round_output);
    let mut r2: usize = 0;
    while r2 < perm.params.rounds_p
        invariant
            perm.params.wf(),
            pv == perm.params@,
            last_round_output@.len() == perm.params.t,
            r2 <= perm.params.rounds_p,
            current_state@ == rounds_partial_spec(last_round_output@, pv, r2 as nat),
            current_state@.len() == perm.params.t,
            elems_ok(current_state@),
            out@.len() == r2,
            forall|r: int|
                0 <= r < r2 ==> (#[trigger] out@[r])@ == rounds_partial_spec(
                    last_round_output@,
                    pv,
                    (r + 1) as nat,
                ),
            forall|r: int|
                0 <= r < r2 ==> (#[trigger] out@[r])@.len() == perm.params.t && elems_ok(out@[r]@),
        decreases perm.params.rounds_p - r2,
    {
        let idx = perm.params.rounds_f_beginning + r2;
        proof {
            assert(pv.rc[idx as int].len() == pv.t);
            assert(pv.rc[idx as int] == perm.params.round_constants@[idx as int]@);
        }
        let rc0 = perm.params.round_constants[idx][0];
        let x = crate::field::f_add(current_state[0], rc0);
        let sx = perm.sbox_p(x);
        let ghost before = current_state@;
        current_state[0] = sx;
        perm.matmul_internal(&mut current_state, &perm.params.mat_internal_diag_m_1);
        proof {
            assert(current_state@ == partial_round_spec(before, pv.rc[idx as int][0], pv.diag, pv.d));
            assert(rounds_partial_spec(last_round_output@, pv, (r2 + 1) as nat)
                == partial_round_spec(
                rounds_partial_spec(last_round_output@, pv, r2 as nat),
                pv.rc[pv.rounds_f_beginning + (r2 + 1) - 1][0],
                pv.diag,
                pv.d,
            ));
        }
        out.push(copy_state(&current_state));
        r2 = r2 + 1;
    }
    out
}

/// The state after each full round of the second half, starting from the
/// output of the last partial round.
pub fn second_full_round_states(perm: &Poseidon2, last_round_output: &Vec<u64>) -> (out: Vec<
    Vec<u64>,
>)
    requires
        perm.params.wf(),
        last_round_output@.len() == perm.params.t,
        elems_ok(last_round_output@),
    ensures
        out@.len() == perm.params.rounds_f_end,
        forall|r: int|
            0 <= r < out@.len() ==> (#[trigger] out@[r])@ == rounds_full_spec(
                last_round_output@,
                perm.params@,
                perm.params@.rounds_f_beginning + perm.params@.rounds_p as int,
                (r + 1) as nat,
            ),
        forall|r: int|
            0 <= r < out@.len() ==> (#[trigger] out@[r])@.len() == perm.params.t && elems_ok(
                out@[r]@,
            ),
{
    let ghost pv = perm.params@;
    let ghost from = pv.rounds_f_beginning + pv.rounds_p as int;
    let mut out: Vec<Vec<u64>> = Vec::new();
    let mut current_state = copy_state(last_round_output);
    let mut r3: usize = 0;
    while r3 < perm.params.rounds_f_end
        invariant
            perm.params.wf(),
            pv == perm.params@,
            from == pv.rounds_f_beginning + pv.rounds_p as int,
            last_round_output@.len() == perm.params.t,
            r3 <= perm.params.rounds_f_end,
            current_state@ == rounds_full_spec(last_round_output@, pv, from, r3 as nat),
            current_state@.len() == perm.params.t,
            elems_ok(current_state@),
            out@.len() == r3,
            forall|r: int|
                0 <= r < r3 ==> (#[trigger] out@[r])@ == rounds_full_spec(
                    last_round_output@,
                    pv,
                    from,
                    (r + 1) as nat,
                ),
            forall|r: int|
                0 <= r < r3 ==> (#[trigger] out@[r])@.len() == perm.params.t && elems_ok(out@[r]@),
        decreases perm.params.rounds_f_end - r3,
    {
        let idx = perm.params.rounds_f_beginning + perm.params.rounds_p + r3;
        proof {
            assert(pv.rc[idx as int].len() == pv.t);
            assert(pv.rc[idx as int] == perm.params.round_constants@[idx as int]@);
        }
        let added = perm.add_rc(&current_state, &perm.params.round_constants[idx]);
        let boxed = perm.sbox(&added);
        current_state = boxed;
        perm.matmul_external(&mut current_state);
        proof {
            assert(current_state@ == full_round_spec(
                rounds_full_spec(last_round_output@, pv, from, r3 as nat),
                pv.rc[idx as int],
                pv.d,
            ));
            assert(rounds_full_spec(last_round_output@, pv, from, (r3 + 1) as nat)
                == full_round_spec(
                rounds_full_spec(last_round_output@, pv, from, r3 as nat),
                pv.rc[from + (r3 + 1) - 1],
                pv.d,
            ));
        }
        out.push(copy_state(&current_state));
        r3 = r3 + 1;
    }
    out
}

/// For a non-negative block width, block `rr` ends no later than block `r`
/// starts, when `rr < r`.
proof fn lemma_block_bound(t: int, rr: int, r: int)
    requires
        0 <= t,
        0 <= rr < r,
    ensures
        t * rr + t <= t * r,
        t * (rr + 1) == t * rr + t,
{
    assert(t * rr + t <= t * r && t * (rr + 1) == t * rr + t) by (nonlinear_arith)
        requires
            0 <= t,
            0 <= rr < r,
    ;
}

/// For a non-negative block width `t`, block `r` of `rf` blocks ends no
/// later than the last block, and the next block starts where this one ends.
pub proof fn lemma_block_step(t: int, r: int, rf: int)
    requires
        0 <= t,
        0 <= r < rf,
    ensures
        t * r + t <= t * rf,
        t * (r + 1) == t * r + t,
{
    assert(t * r + t <= t * rf && t * (r + 1) == t * r + t) by (nonlinear_arith)
        requires
            0 <= t,
            0 <= r < rf,
    ;
}

/// Appends every element of `state` to `row`.
pub fn append_state(row: &mut Vec<u64>, state: &Vec<u64>)
    ensures
        final(row)@ == old(row)@ + state@,
{
    let mut k: usize = 0;
    while k < state.len()
        invariant
            k <= state@.len(),
            row@ == old(row)@ + state@.take(k as int),
        decreases state@.len() - k,
    {
        row.push(state[k]);
        proof {
            assert(old(row)@ + state@.take(k + 1) =~= (old(row)@ + state@.take(k as int)).push(
                state@[k as int],
            ));
        }
        k = k + 1;
    }
    proof {
        assert(state@.take(state@.len() as int) =~= state@);
    }
}

/// Builds one trace row for a preimage: the selector value (if the layout
/// has a selector column), the input block, and every recorded round state,
/// in column order.
#[verifier::rlimit(100)]
pub fn generate_row(
    perm: &Poseidon2,
    layout: &ColumnLayout,
    preimage: &Vec<u64>,
    is_exe: bool,
) -> (row: Vec<u64>)
    requires
        perm.params.wf(),
        layout.wf(),
        layout.matches(perm.params@),
        preimage@.len() == perm.params.t,
        elems_ok(preimage@),
    ensures
        row_records(row@, preimage@, perm.params@, *layout),
        row@.len() == layout.num_cols,
        layout.has_selector ==> row@[0] == (if is_exe {
            1u64
        } else {
            0u64
        }),
        elems_ok(row@),
{
    let ghost pv = perm.params@;
    let ghost l = *layout;
    let ghost pre = preimage@;
    let t = perm.params.t;
    let rf = perm.params.rounds_f_beginning;
    let rp = perm.params.rounds_p;

    let first = first_full_round_states(perm, preimage);
    let last1 = &first[rf - 1];
    let partials = partial_round_states(perm, last1);
    let pend = if rp == 0 {
        copy_state(last1)
    } else {
        copy_state(&partials[rp - 1])
    };
    proof {
        assert(pend@ == partial_state(pre, pv, pv.rounds_p));
        assert(pend@.len() == t && elems_ok(pend@));
    }
    let second = second_full_round_states(perm, &pend);
    proof {
        assert forall|r: int| 0 <= r < rf implies (#[trigger] second@[r])@ == second_state(
            pre,
            pv,
            (r + 1) as nat,
        ) by {
            assert(second@[r]@ == rounds_full_spec(
                pend@,
                pv,
                pv.rounds_f_beginning + pv.rounds_p as int,
                (r + 1) as nat,
            ));
        }
    }

    let ghost sel: int = if l.has_selector {
        1int
    } else {
        0int
    };
    let mut row: Vec<u64> = Vec::new();
    if layout.has_selector {
        if is_exe {
            row.push(1);
        } else {
            row.push(0);
        }
    }
    // Input block.
    append_state(&mut row, preimage);
    proof {
        assert(row@.len() == l.input_start + t);
        assert(row@.subrange(l.input_start as int, l.input_start + t) =~= pre);
    }
    // First-half full-round states.
    let mut r: usize = 0;
    while r < rf
        invariant
            perm.params.wf(),
            pv == perm.params@,
            l == *layout,
            l.wf(),
            l.matches(pv),
            pre == preimage@,
            pre.len() == t,
            t == perm.params.t,
            rf == perm.params.rounds_f_beginning,
            first@.len() == rf,
            forall|rr: int|
                0 <= rr < rf ==> (#[trigger] first@[rr])@ == first_state(pre, pv, (rr + 1) as nat),
            forall|rr: int|
                0 <= rr < rf ==> (#[trigger] first@[rr])@.len() == t && elems_ok(first@[rr]@),
            r <= rf,
            row@.len() == l.first_start + t * r,
            l.has_selector ==> row@[0] == (if is_exe {
                1u64
            } else {
                0u64
            }),
            row@.subrange(l.input_start as int, l.input_start + t) == pre,
            forall|rr: int|
                0 <= rr < r ==> #[trigger] row@.subrange(
                    l.first_start + t * rr,
                    l.first_start + t * rr + t,
                ) == first_state(pre, pv, (rr + 1) as nat),
            elems_ok(row@),
        decreases rf - r,
    {
        let ghost row0 = row@;
        append_state(&mut row, &first[r]);
        proof {
            assert(t * ((r + 1) as int) == t * r + t) by (nonlinear_arith);
            vstd::arithmetic::mul::lemma_mul_inequality(r as int, rf as int, t as int);
            assert(row@.subrange(l.input_start as int, l.input_start + t) =~= row0.subrange(
                l.input_start as int,
                l.input_start + t,
            ));
            assert forall|rr: int| 0 <= rr < r + 1 implies #[trigger] row@.subrange(
                l.first_start + t * rr,
                l.first_start + t * rr + t,
            ) == first_state(pre, pv, (rr + 1) as nat) by {
                if rr < r {
                    lemma_block_bound(t as int, rr, r as int);
                    assert(row@.subrange(l.first_start + t * rr, l.first_start + t * rr + t)
                        =~= row0.subrange(l.first_start + t * rr, l.first_start + t * rr + t));
                } else {
                    assert(row@.subrange(l.first_start + t * r, l.first_start + t * r + t)
                        =~= first@[r as int]@);
                }
            }
            assert forall|i: int| 0 <= i < row@.len() implies #[trigger] row@[i]
                < crate::field::GOLDILOCKS_ORDER by {
                if i < row0.len() {
                    assert(row@[i] == row0[i]);
                } else {
                    assert(row@[i] == first@[r as int]@[i - row0.len()]);
                }
            }
        }
        r = r + 1;
    }
    // Element 0 of each partial-round state.
    let mut q: usize = 0;
    while q < rp
        invariant
            perm.params.wf(),
            pv == perm.params@,
            l == *layout,
            l.wf(),
            l.matches(pv),
            pre == preimage@,
            pre.len() == t,
            t == perm.params.t,
            rf == perm.params.rounds_f_beginning,
            rp == perm.params.rounds_p,
            partials@.len() == rp,
            first@.len() == rf,
            forall|rr: int|
                0 <= rr < rf ==> (#[trigger] first@[rr])@ == first_state(pre, pv, (rr + 1) as nat),
            forall|rr: int|
                0 <= rr < rp ==> (#[trigger] partials@[rr])@ == rounds_partial_spec(
                    first@[rf - 1]@,
                    pv,
                    (rr + 1) as nat,
                ),
            forall|rr: int|
                0 <= rr < rp ==> (#[trigger] partials@[rr])@.len() == t && elems_ok(
                    partials@[rr]@,
                ),
            q <= rp,
            row@.len() == l.partial_start + q,
            l.has_selector ==> row@[0] == (if is_exe {
                1u64
            } else {
                0u64
            }),
            row@.subrange(l.input_start as int, l.input_start + t) == pre,
            forall|rr: int|
                0 <= rr < rf ==> #[trigger] row@.subrange(
                    l.first_start + t * rr,
                    l.first_start + t * rr + t,
                ) == first_state(pre, pv, (rr + 1) as nat),
            forall|rr: int|
                0 <= rr < q ==> #[trigger] row@[l.partial_start + rr] == partial_state(
                    pre,
                    pv,
                    (rr + 1) as nat,
                )[0],
            elems_ok(row@),
        decreases rp - q,
    {
        let ghost row0 = row@;
        let pq = &partials[q];
        row.push(pq[0]);
        proof {
            assert(partials@[q as int]@ == partial_state(pre, pv, (q + 1) as nat));
            assert(row@.subrange(l.input_start as int, l.input_start + t) =~= row0.subrange(
                l.input_start as int,
                l.input_start + t,
            ));
            assert forall|rr: int| 0 <= rr < rf implies #[trigger] row@.subrange(
                l.first_start + t * rr,
                l.first_start + t * rr + t,
            ) == first_state(pre, pv, (rr + 1) as nat) by {
                lemma_block_bound(t as int, rr, rf as int);
                assert(row@.subrange(l.first_start + t * rr, l.first_start + t * rr + t)
                    =~= row0.subrange(l.first_start + t * rr, l.first_start + t * rr + t));
            }
        }
        q = q + 1;
    }
    // The full state after the last partial round.
    let ghost row_a = row@;
    append_state(&mut row, &pend);
    proof {
        assert(row@.subrange(l.input_start as int, l.input_start + t) =~= row_a.subrange(
            l.input_start as int,
            l.input_start + t,
        ));
        assert forall|rr: int| 0 <= rr < rf implies #[trigger] row@.subrange(
            l.first_start + t * rr,
            l.first_start + t * rr + t,
        ) == first_state(pre, pv, (rr + 1) as nat) by {
            lemma_block_bound(t as int, rr, rf as int);
            assert(row@.subrange(l.first_start + t * rr, l.first_start + t * rr + t)
                =~= row_a.subrange(l.first_start + t * rr, l.first_start + t * rr + t));
        }
        assert(row@.subrange(l.partial_end_start as int, l.partial_end_start + t) =~= pend@);
        assert forall|i: int| 0 <= i < row@.len() implies #[trigger] row@[i]
            < crate::field::GOLDILOCKS_ORDER by {
            if i < row_a.len() {
                assert(row@[i] == row_a[i]);
            } else {
                assert(row@[i] == pend@[i - row_a.len()]);
            }
        }
    }
    // Second-half full-round states.
    let mut r2: usize = 0;
    while r2 < rf
        invariant
            perm.params.wf(),
            pv == perm.params@,
            l == *layout,
            l.wf(),
            l.matches(pv),
            pre == preimage@,
            pre.len() == t,
            t == perm.params.t,
            rf == perm.params.rounds_f_beginning,
            rp == perm.params.rounds_p,
            second@.len() == rf,
            forall|rr: int|
                0 <= rr < rf ==> (#[trigger] second@[rr])@ == second_state(
                    pre,
                    pv,
                    (rr + 1) as nat,
                ),
            forall|rr: int|
                0 <= rr < rf ==> (#[trigger] second@[rr])@.len() == t && elems_ok(second@[rr]@),
            r2 <= rf,
            row@.len() == l.second_start + t * r2,
            l.has_selector ==> row@[0] == (if is_exe {
                1u64
            } else {
                0u64
            }),
            row@.subrange(l.input_start as int, l.input_start + t) == pre,
            forall|rr: int|
                0 <= rr < rf ==> #[trigger] row@.subrange(
                    l.first_start + t * rr,
                    l.first_start + t * rr + t,
                ) == first_state(pre, pv, (rr + 1) as nat),
            forall|rr: int|
                0 <= rr < rp ==> #[trigger] row@[l.partial_start + rr] == partial_state(
                    pre,
                    pv,
                    (rr + 1) as nat,
                )[0],
            row@.subrange(l.partial_end_start as int, l.partial_end_start + t) == partial_state(
                pre,
                pv,
                pv.rounds_p,
            ),
            forall|rr: int|
                0 <= rr < r2 ==> #[trigger] row@.subrange(
                    l.second_start + t * rr,
                    l.second_start + t * rr + t,
                ) == second_state(pre, pv, (rr + 1) as nat),
            elems_ok(row@),
        decreases rf - r2,
    {
        let ghost row0 = row@;
        append_state(&mut row, &second[r2]);
        proof {
            assert(t * ((r2 + 1) as int) == t * r2 + t) by (nonlinear_arith);
            vstd::arithmetic::mul::lemma_mul_inequality(r2 as int, rf as int, t as int);
            assert(row@.subrange(l.input_start as int, l.input_start + t) =~= row0.subrange(
                l.input_start as int,
                l.input_start + t,
            ));
            assert forall|rr: int| 0 <= rr < rf implies #[trigger] row@.subrange(
                l.first_start + t * rr,
                l.first_start + t * rr + t,
            ) == first_state(pre, pv, (rr + 1) as nat) by {
                lemma_block_bound(t as int, rr, rf as int);
                assert(row@.subrange(l.first_start + t * rr, l.first_start + t * rr + t)
                    =~= row0.subrange(l.first_start + t * rr, l.first_start + t * rr + t));
            }
            assert(row@.subrange(l.partial_end_start as int, l.partial_end_start + t)
                =~= row0.subrange(l.partial_end_start as int, l.partial_end_start + t));
            assert forall|rr: int| 0 <= rr < r2 + 1 implies #[trigger] row@.subrange(
                l.second_start + t * rr,
                l.second_start + t * rr + t,
            ) == second_state(pre, pv, (rr + 1) as nat) by {
                if rr < r2 {
                    lemma_block_bound(t as int, rr, r2 as int);
                    assert(row@.subrange(l.second_start + t * rr, l.second_start + t * rr + t)
                        =~= row0.subrange(l.second_start + t * rr, l.second_start + t * rr + t));
                } else {
                    assert(row@.subrange(l.second_start + t * r2, l.second_start + t * r2 + t)
                        =~= second@[r2 as int]@);
                }
            }
            assert forall|i: int| 0 <= i < row@.len() implies #[trigger] row@[i]
                < crate::field::GOLDILOCKS_ORDER by {
                if i < row0.len() {
                    assert(row@[i] == row0[i]);
                } else {
                    assert(row@[i] == second@[r2 as int]@[i - row0.len()]);
                }
            }
        }
        r2 = r2 + 1;
    }
    row
}

/// The height of the trace before padding: one synthesized row when there
/// is no input, else the number of input rows.
pub open spec fn unpadded_height(n: nat) -> nat {
    if n == 0 {
        1nat
    } else {
        n
    }
}

/// The full contract of trace generation, for a parameter set and layout:
/// the matrix has the layout's columns, all of one power-of-two length, at
/// least one row and less than double the unpadded height; every input row
/// is fully recorded with selector 1; an empty input is replaced by one
/// all-zero row with selector 0; padding repeats the last unpadded row with
/// the selector forced to 0; and every entry is a canonical field element.
pub open spec fn trace_records(
    trace: Seq<Vec<u64>>,
    rows: Seq<Row>,
    pv: ParamsView,
    l: ColumnLayout,
) -> bool {
    &&& trace.len() == l.num_cols
    &&& (forall|c: int| 0 <= c < trace.len() ==> (#[trigger] trace[c])@.len() == trace[0]@.len())
    &&& is_pow2(trace[0]@.len() as nat)
    &&& trace[0]@.len() >= unpadded_height(rows.len())
    &&& trace[0]@.len() < 2 * unpadded_height(rows.len())
    &&& (forall|i: int|
        0 <= i < rows.len() ==> row_records(row_of(trace, i), rows[i].preimage@, pv, l))
    &&& (l.has_selector ==> forall|i: int| 0 <= i < rows.len() ==> row_of(trace, i)[0] == 1)
    &&& (rows.len() == 0 ==> row_records(row_of(trace, 0), Seq::new(pv.t, |k: int| 0u64), pv, l))
    &&& (rows.len() == 0 && l.has_selector ==> row_of(trace, 0)[0] == 0)
    &&& (forall|c: int, j: int|
        0 <= c < trace.len() && unpadded_height(rows.len()) <= j < trace[0]@.len() ==> (
        #[trigger] trace[c]@[j]) == (if l.has_selector && c == 0 {
            0u64
        } else {
            trace[c]@[unpadded_height(rows.len()) - 1]
        }))
    &&& (forall|c: int, j: int|
        0 <= c < trace.len() && 0 <= j < trace[0]@.len() ==> is_elem(#[trigger] trace[c]@[j]))
}

/// Builds the whole trace matrix: one fully recorded row per input row (or
/// one synthesized all-zero row when there is none), transposed to columns
/// and padded to a power-of-two height.
#[verifier::rlimit(100)]
pub fn generate_trace(perm: &Poseidon2, layout: &ColumnLayout, step_rows: &Vec<Row>) -> (trace:
    Vec<Vec<u64>>)
    requires
        perm.params.wf(),
        layout.wf(),
        layout.matches(perm.params@),
        forall|i: int|
            0 <= i < step_rows@.len() ==> (#[trigger] step_rows@[i]).wf(perm.params@.t),
        step_rows@.len() <= usize::MAX / 2,
    ensures
        trace_records(trace@, step_rows@, perm.params@, *layout),
{
    let ghost pv = perm.params@;
    let ghost l = *layout;
    let n = step_rows.len();
    let mut rows_data: Vec<Vec<u64>> = Vec::new();
    let mut i: usize = 0;
    while i < n
        invariant
            perm.params.wf(),
            pv == perm.params@,
            l == *layout,
            l.wf(),
            l.matches(pv),
            n == step_rows@.len(),
            forall|k: int| 0 <= k < n ==> (#[trigger] step_rows@[k]).wf(pv.t),
            i <= n,
            rows_data@.len() == i,
            forall|k: int|
                0 <= k < i ==> row_records(
                    (#[trigger] rows_data@[k])@,
                    step_rows@[k].preimage@,
                    pv,
                    l,
                ),
            forall|k: int| 0 <= k < i ==> (#[trigger] rows_data@[k])@.len() == l.num_cols,
            l.has_selector ==> forall|k: int| 0 <= k < i ==> (#[trigger] rows_data@[k])@[0] == 1,
            forall|k: int| 0 <= k < i ==> elems_ok((#[trigger] rows_data@[k])@),
        decreases n - i,
    {
        rows_data.push(generate_row(perm, layout, &step_rows[i].preimage, true));
        i = i + 1;
    }
    if n == 0 {
        let z = zero_state(perm.params.t);
        proof {
            assert(z@ =~= Seq::new(pv.t, |k: int| 0u64));
        }
        rows_data.push(generate_row(perm, layout, &z, false));
    }
    let m = rows_data.len();
    // Transpose the rows into the column-major matrix.
    let mut cols: Vec<Vec<u64>> = Vec::new();
    let mut c: usize = 0;
    while c < layout.num_cols
        invariant
            l == *layout,
            rows_data@.len() == m,
            m >= 1,
            forall|k: int| 0 <= k < m ==> (#[trigger] rows_data@[k])@.len() == l.num_cols,
            forall|k: int| 0 <= k < m ==> elems_ok((#[trigger] rows_data@[k])@),
            c <= l.num_cols,
            cols@.len() == c,
            forall|cc: int| 0 <= cc < c ==> (#[trigger] cols@[cc])@.len() == m,
            forall|cc: int, j: int|
                0 <= cc < c && 0 <= j < m ==> (#[trigger] cols@[cc]@[j]) == rows_data@[j]@[cc],
        decreases l.num_cols - c,
    {
        let mut col: Vec<u64> = Vec::new();
        let mut j: usize = 0;
        while j < m
            invariant
                l == *layout,
                rows_data@.len() == m,
                forall|k: int| 0 <= k < m ==> (#[trigger] rows_data@[k])@.len() == l.num_cols,
                c < l.num_cols,
                j <= m,
                col@.len() == j,
                forall|k: int| 0 <= k < j ==> (#[trigger] col@[k]) == rows_data@[k]@[c as int],
            decreases m - j,
        {
            let rj = &rows_data[j];
            col.push(rj[c]);
            j = j + 1;
        }
        cols.push(col);
        c = c + 1;
    }
    let trace = pad_trace(cols, layout.has_selector);
    proof {
        let nn = step_rows@.len() as int;
        let h = unpadded_height(step_rows@.len()) as int;
        assert(m == h);
        assert forall|i0: int| 0 <= i0 < m implies row_of(trace@, i0) =~= rows_data@[i0]@ by {}
        if n == 0 {
            assert(row_records(row_of(trace@, 0), Seq::new(pv.t, |k: int| 0u64), pv, l));
        }
        assert forall|c0: int, j0: int|
            0 <= c0 < trace@.len() && 0 <= j0 < trace@[0]@.len() implies is_elem(
            #[trigger] trace@[c0]@[j0],
        ) by {
            if j0 < m {
                assert(trace@[c0]@[j0] == rows_data@[j0]@[c0]);
            } else {
                assert(trace@[c0]@[j0] == (if l.has_selector && c0 == 0 {
                    0u64
                } else {
                    trace@[c0]@[m - 1]
                }));
                assert(trace@[c0]@[m - 1] == rows_data@[m - 1]@[c0]);
            }
        }
    }
    trace
}

/// The permutation output for a preimage.
pub fn generate_outputs(perm: &Poseidon2, preimage: &Vec<u64>) -> (out: Vec<u64>)
    requires
        perm.params.wf(),
        preimage@.len() == perm.params.t,
        elems_ok(preimage@),
    ensures
        out@ == permute_spec(preimage@, perm.params@),
        out@.len() == perm.params.t,
        elems_ok(out@),
{
    perm.permutation(preimage)
}

} // verus!
