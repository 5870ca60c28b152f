//! Mathematical model of the Poseidon2 round function, over sequences of
//! canonical field elements. Every executable routine of the permutation,
//! the trace generator and the constraint evaluator is specified against
//! these functions.

use vstd::prelude::*;

use crate::field::{fadd, fmul, GOLDILOCKS_ORDER};
use crate::params::ParamsView;

verus! {

/// Every entry of the sequence is a canonical field element.
pub open spec fn elems_ok(s: Seq<u64>) -> bool {
    forall|i: int| 0 <= i < s.len() ==> #[trigger] s[i] < GOLDILOCKS_ORDER
}

/// The S-box: `x` raised to the `d`-th power in the field.
pub open spec fn sbox_spec(x: u64, d: nat) -> u64 {
    (vstd::arithmetic::power::pow(x as int, d) % (GOLDILOCKS_ORDER as int)) as u64
}

/// Element-wise addition of a round-constant row to the state.
#[verifier::opaque]
pub open spec fn add_rc_spec(s: Seq<u64>, rc: Seq<u64>) -> Seq<u64> {
    Seq::new(s.len(), |i: int| fadd(s[i], rc[i]))
}

/// The S-box applied to every element of the state.
#[verifier::opaque]
pub open spec fn sbox_layer_spec(s: Seq<u64>, d: nat) -> Seq<u64> {
    Seq::new(s.len(), |i: int| sbox_spec(s[i], d))
}

/// The 4x4 mixing block of the external linear layer, applied to the four
/// elements starting at `4 * b`, written as the chain of additions and
/// doublings that computes it. Kept opaque so that states built from many
/// blocks stay small in proofs; revealed where a block is computed.
#[verifier::opaque]
pub open spec fn m4_block(s: Seq<u64>, b: int) -> Seq<u64> {
    let x0 = s[4 * b];
    let x1 = s[4 * b + 1];
    let x2 = s[4 * b + 2];
    let x3 = s[4 * b + 3];
    let t0 = fadd(x0, x1);
    let t1 = fadd(x2, x3);
    let t2 = fadd(fadd(x1, x1), t1);
    let t3 = fadd(fadd(x3, x3), t0);
    let t4 = fadd(fadd(fadd(t1, t1), fadd(t1, t1)), t3);
    let t5 = fadd(fadd(fadd(t0, t0), fadd(t0, t0)), t2);
    let t6 = fadd(t3, t5);
    let t7 = fadd(t2, t4);
    seq![t6, t5, t7, t4]
}

/// The 4x4 mixing block applied independently to each group of four state
/// elements; defined for widths that are a multiple of 4.
pub open spec fn matmul_m4_spec(s: Seq<u64>) -> Seq<u64> {
    Seq::new(s.len(), |i: int| m4_block(s, i / 4)[i % 4])
}

/// Left fold of field addition over `m[l], m[l + 4], ..., m[l + 4 * (g - 1)]`:
/// the column sum that the external layer adds to every element with index
/// `l` modulo 4.
pub open spec fn group_sum(m: Seq<u64>, l: int, g: int) -> u64
    decreases g,
{
    if g <= 1 {
        m[l]
    } else {
        fadd(group_sum(m, l, g - 1), m[l + 4 * (g - 1)])
    }
}

/// The external (MDS-like) linear layer. Widths 2 and 3 use their small
/// closed-form matrices; width 4 is the plain 4x4 block; larger multiples of
/// 4 apply the block per group and then add the column sums. Kept opaque,
/// as are the other layers: round-level reasoning composes whole layers and
/// never needs their bodies.
#[verifier::opaque]
pub open spec fn ext_layer_spec(s: Seq<u64>) -> Seq<u64> {
    if s.len() == 2 {
        let sum = fadd(s[0], s[1]);
        seq![fadd(s[0], sum), fadd(s[1], sum)]
    } else if s.len() == 3 {
        let sum = fadd(fadd(s[0], s[1]), s[2]);
        seq![fadd(s[0], sum), fadd(s[1], sum), fadd(s[2], sum)]
    } else if s.len() == 4 {
        matmul_m4_spec(s)
    } else {
        let m = matmul_m4_spec(s);
        Seq::new(s.len(), |i: int| fadd(m[i], group_sum(m, i % 4, s.len() as int / 4)))
    }
}

/// Left fold of field addition over the whole state: the shared sum term of
/// the internal linear layer.
pub open spec fn fsum(s: Seq<u64>) -> u64
    decreases s.len(),
{
    if s.len() == 0 {
        0
    } else {
        fadd(fsum(s.drop_last()), s.last())
    }
}

/// The internal (diagonal) linear layer. Widths 2 and 3 use their small
/// closed-form matrices; larger widths compute
/// `out[i] = s[i] * diag[i] + sum(s)`.
#[verifier::opaque]
pub open spec fn int_layer_spec(s: Seq<u64>, diag: Seq<u64>) -> Seq<u64> {
    if s.len() == 2 {
        let sum = fadd(s[0], s[1]);
        seq![fadd(s[0], sum), fadd(fadd(s[1], s[1]), sum)]
    } else if s.len() == 3 {
        let sum = fadd(fadd(s[0], s[1]), s[2]);
        seq![fadd(s[0], sum), fadd(s[1], sum), fadd(fadd(s[2], s[2]), sum)]
    } else {
        Seq::new(s.len(), |i: int| fadd(fmul(s[i], diag[i]), fsum(s)))
    }
}

/// One full round: add the round constants, S-box every element, apply the
/// external linear layer.
pub open spec fn full_round_spec(s: Seq<u64>, rc: Seq<u64>, d: nat) -> Seq<u64> {
    ext_layer_spec(sbox_layer_spec(add_rc_spec(s, rc), d))
}

/// One partial round: add the round constant to element 0 only, S-box
/// element 0 only, apply the internal linear layer.
pub open spec fn partial_round_spec(s: Seq<u64>, rc0: u64, diag: Seq<u64>, d: nat) -> Seq<u64> {
    int_layer_spec(s.update(0, sbox_spec(fadd(s[0], rc0), d)), diag)
}

/// `n` successive full rounds applied to `s`, consuming the round-constant
/// rows `from, from + 1, ..., from + n - 1`.
pub open spec fn rounds_full_spec(s: Seq<u64>, pv: ParamsView, from: int, n: nat) -> Seq<u64>
    decreases n,
{
    if n == 0 {
        s
    } else {
        full_round_spec(
            rounds_full_spec(s, pv, from, (n - 1) as nat),
            pv.rc[from + n - 1],
            pv.d,
        )
    }
}

/// `n` successive partial rounds applied to `s`, consuming element 0 of the
/// round-constant rows starting at `rounds_f_beginning`.
pub open spec fn rounds_partial_spec(s: Seq<u64>, pv: ParamsView, n: nat) -> Seq<u64>
    decreases n,
{
    if n == 0 {
        s
    } else {
        partial_round_spec(
            rounds_partial_spec(s, pv, (n - 1) as nat),
            pv.rc[pv.rounds_f_beginning + n - 1][0],
            pv.diag,
            pv.d,
        )
    }
}

/// The state after the initial external layer followed by the first `n` full
/// rounds.
pub open spec fn first_state(pre: Seq<u64>, pv: ParamsView, n: nat) -> Seq<u64> {
    rounds_full_spec(ext_layer_spec(pre), pv, 0, n)
}

/// The state after the first full-round half followed by the first `n`
/// partial rounds.
pub open spec fn partial_state(pre: Seq<u64>, pv: ParamsView, n: nat) -> Seq<u64> {
    rounds_partial_spec(first_state(pre, pv, pv.rounds_f_beginning), pv, n)
}

/// The state after all partial rounds followed by the first `n` full rounds
/// of the second half.
pub open spec fn second_state(pre: Seq<u64>, pv: ParamsView, n: nat) -> Seq<u64> {
    rounds_full_spec(
        partial_state(pre, pv, pv.rounds_p),
        pv,
        pv.rounds_f_beginning + pv.rounds_p as int,
        n,
    )
}

/// The whole permutation: initial external layer, first full-round half,
/// partial rounds, second full-round half.
pub open spec fn permute_spec(pre: Seq<u64>, pv: ParamsView) -> Seq<u64> {
    second_state(pre, pv, pv.rounds_f_beginning)
}

/// Law: composing the three stages — the first full-round half applied to
/// the preimage, the partial rounds applied to its result, and the second
/// full-round half applied to theirs — yields the same state as the whole
/// permutation in one call.
pub proof fn lemma_stage_composition(pre: Seq<u64>, pv: ParamsView)
    ensures
        permute_spec(pre, pv) == rounds_full_spec(
            rounds_partial_spec(first_state(pre, pv, pv.rounds_f_beginning), pv, pv.rounds_p),
            pv,
            pv.rounds_f_beginning + pv.rounds_p as int,
            pv.rounds_f_beginning,
        ),
{
}

/// The internal layer preserves the state's length.
pub proof fn lemma_int_layer_len(s: Seq<u64>, diag: Seq<u64>)
    ensures
        int_layer_spec(s, diag).len() == s.len(),
{
    reveal(crate::model::int_layer_spec);
}

/// Unfolds the left fold of field addition by one element.
pub proof fn lemma_fsum_take_step(s: Seq<u64>, k: int)
    requires
        0 <= k < s.len(),
    ensures
        fsum(s.take(k + 1)) == fadd(fsum(s.take(k)), s[k]),
{
    assert(s.take(k + 1).drop_last() =~= s.take(k));
    assert(s.take(k + 1).last() == s[k]);
}

/// The S-box computed by repeated squaring and multiplication equals the
/// `d`-th power in the field, for each supported degree.
pub proof fn lemma_sbox_chain(x: u64)
    requires
        x < GOLDILOCKS_ORDER,
    ensures
        fmul(fmul(x, x), x) == sbox_spec(x, 3),
        fmul(fmul(fmul(x, x), fmul(x, x)), x) == sbox_spec(x, 5),
        fmul(fmul(fmul(fmul(x, x), fmul(x, x)), fmul(x, x)), x) == sbox_spec(x, 7),
{
    let xi = x as int;
    let m = GOLDILOCKS_ORDER as int;
    let x2 = xi * xi;
    let x4 = x2 * x2;
    let x6 = x4 * x2;
    assert(vstd::arithmetic::power::pow(xi, 3) == x2 * xi) by {
        reveal_with_fuel(vstd::arithmetic::power::pow, 4);
        assert(xi * (xi * (xi * 1)) == (xi * xi) * xi) by (nonlinear_arith);
    }
    assert(vstd::arithmetic::power::pow(xi, 5) == x4 * xi) by {
        reveal_with_fuel(vstd::arithmetic::power::pow, 6);
        assert(xi * (xi * (xi * (xi * (xi * 1)))) == ((xi * xi) * (xi * xi)) * xi)
            by (nonlinear_arith);
    }
    assert(vstd::arithmetic::power::pow(xi, 7) == x6 * xi) by {
        reveal_with_fuel(vstd::arithmetic::power::pow, 8);
        assert(xi * (xi * (xi * (xi * (xi * (xi * (xi * 1))))))
            == (((xi * xi) * (xi * xi)) * (xi * xi)) * xi) by (nonlinear_arith);
    }
    // fmul(x, x) == x2 % m, and each further product folds its reductions away.
    vstd::arithmetic::div_mod::lemma_mul_mod_noop_general(x2, xi, m);
    assert(fmul(fmul(x, x), x) == (x2 * xi) % m);
    vstd::arithmetic::div_mod::lemma_mul_mod_noop_general(x2, x2, m);
    assert((fmul(x, x) as int * fmul(x, x) as int) % m == x4 % m);
    vstd::arithmetic::div_mod::lemma_mul_mod_noop_general(x4, xi, m);
    assert(fmul(fmul(fmul(x, x), fmul(x, x)), x) == (x4 * xi) % m);
    vstd::arithmetic::div_mod::lemma_mul_mod_noop_general(x4, x2, m);
    assert((fmul(fmul(x, x), fmul(x, x)) as int * fmul(x, x) as int) % m == x6 % m);
    vstd::arithmetic::div_mod::lemma_mul_mod_noop_general(x6, xi, m);
    assert(fmul(fmul(fmul(fmul(x, x), fmul(x, x)), fmul(x, x)), x) == (x6 * xi) % m);
}

} // verus!
