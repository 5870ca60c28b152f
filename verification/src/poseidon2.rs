//! The executable Poseidon2 permutation, verified against the model in
//! `model`: S-box, round-constant addition, the external and internal linear
//! layers, and the full permutation loop.

use vstd::prelude::*;

use crate::field::{f_add, f_double, f_mul, is_elem};
use crate::model::{
    add_rc_spec, elems_ok, ext_layer_spec, first_state, fsum, full_round_spec, group_sum,
    int_layer_spec, lemma_fsum_take_step, lemma_sbox_chain, m4_block, matmul_m4_spec,
    partial_round_spec, partial_state, permute_spec, rounds_full_spec, rounds_partial_spec,
    sbox_layer_spec, sbox_spec, second_state,
};
use crate::params::Poseidon2Params;

verus! {

/// Copies a state vector element by element.
pub fn copy_state(v: &Vec<u64>) -> (r: Vec<u64>)
    ensures
        r@ == v@,
{
    let mut r: Vec<u64> = Vec::new();
    let mut i: usize = 0;
    while i < v.len()
        invariant
            i <= v@.len(),
            r@ == v@.take(i as int),
        decreases v@.len() - i,
    {
        r.push(v[i]);
        proof {
            assert(v@.take(i + 1) =~= v@.take(i as int).push(v@[i as int]));
        }
        i = i + 1;
    }
    proof {
        assert(v@.take(v@.len() as int) =~= v@);
    }
    r
}

/// A Poseidon2 permutation instance: the round parameters it runs with.
pub struct Poseidon2 {
    /// The parameter set of this instance.
    pub params: Poseidon2Params,
}

impl Poseidon2 {
    /// Wraps a parameter set into a permutation instance.
    pub fn new(params: Poseidon2Params) -> (r: Self)
        ensures
            r.params == params,
    {
        Poseidon2 { params }
    }

    /// The state width of this instance.
    pub fn get_t(&self) -> (r: usize)
        ensures
            r == self.params.t,
    {
        self.params.t
    }

    /// The S-box on a single element, by repeated squaring and
    /// multiplication.
    pub fn sbox_p(&self, input: u64) -> (r: u64)
        requires
            self.params.wf(),
            is_elem(input),
        ensures
            r == sbox_spec(input, self.params@.d),
            is_elem(r),
    {
        proof {
            lemma_sbox_chain(input);
        }
        let input2 = f_mul(input, input);
        if self.params.d == 3 {
            f_mul(input2, input)
        } else if self.params.d == 5 {
            f_mul(f_mul(input2, input2), input)
        } else {
            f_mul(f_mul(f_mul(input2, input2), input2), input)
        }
    }

    /// The S-box applied to every element of the state.
    pub fn sbox(&self, input: &Vec<u64>) -> (r: Vec<u64>)
        requires
            self.params.wf(),
            elems_ok(input@),
        ensures
            r@ == sbox_layer_spec(input@, self.params@.d),
            r@.len() == input@.len(),
            elems_ok(r@),
    {
        let mut r: Vec<u64> = Vec::new();
        let mut i: usize = 0;
        while i < input.len()
            invariant
                self.params.wf(),
                elems_ok(input@),
                i <= input@.len(),
                r@.len() == i,
                forall|j: int| 0 <= j < i ==> r@[j] == sbox_spec(input@[j], self.params@.d),
            decreases input@.len() - i,
        {
            r.push(self.sbox_p(input[i]));
            i = i + 1;
        }
        proof {
            reveal(crate::model::sbox_layer_spec);
            assert(r@ =~= sbox_layer_spec(input@, self.params@.d));
        }
        r
    }

    /// Element-wise addition of a round-constant row to the state.
    pub fn add_rc(&self, input: &Vec<u64>, rc: &Vec<u64>) -> (r: Vec<u64>)
        requires
            input@.len() == rc@.len(),
            elems_ok(input@),
            elems_ok(rc@),
        ensures
            r@ == add_rc_spec(input@, rc@),
            r@.len() == input@.len(),
            elems_ok(r@),
    {
        let mut r: Vec<u64> = Vec::new();
        let mut i: usize = 0;
        while i < input.len()
            invariant
                input@.len() == rc@.len(),
                elems_ok(input@),
                elems_ok(rc@),
                i <= input@.len(),
                r@.len() == i,
                forall|j: int| 0 <= j < i ==> r@[j] == crate::field::fadd(input@[j], rc@[j]),
            decreases input@.len() - i,
        {
            r.push(f_add(input[i], rc[i]));
            i = i + 1;
        }
        proof {
            reveal(crate::model::add_rc_spec);
            assert(r@ =~= add_rc_spec(input@, rc@));
        }
        r
    }

    /// The 4x4 mixing block applied in place to each group of four state
    /// elements.
    #[verifier::rlimit(100)]
    pub fn matmul_m4(&self, input: &mut Vec<u64>)
        requires
            old(input)@.len() % 4 == 0,
            elems_ok(old(input)@),
        ensures
            final(input)@ == matmul_m4_spec(old(input)@),
            final(input)@.len() == old(input)@.len(),
            elems_ok(final(input)@),
    {
        let ghost s = old(input)@;
        let t4 = input.len() / 4;
        let mut i: usize = 0;
        while i < t4
            invariant
                s.len() % 4 == 0,
                t4 == s.len() / 4,
                s.len() <= usize::MAX,
                i <= t4,
                elems_ok(s),
                input@.len() == s.len(),
                elems_ok(input@),
                forall|j: int| 0 <= j < 4 * i ==> #[trigger] input@[j] == matmul_m4_spec(s)[j],
                forall|j: int| 4 * i <= j < s.len() ==> #[trigger] input@[j] == s[j],
            decreases t4 - i,
        {
            proof {
                assert(4 * i + 4 <= s.len()) by (nonlinear_arith)
                    requires
                        i < t4,
                        t4 == s.len() / 4,
                        s.len() % 4 == 0,
                ;
            }
            let b = i * 4;
            let x0 = input[b];
            let x1 = input[b + 1];
            let x2 = input[b + 2];
            let x3 = input[b + 3];
            let t_0 = f_add(x0, x1);
            let t_1 = f_add(x2, x3);
            let t_2 = f_add(f_double(x1), t_1);
            let t_3 = f_add(f_double(x3), t_0);
            let t_4 = f_add(f_double(f_double(t_1)), t_3);
            let t_5 = f_add(f_double(f_double(t_0)), t_2);
            let t_6 = f_add(t_3, t_5);
            let t_7 = f_add(t_2, t_4);
            input[b] = t_6;
            input[b + 1] = t_5;
            input[b + 2] = t_7;
            input[b + 3] = t_4;
            proof {
                reveal(crate::model::m4_block);
                assert(m4_block(s, i as int) =~= seq![t_6, t_5, t_7, t_4]);
                let bi = 4 * (i as int);
                assert(bi / 4 == i && (bi + 1) / 4 == i && (bi + 2) / 4 == i && (bi + 3) / 4 == i
                    && bi % 4 == 0 && (bi + 1) % 4 == 1 && (bi + 2) % 4 == 2 && (bi + 3) % 4 == 3)
                    by (nonlinear_arith)
                    requires
                        bi == 4 * (i as int),
                        i >= 0,
                ;
                assert(input@[bi] == matmul_m4_spec(s)[bi]);
                assert(input@[bi + 1] == matmul_m4_spec(s)[bi + 1]);
                assert(input@[bi + 2] == matmul_m4_spec(s)[bi + 2]);
                assert(input@[bi + 3] == matmul_m4_spec(s)[bi + 3]);
            }
            i = i + 1;
        }
        proof {
            assert(input@ =~= matmul_m4_spec(s));
        }
    }

    /// The external (MDS-like) linear layer, in place.
    #[verifier::rlimit(60)]
    pub fn matmul_external(&self, input: &mut Vec<u64>)
        requires
            old(input)@.len() == 2 || old(input)@.len() == 3 || (old(input)@.len() % 4 == 0 && 4
                <= old(input)@.len()),
            elems_ok(old(input)@),
        ensures
            final(input)@ == ext_layer_spec(old(input)@),
            final(input)@.len() == old(input)@.len(),
            elems_ok(final(input)@),
    {
        let ghost s = old(input)@;
        let t = input.len();
        if t == 2 {
            // Matrix circ(2, 1)
            let sum = f_add(input[0], input[1]);
            input[0] = f_add(input[0], sum);
            input[1] = f_add(input[1], sum);
            proof {
                reveal(crate::model::ext_layer_spec);
                assert(input@ =~= ext_layer_spec(s));
            }
        } else if t == 3 {
            // Matrix circ(2, 1, 1)
            let sum = f_add(f_add(input[0], input[1]), input[2]);
            input[0] = f_add(input[0], sum);
            input[1] = f_add(input[1], sum);
            input[2] = f_add(input[2], sum);
            proof {
                reveal(crate::model::ext_layer_spec);
                assert(input@ =~= ext_layer_spec(s));
            }
        } else if t == 4 {
            self.matmul_m4(input);
            proof {
                reveal(crate::model::ext_layer_spec);
            }
        } else {
            self.matmul_m4(input);
            let ghost m = matmul_m4_spec(s);
            let t4 = t / 4;
            // Column sums of the 4x4 blocks.
            let mut stored: Vec<u64> = Vec::new();
            let mut l: usize = 0;
            while l < 4
                invariant
                    t == s.len(),
                    t % 4 == 0,
                    8 <= t,
                    t4 == t / 4,
                    input@ == m,
                    m.len() == t,
                    elems_ok(m),
                    l <= 4,
                    stored@.len() == l,
                    forall|k: int| 0 <= k < l ==> #[trigger] stored@[k] == group_sum(
                        m,
                        k,
                        t4 as int,
                    ),
                    forall|k: int| 0 <= k < l ==> is_elem(#[trigger] stored@[k]),
                decreases 4 - l,
            {
                let mut acc = input[l];
                let mut j: usize = 1;
                while j < t4
                    invariant
                        t == s.len(),
                        t % 4 == 0,
                        8 <= t,
                        t4 == t / 4,
                        input@ == m,
                        m.len() == t,
                        elems_ok(m),
                        l < 4,
                        1 <= j <= t4,
                        acc == group_sum(m, l as int, j as int),
                        is_elem(acc),
                    decreases t4 - j,
                {
                    proof {
                        assert(4 * j + l < t) by (nonlinear_arith)
                            requires
                                j < t4,
                                l < 4,
                                t4 == t / 4,
                                t % 4 == 0,
                                8 <= t,
                        ;
                    }
                    acc = f_add(acc, input[4 * j + l]);
                    j = j + 1;
                }
                stored.push(acc);
                l = l + 1;
            }
            // Add the column sum to every element.
            let mut i: usize = 0;
            while i < t
                invariant
                    t == s.len(),
                    t % 4 == 0,
                    8 <= t,
                    t4 == t / 4,
                    input@.len() == t,
                    m == matmul_m4_spec(s),
                    m.len() == t,
                    elems_ok(m),
                    stored@.len() == 4,
                    forall|k: int| 0 <= k < 4 ==> #[trigger] stored@[k] == group_sum(
                        m,
                        k,
                        t4 as int,
                    ),
                    forall|k: int| 0 <= k < 4 ==> is_elem(#[trigger] stored@[k]),
                    i <= t,
                    forall|j: int| 0 <= j < i ==> #[trigger] input@[j] == ext_layer_spec(s)[j],
                    forall|j: int| i <= j < t ==> #[trigger] input@[j] == m[j],
                decreases t - i,
            {
                let v = input[i];
                input[i] = f_add(v, stored[i % 4]);
                proof {
                    reveal(crate::model::ext_layer_spec);
                    assert(input@[i as int] == ext_layer_spec(s)[i as int]);
                }
                i = i + 1;
            }
            proof {
                reveal(crate::model::ext_layer_spec);
                assert(input@ =~= ext_layer_spec(s));
            }
        }
    }

    /// The internal (diagonal) linear layer, in place.
    #[verifier::rlimit(60)]
    pub fn matmul_internal(&self, input: &mut Vec<u64>, mat_internal_diag_m_1: &Vec<u64>)
        requires
            old(input)@.len() == 2 || old(input)@.len() == 3 || (old(input)@.len() % 4 == 0 && 4
                <= old(input)@.len()),
            mat_internal_diag_m_1@.len() == old(input)@.len(),
            elems_ok(old(input)@),
            elems_ok(mat_internal_diag_m_1@),
        ensures
            final(input)@ == int_layer_spec(old(input)@, mat_internal_diag_m_1@),
            final(input)@.len() == old(input)@.len(),
            elems_ok(final(input)@),
    {
        let ghost s = old(input)@;
        let ghost diag = mat_internal_diag_m_1@;
        let t = input.len();
        if t == 2 {
            // [2, 1]
            // [1, 3]
            let sum = f_add(input[0], input[1]);
            input[0] = f_add(input[0], sum);
            let d1 = f_double(input[1]);
            input[1] = f_add(d1, sum);
            proof {
                reveal(crate::model::int_layer_spec);
                assert(input@ =~= int_layer_spec(s, diag));
            }
        } else if t == 3 {
            // [2, 1, 1]
            // [1, 2, 1]
            // [1, 1, 3]
            let sum = f_add(f_add(input[0], input[1]), input[2]);
            input[0] = f_add(input[0], sum);
            input[1] = f_add(input[1], sum);
            let d2 = f_double(input[2]);
            input[2] = f_add(d2, sum);
            proof {
                reveal(crate::model::int_layer_spec);
                assert(input@ =~= int_layer_spec(s, diag));
            }
        } else {
            // Compute the shared state sum once.
            let mut sum = input[0];
            proof {
                assert(s.take(0) =~= Seq::<u64>::empty());
                assert(fsum(Seq::<u64>::empty()) == 0);
                lemma_fsum_take_step(s, 0);
                vstd::arithmetic::div_mod::lemma_small_mod(
                    s[0] as nat,
                    crate::field::GOLDILOCKS_ORDER as nat,
                );
                assert(sum == fsum(s.take(1)));
            }
            let mut k: usize = 1;
            while k < t
                invariant
                    t == s.len(),
                    4 <= t,
                    input@ == s,
                    elems_ok(s),
                    1 <= k <= t,
                    sum == fsum(s.take(k as int)),
                    is_elem(sum),
                decreases t - k,
            {
                proof {
                    lemma_fsum_take_step(s, k as int);
                }
                sum = f_add(sum, input[k]);
                k = k + 1;
            }
            proof {
                assert(s.take(t as int) =~= s);
            }
            // Multiply by the diagonal entry and add the sum, element-wise.
            let mut i: usize = 0;
            while i < t
                invariant
                    t == s.len(),
                    4 <= t,
                    diag == mat_internal_diag_m_1@,
                    diag.len() == t,
                    input@.len() == t,
                    elems_ok(s),
                    elems_ok(diag),
                    is_elem(sum),
                    sum == fsum(s),
                    i <= t,
                    forall|j: int| 0 <= j < i ==> #[trigger] input@[j] == int_layer_spec(s, diag)[j],
                    forall|j: int| i <= j < t ==> #[trigger] input@[j] == s[j],
                decreases t - i,
            {
                let v = f_mul(input[i], mat_internal_diag_m_1[i]);
                input[i] = f_add(v, sum);
                proof {
                    reveal(crate::model::int_layer_spec);
                    assert(input@[i as int] == int_layer_spec(s, diag)[i as int]);
                }
                i = i + 1;
            }
            proof {
                reveal(crate::model::int_layer_spec);
                assert(input@ =~= int_layer_spec(s, diag));
            }
        }
    }

    /// Runs the whole permutation: the initial external layer, the first
    /// full-round half, the partial rounds, and the second full-round half.
    #[verifier::rlimit(100)]
    pub fn permutation(&self, input: &Vec<u64>) -> (r: Vec<u64>)
        requires
            self.params.wf(),
            input@.len() == self.params.t,
            elems_ok(input@),
        ensures
            r@ == permute_spec(input@, self.params@),
            r@.len() == input@.len(),
            elems_ok(r@),
    {
        let ghost pv = self.params@;
        let mut current_state = copy_state(input);
        // Linear layer at the beginning.
        self.matmul_external(&mut current_state);
        // First half of the full rounds.
        let mut r1: usize = 0;
        while r1 < self.params.rounds_f_beginning
            invariant
                self.params.wf(),
                pv == self.params@,
                input@.len() == self.params.t,
                r1 <= self.params.rounds_f_beginning,
                current_state@ == first_state(input@, pv, r1 as nat),
                current_state@.len() == self.params.t,
                elems_ok(current_state@),
            decreases self.params.rounds_f_beginning - r1,
        {
            proof {
                assert(pv.rc[r1 as int].len() == pv.t);
                assert(pv.rc[r1 as int] == self.params.round_constants@[r1 as int]@);
            }
            let added = self.add_rc(&current_state, &self.params.round_constants[r1]);
            let boxed = self.sbox(&added);
            current_state = boxed;
            self.matmul_external(&mut current_state);
            proof {
                assert(current_state@ == full_round_spec(
                    first_state(input@, pv, r1 as nat),
                    pv.rc[r1 as int],
                    pv.d,
                ));
                assert(first_state(input@, pv, (r1 + 1) as nat) == full_round_spec(
                    first_state(input@, pv, r1 as nat),
                    pv.rc[0 + (r1 + 1) - 1],
                    pv.d,
                ));
            }
            r1 = r1 + 1;
        }
        // Partial rounds: the round constant and the S-box touch element 0
        // only, followed by the internal linear layer.
        let mut r2: usize = 0;
        while r2 < self.params.rounds_p
            invariant
                self.params.wf(),
                pv == self.params@,
                input@.len() == self.params.t,
                r2 <= self.params.rounds_p,
                current_state@ == partial_state(input@, pv, r2 as nat),
                current_state@.len() == self.params.t,
                elems_ok(current_state@),
            decreases self.params.rounds_p - r2,
        {
            let idx = self.params.rounds_f_beginning + r2;
            proof {
                assert(pv.rc[idx as int].len() == pv.t);
                assert(pv.rc[idx as int] == self.params.round_constants@[idx as int]@);
            }
            let rc0 = self.params.round_constants[idx][0];
            let x = f_add(current_state[0], rc0);
            let sx = self.sbox_p(x);
            let ghost before = current_state@;
            current_state[0] = sx;
            self.matmul_internal(&mut current_state, &self.params.mat_internal_diag_m_1);
            proof {
                assert(current_state@ == partial_round_spec(
                    before,
                    pv.rc[idx as int][0],
                    pv.diag,
                    pv.d,
                ));
                assert(partial_state(input@, pv, (r2 + 1) as nat) == partial_round_spec(
                    partial_state(input@, pv, r2 as nat),
                    pv.rc[pv.rounds_f_beginning + (r2 + 1) - 1][0],
                    pv.diag,
                    pv.d,
                ));
            }
            r2 = r2 + 1;
        }
        // Second half of the full rounds.
        let mut r3: usize = 0;
        while r3 < self.params.rounds_f_end
            invariant
                self.params.wf(),
                pv == self.params@,
                input@.len() == self.params.t,
                r3 <= self.params.rounds_f_end,
                current_state@ == second_state(input@, pv, r3 as nat),
                current_state@.len() == self.params.t,
                elems_ok(current_state@),
            decreases self.params.rounds_f_end - r3,
        {
            let idx = self.params.rounds_f_beginning + self.params.rounds_p + r3;
            proof {
                assert(pv.rc[idx as int].len() == pv.t);
                assert(pv.rc[idx as int] == self.params.round_constants@[idx as int]@);
            }
            let added = self.add_rc(&current_state, &self.params.round_constants[idx]);
            let boxed = self.sbox(&added);
            current_state = boxed;
            self.matmul_external(&mut current_state);
            proof {
                assert(current_state@ == full_round_spec(
                    second_state(input@, pv, r3 as nat),
                    pv.rc[idx as int],
                    pv.d,
                ));
                assert(second_state(input@, pv, (r3 + 1) as nat) == full_round_spec(
                    second_state(input@, pv, r3 as nat),
                    pv.rc[pv.rounds_f_beginning + pv.rounds_p as int + (r3 + 1) - 1],
                    pv.d,
                ));
            }
            r3 = r3 + 1;
        }
        current_state
    }
}

} // verus!
