//! Round parameters of a Poseidon2 permutation instance: state width, S-box
//! degree, round counts, the internal-layer diagonal, and the round-constant
//! table. Constructed once, then shared read-only by the permutation, the
//! trace generator and the constraint evaluator.

use vstd::prelude::*;

use crate::field::is_elem;

verus! {

/// The mathematical content of a parameter set: widths and counts as `nat`,
/// the constant tables as sequences.
pub ghost struct ParamsView {
    /// State width.
    pub t: nat,
    /// S-box degree.
    pub d: nat,
    /// Number of full rounds before (and also after) the partial rounds.
    pub rounds_f_beginning: nat,
    /// Number of partial rounds.
    pub rounds_p: nat,
    /// Diagonal of the internal linear layer, minus the all-ones matrix.
    pub diag: Seq<u64>,
    /// One row of round constants per round.
    pub rc: Seq<Seq<u64>>,
}

impl ParamsView {
    /// Total number of rounds: the two full-round halves plus the partial rounds.
    pub open spec fn rounds(self) -> nat {
        self.rounds_f_beginning + self.rounds_f_beginning + self.rounds_p
    }

    /// Well-formedness: a supported width and S-box degree, matching table
    /// shapes, and every table entry a canonical field element. The count
    /// bounds are generous machine limits that keep column arithmetic inside
    /// `usize`.
    pub open spec fn wf(self) -> bool {
        &&& (self.t == 2 || self.t == 3 || (self.t % 4 == 0 && 4 <= self.t <= 24))
        &&& (self.d == 3 || self.d == 5 || self.d == 7)
        &&& 1 <= self.rounds_f_beginning <= 64
        &&& self.rounds_p <= 256
        &&& self.diag.len() == self.t
        &&& (forall|i: int| 0 <= i < self.diag.len() ==> is_elem(#[trigger] self.diag[i]))
        &&& self.rc.len() == self.rounds()
        &&& (forall|r: int| 0 <= r < self.rc.len() ==> (#[trigger] self.rc[r]).len() == self.t)
        &&& (forall|r: int, i: int|
            0 <= r < self.rc.len() && 0 <= i < self.t ==> is_elem(#[trigger] self.rc[r][i]))
    }
}

/// An immutable Poseidon2 parameter set.
pub struct Poseidon2Params {
    /// State width.
    pub t: usize,
    /// S-box degree.
    pub d: usize,
    /// Number of full rounds before the partial rounds.
    pub rounds_f_beginning: usize,
    /// Number of full rounds after the partial rounds; equal to
    /// `rounds_f_beginning`.
    pub rounds_f_end: usize,
    /// Number of partial rounds.
    pub rounds_p: usize,
    /// Total number of rounds.
    pub rounds: usize,
    /// Diagonal of the internal linear layer, minus the all-ones matrix.
    pub mat_internal_diag_m_1: Vec<u64>,
    /// One row of round constants per round.
    pub round_constants: Vec<Vec<u64>>,
}

impl View for Poseidon2Params {
    type V = ParamsView;

    open spec fn view(&self) -> ParamsView {
        ParamsView {
            t: self.t as nat,
            d: self.d as nat,
            rounds_f_beginning: self.rounds_f_beginning as nat,
            rounds_p: self.rounds_p as nat,
            diag: self.mat_internal_diag_m_1@,
            rc: Seq::new(
                self.round_constants@.len(),
                |r: int| self.round_constants@[r]@,
            ),
        }
    }
}

impl Poseidon2Params {
    /// Well-formedness of the stored parameter set: the view is well-formed
    /// and the redundant counts agree with it.
    pub open spec fn wf(&self) -> bool {
        &&& self@.wf()
        &&& self.rounds_f_end == self.rounds_f_beginning
        &&& self.rounds == self.rounds_f_beginning + self.rounds_f_end + self.rounds_p
    }

    /// Builds a parameter set from a supported width, S-box degree, an even
    /// count of full rounds, a count of partial rounds, and tables of the
    /// matching shapes, all of whose entries are canonical field elements.
    pub fn new(
        t: usize,
        d: usize,
        rounds_f: usize,
        rounds_p: usize,
        mat_internal_diag_m_1: Vec<u64>,
        round_constants: Vec<Vec<u64>>,
    ) -> (r: Self)
        requires
            t == 2 || t == 3 || (t % 4 == 0 && 4 <= t <= 24),
            d == 3 || d == 5 || d == 7,
            rounds_f % 2 == 0,
            2 <= rounds_f <= 128,
            rounds_p <= 256,
            mat_internal_diag_m_1@.len() == t,
            forall|i: int|
                0 <= i < mat_internal_diag_m_1@.len() ==> is_elem(
                    #[trigger] mat_internal_diag_m_1@[i],
                ),
            round_constants@.len() == rounds_f + rounds_p,
            forall|r: int|
                0 <= r < round_constants@.len() ==> (#[trigger] round_constants@[r])@.len() == t,
            forall|r: int, i: int|
                0 <= r < round_constants@.len() && 0 <= i < t ==> is_elem(
                    #[trigger] round_constants@[r]@[i],
                ),
        ensures
            r.wf(),
            r.t == t,
            r.d == d,
            r.rounds_f_beginning == rounds_f / 2,
            r.rounds_f_end == rounds_f / 2,
            r.rounds_p == rounds_p,
            r.rounds == rounds_f + rounds_p,
            r.mat_internal_diag_m_1 == mat_internal_diag_m_1,
            r.round_constants == round_constants,
    {
        let half = rounds_f / 2;
        let rounds = rounds_f + rounds_p;
        Poseidon2Params {
            t,
            d,
            rounds_f_beginning: half,
            rounds_f_end: half,
            rounds_p,
            rounds,
            mat_internal_diag_m_1,
            round_constants,
        }
    }

    /// The state width of this parameter set.
    pub fn get_t(&self) -> (r: usize)
        ensures
            r == self.t,
    {
        self.t
    }
}

} // verus!
