//! The width-8 constraint system: the layout's column count, no public
//! inputs, a row-local constraint evaluator, and the declared constraint
//! degree bound.

use vstd::prelude::*;

use crate::air::{constraint_at, constraint_degree_bounds, eval_constraints, n_constraints};
use crate::generation::{goldilocks_8_layout, layout_8, poseidon2_8};
use crate::instances::goldilocks_8_view;
use crate::layout::ColumnLayout;
use crate::model::elems_ok;
use crate::poseidon2::Poseidon2;

verus! {

/// Number of public inputs of this constraint system: the permutation is a
/// pure function of the committed trace.
pub const PUBLIC_INPUTS: usize = 0;

/// The width-8 constraint system.
pub struct Poseidon2Stark {
    /// The permutation instance whose traces this system certifies.
    pub instance: Poseidon2,
    /// The column layout of its traces.
    pub layout: ColumnLayout,
}

impl Poseidon2Stark {
    /// The system carries the width-8 Goldilocks parameters and layout.
    pub open spec fn wf(&self) -> bool {
        &&& self.instance.params.wf()
        &&& self.instance.params@ == goldilocks_8_view()
        &&& self.layout == goldilocks_8_layout()
    }

    /// Builds the width-8 constraint system.
    pub fn new() -> (r: Self)
        ensures
            r.wf(),
            r.layout.num_cols == crate::generation::NUM_COLS,
    {
        Poseidon2Stark { instance: poseidon2_8(), layout: layout_8() }
    }

    /// Evaluates every constraint on one row of trace values; all results
    /// are zero exactly when the row records a run of the permutation.
    pub fn evaluate(&self, local_values: &Vec<u64>) -> (out: Vec<u64>)
        requires
            self.wf(),
            local_values@.len() == goldilocks_8_layout().num_cols,
            elems_ok(local_values@),
        ensures
            out@.len() == n_constraints(goldilocks_8_layout()),
            forall|k: int|
                0 <= k < out@.len() ==> #[trigger] out@[k] == constraint_at(
                    local_values@,
                    goldilocks_8_view(),
                    goldilocks_8_layout(),
                    k,
                ),
            elems_ok(out@),
    {
        proof {
            assert(goldilocks_8_layout().wf());
            assert(goldilocks_8_layout().matches(goldilocks_8_view()));
        }
        eval_constraints(&self.instance, &self.layout, local_values)
    }

    /// Upper bounds on the polynomial degree of each constraint in the
    /// trace's column variables; none exceeds the declared degree.
    pub fn degree_bounds(&self) -> (out: Vec<u64>)
        requires
            self.wf(),
        ensures
            out@.len() == n_constraints(goldilocks_8_layout()),
            forall|k: int| 0 <= k < out@.len() ==> 1 <= #[trigger] out@[k] <= 7,
    {
        proof {
            assert(goldilocks_8_layout().wf());
            assert(goldilocks_8_layout().matches(goldilocks_8_view()));
        }
        constraint_degree_bounds(&self.instance, &self.layout)
    }

    /// The declared constraint-degree bound: one S-box application per
    /// constraint, degree 7.
    pub fn constraint_degree(&self) -> (r: usize)
        ensures
            r == 7,
    {
        7
    }
}

} // verus!
