//! The width-12 constraint system: the layout's column count, no public
//! inputs, a row-local constraint evaluator, and the declared constraint
//! degree bound.

use vstd::prelude::*;

use crate::air::{constraint_at, constraint_degree_bounds, eval_constraints, n_constraints};
use crate::generation12::{goldilocks_12_layout, layout_12, poseidon2_12};
use crate::instances::goldilocks_12_view;
use crate::layout::ColumnLayout;
use crate::model::elems_ok;
use crate::poseidon2::Poseidon2;

verus! {

/// Number of public inputs of this constraint system: the permutation is a
/// pure function of the committed trace.
pub const PUBLIC_INPUTS: usize = 0;

/// The width-12 constraint system.
pub struct Poseidon2_12Stark {
    /// The permutation instance whose traces this system certifies.
    pub instance: Poseidon2,
    /// The column layout of its traces.
    pub layout: ColumnLayout,
}

impl Poseidon2_12Stark {
    /// The system carries the width-12 Goldilocks parameters and layout.
    pub open spec fn wf(&self) -> bool {
        &&& self.instance.params.wf()
        &&& self.instance.params@ == goldilocks_12_view()
        &&& self.layout == goldilocks_12_layout()
    }

    /// Builds the width-12 constraint system.
    pub fn new() -> (r: Self)
        ensures
            r.wf(),
            r.layout.num_cols == crate::generation12::NUM_COLS,
    {
        Poseidon2_12Stark { instance: poseidon2_12(), layout: layout_12() }
    }

    /// Evaluates every constraint on one row of trace values; all results
    /// are zero exactly when the row records a run of the permutation.
    pub fn evaluate(&self, local_values: &Vec<u64>) -> (out: Vec<u64>)
        requires
            self.wf(),
            local_values@.len() == goldilocks_12_layout().num_cols,
            elems_ok(local_values@),
        ensures
            out@.len() == n_constraints(goldilocks_12_layout()),
            forall|k: int|
                0 <= k < out@.len() ==> #[trigger] out@[k] == constraint_at(
                    local_values@,
                    goldilocks_12_view(),
                    goldilocks_12_layout(),
                    k,
                ),
            elems_ok(out@),
    {
        proof {
            assert(goldilocks_12_layout().wf());
            assert(goldilocks_12_layout().matches(goldilocks_12_view()));
        }
        eval_constraints(&self.instance, &self.layout, local_values)
    }

    /// Upper bounds on the polynomial degree of each constraint in the
    /// trace's column variables; none exceeds the declared degree.
    pub fn degree_bounds(&self) -> (out: Vec<u64>)
        requires
            self.wf(),
        ensures
            out@.len() == n_constraints(goldilocks_12_layout()),
            forall|k: int| 0 <= k < out@.len() ==> 1 <= #[trigger] out@[k] <= 7,
    {
        proof {
            assert(goldilocks_12_layout().wf());
            assert(goldilocks_12_layout().matches(goldilocks_12_view()));
        }
        constraint_degree_bounds(&self.instance, &self.layout)
    }

    /// The declared constraint-degree bound: one S-box application per
    /// constraint, degree 7.
    pub fn constraint_degree(&self) -> (r: usize)
        ensures
            r == 7,
    {
        7
    }
}

} // verus!
