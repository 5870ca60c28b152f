//! The column layout of the trace matrix: a fixed mapping from semantic
//! quantities (optional execution selector, input state, each recorded round
//! state, output state) to contiguous column ranges, computed once from the
//! state width and the round counts.

use vstd::prelude::*;

use crate::params::ParamsView;

verus! {

/// Named column offsets into the trace matrix. The blocks are contiguous and
/// non-overlapping, in the order: selector (optional), input state,
/// first-half full-round states, partial-round elements, partial-round-end
/// state, second-half full-round states; the output block coincides with the
/// last second-half block.
#[derive(Clone, Copy)]
pub struct ColumnLayout {
    /// State width.
    pub state_size: usize,
    /// Number of full rounds in each half.
    pub rounds_f_half: usize,
    /// Number of partial rounds.
    pub rounds_p: usize,
    /// Whether column 0 is an execution selector (1 on genuine rows, 0 on
    /// padding).
    pub has_selector: bool,
    /// First column of the input state.
    pub input_start: usize,
    /// First column of the first-half full-round states.
    pub first_start: usize,
    /// First column of the partial-round elements (element 0 of the state
    /// after each partial round).
    pub partial_start: usize,
    /// First column of the full state after the last partial round.
    pub partial_end_start: usize,
    /// First column of the second-half full-round states.
    pub second_start: usize,
    /// First column of the output state.
    pub output_start: usize,
    /// Total number of columns.
    pub num_cols: usize,
}

impl ColumnLayout {
    /// The offsets are the canonical ones computed from the width and the
    /// round counts.
    pub open spec fn wf(&self) -> bool {
        &&& 2 <= self.state_size
        &&& 1 <= self.rounds_f_half
        &&& self.input_start == if self.has_selector {
            1int
        } else {
            0int
        }
        &&& self.first_start == self.input_start + self.state_size
        &&& self.partial_start == self.first_start + self.state_size * self.rounds_f_half
        &&& self.partial_end_start == self.partial_start + self.rounds_p
        &&& self.second_start == self.partial_end_start + self.state_size
        &&& self.num_cols == self.second_start + self.state_size * self.rounds_f_half
        &&& self.output_start == self.num_cols - self.state_size
    }

    /// The layout is sized for the given parameter set.
    pub open spec fn matches(&self, pv: ParamsView) -> bool {
        &&& self.state_size == pv.t
        &&& self.rounds_f_half == pv.rounds_f_beginning
        &&& self.rounds_p == pv.rounds_p
    }

    /// Computes the layout for a state width, a count of full rounds per
    /// half, a count of partial rounds, and an optional selector column.
    pub fn compute(
        state_size: usize,
        rounds_f_half: usize,
        rounds_p: usize,
        has_selector: bool,
    ) -> (r: ColumnLayout)
        requires
            2 <= state_size <= 24,
            1 <= rounds_f_half <= 64,
            rounds_p <= 256,
        ensures
            r.wf(),
            r.state_size == state_size,
            r.rounds_f_half == rounds_f_half,
            r.rounds_p == rounds_p,
            r.has_selector == has_selector,
    {
        proof {
            assert(state_size * rounds_f_half <= 24 * 64) by (nonlinear_arith)
                requires
                    2 <= state_size <= 24,
                    1 <= rounds_f_half <= 64,
            ;
        }
        let input_start: usize = if has_selector {
            1
        } else {
            0
        };
        let first_start = input_start + state_size;
        let partial_start = first_start + state_size * rounds_f_half;
        let partial_end_start = partial_start + rounds_p;
        let second_start = partial_end_start + state_size;
        let num_cols = second_start + state_size * rounds_f_half;
        let output_start = num_cols - state_size;
        ColumnLayout {
            state_size,
            rounds_f_half,
            rounds_p,
            has_selector,
            input_start,
            first_start,
            partial_start,
            partial_end_start,
            second_start,
            output_start,
            num_cols,
        }
    }
}

} // verus!
