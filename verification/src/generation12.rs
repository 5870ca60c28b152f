//! Trace generation for the width-12 Goldilocks instance: round-state
//! generators for each stage of the permutation and the full trace builder,
//! with an execution-selector column that distinguishes genuine rows from
//! padding, and a synthesized row when there is no input at all.

use vstd::prelude::*;

pub use crate::trace::Row;

use crate::instances::{goldilocks_12_params, goldilocks_12_view};
use crate::layout::ColumnLayout;
use crate::model::{elems_ok, first_state, permute_spec, rounds_full_spec, rounds_partial_spec};
use crate::poseidon2::Poseidon2;
use crate::trace::{
    first_full_round_states, generate_trace, partial_round_states, second_full_round_states,
    trace_records,
};

verus! {

/// The state width of this instance.
pub const STATE_SIZE: usize = 12;

/// The execution-selector column: 1 on genuine computation rows, 0 on
/// padding and synthesized rows.
pub const COL_IS_EXE: usize = 0;

/// The column layout of the width-12 trace: the execution selector, then
/// input, four first-half round states, 22 partial-round elements, the
/// partial-round-end state, four second-half round states (the last being
/// the output).
pub open spec fn goldilocks_12_layout() -> ColumnLayout {
    ColumnLayout {
        state_size: 12,
        rounds_f_half: 4,
        rounds_p: 22,
        has_selector: true,
        input_start: 1,
        first_start: 13,
        partial_start: 61,
        partial_end_start: 83,
        second_start: 95,
        output_start: 131,
        num_cols: 143,
    }
}

/// The total number of trace columns of this instance.
pub const NUM_COLS: usize = 143;

/// Builds the width-12 layout.
pub fn layout_12() -> (r: ColumnLayout)
    ensures
        r == goldilocks_12_layout(),
        r.wf(),
        r.matches(goldilocks_12_view()),
{
    let r = ColumnLayout::compute(12, 4, 22, true);
    proof {
        assert(r == goldilocks_12_layout());
    }
    r
}

/// The width-12 permutation instance.
pub fn poseidon2_12() -> (r: Poseidon2)
    ensures
        r.params.wf(),
        r.params@ == goldilocks_12_view(),
        r.params.t == 12,
{
    Poseidon2::new(goldilocks_12_params())
}

/// The state after each of the first four full rounds (the initial external
/// layer applied first).
pub fn generate_1st_full_round_state(preimage: &Vec<u64>) -> (out: Vec<Vec<u64>>)
    requires
        preimage@.len() == 12,
        elems_ok(preimage@),
    ensures
        out@.len() == 4,
        forall|r: int|
            0 <= r < 4 ==> (#[trigger] out@[r])@ == first_state(
                preimage@,
                goldilocks_12_view(),
                (r + 1) as nat,
            ),
        forall|r: int| 0 <= r < 4 ==> (#[trigger] out@[r])@.len() == 12 && elems_ok(out@[r]@),
{
    let instance = poseidon2_12();
    first_full_round_states(&instance, preimage)
}

/// The state after each of the 22 partial rounds, starting from the last
/// first-half round state.
pub fn generate_partial_round_state(last_round_output: &Vec<u64>) -> (out: Vec<Vec<u64>>)
    requires
        last_round_output@.len() == 12,
        elems_ok(last_round_output@),
    ensures
        out@.len() == 22,
        forall|r: int|
            0 <= r < 22 ==> (#[trigger] out@[r])@ == rounds_partial_spec(
                last_round_output@,
                goldilocks_12_view(),
                (r + 1) as nat,
            ),
        forall|r: int| 0 <= r < 22 ==> (#[trigger] out@[r])@.len() == 12 && elems_ok(out@[r]@),
{
    let instance = poseidon2_12();
    partial_round_states(&instance, last_round_output)
}

/// The state after each of the last four full rounds, starting from the
/// last partial-round state.
pub fn generate_2st_full_round_state(last_round_output: &Vec<u64>) -> (out: Vec<Vec<u64>>)
    requires
        last_round_output@.len() == 12,
        elems_ok(last_round_output@),
    ensures
        out@.len() == 4,
        forall|r: int|
            0 <= r < 4 ==> (#[trigger] out@[r])@ == rounds_full_spec(
                last_round_output@,
                goldilocks_12_view(),
                26,
                (r + 1) as nat,
            ),
        forall|r: int| 0 <= r < 4 ==> (#[trigger] out@[r])@.len() == 12 && elems_ok(out@[r]@),
{
    let instance = poseidon2_12();
    second_full_round_states(&instance, last_round_output)
}

/// The permutation output for a preimage.
pub fn generate_outputs(preimage: &Vec<u64>) -> (out: Vec<u64>)
    requires
        preimage@.len() == 12,
        elems_ok(preimage@),
    ensures
        out@ == permute_spec(preimage@, goldilocks_12_view()),
        out@.len() == 12,
        elems_ok(out@),
{
    let instance = poseidon2_12();
    instance.permutation(preimage)
}

/// Builds the width-12 trace: every input row fully recorded with selector
/// 1; an empty input yields one synthesized all-zero row with selector 0;
/// padding to a power-of-two height repeats the last row with selector 0.
pub fn generate_poseidon2_trace(step_rows: &Vec<Row>) -> (trace: Vec<Vec<u64>>)
    requires
        forall|i: int| 0 <= i < step_rows@.len() ==> (#[trigger] step_rows@[i]).wf(12),
        step_rows@.len() <= usize::MAX / 2,
    ensures
        trace_records(trace@, step_rows@, goldilocks_12_view(), goldilocks_12_layout()),
{
    let instance = poseidon2_12();
    let layout = layout_12();
    generate_trace(&instance, &layout, step_rows)
}

} // verus!
