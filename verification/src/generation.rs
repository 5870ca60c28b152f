//! Trace generation for the width-8 Goldilocks instance: round-state
//! generators for each stage of the permutation and the full trace builder.

use vstd::prelude::*;

pub use crate::trace::Row;

use crate::instances::{goldilocks_8_params, goldilocks_8_view};
use crate::layout::ColumnLayout;
use crate::model::{elems_ok, first_state, permute_spec, rounds_full_spec, rounds_partial_spec};
use crate::poseidon2::Poseidon2;
use crate::trace::{
    first_full_round_states, generate_trace, partial_round_states, second_full_round_states,
    trace_records,
};

verus! {

/// The state width of this instance.
pub const STATE_SIZE: usize = 8;

/// The column layout of the width-8 trace: no selector column; input, four
/// first-half round states, 22 partial-round elements, the partial-round-end
/// state, four second-half round states (the last being the output).
pub open spec fn goldilocks_8_layout() -> ColumnLayout {
    ColumnLayout {
        state_size: 8,
        rounds_f_half: 4,
        rounds_p: 22,
        has_selector: false,
        input_start: 0,
        first_start: 8,
        partial_start: 40,
        partial_end_start: 62,
        second_start: 70,
        output_start: 94,
        num_cols: 102,
    }
}

/// The total number of trace columns of this instance.
pub const NUM_COLS: usize = 102;

/// Builds the width-8 layout.
pub fn layout_8() -> (r: ColumnLayout)
    ensures
        r == goldilocks_8_layout(),
        r.wf(),
        r.matches(goldilocks_8_view()),
{
    let r = ColumnLayout::compute(8, 4, 22, false);
    proof {
        assert(r == goldilocks_8_layout());
    }
    r
}

/// The width-8 permutation instance.
pub fn poseidon2_8() -> (r: Poseidon2)
    ensures
        r.params.wf(),
        r.params@ == goldilocks_8_view(),
        r.params.t == 8,
{
    Poseidon2::new(goldilocks_8_params())
}

/// The state after each of the first four full rounds (the initial external
/// layer applied first).
pub fn generate_1st_full_round_state(preimage: &Vec<u64>) -> (out: Vec<Vec<u64>>)
    requires
        preimage@.len() == 8,
        elems_ok(preimage@),
    ensures
        out@.len() == 4,
        forall|r: int|
            0 <= r < 4 ==> (#[trigger] out@[r])@ == first_state(
                preimage@,
                goldilocks_8_view(),
                (r + 1) as nat,
            ),
        forall|r: int| 0 <= r < 4 ==> (#[trigger] out@[r])@.len() == 8 && elems_ok(out@[r]@),
{
    let instance = poseidon2_8();
    first_full_round_states(&instance, preimage)
}

/// The state after each of the 22 partial rounds, starting from the last
/// first-half round state.
pub fn generate_partial_round_state(last_round_output: &Vec<u64>) -> (out: Vec<Vec<u64>>)
    requires
        last_round_output@.len() == 8,
        elems_ok(last_round_output@),
    ensures
        out@.len() == 22,
        forall|r: int|
            0 <= r < 22 ==> (#[trigger] out@[r])@ == rounds_partial_spec(
                last_round_output@,
                goldilocks_8_view(),
                (r + 1) as nat,
            ),
        forall|r: int| 0 <= r < 22 ==> (#[trigger] out@[r])@.len() == 8 && elems_ok(out@[r]@),
{
    let instance = poseidon2_8();
    partial_round_states(&instance, last_round_output)
}

/// The state after each of the last four full rounds, starting from the
/// last partial-round state.
pub fn generate_2st_full_round_state(last_round_output: &Vec<u64>) -> (out: Vec<Vec<u64>>)
    requires
        last_round_output@.len() == 8,
        elems_ok(last_round_output@),
    ensures
        out@.len() == 4,
        forall|r: int|
            0 <= r < 4 ==> (#[trigger] out@[r])@ == rounds_full_spec(
                last_round_output@,
                goldilocks_8_view(),
                26,
                (r + 1) as nat,
            ),
        forall|r: int| 0 <= r < 4 ==> (#[trigger] out@[r])@.len() == 8 && elems_ok(out@[r]@),
{
    let instance = poseidon2_8();
    second_full_round_states(&instance, last_round_output)
}

/// The permutation output for a preimage.
pub fn generate_outputs(preimage: &Vec<u64>) -> (out: Vec<u64>)
    requires
        preimage@.len() == 8,
        elems_ok(preimage@),
    ensures
        out@ == permute_spec(preimage@, goldilocks_8_view()),
        out@.len() == 8,
        elems_ok(out@),
{
    let instance = poseidon2_8();
    instance.permutation(preimage)
}

/// Builds the width-8 trace: every input row fully recorded, padded to a
/// power-of-two height by repeating the last row.
pub fn generate_poseidon2_trace(step_rows: Vec<Row>) -> (trace: Vec<Vec<u64>>)
    requires
        forall|i: int| 0 <= i < step_rows@.len() ==> (#[trigger] step_rows@[i]).wf(8),
        step_rows@.len() <= usize::MAX / 2,
    ensures
        trace_records(trace@, step_rows@, goldilocks_8_view(), goldilocks_8_layout()),
{
    let instance = poseidon2_8();
    let layout = layout_8();
    generate_trace(&instance, &layout, &step_rows)
}

} // verus!
