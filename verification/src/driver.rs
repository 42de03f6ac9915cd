use vstd::prelude::*;

use crate::computation::{final_value, Computation};
use crate::render::{
    render_result_line, spec_decimal, spec_decimal_digits, spec_line_prefix, spec_result_line,
};

verus! {

/// The computation's result, obtained by driving a fresh computation to its
/// terminal state. Every invocation returns the same fixed value.
pub fn computed_result() -> (r: i32)
    ensures
        r == final_value(),
{
    let mut computation = Computation::new();
    computation.run_to_completion()
}

/// The single line the driver emits on standard output, without the trailing
/// newline: the fixed prefix followed by the computation's result.
pub fn driver_line() -> (out: Vec<u8>)
    ensures
        out@ == spec_result_line(final_value()),
{
    let result = computed_result();
    render_result_line(result)
}

/// The driver's output is the same fixed text on every run: the line it
/// emits is exactly the prefix followed by the two digits of the fixed
/// arithmetic sum.
pub proof fn lemma_driver_line_fixed()
    ensures
        spec_result_line(final_value()) == spec_line_prefix() + seq![49u8, 51u8],
{
    assert(spec_decimal_digits(1nat) == seq![49u8]);
    assert(spec_decimal_digits(13nat) == spec_decimal_digits(1nat).push(51u8));
    assert(spec_decimal(final_value()) =~= seq![49u8, 51u8]);
}

} // verus!
