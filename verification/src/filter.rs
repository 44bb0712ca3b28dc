//! Second-order Butterworth IIR filter over the 16.16 fixed-point domain.
//!
//! The filter keeps its history — the three most recent inputs and the two
//! most recent outputs — in fixed-capacity circular buffers with independent
//! write cursors, and computes the classic direct-form difference equation
//! `y[n] = b0*x[n] + b1*x[n-1] + b2*x[n-2] - a1*y[n-1] - a2*y[n-2]`.
//! Each call advances the history by exactly one input and one output.

use vstd::prelude::*;
use crate::fx::{fx_add, fx_mul, fx_sub, Fix};

verus! {

/// Coefficient b0 of the difference equation, in 16.16 bits (~0.00414308).
pub const B0_BITS: i32 = 272;

/// Coefficient b1 of the difference equation.
pub const B1_BITS: i32 = 0;

/// Coefficient b2 of the difference equation, in 16.16 bits (~-0.00414308).
pub const B2_BITS: i32 = -272;

/// Coefficient a1 of the difference equation, in 16.16 bits (~-1.99130017).
pub const A1_BITS: i32 = -130502;

/// Coefficient a2 of the difference equation, in 16.16 bits (~0.99171384).
pub const A2_BITS: i32 = 64993;

/// The output the difference equation assigns to one step, over the bit
/// values of the current input `x0`, the two earlier inputs and the two
/// earlier outputs, with the operations applied in left-to-right order.
pub open spec fn filter_out(x0: int, x1: int, x2: int, y1: int, y2: int) -> int {
    fx_sub(
        fx_sub(
            fx_add(
                fx_add(fx_mul(B0_BITS as int, x0), fx_mul(B1_BITS as int, x1)),
                fx_mul(B2_BITS as int, x2),
            ),
            fx_mul(A1_BITS as int, y1),
        ),
        fx_mul(A2_BITS as int, y2),
    )
}

/// The filter is a pure function of the current input and the history: two
/// filter states whose histories resolve to the same values assign the same
/// output to the same input, wherever their cursors stand. Fed the same
/// input sequence, they therefore produce identical output sequences.
pub proof fn lemma_filter_pure(a: Butterworth, b: Butterworth, x: int)
    requires
        a.past_input(0) == b.past_input(0),
        a.past_input(1) == b.past_input(1),
        a.past_output(0) == b.past_output(0),
        a.past_output(1) == b.past_output(1),
    ensures
        filter_out(x, a.past_input(0), a.past_input(1), a.past_output(0), a.past_output(1))
            == filter_out(x, b.past_input(0), b.past_input(1), b.past_output(0), b.past_output(1)),
{
}

/// The filter state: circular input and output history windows, each with
/// its own write cursor that advances modulo the window's capacity.
pub struct Butterworth {
    pub inputs: Vec<Fix>,
    pub outputs: Vec<Fix>,
    pub input_index: usize,
    pub output_index: usize,
}

impl Butterworth {
    /// Well-formedness: fixed window capacities, cursors inside them.
    pub open spec fn wf(self) -> bool {
        &&& self.inputs@.len() == 3
        &&& self.outputs@.len() == 2
        &&& self.input_index < 3
        &&& self.output_index < 2
    }

    /// Bit value of the k-th most recent input (k in 0..3), resolved
    /// relative to the current write cursor.
    pub open spec fn past_input(self, k: int) -> int {
        self.inputs@[(self.input_index as int + 2 - k) % 3]@
    }

    /// Bit value of the k-th most recent output (k in 0..2), resolved
    /// relative to the current write cursor.
    pub open spec fn past_output(self, k: int) -> int {
        self.outputs@[(self.output_index as int + 1 - k) % 2]@
    }

    /// A fresh filter: all history zero.
    pub fn new() -> (r: Butterworth)
        ensures
            r.wf(),
            r.past_input(0) == 0,
            r.past_input(1) == 0,
            r.past_input(2) == 0,
            r.past_output(0) == 0,
            r.past_output(1) == 0,
    {
        let z = Fix::zero();
        Butterworth {
            inputs: vec![z, z, z],
            outputs: vec![z, z],
            input_index: 0,
            output_index: 0,
        }
    }

    /// Record one input in the circular window and advance its cursor.
    fn push_input(&mut self, input: Fix)
        requires
            old(self).wf(),
        ensures
            final(self).wf(),
            final(self).past_input(0) == input@,
            final(self).past_input(1) == old(self).past_input(0),
            final(self).past_input(2) == old(self).past_input(1),
            final(self).outputs == old(self).outputs,
            final(self).output_index == old(self).output_index,
    {
        self.inputs[self.input_index] = input;
        self.input_index = (self.input_index + 1) % 3;
    }

    /// Record one output in the circular window and advance its cursor.
    fn push_output(&mut self, output: Fix)
        requires
            old(self).wf(),
        ensures
            final(self).wf(),
            final(self).past_output(0) == output@,
            final(self).past_output(1) == old(self).past_output(0),
            final(self).inputs == old(self).inputs,
            final(self).input_index == old(self).input_index,
    {
        self.outputs[self.output_index] = output;
        self.output_index = (self.output_index + 1) % 2;
    }

    /// One filter step: push the input, evaluate the difference equation on
    /// the current history, push and return the output. Pure in the sense
    /// that the result and the new history are functions of the input and
    /// the old history alone.
    pub fn compute(&mut self, input: Fix) -> (y: Fix)
        requires
            old(self).wf(),
        ensures
            final(self).wf(),
            y@ == filter_out(
                input@,
                old(self).past_input(0),
                old(self).past_input(1),
                old(self).past_output(0),
                old(self).past_output(1),
            ),
            final(self).past_input(0) == input@,
            final(self).past_input(1) == old(self).past_input(0),
            final(self).past_input(2) == old(self).past_input(1),
            final(self).past_output(0) == y@,
            final(self).past_output(1) == old(self).past_output(0),
    {
        self.push_input(input);

        let b0 = Fix::from_bits(B0_BITS);
        let b1 = Fix::from_bits(B1_BITS);
        let b2 = Fix::from_bits(B2_BITS);
        let a1 = Fix::from_bits(A1_BITS);
        let a2 = Fix::from_bits(A2_BITS);

        // Resolve "most recent", "one before", "two before" relative to the
        // advanced cursor.
        let i = self.input_index;
        let x0 = self.inputs[(i + 2) % 3];
        let x1 = self.inputs[(i + 1) % 3];
        let x2 = self.inputs[i];
        let j = self.output_index;
        let y1 = self.outputs[(j + 1) % 2];
        let y2 = self.outputs[j];

        let y = b0.mul(x0).add(b1.mul(x1)).add(b2.mul(x2)).sub(a1.mul(y1)).sub(a2.mul(y2));

        self.push_output(y);
        y
    }
}

} // verus!
