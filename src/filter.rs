//! The echo tone filter: an 8-tap FIR filter with signed Q.7 coefficients.

use vstd::prelude::*;
use crate::helpers::{clamp16, clamp16_spec, floor_div, in_i16, signed_byte, wrap16, wrap16_spec, lemma_div_bounds};

verus! {

/// The number of taps.
pub const FILTER_TAPS: usize = 8;

/// One tap: a sample times a signed coefficient, shifted right by 6.
pub open spec fn tap(sample: int, coefficient: u8) -> int {
    (sample * signed_byte(coefficient)) / 64
}

/// The sum of the first `n` taps, oldest sample first.
pub open spec fn tap_sum(history: Seq<i32>, coefficients: Seq<u8>, n: nat) -> int
    decreases n,
{
    if n == 0 {
        0
    } else {
        tap_sum(history, coefficients, (n - 1) as nat) + tap(
            history[n - 1] as int,
            coefficients[n - 1],
        )
    }
}

/// The filter's output: the first seven taps wrapped to 16 bits, plus the
/// newest tap, saturated to 16 bits.
pub open spec fn fir_output(history: Seq<i32>, coefficients: Seq<u8>) -> int {
    clamp16_spec(
        wrap16_spec(tap_sum(history, coefficients, 7)) + tap(history[7] as int, coefficients[7]),
    )
}

pub struct Filter {
    /// Coefficient bytes as the registers hold them.
    pub coefficients: Vec<u8>,
    /// The last eight inputs, oldest first.
    pub history: Vec<i32>,
}

impl Filter {
    pub open spec fn wf(&self) -> bool {
        &&& self.coefficients@.len() == FILTER_TAPS
        &&& self.history@.len() == FILTER_TAPS
        &&& forall|i: int| 0 <= i < 8 ==> #[trigger] in_i16(self.history@[i] as int)
    }

    pub fn new() -> (r: Filter)
        ensures
            r.wf(),
            r.coefficients@ == seq![0u8; 8],
            r.history@ == seq![0i32; 8],
    {
        let r = Filter { coefficients: vec![0u8; 8], history: vec![0i32; 8] };
        assert(r.coefficients@ =~= seq![0u8; 8]);
        assert(r.history@ =~= seq![0i32; 8]);
        r
    }

    /// Sets one coefficient byte.
    pub fn set_coefficient(&mut self, index: usize, value: u8)
        requires
            old(self).wf(),
            index < FILTER_TAPS,
        ensures
            final(self).wf(),
            final(self).coefficients@ == old(self).coefficients@.update(index as int, value),
            final(self).history == old(self).history,
    {
        self.coefficients.set(index, value);
    }

    /// Takes one input sample and returns the filtered output.
    pub fn next(&mut self, input: i32) -> (r: i32)
        requires
            old(self).wf(),
            in_i16(input as int),
        ensures
            final(self).wf(),
            final(self).coefficients@ == old(self).coefficients@,
            final(self).history@ == old(self).history@.drop_first().push(input),
            r == fir_output(final(self).history@, final(self).coefficients@),
            in_i16(r as int),
    {
        let ghost before = self.history@;
        self.history.remove(0);
        self.history.push(input);
        assert(self.history@ =~= before.drop_first().push(input));
        let mut sum: i64 = 0;
        let mut i: usize = 0;
        while i < 7
            invariant
                0 <= i <= 7,
                self.wf(),
                sum == tap_sum(self.history@, self.coefficients@, i as nat),
                -65536 * i <= sum <= 65536 * i,
            decreases 7 - i,
        {
            let t = self.tap_at(i);
            sum = sum + t;
            i = i + 1;
        }
        let head = wrap16(sum);
        let last = self.tap_at(7);
        clamp16(head as i64 + last)
    }

    fn tap_at(&self, i: usize) -> (r: i64)
        requires
            self.wf(),
            i < 8,
        ensures
            r == tap(self.history@[i as int] as int, self.coefficients@[i as int]),
            -65536 <= r <= 65536,
    {
        let c = self.coefficients[i];
        let v: i64 = if c < 128 { c as i64 } else { c as i64 - 256 };
        let s: i64 = self.history[i] as i64;
        assert(in_i16(self.history@[i as int] as int));
        assert(-4194304 <= s * v <= 4194304) by (nonlinear_arith)
            requires -32768 <= s <= 32767, -128 <= v <= 127;
        proof {
            lemma_div_bounds(s * v, -4194304, 4194304, 64);
        }
        floor_div(s * v, 64)
    }
}

} // verus!
