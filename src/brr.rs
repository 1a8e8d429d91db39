//! Decoding of BRR blocks: nine bytes that expand to sixteen 16-bit samples.

use vstd::prelude::*;
use crate::helpers::{lemma_div_bounds, clamp16, clamp16_spec, floor_div, in_i16, wrap16, wrap16_spec};

verus! {

/// The bytes of one compressed block: a header and eight bytes of nibbles.
pub const BRR_BLOCK_LEN: usize = 9;

/// The number of samples one block expands to.
pub const BRR_BLOCK_SAMPLES: usize = 16;

/// The shift amount held in the high nibble of a block header.
pub open spec fn header_shift(header: u8) -> int {
    header as int / 16
}

/// The predictor selected by bits 2 and 3 of a block header.
pub open spec fn header_filter(header: u8) -> int {
    (header as int / 4) % 4
}

/// Bit 1 of a block header: the sample goes on at its loop point after this block.
pub open spec fn header_loops(header: u8) -> bool {
    (header as int / 2) % 2 == 1
}

/// Bit 0 of a block header: this is the sample's last block.
pub open spec fn header_ends(header: u8) -> bool {
    header as int % 2 == 1
}

/// The `i`-th delta code of a block (high nibble first), as a signed 4-bit number.
pub open spec fn block_nibble(block: Seq<u8>, i: int) -> int {
    let b = block[1 + i / 2] as int;
    let n = if i % 2 == 0 { b / 16 } else { b % 16 };
    if n >= 8 { n - 16 } else { n }
}

/// A delta code scaled by the block's shift; shifts above 12 give 0 or -2048.
pub open spec fn scaled_nibble(n: int, shift: int) -> int {
    if shift <= 12 {
        (n * vstd::arithmetic::power2::pow2(shift as nat)) / 2
    } else if n < 0 {
        -2048
    } else {
        0
    }
}

/// The prediction that a filter adds to a scaled delta, from the two previous samples.
pub open spec fn prediction(filter: int, p1: int, older: int) -> int {
    let p2 = older / 2;
    if filter == 0 {
        0
    } else if filter == 1 {
        p1 / 2 + (-p1) / 32
    } else if filter == 2 {
        p1 - p2 + p2 / 16 + (p1 * -3) / 64
    } else {
        p1 - p2 + (p1 * -13) / 128 + (p2 * 3) / 16
    }
}

/// One decoded sample: the predicted value, saturated to 16 bits, doubled and wrapped.
pub open spec fn brr_sample(header: u8, n: int, p1: int, p2: int) -> int {
    let s = scaled_nibble(n, header_shift(header)) + prediction(header_filter(header), p1, p2);
    wrap16_spec(clamp16_spec(s) * 2)
}

/// The first `n` samples that a block decodes to, after the samples `p2` and then `p1`.
pub open spec fn decode_prefix(block: Seq<u8>, p1: int, p2: int, n: nat) -> Seq<i32>
    decreases n,
{
    if n == 0 {
        Seq::empty()
    } else {
        let prev = decode_prefix(block, p1, p2, (n - 1) as nat);
        let a = if n >= 2 { prev[n - 2] as int } else { p1 };
        let b = if n >= 3 { prev[n - 3] as int } else if n == 2 { p1 } else { p2 };
        prev.push(brr_sample(block[0], block_nibble(block, n - 1), a, b) as i32)
    }
}

/// The sixteen samples of a block.
pub open spec fn decode_block(block: Seq<u8>, p1: int, p2: int) -> Seq<i32> {
    decode_prefix(block, p1, p2, 16)
}

pub proof fn lemma_decode_prefix_len(block: Seq<u8>, p1: int, p2: int, n: nat)
    ensures
        decode_prefix(block, p1, p2, n).len() == n,
    decreases n,
{
    if n > 0 {
        lemma_decode_prefix_len(block, p1, p2, (n - 1) as nat);
    }
}

/// Decoder state for one block: its samples, how many were handed out, and the
/// two most recent decoded samples that predict the next block.
pub struct BrrBlockDecoder {
    pub is_end: bool,
    pub is_looping: bool,
    pub samples: Vec<i32>,
    pub sample_index: usize,
    pub last_sample: i32,
    pub last_last_sample: i32,
}

/// `2^shift`, for the shifts a block header can hold.
fn shift_factor(shift: u8) -> (r: i64)
    requires
        shift <= 12,
    ensures
        r == vstd::arithmetic::power2::pow2(shift as nat),
        1 <= r <= 4096,
{
    let mut r: i64 = 1;
    let mut i: u8 = 0;
    proof {
        vstd::arithmetic::power2::lemma2_to64();
    }
    while i < shift
        invariant
            i <= shift <= 12,
            r == vstd::arithmetic::power2::pow2(i as nat),
            1 <= r <= vstd::arithmetic::power2::pow2(12),
        decreases shift - i,
    {
        proof {
            vstd::arithmetic::power2::lemma_pow2_unfold((i + 1) as nat);
            if i + 1 < 12 {
                vstd::arithmetic::power2::lemma_pow2_strictly_increases((i + 1) as nat, 12);
            }
            vstd::arithmetic::power2::lemma2_to64();
        }
        r = r * 2;
        i = i + 1;
    }
    proof {
        vstd::arithmetic::power2::lemma2_to64();
    }
    r
}

/// One sample of a block, from its header, its delta code and the two previous samples.
fn decode_sample(header: u8, n: i64, factor: i64, a: i32, b: i32) -> (r: i32)
    requires
        -8 <= n <= 7,
        header_shift(header) <= 12 ==> factor == vstd::arithmetic::power2::pow2(header_shift(header) as nat),
        header_shift(header) <= 12 ==> 1 <= factor <= 4096,
        in_i16(a as int),
        in_i16(b as int),
    ensures
        r == brr_sample(header, n as int, a as int, b as int),
        in_i16(r as int),
{
    let shift = header / 16;
    let filter = (header / 4) % 4;
    let scaled: i64 = if shift <= 12 {
        assert(-8 * 4096 <= n * factor <= 7 * 4096) by (nonlinear_arith)
            requires -8 <= n <= 7, 1 <= factor <= 4096;
        floor_div(n * factor, 2)
    } else if n < 0 {
        -2048
    } else {
        0
    };
    let q1: i64 = a as i64;
    let q2: i64 = floor_div(b as i64, 2);
    let pred: i64 = if filter == 0 {
        0
    } else if filter == 1 {
        floor_div(q1, 2) + floor_div(-q1, 32)
    } else if filter == 2 {
        q1 - q2 + floor_div(q2, 16) + floor_div(q1 * -3, 64)
    } else {
        q1 - q2 + floor_div(q1 * -13, 128) + floor_div(q2 * 3, 16)
    };
    proof {
        let ni = n as int;
        if shift <= 12 {
            lemma_div_bounds(ni * factor, -32768, 28672, 2);
        }
        assert(-0x40000 <= pred <= 0x40000) by {
            lemma_div_bounds(q1 as int, -32768, 32767, 2);
            lemma_div_bounds(b as int, -32768, 32767, 2);
            lemma_div_bounds(-q1, -32767, 32768, 32);
            lemma_div_bounds(q2 as int, -16384, 16383, 16);
            lemma_div_bounds(q1 * -3, -98301, 98304, 64);
            lemma_div_bounds(q1 * -13, -425971, 425984, 128);
            lemma_div_bounds(q2 * 3, -49152, 49149, 16);
        }
    }
    let s = clamp16(scaled + pred);
    wrap16(s as i64 * 2)
}

impl BrrBlockDecoder {
    pub open spec fn wf(&self) -> bool {
        &&& self.samples@.len() == BRR_BLOCK_SAMPLES
        &&& self.sample_index <= BRR_BLOCK_SAMPLES
        &&& in_i16(self.last_sample as int)
        &&& in_i16(self.last_last_sample as int)
        &&& forall|i: int| 0 <= i < 16 ==> #[trigger] in_i16(self.samples@[i] as int)
    }

    /// The block's samples not yet handed out.
    pub open spec fn remaining(&self) -> Seq<i32> {
        self.samples@.subrange(self.sample_index as int, 16)
    }

    pub fn new() -> (r: BrrBlockDecoder)
        ensures
            r.wf(),
            r.is_finished_spec(),
            r.last_sample == 0,
            r.last_last_sample == 0,
            !r.is_end,
            !r.is_looping,
    {
        BrrBlockDecoder {
            is_end: false,
            is_looping: false,
            samples: vec![0i32; 16],
            sample_index: 16,
            last_sample: 0,
            last_last_sample: 0,
        }
    }

    /// Clears the decode state; the two samples seed the predictor.
    pub fn reset(&mut self, last_sample: i16, last_last_sample: i16)
        requires
            old(self).wf(),
        ensures
            final(self).wf(),
            final(self).is_finished_spec(),
            final(self).last_sample == last_sample as i32,
            final(self).last_last_sample == last_last_sample as i32,
            !final(self).is_end,
            !final(self).is_looping,
    {
        self.last_sample = last_sample as i32;
        self.last_last_sample = last_last_sample as i32;
        self.sample_index = 16;
        self.is_end = false;
        self.is_looping = false;
    }

    pub open spec fn is_finished_spec(&self) -> bool {
        self.sample_index >= 16
    }

    /// Whether all samples of the current block were handed out.
    pub fn is_finished(&self) -> (r: bool)
        ensures
            r == self.is_finished_spec(),
    {
        self.sample_index >= 16
    }

    /// Decodes one block, replacing the current one.
    pub fn read(&mut self, block: &[u8])
        requires
            old(self).wf(),
            block@.len() == BRR_BLOCK_LEN,
        ensures
            final(self).wf(),
            final(self).samples@ == decode_block(
                block@,
                old(self).last_sample as int,
                old(self).last_last_sample as int,
            ),
            final(self).sample_index == 0,
            final(self).last_sample == final(self).samples@[15],
            final(self).last_last_sample == final(self).samples@[14],
            final(self).is_end == header_ends(block@[0]),
            final(self).is_looping == header_loops(block@[0]),
    {
        let header = block[0];
        let shift = header / 16;
        let factor: i64 = if shift <= 12 { shift_factor(shift) } else { 0 };
        let ghost p1 = self.last_sample as int;
        let ghost p2 = self.last_last_sample as int;
        let mut out: Vec<i32> = Vec::new();
        let mut a: i32 = self.last_sample;
        let mut b: i32 = self.last_last_sample;
        let mut i: usize = 0;
        while i < 16
            invariant
                0 <= i <= 16,
                block@.len() == 9,
                header == block@[0],
                shift as int == header_shift(header),
                shift <= 12 ==> factor == vstd::arithmetic::power2::pow2(shift as nat),
                shift <= 12 ==> 1 <= factor <= 4096,
                out@ == decode_prefix(block@, p1, p2, i as nat),
                out@.len() == i,
                in_i16(a as int),
                in_i16(b as int),
                forall|j: int| 0 <= j < i ==> #[trigger] in_i16(out@[j] as int),
                i >= 1 ==> a == out@[i - 1],
                i >= 2 ==> b == out@[i - 2],
                i == 0 ==> a == p1 && b == p2,
                i == 1 ==> b == p1,
            decreases 16 - i,
        {
            let byte = block[1 + i / 2];
            let raw: i64 = if i % 2 == 0 { (byte / 16) as i64 } else { (byte % 16) as i64 };
            let n: i64 = if raw >= 8 { raw - 16 } else { raw };
            let sample = decode_sample(header, n, factor, a, b);
            proof {
                assert(n as int == block_nibble(block@, i as int));
                lemma_decode_prefix_len(block@, p1, p2, i as nat);
            }
            out.push(sample);
            b = a;
            a = sample;
            i = i + 1;
            proof {
                lemma_decode_prefix_len(block@, p1, p2, i as nat);
            }
        }
        self.samples = out;
        self.sample_index = 0;
        self.last_sample = a;
        self.last_last_sample = b;
        self.is_end = header % 2 == 1;
        self.is_looping = (header / 2) % 2 == 1;
    }

    /// Hands out the next sample of the current block.
    pub fn read_next_sample(&mut self) -> (r: i32)
        requires
            old(self).wf(),
            !old(self).is_finished_spec(),
        ensures
            final(self).wf(),
            r == old(self).samples@[old(self).sample_index as int],
            in_i16(r as int),
            final(self).sample_index == old(self).sample_index + 1,
            final(self).samples == old(self).samples,
            final(self).last_sample == old(self).last_sample,
            final(self).last_last_sample == old(self).last_last_sample,
            final(self).is_end == old(self).is_end,
            final(self).is_looping == old(self).is_looping,
    {
        let r = self.samples[self.sample_index];
        self.sample_index = self.sample_index + 1;
        r
    }
}

} // verus!
