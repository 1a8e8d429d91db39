//! The decoding side of pitch estimation: a source's whole waveform, following
//! its loop once, for an estimator to analyse; and the fallback period used
//! when the estimator finds no pitch.

use vstd::prelude::*;
use crate::brr::{decode_block, header_ends, header_loops, lemma_decode_prefix_len, BrrBlockDecoder};
use crate::memory::Memory;
use crate::voice::{block_at, read_block};

verus! {

/// The most samples decoded for one source: ten seconds at 32 kHz.
pub const MAX_DECODE_SAMPLES: usize = 320000;

/// Decoding steps enough for any source to finish.
pub const MAX_DECODE_BLOCKS: usize = 20001;

/// Where the decoding of a source stands: the samples so far, the next block's
/// address, the two previous samples, how many times it looped, the blocks
/// before the first loop and in the first loop, and whether it is finished.
pub type ChainState = (Seq<i32>, int, int, int, int, int, int, bool);

/// One block of decoding. A block that ends the sample sends decoding to the
/// loop address while the sample loops and fewer than the most samples are
/// decoded; otherwise decoding finishes there. Decoding also finishes at the
/// most samples.
pub open spec fn chain_step(mem: Memory, loop_address: int, st: ChainState) -> ChainState {
    let (samples, address, p1, p2, loops, start_blocks, loop_blocks, done) = st;
    if done {
        st
    } else {
        let block = block_at(mem, address);
        let dec = decode_block(block, p1, p2);
        let all = samples + dec;
        let sb = start_blocks + if loops == 0 { 1int } else { 0 };
        let lb = loop_blocks + if loops == 1 { 1int } else { 0 };
        let q1 = dec[15] as int;
        let q2 = dec[14] as int;
        if header_ends(block[0]) {
            if header_loops(block[0]) && all.len() < MAX_DECODE_SAMPLES {
                (all, loop_address, q1, q2, loops + 1, sb, lb, false)
            } else {
                (all, address, q1, q2, loops, sb, lb, true)
            }
        } else if all.len() >= MAX_DECODE_SAMPLES {
            (all, address, q1, q2, loops, sb, lb, true)
        } else {
            (all, (address + 9) % 0x10000, q1, q2, loops, sb, lb, false)
        }
    }
}

/// The decoding state after `n` steps from a source's start.
pub open spec fn chain(mem: Memory, start: int, loop_address: int, n: nat) -> ChainState
    decreases n,
{
    if n == 0 {
        (Seq::empty(), start, 0, 0, 0, 0, 0, false)
    } else {
        chain_step(mem, loop_address, chain(mem, start, loop_address, (n - 1) as nat))
    }
}

/// A source's decoded waveform and its block counts.
pub struct SourceWaveform {
    pub samples: Vec<i32>,
    pub start_block_count: u32,
    pub loop_block_count: u32,
}

/// A looping end block sends decoding to the loop address, unfinished, while
/// fewer than the most samples are decoded.
pub proof fn lemma_loop_resumes(mem: Memory, start: int, loop_address: int, n: nat)
    requires
        !chain(mem, start, loop_address, n).7,
        ({
            let st = chain(mem, start, loop_address, n);
            let block = block_at(mem, st.1);
            &&& header_ends(block[0])
            &&& header_loops(block[0])
            &&& st.0.len() + 16 < MAX_DECODE_SAMPLES
        }),
    ensures
        chain(mem, start, loop_address, n + 1).1 == loop_address,
        !chain(mem, start, loop_address, n + 1).7,
        chain(mem, start, loop_address, n + 1).4 == chain(mem, start, loop_address, n).4 + 1,
{
    let st = chain(mem, start, loop_address, n);
    lemma_decode_prefix_len(block_at(mem, st.1), st.2, st.3, 16);
}

proof fn lemma_chain_stable(mem: Memory, start: int, loop_address: int, n: nat, m: nat)
    requires
        n <= m,
        chain(mem, start, loop_address, n).7,
    ensures
        chain(mem, start, loop_address, m) == chain(mem, start, loop_address, n),
    decreases m - n,
{
    if m > n {
        lemma_chain_stable(mem, start, loop_address, n, (m - 1) as nat);
    }
}

/// Decodes a source from its start address until its end, following its loop
/// once (and further, up to the most samples, while the loop has not come round).
#[verifier::rlimit(50)]
pub fn decode_source(mem: &Memory, start: u32, loop_address: u32) -> (r: SourceWaveform)
    requires
        mem.wf(),
        start < 0x10000,
        loop_address < 0x10000,
    ensures
        ({
            let st = chain(*mem, start as int, loop_address as int, MAX_DECODE_BLOCKS as nat);
            &&& st.7
            &&& r.samples@ == st.0
            &&& r.start_block_count == st.5
            &&& r.loop_block_count == st.6
        }),
{
    let mut samples: Vec<i32> = Vec::new();
    let mut address: u32 = start;
    let mut decoder = BrrBlockDecoder::new();
    decoder.reset(0, 0);
    let mut loops: u32 = 0;
    let mut start_blocks: u32 = 0;
    let mut loop_blocks: u32 = 0;
    let mut done = false;
    let ghost mut k: nat = 0;
    while !done
        invariant
            mem.wf(),
            decoder.wf(),
            address < 0x10000,
            loop_address < 0x10000,
            samples@.len() == 16 * k,
            !done ==> samples@.len() < MAX_DECODE_SAMPLES,
            k <= 20000,
            loops <= k && start_blocks <= k && loop_blocks <= k,
            chain(*mem, start as int, loop_address as int, k) == (
                samples@,
                address as int,
                decoder.last_sample as int,
                decoder.last_last_sample as int,
                loops as int,
                start_blocks as int,
                loop_blocks as int,
                done,
            ),
        decreases MAX_DECODE_SAMPLES - samples@.len() + if done { 0int } else { 1 },
    {
        let block = read_block(mem, address);
        let ghost before = samples@;
        let ghost st = chain(*mem, start as int, loop_address as int, k);
        let ghost p1 = decoder.last_sample as int;
        let ghost p2 = decoder.last_last_sample as int;
        decoder.read(&block);
        proof {
            lemma_decode_prefix_len(block@, p1, p2, 16);
        }
        let mut i: usize = 0;
        while i < 16
            invariant
                decoder.wf(),
                decoder.samples@ == decode_block(block@, p1, p2),
                decoder.last_sample == decoder.samples@[15],
                decoder.last_last_sample == decoder.samples@[14],
                i <= 16,
                decoder.sample_index == i,
                samples@ == before + decoder.samples@.subrange(0, i as int),
                before.len() < MAX_DECODE_SAMPLES,
            decreases 16 - i,
        {
            let s = decoder.read_next_sample();
            samples.push(s);
            i = i + 1;
            assert(samples@ =~= before + decoder.samples@.subrange(0, i as int));
        }
        assert(decoder.samples@.subrange(0, 16) =~= decoder.samples@);
        if loops == 0 {
            start_blocks = start_blocks + 1;
        }
        if loops == 1 {
            loop_blocks = loop_blocks + 1;
        }
        let ends = block[0] % 2 == 1;
        let loops_back = (block[0] / 2) % 2 == 1;
        if ends {
            if loops_back && samples.len() < MAX_DECODE_SAMPLES {
                address = loop_address;
                loops = loops + 1;
            } else {
                done = true;
            }
        } else if samples.len() >= MAX_DECODE_SAMPLES {
            done = true;
        } else {
            address = (address + 9) % 0x10000;
        }
        proof {
            let dec = decode_block(block@, p1, p2);
            assert(samples@ == before + dec);
            assert(ends == header_ends(block@[0]));
            assert(loops_back == header_loops(block@[0]));
            assert(decoder.last_sample == dec[15] && decoder.last_last_sample == dec[14]);
            assert(chain(*mem, start as int, loop_address as int, k + 1) == chain_step(*mem, loop_address as int, st));
            k = k + 1;
        }
    }
    proof {
        lemma_chain_stable(*mem, start as int, loop_address as int, k, MAX_DECODE_BLOCKS as nat);
    }
    SourceWaveform { samples, start_block_count: start_blocks, loop_block_count: loop_blocks }
}

/// The fallback period: the loop's block count, or the whole sample's when it
/// has no loop, at least one, halved until it is at most 16.
pub open spec fn fallback_period_spec(start_blocks: int, loop_blocks: int) -> int {
    let p = if loop_blocks == 0 { start_blocks } else { loop_blocks };
    halve_to_16(if p < 1 { 1 } else { p })
}

pub open spec fn halve_to_16(p: int) -> int
    decreases p,
{
    if p > 16 { halve_to_16(p / 2) } else { p }
}

/// The period, in blocks, assumed for a source when no pitch was detected.
pub fn fallback_period_blocks(start_block_count: u32, loop_block_count: u32) -> (r: u32)
    ensures
        r == fallback_period_spec(start_block_count as int, loop_block_count as int),
        1 <= r <= 16,
{
    let mut period = if loop_block_count == 0 { start_block_count } else { loop_block_count };
    if period < 1 {
        period = 1;
    }
    while period > 16
        invariant
            period >= 1,
            halve_to_16(period as int) == fallback_period_spec(
                start_block_count as int,
                loop_block_count as int,
            ),
        decreases period,
    {
        period = period / 2;
    }
    period
}

} // verus!
