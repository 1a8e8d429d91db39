//! The S-DSP: eight voices, the echo unit with its tone filters, the noise
//! generator and the register map, synthesizing one stereo sample per
//! 64-cycle tick.

use vstd::prelude::*;
use crate::brr::decode_block;
use crate::envelope::EnvelopeMode;
use crate::filter::{fir_output, Filter};
use crate::helpers::{
    clamp16, clamp16_spec, clear_low_bit, even_floor, floor_div, in_i16, lemma_div_bounds, mix,
    mix_step, multiply_volume, scale_volume, signed_byte, wrap16, wrap16_spec, wrap17,
    wrap17_spec,
};
use crate::memory::Memory;
use crate::ring_buffer::{RingBuffer, BUFFER_LEN};
use crate::timing::{counter_fires, fires, COUNTER_RANGE};
use crate::voice::{block_at, rendered, voice_written, ResamplingMode, Voice, VoiceOutput};

verus! {

pub const NUM_VOICES: usize = 8;

/// The CPU cycles one tick of the chip takes.
pub const CYCLES_PER_TICK: i32 = 64;

/// The seed of the noise generator.
pub const NOISE_SEED: i32 = 0x4000;

/// The bytes of echo buffer each unit of the echo delay register adds.
pub const ECHO_BLOCK: i32 = 0x800;

/// The voice mask registers that hold one flag of each voice.
pub const PMON: u8 = 0;
pub const NON: u8 = 1;
pub const EON: u8 = 2;
pub const ENDX: u8 = 3;

pub struct Dsp {
    pub voices: Vec<Voice>,
    pub left_filter: Filter,
    pub right_filter: Filter,
    pub output_buffer: RingBuffer,
    pub vol_left: u8,
    pub vol_right: u8,
    pub echo_vol_left: u8,
    pub echo_vol_right: u8,
    /// The FLG register as written: noise clock in bits 0-4, echo writes off in bit 5.
    pub flg: u8,
    pub echo_feedback: u8,
    pub source_dir: u8,
    pub echo_start_address: u16,
    pub echo_delay: u8,
    pub kon_cache: u8,
    pub koff_cache: u8,
    pub counter: i32,
    pub cycles_since_last_flush: i32,
    pub noise: i32,
    pub echo_pos: i32,
    pub echo_length: i32,
    pub resampling_mode: ResamplingMode,
    /// Ticks rendered so far, wrapping.
    pub ticks: u64,
}

/// Bit `i` of a byte.
pub open spec fn bit(v: u8, i: u8) -> bool {
    (v >> i) & 1u8 == 1u8
}

/// The noise clock: bits 0 to 4 of FLG.
pub open spec fn noise_clock_of(flg: u8) -> u8 {
    flg % 32
}

/// Echo writes are on while bit 5 of FLG is clear.
pub open spec fn echo_writes_on(flg: u8) -> bool {
    (flg / 32) % 2 == 0
}

/// One step of the 15-bit noise shift register: shift right, feeding bit 0
/// xor bit 1 in at bit 14.
pub open spec fn lfsr_step(noise: int) -> int {
    noise / 2 + if (noise % 2) != ((noise / 2) % 2) { 0x4000int } else { 0 }
}

/// The noise word after one tick at a counter value.
pub open spec fn noise_tick(noise: int, counter: int, rate: u8) -> int {
    if counter_fires(counter, rate) { lfsr_step(noise) } else { noise }
}

/// The noise word after `n` ticks from a counter value.
pub open spec fn noise_run(noise: int, counter: int, rate: u8, n: nat) -> int
    decreases n,
{
    if n == 0 {
        noise
    } else {
        noise_tick(noise_run(noise, counter, rate, (n - 1) as nat), (counter + n - 1) % 30720, rate)
    }
}

/// The echo buffer's length for a delay register value, in bytes.
pub open spec fn echo_length_of(delay: u8) -> int {
    delay * 0x800
}

/// Echo write position and latched length after one tick: the length is taken
/// from the delay register only when the position is at 0.
pub open spec fn echo_advance(pos: int, length: int, delay: u8) -> (int, int) {
    let len = if pos == 0 { echo_length_of(delay) } else { length };
    (if pos + 4 >= len { 0 } else { pos + 4 }, len)
}

/// Echo write position and latched length after `n` ticks.
pub open spec fn echo_run(pos: int, length: int, delay: u8, n: nat) -> (int, int)
    decreases n,
{
    if n == 0 {
        (pos, length)
    } else {
        let (p, l) = echo_run(pos, length, delay, (n - 1) as nat);
        echo_advance(p, l, delay)
    }
}

/// The echo length is latched: away from position 0, the delay register does
/// not change it, whatever it holds.
pub proof fn lemma_echo_length_latched(pos: int, length: int, delay1: u8, delay2: u8)
    requires
        pos != 0,
    ensures
        echo_advance(pos, length, delay1).1 == length,
        echo_advance(pos, length, delay2).1 == length,
        echo_advance(pos, length, delay1) == echo_advance(pos, length, delay2),
{
}

/// At position 0 the length is taken from the delay register.
pub proof fn lemma_echo_length_reloads(length: int, delay: u8)
    ensures
        echo_advance(0, length, delay).1 == echo_length_of(delay),
{
}

/// One tick of the chip, from `b` with memory `m0` to `a` with memory `m1`:
/// the noise, echo and rate counters step; each voice is rendered in order,
/// modulated by the one before; the pushed pair is the saturating mix at
/// master volume plus the filtered echo; the echo words are written back when
/// echo writes are on, and no other byte of memory changes.
pub open spec fn tick_effect(b: Dsp, m0: Memory, a: Dsp, m1: Memory) -> bool {
    &&& a.wf()
    &&& m1.wf()
    &&& same_registers(a, b)
    &&& a.counter == (b.counter + 1) % (COUNTER_RANGE as int)
    &&& a.noise == noise_tick(b.noise as int, b.counter as int, noise_clock_of(b.flg))
    &&& (a.echo_pos as int, a.echo_length as int) == echo_advance(
        b.echo_pos as int,
        b.echo_length as int,
        b.echo_delay,
    )
    &&& a.left_filter.history@ == b.left_filter.history@.drop_first().push(
        even_floor(word_at(m0, b.echo_address())) as i32,
    )
    &&& a.right_filter.history@ == b.right_filter.history@.drop_first().push(
        even_floor(word_at(m0, b.echo_address() + 2)) as i32,
    )
    &&& a.output_buffer@ == b.output_buffer@.push(
        (
            final_output(
                mix_prefix(a.voices@, 8, false, false),
                b.vol_left,
                filtered_echo(a.left_filter),
                b.echo_vol_left,
            ) as i16,
            final_output(
                mix_prefix(a.voices@, 8, true, false),
                b.vol_right,
                filtered_echo(a.right_filter),
                b.echo_vol_right,
            ) as i16,
        ),
    )
    &&& echo_writes_on(b.flg) ==> word_at(m1, b.echo_address()) == echo_write_value(
        mix_prefix(a.voices@, 8, false, true),
        filtered_echo(a.left_filter),
        b.echo_feedback,
    ) && word_at(m1, b.echo_address() + 2) == echo_write_value(
        mix_prefix(a.voices@, 8, true, true),
        filtered_echo(a.right_filter),
        b.echo_feedback,
    )
    &&& !echo_writes_on(b.flg) ==> m1 == m0
    &&& a.voices@.len() == 8
    &&& forall|i: int|
        0 <= i < 8 ==> rendered(
            b.voices@[i],
            #[trigger] a.voices@[i],
            b.counter as int,
            prev_out(a.voices@, i),
            a.noise as int,
            any_solo(b.voices@),
        )
    &&& echo_writes_on(b.flg) ==> bytes_kept_but_echo(m0, m1, b.echo_address())
}

/// A run of `n` ticks: consecutive states and memories, each tick taking
/// 64 pending cycles.
pub open spec fn tick_chain(states: Seq<Dsp>, mems: Seq<Memory>, n: nat) -> bool {
    &&& states.len() == n + 1
    &&& mems.len() == n + 1
    &&& forall|k: int|
        0 <= k < n ==> #[trigger] tick_effect(states[k], mems[k], states[k + 1], mems[k + 1])
            && states[k + 1].cycles_since_last_flush == states[k].cycles_since_last_flush - 64
}

/// The run of ticks from `b` to `a`.
pub open spec fn tick_path(
    b: Dsp,
    m0: Memory,
    a: Dsp,
    m1: Memory,
    states: Seq<Dsp>,
    mems: Seq<Memory>,
) -> bool {
    let n = pending_ticks(b.cycles_since_last_flush as int);
    &&& n >= 0
    &&& tick_chain(states, mems, n as nat)
    &&& states[0] == b
    &&& mems[0] == m0
    &&& states[n] == a
    &&& mems[n] == m1
}

/// A flush: every pending tick rendered in turn, each as `tick_effect` says,
/// so each pair it appends is the output of its tick.
pub open spec fn flushed(b: Dsp, m0: Memory, a: Dsp, m1: Memory) -> bool {
    exists|states: Seq<Dsp>, mems: Seq<Memory>| #[trigger] tick_path(b, m0, a, m1, states, mems)
}

/// A tick's effect does not depend on the pending cycle count afterwards.
proof fn lemma_tick_effect_any_cycles(b: Dsp, m0: Memory, a: Dsp, m1: Memory, c: i32)
    requires
        tick_effect(b, m0, a, m1),
        0 <= c,
    ensures
        tick_effect(b, m0, Dsp { cycles_since_last_flush: c, ..a }, m1),
{
    let a2 = Dsp { cycles_since_last_flush: c, ..a };
    assert(a2.voices@ == a.voices@);
    assert(a2.wf());
}

/// Every byte of memory but the four of the echo words at `address` is kept.
pub open spec fn bytes_kept_but_echo(m0: Memory, m1: Memory, address: int) -> bool {
    &&& m1.bytes@.len() == m0.bytes@.len()
    &&& forall|x: int|
        0 <= x < 0x10000 && x != address % 0x10000 && x != (address + 1) % 0x10000 && x != (
        address + 2) % 0x10000 && x != (address + 3) % 0x10000 ==> #[trigger] m1.bytes@[x]
            == m0.bytes@[x]
}

/// The output handed to voice `i` for pitch modulation: voice `i - 1`'s
/// enveloped sample, or 0 for the first voice.
pub open spec fn prev_out(vs: Seq<Voice>, i: int) -> int {
    if i == 0 { 0 } else { vs[i - 1].last_output.last_voice_out as int }
}

/// Whether any voice is soloed.
pub open spec fn any_solo(vs: Seq<Voice>) -> bool {
    exists|j: int| 0 <= j < 8 && #[trigger] vs[j].is_solod
}

/// A voice's left or right contribution.
pub open spec fn side(o: VoiceOutput, right: bool) -> int {
    if right { o.right_out as int } else { o.left_out as int }
}

/// The saturating mix of the first `n` voices' last outputs, over all voices or
/// only those that feed the echo.
pub open spec fn mix_prefix(vs: Seq<Voice>, n: nat, right: bool, echo_only: bool) -> int
    decreases n,
{
    if n == 0 {
        0
    } else {
        let acc = mix_prefix(vs, (n - 1) as nat, right, echo_only);
        let v = vs[n - 1];
        if echo_only && !v.echo_on {
            acc
        } else {
            mix_step(acc, side(v.last_output, right))
        }
    }
}

/// The signed 16-bit word stored little-endian at an address.
pub open spec fn word_at(mem: Memory, address: int) -> int {
    wrap16_spec(mem.byte(address + 1) * 256 + mem.byte(address))
}

/// The echo input of one channel: the filter's output with its low bit cleared.
pub open spec fn filtered_echo(f: Filter) -> int {
    even_floor(fir_output(f.history@, f.coefficients@))
}

/// One channel of the final output: the dry mix at master volume plus the
/// filtered echo at echo volume, through the 17-bit saturating adder.
pub open spec fn final_output(dry: int, volume: u8, echo_in: int, echo_volume: u8) -> int {
    clamp16_spec(wrap17_spec(scale_volume(dry, volume) + scale_volume(echo_in, echo_volume)))
}

/// What is written back into the echo buffer: the echo send plus the filtered
/// echo at feedback volume.
pub open spec fn echo_write_value(send: int, echo_in: int, feedback: u8) -> int {
    even_floor(
        clamp16_spec(
            wrap17_spec(send + wrap16_spec((echo_in * signed_byte(feedback)) / 128)),
        ),
    )
}

/// The number of ticks that a flush renders for a count of pending cycles.
pub open spec fn pending_ticks(cycles: int) -> int {
    if cycles > 64 { (cycles - 1) / 64 } else { 0 }
}

/// The address of a source directory entry's start (offset 0) or loop (offset 2) pointer.
pub open spec fn dir_entry(mem: Memory, dir: u8, source: u8, offset: int) -> int {
    let entry = dir * 0x100 + source * 4 + offset;
    mem.byte(entry) + mem.byte(entry + 1) * 256
}

/// The addresses whose reads give back what was last written.
pub open spec fn readable(address: u8) -> bool {
    let r = address % 16;
    &&& address < 128
    &&& (r < 8 || r == 15 || (r == 12 && address != 0x7c) || (r == 13 && address != 0x1d))
}

/// What a read returns after writing `value` to a readable address.
pub open spec fn readback(address: u8, value: u8) -> u8 {
    if address % 16 == 3 {
        value % 64
    } else if address == 0x7d {
        value % 16
    } else {
        value
    }
}

/// The bits `0..n` of a voice mask built from one flag of each voice.
pub open spec fn partial_mask(flags: Seq<bool>, n: nat) -> u8
    decreases n,
{
    if n == 0 {
        0
    } else {
        partial_mask(flags, (n - 1) as nat) | (if flags[n - 1] {
            (1u8 << ((n - 1) as u8))
        } else {
            0u8
        })
    }
}

/// Which per-voice flag a voice mask register holds.
pub open spec fn flag_of(v: Voice, kind: u8) -> bool {
    if kind == PMON {
        v.pitch_mod
    } else if kind == NON {
        v.noise_on
    } else if kind == EON {
        v.echo_on
    } else {
        v.endx
    }
}

/// One flag of each voice, voice 0 first.
pub open spec fn voice_flags(vs: Seq<Voice>, kind: u8) -> Seq<bool> {
    Seq::new(8, |i: int| flag_of(vs[i], kind))
}

/// The mask register made of one flag of each voice.
pub open spec fn voice_mask(vs: Seq<Voice>, kind: u8) -> u8 {
    partial_mask(voice_flags(vs, kind), 8)
}

/// A voice after setting one of its mask flags.
pub open spec fn with_flag(v: Voice, kind: u8, b: bool) -> Voice {
    if kind == PMON {
        Voice { pitch_mod: b, ..v }
    } else if kind == NON {
        Voice { noise_on: b, ..v }
    } else {
        Voice { echo_on: b, ..v }
    }
}

/// Reading back a mask built from the bits of a byte gives the byte.
pub proof fn lemma_mask_round_trip(v: u8)
    ensures
        partial_mask(Seq::new(8, |i: int| bit(v, i as u8)), 8) == v,
{
    let f = Seq::new(8, |i: int| bit(v, i as u8));
    reveal_with_fuel(partial_mask, 9);
    let b0 = if bit(v, 0) { 1u8 } else { 0u8 };
    let b1 = if bit(v, 1) { 2u8 } else { 0u8 };
    let b2 = if bit(v, 2) { 4u8 } else { 0u8 };
    let b3 = if bit(v, 3) { 8u8 } else { 0u8 };
    let b4 = if bit(v, 4) { 16u8 } else { 0u8 };
    let b5 = if bit(v, 5) { 32u8 } else { 0u8 };
    let b6 = if bit(v, 6) { 64u8 } else { 0u8 };
    let b7 = if bit(v, 7) { 128u8 } else { 0u8 };
    assert(1u8 << 0u8 == 1u8 && 1u8 << 1u8 == 2u8 && 1u8 << 2u8 == 4u8 && 1u8 << 3u8 == 8u8)
        by (bit_vector);
    assert(1u8 << 4u8 == 16u8 && 1u8 << 5u8 == 32u8 && 1u8 << 6u8 == 64u8 && 1u8 << 7u8
        == 128u8) by (bit_vector);
    assert(partial_mask(f, 8) == 0u8 | b0 | b1 | b2 | b3 | b4 | b5 | b6 | b7);
    assert(0u8 | b0 | b1 | b2 | b3 | b4 | b5 | b6 | b7 == v) by (bit_vector)
        requires
            b0 == (if (v >> 0u8) & 1u8 == 1u8 { 1u8 } else { 0u8 }),
            b1 == (if (v >> 1u8) & 1u8 == 1u8 { 2u8 } else { 0u8 }),
            b2 == (if (v >> 2u8) & 1u8 == 1u8 { 4u8 } else { 0u8 }),
            b3 == (if (v >> 3u8) & 1u8 == 1u8 { 8u8 } else { 0u8 }),
            b4 == (if (v >> 4u8) & 1u8 == 1u8 { 16u8 } else { 0u8 }),
            b5 == (if (v >> 5u8) & 1u8 == 1u8 { 32u8 } else { 0u8 }),
            b6 == (if (v >> 6u8) & 1u8 == 1u8 { 64u8 } else { 0u8 }),
            b7 == (if (v >> 7u8) & 1u8 == 1u8 { 128u8 } else { 0u8 }),
    ;
}

/// What a read of a voice's register `r` (below 10) returns.
pub open spec fn voice_register_read(v: Voice, r: u8) -> u8 {
    if r == 0 {
        v.vol_left
    } else if r == 1 {
        v.vol_right
    } else if r == 2 {
        v.pitch_low
    } else if r == 3 {
        v.pitch_high
    } else if r == 4 {
        v.source
    } else if r == 5 {
        v.envelope.adsr0
    } else if r == 6 {
        v.envelope.adsr1
    } else if r == 7 {
        v.envelope.gain
    } else if r == 8 {
        (v.envelope.level / 16) as u8
    } else {
        v.outx_value
    }
}

/// What a read of a global register returns.
pub open spec fn global_register_read(d: Dsp, a: u8) -> u8 {
    if a == 0x0c {
        d.vol_left
    } else if a == 0x1c {
        d.vol_right
    } else if a == 0x2c {
        d.echo_vol_left
    } else if a == 0x3c {
        d.echo_vol_right
    } else if a == 0x4c {
        d.kon_cache
    } else if a == 0x5c {
        d.koff_cache
    } else if a == 0x6c {
        d.flg
    } else if a == 0x7c {
        voice_mask(d.voices@, ENDX)
    } else if a == 0x0d {
        d.echo_feedback
    } else if a == 0x2d {
        voice_mask(d.voices@, PMON)
    } else if a == 0x3d {
        voice_mask(d.voices@, NON)
    } else if a == 0x4d {
        voice_mask(d.voices@, EON)
    } else if a == 0x5d {
        d.source_dir
    } else if a == 0x6d {
        (d.echo_start_address / 256) as u8
    } else if a == 0x7d {
        d.echo_delay
    } else {
        0
    }
}

/// What a read of a register returns; the high address bit is not decoded.
pub open spec fn register_read(d: Dsp, address: u8) -> u8 {
    let a = address % 128;
    let r = a % 16;
    if r < 10 {
        voice_register_read(d.voices@[(a / 16) as int], r)
    } else if r == 15 {
        d.left_filter.coefficients@[(a / 16) as int]
    } else {
        global_register_read(d, a)
    }
}

/// Two states hold the same register values, voice by voice.
pub open spec fn same_registers(d1: Dsp, d2: Dsp) -> bool {
    &&& d1.voices@.len() == d2.voices@.len()
    &&& forall|i: int|
        0 <= i < d1.voices@.len() ==> (#[trigger] d1.voices@[i]).same_registers(&d2.voices@[i])
    &&& d1.left_filter.coefficients@ == d2.left_filter.coefficients@
    &&& d1.right_filter.coefficients@ == d2.right_filter.coefficients@
    &&& d1.vol_left == d2.vol_left
    &&& d1.vol_right == d2.vol_right
    &&& d1.echo_vol_left == d2.echo_vol_left
    &&& d1.echo_vol_right == d2.echo_vol_right
    &&& d1.flg == d2.flg
    &&& d1.echo_feedback == d2.echo_feedback
    &&& d1.source_dir == d2.source_dir
    &&& d1.echo_start_address == d2.echo_start_address
    &&& d1.echo_delay == d2.echo_delay
    &&& d1.kon_cache == d2.kon_cache
    &&& d1.koff_cache == d2.koff_cache
    &&& d1.resampling_mode == d2.resampling_mode
}

/// A voice after a key-on: its sample restarts at the source directory's start
/// address for its source, with the first block decoded and the envelope in attack.
pub open spec fn keyed_on(before: Voice, after: Voice, mem: Memory, dir: u8) -> bool {
    let start = dir_entry(mem, dir, after.source, 0);
    &&& after.wf()
    &&& after.same_registers(&before)
    &&& after.sample_start_address == start
    &&& after.loop_start_address == dir_entry(mem, dir, after.source, 2)
    &&& after.brr_block_decoder.samples@ == decode_block(block_at(mem, start), 0, 0)
    &&& after.brr_block_decoder.sample_index == 0
    &&& after.sample_address == (start + 9) % 0x10000
    &&& after.sample_pos == 0
    &&& after.envelope.mode == EnvelopeMode::Attack
    &&& after.envelope.level == 0
    &&& !after.endx
}

/// A voice after a key-off: in release, with its decode state untouched.
pub open spec fn keyed_off(before: Voice, after: Voice) -> bool {
    &&& after.wf()
    &&& after.envelope.mode == EnvelopeMode::Release
    &&& after.same_but_envelope_mode(&before)
}

/// What a register write does: a readable register reads back the value, the
/// other readable registers and the synthesis state stay, key-on and key-off
/// restart or release the voices of their masks, and a write to the end
/// register clears every end flag.
pub open spec fn register_written(before: Dsp, after: Dsp, mem: Memory, address: u8, value: u8) -> bool {
    &&& after.wf()
    &&& readable(address) ==> register_read(after, address) == readback(address, value)
    &&& forall|b: u8|
        readable(b) && b != address ==> #[trigger] register_read(after, b) == register_read(before, b)
    &&& after.cycles_since_last_flush == before.cycles_since_last_flush
    &&& after.counter == before.counter
    &&& after.noise == before.noise
    &&& after.echo_pos == before.echo_pos
    &&& after.echo_length == before.echo_length
    &&& after.output_buffer == before.output_buffer
    &&& after.voices@.len() == 8
    &&& address == 0x4c ==> forall|i: int|
        0 <= i < 8 ==> if bit(value, i as u8) {
            keyed_on(before.voices@[i], #[trigger] after.voices@[i], mem, before.source_dir)
        } else {
            after.voices@[i] == before.voices@[i]
        }
    &&& address == 0x5c ==> forall|i: int|
        0 <= i < 8 ==> if bit(value, i as u8) {
            keyed_off(before.voices@[i], #[trigger] after.voices@[i])
        } else {
            after.voices@[i] == before.voices@[i]
        }
    &&& address == 0x7c ==> forall|i: int| 0 <= i < 8 ==> !(#[trigger] after.voices@[i]).endx
    &&& address == 0x7c ==> register_read(after, 0x7c) == 0
    &&& address == 0x6d ==> after.echo_start_address == value * 256
    &&& !mapped(address) ==> after == before
}

/// The addresses a write acts on.
pub open spec fn mapped(address: u8) -> bool {
    let r = address % 16;
    &&& address < 128
    &&& (r < 8 || r == 15 || r == 12 || (r == 13 && address != 0x1d))
}

/// With every end flag clear, the end register reads 0.
proof fn lemma_endx_clear(vs: Seq<Voice>)
    requires
        vs.len() == 8,
        forall|i: int| 0 <= i < 8 ==> !(#[trigger] vs[i]).endx,
    ensures
        voice_mask(vs, ENDX) == 0,
{
    let f = voice_flags(vs, ENDX);
    assert(!f[0] && !f[1] && !f[2] && !f[3] && !f[4] && !f[5] && !f[6] && !f[7]);
    reveal_with_fuel(partial_mask, 9);
    assert(0u8 | 0u8 == 0u8) by (bit_vector);
}

/// Reading a readable register right after a write gives back the value
/// written (the pitch's high byte keeps six bits, the echo delay four), and a
/// write leaves every other readable register as it was.
pub proof fn lemma_register_round_trip(before: Dsp, after: Dsp, mem: Memory, address: u8, value: u8)
    requires
        register_written(before, after, mem, address, value),
        readable(address),
    ensures
        register_read(after, address) == readback(address, value),
        forall|b: u8|
            readable(b) && b != address ==> #[trigger] register_read(after, b) == register_read(
                before,
                b,
            ),
{
}

/// States with the same registers read the same from every readable register.
pub proof fn lemma_same_registers_read(d1: Dsp, d2: Dsp)
    requires
        d1.wf(),
        d2.wf(),
        same_registers(d1, d2),
    ensures
        forall|b: u8| readable(b) ==> #[trigger] register_read(d1, b) == register_read(d2, b),
{
    assert(voice_flags(d2.voices@, PMON) =~= voice_flags(d1.voices@, PMON));
    assert(voice_flags(d2.voices@, NON) =~= voice_flags(d1.voices@, NON));
    assert(voice_flags(d2.voices@, EON) =~= voice_flags(d1.voices@, EON));
    assert forall|b: u8| readable(b) implies #[trigger] register_read(d1, b) == register_read(d2, b) by {
        let x = ((b % 128) / 16) as int;
        assert(d1.voices@[x].same_registers(&d2.voices@[x]));
    }
}

/// The state apart from the voices.
pub open spec fn same_but_voices(d1: Dsp, d2: Dsp) -> bool {
    d1 == (Dsp { voices: d1.voices, ..d2 })
}

impl Dsp {
    pub open spec fn wf(&self) -> bool {
        &&& self.voices@.len() == NUM_VOICES
        &&& forall|i: int| 0 <= i < 8 ==> (#[trigger] self.voices@[i]).wf()
        &&& self.left_filter.wf()
        &&& self.right_filter.wf()
        &&& self.left_filter.coefficients@ == self.right_filter.coefficients@
        &&& self.output_buffer.wf()
        &&& 0 <= self.counter < COUNTER_RANGE
        &&& 0 <= self.cycles_since_last_flush
        &&& 0 <= self.noise < 0x8000
        &&& 0 <= self.echo_pos < 0x7800
        &&& 0 <= self.echo_length <= 0x7800
        &&& self.echo_delay < 16
    }

    pub fn new() -> (r: Dsp)
        ensures
            r.wf(),
            r.noise == NOISE_SEED,
            r.counter == 0,
            r.echo_pos == 0,
            r.cycles_since_last_flush == 0,
            r.output_buffer@.len() == 0,
            r.resampling_mode == ResamplingMode::Gaussian,
            r.left_filter.coefficients@ == seq![0x80u8, 0xff, 0x9a, 0xff, 0x67, 0xff, 0x0f, 0xff],
            r.vol_left == 0x89 && r.vol_right == 0x9c,
            r.echo_vol_left == 0x9f && r.echo_vol_right == 0x9c,
            r.flg == 0x20 && r.echo_delay == 0x0e && r.echo_start_address == 0x6000,
            r.kon_cache == 0 && r.koff_cache == 0,
            r.echo_length == 0 && r.echo_feedback == 0 && r.source_dir == 0,
            forall|i: int|
                0 <= i < 8 ==> (#[trigger] r.voices@[i]).envelope.level == 0
                    && r.voices@[i].resampling_mode == ResamplingMode::Gaussian
                    && r.voices@[i].envelope.mode == EnvelopeMode::Release,
    {
        let mut voices: Vec<Voice> = Vec::new();
        let mut i: usize = 0;
        while i < NUM_VOICES
            invariant
                i <= NUM_VOICES,
                voices@.len() == i,
                forall|j: int| 0 <= j < i ==> (#[trigger] voices@[j]).wf()
                    && voices@[j].envelope.level == 0
                    && voices@[j].envelope.mode == EnvelopeMode::Release
                    && voices@[j].resampling_mode == ResamplingMode::Gaussian,
            decreases NUM_VOICES - i,
        {
            voices.push(Voice::new(ResamplingMode::Gaussian));
            i = i + 1;
        }
        let mut left_filter = Filter::new();
        let mut right_filter = Filter::new();
        let coefficients: [u8; 8] = [0x80, 0xff, 0x9a, 0xff, 0x67, 0xff, 0x0f, 0xff];
        let mut k: usize = 0;
        while k < 8
            invariant
                k <= 8,
                left_filter.wf(),
                right_filter.wf(),
                left_filter.coefficients@.len() == 8,
                forall|j: int| 0 <= j < k ==> left_filter.coefficients@[j] == coefficients@[j],
                left_filter.coefficients@ == right_filter.coefficients@,
            decreases 8 - k,
        {
            left_filter.set_coefficient(k, coefficients[k]);
            right_filter.set_coefficient(k, coefficients[k]);
            k = k + 1;
        }
        assert(left_filter.coefficients@ =~= seq![0x80u8, 0xff, 0x9a, 0xff, 0x67, 0xff, 0x0f, 0xff]);
        Dsp {
            voices,
            left_filter,
            right_filter,
            output_buffer: RingBuffer::new(),
            vol_left: 0x89,
            vol_right: 0x9c,
            echo_vol_left: 0x9f,
            echo_vol_right: 0x9c,
            flg: 0x20,
            echo_feedback: 0,
            source_dir: 0,
            echo_start_address: 0x6000,
            echo_delay: 0x0e,
            kon_cache: 0,
            koff_cache: 0,
            counter: 0,
            cycles_since_last_flush: 0,
            noise: NOISE_SEED,
            echo_pos: 0,
            echo_length: 0,
            resampling_mode: ResamplingMode::Gaussian,
            ticks: 0,
        }
    }
}

impl Dsp {
    /// Sets one coefficient of both tone filters.
    fn set_filter_coefficient(&mut self, index: usize, value: u8)
        requires
            old(self).wf(),
            index < 8,
        ensures
            final(self).wf(),
            final(self).left_filter.coefficients@ == old(self).left_filter.coefficients@.update(
                index as int,
                value,
            ),
            final(self).left_filter.history == old(self).left_filter.history,
            final(self).right_filter.history == old(self).right_filter.history,
            *final(self) == (Dsp {
                left_filter: final(self).left_filter,
                right_filter: final(self).right_filter,
                ..*old(self)
            }),
    {
        self.left_filter.set_coefficient(index, value);
        self.right_filter.set_coefficient(index, value);
    }

    fn get_filter_coefficient(&self, index: usize) -> (r: u8)
        requires
            self.wf(),
            index < 8,
        ensures
            r == self.left_filter.coefficients@[index as int],
    {
        self.left_filter.coefficients[index]
    }

    /// Whether an event of the given rate is held back at the current counter
    /// value: true between firings, false when it is due.
    pub fn read_counter(&self, rate: i32) -> (r: bool)
        requires
            self.wf(),
            0 <= rate < 32,
        ensures
            r == !counter_fires(self.counter as int, rate as u8),
    {
        !fires(self.counter, rate as u8)
    }

    /// The start address of a source, from the source directory.
    pub fn read_source_dir_start_address(&self, mem: &Memory, index: i32) -> (r: u32)
        requires
            self.wf(),
            mem.wf(),
            0 <= index < 256,
        ensures
            r == dir_entry(*mem, self.source_dir, index as u8, 0),
            r < 0x10000,
    {
        self.read_source_dir_address(mem, index, 0)
    }

    /// The loop address of a source, from the source directory.
    pub fn read_source_dir_loop_address(&self, mem: &Memory, index: i32) -> (r: u32)
        requires
            self.wf(),
            mem.wf(),
            0 <= index < 256,
        ensures
            r == dir_entry(*mem, self.source_dir, index as u8, 2),
            r < 0x10000,
    {
        self.read_source_dir_address(mem, index, 2)
    }

    fn read_source_dir_address(&self, mem: &Memory, index: i32, offset: i32) -> (r: u32)
        requires
            mem.wf(),
            0 <= index < 256,
            offset == 0 || offset == 2,
        ensures
            r == dir_entry(*mem, self.source_dir, index as u8, offset as int),
            r < 0x10000,
    {
        let entry = (self.source_dir as u32) * 0x100 + (index as u32) * 4 + offset as u32;
        let low = mem.read_u8(entry) as u32;
        let high = mem.read_u8(entry + 1) as u32;
        low + high * 256
    }

    /// The mask register made of one flag of each voice.
    fn get_voice_mask(&self, kind: u8) -> (r: u8)
        requires
            self.wf(),
        ensures
            r == voice_mask(self.voices@, kind),
    {
        let mut r: u8 = 0;
        let mut i: usize = 0;
        while i < NUM_VOICES
            invariant
                i <= NUM_VOICES,
                self.wf(),
                r == partial_mask(voice_flags(self.voices@, kind), i as nat),
            decreases NUM_VOICES - i,
        {
            let v = &self.voices[i];
            let f = if kind == PMON {
                v.pitch_mod
            } else if kind == NON {
                v.noise_on
            } else if kind == EON {
                v.echo_on
            } else {
                v.endx
            };
            assert(voice_flags(self.voices@, kind)[i as int] == f);
            let ghost before = r;
            assert(before | 0u8 == before) by (bit_vector);
            if f {
                r = r | (1u8 << (i as u8));
            }
            i = i + 1;
        }
        r
    }

    /// Sets one flag of each voice from the bits of a mask.
    #[verifier::rlimit(50)]
    fn set_voice_mask(&mut self, kind: u8, value: u8)
        requires
            old(self).wf(),
            kind < 3,
        ensures
            final(self).wf(),
            same_but_voices(*final(self), *old(self)),
            final(self).voices@.len() == 8,
            forall|i: int|
                0 <= i < 8 ==> #[trigger] final(self).voices@[i] == with_flag(
                    old(self).voices@[i],
                    kind,
                    bit(value, i as u8),
                ),
    {
        let ghost start = *self;
        let mut i: usize = 0;
        while i < NUM_VOICES
            invariant
                i <= NUM_VOICES,
                kind < 3,
                self.wf(),
                same_but_voices(*self, start),
                self.voices@.len() == 8,
                forall|j: int|
                    0 <= j < 8 ==> #[trigger] self.voices@[j] == if j < i {
                        with_flag(start.voices@[j], kind, bit(value, j as u8))
                    } else {
                        start.voices@[j]
                    },
            decreases NUM_VOICES - i,
        {
            let b = (value >> (i as u8)) & 1u8 == 1u8;
            if kind == PMON {
                self.voices[i].pitch_mod = b;
            } else if kind == NON {
                self.voices[i].noise_on = b;
            } else {
                self.voices[i].echo_on = b;
            }
            i = i + 1;
        }
    }

    fn set_pmon(&mut self, value: u8)
        requires
            old(self).wf(),
        ensures
            final(self).wf(),
            same_but_voices(*final(self), *old(self)),
            final(self).voices@.len() == 8,
            forall|i: int|
                0 <= i < 8 ==> #[trigger] final(self).voices@[i] == with_flag(
                    old(self).voices@[i],
                    PMON,
                    bit(value, i as u8),
                ),
    {
        self.set_voice_mask(PMON, value);
    }

    fn get_pmon(&self) -> (r: u8)
        requires
            self.wf(),
        ensures
            r == voice_mask(self.voices@, PMON),
    {
        self.get_voice_mask(PMON)
    }

    fn set_nov(&mut self, value: u8)
        requires
            old(self).wf(),
        ensures
            final(self).wf(),
            same_but_voices(*final(self), *old(self)),
            final(self).voices@.len() == 8,
            forall|i: int|
                0 <= i < 8 ==> #[trigger] final(self).voices@[i] == with_flag(
                    old(self).voices@[i],
                    NON,
                    bit(value, i as u8),
                ),
    {
        self.set_voice_mask(NON, value);
    }

    fn get_nov(&self) -> (r: u8)
        requires
            self.wf(),
        ensures
            r == voice_mask(self.voices@, NON),
    {
        self.get_voice_mask(NON)
    }

    fn set_eon(&mut self, value: u8)
        requires
            old(self).wf(),
        ensures
            final(self).wf(),
            same_but_voices(*final(self), *old(self)),
            final(self).voices@.len() == 8,
            forall|i: int|
                0 <= i < 8 ==> #[trigger] final(self).voices@[i] == with_flag(
                    old(self).voices@[i],
                    EON,
                    bit(value, i as u8),
                ),
    {
        self.set_voice_mask(EON, value);
    }

    fn get_eon(&self) -> (r: u8)
        requires
            self.wf(),
        ensures
            r == voice_mask(self.voices@, EON),
    {
        self.get_voice_mask(EON)
    }

    fn get_endx(&self) -> (r: u8)
        requires
            self.wf(),
        ensures
            r == voice_mask(self.voices@, ENDX),
    {
        self.get_voice_mask(ENDX)
    }

    /// Clears the end flag of every voice.
    fn set_endx(&mut self)
        requires
            old(self).wf(),
        ensures
            final(self).wf(),
            same_but_voices(*final(self), *old(self)),
            final(self).voices@.len() == 8,
            forall|i: int|
                0 <= i < 8 ==> #[trigger] final(self).voices@[i] == (Voice {
                    endx: false,
                    ..old(self).voices@[i]
                }),
    {
        let ghost start = *self;
        let mut i: usize = 0;
        while i < NUM_VOICES
            invariant
                i <= NUM_VOICES,
                self.wf(),
                same_but_voices(*self, start),
                self.voices@.len() == 8,
                forall|j: int|
                    0 <= j < 8 ==> #[trigger] self.voices@[j] == if j < i {
                        Voice { endx: false, ..start.voices@[j] }
                    } else {
                        start.voices@[j]
                    },
            decreases NUM_VOICES - i,
        {
            self.voices[i].clear_endx_bit();
            i = i + 1;
        }
    }

    fn set_flg(&mut self, value: u8)
        ensures
            *final(self) == (Dsp { flg: value, ..*old(self) }),
    {
        self.flg = value;
    }

    /// The FLG register as last written.
    fn get_flg(&self) -> (r: u8)
        ensures
            r == self.flg,
            noise_clock_of(r) == noise_clock_of(self.flg),
            echo_writes_on(r) == echo_writes_on(self.flg),
    {
        self.flg
    }

    /// Keys on each voice whose bit is set, and remembers the mask.
    #[verifier::rlimit(50)]
    fn set_kon(&mut self, mem: &Memory, value: u8)
        requires
            old(self).wf(),
            mem.wf(),
        ensures
            final(self).wf(),
            same_but_voices(*final(self), Dsp { kon_cache: value, ..*old(self) }),
            final(self).voices@.len() == 8,
            forall|i: int|
                0 <= i < 8 ==> if bit(value, i as u8) {
                    keyed_on(old(self).voices@[i], #[trigger] final(self).voices@[i], *mem, old(self).source_dir)
                } else {
                    final(self).voices@[i] == old(self).voices@[i]
                },
    {
        let ghost start = *self;
        self.kon_cache = value;
        let mut i: usize = 0;
        while i < NUM_VOICES
            invariant
                i <= NUM_VOICES,
                mem.wf(),
                self.wf(),
                same_but_voices(*self, Dsp { kon_cache: value, ..start }),
                self.voices@.len() == 8,
                forall|j: int|
                    0 <= j < 8 ==> if j < i && bit(value, j as u8) {
                        keyed_on(start.voices@[j], #[trigger] self.voices@[j], *mem, start.source_dir)
                    } else {
                        self.voices@[j] == start.voices@[j]
                    },
            decreases NUM_VOICES - i,
        {
            if (value >> (i as u8)) & 1u8 == 1u8 {
                let source = self.voices[i].source;
                let start_address = self.read_source_dir_start_address(mem, source as i32);
                let loop_address = self.read_source_dir_loop_address(mem, source as i32);
                let tick = self.ticks;
                self.voices[i].key_on(mem, start_address, loop_address, tick);
            }
            i = i + 1;
        }
    }

    /// Keys off each voice whose bit is set, and remembers the mask.
    fn set_kof(&mut self, value: u8)
        requires
            old(self).wf(),
        ensures
            final(self).wf(),
            same_but_voices(*final(self), Dsp { koff_cache: value, ..*old(self) }),
            final(self).voices@.len() == 8,
            forall|i: int|
                0 <= i < 8 ==> if bit(value, i as u8) {
                    keyed_off(old(self).voices@[i], #[trigger] final(self).voices@[i])
                } else {
                    final(self).voices@[i] == old(self).voices@[i]
                },
    {
        let ghost start = *self;
        self.koff_cache = value;
        let mut i: usize = 0;
        while i < NUM_VOICES
            invariant
                i <= NUM_VOICES,
                self.wf(),
                same_but_voices(*self, Dsp { koff_cache: value, ..start }),
                self.voices@.len() == 8,
                forall|j: int|
                    0 <= j < 8 ==> if j < i && bit(value, j as u8) {
                        keyed_off(start.voices@[j], #[trigger] self.voices@[j])
                    } else {
                        self.voices@[j] == start.voices@[j]
                    },
            decreases NUM_VOICES - i,
        {
            if (value >> (i as u8)) & 1u8 == 1u8 {
                self.voices[i].key_off();
            }
            i = i + 1;
        }
    }
}

impl Dsp {
    /// What a read of a register returns, without synthesizing first.
    fn read_register(&self, address: u8) -> (r: u8)
        requires
            self.wf(),
        ensures
            r == register_read(*self, address),
    {
        let a = address % 128;
        let x = (a / 16) as usize;
        let reg = a % 16;
        if reg < 10 {
            let v = &self.voices[x];
            if reg == 0 {
                v.vol_left
            } else if reg == 1 {
                v.vol_right
            } else if reg == 2 {
                v.pitch_low
            } else if reg == 3 {
                v.pitch_high
            } else if reg == 4 {
                v.source
            } else if reg == 5 {
                v.envelope.adsr0
            } else if reg == 6 {
                v.envelope.adsr1
            } else if reg == 7 {
                v.envelope.gain
            } else if reg == 8 {
                (v.envelope.level / 16) as u8
            } else {
                v.outx_value
            }
        } else if reg == 15 {
            self.get_filter_coefficient(x)
        } else if a == 0x0c {
            self.vol_left
        } else if a == 0x1c {
            self.vol_right
        } else if a == 0x2c {
            self.echo_vol_left
        } else if a == 0x3c {
            self.echo_vol_right
        } else if a == 0x4c {
            self.kon_cache
        } else if a == 0x5c {
            self.koff_cache
        } else if a == 0x6c {
            self.get_flg()
        } else if a == 0x7c {
            self.get_endx()
        } else if a == 0x0d {
            self.echo_feedback
        } else if a == 0x2d {
            self.get_pmon()
        } else if a == 0x3d {
            self.get_nov()
        } else if a == 0x4d {
            self.get_eon()
        } else if a == 0x5d {
            self.source_dir
        } else if a == 0x6d {
            (self.echo_start_address / 256) as u8
        } else if a == 0x7d {
            self.echo_delay
        } else {
            0
        }
    }

    /// Applies a register write at once, without synthesizing first.
    #[verifier::rlimit(50)]
    pub fn write_register(&mut self, mem: &Memory, address: u8, value: u8)
        requires
            old(self).wf(),
            mem.wf(),
            address < 128,
        ensures
            register_written(*old(self), *final(self), *mem, address, value),
    {
        let x = (address / 16) as usize;
        let reg = address % 16;
        let ghost start = *self;
        if reg < 10 {
            if reg < 8 {
                self.write_voice_register(x, reg, value);
                proof {
                    lemma_voice_write(start, *self, x as int, reg, value);
                }
            }
        } else if reg == 15 {
            self.set_filter_coefficient(x, value);
        } else if address == 0x0c {
            self.vol_left = value;
        } else if address == 0x1c {
            self.vol_right = value;
        } else if address == 0x2c {
            self.echo_vol_left = value;
        } else if address == 0x3c {
            self.echo_vol_right = value;
        } else if address == 0x4c {
            self.set_kon(mem, value);
            proof {
                lemma_same_voice_registers(start, *self);
            }
        } else if address == 0x5c {
            self.set_kof(value);
            proof {
                lemma_same_voice_registers(start, *self);
            }
        } else if address == 0x6c {
            self.set_flg(value);
        } else if address == 0x7c {
            self.set_endx();
            proof {
                lemma_same_voice_registers(start, *self);
                lemma_endx_clear(self.voices@);
            }
        } else if address == 0x0d {
            self.echo_feedback = value;
        } else if address == 0x2d {
            self.set_pmon(value);
            proof {
                lemma_mask_round_trip(value);
                assert(voice_flags(self.voices@, PMON) =~= Seq::new(8, |i: int| bit(value, i as u8)));
                lemma_same_voice_registers_but_flags(start, *self, PMON);
            }
        } else if address == 0x3d {
            self.set_nov(value);
            proof {
                lemma_mask_round_trip(value);
                assert(voice_flags(self.voices@, NON) =~= Seq::new(8, |i: int| bit(value, i as u8)));
                lemma_same_voice_registers_but_flags(start, *self, NON);
            }
        } else if address == 0x4d {
            self.set_eon(value);
            proof {
                lemma_mask_round_trip(value);
                assert(voice_flags(self.voices@, EON) =~= Seq::new(8, |i: int| bit(value, i as u8)));
                lemma_same_voice_registers_but_flags(start, *self, EON);
            }
        } else if address == 0x5d {
            self.source_dir = value;
        } else if address == 0x6d {
            self.echo_start_address = Dsp::calculate_echo_start_address(value);
        } else if address == 0x7d {
            self.echo_delay = value % 16;
        }
    }
}

impl Dsp {
    fn write_voice_register(&mut self, x: usize, reg: u8, value: u8)
        requires
            old(self).wf(),
            x < 8,
            reg < 8,
        ensures
            final(self).wf(),
            same_but_voices(*final(self), *old(self)),
            final(self).voices@ == old(self).voices@.update(
                x as int,
                voice_written(old(self).voices@[x as int], reg, value),
            ),
    {
        let ghost start = *self;
        self.voices[x].write_register(reg, value);
        assert(self.voices@ =~= start.voices@.update(
            x as int,
            voice_written(start.voices@[x as int], reg, value),
        ));
    }
}

/// A write of a voice register reads back, and leaves the other readable registers.
#[verifier::rlimit(60)]
proof fn lemma_voice_write(d1: Dsp, d2: Dsp, x: int, reg: u8, value: u8)
    requires
        d1.wf(),
        d2.wf(),
        0 <= x < 8,
        reg < 8,
        same_but_voices(d2, d1),
        d2.voices@ == d1.voices@.update(x, voice_written(d1.voices@[x], reg, value)),
    ensures
        register_read(d2, (x * 16 + reg) as u8) == readback((x * 16 + reg) as u8, value),
        forall|b: u8|
            readable(b) && b != (x * 16 + reg) as u8 ==> #[trigger] register_read(d2, b)
                == register_read(d1, b),
{
    assert(voice_flags(d2.voices@, PMON) =~= voice_flags(d1.voices@, PMON));
    assert(voice_flags(d2.voices@, NON) =~= voice_flags(d1.voices@, NON));
    assert(voice_flags(d2.voices@, EON) =~= voice_flags(d1.voices@, EON));
    assert(voice_flags(d2.voices@, ENDX) =~= voice_flags(d1.voices@, ENDX));
    let address = (x * 16 + reg) as u8;
    assert(address % 128 == address && address / 16 == x && address % 16 == reg);
    assert forall|b: u8| readable(b) && b != address implies #[trigger] register_read(d2, b)
        == register_read(d1, b) by {
        let y = ((b % 128) / 16) as int;
        if y != x {
            assert(d2.voices@[y] == d1.voices@[y]);
        }
    }
}

/// Voice changes that keep every voice's registers keep every readable
/// register but the voice masks that read the changed flags.
proof fn lemma_same_voice_registers(d1: Dsp, d2: Dsp)
    requires
        d1.wf(),
        d2.wf(),
        forall|i: int| 0 <= i < 8 ==> (#[trigger] d2.voices@[i]).same_registers(&d1.voices@[i]),
        forall|i: int| 0 <= i < 8 ==> (#[trigger] d2.voices@[i]).pitch_mod == d1.voices@[i].pitch_mod
            && d2.voices@[i].noise_on == d1.voices@[i].noise_on
            && d2.voices@[i].echo_on == d1.voices@[i].echo_on,
        same_but_voices(d2, Dsp { kon_cache: d2.kon_cache, koff_cache: d2.koff_cache, ..d1 }),
    ensures
        forall|b: u8|
            readable(b) && b != 0x4c && b != 0x5c ==> #[trigger] register_read(d2, b)
                == register_read(d1, b),
{
    assert(voice_flags(d2.voices@, PMON) =~= voice_flags(d1.voices@, PMON));
    assert(voice_flags(d2.voices@, NON) =~= voice_flags(d1.voices@, NON));
    assert(voice_flags(d2.voices@, EON) =~= voice_flags(d1.voices@, EON));
}

/// Setting one mask flag of each voice keeps every other readable register.
#[verifier::rlimit(50)]
proof fn lemma_same_voice_registers_but_flags(d1: Dsp, d2: Dsp, kind: u8)
    requires
        d1.wf(),
        d2.wf(),
        kind < 3,
        same_but_voices(d2, d1),
        forall|i: int|
            0 <= i < 8 ==> #[trigger] d2.voices@[i] == with_flag(
                d1.voices@[i],
                kind,
                (#[trigger] d2.voices@[i]).pitch_mod && kind == PMON || d2.voices@[i].noise_on
                    && kind == NON || d2.voices@[i].echo_on && kind == EON,
            ),
    ensures
        forall|b: u8|
            readable(b) && b != 0x2d + 16 * kind ==> #[trigger] register_read(d2, b)
                == register_read(d1, b),
{
    if kind != PMON {
        assert(voice_flags(d2.voices@, PMON) =~= voice_flags(d1.voices@, PMON));
    }
    if kind != NON {
        assert(voice_flags(d2.voices@, NON) =~= voice_flags(d1.voices@, NON));
    }
    if kind != EON {
        assert(voice_flags(d2.voices@, EON) =~= voice_flags(d1.voices@, EON));
    }
    assert forall|b: u8| readable(b) && b != 0x2d + 16 * kind implies #[trigger] register_read(d2, b)
        == register_read(d1, b) by {
        let x = ((b % 128) / 16) as int;
        assert(d2.voices@[x] == with_flag(d1.voices@[x], kind, d2.voices@[x].pitch_mod && kind == PMON || d2.voices@[x].noise_on && kind == NON || d2.voices@[x].echo_on && kind == EON));
    }
}

/// The mix of the first `n` voices depends on those voices' outputs and echo flags only.
proof fn lemma_mix_prefix_frame(vs1: Seq<Voice>, vs2: Seq<Voice>, n: nat, right: bool, echo_only: bool)
    requires
        n <= vs1.len(),
        n <= vs2.len(),
        forall|j: int|
            0 <= j < n ==> (#[trigger] vs1[j]).last_output == vs2[j].last_output && vs1[j].echo_on
                == vs2[j].echo_on,
    ensures
        mix_prefix(vs1, n, right, echo_only) == mix_prefix(vs2, n, right, echo_only),
    decreases n,
{
    if n > 0 {
        lemma_mix_prefix_frame(vs1, vs2, (n - 1) as nat, right, echo_only);
        assert(vs1[n - 1].last_output == vs2[n - 1].last_output);
    }
}

/// The mixer saturates rather than wraps: when every voice contributes a
/// loud positive sample (at least 0x4000, at most the largest, 0x8000), the
/// mix of all eight sits at 32767; with loud negative samples it sits at -32768.
pub proof fn lemma_mix_saturates(vs: Seq<Voice>, right: bool)
    requires
        vs.len() == 8,
    ensures
        (forall|i: int| 0 <= i < 8 ==> 0x4000 <= #[trigger] side(vs[i].last_output, right) <= 0x8000)
            ==> mix_prefix(vs, 8, right, false) == 32767,
        (forall|i: int| 0 <= i < 8 ==> -0x8000 <= #[trigger] side(vs[i].last_output, right) <= -0x4000)
            ==> mix_prefix(vs, 8, right, false) == -32768,
{
    if forall|i: int| 0 <= i < 8 ==> 0x4000 <= #[trigger] side(vs[i].last_output, right) <= 0x8000 {
        lemma_mix_high(vs, 8, right);
    }
    if forall|i: int| 0 <= i < 8 ==> -0x8000 <= #[trigger] side(vs[i].last_output, right) <= -0x4000 {
        lemma_mix_low(vs, 8, right);
    }
}

proof fn lemma_mix_high(vs: Seq<Voice>, n: nat, right: bool)
    requires
        2 <= n <= vs.len(),
        forall|i: int| 0 <= i < n ==> 0x4000 <= #[trigger] side(vs[i].last_output, right) <= 0x8000,
    ensures
        mix_prefix(vs, n, right, false) == 32767,
    decreases n,
{
    if n > 2 {
        lemma_mix_high(vs, (n - 1) as nat, right);
    } else {
        reveal_with_fuel(mix_prefix, 3);
    }
    let x = side(vs[n - 1].last_output, right);
    assert(0x4000 <= x <= 0x8000);
    lemma_mix_prefix_in_range(vs, (n - 1) as nat, right, false);
    let acc = mix_prefix(vs, (n - 1) as nat, right, false);
    if n == 2 {
        assert(0x4000 <= acc <= 0x8000);
    }
    assert((acc + x + 0x10000) % 0x20000 == acc + x + 0x10000) by {
        vstd::arithmetic::div_mod::lemma_small_mod((acc + x + 0x10000) as nat, 0x20000);
    }
}

proof fn lemma_mix_low(vs: Seq<Voice>, n: nat, right: bool)
    requires
        2 <= n <= vs.len(),
        forall|i: int| 0 <= i < n ==> -0x8000 <= #[trigger] side(vs[i].last_output, right) <= -0x4000,
    ensures
        mix_prefix(vs, n, right, false) == -32768,
    decreases n,
{
    if n > 2 {
        lemma_mix_low(vs, (n - 1) as nat, right);
    } else {
        reveal_with_fuel(mix_prefix, 3);
    }
    let x = side(vs[n - 1].last_output, right);
    lemma_mix_prefix_in_range(vs, (n - 1) as nat, right, false);
    let acc = mix_prefix(vs, (n - 1) as nat, right, false);
    if n == 2 {
        assert(-0x8000 <= acc <= -0x4000);
    }
    assert((acc + x + 0x10000) % 0x20000 == acc + x + 0x10000) by {
        vstd::arithmetic::div_mod::lemma_small_mod((acc + x + 0x10000) as nat, 0x20000);
    }
}

pub proof fn lemma_mix_prefix_in_range(vs: Seq<Voice>, n: nat, right: bool, echo_only: bool)
    ensures
        in_i16(mix_prefix(vs, n, right, echo_only)),
    decreases n,
{
    if n > 0 {
        lemma_mix_prefix_in_range(vs, (n - 1) as nat, right, echo_only);
    }
}

/// The signed word at an address, little-endian.
fn read_word(mem: &Memory, address: u32) -> (r: i32)
    requires
        mem.wf(),
        address < 0x20000,
    ensures
        r == word_at(*mem, address as int),
        in_i16(r as int),
{
    let low = mem.read_u8(address) as i64;
    let high = mem.read_u8(address + 1) as i64;
    wrap16(high * 256 + low)
}

/// Stores a 16-bit value little-endian at an address.
fn write_word(mem: &mut Memory, address: u32, value: i32)
    requires
        old(mem).wf(),
        address < 0x20000,
        in_i16(value as int),
    ensures
        final(mem).wf(),
        final(mem).bytes@ == old(mem).bytes@.update(
            address as int % 0x10000,
            (((value + 0x10000) % 0x10000) % 256) as u8,
        ).update((address as int + 1) % 0x10000, (((value + 0x10000) % 0x10000) / 256) as u8),
        word_at(*final(mem), address as int) == value,
{
    let u: i32 = (value + 0x10000) % 0x10000;
    mem.write_u8(address, (u % 256) as u8);
    mem.write_u8(address + 1, (u / 256) as u8);
    assert((address as int + 1) % 0x10000 != address as int % 0x10000);
}

/// One step of the noise shift register.
fn lfsr(noise: i32) -> (r: i32)
    requires
        0 <= noise < 0x8000,
    ensures
        r == lfsr_step(noise as int),
        0 <= r < 0x8000,
{
    let half = noise / 2;
    if noise % 2 != half % 2 {
        half + 0x4000
    } else {
        half
    }
}

impl Dsp {
    /// Renders the eight voices in order, each modulated by the one before, and
    /// mixes them: all voices, and the ones that feed the echo.
    #[verifier::rlimit(50)]
    fn render_voices(&mut self, mem: &Memory) -> (r: (i32, i32, i32, i32))
        requires
            old(self).wf(),
            mem.wf(),
        ensures
            final(self).wf(),
            same_but_voices(*final(self), *old(self)),
            same_registers(*final(self), *old(self)),
            r.0 == mix_prefix(final(self).voices@, 8, false, false),
            r.1 == mix_prefix(final(self).voices@, 8, true, false),
            r.2 == mix_prefix(final(self).voices@, 8, false, true),
            r.3 == mix_prefix(final(self).voices@, 8, true, true),
            in_i16(r.0 as int) && in_i16(r.1 as int) && in_i16(r.2 as int) && in_i16(r.3 as int),
            final(self).voices@.len() == 8,
            forall|i: int|
                0 <= i < 8 ==> rendered(
                    old(self).voices@[i],
                    #[trigger] final(self).voices@[i],
                    old(self).counter as int,
                    prev_out(final(self).voices@, i),
                    old(self).noise as int,
                    any_solo(old(self).voices@),
                ),
    {
        let mut any_solod = false;
        let mut k: usize = 0;
        while k < NUM_VOICES
            invariant
                k <= NUM_VOICES,
                self.wf(),
                any_solod <==> exists|j: int| 0 <= j < k && #[trigger] self.voices@[j].is_solod,
            decreases NUM_VOICES - k,
        {
            if self.voices[k].is_solod {
                any_solod = true;
            }
            k = k + 1;
        }
        let ghost start = *self;
        assert(any_solod == any_solo(start.voices@));
        let mut left: i32 = 0;
        let mut right: i32 = 0;
        let mut left_echo: i32 = 0;
        let mut right_echo: i32 = 0;
        let mut last: i32 = 0;
        let mut i: usize = 0;
        while i < NUM_VOICES
            invariant
                i <= NUM_VOICES,
                mem.wf(),
                self.wf(),
                same_but_voices(*self, start),
                forall|j: int| 0 <= j < 8 ==> (#[trigger] self.voices@[j]).same_registers(&start.voices@[j]),
                forall|j: int| i <= j < 8 ==> #[trigger] self.voices@[j] == start.voices@[j],
                in_i16(last as int),
                left == mix_prefix(self.voices@, i as nat, false, false),
                right == mix_prefix(self.voices@, i as nat, true, false),
                left_echo == mix_prefix(self.voices@, i as nat, false, true),
                right_echo == mix_prefix(self.voices@, i as nat, true, true),
                in_i16(left as int) && in_i16(right as int),
                in_i16(left_echo as int) && in_i16(right_echo as int),
                any_solod == any_solo(start.voices@),
                last == prev_out(self.voices@, i as int),
                forall|j: int|
                    0 <= j < i ==> rendered(
                        start.voices@[j],
                        #[trigger] self.voices@[j],
                        start.counter as int,
                        prev_out(self.voices@, j),
                        start.noise as int,
                        any_solo(start.voices@),
                    ),
            decreases NUM_VOICES - i,
        {
            let ghost before = self.voices@;
            let counter = self.counter;
            let noise = self.noise;
            let out = self.voices[i].render_sample(mem, counter, last, noise, any_solod);
            proof {
                assert forall|j: int| 0 <= j <= i implies rendered(
                    start.voices@[j],
                    #[trigger] self.voices@[j],
                    start.counter as int,
                    prev_out(self.voices@, j),
                    start.noise as int,
                    any_solo(start.voices@),
                ) by {
                    if j < i {
                        assert(self.voices@[j] == before[j]);
                        if j > 0 {
                            assert(self.voices@[j - 1] == before[j - 1]);
                        }
                    }
                }
                lemma_mix_prefix_frame(self.voices@, before, i as nat, false, false);
                lemma_mix_prefix_frame(self.voices@, before, i as nat, true, false);
                lemma_mix_prefix_frame(self.voices@, before, i as nat, false, true);
                lemma_mix_prefix_frame(self.voices@, before, i as nat, true, true);
            }
            left = mix(left, out.left_out);
            right = mix(right, out.right_out);
            if self.voices[i].echo_on {
                left_echo = mix(left_echo, out.left_out);
                right_echo = mix(right_echo, out.right_out);
            }
            last = out.last_voice_out;
            i = i + 1;
        }
        (left, right, left_echo, right_echo)
    }
}

/// One channel of the final output.
fn channel_output(dry: i32, volume: u8, echo_in: i32, echo_volume: u8) -> (r: i32)
    requires
        in_i16(dry as int),
        in_i16(echo_in as int),
    ensures
        r == final_output(dry as int, volume, echo_in as int, echo_volume),
        in_i16(r as int),
{
    let main = multiply_volume(dry, volume);
    let echo = multiply_volume(echo_in, echo_volume);
    clamp16(wrap17(main as i64 + echo as i64) as i64)
}

/// Writes the left and right echo words at an address.
fn write_echo(mem: &mut Memory, address: u32, left: i32, right: i32)
    requires
        old(mem).wf(),
        address < 0x18000,
        in_i16(left as int),
        in_i16(right as int),
    ensures
        final(mem).wf(),
        word_at(*final(mem), address as int) == left,
        word_at(*final(mem), address as int + 2) == right,
        bytes_kept_but_echo(*old(mem), *final(mem), address as int),
{
    write_word(mem, address, left);
    let ghost middle = *mem;
    write_word(mem, address + 2, right);
    assert(word_at(*mem, address as int) == word_at(middle, address as int));
}

/// The value the echo unit writes back for one channel.
fn echo_write_sample(send: i32, echo_in: i32, feedback: u8) -> (r: i32)
    requires
        in_i16(send as int),
        in_i16(echo_in as int),
    ensures
        r == echo_write_value(send as int, echo_in as int, feedback),
        in_i16(r as int),
{
    let f: i64 = if feedback < 128 { feedback as i64 } else { feedback as i64 - 256 };
    assert(-4194304 <= echo_in * f <= 4194304) by (nonlinear_arith)
        requires -32768 <= echo_in <= 32767, -128 <= f <= 127;
    let scaled = floor_div(echo_in as i64 * f, 128);
    proof {
        lemma_div_bounds(echo_in * f, -4194304, 4194304, 128);
    }
    let term = wrap16(scaled);
    clear_low_bit(clamp16(wrap17(send as i64 + term as i64) as i64))
}

impl Dsp {
    /// The echo buffer address of this tick.
    pub open spec fn echo_address(&self) -> int {
        self.echo_start_address + self.echo_pos
    }

}

/// The volumes and feedback that the output stage applies.
pub struct OutputLevels {
    pub vol_left: u8,
    pub vol_right: u8,
    pub echo_vol_left: u8,
    pub echo_vol_right: u8,
    pub echo_feedback: u8,
    pub echo_writes: bool,
}

/// Reads the echo input at `address`, filters it, writes the output pair and,
/// when echo writes are on, the echo feedback.
#[verifier::rlimit(50)]
fn output_stage(
    left_filter: &mut Filter,
    right_filter: &mut Filter,
    buffer: &mut RingBuffer,
    mem: &mut Memory,
    address: u32,
    levels: &OutputLevels,
    dry_l: i32,
    dry_r: i32,
    send_l: i32,
    send_r: i32,
)
    requires
        old(left_filter).wf(),
        old(right_filter).wf(),
        old(buffer).wf(),
        old(mem).wf(),
        address < 0x18000,
        old(buffer)@.len() < BUFFER_LEN,
        in_i16(dry_l as int) && in_i16(dry_r as int),
        in_i16(send_l as int) && in_i16(send_r as int),
    ensures
        final(left_filter).wf(),
        final(right_filter).wf(),
        final(buffer).wf(),
        final(mem).wf(),
        final(left_filter).coefficients@ == old(left_filter).coefficients@,
        final(right_filter).coefficients@ == old(right_filter).coefficients@,
        final(left_filter).history@ == old(left_filter).history@.drop_first().push(
            even_floor(word_at(*old(mem), address as int)) as i32,
        ),
        final(right_filter).history@ == old(right_filter).history@.drop_first().push(
            even_floor(word_at(*old(mem), address as int + 2)) as i32,
        ),
        final(buffer)@ == old(buffer)@.push(
            (
                final_output(
                    dry_l as int,
                    levels.vol_left,
                    filtered_echo(*final(left_filter)),
                    levels.echo_vol_left,
                ) as i16,
                final_output(
                    dry_r as int,
                    levels.vol_right,
                    filtered_echo(*final(right_filter)),
                    levels.echo_vol_right,
                ) as i16,
            ),
        ),
        levels.echo_writes ==> word_at(*final(mem), address as int) == echo_write_value(
            send_l as int,
            filtered_echo(*final(left_filter)),
            levels.echo_feedback,
        ) && word_at(*final(mem), address as int + 2) == echo_write_value(
            send_r as int,
            filtered_echo(*final(right_filter)),
            levels.echo_feedback,
        ),
        !levels.echo_writes ==> *final(mem) == *old(mem),
        levels.echo_writes ==> bytes_kept_but_echo(*old(mem), *final(mem), address as int),
{
    let in_l = clear_low_bit(read_word(mem, address));
    let in_r = clear_low_bit(read_word(mem, address + 2));
    let echo_l = clear_low_bit(left_filter.next(in_l));
    let echo_r = clear_low_bit(right_filter.next(in_r));
    let out_l = channel_output(dry_l, levels.vol_left, echo_l, levels.echo_vol_left);
    let out_r = channel_output(dry_r, levels.vol_right, echo_r, levels.echo_vol_right);
    buffer.write_sample(out_l as i16, out_r as i16);
    if levels.echo_writes {
        let write_l = echo_write_sample(send_l, echo_l, levels.echo_feedback);
        let write_r = echo_write_sample(send_r, echo_r, levels.echo_feedback);
        write_echo(mem, address, write_l, write_r);
    }
}

/// Every voice of a well-formed chip has its envelope level in `0..=2047`; as
/// every operation on the chip keeps it well formed, this holds after any
/// sequence of ticks and register writes.
pub proof fn lemma_voice_levels_in_range(d: Dsp)
    requires
        d.wf(),
    ensures
        forall|i: int| 0 <= i < 8 ==> 0 <= (#[trigger] d.voices@[i]).envelope.level <= 2047,
{
    assert forall|i: int| 0 <= i < 8 implies 0 <= (#[trigger] d.voices@[i]).envelope.level <= 2047 by {
        assert(d.voices@[i].wf());
    }
}

/// The high address bit is not decoded on reads.
proof fn lemma_read_ignores_high_bit(d: Dsp, address: u8)
    ensures
        register_read(d, address) == register_read(d, address % 128),
{
    assert((address % 128) % 128 == address % 128);
}

proof fn lemma_pending_step(c: int)
    requires
        c > 64,
    ensures
        pending_ticks(c) == 1 + pending_ticks(c - 64),
{
    vstd::arithmetic::div_mod::lemma_fundamental_div_mod(c - 65, 64);
    vstd::arithmetic::div_mod::lemma_mod_bound(c - 65, 64);
    vstd::arithmetic::div_mod::lemma_fundamental_div_mod_converse(
        c - 1,
        64,
        (c - 65) / 64 + 1,
        (c - 65) % 64,
    );
}

impl Dsp {
    /// The echo buffer's start address for the ESA register value.
    fn calculate_echo_start_address(value: u8) -> (r: u16)
        ensures
            r == value * 256,
    {
        (value as u16) * 256
    }

    pub fn resampling_mode(&self) -> (r: ResamplingMode)
        ensures
            r == self.resampling_mode,
    {
        self.resampling_mode
    }

    /// Selects the interpolation of every voice.
    pub fn set_resampling_mode(&mut self, resampling_mode: ResamplingMode)
        requires
            old(self).wf(),
        ensures
            final(self).wf(),
            final(self).resampling_mode == resampling_mode,
            final(self).voices@.len() == 8,
            forall|i: int|
                0 <= i < 8 ==> #[trigger] final(self).voices@[i] == (Voice {
                    resampling_mode,
                    ..old(self).voices@[i]
                }),
    {
        let ghost start = *self;
        self.resampling_mode = resampling_mode;
        let mut i: usize = 0;
        while i < NUM_VOICES
            invariant
                i <= NUM_VOICES,
                self.wf(),
                self.resampling_mode == resampling_mode,
                self.voices@.len() == 8,
                forall|j: int|
                    0 <= j < 8 ==> #[trigger] self.voices@[j] == if j < i {
                        Voice { resampling_mode, ..start.voices@[j] }
                    } else {
                        start.voices@[j]
                    },
            decreases NUM_VOICES - i,
        {
            self.voices[i].resampling_mode = resampling_mode;
            i = i + 1;
        }
    }

    /// Counts CPU cycles toward the next flush.
    pub fn cycles_callback(&mut self, num_cycles: i32)
        requires
            old(self).wf(),
            0 <= num_cycles,
            old(self).cycles_since_last_flush + num_cycles <= i32::MAX,
        ensures
            final(self).wf(),
            *final(self) == (Dsp {
                cycles_since_last_flush: (old(self).cycles_since_last_flush + num_cycles) as i32,
                ..*old(self)
            }),
    {
        self.cycles_since_last_flush = self.cycles_since_last_flush + num_cycles;
    }

    pub fn get_echo_start_address(&self) -> (r: u16)
        ensures
            r == self.echo_start_address,
    {
        self.echo_start_address
    }

    /// The echo buffer length that the delay register asks for, in bytes.
    pub fn calculate_echo_length(&self) -> (r: i32)
        requires
            self.wf(),
        ensures
            r == echo_length_of(self.echo_delay),
    {
        (self.echo_delay as i32) * ECHO_BLOCK
    }

    /// The number of ticks the next flush will render.
    pub fn pending_ticks(&self) -> (r: i32)
        requires
            self.wf(),
        ensures
            r == pending_ticks(self.cycles_since_last_flush as int),
    {
        if self.cycles_since_last_flush > CYCLES_PER_TICK {
            (self.cycles_since_last_flush - 1) / CYCLES_PER_TICK
        } else {
            0
        }
    }

    /// Renders one tick: noise, the eight voices, the mix with master volume and
    /// echo, the echo write-back and the echo and rate counters.
    #[verifier::rlimit(50)]
    pub fn render_tick(&mut self, mem: &mut Memory)
        requires
            old(self).wf(),
            old(mem).wf(),
            old(self).output_buffer@.len() < BUFFER_LEN,
        ensures
            tick_effect(*old(self), *old(mem), *final(self), *final(mem)),
            final(self).cycles_since_last_flush == old(self).cycles_since_last_flush,
    {
        let rate = self.flg % 32;
        if !self.read_counter(rate as i32) {
            self.noise = lfsr(self.noise);
        }
        let mixed = self.render_voices(mem);
        let levels = OutputLevels {
            vol_left: self.vol_left,
            vol_right: self.vol_right,
            echo_vol_left: self.echo_vol_left,
            echo_vol_right: self.echo_vol_right,
            echo_feedback: self.echo_feedback,
            echo_writes: self.flg / 32 % 2 == 0,
        };
        let address: u32 = self.echo_start_address as u32 + self.echo_pos as u32;
        output_stage(
            &mut self.left_filter,
            &mut self.right_filter,
            &mut self.output_buffer,
            mem,
            address,
            &levels,
            mixed.0,
            mixed.1,
            mixed.2,
            mixed.3,
        );
        if self.echo_pos == 0 {
            self.echo_length = self.calculate_echo_length();
        }
        let next = self.echo_pos + 4;
        self.echo_pos = if next >= self.echo_length { 0 } else { next };
        self.counter = (self.counter + 1) % COUNTER_RANGE;
        self.ticks = self.ticks.wrapping_add(1);
    }

    /// Renders one tick of the cycles counted so far, if a whole one is pending
    /// beyond the current; says whether it did. A flush is these steps until
    /// none is left.
    #[verifier::rlimit(50)]
    pub fn render_pending_tick(&mut self, mem: &mut Memory) -> (r: bool)
        requires
            old(self).wf(),
            old(mem).wf(),
            old(self).output_buffer@.len() < BUFFER_LEN,
        ensures
            final(self).wf(),
            final(mem).wf(),
            r == (old(self).cycles_since_last_flush > CYCLES_PER_TICK),
            !r ==> *final(self) == *old(self) && *final(mem) == *old(mem),
            r ==> tick_effect(*old(self), *old(mem), *final(self), *final(mem))
                && final(self).cycles_since_last_flush == old(self).cycles_since_last_flush - 64,
    {
        if self.cycles_since_last_flush <= CYCLES_PER_TICK {
            return false;
        }
        let ghost before = *self;
        let ghost before_mem = *mem;
        self.render_tick(mem);
        let ghost ticked = *self;
        self.cycles_since_last_flush = self.cycles_since_last_flush - CYCLES_PER_TICK;
        proof {
            lemma_tick_effect_any_cycles(before, before_mem, ticked, *mem, self.cycles_since_last_flush);
            assert(*self == (Dsp { cycles_since_last_flush: self.cycles_since_last_flush, ..ticked }));
        }
        true
    }

    /// Renders every whole tick of the cycles counted so far.
    #[verifier::rlimit(50)]
    pub fn flush(&mut self, mem: &mut Memory)
        requires
            old(self).wf(),
            old(mem).wf(),
            pending_ticks(old(self).cycles_since_last_flush as int) <= BUFFER_LEN - old(
                self,
            ).output_buffer@.len(),
        ensures
            final(self).wf(),
            final(mem).wf(),
            same_registers(*final(self), *old(self)),
            final(self).cycles_since_last_flush <= CYCLES_PER_TICK,
            ({
                let n = pending_ticks(old(self).cycles_since_last_flush as int);
                &&& final(self).cycles_since_last_flush == old(self).cycles_since_last_flush - 64 * n
                &&& final(self).output_buffer@.len() == old(self).output_buffer@.len() + n
                &&& final(self).output_buffer@.subrange(0, old(self).output_buffer@.len() as int)
                    == old(self).output_buffer@
                &&& final(self).counter == (old(self).counter + n) % (COUNTER_RANGE as int)
                &&& final(self).noise == noise_run(
                    old(self).noise as int,
                    old(self).counter as int,
                    noise_clock_of(old(self).flg),
                    n as nat,
                )
                &&& (final(self).echo_pos as int, final(self).echo_length as int) == echo_run(
                    old(self).echo_pos as int,
                    old(self).echo_length as int,
                    old(self).echo_delay,
                    n as nat,
                )
            }),
            old(self).cycles_since_last_flush <= CYCLES_PER_TICK ==> *final(self) == *old(self)
                && *final(mem) == *old(mem),
            flushed(*old(self), *old(mem), *final(self), *final(mem)),
            forall|i: int|
                0 <= i < 8 ==> 0 <= (#[trigger] final(self).voices@[i]).envelope.level <= 2047,
    {
        let ghost start = *self;
        let ghost total = pending_ticks(start.cycles_since_last_flush as int);
        let ghost mut done: int = 0;
        let ghost mut states: Seq<Dsp> = seq![*self];
        let ghost mut mems: Seq<Memory> = seq![*mem];
        while self.cycles_since_last_flush > CYCLES_PER_TICK
            invariant
                self.wf(),
                mem.wf(),
                same_registers(*self, start),
                0 <= done,
                total == done + pending_ticks(self.cycles_since_last_flush as int),
                total <= BUFFER_LEN - start.output_buffer@.len(),
                self.cycles_since_last_flush == start.cycles_since_last_flush - 64 * done,
                self.output_buffer@.len() == start.output_buffer@.len() + done,
                self.output_buffer@.subrange(0, start.output_buffer@.len() as int)
                    == start.output_buffer@,
                self.counter == (start.counter + done) % (COUNTER_RANGE as int),
                self.noise == noise_run(
                    start.noise as int,
                    start.counter as int,
                    noise_clock_of(start.flg),
                    done as nat,
                ),
                (self.echo_pos as int, self.echo_length as int) == echo_run(
                    start.echo_pos as int,
                    start.echo_length as int,
                    start.echo_delay,
                    done as nat,
                ),
                done == 0 ==> *self == start && *mem == *old(mem),
                tick_chain(states, mems, done as nat),
                states[0] == start,
                mems[0] == *old(mem),
                states[done] == *self,
                mems[done] == *mem,
            decreases self.cycles_since_last_flush,
        {
            proof {
                lemma_pending_step(self.cycles_since_last_flush as int);
            }
            let ghost buf = self.output_buffer@;
            let ghost before = *self;
            let ghost before_mem = *mem;
            self.render_tick(mem);
            let ghost ticked = *self;
            assert(self.output_buffer@.subrange(0, start.output_buffer@.len() as int)
                =~= buf.subrange(0, start.output_buffer@.len() as int));
            self.cycles_since_last_flush = self.cycles_since_last_flush - CYCLES_PER_TICK;
            proof {
                lemma_tick_effect_any_cycles(before, before_mem, ticked, *mem, self.cycles_since_last_flush);
                assert(*self == (Dsp { cycles_since_last_flush: self.cycles_since_last_flush, ..ticked }));
                let old_states = states;
                let old_mems = mems;
                states = states.push(*self);
                mems = mems.push(*mem);
                assert forall|k: int| 0 <= k < done + 1 implies #[trigger] tick_effect(
                    states[k],
                    mems[k],
                    states[k + 1],
                    mems[k + 1],
                ) && states[k + 1].cycles_since_last_flush == states[k].cycles_since_last_flush - 64 by {
                    if k < done {
                        assert(states[k] == old_states[k] && states[k + 1] == old_states[k + 1]);
                        assert(mems[k] == old_mems[k] && mems[k + 1] == old_mems[k + 1]);
                        assert(tick_effect(old_states[k], old_mems[k], old_states[k + 1], old_mems[k + 1]));
                    } else {
                        assert(states[k] == before && mems[k] == before_mem);
                    }
                }
                done = done + 1;
                vstd::arithmetic::div_mod::lemma_add_mod_noop(start.counter + done - 1, 1, 30720);
            }
        }
        proof {
            assert(done == total);
            assert(tick_path(start, *old(mem), *self, *mem, states, mems));
            lemma_voice_levels_in_range(*self);
        }
    }
}

impl Dsp {
    /// Writes a register, after synthesizing up to the current cycle count.
    /// Addresses with the high bit set are ignored.
    #[verifier::rlimit(50)]
    pub fn set_register(&mut self, mem: &mut Memory, address: u8, value: u8)
        requires
            old(self).wf(),
            old(mem).wf(),
            address < 128 ==> pending_ticks(old(self).cycles_since_last_flush as int) <= BUFFER_LEN
                - old(self).output_buffer@.len(),
        ensures
            final(self).wf(),
            final(mem).wf(),
            address >= 128 ==> *final(self) == *old(self) && *final(mem) == *old(mem),
            address < 128 ==> final(self).cycles_since_last_flush <= CYCLES_PER_TICK,
            address < 128 && readable(address) ==> register_read(*final(self), address)
                == readback(address, value),
            address < 128 ==> forall|b: u8|
                readable(b) && b != address ==> #[trigger] register_read(*final(self), b)
                    == register_read(*old(self), b),
            address < 128 && old(self).cycles_since_last_flush <= CYCLES_PER_TICK
                ==> register_written(*old(self), *final(self), *old(mem), address, value)
                && *final(mem) == *old(mem),
            address < 128 ==> exists|flushed_state: Dsp|
                #[trigger] flushed(*old(self), *old(mem), flushed_state, *final(mem))
                    && register_written(flushed_state, *final(self), *final(mem), address, value),
    {
        if address >= 128 {
            return;
        }
        let ghost start = *self;
        self.flush(mem);
        let ghost mid = *self;
        proof {
            lemma_same_registers_read(*self, start);
        }
        self.write_register(mem, address, value);
        assert(flushed(start, *old(mem), mid, *mem) && register_written(mid, *self, *mem, address, value));
    }

    /// Reads a register, after synthesizing up to the current cycle count.
    #[verifier::rlimit(50)]
    /// Addresses with the high bit set are not decoded: they read the register
    /// below them, and synthesize nothing.
    pub fn get_register(&mut self, mem: &mut Memory, address: u8) -> (r: u8)
        requires
            old(self).wf(),
            old(mem).wf(),
            address < 128 ==> pending_ticks(old(self).cycles_since_last_flush as int) <= BUFFER_LEN
                - old(self).output_buffer@.len(),
        ensures
            final(self).wf(),
            final(mem).wf(),
            r == register_read(*final(self), address),
            readable(address % 128) ==> r == register_read(*old(self), address),
            same_registers(*final(self), *old(self)),
            address >= 128 ==> *final(self) == *old(self) && *final(mem) == *old(mem),
            address < 128 ==> final(self).cycles_since_last_flush <= CYCLES_PER_TICK && flushed(
                *old(self),
                *old(mem),
                *final(self),
                *final(mem),
            ),
            old(self).cycles_since_last_flush <= CYCLES_PER_TICK ==> *final(self) == *old(self)
                && *final(mem) == *old(mem),
    {
        if address >= 128 {
            proof {
                lemma_read_ignores_high_bit(*self, address);
            }
            return self.read_register(address);
        }
        let ghost start = *self;
        self.flush(mem);
        proof {
            lemma_same_registers_read(*self, start);
            lemma_read_ignores_high_bit(*self, address);
            lemma_read_ignores_high_bit(start, address);
        }
        self.read_register(address)
    }

    /// Primes the chip from a 128-byte register snapshot: every register but
    /// key-on and key-off is written as it stands, and key-on comes last.
    #[verifier::rlimit(50)]
    pub fn set_state(&mut self, mem: &mut Memory, regs: &[u8])
        requires
            old(self).wf(),
            old(mem).wf(),
            regs@.len() == 128,
            pending_ticks(old(self).cycles_since_last_flush as int) <= BUFFER_LEN - old(
                self,
            ).output_buffer@.len(),
        ensures
            final(self).wf(),
            final(mem).wf(),
            final(self).cycles_since_last_flush <= CYCLES_PER_TICK,
            forall|a: u8|
                readable(a) && a != 0x5c ==> #[trigger] register_read(*final(self), a) == readback(
                    a,
                    regs@[a as int],
                ),
            final(self).koff_cache == old(self).koff_cache,
            final(self).voices@.len() == 8,
            forall|i: int|
                0 <= i < 8 && bit(regs@[0x4c], i as u8) ==> {
                    let v = #[trigger] final(self).voices@[i];
                    &&& v.envelope.mode == EnvelopeMode::Attack
                    &&& v.envelope.level == 0
                    &&& v.source == regs@[16 * i + 4]
                    &&& v.sample_start_address == dir_entry(
                        *final(mem),
                        regs@[0x5d],
                        regs@[16 * i + 4],
                        0,
                    )
                    &&& v.loop_start_address == dir_entry(
                        *final(mem),
                        regs@[0x5d],
                        regs@[16 * i + 4],
                        2,
                    )
                },
    {
        let ghost start = *self;
        let mut i: usize = 0;
        while i < 128
            invariant
                i <= 128,
                self.wf(),
                mem.wf(),
                regs@.len() == 128,
                i > 0 ==> self.cycles_since_last_flush <= CYCLES_PER_TICK,
                i == 0 ==> pending_ticks(self.cycles_since_last_flush as int) <= BUFFER_LEN
                    - self.output_buffer@.len(),
                forall|a: u8|
                    readable(a) && a < i && a != 0x4c && a != 0x5c ==> #[trigger] register_read(
                        *self,
                        a,
                    ) == readback(a, regs@[a as int]),
                self.koff_cache == start.koff_cache,
            decreases 128 - i,
        {
            if i != 0x4c && i != 0x5c {
                self.set_register(mem, i as u8, regs[i]);
                assert(register_read(*self, 0x5c) == self.koff_cache);
            }
            i = i + 1;
        }
        let ghost pre = *self;
        let ghost pre_mem = *mem;
        proof {
            assert(register_read(pre, 0x5d) == regs@[0x5d]);
            assert(pre.source_dir == regs@[0x5d]);
            assert forall|k: int| 0 <= k < 8 implies (#[trigger] pre.voices@[k]).source == regs@[16 * k + 4] by {
                let a = (16 * k + 4) as u8;
                assert(readable(a));
                assert(register_read(pre, a) == readback(a, regs@[a as int]));
            }
        }
        self.set_register(mem, 0x4c, regs[0x4c]);
        proof {
            assert(register_read(*self, 0x5c) == self.koff_cache);
            assert forall|k: int| 0 <= k < 8 && bit(regs@[0x4c], k as u8) implies {
                let v = #[trigger] self.voices@[k];
                &&& v.envelope.mode == EnvelopeMode::Attack
                &&& v.envelope.level == 0
                &&& v.source == regs@[16 * k + 4]
                &&& v.sample_start_address == dir_entry(*mem, regs@[0x5d], regs@[16 * k + 4], 0)
                &&& v.loop_start_address == dir_entry(*mem, regs@[0x5d], regs@[16 * k + 4], 2)
            } by {
                assert(keyed_on(pre.voices@[k], self.voices@[k], pre_mem, pre.source_dir));
                assert(pre.voices@[k].source == regs@[16 * k + 4]);
            }
        }
    }
}

} // verus!