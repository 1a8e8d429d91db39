//! One of the chip's eight voices: BRR decoding, pitch-driven resampling,
//! the envelope, and its stereo contribution to the mix.

use vstd::prelude::*;
use crate::brr::{decode_block, header_loops, BrrBlockDecoder, BRR_BLOCK_LEN};
use crate::envelope::{tick_spec, Envelope, EnvelopeMode};
use crate::gauss::GAUSS_TABLE;
use crate::helpers::{
    clamp16, clamp16_spec, clear_low_bit, even_floor, floor_div, in_i16, lemma_div_bounds,
    multiply_volume, scale_volume, wrap16, wrap16_spec,
};
use crate::memory::Memory;
use crate::timing::COUNTER_RANGE;

verus! {

/// How a voice interpolates between decoded samples.
#[derive(Clone, Copy, PartialEq, Eq, Structural, Debug)]
pub enum ResamplingMode {
    /// The chip's own four-tap Gaussian kernel.
    Gaussian,
    /// Straight lines between neighbouring samples.
    Linear,
    /// A cubic Hermite curve through four samples.
    Cubic,
}

/// What a voice hands to the mixer each tick.
#[derive(Clone, Copy, PartialEq, Eq, Structural, Debug)]
pub struct VoiceOutput {
    pub left_out: i32,
    pub right_out: i32,
    /// The enveloped sample before volume, which modulates the next voice's pitch.
    pub last_voice_out: i32,
}

/// One step of resampling: a decoded sample position is 0x1000 units long.
pub const PHASE_ONE: i32 = 0x1000;

/// The highest pitch value.
pub const MAX_PITCH: i32 = 0x3fff;

pub open spec fn gauss(i: int) -> int {
    GAUSS_TABLE@[i] as int
}

/// The chip's Gaussian interpolation of four samples (oldest first) at a phase.
pub open spec fn gaussian_spec(h: Seq<i32>, phase: int) -> int {
    let offset = (phase / 16) % 256;
    let head = (gauss(255 - offset) * h[0]) / 2048 + (gauss(511 - offset) * h[1]) / 2048 + (gauss(
        256 + offset,
    ) * h[2]) / 2048;
    even_floor(clamp16_spec(wrap16_spec(head) + (gauss(offset) * h[3]) / 2048))
}

/// Linear interpolation between the second and third samples at a phase.
pub open spec fn linear_spec(h: Seq<i32>, phase: int) -> int {
    h[1] + ((h[2] - h[1]) * phase) / 4096
}

/// Cubic Hermite interpolation between the second and third samples at a phase.
pub open spec fn cubic_spec(h: Seq<i32>, phase: int) -> int {
    let a = -h[0] + 3 * h[1] - 3 * h[2] + h[3];
    let b = 2 * h[0] - 5 * h[1] + 4 * h[2] - h[3];
    let c = h[2] - h[0];
    let d = 2 * h[1];
    let x = (a * phase) / 4096 + b;
    let y = (x * phase) / 4096 + c;
    clamp16_spec(((y * phase) / 4096 + d) / 2)
}

pub open spec fn interpolate_spec(mode: ResamplingMode, h: Seq<i32>, phase: int) -> int {
    match mode {
        ResamplingMode::Gaussian => gaussian_spec(h, phase),
        ResamplingMode::Linear => linear_spec(h, phase),
        ResamplingMode::Cubic => cubic_spec(h, phase),
    }
}

/// The 14-bit pitch held in the two pitch registers.
pub open spec fn pitch_of(low: u8, high: u8) -> int {
    (high as int % 64) * 256 + low as int
}

/// The pitch after modulation by the previous voice's output, kept to 14 bits.
pub open spec fn modulated_pitch(pitch: int, prev: int) -> int {
    let p = pitch + ((prev / 32) * pitch) / 1024;
    if p < 0 {
        0
    } else if p > 0x3fff {
        0x3fff
    } else {
        p
    }
}

/// The 16-bit noise sample that the generator's 15-bit word stands for.
pub open spec fn noise_sample(noise: int) -> int {
    wrap16_spec(noise * 2)
}

/// The sample a voice produces before volume: the noise or the interpolated
/// waveform, times the envelope level, shifted right by 11, low bit cleared.
pub open spec fn enveloped(raw: int, level: int) -> int {
    even_floor((raw * level) / 2048)
}

/// Whether a voice can be heard: not muted, and soloed when any voice is.
pub open spec fn audible(muted: bool, soloed: bool, any_soloed: bool) -> bool {
    !muted && (!any_soloed || soloed)
}

/// What one tick of rendering makes of a voice, given the counter, the previous
/// voice's output, the noise word and whether any voice is soloed: the output
/// it records is the enveloped sample (noise or interpolated waveform) and its
/// two volume-scaled sides, silenced unless audible; its registers stay; its
/// envelope takes one tick, or is cut at the end of a sample that does not loop.
pub open spec fn rendered(
    before: Voice,
    after: Voice,
    counter: int,
    prev: int,
    noise: int,
    any_solod: bool,
) -> bool {
    let raw = if before.noise_on {
        noise_sample(noise)
    } else {
        interpolate_spec(before.resampling_mode, before.history@, before.sample_pos as int)
    };
    let s = enveloped(raw, before.envelope.level as int);
    let heard = audible(before.is_muted, before.is_solod, any_solod);
    let r = after.last_output;
    &&& after.wf()
    &&& after.same_registers(&before)
    &&& r.last_voice_out == s
    &&& r.left_out == (if heard { scale_volume(s, before.vol_left) } else { 0 })
    &&& r.right_out == (if heard { scale_volume(s, before.vol_right) } else { 0 })
    &&& in_i16(r.last_voice_out as int)
    &&& -0x8000 <= r.left_out <= 0x8000
    &&& -0x8000 <= r.right_out <= 0x8000
    &&& (after.envelope == tick_spec(before.envelope, counter) || after.envelope == (Envelope {
        mode: EnvelopeMode::Release,
        level: 0,
        ..tick_spec(before.envelope, counter)
    }))
}

pub struct Voice {
    pub envelope: Envelope,
    pub vol_left: u8,
    pub vol_right: u8,
    pub pitch_low: u8,
    pub pitch_high: u8,
    pub source: u8,
    pub pitch_mod: bool,
    pub noise_on: bool,
    pub echo_on: bool,
    pub is_muted: bool,
    pub is_solod: bool,
    pub resampling_mode: ResamplingMode,
    /// Where the current sample starts, from the source directory at key-on.
    pub sample_start_address: u32,
    /// Where the current sample loops to, from the source directory at key-on.
    pub loop_start_address: u32,
    /// The address of the next block to decode.
    pub sample_address: u32,
    pub brr_block_decoder: BrrBlockDecoder,
    /// The last four decoded samples, oldest first.
    pub history: Vec<i32>,
    /// The fractional resampling position, in 0x1000ths of a sample.
    pub sample_pos: i32,
    pub endx: bool,
    pub edge_hit: bool,
    pub outx_value: u8,
    pub last_output: VoiceOutput,
    /// The tick count of the latest key-on.
    pub kon_tick: u64,
}

/// Half of a value, rounded toward zero.
pub open spec fn half_toward_zero(x: int) -> int {
    if x >= 0 { x / 2 } else { -((-x) / 2) }
}

/// The amplitude a voice shows: the difference of its sides when their volumes
/// have opposite signs (right minus left when the left one is negative), else
/// their mean; halves round toward zero and the result wraps to 16 bits.
pub open spec fn amplitude_spec(vol_left: u8, vol_right: u8, left: int, right: int) -> int {
    let l = crate::helpers::signed_byte(vol_left);
    let r = crate::helpers::signed_byte(vol_right);
    let v = if l < 0 && r > 0 {
        right - left
    } else if l > 0 && r < 0 {
        left - right
    } else {
        left + right
    };
    wrap16_spec(half_toward_zero(v))
}

/// The amplitude a voice shows for its last output and volumes.
pub fn amplitude_of(vol_left: u8, vol_right: u8, left: i32, right: i32) -> (r: i16)
    requires
        -0x10000 <= left <= 0x10000,
        -0x10000 <= right <= 0x10000,
    ensures
        r == amplitude_spec(vol_left, vol_right, left as int, right as int),
{
    let l: i32 = if vol_left < 128 { vol_left as i32 } else { vol_left as i32 - 256 };
    let rv: i32 = if vol_right < 128 { vol_right as i32 } else { vol_right as i32 - 256 };
    let v: i64 = if l < 0 && rv > 0 {
        right as i64 - left as i64
    } else if l > 0 && rv < 0 {
        left as i64 - right as i64
    } else {
        left as i64 + right as i64
    };
    let h: i64 = if v >= 0 { v / 2 } else { -((-v) / 2) };
    wrap16(h) as i16
}

/// The nine bytes of the block at an address.
pub open spec fn block_at(mem: Memory, address: int) -> Seq<u8> {
    Seq::new(9, |i: int| mem.byte(address + i))
}

/// Reads the nine bytes of a block.
pub fn read_block(mem: &Memory, address: u32) -> (r: Vec<u8>)
    requires
        mem.wf(),
        address < 0x10000,
    ensures
        r@ == block_at(*mem, address as int),
{
    let mut r: Vec<u8> = Vec::new();
    let mut i: u32 = 0;
    while i < 9
        invariant
            mem.wf(),
            address < 0x10000,
            i <= 9,
            r@.len() == i,
            forall|j: int| 0 <= j < i ==> r@[j] == mem.byte(address + j),
        decreases 9 - i,
    {
        r.push(mem.read_u8(address + i));
        i = i + 1;
    }
    assert(r@ =~= block_at(*mem, address as int));
    r
}

impl Voice {
    pub open spec fn wf(&self) -> bool {
        &&& self.envelope.wf()
        &&& self.brr_block_decoder.wf()
        &&& self.history@.len() == 4
        &&& forall|i: int| 0 <= i < 4 ==> #[trigger] in_i16(self.history@[i] as int)
        &&& 0 <= self.sample_pos < PHASE_ONE
        &&& self.pitch_high < 64
        &&& self.sample_address < 0x10000
        &&& self.loop_start_address < 0x10000
        &&& self.sample_start_address < 0x10000
    }

    pub open spec fn pitch_spec(&self) -> int {
        pitch_of(self.pitch_low, self.pitch_high)
    }

    /// The part of a voice that a key-off leaves alone: everything but the
    /// envelope's phase.
    pub open spec fn same_but_envelope_mode(&self, other: &Voice) -> bool {
        &&& self.vol_left == other.vol_left
        &&& self.vol_right == other.vol_right
        &&& self.pitch_low == other.pitch_low
        &&& self.pitch_high == other.pitch_high
        &&& self.source == other.source
        &&& self.pitch_mod == other.pitch_mod
        &&& self.noise_on == other.noise_on
        &&& self.echo_on == other.echo_on
        &&& self.is_muted == other.is_muted
        &&& self.is_solod == other.is_solod
        &&& self.resampling_mode == other.resampling_mode
        &&& self.sample_start_address == other.sample_start_address
        &&& self.loop_start_address == other.loop_start_address
        &&& self.sample_address == other.sample_address
        &&& self.brr_block_decoder == other.brr_block_decoder
        &&& self.history == other.history
        &&& self.sample_pos == other.sample_pos
        &&& self.endx == other.endx
        &&& self.edge_hit == other.edge_hit
        &&& self.outx_value == other.outx_value
        &&& self.last_output == other.last_output
        &&& self.kon_tick == other.kon_tick
        &&& self.envelope.level == other.envelope.level
        &&& self.envelope.hidden_level == other.envelope.hidden_level
        &&& self.envelope.adsr0 == other.envelope.adsr0
        &&& self.envelope.adsr1 == other.envelope.adsr1
        &&& self.envelope.gain == other.envelope.gain
    }

    /// The registers a voice holds and that only register writes change.
    pub open spec fn same_registers(&self, other: &Voice) -> bool {
        &&& self.vol_left == other.vol_left
        &&& self.vol_right == other.vol_right
        &&& self.pitch_low == other.pitch_low
        &&& self.pitch_high == other.pitch_high
        &&& self.source == other.source
        &&& self.pitch_mod == other.pitch_mod
        &&& self.noise_on == other.noise_on
        &&& self.echo_on == other.echo_on
        &&& self.is_muted == other.is_muted
        &&& self.is_solod == other.is_solod
        &&& self.resampling_mode == other.resampling_mode
        &&& self.envelope.adsr0 == other.envelope.adsr0
        &&& self.envelope.adsr1 == other.envelope.adsr1
        &&& self.envelope.gain == other.envelope.gain
    }

    pub fn new(resampling_mode: ResamplingMode) -> (r: Voice)
        ensures
            r.wf(),
            r.resampling_mode == resampling_mode,
            r.envelope.level == 0,
            r.envelope.mode == EnvelopeMode::Release,
            !r.endx && !r.edge_hit,
            r.pitch_spec() == 0,
    {
        let r = Voice {
            envelope: Envelope::new(),
            vol_left: 0,
            vol_right: 0,
            pitch_low: 0,
            pitch_high: 0,
            source: 0,
            pitch_mod: false,
            noise_on: false,
            echo_on: false,
            is_muted: false,
            is_solod: false,
            resampling_mode,
            sample_start_address: 0,
            loop_start_address: 0,
            sample_address: 0,
            brr_block_decoder: BrrBlockDecoder::new(),
            history: vec![0i32; 4],
            sample_pos: 0,
            endx: false,
            edge_hit: false,
            outx_value: 0,
            last_output: VoiceOutput { left_out: 0, right_out: 0, last_voice_out: 0 },
            kon_tick: 0,
        };
        proof {
            assert(r.history@ =~= seq![0i32; 4]);
        }
        r
    }

    /// The 14-bit pitch.
    pub fn pitch(&self) -> (r: u32)
        requires
            self.wf(),
        ensures
            r == self.pitch_spec(),
            r <= 0x3fff,
    {
        (self.pitch_high as u32) * 256 + self.pitch_low as u32
    }

    /// Sets the pitch's high bits; only the low six bits of the byte count.
    pub fn set_pitch_high(&mut self, value: u8)
        requires
            old(self).wf(),
        ensures
            final(self).wf(),
            *final(self) == (Voice { pitch_high: value % 64, ..*old(self) }),
    {
        self.pitch_high = value % 64;
    }

    /// Starts the sample at `start` from its first block, with the envelope in
    /// its attack phase; `loop_address` is where the sample goes on after its end.
    #[verifier::rlimit(50)]
    pub fn key_on(&mut self, mem: &Memory, start: u32, loop_address: u32, tick: u64)
        requires
            old(self).wf(),
            mem.wf(),
            start < 0x10000,
            loop_address < 0x10000,
        ensures
            final(self).wf(),
            final(self).same_registers(old(self)),
            final(self).sample_start_address == start,
            final(self).loop_start_address == loop_address,
            final(self).brr_block_decoder.samples@ == decode_block(block_at(*mem, start as int), 0, 0),
            final(self).brr_block_decoder.sample_index == 0,
            final(self).sample_address == (start + 9) % 0x10000,
            final(self).sample_pos == 0,
            final(self).history@ == seq![0i32; 4],
            final(self).envelope.mode == EnvelopeMode::Attack,
            final(self).envelope.level == 0,
            !final(self).endx,
            final(self).edge_hit,
            final(self).kon_tick == tick,
    {
        self.sample_start_address = start;
        self.loop_start_address = loop_address;
        self.brr_block_decoder.reset(0, 0);
        let block = read_block(mem, start);
        self.brr_block_decoder.read(&block);
        self.sample_address = (start + 9) % 0x10000;
        self.sample_pos = 0;
        self.history = vec![0i32; 4];
        self.envelope.key_on();
        self.endx = false;
        self.edge_hit = true;
        self.kon_tick = tick;
        assert(self.history@ =~= seq![0i32; 4]);
    }

    /// Moves the envelope to its release phase; nothing else changes.
    pub fn key_off(&mut self)
        requires
            old(self).wf(),
        ensures
            final(self).wf(),
            final(self).envelope.mode == EnvelopeMode::Release,
            final(self).same_but_envelope_mode(old(self)),
    {
        self.envelope.key_off();
    }

    pub fn clear_endx_bit(&mut self)
        ensures
            *final(self) == (Voice { endx: false, ..*old(self) }),
    {
        self.endx = false;
    }

    pub fn get_endx_bit(&self) -> (r: bool)
        ensures
            r == self.endx,
    {
        self.endx
    }

    /// Reports and clears the edge flag that a key-on or a source change sets.
    pub fn edge_detected(&mut self) -> (r: bool)
        ensures
            r == old(self).edge_hit,
            *final(self) == (Voice { edge_hit: false, ..*old(self) }),
    {
        let r = self.edge_hit;
        self.edge_hit = false;
        r
    }

    /// The tick count of the latest key-on.
    pub fn get_sample_frame(&self) -> (r: u64)
        ensures
            r == self.kon_tick,
    {
        self.kon_tick
    }

    /// Decodes the next block. After a block that ends the sample, decoding goes
    /// on at the loop address and the end flag is raised; when that block did
    /// not ask to loop, the envelope is silenced as well.
    #[verifier::rlimit(50)]
    pub fn read_next_block(&mut self, mem: &Memory)
        requires
            old(self).wf(),
            mem.wf(),
        ensures
            final(self).wf(),
            final(self).same_registers(old(self)),
            final(self).history == old(self).history,
            final(self).sample_pos == old(self).sample_pos,
            final(self).last_output == old(self).last_output,
            final(self).sample_start_address == old(self).sample_start_address,
            final(self).loop_start_address == old(self).loop_start_address,
            ({
                let from = if old(self).brr_block_decoder.is_end {
                    old(self).loop_start_address
                } else {
                    old(self).sample_address
                };
                &&& final(self).brr_block_decoder.samples@ == decode_block(
                    block_at(*mem, from as int),
                    old(self).brr_block_decoder.last_sample as int,
                    old(self).brr_block_decoder.last_last_sample as int,
                )
                &&& final(self).sample_address == (from + 9) % 0x10000
            }),
            final(self).brr_block_decoder.sample_index == 0,
            final(self).endx == (old(self).endx || old(self).brr_block_decoder.is_end),
            old(self).brr_block_decoder.is_end && !old(self).brr_block_decoder.is_looping
                ==> final(self).envelope == (Envelope {
                    mode: EnvelopeMode::Release,
                    level: 0,
                    ..old(self).envelope
                }),
            !(old(self).brr_block_decoder.is_end && !old(self).brr_block_decoder.is_looping)
                ==> final(self).envelope == old(self).envelope,
    {
        if self.brr_block_decoder.is_end {
            self.endx = true;
            self.sample_address = self.loop_start_address;
            if !self.brr_block_decoder.is_looping {
                self.envelope.cut();
            }
        }
        let block = read_block(mem, self.sample_address);
        self.brr_block_decoder.read(&block);
        self.sample_address = (self.sample_address + 9) % 0x10000;
    }

    /// The next decoded sample, decoding a new block when the current one is used up.
    fn next_decoded_sample(&mut self, mem: &Memory) -> (r: i32)
        requires
            old(self).wf(),
            mem.wf(),
        ensures
            final(self).wf(),
            in_i16(r as int),
            final(self).same_registers(old(self)),
            final(self).history == old(self).history,
            final(self).sample_pos == old(self).sample_pos,
            final(self).last_output == old(self).last_output,
            final(self).envelope == old(self).envelope || final(self).envelope == (Envelope {
                mode: EnvelopeMode::Release,
                level: 0,
                ..old(self).envelope
            }),
    {
        if self.brr_block_decoder.is_finished() {
            self.read_next_block(mem);
        }
        self.brr_block_decoder.read_next_sample()
    }

    /// Interpolates the four most recent samples at the current phase.
    pub fn interpolate(&self) -> (r: i32)
        requires
            self.wf(),
        ensures
            r == interpolate_spec(self.resampling_mode, self.history@, self.sample_pos as int),
            in_i16(r as int),
    {
        let h0 = self.history[0] as i64;
        let h1 = self.history[1] as i64;
        let h2 = self.history[2] as i64;
        let h3 = self.history[3] as i64;
        assert(in_i16(self.history@[0] as int) && in_i16(self.history@[1] as int));
        assert(in_i16(self.history@[2] as int) && in_i16(self.history@[3] as int));
        let phase = self.sample_pos as i64;
        match self.resampling_mode {
            ResamplingMode::Gaussian => gaussian(h0, h1, h2, h3, self.sample_pos),
            ResamplingMode::Linear => {
                assert(-65535 * 4095 <= (h2 - h1) * phase <= 65535 * 4095) by (nonlinear_arith)
                    requires -65535 <= h2 - h1 <= 65535, 0 <= phase < 4096;
                let step = floor_div((h2 - h1) * phase, 4096);
                proof {
                    lemma_linear_between(h1 as int, h2 as int, phase as int);
                }
                (h1 + step) as i32
            },
            ResamplingMode::Cubic => cubic(h0, h1, h2, h3, phase),
        }
    }

    /// Renders one tick: the voice's output, then the envelope's tick and the
    /// resampling step, decoding blocks as the phase crosses sample boundaries.
    #[verifier::rlimit(50)]
    pub fn render_sample(
        &mut self,
        mem: &Memory,
        counter: i32,
        last_voice_out: i32,
        noise: i32,
        any_solod: bool,
    ) -> (r: VoiceOutput)
        requires
            old(self).wf(),
            mem.wf(),
            0 <= counter < COUNTER_RANGE,
            in_i16(last_voice_out as int),
            0 <= noise < 0x8000,
        ensures
            rendered(*old(self), *final(self), counter as int, last_voice_out as int, noise as int, any_solod),
            final(self).last_output == r,
    {
        let step = self.effective_pitch(last_voice_out);
        let raw: i32 = if self.noise_on { wrap16(noise as i64 * 2) } else { self.interpolate() };
        let sample = apply_envelope(raw, self.envelope.level);
        self.envelope.tick(counter);
        let high = floor_div(sample as i64, 256);
        proof {
            lemma_div_bounds(sample as int, -32768, 32767, 256);
        }
        self.outx_value = if high < 0 { (high + 256) as u8 } else { high as u8 };
        let heard = !self.is_muted && (!any_solod || self.is_solod);
        let left_out = if heard { multiply_volume(sample, self.vol_left) } else { 0 };
        let right_out = if heard { multiply_volume(sample, self.vol_right) } else { 0 };
        self.advance(mem, step);
        let out = VoiceOutput { left_out, right_out, last_voice_out: sample };
        self.last_output = out;
        out
    }

    /// The resampling step of this tick: the pitch, modulated by the previous
    /// voice's output where pitch modulation is on.
    fn effective_pitch(&self, last_voice_out: i32) -> (r: i32)
        requires
            self.wf(),
            in_i16(last_voice_out as int),
        ensures
            0 <= r <= MAX_PITCH,
            r == (if self.pitch_mod {
                modulated_pitch(self.pitch_spec(), last_voice_out as int)
            } else {
                self.pitch_spec()
            }),
    {
        let base = self.pitch() as i64;
        if self.pitch_mod {
            let m = floor_div(last_voice_out as i64, 32);
            proof {
                lemma_div_bounds(last_voice_out as int, -32768, 32767, 32);
            }
            assert(-1024 * 0x3fff <= m * base <= 1023 * 0x3fff) by (nonlinear_arith)
                requires -1024 <= m <= 1023, 0 <= base <= 0x3fff;
            let p = base + floor_div(m * base, 1024);
            if p < 0 {
                0
            } else if p > 0x3fff {
                0x3fff
            } else {
                p as i32
            }
        } else {
            base as i32
        }
    }

    /// Moves the resampling phase on by `step`, shifting in a decoded sample for
    /// each whole sample crossed.
    fn advance(&mut self, mem: &Memory, step: i32)
        requires
            old(self).wf(),
            mem.wf(),
            0 <= step <= 0x3fff,
        ensures
            final(self).wf(),
            final(self).same_registers(old(self)),
            final(self).last_output == old(self).last_output,
            final(self).envelope == old(self).envelope || final(self).envelope == (Envelope {
                mode: EnvelopeMode::Release,
                level: 0,
                ..old(self).envelope
            }),
    {
        let mut pos: i32 = self.sample_pos + step;
        let ghost start = *self;
        while pos >= PHASE_ONE
            invariant
                self.wf(),
                mem.wf(),
                0 <= pos < 0x5000,
                self.same_registers(&start),
                self.last_output == start.last_output,
                self.envelope == start.envelope || self.envelope == (Envelope {
                    mode: EnvelopeMode::Release,
                    level: 0,
                    ..start.envelope
                }),
            decreases pos,
        {
            let s = self.next_decoded_sample(mem);
            self.history.remove(0);
            self.history.push(s);
            pos = pos - PHASE_ONE;
        }
        self.sample_pos = pos;
    }
}

/// A sample times an envelope level, shifted right by 11, low bit cleared.
fn apply_envelope(raw: i32, level: i32) -> (r: i32)
    requires
        in_i16(raw as int),
        0 <= level <= 2047,
    ensures
        r == enveloped(raw as int, level as int),
        in_i16(r as int),
{
    let l = level as i64;
    assert(-32768 * 2047 <= raw * l <= 32767 * 2047) by (nonlinear_arith)
        requires -32768 <= raw <= 32767, 0 <= l <= 2047;
    let scaled = floor_div(raw as i64 * l, 2048);
    proof {
        lemma_div_bounds(raw * l, -67076096, 67074049, 2048);
    }
    clear_low_bit(scaled as i32)
}

/// A line between two samples stays between them.
proof fn lemma_linear_between(a: int, b: int, phase: int)
    requires
        in_i16(a),
        in_i16(b),
        0 <= phase < 4096,
    ensures
        in_i16(a + ((b - a) * phase) / 4096),
{
    if b >= a {
        assert(0 <= (b - a) * phase <= (b - a) * 4096) by (nonlinear_arith)
            requires b >= a, 0 <= phase < 4096;
        lemma_div_bounds((b - a) * phase, 0, (b - a) * 4096, 4096);
        vstd::arithmetic::div_mod::lemma_div_multiples_vanish(b - a, 4096);
    } else {
        assert((b - a) * 4096 <= (b - a) * phase <= 0) by (nonlinear_arith)
            requires b < a, 0 <= phase < 4096;
        lemma_div_bounds((b - a) * phase, (b - a) * 4096, 0, 4096);
        vstd::arithmetic::div_mod::lemma_div_multiples_vanish(b - a, 4096);
    }
}

/// The chip's Gaussian interpolation.
fn gaussian(h0: i64, h1: i64, h2: i64, h3: i64, phase: i32) -> (r: i32)
    requires
        in_i16(h0 as int),
        in_i16(h1 as int),
        in_i16(h2 as int),
        in_i16(h3 as int),
        0 <= phase < PHASE_ONE,
    ensures
        r == gaussian_spec(seq![h0 as i32, h1 as i32, h2 as i32, h3 as i32], phase as int),
        in_i16(r as int),
{
    let offset = ((phase / 16) % 256) as usize;
    let w0 = GAUSS_TABLE[255 - offset] as i64;
    let w1 = GAUSS_TABLE[511 - offset] as i64;
    let w2 = GAUSS_TABLE[256 + offset] as i64;
    let w3 = GAUSS_TABLE[offset] as i64;
    let t0 = gauss_tap(w0, h0);
    let t1 = gauss_tap(w1, h1);
    let t2 = gauss_tap(w2, h2);
    let t3 = gauss_tap(w3, h3);
    let head = wrap16(t0 + t1 + t2);
    let out = clamp16(head as i64 + t3);
    let r = clear_low_bit(out);
    proof {
        let h = seq![h0 as i32, h1 as i32, h2 as i32, h3 as i32];
        assert(h[0] == h0 && h[1] == h1 && h[2] == h2 && h[3] == h3);
    }
    r
}

fn gauss_tap(w: i64, s: i64) -> (r: i64)
    requires
        -32768 <= w <= 32767,
        in_i16(s as int),
    ensures
        r == (w * s) / 2048,
        -524288 <= r <= 524288,
{
    assert(-1073741824 <= w * s <= 1073741824) by (nonlinear_arith)
        requires -32768 <= w <= 32767, -32768 <= s <= 32767;
    proof {
        lemma_div_bounds(w * s, -1073741824, 1073741824, 2048);
    }
    floor_div(w * s, 2048)
}

/// Cubic Hermite interpolation.
fn cubic(h0: i64, h1: i64, h2: i64, h3: i64, phase: i64) -> (r: i32)
    requires
        in_i16(h0 as int),
        in_i16(h1 as int),
        in_i16(h2 as int),
        in_i16(h3 as int),
        0 <= phase < 4096,
    ensures
        r == cubic_spec(seq![h0 as i32, h1 as i32, h2 as i32, h3 as i32], phase as int),
        in_i16(r as int),
{
    let a = -h0 + 3 * h1 - 3 * h2 + h3;
    let b = 2 * h0 - 5 * h1 + 4 * h2 - h3;
    let c = h2 - h0;
    let d = 2 * h1;
    assert(-262144 * 4096 <= a * phase <= 262144 * 4096) by (nonlinear_arith)
        requires -262144 <= a <= 262144, 0 <= phase < 4096;
    let xa = floor_div(a * phase, 4096);
    proof {
        lemma_div_bounds(a * phase, -1073741824, 1073741824, 4096);
    }
    let x = xa + b;
    assert(-1048576 * 4096 <= x * phase <= 1048576 * 4096) by (nonlinear_arith)
        requires -1048576 <= x <= 1048576, 0 <= phase < 4096;
    let ya = floor_div(x * phase, 4096);
    proof {
        lemma_div_bounds(x * phase, -4294967296, 4294967296, 4096);
    }
    let y = ya + c;
    assert(-2097152 * 4096 <= y * phase <= 2097152 * 4096) by (nonlinear_arith)
        requires -2097152 <= y <= 2097152, 0 <= phase < 4096;
    let za = floor_div(y * phase, 4096);
    proof {
        lemma_div_bounds(y * phase, -8589934592, 8589934592, 4096);
    }
    let r = clamp16(floor_div(za + d, 2));
    proof {
        let h = seq![h0 as i32, h1 as i32, h2 as i32, h3 as i32];
        assert(h[0] == h0 && h[1] == h1 && h[2] == h2 && h[3] == h3);
    }
    r
}

/// A voice after a write of its register `r` (below 8).
pub open spec fn voice_written(v: Voice, r: u8, value: u8) -> Voice {
    if r == 0 {
        Voice { vol_left: value, ..v }
    } else if r == 1 {
        Voice { vol_right: value, ..v }
    } else if r == 2 {
        Voice { pitch_low: value, ..v }
    } else if r == 3 {
        Voice { pitch_high: value % 64, ..v }
    } else if r == 4 {
        Voice { source: value, edge_hit: true, ..v }
    } else if r == 5 {
        Voice { envelope: Envelope { adsr0: value, ..v.envelope }, ..v }
    } else if r == 6 {
        Voice { envelope: Envelope { adsr1: value, ..v.envelope }, ..v }
    } else {
        Voice { envelope: Envelope { gain: value, ..v.envelope }, ..v }
    }
}

impl Voice {
    /// Applies a write of the voice's register `reg` (below 8).
    pub fn write_register(&mut self, reg: u8, value: u8)
        requires
            old(self).wf(),
            reg < 8,
        ensures
            final(self).wf(),
            *final(self) == voice_written(*old(self), reg, value),
    {
        if reg == 0 {
            self.vol_left = value;
        } else if reg == 1 {
            self.vol_right = value;
        } else if reg == 2 {
            self.pitch_low = value;
        } else if reg == 3 {
            self.set_pitch_high(value);
        } else if reg == 4 {
            self.source = value;
            self.edge_hit = true;
        } else if reg == 5 {
            self.envelope.adsr0 = value;
        } else if reg == 6 {
            self.envelope.adsr1 = value;
        } else {
            self.envelope.gain = value;
        }
    }
}

} // verus!
