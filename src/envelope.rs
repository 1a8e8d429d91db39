//! The per-voice envelope generator: ADSR phases or one of the GAIN modes,
//! producing a level in `0..=2047` each tick.

use vstd::prelude::*;
use crate::helpers::floor_div;
use crate::timing::{counter_fires, fires, COUNTER_RANGE};

verus! {

/// The highest envelope level.
pub const MAX_LEVEL: i32 = 0x7ff;

#[derive(Clone, Copy, PartialEq, Eq, Structural, Debug)]
pub enum EnvelopeMode {
    Attack,
    Decay,
    Sustain,
    Release,
}

#[derive(Clone, Copy, Debug)]
pub struct Envelope {
    pub adsr0: u8,
    pub adsr1: u8,
    pub gain: u8,
    pub mode: EnvelopeMode,
    pub level: i32,
    pub hidden_level: i32,
}

/// Bit 7 of ADSR1 selects the ADSR phases; without it the GAIN byte rules.
pub open spec fn adsr_enabled(adsr0: u8) -> bool {
    adsr0 >= 128
}

/// One exponential step down: the level less one and less a 256th of that.
pub open spec fn exp_decrease(env: int) -> int {
    (env - 1) - (env - 1) / 256
}

/// The rate of the current phase and the level it moves to when that rate fires.
pub open spec fn step_target(e: Envelope) -> (int, u8) {
    let env = e.level as int;
    if adsr_enabled(e.adsr0) {
        if e.mode == EnvelopeMode::Attack {
            let rate = ((e.adsr0 % 16) * 2 + 1) as u8;
            (env + if rate < 31 { 0x20int } else { 0x400int }, rate)
        } else if e.mode == EnvelopeMode::Decay {
            (exp_decrease(env), (((e.adsr0 / 16) % 8) * 2 + 16) as u8)
        } else {
            (exp_decrease(env), (e.adsr1 % 32) as u8)
        }
    } else {
        let m = e.gain / 32;
        let rate = (e.gain % 32) as u8;
        if m < 4 {
            (e.gain * 16, 31u8)
        } else if m == 4 {
            (env - 0x20, rate)
        } else if m == 5 {
            (exp_decrease(env), rate)
        } else if m == 7 && (e.hidden_level < 0 || e.hidden_level >= 0x600) {
            (env + 0x8, rate)
        } else {
            (env + 0x20, rate)
        }
    }
}

/// The envelope after one tick at the given counter value.
pub open spec fn tick_spec(e: Envelope, counter: int) -> Envelope {
    if e.mode == EnvelopeMode::Release {
        Envelope { level: if e.level >= 8 { (e.level - 8) as i32 } else { 0 }, ..e }
    } else {
        let (env, rate) = step_target(e);
        let data = if adsr_enabled(e.adsr0) { e.adsr1 } else { e.gain };
        let mode1 = if env / 256 == data / 32 && e.mode == EnvelopeMode::Decay {
            EnvelopeMode::Sustain
        } else {
            e.mode
        };
        let out_of_range = env < 0 || env > 0x7ff;
        let env2: int = if env < 0 { 0 } else if env > 0x7ff { 0x7ff } else { env };
        let mode2 = if out_of_range && mode1 == EnvelopeMode::Attack {
            EnvelopeMode::Decay
        } else {
            mode1
        };
        Envelope {
            mode: mode2,
            hidden_level: env as i32,
            level: if counter_fires(counter, rate) { env2 as i32 } else { e.level },
            ..e
        }
    }
}

/// The envelope after a tick at each of the given counter values, in order.
pub open spec fn tick_run(e: Envelope, counters: Seq<int>) -> Envelope
    decreases counters.len(),
{
    if counters.len() == 0 {
        e
    } else {
        tick_run(tick_spec(e, counters[0]), counters.drop_first())
    }
}

impl Envelope {
    pub open spec fn wf(&self) -> bool {
        &&& 0 <= self.level <= MAX_LEVEL
        &&& -64 <= self.hidden_level <= 4096
    }

    pub fn new() -> (r: Envelope)
        ensures
            r.wf(),
            r.mode == EnvelopeMode::Release,
            r.level == 0,
            r.adsr0 == 0 && r.adsr1 == 0 && r.gain == 0,
    {
        Envelope {
            adsr0: 0,
            adsr1: 0,
            gain: 0,
            mode: EnvelopeMode::Release,
            level: 0,
            hidden_level: 0,
        }
    }

    /// Starts the attack phase from silence.
    pub fn key_on(&mut self)
        ensures
            final(self).wf(),
            final(self).mode == EnvelopeMode::Attack,
            final(self).level == 0,
            final(self).hidden_level == 0,
            final(self).adsr0 == old(self).adsr0,
            final(self).adsr1 == old(self).adsr1,
            final(self).gain == old(self).gain,
    {
        self.mode = EnvelopeMode::Attack;
        self.level = 0;
        self.hidden_level = 0;
    }

    /// Moves to the release phase, keeping the level.
    pub fn key_off(&mut self)
        ensures
            *final(self) == (Envelope { mode: EnvelopeMode::Release, ..*old(self) }),
    {
        self.mode = EnvelopeMode::Release;
    }

    /// Silences the envelope at once, as at the end of a sample that does not loop.
    pub fn cut(&mut self)
        ensures
            *final(self) == (Envelope { mode: EnvelopeMode::Release, level: 0, ..*old(self) }),
    {
        self.mode = EnvelopeMode::Release;
        self.level = 0;
    }

    /// Advances the envelope by one tick of the chip's counter.
    pub fn tick(&mut self, counter: i32)
        requires
            old(self).wf(),
            0 <= counter < COUNTER_RANGE,
        ensures
            final(self).wf(),
            *final(self) == tick_spec(*old(self), counter as int),
    {
        if self.mode == EnvelopeMode::Release {
            self.level = if self.level >= 8 { self.level - 8 } else { 0 };
            return;
        }
        let env: i32 = self.level;
        let mut rate: u8;
        let mut next: i32;
        if self.adsr0 >= 128 {
            if self.mode == EnvelopeMode::Attack {
                rate = (self.adsr0 % 16) * 2 + 1;
                next = env + if rate < 31 { 0x20 } else { 0x400 };
            } else {
                next = (env - 1) - floor_div((env - 1) as i64, 256) as i32;
                if self.mode == EnvelopeMode::Decay {
                    rate = ((self.adsr0 / 16) % 8) * 2 + 16;
                } else {
                    rate = self.adsr1 % 32;
                }
            }
        } else {
            let m = self.gain / 32;
            rate = self.gain % 32;
            if m < 4 {
                next = self.gain as i32 * 16;
                rate = 31;
            } else if m == 4 {
                next = env - 0x20;
            } else if m == 5 {
                next = (env - 1) - floor_div((env - 1) as i64, 256) as i32;
            } else if m == 7 && (self.hidden_level < 0 || self.hidden_level >= 0x600) {
                next = env + 0x8;
            } else {
                next = env + 0x20;
            }
        }
        proof {
            crate::helpers::lemma_div_bounds(env - 1, -1, 2046, 256);
        }
        let data = if self.adsr0 >= 128 { self.adsr1 } else { self.gain };
        if floor_div(next as i64, 256) == (data / 32) as i64 && self.mode == EnvelopeMode::Decay {
            self.mode = EnvelopeMode::Sustain;
        }
        self.hidden_level = next;
        let out_of_range = next < 0 || next > 0x7ff;
        let clamped = if next < 0 { 0 } else if next > 0x7ff { 0x7ff } else { next };
        if out_of_range && self.mode == EnvelopeMode::Attack {
            self.mode = EnvelopeMode::Decay;
        }
        if fires(counter, rate) {
            self.level = clamped;
        }
    }
}

/// Whatever the configuration bytes and however many ticks pass, the level stays
/// within `0..=2047`.
pub proof fn lemma_level_in_range(e: Envelope, counters: Seq<int>)
    requires
        e.wf(),
    ensures
        tick_run(e, counters).wf(),
        0 <= tick_run(e, counters).level <= 2047,
    decreases counters.len(),
{
    if counters.len() > 0 {
        lemma_tick_keeps_wf(e, counters[0]);
        lemma_level_in_range(tick_spec(e, counters[0]), counters.drop_first());
    }
}

/// One tick keeps the envelope well formed.
pub proof fn lemma_tick_keeps_wf(e: Envelope, counter: int)
    requires
        e.wf(),
    ensures
        tick_spec(e, counter).wf(),
{
    crate::helpers::lemma_div_bounds(e.level - 1, -1, 2046, 256);
}

} // verus!
