use spc_presenter::brr::BrrBlockDecoder;
use spc_presenter::envelope::{Envelope, EnvelopeMode};
use spc_presenter::filter::Filter;
use spc_presenter::helpers::{clamp16, clear_low_bit, floor_div, mix, multiply_volume, wrap16, wrap17};
use spc_presenter::memory::Memory;
use spc_presenter::pitch::{decode_source, fallback_period_blocks};
use spc_presenter::ring_buffer::{RingBuffer, BUFFER_LEN};
use spc_presenter::timing::fires;
use spc_presenter::voice::{amplitude_of, read_block, ResamplingMode, Voice};

#[test]
fn fixed_width_helpers() {
    assert_eq!(floor_div(-1, 2), -1);
    assert_eq!(floor_div(-3, 2), -2);
    assert_eq!(floor_div(7, 2), 3);
    assert_eq!(clamp16(40000), 32767);
    assert_eq!(clamp16(-40000), -32768);
    assert_eq!(clamp16(123), 123);
    assert_eq!(wrap16(0x8000), -32768);
    assert_eq!(wrap16(0x1_0005), 5);
    assert_eq!(wrap17(0x1_0000), -0x1_0000);
    assert_eq!(wrap17(0xffff), 0xffff);
    assert_eq!(multiply_volume(-32768, 0x80), 32768);
    assert_eq!(multiply_volume(1000, 0x7f), 992);
    assert_eq!(multiply_volume(-1, 0x40), -1);
    assert_eq!(clear_low_bit(-3), -4);
    assert_eq!(clear_low_bit(5), 4);
}

#[test]
fn mixer_saturates_each_step() {
    let mut acc = 0;
    for _ in 0..8 {
        acc = mix(acc, 0x8000);
    }
    assert_eq!(acc, 32767);
    let mut acc = 0;
    for _ in 0..8 {
        acc = mix(acc, -0x8000);
    }
    assert_eq!(acc, -32768);
    assert_eq!(mix(30000, 10000), 32767);
    assert_eq!(mix(-100, 50), -50);
}

#[test]
fn brr_block_with_shift_and_filter() {
    let mut d = BrrBlockDecoder::new();
    d.reset(0, 0);
    assert!(d.is_finished());
    d.read(&[0x44, 0x11, 0x11, 0x11, 0x11, 0x11, 0x11, 0x11, 0x11]);
    assert!(!d.is_finished());
    assert!(!d.is_end);
    assert!(!d.is_looping);
    assert_eq!(d.read_next_sample(), 16);
    assert_eq!(d.read_next_sample(), 30);
    assert_eq!(d.read_next_sample(), 44);
}

#[test]
fn brr_block_flags_and_extremes() {
    let mut d = BrrBlockDecoder::new();
    d.reset(0, 0);
    d.read(&[0xc3, 0x78, 0x00, 0x00, 0x00, 0x00, 0x00, 0x00, 0x00]);
    assert!(d.is_end);
    assert!(d.is_looping);
    assert_eq!(d.read_next_sample(), 28672);
    assert_eq!(d.read_next_sample(), -32768);
    let mut rest = 0;
    while !d.is_finished() {
        d.read_next_sample();
        rest += 1;
    }
    assert_eq!(rest, 14);
    d.read(&[0xd0, 0x80, 0x70, 0, 0, 0, 0, 0, 0]);
    assert!(!d.is_end);
    assert_eq!(d.read_next_sample(), -4096);
    assert_eq!(d.read_next_sample(), 0);
}

#[test]
fn envelope_attack_then_decay() {
    let mut e = Envelope::new();
    e.adsr0 = 0x8f;
    e.adsr1 = 0xe0;
    e.key_on();
    e.tick(0);
    assert_eq!(e.level, 1024);
    assert_eq!(e.mode, EnvelopeMode::Attack);
    e.tick(1);
    assert_eq!(e.level, 2047);
    assert_eq!(e.mode, EnvelopeMode::Decay);
    e.key_off();
    e.tick(2);
    assert_eq!(e.level, 2039);
    assert_eq!(e.mode, EnvelopeMode::Release);
}

#[test]
fn envelope_direct_gain_and_release_floor() {
    let mut e = Envelope::new();
    e.gain = 0x40;
    e.key_on();
    e.tick(0);
    assert_eq!(e.level, 1024);
    e.key_off();
    for c in 0..200 {
        e.tick(c);
    }
    assert_eq!(e.level, 0);
}

#[test]
fn envelope_level_stays_in_range_under_any_configuration() {
    let mut seed: u32 = 12345;
    for _ in 0..200 {
        let mut e = Envelope::new();
        seed = seed.wrapping_mul(1103515245).wrapping_add(12345);
        e.adsr0 = (seed >> 8) as u8;
        e.adsr1 = (seed >> 16) as u8;
        e.gain = (seed >> 24) as u8;
        e.key_on();
        for c in 0..3000 {
            if c == 1500 {
                e.key_off();
            }
            e.tick(c % 30720);
            assert!(e.level >= 0 && e.level <= 2047);
        }
    }
}

#[test]
fn filter_identity_tap() {
    let mut f = Filter::new();
    f.set_coefficient(7, 0x40);
    assert_eq!(f.next(1000), 1000);
    assert_eq!(f.next(-2000), -2000);
    let mut g = Filter::new();
    g.set_coefficient(0, 0x7f);
    assert_eq!(g.next(1000), 0);
    for _ in 0..7 {
        g.next(0);
    }
    assert_eq!(g.history[0], 1000);
}

#[test]
fn filter_oldest_tap_weights_first_input() {
    let mut g = Filter::new();
    g.set_coefficient(0, 0x40);
    g.next(1234);
    let mut last = 0;
    for _ in 0..7 {
        last = g.next(0);
    }
    assert_eq!(last, 1234);
}

#[test]
fn filter_saturates() {
    let mut f = Filter::new();
    for i in 0..8 {
        f.set_coefficient(i, 0x7f);
    }
    let mut out = 0;
    for _ in 0..8 {
        out = f.next(32767);
    }
    assert!(out == 32767 || out == -32768);
}

#[test]
fn ring_buffer_keeps_order() {
    let mut rb = RingBuffer::new();
    assert_eq!(rb.read_sample(), None);
    rb.write_sample(1, 2);
    rb.write_sample(3, 4);
    assert_eq!(rb.get_sample_count(), 2);
    assert_eq!(rb.free_space(), BUFFER_LEN - 2);
    assert_eq!(rb.read_sample(), Some((1, 2)));
    assert_eq!(rb.read_sample(), Some((3, 4)));
    assert_eq!(rb.read_sample(), None);
}

#[test]
fn ring_buffer_wraps_at_capacity() {
    let mut rb = RingBuffer::new();
    for i in 0..BUFFER_LEN {
        rb.write_sample(i as i16, 0);
    }
    assert_eq!(rb.free_space(), 0);
    assert_eq!(rb.read_sample(), Some((0, 0)));
    rb.write_sample(-1, -1);
    for _ in 1..BUFFER_LEN {
        rb.read_sample();
    }
    assert_eq!(rb.read_sample(), Some((-1, -1)));
    assert_eq!(rb.get_sample_count(), 0);
}

#[test]
fn memory_wraps_addresses() {
    let mut mem = Memory::new();
    mem.write_u8(0x1_0010, 7);
    assert_eq!(mem.read_u8(0x10), 7);
    assert!(Memory::from_bytes(vec![0u8; 10]).is_none());
    assert!(Memory::from_bytes(vec![0u8; 0x10000]).is_some());
    mem.write_u8(0xffff, 9);
    let block = read_block(&mem, 0xfffc);
    assert_eq!(block[3], 9);
    assert_eq!(block[8], 0);
}

#[test]
fn rate_counter_table() {
    assert!(!fires(0, 0));
    assert!(fires(0, 31));
    assert!(fires(1, 31));
    assert!(fires(0, 1));
    assert!(!fires(1, 1));
    assert!(fires(2048, 1));
    assert!(fires(496, 2));
}

#[test]
fn voice_pitch_and_interpolation() {
    let mut v = Voice::new(ResamplingMode::Linear);
    v.pitch_low = 0x34;
    v.set_pitch_high(0xd2);
    assert_eq!(v.pitch(), 0x1234);
    v.history = vec![0, 100, 200, 300];
    v.sample_pos = 0x800;
    assert_eq!(v.interpolate(), 150);
    v.resampling_mode = ResamplingMode::Gaussian;
    v.sample_pos = 0;
    assert_eq!(v.interpolate(), 98);
    v.resampling_mode = ResamplingMode::Cubic;
    assert_eq!(v.interpolate(), 100);
    assert!(!v.edge_detected());
    v.key_off();
    assert_eq!(v.get_sample_frame(), 0);
}

#[test]
fn source_decode_follows_loop_until_cap() {
    let mut mem = Memory::new();
    mem.write_u8(0x0300, 0xc0);
    mem.write_u8(0x0309, 0xc3);
    let w = decode_source(&mem, 0x0300, 0x0300);
    assert_eq!(w.samples.len(), 320000);
    assert_eq!(w.start_block_count, 2);
    assert_eq!(w.loop_block_count, 2);
}

#[test]
fn source_decode_stops_at_plain_end() {
    let mut mem = Memory::new();
    mem.write_u8(0x0300, 0xc0);
    mem.write_u8(0x0301, 0x70);
    mem.write_u8(0x0309, 0xc1);
    let w = decode_source(&mem, 0x0300, 0x0300);
    assert_eq!(w.samples.len(), 32);
    assert_eq!(w.samples[0], 28672);
    assert_eq!(w.start_block_count, 2);
    assert_eq!(w.loop_block_count, 0);
}

#[test]
fn fallback_period() {
    assert_eq!(fallback_period_blocks(40, 0), 10);
    assert_eq!(fallback_period_blocks(0, 0), 1);
    assert_eq!(fallback_period_blocks(3, 5), 5);
    assert_eq!(fallback_period_blocks(3, 33), 16);
}

#[test]
fn voice_amplitude_choice() {
    assert_eq!(amplitude_of(0x7f, 0x7f, 100, 200), 150);
    assert_eq!(amplitude_of(0x80, 0x7f, 100, 300), 100);
    assert_eq!(amplitude_of(0x7f, 0x80, 100, 300), -100);
    assert_eq!(amplitude_of(0, 0, -3, 0), -1);
    assert_eq!(amplitude_of(0x7f, 0x7f, 0x8000, 0x8000), -32768);
}
