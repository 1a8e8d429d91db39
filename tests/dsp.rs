use spc_presenter::dsp::Dsp;
use spc_presenter::envelope::EnvelopeMode;
use spc_presenter::memory::Memory;
use spc_presenter::spc::Spc;

/// A memory image with a source directory at 0x0200 whose entry 0 starts and
/// loops at 0x0300, where one looping block of loud samples stands.
fn loud_memory() -> Memory {
    let mut mem = Memory::new();
    mem.write_u8(0x0200, 0x00);
    mem.write_u8(0x0201, 0x03);
    mem.write_u8(0x0202, 0x00);
    mem.write_u8(0x0203, 0x03);
    mem.write_u8(0x0300, 0xc3);
    for i in 1..9u32 {
        mem.write_u8(0x0300 + i, 0x77);
    }
    mem
}

/// A register snapshot: eight voices at full volume and pitch 0x1000 on source
/// 0 with direct gain 0x7f, master volume `master`, no echo, all keyed on.
fn loud_registers(voice_volume: u8, master: u8) -> Vec<u8> {
    let mut regs = vec![0u8; 128];
    for v in 0..8usize {
        regs[v * 16] = voice_volume;
        regs[v * 16 + 1] = voice_volume;
        regs[v * 16 + 2] = 0x00;
        regs[v * 16 + 3] = 0x10;
        regs[v * 16 + 7] = 0x7f;
    }
    regs[0x0c] = master;
    regs[0x1c] = master;
    regs[0x4c] = 0xff;
    regs[0x6c] = 0x20;
    regs[0x5d] = 0x02;
    regs[0x6d] = 0x60;
    regs
}

fn run_ticks(dsp: &mut Dsp, mem: &mut Memory, n: i32) {
    dsp.cycles_callback(64 * n + 1);
    dsp.flush(mem);
}

fn drain(dsp: &mut Dsp) -> Vec<(i16, i16)> {
    let mut out = Vec::new();
    while let Some(pair) = dsp.output_buffer.read_sample() {
        out.push(pair);
    }
    out
}

#[test]
fn golden_snapshot_renders_exact_pcm() {
    let mut mem = loud_memory();
    let mut dsp = Dsp::new();
    dsp.set_state(&mut mem, &loud_registers(0x7f, 0x7f));
    run_ticks(&mut dsp, &mut mem, 8);
    let out = drain(&mut dsp);
    let expected: Vec<(i16, i16)> = vec![
        (0, 0),
        (0, 0),
        (32511, 32511),
        (32511, 32511),
        (32511, 32511),
        (32511, 32511),
        (32511, 32511),
        (32511, 32511),
    ];
    assert_eq!(out, expected);
    let mut bytes: Vec<u8> = Vec::new();
    for (l, r) in &out {
        bytes.extend_from_slice(&l.to_le_bytes());
        bytes.extend_from_slice(&r.to_le_bytes());
    }
    assert_eq!(&bytes[8..12], &[0xff, 0x7e, 0xff, 0x7e]);
}

#[test]
fn eight_loud_voices_saturate_instead_of_wrapping() {
    let mut mem = loud_memory();
    let mut dsp = Dsp::new();
    dsp.set_state(&mut mem, &loud_registers(0x7f, 0x7f));
    run_ticks(&mut dsp, &mut mem, 6);
    let out = drain(&mut dsp);
    assert_eq!(out[5], (32511, 32511));

    let mut mem = loud_memory();
    let mut dsp = Dsp::new();
    dsp.set_state(&mut mem, &loud_registers(0x80, 0x7f));
    run_ticks(&mut dsp, &mut mem, 6);
    let out = drain(&mut dsp);
    assert_eq!(out[5], (-32512, -32512));
}

#[test]
fn register_round_trip() {
    let mut mem = Memory::new();
    let mut dsp = Dsp::new();
    let mut address: u8 = 0;
    while address < 0x80 {
        let reg = address % 16;
        let writable = reg < 8
            || reg == 15
            || (reg == 12 && address != 0x7c)
            || (reg == 13 && address != 0x1d);
        if writable && address != 0x4c && address != 0x5c {
            let value = address.wrapping_mul(7).wrapping_add(0x35);
            dsp.set_register(&mut mem, address, value);
            let expected = if reg == 3 {
                value & 0x3f
            } else if address == 0x7d {
                value & 0x0f
            } else {
                value
            };
            assert_eq!(dsp.get_register(&mut mem, address), expected, "address {:02x}", address);
        }
        address += 1;
    }
    dsp.set_register(&mut mem, 0x5c, 0x81);
    assert_eq!(dsp.get_register(&mut mem, 0x5c), 0x81);
    dsp.set_register(&mut mem, 0x4c, 0x00);
    assert_eq!(dsp.get_register(&mut mem, 0x4c), 0x00);
    dsp.set_register(&mut mem, 0x2d, 0xff);
    dsp.set_register(&mut mem, 0x3d, 0x01);
    dsp.set_register(&mut mem, 0x4d, 0x80);
    assert_eq!(dsp.get_register(&mut mem, 0x2d), 0xff);
    assert_eq!(dsp.get_register(&mut mem, 0x3d), 0x01);
    assert_eq!(dsp.get_register(&mut mem, 0x4d), 0x80);
}

#[test]
fn high_bit_writes_are_ignored_and_reads_mirror() {
    let mut mem = Memory::new();
    let mut dsp = Dsp::new();
    dsp.set_register(&mut mem, 0x0c, 0x11);
    dsp.set_register(&mut mem, 0x8c, 0x22);
    assert_eq!(dsp.get_register(&mut mem, 0x0c), 0x11);
    assert_eq!(dsp.get_register(&mut mem, 0x8c), 0x11);
}

#[test]
fn new_chip_defaults() {
    let mut mem = Memory::new();
    let mut dsp = Dsp::new();
    assert_eq!(dsp.get_register(&mut mem, 0x0c), 0x89);
    assert_eq!(dsp.get_register(&mut mem, 0x1c), 0x9c);
    assert_eq!(dsp.get_register(&mut mem, 0x0f), 0x80);
    assert_eq!(dsp.get_register(&mut mem, 0x7f), 0xff);
    assert_eq!(dsp.get_register(&mut mem, 0x6d), 0x60);
    assert_eq!(dsp.get_echo_start_address(), 0x6000);
    assert_eq!(dsp.calculate_echo_length(), 0x7000);
    assert_eq!(dsp.noise, 0x4000);
}

#[test]
fn key_on_resets_decode_position() {
    let mut mem = loud_memory();
    let mut dsp = Dsp::new();
    dsp.set_register(&mut mem, 0x5d, 0x02);
    dsp.set_register(&mut mem, 0x03, 0x10);
    dsp.set_register(&mut mem, 0x07, 0x7f);
    dsp.set_register(&mut mem, 0x4c, 0x01);
    assert_eq!(dsp.voices[0].sample_start_address, 0x0300);
    assert_eq!(dsp.voices[0].sample_address, 0x0309);
    assert_eq!(dsp.voices[0].envelope.mode, EnvelopeMode::Attack);
    run_ticks(&mut dsp, &mut mem, 21);
    assert_ne!(dsp.voices[0].envelope.level, 0);
    assert_eq!(dsp.voices[0].brr_block_decoder.sample_index, 5);
    dsp.set_register(&mut mem, 0x4c, 0x01);
    assert_eq!(dsp.voices[0].sample_address, 0x0309);
    assert_eq!(dsp.voices[0].brr_block_decoder.sample_index, 0);
    assert_eq!(dsp.voices[0].sample_pos, 0);
    assert_eq!(dsp.voices[0].envelope.level, 0);
    assert_eq!(dsp.voices[0].envelope.mode, EnvelopeMode::Attack);
    assert_eq!(dsp.get_register(&mut mem, 0x4c), 0x01);
}

#[test]
fn key_off_keeps_decode_position() {
    let mut mem = loud_memory();
    let mut dsp = Dsp::new();
    dsp.set_register(&mut mem, 0x5d, 0x02);
    dsp.set_register(&mut mem, 0x02, 0x34);
    dsp.set_register(&mut mem, 0x03, 0x0a);
    dsp.set_register(&mut mem, 0x05, 0x8f);
    dsp.set_register(&mut mem, 0x4c, 0x01);
    run_ticks(&mut dsp, &mut mem, 13);
    dsp.cycles_callback(0);
    let address = dsp.voices[0].sample_address;
    let pos = dsp.voices[0].sample_pos;
    let index = dsp.voices[0].brr_block_decoder.sample_index;
    let history = dsp.voices[0].history.clone();
    let level = dsp.voices[0].envelope.level;
    dsp.set_register(&mut mem, 0x5c, 0x01);
    assert_eq!(dsp.voices[0].envelope.mode, EnvelopeMode::Release);
    assert_eq!(dsp.voices[0].envelope.level, level);
    assert_eq!(dsp.voices[0].sample_address, address);
    assert_eq!(dsp.voices[0].sample_pos, pos);
    assert_eq!(dsp.voices[0].brr_block_decoder.sample_index, index);
    assert_eq!(dsp.voices[0].history, history);
}

#[test]
fn noise_sequence_from_seed() {
    let mut mem = Memory::new();
    let mut dsp = Dsp::new();
    dsp.set_register(&mut mem, 0x6c, 0x3f);
    let mut seen = Vec::new();
    for _ in 0..17 {
        run_ticks(&mut dsp, &mut mem, 1);
        seen.push(dsp.noise);
    }
    let expected = vec![
        0x2000, 0x1000, 0x0800, 0x0400, 0x0200, 0x0100, 0x0080, 0x0040, 0x0020, 0x0010, 0x0008,
        0x0004, 0x0002, 0x4001, 0x6000, 0x3000, 0x1800,
    ];
    assert_eq!(seen, expected);
}

#[test]
fn noise_holds_when_its_rate_never_fires() {
    let mut mem = Memory::new();
    let mut dsp = Dsp::new();
    dsp.set_register(&mut mem, 0x6c, 0x20);
    run_ticks(&mut dsp, &mut mem, 100);
    assert_eq!(dsp.noise, 0x4000);
}

#[test]
fn echo_length_latches_at_position_zero() {
    let mut mem = Memory::new();
    let mut dsp = Dsp::new();
    run_ticks(&mut dsp, &mut mem, 1);
    assert_eq!(dsp.echo_length, 0x7000);
    assert_eq!(dsp.echo_pos, 4);
    dsp.set_register(&mut mem, 0x7d, 0x01);
    assert_eq!(dsp.echo_length, 0x7000);
    assert_eq!(dsp.calculate_echo_length(), 0x800);
    run_ticks(&mut dsp, &mut mem, 0x7000 / 4 - 2);
    assert_eq!(dsp.echo_length, 0x7000);
    assert_eq!(dsp.echo_pos, 0x7000 - 4);
    run_ticks(&mut dsp, &mut mem, 1);
    assert_eq!(dsp.echo_pos, 0);
    assert_eq!(dsp.echo_length, 0x7000);
    run_ticks(&mut dsp, &mut mem, 1);
    assert_eq!(dsp.echo_length, 0x800);
    assert_eq!(dsp.echo_pos, 4);
}

#[test]
fn endx_write_clears_all_flags() {
    let mut mem = Memory::new();
    mem.write_u8(0x0200, 0x00);
    mem.write_u8(0x0201, 0x03);
    mem.write_u8(0x0202, 0x00);
    mem.write_u8(0x0203, 0x03);
    mem.write_u8(0x0300, 0x01);
    let mut dsp = Dsp::new();
    dsp.set_register(&mut mem, 0x5d, 0x02);
    dsp.set_register(&mut mem, 0x03, 0x10);
    dsp.set_register(&mut mem, 0x13, 0x10);
    dsp.set_register(&mut mem, 0x4c, 0x03);
    run_ticks(&mut dsp, &mut mem, 20);
    assert_eq!(dsp.get_register(&mut mem, 0x7c), 0x03);
    assert_eq!(dsp.voices[0].envelope.mode, EnvelopeMode::Release);
    assert_eq!(dsp.voices[0].envelope.level, 0);
    dsp.set_register(&mut mem, 0x7c, 0x00);
    assert_eq!(dsp.get_register(&mut mem, 0x7c), 0x00);
}

#[test]
fn looping_voice_resumes_at_loop_address() {
    let mut mem = loud_memory();
    let mut dsp = Dsp::new();
    dsp.set_register(&mut mem, 0x5d, 0x02);
    dsp.set_register(&mut mem, 0x03, 0x10);
    dsp.set_register(&mut mem, 0x07, 0x7f);
    dsp.set_register(&mut mem, 0x4c, 0x01);
    run_ticks(&mut dsp, &mut mem, 40);
    assert!(dsp.voices[0].get_endx_bit());
    assert_eq!(dsp.voices[0].sample_address, 0x0309);
    assert_eq!(dsp.voices[0].envelope.level, 0x7f * 16);
    assert_eq!(dsp.get_register(&mut mem, 0x08), 0x7f);
}

#[test]
fn read_counter_rates() {
    let dsp = Dsp::new();
    assert!(dsp.read_counter(0));
    assert!(!dsp.read_counter(31));
    assert!(!dsp.read_counter(1));
    assert!(dsp.read_counter(2));
}

#[test]
fn source_directory_lookup() {
    let mut mem = Memory::new();
    mem.write_u8(0x0408, 0x34);
    mem.write_u8(0x0409, 0x12);
    mem.write_u8(0x040a, 0x78);
    mem.write_u8(0x040b, 0x56);
    let mut dsp = Dsp::new();
    dsp.set_register(&mut mem, 0x5d, 0x04);
    assert_eq!(dsp.read_source_dir_start_address(&mem, 2), 0x1234);
    assert_eq!(dsp.read_source_dir_loop_address(&mem, 2), 0x5678);
}

#[test]
fn flush_renders_whole_ticks_only() {
    let mut mem = Memory::new();
    let mut dsp = Dsp::new();
    dsp.cycles_callback(64);
    dsp.flush(&mut mem);
    assert_eq!(dsp.output_buffer.get_sample_count(), 0);
    dsp.cycles_callback(65);
    assert_eq!(dsp.pending_ticks(), 2);
    dsp.flush(&mut mem);
    assert_eq!(dsp.output_buffer.get_sample_count(), 2);
    assert_eq!(dsp.cycles_since_last_flush, 1);
}

#[test]
fn resampling_mode_reaches_every_voice() {
    let mut dsp = Dsp::new();
    assert_eq!(dsp.resampling_mode(), spc_presenter::voice::ResamplingMode::Gaussian);
    dsp.set_resampling_mode(spc_presenter::voice::ResamplingMode::Linear);
    assert_eq!(dsp.resampling_mode(), spc_presenter::voice::ResamplingMode::Linear);
    for v in &dsp.voices {
        assert_eq!(v.resampling_mode, spc_presenter::voice::ResamplingMode::Linear);
    }
}

#[test]
fn pending_ticks_render_one_at_a_time() {
    let mut mem = Memory::new();
    let mut dsp = Dsp::new();
    dsp.set_register(&mut mem, 0x6c, 0x3f);
    dsp.cycles_callback(64 * 3 + 1);
    let mut steps = 0;
    while dsp.render_pending_tick(&mut mem) {
        steps += 1;
        assert_eq!(dsp.output_buffer.get_sample_count(), steps);
    }
    assert_eq!(steps, 3);
    assert_eq!(dsp.cycles_since_last_flush, 1);
    assert_eq!(dsp.noise, 0x0800);
    assert_eq!(dsp.counter, 3);
}

#[test]
fn snapshot_file_layout() {
    assert!(Spc::from_bytes(&vec![0u8; 0x10100]).is_none());
    let mut bytes = vec![0u8; 0x10200];
    bytes[0x100] = 0xaa;
    bytes[0x100ff] = 0xbb;
    bytes[0x10100] = 0x7f;
    bytes[0x1017f] = 0x01;
    let spc = Spc::from_bytes(&bytes).unwrap();
    assert_eq!(spc.ram.len(), 0x10000);
    assert_eq!(spc.ram[0], 0xaa);
    assert_eq!(spc.ram[0xffff], 0xbb);
    assert_eq!(spc.regs.len(), 128);
    assert_eq!(spc.regs[0], 0x7f);
    assert_eq!(spc.regs[127], 0x01);
}

#[test]
fn echo_start_address_follows_register() {
    let mut mem = Memory::new();
    let mut dsp = Dsp::new();
    assert_eq!(dsp.get_echo_start_address(), 0x6000);
    dsp.set_register(&mut mem, 0x6d, 0x80);
    assert_eq!(dsp.get_echo_start_address(), 0x8000);
}

#[test]
fn endx_reads_zero_after_write_with_pending_ticks() {
    let mut mem = Memory::new();
    mem.write_u8(0x0200, 0x00);
    mem.write_u8(0x0201, 0x03);
    mem.write_u8(0x0300, 0x01);
    let mut dsp = Dsp::new();
    dsp.set_register(&mut mem, 0x5d, 0x02);
    dsp.set_register(&mut mem, 0x03, 0x10);
    dsp.set_register(&mut mem, 0x4c, 0x01);
    dsp.cycles_callback(64 * 20 + 1);
    dsp.set_register(&mut mem, 0x7c, 0x55);
    assert_eq!(dsp.output_buffer.get_sample_count(), 20);
    assert_eq!(dsp.get_register(&mut mem, 0x7c), 0x00);
}

#[test]
fn high_bit_read_synthesizes_nothing() {
    let mut mem = Memory::new();
    let mut dsp = Dsp::new();
    dsp.set_register(&mut mem, 0x0c, 0x33);
    dsp.cycles_callback(200);
    assert_eq!(dsp.get_register(&mut mem, 0x8c), 0x33);
    assert_eq!(dsp.output_buffer.get_sample_count(), 0);
    assert_eq!(dsp.cycles_since_last_flush, 200);
}

#[test]
fn unmapped_writes_change_nothing() {
    let mut mem = Memory::new();
    let mut dsp = Dsp::new();
    for address in [0x08u8, 0x09, 0x0a, 0x0b, 0x0e, 0x1d, 0x7e] {
        dsp.set_register(&mut mem, address, 0xff);
        assert_eq!(dsp.get_register(&mut mem, address) == 0xff, false, "address {:02x}", address);
    }
    assert_eq!(dsp.voices[0].envelope.level, 0);
}

#[test]
fn write_with_pending_ticks_renders_them_first() {
    let mut mem = Memory::new();
    let mut dsp = Dsp::new();
    dsp.cycles_callback(64 * 3 + 1);
    dsp.set_register(&mut mem, 0x0c, 0x10);
    assert_eq!(dsp.output_buffer.get_sample_count(), 3);
    assert_eq!(dsp.counter, 3);
    assert_eq!(dsp.get_register(&mut mem, 0x0c), 0x10);
}

#[test]
fn snapshot_keys_on_from_new_directory() {
    let mut mem = loud_memory();
    mem.write_u8(0x0404, 0x00);
    mem.write_u8(0x0405, 0x05);
    mem.write_u8(0x0406, 0x09);
    mem.write_u8(0x0407, 0x05);
    let mut regs = loud_registers(0x7f, 0x7f);
    regs[0x5d] = 0x04;
    regs[0x14] = 0x01;
    regs[0x4c] = 0x03;
    regs[0x5c] = 0xff;
    let mut dsp = Dsp::new();
    dsp.set_state(&mut mem, &regs);
    assert_eq!(dsp.get_register(&mut mem, 0x5c), 0x00);
    assert_eq!(dsp.get_register(&mut mem, 0x4c), 0x03);
    assert_eq!(dsp.voices[1].envelope.mode, EnvelopeMode::Attack);
    assert_eq!(dsp.voices[1].sample_start_address, 0x0500);
    assert_eq!(dsp.voices[1].loop_start_address, 0x0509);
    assert_eq!(dsp.voices[0].sample_start_address, 0x0000);
    assert_eq!(dsp.voices[2].envelope.mode, EnvelopeMode::Release);
}
