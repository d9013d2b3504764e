use nes_emu::apu::{LengthCounter, Sequencer, TriangleChannel};
use nes_emu::bus::{Bus, NromMapper};
use nes_emu::cartridge::{parse_header, Cartridge, RomError};
use nes_emu::cpu::Cpu;
use nes_emu::ppu_address::AdderRegister;
use nes_emu::screen::{color, read_screen_state, FRAME_BYTES};

#[test]
fn adder_register_takes_high_then_low() {
    let mut r = AdderRegister::new();
    r.update(0x23);
    r.update(0x05);
    assert_eq!(r.get(), 0x2305);
}

#[test]
fn adder_register_mirrors_down() {
    let mut r = AdderRegister::new();
    r.update(0x7F);
    r.update(0xFF);
    assert_eq!(r.get(), 0x3FFF);
}

#[test]
fn adder_register_increment_carries() {
    let mut r = AdderRegister::new();
    r.update(0x21);
    r.update(0xFF);
    r.increment(1);
    assert_eq!(r.get(), 0x2200);
    r.increment(32);
    assert_eq!(r.get(), 0x2220);
}

#[test]
fn adder_register_increment_wraps_space() {
    let mut r = AdderRegister::new();
    r.update(0x3F);
    r.update(0xFF);
    r.increment(2);
    assert_eq!(r.get(), 0x0001);
}

#[test]
fn sequencer_steps_when_counter_runs_out() {
    let mut s = Sequencer::new(4);
    s.set_period_low(1);
    assert!(s.tick(true));
    assert_eq!(s.current_step, 1);
    assert_eq!(s.counter, 1);
    assert!(!s.tick(true));
    assert_eq!(s.counter, 0);
    assert!(s.tick(false));
    assert_eq!(s.current_step, 1);
    for _ in 0..6 {
        s.tick(true);
    }
    assert_eq!(s.current_step, 0);
}

#[test]
fn length_counter_loads_only_when_enabled() {
    let mut l = LengthCounter::new();
    l.write_register(0x08);
    assert!(!l.active());
    l.set_enabled(true);
    l.write_register(0x08);
    assert_eq!(l.counter, 254);
    assert!(l.playing());
    l.set_enabled(false);
    assert!(!l.playing());
}

#[test]
fn triangle_channel_plays_its_waveform() {
    let mut t = TriangleChannel::new();
    assert_eq!(t.sample(), 0);
    t.set_enabled(true);
    t.write_register(0x4008, 0x85);
    assert!(t.control_flag);
    assert_eq!(t.linear_counter_period, 5);
    t.write_register(0x400A, 0x10);
    t.write_register(0x400B, 0x00);
    assert!(t.playing());
    t.tick_quarter_frame();
    assert_eq!(t.linear_counter, 5);
    assert!(t.linear_counter_start);
    assert_eq!(t.sample(), 15);
    t.tick_sequencer();
    assert_eq!(t.sample(), 14);
}

#[test]
fn triangle_linear_counter_counts_down() {
    let mut t = TriangleChannel::new();
    t.write_register(0x4008, 0x03);
    t.write_register(0x400B, 0x00);
    t.tick_quarter_frame();
    assert_eq!(t.linear_counter, 3);
    assert!(!t.linear_counter_start);
    t.tick_quarter_frame();
    assert_eq!(t.linear_counter, 2);
}

#[test]
fn palette_colors() {
    assert_eq!(color(0), (0, 0, 0));
    assert_eq!(color(1), (255, 255, 255));
    assert_eq!(color(9), (128, 128, 128));
    assert_eq!(color(5), (0, 0, 255));
    assert_eq!(color(200), (0, 255, 255));
}

#[test]
fn screen_state_reports_changes() {
    let mut cpu = Cpu::new(Bus::new(NromMapper::new(vec![0; 0x4000], 0x2000)));
    cpu.bus.write(0x0200, 1);
    let mut frame = vec![0u8; FRAME_BYTES];
    assert!(read_screen_state(&cpu, &mut frame));
    assert_eq!(&frame[0..3], &[255, 255, 255]);
    assert_eq!(&frame[3..6], &[0, 0, 0]);
    assert!(!read_screen_state(&cpu, &mut frame));
    cpu.bus.write(0x0201, 5);
    assert!(read_screen_state(&cpu, &mut frame));
    assert_eq!(&frame[3..6], &[0, 0, 255]);
}

fn image(prg_pages: u8, chr_pages: u8, extra: usize) -> Vec<u8> {
    let mut v = vec![0x4E, 0x45, 0x53, 0x1A, prg_pages, chr_pages, 0, 0, 0, 0, 0, 0, 0, 0, 0, 0];
    let body = prg_pages as usize * 16384 + chr_pages as usize * 8192;
    for i in 0..body + extra {
        v.push((i % 251) as u8);
    }
    v
}

#[test]
fn header_errors() {
    assert_eq!(parse_header(&vec![0x4E, 0x45]), Err(RomError::TooShort));
    let mut bad = image(1, 0, 0);
    bad[3] = 0;
    assert_eq!(parse_header(&bad), Err(RomError::NotINes));
    let mut short = image(1, 1, 0);
    short.truncate(100);
    assert!(matches!(Cartridge::from_bytes(&short), Err(RomError::Truncated)));
}

#[test]
fn cartridge_splits_rom() {
    let img = image(1, 1, 0);
    let h = parse_header(&img).unwrap();
    assert_eq!(h.prg_rom_size, 1);
    assert_eq!(h.chr_rom_size, 1);
    let c = Cartridge::from_bytes(&img).ok().unwrap();
    assert_eq!(c.prg_rom.len(), 16384);
    assert_eq!(c.chr_rom.len(), 8192);
    assert_eq!(c.prg_rom[1], 1);
    assert_eq!(c.chr_rom[0], (16384 % 251) as u8);
    let m = c.into_mapper();
    assert_eq!(m.read(0x8001), 1);
    assert_eq!(m.read(0xC001), 1);
}

#[test]
fn sequencer_of_any_size_can_be_built() {
    let s = Sequencer::new(0);
    assert_eq!(s.steps, 0);
    assert_eq!(s.current_step, 0);
    assert_eq!(s.counter, 0);
    assert_eq!(s.period, 0);
}

#[test]
fn screen_state_accepts_a_longer_frame() {
    let mut cpu = Cpu::new(Bus::new(NromMapper::new(vec![0; 0x4000], 0x2000)));
    cpu.bus.write(0x0200, 3);
    let mut frame = vec![7u8; FRAME_BYTES + 5];
    assert!(read_screen_state(&cpu, &mut frame));
    assert_eq!(&frame[0..3], &[255, 0, 0]);
    assert_eq!(&frame[FRAME_BYTES..], &[7, 7, 7, 7, 7]);
    assert!(!read_screen_state(&cpu, &mut frame));
}
