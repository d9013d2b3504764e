use nes_emu::bus::{Bus, NromMapper};
use nes_emu::cpu::Cpu;
use nes_emu::trace::trace;

fn cpu_with(program: Vec<u8>) -> Cpu {
    let mut cpu = Cpu::new(Bus::new(NromMapper::new(vec![0; 0x4000], 0x2000)));
    cpu.load(0x0600, &program);
    cpu
}

#[test]
fn trace_immediate() {
    let cpu = cpu_with(vec![0xa9, 0x05, 0x00]);
    assert_eq!(trace(&cpu), "0600  A9 05     LDA #$05");
}

#[test]
fn trace_implied() {
    let cpu = cpu_with(vec![0x00]);
    assert_eq!(trace(&cpu), "0600  00        BRK");
}

#[test]
fn trace_accumulator() {
    let cpu = cpu_with(vec![0x0a]);
    assert_eq!(trace(&cpu), "0600  0A        ASL A");
}

#[test]
fn trace_zero_page_shows_value() {
    let mut cpu = cpu_with(vec![0xa5, 0x44]);
    cpu.bus.write(0x44, 0x05);
    assert_eq!(trace(&cpu), "0600  A5 44     LDA $44 = 05");
}

#[test]
fn trace_zero_page_x() {
    let mut cpu = cpu_with(vec![0xb5, 0xff]);
    cpu.index_x = 1;
    cpu.bus.write(0x00, 0xAB);
    assert_eq!(trace(&cpu), "0600  B5 FF     LDA $FF,X @ 00 = AB");
}

#[test]
fn trace_indexed_indirect() {
    let mut cpu = cpu_with(vec![0xa1, 0x40]);
    cpu.index_x = 4;
    cpu.bus.write(0x44, 0x00);
    cpu.bus.write(0x45, 0x02);
    cpu.bus.write(0x0200, 0x5A);
    assert_eq!(trace(&cpu), "0600  A1 40     LDA ($40,X) @ 44 = 0200 = 5A");
}

#[test]
fn trace_indirect_indexed() {
    let mut cpu = cpu_with(vec![0xb1, 0x40]);
    cpu.index_y = 2;
    cpu.bus.write(0x40, 0x00);
    cpu.bus.write(0x41, 0x02);
    cpu.bus.write(0x0202, 0x07);
    assert_eq!(trace(&cpu), "0600  B1 40     LDA ($40),Y = 0200 @ 0202 = 07");
}

#[test]
fn trace_absolute_skips_side_effecting_register() {
    let mut cpu = cpu_with(vec![0xad, 0x02, 0x20]);
    cpu.bus.write(0x2002, 0x80);
    assert_eq!(trace(&cpu), "0600  AD 02 20  LDA $2002");
    assert_eq!(cpu.bus.peek(0x2002), 0x80);
}

#[test]
fn trace_absolute_x() {
    let mut cpu = cpu_with(vec![0xbd, 0x00, 0x02]);
    cpu.index_x = 0x10;
    cpu.bus.write(0x0210, 0x33);
    assert_eq!(trace(&cpu), "0600  BD 00 02  LDA $0200,X @ 0210 = 33");
}

#[test]
fn trace_jump_absolute() {
    let cpu = cpu_with(vec![0x4c, 0x00, 0x80]);
    assert_eq!(trace(&cpu), "0600  4C 00 80  JMP $8000");
}

#[test]
fn trace_jump_indirect_with_page_wrap() {
    let mut cpu = cpu_with(vec![0x6c, 0xff, 0x02]);
    cpu.bus.write(0x02FF, 0x34);
    cpu.bus.write(0x0200, 0x12);
    cpu.bus.write(0x0300, 0x99);
    assert_eq!(trace(&cpu), "0600  6C FF 02  JMP ($02FF) = 1234");
}

#[test]
fn trace_branch() {
    let cpu = cpu_with(vec![0xd0, 0xfd]);
    assert_eq!(trace(&cpu), "0600  D0 FD     BNE $05FF");
}

#[test]
fn trace_twice_is_identical_and_changes_nothing() {
    let mut cpu = cpu_with(vec![0xad, 0x02, 0x20]);
    cpu.bus.write(0x2002, 0xC0);
    cpu.accumulator = 3;
    let first = trace(&cpu);
    let second = trace(&cpu);
    assert_eq!(first, second);
    assert_eq!(cpu.accumulator, 3);
    assert_eq!(cpu.program_counter, 0x0600);
    assert_eq!(cpu.bus.peek(0x2002), 0xC0);
    cpu.step().unwrap();
    assert_eq!(cpu.accumulator, 0xC0);
    assert_eq!(cpu.bus.peek(0x2002), 0x40);
}

#[test]
fn trace_unknown_opcode() {
    let cpu = cpu_with(vec![0x02]);
    assert_eq!(trace(&cpu), "0600  02        ???");
}

#[test]
fn trace_after_load_keeps_flags() {
    let mut cpu = cpu_with(vec![0xa9, 0x00, 0x02]);
    cpu.step().unwrap();
    let status = cpu.status;
    assert_eq!(trace(&cpu), "0602  02        ???");
    assert_eq!(cpu.status, status);
    assert!(cpu.status & 0b10 != 0);
}
