use nes_emu::bus::{Bus, NromMapper};
use nes_emu::cpu::{
    indirect_high_address, Cpu, CpuError, StepOutcome, FLAG_CARRY, FLAG_INTERRUPT_DISABLE, FLAG_NEGATIVE,
    FLAG_OVERFLOW, FLAG_ZERO, STACK_AT_RESET, STATUS_AT_RESET,
};
use nes_emu::opcodes::{lookup, AddressingMode, Mnemonic};

fn cpu_with_rom(prg: Vec<u8>) -> Cpu {
    Cpu::new(Bus::new(NromMapper::new(prg, 0x2000)))
}

fn cpu() -> Cpu {
    cpu_with_rom(vec![0; 0x4000])
}

fn run_program(cpu: &mut Cpu, program: Vec<u8>) {
    cpu.load(0x0600, &program);
    cpu.run(1000).unwrap();
}

#[test]
fn test_0xa9_lda_immidiate_load_data() {
    let mut cpu = cpu();
    run_program(&mut cpu, vec![0xa9, 0x05, 0x00]);
    assert_eq!(cpu.accumulator, 5);
    assert!(cpu.status & 0b0000_0010 == 0);
    assert!(cpu.status & 0b1000_0000 == 0);
}

#[test]
fn test_0xa9_lda_zero_flag() {
    let mut cpu = cpu();
    run_program(&mut cpu, vec![0xa9, 0x00, 0x00]);
    assert!(cpu.status & 0b0000_0010 == 0b10);
}

#[test]
fn test_0xa9_lda_negative_flag() {
    let mut cpu = cpu();
    run_program(&mut cpu, vec![0xa9, 0xff, 0x00]);
    assert!(cpu.status & 0b1000_0000 == 0b1000_0000);
}

#[test]
fn test_0xaa_tax_move_a_to_x() {
    let mut cpu = cpu();
    cpu.accumulator = 10;
    run_program(&mut cpu, vec![0xaa, 0x00]);
    assert_eq!(cpu.index_x, 10)
}

#[test]
fn load_flags_for_every_byte() {
    for v in 0..=255u8 {
        let mut cpu = cpu();
        cpu.status = 0b0100_0001;
        run_program(&mut cpu, vec![0xa9, v, 0x00]);
        assert_eq!(cpu.accumulator, v);
        assert_eq!(cpu.status & FLAG_ZERO != 0, v == 0);
        assert_eq!(cpu.status & FLAG_NEGATIVE != 0, v & 0x80 != 0);
        assert_eq!(cpu.status & 0b0111_1101, 0b0100_0001);
    }
}

#[test]
fn transfer_sets_flags_like_a_load() {
    for v in [0u8, 1, 0x7F, 0x80, 0xFF] {
        let mut loaded = cpu();
        run_program(&mut loaded, vec![0xa9, v, 0x00]);
        let mut moved = cpu();
        moved.accumulator = v;
        run_program(&mut moved, vec![0xaa, 0x00]);
        assert_eq!(moved.index_x, v);
        assert_eq!(moved.status, loaded.status);
    }
}

#[test]
fn zero_page_x_wraps_within_zero_page() {
    let mut cpu = cpu();
    cpu.bus.write(0x0601, 0xFF);
    cpu.index_x = 0x01;
    assert_eq!(cpu.operand_address(AddressingMode::ZeroPageX, 0x0601), 0x0000);
}

#[test]
fn zero_page_x_load_reads_wrapped_address() {
    let mut cpu = cpu();
    cpu.bus.write(0x0000, 0x42);
    cpu.bus.write(0x0100, 0x99);
    cpu.index_x = 0x01;
    run_program(&mut cpu, vec![0xb5, 0xff, 0x00]);
    assert_eq!(cpu.accumulator, 0x42);
}

#[test]
fn indirect_jump_high_byte_stays_in_page() {
    assert_eq!(indirect_high_address(0x30FF), 0x3000);
    assert_eq!(indirect_high_address(0x3010), 0x3011);
}

#[test]
fn indirect_jump_reads_high_byte_from_page_start() {
    let mut cpu = cpu();
    cpu.bus.write(0x02FF, 0x34);
    cpu.bus.write(0x0200, 0x12);
    cpu.bus.write(0x0300, 0x56);
    cpu.load(0x0600, &vec![0x6c, 0xff, 0x02]);
    assert_eq!(cpu.step(), Ok(StepOutcome::Executed));
    assert_eq!(cpu.program_counter, 0x1234);
}

#[test]
fn push_then_pop_restores_value_and_stack_pointer() {
    let mut cpu = cpu();
    let sp = cpu.stack_pointer;
    cpu.push(0xAB);
    assert_eq!(cpu.stack_pointer, sp.wrapping_sub(1));
    assert_eq!(cpu.pop(), 0xAB);
    assert_eq!(cpu.stack_pointer, sp);
}

#[test]
fn pha_pla_round_trip() {
    let mut cpu = cpu();
    run_program(&mut cpu, vec![0xa9, 0x37, 0x48, 0xa9, 0x00, 0x68, 0x00]);
    assert_eq!(cpu.accumulator, 0x37);
    assert_eq!(cpu.stack_pointer, STACK_AT_RESET);
}

#[test]
fn reset_loads_vector_and_clears_registers() {
    let mut prg = vec![0u8; 0x4000];
    prg[0x3FFC] = 0x34;
    prg[0x3FFD] = 0x82;
    let mut cpu = cpu_with_rom(prg);
    cpu.accumulator = 1;
    cpu.index_x = 2;
    cpu.index_y = 3;
    cpu.status = 0xFF;
    cpu.reset();
    assert_eq!(cpu.accumulator, 0);
    assert_eq!(cpu.index_x, 0);
    assert_eq!(cpu.index_y, 0);
    assert_eq!(cpu.status, STATUS_AT_RESET);
    assert_eq!(cpu.stack_pointer, STACK_AT_RESET);
    assert_eq!(cpu.program_counter, 0x8234);
    assert!(!cpu.halted);
}

#[test]
fn unimplemented_opcode_is_reported() {
    let mut cpu = cpu();
    cpu.load(0x0600, &vec![0x02]);
    assert_eq!(cpu.step(), Err(CpuError::UnimplementedOpcode(0x02)));
    assert_eq!(cpu.program_counter, 0x0600);
    assert_eq!(cpu.run(10), Err(CpuError::UnimplementedOpcode(0x02)));
}

#[test]
fn halted_processor_stays_halted() {
    let mut cpu = cpu();
    cpu.load(0x0600, &vec![0x00, 0xa9, 0x05]);
    assert_eq!(cpu.step(), Ok(StepOutcome::Halted));
    let pc = cpu.program_counter;
    assert_eq!(cpu.step(), Ok(StepOutcome::Halted));
    assert_eq!(cpu.program_counter, pc);
    assert_eq!(cpu.accumulator, 0);
}

#[test]
fn adc_sets_carry_and_overflow() {
    let mut cpu = cpu();
    run_program(&mut cpu, vec![0xa9, 0x50, 0x69, 0x50, 0x00]);
    assert_eq!(cpu.accumulator, 0xA0);
    assert!(cpu.status & FLAG_OVERFLOW != 0);
    assert!(cpu.status & FLAG_CARRY == 0);
    assert!(cpu.status & FLAG_NEGATIVE != 0);

    let mut cpu2 = cpu_with_rom(vec![0; 0x4000]);
    run_program(&mut cpu2, vec![0xa9, 0xFF, 0x69, 0x01, 0x00]);
    assert_eq!(cpu2.accumulator, 0x00);
    assert!(cpu2.status & FLAG_CARRY != 0);
    assert!(cpu2.status & FLAG_ZERO != 0);
    assert!(cpu2.status & FLAG_OVERFLOW == 0);
}

#[test]
fn sbc_with_carry_set_subtracts() {
    let mut cpu = cpu();
    run_program(&mut cpu, vec![0x38, 0xa9, 0x10, 0xe9, 0x01, 0x00]);
    assert_eq!(cpu.accumulator, 0x0F);
    assert!(cpu.status & FLAG_CARRY != 0);
}

#[test]
fn inx_wraps_and_sets_zero() {
    let mut cpu = cpu();
    run_program(&mut cpu, vec![0xa2, 0xff, 0xe8, 0x00]);
    assert_eq!(cpu.index_x, 0);
    assert!(cpu.status & FLAG_ZERO != 0);
}

#[test]
fn loop_with_branch_counts_down() {
    let mut cpu = cpu();
    // LDX #3; loop: DEX; BNE loop; BRK
    run_program(&mut cpu, vec![0xa2, 0x03, 0xca, 0xd0, 0xfd, 0x00]);
    assert_eq!(cpu.index_x, 0);
    assert_eq!(cpu.program_counter, 0x0606);
}

#[test]
fn jsr_and_rts_return_after_call() {
    let mut cpu = cpu();
    // JSR $0606; LDY #7; BRK; (at 0606) LDX #9; RTS
    run_program(&mut cpu, vec![0x20, 0x06, 0x06, 0xa0, 0x07, 0x00, 0xa2, 0x09, 0x60]);
    assert_eq!(cpu.index_x, 9);
    assert_eq!(cpu.index_y, 7);
    assert_eq!(cpu.stack_pointer, STACK_AT_RESET);
}

#[test]
fn store_and_shift_memory() {
    let mut cpu = cpu();
    // LDA #$81; STA $10; ASL $10; BRK
    run_program(&mut cpu, vec![0xa9, 0x81, 0x85, 0x10, 0x06, 0x10, 0x00]);
    assert_eq!(cpu.bus.peek(0x10), 0x02);
    assert!(cpu.status & FLAG_CARRY != 0);
}

#[test]
fn compare_sets_carry_and_zero() {
    let mut cpu = cpu();
    run_program(&mut cpu, vec![0xa9, 0x40, 0xc9, 0x40, 0x00]);
    assert!(cpu.status & FLAG_CARRY != 0);
    assert!(cpu.status & FLAG_ZERO != 0);
}

#[test]
fn nmi_pushes_state_and_jumps_to_vector() {
    let mut prg = vec![0u8; 0x4000];
    prg[0x3FFA] = 0x00;
    prg[0x3FFB] = 0x90;
    let mut cpu = cpu_with_rom(prg);
    cpu.program_counter = 0x1234;
    cpu.status = 0;
    cpu.nmi();
    assert_eq!(cpu.program_counter, 0x9000);
    assert_eq!(cpu.stack_pointer, STACK_AT_RESET.wrapping_sub(3));
    assert!(cpu.status & FLAG_INTERRUPT_DISABLE != 0);
    assert_eq!(cpu.bus.peek(0x01FD), 0x12);
    assert_eq!(cpu.bus.peek(0x01FC), 0x34);
    assert_eq!(cpu.bus.peek(0x01FB), 0x20);
}

#[test]
fn irq_is_masked_by_interrupt_disable() {
    let mut cpu = cpu();
    cpu.status = FLAG_INTERRUPT_DISABLE;
    assert!(!cpu.irq());
    cpu.status = 0;
    assert!(cpu.irq());
}

#[test]
fn opcode_table_lookup() {
    let op = lookup(0xA9).unwrap();
    assert_eq!(op.mnemonic, Mnemonic::Lda);
    assert_eq!(op.len, 2);
    assert_eq!(op.mode, AddressingMode::Immediate);
    assert_eq!(op.mnemonic.name(), "LDA");
    assert!(lookup(0x02).is_none());
    let mut n = 0;
    for c in 0..=255u8 {
        if lookup(c).is_some() {
            n += 1;
        }
    }
    assert_eq!(n, 151);
}

fn cycles_of_first_step(program: Vec<u8>, x: u8, status: u8) -> u64 {
    let mut cpu = cpu();
    cpu.load(0x0600, &program);
    cpu.index_x = x;
    cpu.status = status;
    cpu.step().unwrap();
    cpu.cycles
}

#[test]
fn cycles_follow_the_table() {
    let mut cpu = cpu();
    run_program(&mut cpu, vec![0xa9, 0x05, 0x00]);
    assert_eq!(cpu.cycles, 2 + 7);
}

#[test]
fn indexed_read_crossing_a_page_costs_a_cycle() {
    assert_eq!(cycles_of_first_step(vec![0xbd, 0xff, 0x01], 1, 0), 5);
    assert_eq!(cycles_of_first_step(vec![0xbd, 0xfe, 0x01], 1, 0), 4);
    assert_eq!(cycles_of_first_step(vec![0x9d, 0xff, 0x01], 1, 0), 5);
}

#[test]
fn taken_branch_costs_extra_cycles() {
    assert_eq!(cycles_of_first_step(vec![0xd0, 0x00], 0, 0), 3);
    assert_eq!(cycles_of_first_step(vec![0xd0, 0x00], 0, FLAG_ZERO), 2);
    let mut cpu = cpu();
    cpu.load(0x06FD, &vec![0xd0, 0x05]);
    cpu.status = 0;
    cpu.step().unwrap();
    assert_eq!(cpu.program_counter, 0x0704);
    assert_eq!(cpu.cycles, 4);
}

#[test]
fn run_stops_at_budget_without_halting() {
    let mut cpu = cpu();
    cpu.load(0x0600, &vec![0xe8, 0xe8, 0xe8, 0x00]);
    assert_eq!(cpu.run(2), Ok(2));
    assert!(!cpu.halted);
    assert_eq!(cpu.index_x, 2);
    assert_eq!(cpu.run(10), Ok(2));
    assert!(cpu.halted);
    assert_eq!(cpu.index_x, 3);
}

#[test]
fn run_on_halted_processor_takes_one_step() {
    let mut cpu = cpu();
    cpu.load(0x0600, &vec![0x00]);
    assert_eq!(cpu.run(5), Ok(1));
    assert_eq!(cpu.run(5), Ok(1));
    assert!(cpu.halted);
}

#[test]
fn irq_pushes_state() {
    let mut prg = vec![0u8; 0x4000];
    prg[0x3FFE] = 0x00;
    prg[0x3FFF] = 0xA0;
    let mut cpu = cpu_with_rom(prg);
    cpu.program_counter = 0x0642;
    cpu.status = FLAG_CARRY | 0x10;
    assert!(cpu.irq());
    assert_eq!(cpu.program_counter, 0xA000);
    assert_eq!(cpu.bus.peek(0x01FD), 0x06);
    assert_eq!(cpu.bus.peek(0x01FC), 0x42);
    assert_eq!(cpu.bus.peek(0x01FB), FLAG_CARRY | 0x20);
    assert_eq!(cpu.cycles, 7);
}
