use vstd::prelude::*;
use crate::bus::{Bus, join16, next_addr, lo_byte, hi_byte, owner, Owner};
use crate::opcodes::{AddressingMode, Mnemonic, OpCode, lookup, opcode_of};

verus! {

pub const FLAG_CARRY: u8 = 0x01;
pub const FLAG_ZERO: u8 = 0x02;
pub const FLAG_INTERRUPT_DISABLE: u8 = 0x04;
pub const FLAG_DECIMAL: u8 = 0x08;
pub const FLAG_BREAK: u8 = 0x10;
pub const FLAG_UNUSED: u8 = 0x20;
pub const FLAG_OVERFLOW: u8 = 0x40;
pub const FLAG_NEGATIVE: u8 = 0x80;

/// The status after reset: interrupts disabled, every other flag clear.
pub const STATUS_AT_RESET: u8 = 0x04;

/// The stack pointer after reset.
pub const STACK_AT_RESET: u8 = 0xFD;

/// The stack occupies the page that starts here.
pub const STACK_BASE: u16 = 0x0100;

/// Cycles that the dispatch of an interrupt takes.
pub const INTERRUPT_CYCLES: u64 = 7;

pub const NMI_VECTOR: u16 = 0xFFFA;
pub const RESET_VECTOR: u16 = 0xFFFC;
pub const IRQ_VECTOR: u16 = 0xFFFE;

/// Why a step could not run.
#[derive(Clone, Copy, Debug, PartialEq, Eq, Structural)]
pub enum CpuError {
    /// The byte at the program counter is not in the opcode table.
    UnimplementedOpcode(u8),
}

/// What a step did.
#[derive(Clone, Copy, Debug, PartialEq, Eq, Structural)]
pub enum StepOutcome {
    /// One instruction ran and the processor goes on.
    Executed,
    /// The processor has stopped; no further step changes anything until a reset.
    Halted,
}

/// The register file as one value.
pub struct Registers {
    pub accumulator: u8,
    pub index_x: u8,
    pub index_y: u8,
    pub stack_pointer: u8,
    pub status: u8,
    pub program_counter: u16,
}

/// Whether the flag `mask` is set in `p`.
pub open spec fn flag(p: u8, mask: u8) -> bool {
    p & mask != 0
}

/// `p` with the flag `mask` set or cleared.
pub open spec fn set_flag(p: u8, mask: u8, on: bool) -> u8 {
    if on {
        p | mask
    } else {
        p & !mask
    }
}

/// `p` with Zero and Negative set from `v`, every other flag kept.
pub open spec fn zn(p: u8, v: u8) -> u8 {
    set_flag(set_flag(p, FLAG_ZERO, v == 0), FLAG_NEGATIVE, v >= 0x80)
}

/// A byte read as a two's-complement number.
pub open spec fn signed(d: u8) -> int {
    if d >= 0x80 {
        d - 256
    } else {
        d as int
    }
}

/// `x` reduced to a byte.
pub open spec fn wrap8(x: int) -> u8 {
    (x % 256) as u8
}

/// `x` reduced to an address.
pub open spec fn wrap16(x: int) -> u16 {
    (x % 0x10000) as u16
}

/// The address of stack slot `sp`.
pub open spec fn stack_addr(sp: u8) -> u16 {
    (STACK_BASE + sp) as u16
}

/// The address from which the jump-indirect instruction takes the high byte of
/// its target: the next address within the same page, so that a pointer at the
/// end of a page wraps to the start of that page.
pub open spec fn indirect_high_spec(ptr: u16) -> u16 {
    if ptr % 256 == 255 {
        (ptr - 255) as u16
    } else {
        (ptr + 1) as u16
    }
}

/// The accumulator and status after an add with carry of `m`.
pub open spec fn adc_spec(a: u8, m: u8, p: u8) -> (u8, u8) {
    let sum = a + m + (if flag(p, FLAG_CARRY) { 1int } else { 0int });
    let r = wrap8(sum);
    let overflow = (a >= 0x80) == (m >= 0x80) && (r >= 0x80) != (a >= 0x80);
    (r, zn(set_flag(set_flag(p, FLAG_CARRY, sum > 255), FLAG_OVERFLOW, overflow), r))
}

/// The status after comparing register value `r` with `m`.
pub open spec fn compare_spec(p: u8, r: u8, m: u8) -> u8 {
    zn(set_flag(p, FLAG_CARRY, r >= m), wrap8(r - m))
}

/// The status after a bit test of `m` against accumulator `a`.
pub open spec fn bit_spec(p: u8, a: u8, m: u8) -> u8 {
    set_flag(
        set_flag(set_flag(p, FLAG_ZERO, a & m == 0), FLAG_OVERFLOW, m & 0x40 != 0),
        FLAG_NEGATIVE,
        m >= 0x80,
    )
}

/// The result and status of a shift or rotate of `v`.
pub open spec fn shift_spec(m: Mnemonic, v: u8, p: u8) -> (u8, u8) {
    let c: int = if flag(p, FLAG_CARRY) { 1 } else { 0 };
    let (r, out) = match m {
        Mnemonic::Asl => (wrap8(v * 2), v >= 0x80),
        Mnemonic::Lsr => ((v / 2) as u8, v % 2 == 1),
        Mnemonic::Rol => (wrap8(v * 2 + c), v >= 0x80),
        _ => ((v / 2 + c * 128) as u8, v % 2 == 1),
    };
    (r, zn(set_flag(p, FLAG_CARRY, out), r))
}

/// Whether the branch instruction `m` is taken under status `p`.
pub open spec fn branch_taken(m: Mnemonic, p: u8) -> bool {
    match m {
        Mnemonic::Bcc => !flag(p, FLAG_CARRY),
        Mnemonic::Bcs => flag(p, FLAG_CARRY),
        Mnemonic::Bne => !flag(p, FLAG_ZERO),
        Mnemonic::Beq => flag(p, FLAG_ZERO),
        Mnemonic::Bpl => !flag(p, FLAG_NEGATIVE),
        Mnemonic::Bmi => flag(p, FLAG_NEGATIVE),
        Mnemonic::Bvc => !flag(p, FLAG_OVERFLOW),
        _ => flag(p, FLAG_OVERFLOW),
    }
}

/// The conditional branches.
pub open spec fn is_branch(m: Mnemonic) -> bool {
    matches!(m, Mnemonic::Bcc | Mnemonic::Bcs | Mnemonic::Beq | Mnemonic::Bne | Mnemonic::Bmi | Mnemonic::Bpl
        | Mnemonic::Bvc | Mnemonic::Bvs)
}

/// The instructions that only read their operand, and so take a cycle more
/// when indexing crosses a page.
pub open spec fn pays_page_penalty(m: Mnemonic) -> bool {
    matches!(m, Mnemonic::Lda | Mnemonic::Ldx | Mnemonic::Ldy | Mnemonic::Adc | Mnemonic::Sbc | Mnemonic::And
        | Mnemonic::Ora | Mnemonic::Eor | Mnemonic::Cmp)
}

/// The modes that add an index register to a 16-bit base.
pub open spec fn is_indexed(mode: AddressingMode) -> bool {
    matches!(mode, AddressingMode::AbsoluteX | AddressingMode::AbsoluteY | AddressingMode::IndirectY)
}

/// The flag that a set or clear instruction acts on, and whether it sets it.
pub open spec fn flag_op(m: Mnemonic) -> (u8, bool) {
    match m {
        Mnemonic::Clc => (FLAG_CARRY, false),
        Mnemonic::Sec => (FLAG_CARRY, true),
        Mnemonic::Cli => (FLAG_INTERRUPT_DISABLE, false),
        Mnemonic::Sei => (FLAG_INTERRUPT_DISABLE, true),
        Mnemonic::Cld => (FLAG_DECIMAL, false),
        Mnemonic::Sed => (FLAG_DECIMAL, true),
        _ => (FLAG_OVERFLOW, false),
    }
}

/// The processor: its registers and the bus through which it reaches memory.
pub struct Cpu {
    pub accumulator: u8,
    pub index_x: u8,
    pub index_y: u8,
    pub stack_pointer: u8,
    pub status: u8,
    pub program_counter: u16,
    pub halted: bool,
    /// Clock cycles spent so far, wrapping at the top of the type.
    pub cycles: u64,
    pub bus: Bus,
}

impl Cpu {
    pub open spec fn regs(&self) -> Registers {
        Registers {
            accumulator: self.accumulator,
            index_x: self.index_x,
            index_y: self.index_y,
            stack_pointer: self.stack_pointer,
            status: self.status,
            program_counter: self.program_counter,
        }
    }

    pub open spec fn wf(&self) -> bool {
        self.bus.wf()
    }

    /// `new` is `old` after a push of `v`: the byte goes to the stack pointer's
    /// slot and the stack pointer moves down by one.
    pub open spec fn pushed(old: &Cpu, new: &Cpu, v: u8) -> bool {
        &&& Bus::written(&old.bus, &new.bus, stack_addr(old.stack_pointer), v)
        &&& new.regs() == (Registers { stack_pointer: wrap8(old.stack_pointer - 1), ..old.regs() })
        &&& new.halted == old.halted
        &&& new.cycles == old.cycles
    }

    /// `new` is `old` after a pop that returned `v`: the stack pointer moves up
    /// by one and `v` is the byte in its new slot.
    pub open spec fn popped(old: &Cpu, new: &Cpu, v: u8) -> bool {
        &&& v == old.bus.peek_spec(stack_addr(wrap8(old.stack_pointer + 1)))
        &&& new.bus == old.bus
        &&& new.regs() == (Registers { stack_pointer: wrap8(old.stack_pointer + 1), ..old.regs() })
        &&& new.halted == old.halted
        &&& new.cycles == old.cycles
    }

    /// The operand address that `mode` resolves to for an instruction whose
    /// operand bytes start at `at`.
    #[verifier::opaque]
    pub open spec fn operand_address_spec(&self, mode: AddressingMode, at: u16) -> u16 {
        let b = self.bus;
        let x = self.index_x as int;
        let y = self.index_y as int;
        match mode {
            AddressingMode::ZeroPage => b.peek_spec(at) as u16,
            AddressingMode::ZeroPageX => wrap8(b.peek_spec(at) + x) as u16,
            AddressingMode::ZeroPageY => wrap8(b.peek_spec(at) + y) as u16,
            AddressingMode::Absolute => b.peek16_spec(at),
            AddressingMode::AbsoluteX => wrap16(b.peek16_spec(at) + x),
            AddressingMode::AbsoluteY => wrap16(b.peek16_spec(at) + y),
            AddressingMode::Indirect => {
                let ptr = b.peek16_spec(at);
                join16(b.peek_spec(ptr), b.peek_spec(indirect_high_spec(ptr)))
            },
            AddressingMode::IndirectX => {
                let p = wrap8(b.peek_spec(at) + x);
                join16(b.peek_spec(p as u16), b.peek_spec(wrap8(p + 1) as u16))
            },
            AddressingMode::IndirectY => {
                let p = b.peek_spec(at);
                wrap16(join16(b.peek_spec(p as u16), b.peek_spec(wrap8(p + 1) as u16)) + y)
            },
            AddressingMode::Relative => wrap16(at + 1 + signed(b.peek_spec(at))),
            _ => at,
        }
    }

    /// The operand address of `op` when it stands at the program counter.
    pub open spec fn operand_spec(&self, op: OpCode) -> u16 {
        self.operand_address_spec(op.mode, next_addr(self.program_counter))
    }

    /// The address that an indexed mode adds its index to: the operand word for
    /// the absolute modes, the zero-page pointer for the indirect-indexed mode.
    pub open spec fn index_base_spec(&self, mode: AddressingMode, at: u16) -> u16 {
        let b = self.bus;
        match mode {
            AddressingMode::IndirectY => {
                let p = b.peek_spec(at);
                join16(b.peek_spec(p as u16), b.peek_spec(wrap8(p + 1) as u16))
            },
            _ => b.peek16_spec(at),
        }
    }

    /// The cycles that `op` costs beyond its table value: one for a read
    /// through an indexed mode that crosses a page, and for a taken branch one,
    /// plus one if it lands on another page.
    #[verifier::opaque]
    pub open spec fn extra_cycles_spec(&self, op: OpCode) -> int {
        let a = self.operand_spec(op);
        let next = self.fallthrough_spec(op);
        if is_branch(op.mnemonic) {
            if branch_taken(op.mnemonic, self.status) {
                if a / 256 != next / 256 { 2 } else { 1 }
            } else {
                0
            }
        } else if pays_page_penalty(op.mnemonic) && is_indexed(op.mode)
            && self.index_base_spec(op.mode, next_addr(self.program_counter)) / 256 != a / 256 {
            1
        } else {
            0
        }
    }

    /// The address just past `op` when it stands at the program counter.
    pub open spec fn fallthrough_spec(&self, op: OpCode) -> u16 {
        wrap16(self.program_counter + op.len)
    }

    /// The effect of loads, stores and register transfers.
    pub open spec fn transfer_effect(old: &Cpu, new: &Cpu, op: OpCode) -> bool {
        let r = old.regs();
        let a = old.operand_spec(op);
        let next = old.fallthrough_spec(op);
        let m = old.bus.peek_spec(a);
        let p = old.status;
        let sp = old.stack_pointer;
        let same_bus = new.bus == old.bus;
        let read_bus = Bus::after_read(&old.bus, &new.bus, a);
        match op.mnemonic {
            Mnemonic::Lda => read_bus
                && new.regs() == (Registers { accumulator: m, status: zn(p, m), program_counter: next, ..r }),
            Mnemonic::Ldx => read_bus
                && new.regs() == (Registers { index_x: m, status: zn(p, m), program_counter: next, ..r }),
            Mnemonic::Ldy => read_bus
                && new.regs() == (Registers { index_y: m, status: zn(p, m), program_counter: next, ..r }),
            Mnemonic::Sta => Bus::written(&old.bus, &new.bus, a, old.accumulator)
                && new.regs() == (Registers { program_counter: next, ..r }),
            Mnemonic::Stx => Bus::written(&old.bus, &new.bus, a, old.index_x)
                && new.regs() == (Registers { program_counter: next, ..r }),
            Mnemonic::Sty => Bus::written(&old.bus, &new.bus, a, old.index_y)
                && new.regs() == (Registers { program_counter: next, ..r }),
            Mnemonic::Tax => same_bus
                && new.regs() == (Registers {
                    index_x: old.accumulator,
                    status: zn(p,
                    old.accumulator),
                    program_counter: next,
                    ..r
                }),
            Mnemonic::Tay => same_bus
                && new.regs() == (Registers {
                    index_y: old.accumulator,
                    status: zn(p,
                    old.accumulator),
                    program_counter: next,
                    ..r
                }),
            Mnemonic::Txa => same_bus
                && new.regs() == (Registers {
                    accumulator: old.index_x,
                    status: zn(p,
                    old.index_x),
                    program_counter: next,
                    ..r
                }),
            Mnemonic::Tya => same_bus
                && new.regs() == (Registers {
                    accumulator: old.index_y,
                    status: zn(p,
                    old.index_y),
                    program_counter: next,
                    ..r
                }),
            Mnemonic::Tsx => same_bus
                && new.regs() == (Registers { index_x: sp, status: zn(p, sp), program_counter: next, ..r }),
            Mnemonic::Txs => same_bus
                && new.regs() == (Registers { stack_pointer: old.index_x, program_counter: next, ..r }),
            _ => false,
        }
    }

    /// The effect of arithmetic, logic, comparisons and bit tests.
    pub open spec fn arithmetic_effect(old: &Cpu, new: &Cpu, op: OpCode) -> bool {
        let r = old.regs();
        let a = old.operand_spec(op);
        let next = old.fallthrough_spec(op);
        let m = old.bus.peek_spec(a);
        let p = old.status;
        let read_bus = Bus::after_read(&old.bus, &new.bus, a);
        match op.mnemonic {
            Mnemonic::Adc => read_bus && {
                let (res, st) = adc_spec(old.accumulator, m, p);
                new.regs() == (Registers { accumulator: res, status: st, program_counter: next, ..r })
            },
            Mnemonic::Sbc => read_bus && {
                let (res, st) = adc_spec(old.accumulator, (255 - m) as u8, p);
                new.regs() == (Registers { accumulator: res, status: st, program_counter: next, ..r })
            },
            Mnemonic::And => read_bus
                && new.regs() == (Registers {
                    accumulator: old.accumulator & m,
                    status: zn(p,
                    old.accumulator & m),
                    program_counter: next,
                    ..r
                }),
            Mnemonic::Ora => read_bus
                && new.regs() == (Registers {
                    accumulator: old.accumulator | m,
                    status: zn(p,
                    old.accumulator | m),
                    program_counter: next,
                    ..r
                }),
            Mnemonic::Eor => read_bus
                && new.regs() == (Registers {
                    accumulator: old.accumulator ^ m,
                    status: zn(p,
                    old.accumulator ^ m),
                    program_counter: next,
                    ..r
                }),
            Mnemonic::Cmp => read_bus
                && new.regs() == (Registers {
                    status: compare_spec(p,
                    old.accumulator,
                    m),
                    program_counter: next,
                    ..r
                }),
            Mnemonic::Cpx => read_bus
                && new.regs() == (Registers {
                    status: compare_spec(p,
                    old.index_x,
                    m),
                    program_counter: next,
                    ..r
                }),
            Mnemonic::Cpy => read_bus
                && new.regs() == (Registers {
                    status: compare_spec(p,
                    old.index_y,
                    m),
                    program_counter: next,
                    ..r
                }),
            Mnemonic::Bit => read_bus
                && new.regs() == (Registers {
                    status: bit_spec(p,
                    old.accumulator,
                    m),
                    program_counter: next,
                    ..r
                }),
            _ => false,
        }
    }

    /// The effect of shifts, rotates, increments and decrements.
    pub open spec fn modify_effect(old: &Cpu, new: &Cpu, op: OpCode) -> bool {
        let r = old.regs();
        let a = old.operand_spec(op);
        let next = old.fallthrough_spec(op);
        let m = old.bus.peek_spec(a);
        let p = old.status;
        let same_bus = new.bus == old.bus;
        match op.mnemonic {
            Mnemonic::Asl | Mnemonic::Lsr | Mnemonic::Rol | Mnemonic::Ror => if op.mode == AddressingMode::Accumulator {
                let (res, st) = shift_spec(op.mnemonic, old.accumulator, p);
                same_bus && new.regs() == (Registers {
                    accumulator: res,
                    status: st,
                    program_counter: next,
                    ..r
                })
            } else {
                let (res, st) = shift_spec(op.mnemonic, m, p);
                (exists|mid: Bus| Bus::after_read(&old.bus, &mid, a) && Bus::written(&mid, &new.bus, a, res))
                    && new.regs() == (Registers { status: st, program_counter: next, ..r })
            },
            Mnemonic::Inc => (exists|mid: Bus| Bus::after_read(&old.bus, &mid, a)
                && Bus::written(&mid, &new.bus, a, wrap8(m + 1)))
                && new.regs() == (Registers { status: zn(p, wrap8(m + 1)), program_counter: next, ..r }),
            Mnemonic::Dec => (exists|mid: Bus| Bus::after_read(&old.bus, &mid, a)
                && Bus::written(&mid, &new.bus, a, wrap8(m - 1)))
                && new.regs() == (Registers { status: zn(p, wrap8(m - 1)), program_counter: next, ..r }),
            Mnemonic::Inx => same_bus
                && new.regs() == (Registers {
                    index_x: wrap8(old.index_x + 1),
                    status: zn(p,
                    wrap8(old.index_x + 1)),
                    program_counter: next,
                    ..r
                }),
            Mnemonic::Iny => same_bus
                && new.regs() == (Registers {
                    index_y: wrap8(old.index_y + 1),
                    status: zn(p,
                    wrap8(old.index_y + 1)),
                    program_counter: next,
                    ..r
                }),
            Mnemonic::Dex => same_bus
                && new.regs() == (Registers {
                    index_x: wrap8(old.index_x - 1),
                    status: zn(p,
                    wrap8(old.index_x - 1)),
                    program_counter: next,
                    ..r
                }),
            Mnemonic::Dey => same_bus
                && new.regs() == (Registers {
                    index_y: wrap8(old.index_y - 1),
                    status: zn(p,
                    wrap8(old.index_y - 1)),
                    program_counter: next,
                    ..r
                }),
            _ => false,
        }
    }

    /// The effect of branches and jumps.
    pub open spec fn branch_effect(old: &Cpu, new: &Cpu, op: OpCode) -> bool {
        let r = old.regs();
        let a = old.operand_spec(op);
        let next = old.fallthrough_spec(op);
        let p = old.status;
        let same_bus = new.bus == old.bus;
        match op.mnemonic {
            Mnemonic::Bcc | Mnemonic::Bcs | Mnemonic::Beq | Mnemonic::Bne | Mnemonic::Bmi | Mnemonic::Bpl | Mnemonic::Bvc | Mnemonic::Bvs =>
                same_bus && new.regs() == (Registers {
                    program_counter: if branch_taken(op.mnemonic,
                    p) { a } else { next },
                    ..r
                }),
            Mnemonic::Jmp => same_bus && new.regs() == (Registers { program_counter: a, ..r }),
            _ => false,
        }
    }

    /// The effect of calls and returns.
    pub open spec fn subroutine_effect(old: &Cpu, new: &Cpu, op: OpCode) -> bool {
        let r = old.regs();
        let a = old.operand_spec(op);
        let next = old.fallthrough_spec(op);
        let sp = old.stack_pointer;
        let same_bus = new.bus == old.bus;
        match op.mnemonic {
            Mnemonic::Jsr => {
                let ret = wrap16(next - 1);
                (exists|mid: Bus| Bus::written(&old.bus, &mid, stack_addr(sp), hi_byte(ret))
                    && Bus::written(&mid, &new.bus, stack_addr(wrap8(sp - 1)), lo_byte(ret)))
                    && new.regs() == (Registers { stack_pointer: wrap8(sp - 2), program_counter: a, ..r })
            },
            Mnemonic::Rts => {
                let ret = join16(old.bus.peek_spec(stack_addr(wrap8(sp + 1))), old.bus.peek_spec(stack_addr(wrap8(sp + 2))));
                same_bus && new.regs() == (Registers {
                    stack_pointer: wrap8(sp + 2),
                    program_counter: wrap16(ret + 1),
                    ..r
                })
            },
            Mnemonic::Rti => {
                let st = old.bus.peek_spec(stack_addr(wrap8(sp + 1))) & !FLAG_BREAK;
                let ret = join16(old.bus.peek_spec(stack_addr(wrap8(sp + 2))), old.bus.peek_spec(stack_addr(wrap8(sp + 3))));
                same_bus && new.regs() == (Registers {
                    status: st,
                    stack_pointer: wrap8(sp + 3),
                    program_counter: ret,
                    ..r
                })
            },
            _ => false,
        }
    }

    /// The effect of stack pushes and pulls, flag changes, no-operation and halt.
    pub open spec fn stack_flag_effect(old: &Cpu, new: &Cpu, op: OpCode) -> bool {
        let r = old.regs();
        let next = old.fallthrough_spec(op);
        let p = old.status;
        let sp = old.stack_pointer;
        let same_bus = new.bus == old.bus;
        match op.mnemonic {
            Mnemonic::Pha => Bus::written(&old.bus, &new.bus, stack_addr(sp), old.accumulator)
                && new.regs() == (Registers { stack_pointer: wrap8(sp - 1), program_counter: next, ..r }),
            Mnemonic::Php => Bus::written(&old.bus, &new.bus, stack_addr(sp), p | FLAG_BREAK | FLAG_UNUSED)
                && new.regs() == (Registers { stack_pointer: wrap8(sp - 1), program_counter: next, ..r }),
            Mnemonic::Pla => {
                let v = old.bus.peek_spec(stack_addr(wrap8(sp + 1)));
                same_bus && new.regs() == (Registers {
                    accumulator: v,
                    status: zn(p,
                    v),
                    stack_pointer: wrap8(sp + 1),
                    program_counter: next,
                    ..r
                })
            },
            Mnemonic::Plp => {
                let v = old.bus.peek_spec(stack_addr(wrap8(sp + 1)));
                same_bus && new.regs() == (Registers {
                    status: v & !FLAG_BREAK,
                    stack_pointer: wrap8(sp + 1),
                    program_counter: next,
                    ..r
                })
            },
            Mnemonic::Clc | Mnemonic::Sec | Mnemonic::Cli | Mnemonic::Sei | Mnemonic::Cld | Mnemonic::Sed | Mnemonic::Clv =>
                same_bus && new.regs() == (Registers {
                    status: set_flag(p,
                    flag_op(op.mnemonic).0,
                    flag_op(op.mnemonic).1),
                    program_counter: next,
                    ..r
                }),
            Mnemonic::Nop | Mnemonic::Brk => same_bus
                && new.regs() == (Registers { program_counter: next, ..r }),
            _ => false,
        }
    }

    /// What `op`, standing at the program counter of `old`, does: `new` is the
    /// state after it. Memory that the instruction does not write is unchanged,
    /// and reads have their devices' side effects.
    pub open spec fn executes(old: &Cpu, new: &Cpu, op: OpCode) -> bool {
        &&& new.halted == (op.mnemonic == Mnemonic::Brk)
        &&& match op.mnemonic {
            Mnemonic::Lda | Mnemonic::Ldx | Mnemonic::Ldy | Mnemonic::Sta | Mnemonic::Stx
            | Mnemonic::Sty | Mnemonic::Tax | Mnemonic::Tay | Mnemonic::Txa | Mnemonic::Tya
            | Mnemonic::Tsx | Mnemonic::Txs => Cpu::transfer_effect(old, new, op),
            Mnemonic::Adc | Mnemonic::Sbc | Mnemonic::And | Mnemonic::Ora | Mnemonic::Eor
            | Mnemonic::Cmp | Mnemonic::Cpx | Mnemonic::Cpy | Mnemonic::Bit => Cpu::arithmetic_effect(old, new, op),
            Mnemonic::Asl | Mnemonic::Lsr | Mnemonic::Rol | Mnemonic::Ror | Mnemonic::Inc
            | Mnemonic::Dec | Mnemonic::Inx | Mnemonic::Iny | Mnemonic::Dex | Mnemonic::Dey => Cpu::modify_effect(old, new, op),
            Mnemonic::Bcc | Mnemonic::Bcs | Mnemonic::Beq | Mnemonic::Bne | Mnemonic::Bmi
            | Mnemonic::Bpl | Mnemonic::Bvc | Mnemonic::Bvs | Mnemonic::Jmp => Cpu::branch_effect(old, new, op),
            Mnemonic::Jsr | Mnemonic::Rts | Mnemonic::Rti => Cpu::subroutine_effect(old, new, op),
            Mnemonic::Pha | Mnemonic::Php | Mnemonic::Pla | Mnemonic::Plp | Mnemonic::Clc
            | Mnemonic::Sec | Mnemonic::Cli | Mnemonic::Sei | Mnemonic::Cld | Mnemonic::Sed
            | Mnemonic::Clv | Mnemonic::Nop | Mnemonic::Brk => Cpu::stack_flag_effect(old, new, op),
        }
    }

    /// A processor with cleared registers, the reset stack pointer and status,
    /// and the program counter at 0, in front of `bus`.
    pub fn new(bus: Bus) -> (r: Cpu)
        ensures
            r.regs() == (Registers {
                accumulator: 0,
                index_x: 0,
                index_y: 0,
                stack_pointer: STACK_AT_RESET,
                status: STATUS_AT_RESET,
                program_counter: 0,
            }),
            !r.halted,
            r.cycles == 0,
            r.bus == bus,
    {
        Cpu {
            accumulator: 0,
            index_x: 0,
            index_y: 0,
            stack_pointer: STACK_AT_RESET,
            status: STATUS_AT_RESET,
            program_counter: 0,
            halted: false,
            cycles: 0,
            bus,
        }
    }

    /// Clears the registers, sets the startup status and stack pointer, and
    /// takes the program counter from the reset vector.
    pub fn reset(&mut self)
        requires
            old(self).wf(),
        ensures
            final(self).wf(),
            final(self).regs() == (Registers {
                accumulator: 0,
                index_x: 0,
                index_y: 0,
                stack_pointer: STACK_AT_RESET,
                status: STATUS_AT_RESET,
                program_counter: old(self).bus.peek16_spec(RESET_VECTOR),
            }),
            !final(self).halted,
            final(self).bus == old(self).bus,
    {
        self.accumulator = 0;
        self.index_x = 0;
        self.index_y = 0;
        self.status = STATUS_AT_RESET;
        self.stack_pointer = STACK_AT_RESET;
        self.program_counter = self.bus.peek16(RESET_VECTOR);
        self.halted = false;
    }

    /// Copies `program` into memory at `base` and points the program counter at it.
    pub fn load(&mut self, base: u16, program: &Vec<u8>)
        requires
            old(self).wf(),
            base as int + program@.len() <= 0x10000,
        ensures
            final(self).wf(),
            Bus::loaded(&old(self).bus, &final(self).bus, base, program@),
            base as int + program@.len() <= crate::bus::RAM_SIZE ==> forall|i: int|
                0 <= i < program@.len() ==> final(self).bus.peek_spec((base + i) as u16) == program@[i],
            final(self).regs() == (Registers { program_counter: base, ..old(self).regs() }),
            final(self).halted == old(self).halted,
            final(self).cycles == old(self).cycles,
    {
        self.bus.load(base, program);
        self.program_counter = base;
    }

    /// Sets Zero iff `result` is 0 and Negative iff its bit 7 is set, keeping
    /// every other flag.
    fn update_zero_and_negative_flags(&mut self, result: u8)
        ensures
            final(self).regs() == (Registers { status: zn(old(self).status, result), ..old(self).regs() }),
            final(self).bus == old(self).bus,
            final(self).halted == old(self).halted,
            final(self).cycles == old(self).cycles,
    {
        self.status = zn_status(self.status, result);
    }

    /// Pushes `value` onto the stack: a write at the stack pointer's slot, then
    /// a decrement of the stack pointer.
    pub fn push(&mut self, value: u8)
        requires
            old(self).wf(),
        ensures
            final(self).wf(),
            Cpu::pushed(old(self), final(self), value),
    {
        self.bus.write(STACK_BASE + self.stack_pointer as u16, value);
        self.stack_pointer = self.stack_pointer.wrapping_sub(1);
    }

    /// Pops a byte: an increment of the stack pointer, then a read of its slot.
    pub fn pop(&mut self) -> (r: u8)
        requires
            old(self).wf(),
        ensures
            final(self).wf(),
            Cpu::popped(old(self), final(self), r),
    {
        self.stack_pointer = self.stack_pointer.wrapping_add(1);
        self.bus.peek(STACK_BASE + self.stack_pointer as u16)
    }

    /// Resolves `mode` for an instruction whose operand bytes start at `at`,
    /// reading memory without side effects.
    pub fn operand_address(&self, mode: AddressingMode, at: u16) -> (r: u16)
        requires
            self.wf(),
        ensures
            r == self.operand_address_spec(mode, at),
    {
        reveal(Cpu::operand_address_spec);
        match mode {
            AddressingMode::ZeroPage => self.bus.peek(at) as u16,
            AddressingMode::ZeroPageX => self.bus.peek(at).wrapping_add(self.index_x) as u16,
            AddressingMode::ZeroPageY => self.bus.peek(at).wrapping_add(self.index_y) as u16,
            AddressingMode::Absolute => self.bus.peek16(at),
            AddressingMode::AbsoluteX => self.bus.peek16(at).wrapping_add(self.index_x as u16),
            AddressingMode::AbsoluteY => self.bus.peek16(at).wrapping_add(self.index_y as u16),
            AddressingMode::Indirect => self.jump_target(at),
            AddressingMode::IndirectX => self.indexed_indirect(at),
            AddressingMode::IndirectY => self.indirect_indexed(at),
            AddressingMode::Relative => self.branch_target(at),
            _ => at,
        }
    }

    /// The target of the jump-indirect instruction, with the page wrap of its
    /// pointer's high byte.
    fn jump_target(&self, at: u16) -> (r: u16)
        requires
            self.wf(),
        ensures
            r == self.operand_address_spec(AddressingMode::Indirect, at),
    {
        reveal(Cpu::operand_address_spec);
        let ptr = self.bus.peek16(at);
        let lo = self.bus.peek(ptr);
        let hi = self.bus.peek(indirect_high_address(ptr));
        join(lo, hi)
    }

    /// The pointer at the zero-page address `operand + X`, wrapping in the zero page.
    fn indexed_indirect(&self, at: u16) -> (r: u16)
        requires
            self.wf(),
        ensures
            r == self.operand_address_spec(AddressingMode::IndirectX, at),
    {
        reveal(Cpu::operand_address_spec);
        let p = self.bus.peek(at).wrapping_add(self.index_x);
        let lo = self.bus.peek(p as u16);
        let hi = self.bus.peek(p.wrapping_add(1) as u16);
        join(lo, hi)
    }

    /// The pointer at the zero-page address `operand`, plus Y.
    fn indirect_indexed(&self, at: u16) -> (r: u16)
        requires
            self.wf(),
        ensures
            r == self.operand_address_spec(AddressingMode::IndirectY, at),
    {
        reveal(Cpu::operand_address_spec);
        let p = self.bus.peek(at);
        let lo = self.bus.peek(p as u16);
        let hi = self.bus.peek(p.wrapping_add(1) as u16);
        join(lo, hi).wrapping_add(self.index_y as u16)
    }

    /// The address after the displacement byte at `at`, moved by that signed displacement.
    fn branch_target(&self, at: u16) -> (r: u16)
        requires
            self.wf(),
        ensures
            r == self.operand_address_spec(AddressingMode::Relative, at),
    {
        reveal(Cpu::operand_address_spec);
        let d = self.bus.peek(at);
        let after = at.wrapping_add(1);
        if d >= 0x80 {
            after.wrapping_sub(256 - d as u16)
        } else {
            after.wrapping_add(d as u16)
        }
    }

    /// Loads, stores and register transfers.
    fn execute_transfer(&mut self, op: OpCode, addr: u16, next: u16)
        requires
            old(self).wf(),
            !old(self).halted,
            addr == old(self).operand_spec(op),
            next == old(self).fallthrough_spec(op),
            matches!(op.mnemonic, Mnemonic::Lda | Mnemonic::Ldx | Mnemonic::Ldy | Mnemonic::Sta | Mnemonic::Stx | Mnemonic::Sty | Mnemonic::Tax | Mnemonic::Tay | Mnemonic::Txa | Mnemonic::Tya | Mnemonic::Tsx | Mnemonic::Txs),
        ensures
            final(self).wf(),
            final(self).halted == old(self).halted,
            final(self).cycles == old(self).cycles,
            Cpu::transfer_effect(old(self), final(self), op),
    {
        match op.mnemonic {
            Mnemonic::Lda => {
                let v = self.bus.read(addr);
                self.accumulator = v;
                self.update_zero_and_negative_flags(v);
            },
            Mnemonic::Ldx => {
                let v = self.bus.read(addr);
                self.index_x = v;
                self.update_zero_and_negative_flags(v);
            },
            Mnemonic::Ldy => {
                let v = self.bus.read(addr);
                self.index_y = v;
                self.update_zero_and_negative_flags(v);
            },
            Mnemonic::Sta => self.bus.write(addr, self.accumulator),
            Mnemonic::Stx => self.bus.write(addr, self.index_x),
            Mnemonic::Sty => self.bus.write(addr, self.index_y),
            Mnemonic::Tax => {
                self.index_x = self.accumulator;
                self.update_zero_and_negative_flags(self.index_x);
            },
            Mnemonic::Tay => {
                self.index_y = self.accumulator;
                self.update_zero_and_negative_flags(self.index_y);
            },
            Mnemonic::Txa => {
                self.accumulator = self.index_x;
                self.update_zero_and_negative_flags(self.accumulator);
            },
            Mnemonic::Tya => {
                self.accumulator = self.index_y;
                self.update_zero_and_negative_flags(self.accumulator);
            },
            Mnemonic::Tsx => {
                self.index_x = self.stack_pointer;
                self.update_zero_and_negative_flags(self.index_x);
            },
            _ => self.stack_pointer = self.index_x,
        }
        self.program_counter = next;
    }

    /// Arithmetic, logic, comparisons and bit tests on a memory operand.
    fn execute_arithmetic(&mut self, op: OpCode, addr: u16, next: u16)
        requires
            old(self).wf(),
            !old(self).halted,
            addr == old(self).operand_spec(op),
            next == old(self).fallthrough_spec(op),
            matches!(op.mnemonic, Mnemonic::Adc | Mnemonic::Sbc | Mnemonic::And | Mnemonic::Ora | Mnemonic::Eor | Mnemonic::Cmp | Mnemonic::Cpx | Mnemonic::Cpy | Mnemonic::Bit),
        ensures
            final(self).wf(),
            final(self).halted == old(self).halted,
            final(self).cycles == old(self).cycles,
            Cpu::arithmetic_effect(old(self), final(self), op),
    {
        let m = self.bus.read(addr);
        match op.mnemonic {
            Mnemonic::Adc => self.add_with_carry(m),
            Mnemonic::Sbc => self.add_with_carry(255 - m),
            Mnemonic::And => {
                self.accumulator = self.accumulator & m;
                self.update_zero_and_negative_flags(self.accumulator);
            },
            Mnemonic::Ora => {
                self.accumulator = self.accumulator | m;
                self.update_zero_and_negative_flags(self.accumulator);
            },
            Mnemonic::Eor => {
                self.accumulator = self.accumulator ^ m;
                self.update_zero_and_negative_flags(self.accumulator);
            },
            Mnemonic::Cmp => self.status = compare_status(self.status, self.accumulator, m),
            Mnemonic::Cpx => self.status = compare_status(self.status, self.index_x, m),
            Mnemonic::Cpy => self.status = compare_status(self.status, self.index_y, m),
            _ => {
                let p = with_flag(self.status, FLAG_ZERO, self.accumulator & m == 0);
                let p = with_flag(p, FLAG_OVERFLOW, m & 0x40 != 0);
                self.status = with_flag(p, FLAG_NEGATIVE, m >= 0x80);
            },
        }
        self.program_counter = next;
    }

    /// Shifts, rotates, increments and decrements.
    #[verifier::rlimit(40)]
    fn execute_modify(&mut self, op: OpCode, addr: u16, next: u16)
        requires
            old(self).wf(),
            !old(self).halted,
            addr == old(self).operand_spec(op),
            next == old(self).fallthrough_spec(op),
            matches!(op.mnemonic, Mnemonic::Asl | Mnemonic::Lsr | Mnemonic::Rol | Mnemonic::Ror | Mnemonic::Inc | Mnemonic::Dec | Mnemonic::Inx | Mnemonic::Iny | Mnemonic::Dex | Mnemonic::Dey),
        ensures
            final(self).wf(),
            final(self).halted == old(self).halted,
            final(self).cycles == old(self).cycles,
            Cpu::modify_effect(old(self), final(self), op),
    {
        match op.mnemonic {
            Mnemonic::Inx => {
                self.index_x = self.index_x.wrapping_add(1);
                self.update_zero_and_negative_flags(self.index_x);
            },
            Mnemonic::Iny => {
                self.index_y = self.index_y.wrapping_add(1);
                self.update_zero_and_negative_flags(self.index_y);
            },
            Mnemonic::Dex => {
                self.index_x = self.index_x.wrapping_sub(1);
                self.update_zero_and_negative_flags(self.index_x);
            },
            Mnemonic::Dey => {
                self.index_y = self.index_y.wrapping_sub(1);
                self.update_zero_and_negative_flags(self.index_y);
            },
            Mnemonic::Inc | Mnemonic::Dec => {
                self.modify_memory(op, addr, next);
                return;
            },
            _ => {
                if op.mode == AddressingMode::Accumulator {
                    let (r, st) = shift(op.mnemonic, self.accumulator, self.status);
                    self.accumulator = r;
                    self.status = st;
                } else {
                    self.modify_memory(op, addr, next);
                    return;
                }
            },
        }
        self.program_counter = next;
    }

    /// Branches and jumps.
    fn execute_branch(&mut self, op: OpCode, addr: u16, next: u16)
        requires
            old(self).wf(),
            !old(self).halted,
            addr == old(self).operand_spec(op),
            next == old(self).fallthrough_spec(op),
            matches!(op.mnemonic, Mnemonic::Bcc | Mnemonic::Bcs | Mnemonic::Beq | Mnemonic::Bne | Mnemonic::Bmi | Mnemonic::Bpl | Mnemonic::Bvc | Mnemonic::Bvs | Mnemonic::Jmp),
        ensures
            final(self).wf(),
            final(self).halted == old(self).halted,
            final(self).cycles == old(self).cycles,
            Cpu::branch_effect(old(self), final(self), op),
    {
        let taken = match op.mnemonic {
            Mnemonic::Bcc => self.status & FLAG_CARRY == 0,
            Mnemonic::Bcs => self.status & FLAG_CARRY != 0,
            Mnemonic::Bne => self.status & FLAG_ZERO == 0,
            Mnemonic::Beq => self.status & FLAG_ZERO != 0,
            Mnemonic::Bpl => self.status & FLAG_NEGATIVE == 0,
            Mnemonic::Bmi => self.status & FLAG_NEGATIVE != 0,
            Mnemonic::Bvc => self.status & FLAG_OVERFLOW == 0,
            Mnemonic::Bvs => self.status & FLAG_OVERFLOW != 0,
            _ => true,
        };
        self.program_counter = if taken { addr } else { next };
    }

    /// Calls a subroutine: pushes the address of the call's last byte, high
    /// byte first, and jumps.
    #[verifier::rlimit(40)]
    fn call_subroutine(&mut self, op: OpCode, addr: u16, next: u16)
        requires
            old(self).wf(),
            !old(self).halted,
            addr == old(self).operand_spec(op),
            next == old(self).fallthrough_spec(op),
            op.mnemonic == Mnemonic::Jsr,
        ensures
            final(self).wf(),
            final(self).halted == old(self).halted,
            final(self).cycles == old(self).cycles,
            Cpu::subroutine_effect(old(self), final(self), op),
    {
        let ret = next.wrapping_sub(1);
        assert(ret == wrap16(next - 1));
        let ghost before = self.bus;
        self.push((ret / 256) as u8);
        let ghost mid = self.bus;
        self.push((ret % 256) as u8);
        assert(Bus::written(&before, &mid, stack_addr(old(self).stack_pointer), hi_byte(ret))
            && Bus::written(&mid, &self.bus, stack_addr(wrap8(old(self).stack_pointer - 1)), lo_byte(ret)));
        self.program_counter = addr;
    }

    /// Returns from a subroutine: pulls the return address and goes one past it.
    fn return_from_subroutine(&mut self, op: OpCode, addr: u16, next: u16)
        requires
            old(self).wf(),
            !old(self).halted,
            addr == old(self).operand_spec(op),
            next == old(self).fallthrough_spec(op),
            op.mnemonic == Mnemonic::Rts,
        ensures
            final(self).wf(),
            final(self).halted == old(self).halted,
            final(self).cycles == old(self).cycles,
            Cpu::subroutine_effect(old(self), final(self), op),
    {
        let ghost sp = self.stack_pointer;
        assert(wrap8(wrap8(sp + 1) + 1) == wrap8(sp + 2));
        let lo = self.pop();
        let hi = self.pop();
        self.program_counter = join(lo, hi).wrapping_add(1);
    }

    /// Returns from an interrupt: pulls the status, then the program counter.
    fn return_from_interrupt(&mut self, op: OpCode, addr: u16, next: u16)
        requires
            old(self).wf(),
            !old(self).halted,
            addr == old(self).operand_spec(op),
            next == old(self).fallthrough_spec(op),
            op.mnemonic == Mnemonic::Rti,
        ensures
            final(self).wf(),
            final(self).halted == old(self).halted,
            final(self).cycles == old(self).cycles,
            Cpu::subroutine_effect(old(self), final(self), op),
    {
        let ghost sp = self.stack_pointer;
        assert(wrap8(wrap8(sp + 1) + 1) == wrap8(sp + 2));
        assert(wrap8(wrap8(sp + 2) + 1) == wrap8(sp + 3));
        let st = self.pop();
        let lo = self.pop();
        let hi = self.pop();
        self.status = st & !FLAG_BREAK;
        self.program_counter = join(lo, hi);
    }

    /// Read-modify-write instructions on a memory operand.
    fn modify_memory(&mut self, op: OpCode, addr: u16, next: u16)
        requires
            old(self).wf(),
            !old(self).halted,
            addr == old(self).operand_spec(op),
            next == old(self).fallthrough_spec(op),
            matches!(op.mnemonic, Mnemonic::Inc | Mnemonic::Dec) || (matches!(op.mnemonic, Mnemonic::Asl | Mnemonic::Lsr | Mnemonic::Rol | Mnemonic::Ror) && op.mode != AddressingMode::Accumulator),
        ensures
            final(self).wf(),
            final(self).halted == old(self).halted,
            final(self).cycles == old(self).cycles,
            Cpu::modify_effect(old(self), final(self), op),
    {
        let ghost before = self.bus;
        let m = self.bus.read(addr);
        let ghost mid = self.bus;
        let (r, st) = match op.mnemonic {
            Mnemonic::Inc => (m.wrapping_add(1), zn_status(self.status, m.wrapping_add(1))),
            Mnemonic::Dec => (m.wrapping_sub(1), zn_status(self.status, m.wrapping_sub(1))),
            _ => shift(op.mnemonic, m, self.status),
        };
        self.bus.write(addr, r);
        assert(Bus::after_read(&before, &mid, addr) && Bus::written(&mid, &self.bus, addr, r));
        self.status = st;
        self.program_counter = next;
    }

    /// Stack pushes and pulls, flag changes and no-operation.
    fn execute_stack_and_flags(&mut self, op: OpCode, addr: u16, next: u16)
        requires
            old(self).wf(),
            !old(self).halted,
            addr == old(self).operand_spec(op),
            next == old(self).fallthrough_spec(op),
            matches!(op.mnemonic, Mnemonic::Pha | Mnemonic::Php | Mnemonic::Pla | Mnemonic::Plp | Mnemonic::Clc | Mnemonic::Sec | Mnemonic::Cli | Mnemonic::Sei | Mnemonic::Cld | Mnemonic::Sed | Mnemonic::Clv | Mnemonic::Nop),
        ensures
            final(self).wf(),
            final(self).halted == old(self).halted,
            final(self).cycles == old(self).cycles,
            Cpu::stack_flag_effect(old(self), final(self), op),
    {
        match op.mnemonic {
            Mnemonic::Pha => self.push(self.accumulator),
            Mnemonic::Php => self.push(self.status | FLAG_BREAK | FLAG_UNUSED),
            Mnemonic::Pla => {
                let v = self.pop();
                self.accumulator = v;
                self.update_zero_and_negative_flags(v);
            },
            Mnemonic::Plp => {
                let v = self.pop();
                self.status = v & !FLAG_BREAK;
            },
            Mnemonic::Nop => {},
            _ => {
                let (mask, on) = match op.mnemonic {
                    Mnemonic::Clc => (FLAG_CARRY, false),
                    Mnemonic::Sec => (FLAG_CARRY, true),
                    Mnemonic::Cli => (FLAG_INTERRUPT_DISABLE, false),
                    Mnemonic::Sei => (FLAG_INTERRUPT_DISABLE, true),
                    Mnemonic::Cld => (FLAG_DECIMAL, false),
                    Mnemonic::Sed => (FLAG_DECIMAL, true),
                    _ => (FLAG_OVERFLOW, false),
                };
                self.status = with_flag(self.status, mask, on);
            },
        }
        self.program_counter = next;
    }

    /// Adds `m` and the carry to the accumulator, setting Carry, Overflow,
    /// Zero and Negative from the sum.
    fn add_with_carry(&mut self, m: u8)
        ensures
            (final(self).accumulator, final(self).status) == adc_spec(old(self).accumulator, m, old(self).status),
            final(self).index_x == old(self).index_x,
            final(self).index_y == old(self).index_y,
            final(self).stack_pointer == old(self).stack_pointer,
            final(self).program_counter == old(self).program_counter,
            final(self).bus == old(self).bus,
            final(self).halted == old(self).halted,
            final(self).cycles == old(self).cycles,
    {
        let a = self.accumulator;
        let carry: u16 = if self.status & FLAG_CARRY != 0 { 1 } else { 0 };
        let sum: u16 = a as u16 + m as u16 + carry;
        let r = (sum % 256) as u8;
        let overflow = (a >= 0x80) == (m >= 0x80) && (r >= 0x80) != (a >= 0x80);
        let p = with_flag(self.status, FLAG_CARRY, sum > 255);
        let p = with_flag(p, FLAG_OVERFLOW, overflow);
        self.accumulator = r;
        self.status = zn_status(p, r);
    }

    /// Carries out `op`, which stands at the program counter, on its resolved
    /// operand address `addr`; `next` is the address just past it.
    fn execute(&mut self, op: OpCode, addr: u16, next: u16)
        requires
            old(self).wf(),
            !old(self).halted,
            addr == old(self).operand_spec(op),
            next == old(self).fallthrough_spec(op),
            op.mnemonic != Mnemonic::Brk,
        ensures
            final(self).wf(),
            final(self).cycles == old(self).cycles,
            Cpu::executes(old(self), final(self), op),
    {
        match op.mnemonic {
            Mnemonic::Lda | Mnemonic::Ldx | Mnemonic::Ldy | Mnemonic::Sta | Mnemonic::Stx | Mnemonic::Sty
            | Mnemonic::Tax | Mnemonic::Tay | Mnemonic::Txa | Mnemonic::Tya | Mnemonic::Tsx | Mnemonic::Txs => {
                self.execute_transfer(op, addr, next)
            },
            Mnemonic::Adc | Mnemonic::Sbc | Mnemonic::And | Mnemonic::Ora | Mnemonic::Eor | Mnemonic::Cmp
            | Mnemonic::Cpx | Mnemonic::Cpy | Mnemonic::Bit => self.execute_arithmetic(op, addr, next),
            Mnemonic::Asl | Mnemonic::Lsr | Mnemonic::Rol | Mnemonic::Ror | Mnemonic::Inc | Mnemonic::Dec
            | Mnemonic::Inx | Mnemonic::Iny | Mnemonic::Dex | Mnemonic::Dey => self.execute_modify(op, addr, next),
            Mnemonic::Bcc | Mnemonic::Bcs | Mnemonic::Beq | Mnemonic::Bne | Mnemonic::Bmi | Mnemonic::Bpl
            | Mnemonic::Bvc | Mnemonic::Bvs | Mnemonic::Jmp => self.execute_branch(op, addr, next),
            Mnemonic::Jsr => self.call_subroutine(op, addr, next),
            Mnemonic::Rts => self.return_from_subroutine(op, addr, next),
            Mnemonic::Rti => self.return_from_interrupt(op, addr, next),
            _ => self.execute_stack_and_flags(op, addr, next),
        }
    }

    /// The cycles that `op` costs beyond its table value.
    fn extra_cycles(&self, op: OpCode, addr: u16, next: u16) -> (r: u64)
        requires
            self.wf(),
            addr == self.operand_spec(op),
            next == self.fallthrough_spec(op),
        ensures
            r == self.extra_cycles_spec(op),
            r <= 2,
    {
        reveal(Cpu::extra_cycles_spec);
        let taken = match op.mnemonic {
            Mnemonic::Bcc => Some(self.status & FLAG_CARRY == 0),
            Mnemonic::Bcs => Some(self.status & FLAG_CARRY != 0),
            Mnemonic::Bne => Some(self.status & FLAG_ZERO == 0),
            Mnemonic::Beq => Some(self.status & FLAG_ZERO != 0),
            Mnemonic::Bpl => Some(self.status & FLAG_NEGATIVE == 0),
            Mnemonic::Bmi => Some(self.status & FLAG_NEGATIVE != 0),
            Mnemonic::Bvc => Some(self.status & FLAG_OVERFLOW == 0),
            Mnemonic::Bvs => Some(self.status & FLAG_OVERFLOW != 0),
            _ => None,
        };
        match taken {
            Some(true) => if addr / 256 != next / 256 { 2 } else { 1 },
            Some(false) => 0,
            None => {
                let reads = match op.mnemonic {
                    Mnemonic::Lda | Mnemonic::Ldx | Mnemonic::Ldy | Mnemonic::Adc | Mnemonic::Sbc | Mnemonic::And
                    | Mnemonic::Ora | Mnemonic::Eor | Mnemonic::Cmp => true,
                    _ => false,
                };
                let indexed = match op.mode {
                    AddressingMode::AbsoluteX | AddressingMode::AbsoluteY | AddressingMode::IndirectY => true,
                    _ => false,
                };
                if reads && indexed && self.index_base(op.mode, self.program_counter.wrapping_add(1)) / 256 != addr / 256 {
                    1
                } else {
                    0
                }
            },
        }
    }

    /// Exec form of `index_base_spec`.
    fn index_base(&self, mode: AddressingMode, at: u16) -> (r: u16)
        requires
            self.wf(),
        ensures
            r == self.index_base_spec(mode, at),
    {
        match mode {
            AddressingMode::IndirectY => {
                let p = self.bus.peek(at);
                join(self.bus.peek(p as u16), self.bus.peek(p.wrapping_add(1) as u16))
            },
            _ => self.bus.peek16(at),
        }
    }

    /// One step as `step` performs it: `new` is `old` after the step, and `r`
    /// is what the step returned.
    pub open spec fn stepped(old: &Cpu, new: &Cpu, r: Result<StepOutcome, CpuError>) -> bool {
        &&& (old.halted ==> r == Ok::<StepOutcome, CpuError>(StepOutcome::Halted) && *new == *old)
        &&& (!old.halted ==> match opcode_of(old.bus.peek_spec(old.program_counter)) {
                None => r == Err::<StepOutcome, CpuError>(
                    CpuError::UnimplementedOpcode(old.bus.peek_spec(old.program_counter)),
                ) && *new == *old,
                Some(op) => Cpu::executes(old, new, op) && r == Ok::<StepOutcome, CpuError>(
                    if op.mnemonic == Mnemonic::Brk { StepOutcome::Halted } else { StepOutcome::Executed },
                ) && new.cycles == (old.cycles + op.cycles + old.extra_cycles_spec(op)) % 0x1_0000_0000_0000_0000,
            })
    }

    /// Runs one instruction: fetches the opcode at the program counter, looks
    /// it up, resolves its operand and carries it out. An opcode missing from
    /// the table fails with `UnimplementedOpcode` and changes nothing; a halted
    /// processor stays as it is.
    pub fn step(&mut self) -> (r: Result<StepOutcome, CpuError>)
        requires
            old(self).wf(),
        ensures
            final(self).wf(),
            Cpu::stepped(old(self), final(self), r),
    {
        if self.halted {
            return Ok(StepOutcome::Halted);
        }
        let code = self.bus.peek(self.program_counter);
        let op = match lookup(code) {
            None => return Err(CpuError::UnimplementedOpcode(code)),
            Some(op) => op,
        };
        let addr = self.operand_address(op.mode, self.program_counter.wrapping_add(1));
        let next = self.program_counter.wrapping_add(op.len as u16);
        let cost = op.cycles as u64 + self.extra_cycles(op, addr, next);
        let cycles = self.cycles.wrapping_add(cost);
        match op.mnemonic {
            Mnemonic::Brk => {
                self.program_counter = next;
                self.halted = true;
                self.cycles = cycles;
                assert(Cpu::stack_flag_effect(old(self), self, op));
                return Ok(StepOutcome::Halted);
            },
            _ => self.execute(op, addr, next),
        }
        let ghost executed = *self;
        self.cycles = cycles;
        proof {
            lemma_executes_ignores_cycles(*old(self), executed, *self, op);
        }
        Ok(StepOutcome::Executed)
    }

    /// `states` is a run of steps that each executed an instruction and went on:
    /// every state is the one before it after a step that returned `Executed`.
    pub open spec fn executed_run(states: Seq<Cpu>) -> bool {
        forall|i: int|
            0 <= i < states.len() - 1 ==> #[trigger] Cpu::stepped(
                &states[i],
                &states[i + 1],
                Ok::<StepOutcome, CpuError>(StepOutcome::Executed),
            )
    }

    /// `states` is a run of successful steps that stops at the first halt:
    /// every state is the one before it after a step that returned `Ok`, and
    /// only the last state may be halted.
    pub open spec fn completed_run(states: Seq<Cpu>) -> bool {
        forall|i: int|
            0 <= i < states.len() - 1 ==> (#[trigger] Cpu::stepped(
                &states[i],
                &states[i + 1],
                Ok::<StepOutcome, CpuError>(StepOutcome::Executed),
            ) || Cpu::stepped(&states[i], &states[i + 1], Ok::<StepOutcome, CpuError>(StepOutcome::Halted)))
                && (i + 2 < states.len() ==> !states[i + 1].halted)
    }

    /// Steps until the processor halts, a step fails, or `max_steps` steps have
    /// run. On success it returns the number `n` of steps: the final state is
    /// reached from the first by `n` steps, each as `step` describes, and fewer
    /// than `max_steps` steps ran only if the processor halted. On failure every
    /// step before the failing one executed an instruction, and the failing
    /// step changed nothing.
    pub fn run(&mut self, max_steps: usize) -> (r: Result<usize, CpuError>)
        requires
            old(self).wf(),
        ensures
            final(self).wf(),
            match r {
                Ok(n) => n <= max_steps && (n < max_steps ==> final(self).halted) && exists|states: Seq<Cpu>|
                    states.len() == n + 1 && states[0] == *old(self) && states.last() == *final(self)
                        && #[trigger] Cpu::completed_run(states),
                Err(e) => exists|states: Seq<Cpu>|
                    states.len() <= max_steps && states.len() >= 1 && states[0] == *old(self)
                        && states.last() == *final(self) && #[trigger] Cpu::executed_run(states)
                        && Cpu::stepped(final(self), final(self), Err::<StepOutcome, CpuError>(e)),
            },
    {
        let mut n: usize = 0;
        let ghost states: Seq<Cpu> = seq![*self];
        while n < max_steps
            invariant
                self.wf(),
                n <= max_steps,
                states.len() == n + 1,
                states[0] == *old(self),
                states.last() == *self,
                Cpu::executed_run(states),
                forall|i: int| 0 < i < states.len() ==> !(#[trigger] states[i]).halted,
            decreases max_steps - n,
        {
            let ghost before = *self;
            let r = self.step();
            match r {
                Err(e) => {
                    return Err(e);
                },
                Ok(StepOutcome::Halted) => {
                    proof {
                        let all = states.push(*self);
                        assert forall|i: int| 0 <= i < all.len() - 1 implies (#[trigger] Cpu::stepped(
                            &all[i],
                            &all[i + 1],
                            Ok::<StepOutcome, CpuError>(StepOutcome::Executed),
                        ) || Cpu::stepped(&all[i], &all[i + 1], Ok::<StepOutcome, CpuError>(StepOutcome::Halted)))
                            && (i + 2 < all.len() ==> !all[i + 1].halted) by {
                            if i < n {
                                assert(all[i] == states[i] && all[i + 1] == states[i + 1]);
                                assert(Cpu::stepped(&states[i], &states[i + 1], Ok::<StepOutcome, CpuError>(StepOutcome::Executed)));
                            } else {
                                assert(all[i] == before && all[i + 1] == *self);
                            }
                        }
                        assert(Cpu::completed_run(all));
                    }
                    return Ok(n + 1);
                },
                Ok(StepOutcome::Executed) => {},
            }
            proof {
                let next = states.push(*self);
                assert(!self.halted);
                assert forall|i: int| 0 <= i < next.len() - 1 implies #[trigger] Cpu::stepped(
                    &next[i],
                    &next[i + 1],
                    Ok::<StepOutcome, CpuError>(StepOutcome::Executed),
                ) by {
                    if i < n {
                        assert(next[i] == states[i] && next[i + 1] == states[i + 1]);
                    } else {
                        assert(next[i] == before && next[i + 1] == *self);
                    }
                }
                assert forall|i: int| 0 < i < next.len() implies !(#[trigger] next[i]).halted by {
                    if i <= n {
                        assert(next[i] == states[i]);
                    }
                }
                states = next;
            }
            n = n + 1;
        }
        proof {
            assert forall|i: int| 0 <= i < states.len() - 1 implies (#[trigger] Cpu::stepped(
                &states[i],
                &states[i + 1],
                Ok::<StepOutcome, CpuError>(StepOutcome::Executed),
            ) || Cpu::stepped(&states[i], &states[i + 1], Ok::<StepOutcome, CpuError>(StepOutcome::Halted)))
                && (i + 2 < states.len() ==> !states[i + 1].halted) by {
                assert(Cpu::stepped(&states[i], &states[i + 1], Ok::<StepOutcome, CpuError>(StepOutcome::Executed)));
            }
            assert(Cpu::completed_run(states));
        }
        Ok(n)
    }

    /// `new` is `old` after dispatching an interrupt through `vector`: the
    /// program counter (high byte first) and the status (Break clear, bit 5
    /// set) are pushed, interrupts are disabled, and the program counter comes
    /// from the vector.
    pub open spec fn interrupted(old: &Cpu, new: &Cpu, vector: u16) -> bool {
        &&& new.halted == old.halted
        &&& new.cycles == (old.cycles + INTERRUPT_CYCLES) % 0x1_0000_0000_0000_0000
        &&& exists|b1: Bus, b2: Bus|
            Bus::written(&old.bus, &b1, stack_addr(old.stack_pointer), hi_byte(old.program_counter))
            && #[trigger] Bus::written(&b1, &b2, stack_addr(wrap8(old.stack_pointer - 1)), lo_byte(old.program_counter))
            && Bus::written(&b2, &new.bus, stack_addr(wrap8(old.stack_pointer - 2)),
                (old.status & !FLAG_BREAK) | FLAG_UNUSED)
        &&& new.regs() == (Registers {
            stack_pointer: wrap8(old.stack_pointer - 3),
            status: old.status | FLAG_INTERRUPT_DISABLE,
            program_counter: old.bus.peek16_spec(vector),
            ..old.regs()
        })
    }

    /// Dispatches an interrupt through `vector`: pushes the program counter
    /// (high byte first) and the status (Break clear, bit 5 set), disables
    /// interrupts and loads the program counter from the vector.
    fn interrupt(&mut self, vector: u16)
        requires
            old(self).wf(),
            owner(vector) == Owner::Cartridge,
            owner(next_addr(vector)) == Owner::Cartridge,
        ensures
            final(self).wf(),
            Cpu::interrupted(old(self), final(self), vector),
    {
        let pc = self.program_counter;
        let ghost b0 = self.bus;
        self.push((pc / 256) as u8);
        let ghost b1 = self.bus;
        self.push((pc % 256) as u8);
        let ghost b2 = self.bus;
        self.push((self.status & !FLAG_BREAK) | FLAG_UNUSED);
        assert(Bus::written(&b0, &b1, stack_addr(old(self).stack_pointer), hi_byte(pc))
            && Bus::written(&b1, &b2, stack_addr(wrap8(old(self).stack_pointer - 1)), lo_byte(pc)));
        assert(wrap8(wrap8(wrap8(old(self).stack_pointer - 1) - 1) - 1) == wrap8(old(self).stack_pointer - 3));
        self.status = self.status | FLAG_INTERRUPT_DISABLE;
        self.program_counter = self.bus.peek16(vector);
        self.cycles = self.cycles.wrapping_add(INTERRUPT_CYCLES);
        assert(self.bus.peek16_spec(vector) == old(self).bus.peek16_spec(vector));
    }

    /// A non-maskable interrupt: always dispatched, through the NMI vector.
    pub fn nmi(&mut self)
        requires
            old(self).wf(),
        ensures
            final(self).wf(),
            Cpu::interrupted(old(self), final(self), NMI_VECTOR),
    {
        self.interrupt(NMI_VECTOR);
    }

    /// A maskable interrupt request: dispatched through the IRQ vector unless
    /// interrupts are disabled. Returns whether it was dispatched.
    pub fn irq(&mut self) -> (r: bool)
        requires
            old(self).wf(),
        ensures
            final(self).wf(),
            r == !flag(old(self).status, FLAG_INTERRUPT_DISABLE),
            !r ==> *final(self) == *old(self),
            r ==> Cpu::interrupted(old(self), final(self), IRQ_VECTOR),
    {
        if self.status & FLAG_INTERRUPT_DISABLE != 0 {
            return false;
        }
        self.interrupt(IRQ_VECTOR);
        true
    }
}

/// Exec form of `compare_spec`.
fn compare_status(p: u8, r: u8, m: u8) -> (st: u8)
    ensures
        st == compare_spec(p, r, m),
{
    zn_status(with_flag(p, FLAG_CARRY, r >= m), r.wrapping_sub(m))
}

/// Exec form of `shift_spec`.
fn shift(mnemonic: Mnemonic, v: u8, p: u8) -> (r: (u8, u8))
    ensures
        r == shift_spec(mnemonic, v, p),
{
    let carry = p & FLAG_CARRY != 0;
    let (r, out) = match mnemonic {
        Mnemonic::Asl => (((v as u16 * 2) % 256) as u8, v >= 0x80),
        Mnemonic::Lsr => (v / 2, v % 2 == 1),
        Mnemonic::Rol => (((v as u16 * 2 + if carry { 1 } else { 0 }) % 256) as u8, v >= 0x80),
        _ => (v / 2 + if carry { 128 } else { 0 }, v % 2 == 1),
    };
    (r, zn_status(with_flag(p, FLAG_CARRY, out), r))
}

/// Exec form of `zn`.
fn zn_status(p: u8, v: u8) -> (r: u8)
    ensures
        r == zn(p, v),
{
    let p = with_flag(p, FLAG_ZERO, v == 0);
    with_flag(p, FLAG_NEGATIVE, v >= 0x80)
}

/// Exec form of `set_flag`.
fn with_flag(p: u8, mask: u8, on: bool) -> (r: u8)
    ensures
        r == set_flag(p, mask, on),
{
    if on {
        p | mask
    } else {
        p & !mask
    }
}

/// Two bytes joined little-endian.
fn join(lo: u8, hi: u8) -> (r: u16)
    ensures
        r == join16(lo, hi),
{
    hi as u16 * 256 + lo as u16
}

/// The address from which the jump-indirect instruction reads the high byte
/// of its target when its pointer is at `ptr`.
pub fn indirect_high_address(ptr: u16) -> (r: u16)
    ensures
        r == indirect_high_spec(ptr),
{
    if ptr % 256 == 255 {
        ptr - 255
    } else {
        ptr + 1
    }
}

} // verus!

verus! {

/// After a load of `v` into the accumulator, Zero is set exactly when `v` is
/// 0 and Negative exactly when bit 7 of `v` is set; the other flags keep
/// their values.
pub proof fn law_load_sets_zero_and_negative(old: Cpu, new: Cpu, op: OpCode)
    requires
        Cpu::executes(&old, &new, op),
        op.mnemonic == Mnemonic::Lda,
    ensures
        flag(new.status, FLAG_ZERO) == (new.accumulator == 0),
        flag(new.status, FLAG_NEGATIVE) == (new.accumulator & 0x80 != 0),
        new.status & 0x7D == old.status & 0x7D,
{
    lemma_zn_flags(old.status, new.accumulator);
}

/// A transfer from the accumulator to X copies the byte exactly and sets Zero
/// and Negative as a load of that byte does.
pub proof fn law_transfer_matches_load(
    old: Cpu,
    after_transfer: Cpu,
    transfer: OpCode,
    after_load: Cpu,
    load: OpCode,
)
    requires
        Cpu::executes(&old, &after_transfer, transfer),
        transfer.mnemonic == Mnemonic::Tax,
        Cpu::executes(&old, &after_load, load),
        load.mnemonic == Mnemonic::Lda,
        after_load.accumulator == old.accumulator,
    ensures
        after_transfer.index_x == old.accumulator,
        after_transfer.status == after_load.status,
        flag(after_transfer.status, FLAG_ZERO) == (old.accumulator == 0),
        flag(after_transfer.status, FLAG_NEGATIVE) == (old.accumulator & 0x80 != 0),
{
    lemma_zn_flags(old.status, old.accumulator);
}

/// A push of `v` followed by a pop returns `v` and leaves the stack pointer,
/// and every other register, as they were before the push.
pub proof fn law_push_pop_round_trip(c0: Cpu, c1: Cpu, c2: Cpu, v: u8, r: u8)
    requires
        c0.wf(),
        Cpu::pushed(&c0, &c1, v),
        Cpu::popped(&c1, &c2, r),
    ensures
        r == v,
        c2.regs() == c0.regs(),
{
    let sp = c0.stack_pointer;
    assert(wrap8(wrap8(sp - 1) + 1) == sp);
    assert(owner(stack_addr(sp)) == Owner::Ram(stack_addr(sp) as int));
}

/// What an instruction does is stated over registers, the bus and the halt
/// state; the cycle count is accounted separately.
proof fn lemma_executes_ignores_cycles(old: Cpu, new: Cpu, counted: Cpu, op: OpCode)
    requires
        Cpu::executes(&old, &new, op),
        counted.regs() == new.regs(),
        counted.bus == new.bus,
        counted.halted == new.halted,
    ensures
        Cpu::executes(&old, &counted, op),
{
}

/// The flag rule on the bits themselves.
proof fn lemma_zn_flags(p: u8, v: u8)
    ensures
        flag(zn(p, v), FLAG_ZERO) == (v == 0),
        flag(zn(p, v), FLAG_NEGATIVE) == (v & 0x80 != 0),
        zn(p, v) & 0x7D == p & 0x7D,
{
    let z = set_flag(p, FLAG_ZERO, v == 0);
    if v == 0 {
        assert(z == p | 2);
        assert((p | 2) & 2 != 0 && (p | 2) & 0x7D == p & 0x7D) by (bit_vector);
    } else {
        assert(z == p & !2u8);
        assert((p & !2u8) & 2 == 0 && (p & !2u8) & 0x7D == p & 0x7D) by (bit_vector);
    }
    if v >= 0x80 {
        assert(v & 0x80 != 0) by (bit_vector)
            requires v >= 0x80;
        assert((z | 0x80) & 0x80 != 0 && (z | 0x80) & 0x7D == z & 0x7D && (z | 0x80) & 2 == z & 2) by (bit_vector);
    } else {
        assert(v & 0x80 == 0) by (bit_vector)
            requires v < 0x80;
        assert((z & !0x80u8) & 0x80 == 0 && (z & !0x80u8) & 0x7D == z & 0x7D && (z & !0x80u8) & 2 == z & 2) by (bit_vector);
    }
}

} // verus!
