use vstd::prelude::*;
use vstd::string::StringExecFns;
use crate::bus::{Bus, join16, next_addr, owner, Owner};
use crate::cpu::{Cpu, wrap8};
use crate::opcodes::{AddressingMode, Mnemonic, OpCode, lookup, mnemonic_text, opcode_of};

verus! {

/// The upper-case hexadecimal digit of `n`, as text.
pub open spec fn hex_digit(n: u8) -> Seq<char> {
    match n {
        0 => "0"@,
        1 => "1"@,
        2 => "2"@,
        3 => "3"@,
        4 => "4"@,
        5 => "5"@,
        6 => "6"@,
        7 => "7"@,
        8 => "8"@,
        9 => "9"@,
        10 => "A"@,
        11 => "B"@,
        12 => "C"@,
        13 => "D"@,
        14 => "E"@,
        _ => "F"@,
    }
}

/// A byte as two hexadecimal digits.
#[verifier::opaque]
pub open spec fn hex2(b: u8) -> Seq<char> {
    hex_digit((b / 16) as u8) + hex_digit((b % 16) as u8)
}

/// A 16-bit value as four hexadecimal digits.
#[verifier::opaque]
pub open spec fn hex4(w: u16) -> Seq<char> {
    hex2((w / 256) as u8) + hex2((w % 256) as u8)
}

/// Addresses whose read changes a device (the picture unit's registers other
/// than its control register, in every mirror, and the two controller ports):
/// the tracer shows them without a value.
pub open spec fn hides_value(a: u16) -> bool {
    match owner(a) {
        Owner::Ppu(i) => i != 0,
        _ => a == 0x4016 || a == 0x4017,
    }
}

/// ` = VV` with the byte at `a`, or nothing where reading `a` has a side effect.
#[verifier::opaque]
pub open spec fn value_text(b: Bus, a: u16) -> Seq<char> {
    if hides_value(a) {
        Seq::empty()
    } else {
        " = "@ + hex2(b.peek_spec(a))
    }
}

/// The instruction's bytes, space-separated and padded to eight columns.
pub open spec fn dump_text(b: Bus, pc: u16, len: u8) -> Seq<char> {
    let first = hex2(b.peek_spec(pc));
    let second = hex2(b.peek_spec(next_addr(pc)));
    let third = hex2(b.peek_spec(next_addr(next_addr(pc))));
    if len <= 1 {
        first + "      "@
    } else if len == 2 {
        first + " "@ + second + "   "@
    } else {
        first + " "@ + second + " "@ + third
    }
}

/// The canonical rendering of the operand of `op` at the program counter.
pub open spec fn operand_text(cpu: Cpu, op: OpCode) -> Seq<char> {
    let b = cpu.bus;
    let at = next_addr(cpu.program_counter);
    let b1 = b.peek_spec(at);
    let w = b.peek16_spec(at);
    let a = cpu.operand_address_spec(op.mode, at);
    match op.mode {
        AddressingMode::Implied => Seq::empty(),
        AddressingMode::Accumulator => "A"@,
        AddressingMode::Immediate => "#$"@ + hex2(b1),
        AddressingMode::ZeroPage => "$"@ + hex2(b1) + value_text(b, a),
        AddressingMode::ZeroPageX => "$"@ + hex2(b1) + ",X @ "@ + hex2(a as u8) + value_text(b, a),
        AddressingMode::ZeroPageY => "$"@ + hex2(b1) + ",Y @ "@ + hex2(a as u8) + value_text(b, a),
        AddressingMode::Absolute => if op.mnemonic == Mnemonic::Jmp || op.mnemonic == Mnemonic::Jsr {
            "$"@ + hex4(w)
        } else {
            "$"@ + hex4(w) + value_text(b, a)
        },
        AddressingMode::AbsoluteX => "$"@ + hex4(w) + ",X @ "@ + hex4(a) + value_text(b, a),
        AddressingMode::AbsoluteY => "$"@ + hex4(w) + ",Y @ "@ + hex4(a) + value_text(b, a),
        AddressingMode::Indirect => "($"@ + hex4(w) + ") = "@ + hex4(a),
        AddressingMode::IndirectX => "($"@ + hex2(b1) + ",X) @ "@ + hex2(wrap8(b1 + cpu.index_x)) + " = "@
            + hex4(a) + value_text(b, a),
        AddressingMode::IndirectY => {
            let base = join16(b.peek_spec(b1 as u16), b.peek_spec(wrap8(b1 + 1) as u16));
            "($"@ + hex2(b1) + "),Y = "@ + hex4(base) + " @ "@ + hex4(a) + value_text(b, a)
        },
        AddressingMode::Relative => "$"@ + hex4(a),
    }
}

/// The trace line of the instruction `op` at the program counter: its address,
/// its bytes, its mnemonic and its operand.
pub open spec fn instruction_text(cpu: Cpu, op: OpCode) -> Seq<char> {
    let operand = operand_text(cpu, op);
    hex4(cpu.program_counter) + "  "@ + dump_text(cpu.bus, cpu.program_counter, op.len) + "  "@
        + mnemonic_text(op.mnemonic) + if operand.len() == 0 {
        Seq::empty()
    } else {
        " "@ + operand
    }
}

/// The trace line at the program counter: the instruction's line, or for a
/// byte missing from the opcode table its address, the byte and `???`.
pub open spec fn trace_text(cpu: Cpu) -> Seq<char> {
    let code = cpu.bus.peek_spec(cpu.program_counter);
    match opcode_of(code) {
        Some(op) => instruction_text(cpu, op),
        None => hex4(cpu.program_counter) + "  "@ + hex2(code) + "      "@ + "  "@ + "???"@,
    }
}

fn hex_digit_of(n: u8) -> (r: &'static str)
    requires
        n < 16,
    ensures
        r@ == hex_digit(n),
{
    match n {
        0 => "0",
        1 => "1",
        2 => "2",
        3 => "3",
        4 => "4",
        5 => "5",
        6 => "6",
        7 => "7",
        8 => "8",
        9 => "9",
        10 => "A",
        11 => "B",
        12 => "C",
        13 => "D",
        14 => "E",
        _ => "F",
    }
}

fn push_hex2(s: &mut String, b: u8)
    ensures
        final(s)@ == old(s)@ + hex2(b),
{
    reveal(hex2);
    s.append(hex_digit_of(b / 16));
    s.append(hex_digit_of(b % 16));
    assert(final(s)@ =~= old(s)@ + hex2(b));
}

fn push_hex4(s: &mut String, w: u16)
    ensures
        final(s)@ == old(s)@ + hex4(w),
{
    reveal(hex4);
    push_hex2(s, (w / 256) as u8);
    push_hex2(s, (w % 256) as u8);
    assert(final(s)@ =~= old(s)@ + hex4(w));
}

fn push_value(s: &mut String, b: &Bus, a: u16)
    requires
        b.wf(),
    ensures
        final(s)@ == old(s)@ + value_text(*b, a),
{
    reveal(value_text);
    let hidden = if 0x2000 <= a && a <= 0x3FFF {
        a % 8 != 0
    } else {
        a == 0x4016 || a == 0x4017
    };
    if !hidden {
        s.append(" = ");
        push_hex2(s, b.peek(a));
        assert(final(s)@ =~= old(s)@ + value_text(*b, a));
    } else {
        assert(final(s)@ =~= old(s)@ + value_text(*b, a));
    }
}

fn push_operand(s: &mut String, cpu: &Cpu, op: OpCode)
    requires
        cpu.wf(),
    ensures
        final(s)@ == old(s)@ + operand_text(*cpu, op),
{
    let b = &cpu.bus;
    let at = cpu.program_counter.wrapping_add(1);
    let b1 = b.peek(at);
    let w = b.peek16(at);
    let a = cpu.operand_address(op.mode, at);
    let ghost start = s@;
    match op.mode {
        AddressingMode::Implied => {},
        AddressingMode::Accumulator => s.append("A"),
        AddressingMode::Immediate => {
            s.append("#$");
            push_hex2(s, b1);
        },
        AddressingMode::ZeroPage => {
            s.append("$");
            push_hex2(s, b1);
            push_value(s, b, a);
        },
        AddressingMode::ZeroPageX => {
            s.append("$");
            push_hex2(s, b1);
            s.append(",X @ ");
            push_hex2(s, a as u8);
            push_value(s, b, a);
        },
        AddressingMode::ZeroPageY => {
            s.append("$");
            push_hex2(s, b1);
            s.append(",Y @ ");
            push_hex2(s, a as u8);
            push_value(s, b, a);
        },
        AddressingMode::Absolute => {
            s.append("$");
            push_hex4(s, w);
            match op.mnemonic {
                Mnemonic::Jmp | Mnemonic::Jsr => {},
                _ => push_value(s, b, a),
            }
        },
        AddressingMode::AbsoluteX => {
            s.append("$");
            push_hex4(s, w);
            s.append(",X @ ");
            push_hex4(s, a);
            push_value(s, b, a);
        },
        AddressingMode::AbsoluteY => {
            s.append("$");
            push_hex4(s, w);
            s.append(",Y @ ");
            push_hex4(s, a);
            push_value(s, b, a);
        },
        AddressingMode::Indirect => {
            s.append("($");
            push_hex4(s, w);
            s.append(") = ");
            push_hex4(s, a);
        },
        AddressingMode::IndirectX => {
            s.append("($");
            push_hex2(s, b1);
            s.append(",X) @ ");
            push_hex2(s, b1.wrapping_add(cpu.index_x));
            s.append(" = ");
            push_hex4(s, a);
            push_value(s, b, a);
        },
        AddressingMode::IndirectY => {
            let lo = b.peek(b1 as u16);
            let hi = b.peek(b1.wrapping_add(1) as u16);
            s.append("($");
            push_hex2(s, b1);
            s.append("),Y = ");
            push_hex4(s, hi as u16 * 256 + lo as u16);
            s.append(" @ ");
            push_hex4(s, a);
            push_value(s, b, a);
        },
        AddressingMode::Relative => {
            s.append("$");
            push_hex4(s, a);
        },
    }
    assert(s@ =~= start + operand_text(*cpu, op));
}

/// Renders the instruction at the program counter as one trace line, for
/// instance `0600  A9 05     LDA #$05`; a byte missing from the opcode table is
/// shown as `???`. It reads memory only through side-effect free peeks and
/// leaves the processor untouched, so it can be called any number of times
/// before a step.
pub fn trace(cpu: &Cpu) -> (r: String)
    requires
        cpu.wf(),
    ensures
        r@ == trace_text(*cpu),
{
    let pc = cpu.program_counter;
    let code = cpu.bus.peek(pc);
    let op = match lookup(code) {
        Some(op) => op,
        None => {
            let mut s = String::new();
            push_hex4(&mut s, pc);
            s.append("  ");
            push_hex2(&mut s, code);
            s.append("      ");
            s.append("  ");
            s.append("???");
            assert(s@ =~= trace_text(*cpu));
            return s;
        },
    };
    let mut s = String::new();
    push_hex4(&mut s, pc);
    s.append("  ");
    let second = pc.wrapping_add(1);
    push_hex2(&mut s, cpu.bus.peek(pc));
    if op.len <= 1 {
        s.append("      ");
    } else if op.len == 2 {
        s.append(" ");
        push_hex2(&mut s, cpu.bus.peek(second));
        s.append("   ");
    } else {
        s.append(" ");
        push_hex2(&mut s, cpu.bus.peek(second));
        s.append(" ");
        push_hex2(&mut s, cpu.bus.peek(second.wrapping_add(1)));
    }
    s.append("  ");
    s.append(op.mnemonic.name());
    let mut operand = String::new();
    push_operand(&mut operand, cpu, op);
    assert(operand@ =~= operand_text(*cpu, op));
    if operand.unicode_len() > 0 {
        s.append(" ");
        s.append(operand.as_str());
    }
    assert(s@ =~= instruction_text(*cpu, op));
    s
}

/// Tracing is a function of the state alone: two traces of one state, with no
/// step between them, are the same text.
pub proof fn law_trace_is_repeatable(cpu: Cpu, first: Seq<char>, second: Seq<char>)
    requires
        first == trace_text(cpu),
        second == trace_text(cpu),
    ensures
        first == second,
{
}

} // verus!
