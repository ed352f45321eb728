//! The instruction set as mathematics: what one instruction does to the
//! registers and to the physical store of the bus.
use vstd::prelude::*;

use crate::bus::{load, store};
use crate::cpu::Cpu;
use crate::opcode::{operand_length, table_entry, AddressingModes, CpuError, Mnemonic};
use crate::status::{
    flag_set, is_negative, with_flag, with_zero_negative, BREAK_COMMAND, CARRY, DECIMAL_MODE,
    INTERRUPT_DISABLE, NEGATIVE, OVERFLOW, ZERO,
};

verus! {

/// Registers, physical store and result after one instruction.
pub type Outcome = (Cpu, Seq<u8>, Result<(), CpuError>);

pub open spec fn wrap8(x: int) -> u8 {
    (x % 0x100) as u8
}

pub open spec fn wrap16(x: int) -> u16 {
    (x % 0x10000) as u16
}

/// The little-endian 16-bit value of two bytes.
pub open spec fn word(lo: u8, hi: u8) -> u16 {
    (hi * 0x100 + lo) as u16
}

pub open spec fn low_byte(w: u16) -> u8 {
    (w % 0x100) as u8
}

pub open spec fn high_byte(w: u16) -> u8 {
    (w / 0x100) as u8
}

/// A byte read as a two's-complement number.
pub open spec fn signed(b: u8) -> int {
    if b < 0x80 {
        b as int
    } else {
        b - 0x100
    }
}

/// The state once the operand bytes of `mode` have been consumed.
pub open spec fn advance(cpu: Cpu, mode: AddressingModes) -> Cpu {
    cpu.with_pc(wrap16(cpu.program_counter + operand_length(mode)))
}

/// The address that `mode` designates, read from the operand bytes at the
/// program counter; `None` where the instruction acts on registers alone.
#[verifier::opaque]
pub open spec fn effective_address(cpu: Cpu, mem: Seq<u8>, mode: AddressingModes) -> Option<u16> {
    let pc = cpu.program_counter;
    let first = load(mem, pc);
    let second = load(mem, wrap16(pc + 1));
    match mode {
        AddressingModes::Implied | AddressingModes::Accumulator => None,
        AddressingModes::Immediate => Some(pc),
        AddressingModes::ZeroPage => Some(first as u16),
        AddressingModes::ZeroPageX => Some(wrap8(first + cpu.register_x) as u16),
        AddressingModes::ZeroPageY => Some(wrap8(first + cpu.register_y) as u16),
        AddressingModes::Relative => Some(wrap16(wrap16(pc + 1) + signed(first))),
        AddressingModes::Absolute => Some(word(first, second)),
        AddressingModes::AbsoluteX => Some(wrap16(word(first, second) + cpu.register_x)),
        AddressingModes::AbsoluteY => Some(wrap16(word(first, second) + cpu.register_y)),
        // the high byte of the target comes from the pointer's own page
        AddressingModes::Indirect => Some(
            word(load(mem, word(first, second)), load(mem, word(wrap8(first + 1), second))),
        ),
        AddressingModes::IndirectX => {
            let pointer = wrap8(first + cpu.register_x);
            Some(word(load(mem, pointer as u16), load(mem, wrap8(pointer + 1) as u16)))
        },
        AddressingModes::IndirectY => Some(
            wrap16(
                word(load(mem, first as u16), load(mem, wrap8(first + 1) as u16)) + cpu.register_y,
            ),
        ),
    }
}

/// Exactly the implied and accumulator modes designate no address.
pub proof fn lemma_no_address(cpu: Cpu, mem: Seq<u8>, mode: AddressingModes)
    ensures
        effective_address(cpu, mem, mode) is None <==> (mode == AddressingModes::Implied
            || mode == AddressingModes::Accumulator),
{
    reveal(effective_address);
}

pub open spec fn with_accumulator(cpu: Cpu, value: u8) -> Cpu {
    Cpu { register_a: value, ..cpu }.with_status(with_zero_negative(cpu.status(), value))
}

pub open spec fn with_x(cpu: Cpu, value: u8) -> Cpu {
    Cpu { register_x: value, ..cpu }.with_status(with_zero_negative(cpu.status(), value))
}

pub open spec fn with_y(cpu: Cpu, value: u8) -> Cpu {
    Cpu { register_y: value, ..cpu }.with_status(with_zero_negative(cpu.status(), value))
}

/// ADC: the accumulator plus `m` plus the carry, in 8 bits.
pub open spec fn add_with_carry(cpu: Cpu, m: u8) -> Cpu {
    let a = cpu.register_a;
    let sum = a + m + if cpu.carry() { 1int } else { 0 };
    let result = wrap8(sum);
    let status = with_flag(cpu.status(), CARRY, sum > 0xFF);
    let status = with_flag(status, OVERFLOW, (a ^ result) & (m ^ result) & 0x80 != 0);
    with_accumulator(cpu.with_status(status), result)
}

/// SBC: the accumulator minus `m` minus the borrow (the complement of the
/// carry). The sum formed is `A + !m + C`, so overflow is judged against `!m`.
pub open spec fn subtract_with_carry(cpu: Cpu, m: u8) -> Cpu {
    let a = cpu.register_a;
    let difference = a - m - if cpu.carry() { 0int } else { 1 };
    let result = wrap8(difference);
    let status = with_flag(cpu.status(), CARRY, difference >= 0);
    let status = with_flag(status, OVERFLOW, (a ^ result) & (!m ^ result) & 0x80 != 0);
    with_accumulator(cpu.with_status(status), result)
}

/// CMP, CPX, CPY: flags of `register - m`, registers untouched.
pub open spec fn compared(cpu: Cpu, register: u8, m: u8) -> Cpu {
    cpu.with_status(
        with_zero_negative(with_flag(cpu.status(), CARRY, register >= m), wrap8(register - m)),
    )
}

/// BIT: overflow and negative from bits 6 and 7 of `m`, zero from `A & m`.
pub open spec fn bit_tested(cpu: Cpu, m: u8) -> Cpu {
    let status = with_flag(cpu.status(), OVERFLOW, m & 0x40 != 0);
    let status = with_flag(status, NEGATIVE, is_negative(m));
    cpu.with_status(with_flag(status, ZERO, cpu.register_a & m == 0))
}

/// What an instruction that only reads its operand does with the value `m`.
pub open spec fn read_effect(mnemonic: Mnemonic, cpu: Cpu, m: u8) -> Cpu {
    match mnemonic {
        Mnemonic::Adc => add_with_carry(cpu, m),
        Mnemonic::Sbc => subtract_with_carry(cpu, m),
        Mnemonic::And => with_accumulator(cpu, cpu.register_a & m),
        Mnemonic::Ora => with_accumulator(cpu, cpu.register_a | m),
        Mnemonic::Eor => with_accumulator(cpu, cpu.register_a ^ m),
        Mnemonic::Lda => with_accumulator(cpu, m),
        Mnemonic::Ldx => with_x(cpu, m),
        Mnemonic::Ldy => with_y(cpu, m),
        Mnemonic::Cmp => compared(cpu, cpu.register_a, m),
        Mnemonic::Cpx => compared(cpu, cpu.register_x, m),
        Mnemonic::Cpy => compared(cpu, cpu.register_y, m),
        Mnemonic::Bit => bit_tested(cpu, m),
        _ => cpu,
    }
}

pub open spec fn unsupported(cpu: Cpu, mem: Seq<u8>, mnemonic: Mnemonic) -> Outcome {
    (cpu, mem, Err(CpuError::UnsupportedAddressingMode(mnemonic)))
}

pub open spec fn read_instruction(
    cpu: Cpu,
    mem: Seq<u8>,
    mnemonic: Mnemonic,
    mode: AddressingModes,
) -> Outcome {
    match effective_address(cpu, mem, mode) {
        Some(address) => (read_effect(mnemonic, advance(cpu, mode), load(mem, address)), mem, Ok(())),
        None => unsupported(cpu, mem, mnemonic),
    }
}

/// A shift or rotate of `value` with incoming carry `carry`: the new value
/// and the bit shifted off.
pub open spec fn shifted(mnemonic: Mnemonic, value: u8, carry: bool) -> (u8, bool) {
    match mnemonic {
        Mnemonic::Asl => (value << 1u8, is_negative(value)),
        Mnemonic::Lsr => (value >> 1u8, value & 1 != 0),
        Mnemonic::Rol => ((value << 1u8) | if carry { 1u8 } else { 0u8 }, is_negative(value)),
        Mnemonic::Ror => ((value >> 1u8) | if carry { 0x80u8 } else { 0u8 }, value & 1 != 0),
        _ => (value, carry),
    }
}

/// ASL, LSR, ROL, ROR: on memory, or on the accumulator in accumulator mode.
pub open spec fn shift_instruction(
    cpu: Cpu,
    mem: Seq<u8>,
    mnemonic: Mnemonic,
    mode: AddressingModes,
) -> Outcome {
    match effective_address(cpu, mem, mode) {
        Some(address) => {
            let (result, carry) = shifted(mnemonic, load(mem, address), cpu.carry());
            let next = advance(cpu, mode);
            let status = with_zero_negative(with_flag(cpu.status(), CARRY, carry), result);
            (next.with_status(status), store(mem, address, result), Ok(()))
        },
        None => if mode == AddressingModes::Accumulator {
            let (result, carry) = shifted(mnemonic, cpu.register_a, cpu.carry());
            let status = with_zero_negative(with_flag(cpu.status(), CARRY, carry), result);
            (Cpu { register_a: result, ..cpu }.with_status(status), mem, Ok(()))
        } else {
            unsupported(cpu, mem, mnemonic)
        },
    }
}

/// INC, DEC: read, step by one, write back.
pub open spec fn modify_instruction(
    cpu: Cpu,
    mem: Seq<u8>,
    mnemonic: Mnemonic,
    mode: AddressingModes,
) -> Outcome {
    match effective_address(cpu, mem, mode) {
        Some(address) => {
            let m = load(mem, address);
            let result = if mnemonic == Mnemonic::Inc { wrap8(m + 1) } else { wrap8(m - 1) };
            let next = advance(cpu, mode);
            (next.with_status(with_zero_negative(cpu.status(), result)), store(mem, address, result), Ok(()))
        },
        None => unsupported(cpu, mem, mnemonic),
    }
}

/// The register that STA, STX, STY store.
pub open spec fn stored_register(mnemonic: Mnemonic, cpu: Cpu) -> u8 {
    match mnemonic {
        Mnemonic::Stx => cpu.register_x,
        Mnemonic::Sty => cpu.register_y,
        _ => cpu.register_a,
    }
}

pub open spec fn store_instruction(
    cpu: Cpu,
    mem: Seq<u8>,
    mnemonic: Mnemonic,
    mode: AddressingModes,
) -> Outcome {
    match effective_address(cpu, mem, mode) {
        Some(address) => (advance(cpu, mode), store(mem, address, stored_register(mnemonic, cpu)), Ok(())),
        None => unsupported(cpu, mem, mnemonic),
    }
}

/// The flag test of each branch instruction.
pub open spec fn branch_condition(mnemonic: Mnemonic, status: u8) -> bool {
    match mnemonic {
        Mnemonic::Bcc => !flag_set(status, CARRY),
        Mnemonic::Bcs => flag_set(status, CARRY),
        Mnemonic::Bne => !flag_set(status, ZERO),
        Mnemonic::Beq => flag_set(status, ZERO),
        Mnemonic::Bpl => !flag_set(status, NEGATIVE),
        Mnemonic::Bmi => flag_set(status, NEGATIVE),
        Mnemonic::Bvc => !flag_set(status, OVERFLOW),
        Mnemonic::Bvs => flag_set(status, OVERFLOW),
        _ => false,
    }
}

pub open spec fn is_branch(mnemonic: Mnemonic) -> bool {
    match mnemonic {
        Mnemonic::Bcc | Mnemonic::Bcs | Mnemonic::Bne | Mnemonic::Beq | Mnemonic::Bpl
        | Mnemonic::Bmi | Mnemonic::Bvc | Mnemonic::Bvs => true,
        _ => false,
    }
}

/// A branch consumes its operand either way, and jumps only when its flag
/// test holds.
pub open spec fn branch_instruction(
    cpu: Cpu,
    mem: Seq<u8>,
    mnemonic: Mnemonic,
    mode: AddressingModes,
) -> Outcome {
    match effective_address(cpu, mem, mode) {
        Some(target) => {
            let next = advance(cpu, mode);
            (
                if branch_condition(mnemonic, cpu.status()) {
                    next.with_pc(target)
                } else {
                    next
                },
                mem,
                Ok(()),
            )
        },
        None => unsupported(cpu, mem, mnemonic),
    }
}

pub open spec fn jump_instruction(cpu: Cpu, mem: Seq<u8>, mode: AddressingModes) -> Outcome {
    match effective_address(cpu, mem, mode) {
        Some(target) => (advance(cpu, mode).with_pc(target), mem, Ok(())),
        None => unsupported(cpu, mem, Mnemonic::Jmp),
    }
}

/// The stack lives in page 1.
pub open spec fn stack_address(stack_pointer: u8) -> u16 {
    (0x0100 + stack_pointer) as u16
}

/// A push writes at the stack pointer, then moves it down.
pub open spec fn pushed(cpu: Cpu, mem: Seq<u8>, data: u8) -> (Cpu, Seq<u8>) {
    (
        Cpu { stack_pointer: wrap8(cpu.stack_pointer - 1), ..cpu },
        store(mem, stack_address(cpu.stack_pointer), data),
    )
}

/// A pop moves the stack pointer up, then reads there.
pub open spec fn popped(cpu: Cpu, mem: Seq<u8>) -> (Cpu, u8) {
    let stack_pointer = wrap8(cpu.stack_pointer + 1);
    (Cpu { stack_pointer, ..cpu }, load(mem, stack_address(stack_pointer)))
}

/// JSR: push the address of the last byte of the instruction, high byte
/// first, then jump.
pub open spec fn jump_to_subroutine_instruction(
    cpu: Cpu,
    mem: Seq<u8>,
    mode: AddressingModes,
) -> Outcome {
    match effective_address(cpu, mem, mode) {
        Some(target) => {
            let next = advance(cpu, mode);
            let ret = wrap16(next.program_counter - 1);
            let (c1, m1) = pushed(next, mem, high_byte(ret));
            let (c2, m2) = pushed(c1, m1, low_byte(ret));
            (c2.with_pc(target), m2, Ok(()))
        },
        None => unsupported(cpu, mem, Mnemonic::Jsr),
    }
}

/// Interrupt vector read by BRK.
pub const IRQ_VECTOR: u16 = 0xFFFE;

/// What each instruction that takes no operand does.
pub open spec fn implied_effect(mnemonic: Mnemonic, cpu: Cpu, mem: Seq<u8>) -> (Cpu, Seq<u8>) {
    let status = cpu.status();
    match mnemonic {
        Mnemonic::Brk => {
            let pc = cpu.program_counter;
            let (c1, m1) = pushed(cpu, mem, high_byte(pc));
            let (c2, m2) = pushed(c1, m1, low_byte(pc));
            let (c3, m3) = pushed(c2, m2, status | BREAK_COMMAND);
            (c3.with_pc(word(load(m3, IRQ_VECTOR), load(m3, 0xFFFF))), m3)
        },
        Mnemonic::Clc => (cpu.with_status(with_flag(status, CARRY, false)), mem),
        Mnemonic::Cld => (cpu.with_status(with_flag(status, DECIMAL_MODE, false)), mem),
        Mnemonic::Cli => (cpu.with_status(with_flag(status, INTERRUPT_DISABLE, false)), mem),
        Mnemonic::Clv => (cpu.with_status(with_flag(status, OVERFLOW, false)), mem),
        Mnemonic::Sec => (cpu.with_status(with_flag(status, CARRY, true)), mem),
        Mnemonic::Sed => (cpu.with_status(with_flag(status, DECIMAL_MODE, true)), mem),
        Mnemonic::Sei => (cpu.with_status(with_flag(status, INTERRUPT_DISABLE, true)), mem),
        Mnemonic::Dex => (with_x(cpu, wrap8(cpu.register_x - 1)), mem),
        Mnemonic::Dey => (with_y(cpu, wrap8(cpu.register_y - 1)), mem),
        Mnemonic::Inx => (with_x(cpu, wrap8(cpu.register_x + 1)), mem),
        Mnemonic::Iny => (with_y(cpu, wrap8(cpu.register_y + 1)), mem),
        Mnemonic::Pha => pushed(cpu, mem, cpu.register_a),
        Mnemonic::Php => pushed(cpu, mem, status),
        Mnemonic::Pla => {
            let (c, value) = popped(cpu, mem);
            (with_accumulator(c, value), mem)
        },
        Mnemonic::Plp => {
            let (c, value) = popped(cpu, mem);
            (c.with_status(value), mem)
        },
        Mnemonic::Rti => {
            let (c1, restored) = popped(cpu, mem);
            let (c2, lo) = popped(c1, mem);
            let (c3, hi) = popped(c2, mem);
            (c3.with_status(restored).with_pc(word(lo, hi)), mem)
        },
        Mnemonic::Rts => {
            let (c1, lo) = popped(cpu, mem);
            let (c2, hi) = popped(c1, mem);
            (c2.with_pc(wrap16(word(lo, hi) + 1)), mem)
        },
        Mnemonic::Tax => (with_x(cpu, cpu.register_a), mem),
        Mnemonic::Tay => (with_y(cpu, cpu.register_a), mem),
        Mnemonic::Tsx => (with_x(cpu, cpu.stack_pointer), mem),
        Mnemonic::Txa => (with_accumulator(cpu, cpu.register_x), mem),
        Mnemonic::Txs => (Cpu { stack_pointer: cpu.register_x, ..cpu }, mem),
        Mnemonic::Tya => (with_accumulator(cpu, cpu.register_y), mem),
        _ => (cpu, mem),
    }
}

pub open spec fn implied_instruction(
    cpu: Cpu,
    mem: Seq<u8>,
    mnemonic: Mnemonic,
    mode: AddressingModes,
) -> Outcome {
    if mode == AddressingModes::Implied {
        let (c, m) = implied_effect(mnemonic, cpu, mem);
        (c, m, Ok(()))
    } else {
        unsupported(cpu, mem, mnemonic)
    }
}

/// One instruction, its opcode byte already consumed.
pub open spec fn execute(cpu: Cpu, mem: Seq<u8>, mnemonic: Mnemonic, mode: AddressingModes) -> Outcome {
    match mnemonic {
        Mnemonic::Adc | Mnemonic::Sbc | Mnemonic::And | Mnemonic::Ora | Mnemonic::Eor
        | Mnemonic::Lda | Mnemonic::Ldx | Mnemonic::Ldy | Mnemonic::Cmp | Mnemonic::Cpx
        | Mnemonic::Cpy | Mnemonic::Bit => read_instruction(cpu, mem, mnemonic, mode),
        Mnemonic::Asl | Mnemonic::Lsr | Mnemonic::Rol | Mnemonic::Ror => shift_instruction(
            cpu,
            mem,
            mnemonic,
            mode,
        ),
        Mnemonic::Inc | Mnemonic::Dec => modify_instruction(cpu, mem, mnemonic, mode),
        Mnemonic::Sta | Mnemonic::Stx | Mnemonic::Sty => store_instruction(cpu, mem, mnemonic, mode),
        Mnemonic::Jmp => jump_instruction(cpu, mem, mode),
        Mnemonic::Jsr => jump_to_subroutine_instruction(cpu, mem, mode),
        Mnemonic::Bcc | Mnemonic::Bcs | Mnemonic::Bne | Mnemonic::Beq | Mnemonic::Bpl
        | Mnemonic::Bmi | Mnemonic::Bvc | Mnemonic::Bvs => branch_instruction(cpu, mem, mnemonic, mode),
        _ => implied_instruction(cpu, mem, mnemonic, mode),
    }
}

/// One fetch-decode-execute step: the opcode byte at the program counter is
/// consumed, looked up, and its instruction run.
pub open spec fn step(cpu: Cpu, mem: Seq<u8>) -> Outcome {
    let code = load(mem, cpu.program_counter);
    let fetched = cpu.with_pc(wrap16(cpu.program_counter + 1));
    match table_entry(code) {
        Ok(opcode) => execute(fetched, mem, opcode.mnemonic, opcode.addressing_mode),
        Err(e) => (fetched, mem, Err(e)),
    }
}

} // verus!
