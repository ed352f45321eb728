//! Laws of the instruction set and the bus, proved over the model in
//! `semantics` and `bus`.
use vstd::prelude::*;

use crate::bus::{load, physical_index, store, MEMORY_SIZE};
use crate::cpu::Cpu;
use crate::opcode::{decode, AddressingModes, CpuError, Mnemonic};
use crate::semantics::{
    advance, branch_condition, effective_address, execute, high_byte, is_branch, lemma_no_address,
    low_byte, popped, pushed, shifted, signed, stack_address, step, word, wrap16, wrap8, IRQ_VECTOR,
};
use crate::status::{
    flag_set, is_negative, BREAK_COMMAND, lemma_with_flag, lemma_with_zero_negative, with_flag, CARRY, OVERFLOW,
    ZERO,
};

verus! {

proof fn lemma_overflow_bits(a: u8, b: u8, r: u8)
    by (bit_vector)
    ensures
        ((a ^ r) & (b ^ r) & 0x80 != 0) == ((a & 0x80 != 0) == (b & 0x80 != 0) && (r & 0x80 != 0)
            != (a & 0x80 != 0)),
{
}

/// ADC with the carry clear: the accumulator becomes `(a + b) mod 256`, the
/// carry is set exactly when `a + b > 255`, and the overflow flag exactly
/// when both operands have the same sign and the result's sign differs.
pub proof fn lemma_add_without_carry(cpu: Cpu, mem: Seq<u8>, mode: AddressingModes, address: u16)
    requires
        !cpu.carry(),
        effective_address(cpu, mem, mode) == Some(address),
    ensures
        ({
            let (after, mem_after, r) = execute(cpu, mem, Mnemonic::Adc, mode);
            let a = cpu.register_a;
            let b = load(mem, address);
            &&& r is Ok
            &&& mem_after == mem
            &&& after.register_a == (a + b) % 256
            &&& after.carry() == (a + b > 255)
            &&& flag_set(after.status(), OVERFLOW) == (is_negative(a) == is_negative(b)
                && is_negative(after.register_a) != is_negative(a))
        }),
{
    let a = cpu.register_a;
    let b = load(mem, address);
    let sum = a + b;
    let result = wrap8(sum);
    let s1 = with_flag(cpu.status(), CARRY, sum > 0xFF);
    let v = (a ^ result) & (b ^ result) & 0x80 != 0;
    let s2 = with_flag(s1, OVERFLOW, v);
    lemma_with_flag(cpu.status(), CARRY, sum > 0xFF, CARRY);
    lemma_with_flag(s1, OVERFLOW, v, CARRY);
    lemma_with_flag(s1, OVERFLOW, v, OVERFLOW);
    lemma_with_zero_negative(s2, result, CARRY);
    lemma_with_zero_negative(s2, result, OVERFLOW);
    lemma_overflow_bits(a, b, result);
}

/// CMP sets the carry exactly when `a >= b` and zero exactly when `a == b`,
/// and leaves every register and the memory as they were.
pub proof fn lemma_compare(cpu: Cpu, mem: Seq<u8>, mode: AddressingModes, address: u16)
    requires
        effective_address(cpu, mem, mode) == Some(address),
    ensures
        ({
            let (after, mem_after, r) = execute(cpu, mem, Mnemonic::Cmp, mode);
            let a = cpu.register_a;
            let b = load(mem, address);
            &&& r is Ok
            &&& mem_after == mem
            &&& after.register_a == a
            &&& after.register_x == cpu.register_x
            &&& after.register_y == cpu.register_y
            &&& after.stack_pointer == cpu.stack_pointer
            &&& after.carry() == (a >= b)
            &&& flag_set(after.status(), ZERO) == (a == b)
        }),
{
    let a = cpu.register_a;
    let b = load(mem, address);
    let s1 = with_flag(cpu.status(), CARRY, a >= b);
    lemma_with_flag(cpu.status(), CARRY, a >= b, CARRY);
    lemma_with_zero_negative(s1, wrap8(a - b), CARRY);
}

proof fn lemma_rotate_bits(v: u8, c: u8)
    by (bit_vector)
    requires
        c <= 1,
    ensures
        (((v << 1u8) | c) >> 1u8) | (v & 0x80) == v,
        ((v << 1u8) | c) & 1 == c,
        v & 0x80 == 0 || v & 0x80 == 0x80,
{
}

/// ROR undoes ROL: rotating a byte left and then right through the carry
/// gives back both the byte and the carry.
pub proof fn lemma_rotate_round_trip(value: u8, carry: bool)
    ensures
        ({
            let (rotated, carry_out) = shifted(Mnemonic::Rol, value, carry);
            shifted(Mnemonic::Ror, rotated, carry_out) == (value, carry)
        }),
{
    lemma_rotate_bits(value, if carry { 1u8 } else { 0u8 });
}

/// ROL on the accumulator followed by ROR on the accumulator restores the
/// accumulator and the carry.
pub proof fn lemma_rotate_accumulator_round_trip(cpu: Cpu, mem: Seq<u8>)
    ensures
        ({
            let (rotated, mem1, r1) = execute(cpu, mem, Mnemonic::Rol, AddressingModes::Accumulator);
            let (back, mem2, r2) = execute(rotated, mem1, Mnemonic::Ror, AddressingModes::Accumulator);
            &&& r1 is Ok
            &&& r2 is Ok
            &&& mem2 == mem
            &&& back.register_a == cpu.register_a
            &&& back.carry() == cpu.carry()
        }),
{
    lemma_no_address(cpu, mem, AddressingModes::Accumulator);
    let (result, carry) = shifted(Mnemonic::Rol, cpu.register_a, cpu.carry());
    let s1 = with_flag(cpu.status(), CARRY, carry);
    lemma_with_flag(cpu.status(), CARRY, carry, CARRY);
    lemma_with_zero_negative(s1, result, CARRY);
    let (rotated, mem1, r1) = execute(cpu, mem, Mnemonic::Rol, AddressingModes::Accumulator);
    lemma_no_address(rotated, mem1, AddressingModes::Accumulator);
    let (back_value, back_carry) = shifted(Mnemonic::Ror, result, carry);
    let s2 = with_flag(rotated.status(), CARRY, back_carry);
    lemma_with_flag(rotated.status(), CARRY, back_carry, CARRY);
    lemma_with_zero_negative(s2, back_value, CARRY);
    lemma_rotate_round_trip(cpu.register_a, cpu.carry());
}

/// Zero-page indexed addressing stays in page 0 whatever the base and the
/// index.
pub proof fn lemma_zero_page_indexed(cpu: Cpu, mem: Seq<u8>)
    ensures
        effective_address(cpu, mem, AddressingModes::ZeroPageX) matches Some(a) && a < 0x0100,
        effective_address(cpu, mem, AddressingModes::ZeroPageY) matches Some(a) && a < 0x0100,
{
    reveal(effective_address);
}

/// A write to RAM is seen at every mirror of its address; a write to an
/// unbacked address is dropped, and reading it back gives 0.
pub proof fn lemma_mirrors(mem: Seq<u8>, address: u16, mirror: u16, data: u8)
    requires
        mem.len() == MEMORY_SIZE,
    ensures
        address <= 0x1FFF && mirror <= 0x1FFF && address % 0x0800 == mirror % 0x0800 ==> load(
            store(mem, address, data),
            mirror,
        ) == data,
        address > 0x3FFF ==> store(mem, address, data) == mem && load(mem, address) == 0,
{
    reveal(load);
    reveal(store);
}

/// The stack page decodes onto RAM unmirrored.
proof fn lemma_stack_slot(stack_pointer: u8)
    ensures
        physical_index(stack_address(stack_pointer)) == Some(0x0100 + stack_pointer),
{
}

/// A push writes its stack slot of the physical store directly.
proof fn lemma_stack_store(mem: Seq<u8>, stack_pointer: u8, data: u8)
    ensures
        store(mem, stack_address(stack_pointer), data) == mem.update(0x0100 + stack_pointer, data),
{
    reveal(store);
    lemma_stack_slot(stack_pointer);
}

/// A byte pushed is the byte popped next, and the stack pointer is back.
proof fn lemma_push_pop(cpu: Cpu, mem: Seq<u8>, data: u8)
    requires
        mem.len() == MEMORY_SIZE,
    ensures
        ({
            let (pushed_cpu, pushed_mem) = pushed(cpu, mem, data);
            popped(pushed_cpu, pushed_mem) == (cpu, data)
        }),
{
    reveal(load);
    reveal(store);
    lemma_stack_slot(cpu.stack_pointer);
}

/// Writing one stack slot leaves every other stack slot as it was.
proof fn lemma_other_slot(mem: Seq<u8>, written: u8, read: u8, data: u8)
    requires
        mem.len() == MEMORY_SIZE,
        written != read,
    ensures
        load(store(mem, stack_address(written), data), stack_address(read)) == load(
            mem,
            stack_address(read),
        ),
{
    reveal(load);
    reveal(store);
    lemma_stack_slot(written);
    lemma_stack_slot(read);
}

/// PHP then PLP gives back the whole status byte, undefined bits included,
/// and the stack pointer.
pub proof fn lemma_status_round_trip(cpu: Cpu, mem: Seq<u8>)
    requires
        mem.len() == MEMORY_SIZE,
    ensures
        ({
            let (pushed_cpu, mem1, r1) = execute(cpu, mem, Mnemonic::Php, AddressingModes::Implied);
            let (back, mem2, r2) = execute(pushed_cpu, mem1, Mnemonic::Plp, AddressingModes::Implied);
            &&& r1 is Ok
            &&& r2 is Ok
            &&& back == cpu
        }),
{
    lemma_push_pop(cpu, mem, cpu.status());
}

proof fn lemma_word_bytes(w: u16)
    ensures
        word(low_byte(w), high_byte(w)) == w,
{
    assert(high_byte(w) * 0x100 + low_byte(w) == w) by (nonlinear_arith);
}

/// Two bytes pushed come back in reverse order from two pops, and the
/// stack pointer is back where it was.
proof fn lemma_push_two_pop_two(cpu: Cpu, mem: Seq<u8>, first: u8, second: u8)
    requires
        mem.len() == MEMORY_SIZE,
    ensures
        ({
            let (c1, m1) = pushed(cpu, mem, first);
            let (c2, m2) = pushed(c1, m1, second);
            let (d1, x) = popped(c2, m2);
            let (d2, y) = popped(d1, m2);
            x == second && y == first && d2.stack_pointer == cpu.stack_pointer
        }),
{
    let (c1, m1) = pushed(cpu, mem, first);
    assert(m1.len() == MEMORY_SIZE) by {
        reveal(store);
        lemma_stack_slot(cpu.stack_pointer);
    }
    lemma_push_pop(cpu, mem, first);
    lemma_push_pop(c1, m1, second);
    lemma_other_slot(m1, c1.stack_pointer, cpu.stack_pointer, second);
}

/// JSR followed at its target by RTS resumes right after the JSR: with the
/// JSR's opcode byte consumed at `p - 1`, execution continues at `p + 2`,
/// with the stack pointer back where it was.
#[verifier::rlimit(50)]
pub proof fn lemma_call_return(cpu: Cpu, mem: Seq<u8>)
    requires
        mem.len() == MEMORY_SIZE,
    ensures
        ({
            let (called, mem1, r1) = execute(cpu, mem, Mnemonic::Jsr, AddressingModes::Absolute);
            let (back, mem2, r2) = execute(called, mem1, Mnemonic::Rts, AddressingModes::Implied);
            &&& r1 is Ok
            &&& r2 is Ok
            &&& back.program_counter == wrap16(cpu.program_counter + 2)
            &&& back.stack_pointer == cpu.stack_pointer
        }),
{
    lemma_no_address(cpu, mem, AddressingModes::Absolute);
    let target = effective_address(cpu, mem, AddressingModes::Absolute)->Some_0;
    let next = advance(cpu, AddressingModes::Absolute);
    let ret = wrap16(next.program_counter - 1);
    let (c1, m1) = pushed(next, mem, high_byte(ret));
    let (c2, m2) = pushed(c1, m1, low_byte(ret));
    let called = c2.with_pc(target);
    assert(execute(cpu, mem, Mnemonic::Jsr, AddressingModes::Absolute) == (called, m2, Ok::<
        (),
        CpuError,
    >(())));
    lemma_push_two_pop_two(next, mem, high_byte(ret), low_byte(ret));
    let (d1, lo) = popped(called, m2);
    let (d2, hi) = popped(d1, m2);
    assert(lo == low_byte(ret) && hi == high_byte(ret));
    lemma_word_bytes(ret);
}

/// BRK pushes exactly three bytes, the program counter high byte first,
/// then its low byte, then the status with the break bit set, and jumps
/// through the interrupt vector at 0xFFFE/0xFFFF. Nothing else in memory
/// changes and the status register itself is kept.
#[verifier::rlimit(50)]
pub proof fn lemma_break(cpu: Cpu, mem: Seq<u8>)
    requires
        mem.len() == MEMORY_SIZE,
    ensures
        ({
            let (after, mem_after, r) = execute(cpu, mem, Mnemonic::Brk, AddressingModes::Implied);
            let sp = cpu.stack_pointer;
            let pc = cpu.program_counter;
            let first = 0x0100 + sp;
            let second = 0x0100 + wrap8(sp - 1);
            let third = 0x0100 + wrap8(sp - 2);
            &&& r is Ok
            &&& after.stack_pointer == wrap8(sp - 3)
            &&& mem_after.len() == mem.len()
            &&& mem_after[first] == high_byte(pc)
            &&& mem_after[second] == low_byte(pc)
            &&& mem_after[third] == cpu.status() | BREAK_COMMAND
            &&& forall|i: int|
                0 <= i < mem.len() && i != first && i != second && i != third ==> mem_after[i]
                    == mem[i]
            &&& after.program_counter == word(load(mem, IRQ_VECTOR), load(mem, 0xFFFF))
            &&& after.status() == cpu.status()
            &&& after.register_a == cpu.register_a
            &&& after.register_x == cpu.register_x
            &&& after.register_y == cpu.register_y
        }),
{
    let sp = cpu.stack_pointer;
    let pc = cpu.program_counter;
    let (c1, m1) = pushed(cpu, mem, high_byte(pc));
    let (c2, m2) = pushed(c1, m1, low_byte(pc));
    let (c3, m3) = pushed(c2, m2, cpu.status() | BREAK_COMMAND);
    lemma_stack_store(mem, sp, high_byte(pc));
    lemma_stack_store(m1, c1.stack_pointer, low_byte(pc));
    lemma_stack_store(m2, c2.stack_pointer, cpu.status() | BREAK_COMMAND);
    lemma_mirrors(m3, IRQ_VECTOR, 0, 0);
    lemma_mirrors(m3, 0xFFFF, 0, 0);
    lemma_mirrors(mem, IRQ_VECTOR, 0, 0);
    lemma_mirrors(mem, 0xFFFF, 0, 0);
    assert(execute(cpu, mem, Mnemonic::Brk, AddressingModes::Implied) == (c3.with_pc(
        word(load(m3, IRQ_VECTOR), load(m3, 0xFFFF)),
    ), m3, Ok::<(), CpuError>(())));
}

/// A branch always consumes its operand byte. When its flag test fails the
/// program counter is simply past the operand; when it holds, it is that
/// address moved by the operand read as a signed byte. Nothing else changes.
pub proof fn lemma_branch(cpu: Cpu, mem: Seq<u8>, mnemonic: Mnemonic)
    requires
        is_branch(mnemonic),
    ensures
        ({
            let (after, mem_after, r) = execute(cpu, mem, mnemonic, AddressingModes::Relative);
            let next = wrap16(cpu.program_counter + 1);
            &&& r is Ok
            &&& mem_after == mem
            &&& after == if branch_condition(mnemonic, cpu.status()) {
                cpu.with_pc(wrap16(next + signed(load(mem, cpu.program_counter))))
            } else {
                cpu.with_pc(next)
            }
        }),
{
    reveal(effective_address);
}

proof fn lemma_subtract_bits(a: u8, m: u8, r: u8)
    by (bit_vector)
    ensures
        ((a ^ r) & (!m ^ r) & 0x80 != 0) == ((a & 0x80 != 0) != (m & 0x80 != 0) && (r & 0x80 != 0)
            != (a & 0x80 != 0)),
{
}

/// SBC subtracts the operand and the borrow (the complement of the carry)
/// modulo 256. The carry comes out set exactly when no borrow was needed,
/// and the overflow flag exactly when the operands differ in sign and the
/// result's sign differs from the accumulator's.
pub proof fn lemma_subtract(cpu: Cpu, mem: Seq<u8>, mode: AddressingModes, address: u16)
    requires
        effective_address(cpu, mem, mode) == Some(address),
    ensures
        ({
            let (after, mem_after, r) = execute(cpu, mem, Mnemonic::Sbc, mode);
            let a = cpu.register_a;
            let b = load(mem, address);
            let borrow: int = if cpu.carry() { 0 } else { 1 };
            &&& r is Ok
            &&& mem_after == mem
            &&& after.register_a == (a - b - borrow) % 256
            &&& after.carry() == (a >= b + borrow)
            &&& flag_set(after.status(), OVERFLOW) == (is_negative(a) != is_negative(b)
                && is_negative(after.register_a) != is_negative(a))
        }),
{
    let a = cpu.register_a;
    let b = load(mem, address);
    let difference = a - b - if cpu.carry() { 0int } else { 1 };
    let result = wrap8(difference);
    let s1 = with_flag(cpu.status(), CARRY, difference >= 0);
    let v = (a ^ result) & (!b ^ result) & 0x80 != 0;
    let s2 = with_flag(s1, OVERFLOW, v);
    lemma_with_flag(cpu.status(), CARRY, difference >= 0, CARRY);
    lemma_with_flag(s1, OVERFLOW, v, CARRY);
    lemma_with_flag(s1, OVERFLOW, v, OVERFLOW);
    lemma_with_zero_negative(s2, result, CARRY);
    lemma_with_zero_negative(s2, result, OVERFLOW);
    lemma_subtract_bits(a, b, result);
}

/// The addressing modes that each instruction routine defines.
pub open spec fn mode_supported(mnemonic: Mnemonic, mode: AddressingModes) -> bool {
    match mnemonic {
        Mnemonic::Asl | Mnemonic::Lsr | Mnemonic::Rol | Mnemonic::Ror => mode
            != AddressingModes::Implied,
        Mnemonic::Adc | Mnemonic::Sbc | Mnemonic::And | Mnemonic::Ora | Mnemonic::Eor
        | Mnemonic::Lda | Mnemonic::Ldx | Mnemonic::Ldy | Mnemonic::Cmp | Mnemonic::Cpx
        | Mnemonic::Cpy | Mnemonic::Bit | Mnemonic::Inc | Mnemonic::Dec | Mnemonic::Sta
        | Mnemonic::Stx | Mnemonic::Sty | Mnemonic::Jmp | Mnemonic::Jsr | Mnemonic::Bcc
        | Mnemonic::Bcs | Mnemonic::Bne | Mnemonic::Beq | Mnemonic::Bpl | Mnemonic::Bmi
        | Mnemonic::Bvc | Mnemonic::Bvs => mode != AddressingModes::Implied && mode
            != AddressingModes::Accumulator,
        _ => mode == AddressingModes::Implied,
    }
}

/// An instruction routine fails exactly on the modes it does not define,
/// and then with its own mnemonic and nothing changed.
pub proof fn lemma_unsupported_mode(cpu: Cpu, mem: Seq<u8>, mnemonic: Mnemonic, mode: AddressingModes)
    ensures
        ({
            let (after, mem_after, r) = execute(cpu, mem, mnemonic, mode);
            if mode_supported(mnemonic, mode) {
                r is Ok
            } else {
                after == cpu && mem_after == mem && r == Err::<(), CpuError>(
                    CpuError::UnsupportedAddressingMode(mnemonic),
                )
            }
        }),
{
    lemma_no_address(cpu, mem, mode);
}

/// Every entry of the instruction table pairs its mnemonic with a mode that
/// the mnemonic's routine defines.
pub proof fn lemma_table_consistent(code: u8)
    ensures
        decode(code) matches Some((mnemonic, mode, _)) ==> mode_supported(mnemonic, mode),
{
}

/// A step fails only on a byte that names no instruction: with the table
/// complete for the documented set, an unsupported addressing mode never
/// reaches the caller.
pub proof fn lemma_step_fails_only_on_unknown_opcodes(cpu: Cpu, mem: Seq<u8>)
    ensures
        ({
            let (_, _, r) = step(cpu, mem);
            r is Ok || r == Err::<(), CpuError>(
                CpuError::UnknownOpcode(load(mem, cpu.program_counter)),
            )
        }),
{
    let code = load(mem, cpu.program_counter);
    lemma_table_consistent(code);
    if let Some((mnemonic, mode, _)) = decode(code) {
        lemma_unsupported_mode(cpu.with_pc(wrap16(cpu.program_counter + 1)), mem, mnemonic, mode);
    }
}

} // verus!
