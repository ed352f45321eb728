use vstd::prelude::*;

use crate::bus::{load, Bus};
use crate::opcode::{lookup, operand_length, AddressingModes, CpuError, Mnemonic, Opcode};
use crate::semantics::{
    advance, branch_condition, branch_instruction, compared, effective_address, execute,
    lemma_no_address, popped, pushed, shift_instruction, shifted, signed, step, with_accumulator,
    with_x, with_y, word, wrap16, IRQ_VECTOR,
};
use crate::status::{flag_set, ProcessStatus, BREAK_COMMAND, CARRY, NEGATIVE, OVERFLOW, ZERO};

verus! {

/// The registers of the processor. The bus is not part of it: each step is
/// handed the bus it runs against.
pub struct Cpu {
    pub program_counter: u16,
    pub stack_pointer: u8,
    pub register_a: u8,
    pub register_x: u8,
    pub register_y: u8,
    pub processor_status: ProcessStatus,
}

/// The registers at power-on.
pub open spec fn power_on() -> Cpu {
    Cpu {
        program_counter: 0,
        stack_pointer: 0xFF,
        register_a: 0,
        register_x: 0,
        register_y: 0,
        processor_status: ProcessStatus { status: 0 },
    }
}

impl Cpu {
    pub open spec fn status(self) -> u8 {
        self.processor_status.status
    }

    pub open spec fn carry(self) -> bool {
        flag_set(self.status(), CARRY)
    }

    pub open spec fn with_pc(self, program_counter: u16) -> Cpu {
        Cpu { program_counter, ..self }
    }

    pub open spec fn with_status(self, status: u8) -> Cpu {
        Cpu { processor_status: ProcessStatus { status }, ..self }
    }

    pub fn new() -> (cpu: Self)
        ensures
            cpu == power_on(),
    {
        Cpu {
            program_counter: 0,
            stack_pointer: 0xFF,
            register_a: 0,
            register_x: 0,
            register_y: 0,
            processor_status: ProcessStatus::new(),
        }
    }

    /// Puts every register back to its power-on value.
    pub fn reset(&mut self)
        ensures
            *final(self) == power_on(),
    {
        *self = Cpu::new();
    }

    fn inc_program_counter(&mut self, amount: u16)
        ensures
            *final(self) == old(self).with_pc(wrap16(old(self).program_counter + amount)),
    {
        self.program_counter = self.program_counter.wrapping_add(amount);
    }

    pub fn set_program_counter(&mut self, address: u16)
        ensures
            *final(self) == old(self).with_pc(address),
    {
        self.program_counter = address;
    }

    fn stack_push(&mut self, bus: &mut Bus, data: u8)
        ensures
            (*final(self), final(bus)@) == pushed(*old(self), old(bus)@, data),
    {
        bus.write(0x0100 + self.stack_pointer as u16, data);
        self.stack_pointer = self.stack_pointer.wrapping_sub(1);
    }

    fn stack_pop(&mut self, bus: &Bus) -> (data: u8)
        ensures
            (*final(self), data) == popped(*old(self), bus@),
    {
        self.stack_pointer = self.stack_pointer.wrapping_add(1);
        bus.read(0x0100 + self.stack_pointer as u16)
    }

    /// Runs the instruction of a table entry whose opcode byte has already
    /// been consumed.
    pub fn execute_instruction(&mut self, bus: &mut Bus, opcode: &Opcode) -> (r: Result<(), CpuError>)
        ensures
            (*final(self), final(bus)@, r) == execute(
                *old(self),
                old(bus)@,
                opcode.mnemonic,
                opcode.addressing_mode,
            ),
    {
        let mode = opcode.addressing_mode;
        match opcode.mnemonic {
            Mnemonic::Adc => self.add_with_carry(bus, mode),
            Mnemonic::And => self.logical_and(bus, mode),
            Mnemonic::Asl => self.arithmetic_shift_left(bus, mode),
            Mnemonic::Bcc => self.branch_if_carry_clear(bus, mode),
            Mnemonic::Bcs => self.branch_if_carry_set(bus, mode),
            Mnemonic::Beq => self.branch_if_equal(bus, mode),
            Mnemonic::Bit => self.bit_test(bus, mode),
            Mnemonic::Bmi => self.branch_if_minus(bus, mode),
            Mnemonic::Bne => self.branch_if_not_equal(bus, mode),
            Mnemonic::Bpl => self.branch_if_positive(bus, mode),
            Mnemonic::Brk => self.force_interrupt(bus, mode),
            Mnemonic::Bvc => self.branch_if_overflow_clear(bus, mode),
            Mnemonic::Bvs => self.branch_if_overflow_set(bus, mode),
            Mnemonic::Clc => self.clear_carry_flag(bus, mode),
            Mnemonic::Cld => self.clear_decimal_mode(bus, mode),
            Mnemonic::Cli => self.clear_interrupt_disable(bus, mode),
            Mnemonic::Clv => self.clear_overflow_flag(bus, mode),
            Mnemonic::Cmp => self.compare(bus, mode),
            Mnemonic::Cpx => self.compare_x_register(bus, mode),
            Mnemonic::Cpy => self.compare_y_register(bus, mode),
            Mnemonic::Dec => self.decrement_memory(bus, mode),
            Mnemonic::Dex => self.decrement_x_register(bus, mode),
            Mnemonic::Dey => self.decrement_y_register(bus, mode),
            Mnemonic::Eor => self.exclusive_or(bus, mode),
            Mnemonic::Inc => self.increment_memory(bus, mode),
            Mnemonic::Inx => self.increment_x_register(bus, mode),
            Mnemonic::Iny => self.increment_y_register(bus, mode),
            Mnemonic::Jmp => self.jump(bus, mode),
            Mnemonic::Jsr => self.jump_to_subroutine(bus, mode),
            Mnemonic::Lda => self.load_accumulator(bus, mode),
            Mnemonic::Ldx => self.load_x_register(bus, mode),
            Mnemonic::Ldy => self.load_y_register(bus, mode),
            Mnemonic::Lsr => self.logical_shift_right(bus, mode),
            Mnemonic::Nop => self.no_operation(bus, mode),
            Mnemonic::Ora => self.logical_inclusive_or(bus, mode),
            Mnemonic::Pha => self.push_accumulator(bus, mode),
            Mnemonic::Php => self.push_processor_status(bus, mode),
            Mnemonic::Pla => self.pull_accumulator(bus, mode),
            Mnemonic::Plp => self.pull_processor_status(bus, mode),
            Mnemonic::Rol => self.rotate_left(bus, mode),
            Mnemonic::Ror => self.rotate_right(bus, mode),
            Mnemonic::Rti => self.return_from_interrupt(bus, mode),
            Mnemonic::Rts => self.return_from_subroutine(bus, mode),
            Mnemonic::Sbc => self.subtract_with_carry(bus, mode),
            Mnemonic::Sec => self.set_carry_flag(bus, mode),
            Mnemonic::Sed => self.set_decimal_flag(bus, mode),
            Mnemonic::Sei => self.set_interrupt_disable(bus, mode),
            Mnemonic::Sta => self.store_accumulator(bus, mode),
            Mnemonic::Stx => self.store_x_register(bus, mode),
            Mnemonic::Sty => self.store_y_register(bus, mode),
            Mnemonic::Tax => self.transfer_accumulator_to_x(bus, mode),
            Mnemonic::Tay => self.transfer_accumulator_to_y(bus, mode),
            Mnemonic::Tsx => self.transfer_stack_pointer_to_x(bus, mode),
            Mnemonic::Txa => self.transfer_x_to_accumulator(bus, mode),
            Mnemonic::Txs => self.transfer_x_to_stack_pointer(bus, mode),
            Mnemonic::Tya => self.transfer_y_to_accumulator(bus, mode),
        }
    }

    /// Fetches the opcode byte at the program counter, moves past it, looks
    /// it up and runs its instruction: one whole instruction per call.
    pub fn execute_opcode(&mut self, bus: &mut Bus) -> (r: Result<(), CpuError>)
        ensures
            (*final(self), final(bus)@, r) == step(*old(self), old(bus)@),
    {
        let code = bus.read(self.program_counter);
        self.inc_program_counter(1);
        match lookup(code) {
            Ok(opcode) => self.execute_instruction(bus, &opcode),
            Err(e) => Err(e),
        }
    }

    /// Resolves the address of `mode` from the operand bytes at the program
    /// counter, and moves the program counter past them.
    fn get_address(&mut self, bus: &Bus, mode: AddressingModes) -> (address: Option<u16>)
        ensures
            *final(self) == advance(*old(self), mode),
            address == effective_address(*old(self), bus@, mode),
            address is None <==> (mode == AddressingModes::Implied || mode == AddressingModes::Accumulator),
            address is None ==> *final(self) == *old(self),
    {
        proof {
            lemma_no_address(*self, bus@, mode);
        }
        let address = match mode {
            AddressingModes::Indirect | AddressingModes::IndirectX | AddressingModes::IndirectY => {
                self.indirect_address(bus, mode)
            },
            _ => self.direct_address(bus, mode),
        };
        self.inc_program_counter(operand_bytes(mode));
        address
    }

    /// The address of a mode that reads it from the operand bytes alone.
    fn direct_address(&self, bus: &Bus, mode: AddressingModes) -> (address: Option<u16>)
        requires
            mode != AddressingModes::Indirect,
            mode != AddressingModes::IndirectX,
            mode != AddressingModes::IndirectY,
        ensures
            address == effective_address(*self, bus@, mode),
    {
        reveal(effective_address);
        let pc = self.program_counter;
        match mode {
            AddressingModes::Immediate => Some(pc),
            AddressingModes::ZeroPage => Some(bus.read(pc) as u16),
            AddressingModes::ZeroPageX => Some(bus.read(pc).wrapping_add(self.register_x) as u16),
            AddressingModes::ZeroPageY => Some(bus.read(pc).wrapping_add(self.register_y) as u16),
            AddressingModes::Relative => Some(relative_target(pc.wrapping_add(1), bus.read(pc))),
            AddressingModes::Absolute => Some(read_word(bus, pc)),
            AddressingModes::AbsoluteX => Some(read_word(bus, pc).wrapping_add(self.register_x as u16)),
            AddressingModes::AbsoluteY => Some(read_word(bus, pc).wrapping_add(self.register_y as u16)),
            _ => None,
        }
    }

    /// The address of a mode that reads a pointer and then the target.
    fn indirect_address(&self, bus: &Bus, mode: AddressingModes) -> (address: Option<u16>)
        requires
            mode == AddressingModes::Indirect || mode == AddressingModes::IndirectX
                || mode == AddressingModes::IndirectY,
        ensures
            address == effective_address(*self, bus@, mode),
    {
        reveal(effective_address);
        let pc = self.program_counter;
        match mode {
            AddressingModes::Indirect => {
                let lo = bus.read(pc);
                let hi = bus.read(pc.wrapping_add(1));
                // the 6502 does not carry into the pointer's high byte: a
                // pointer at the end of a page takes the target's high byte
                // from the start of that same page
                let target_lo = bus.read(make_word(lo, hi));
                let target_hi = bus.read(make_word(lo.wrapping_add(1), hi));
                Some(make_word(target_lo, target_hi))
            },
            AddressingModes::IndirectX => {
                let pointer = bus.read(pc).wrapping_add(self.register_x);
                let lo = bus.read(pointer as u16);
                let hi = bus.read(pointer.wrapping_add(1) as u16);
                Some(make_word(lo, hi))
            },
            _ => {
                let pointer = bus.read(pc);
                let lo = bus.read(pointer as u16);
                let hi = bus.read(pointer.wrapping_add(1) as u16);
                Some(make_word(lo, hi).wrapping_add(self.register_y as u16))
            },
        }
    }

    /// Resolves `mode` and reads the operand there; fails for the modes
    /// that designate no address, leaving the registers as they were.
    fn read_operand(&mut self, bus: &Bus, mode: AddressingModes, mnemonic: Mnemonic) -> (r: Result<u8, CpuError>)
        ensures
            match effective_address(*old(self), bus@, mode) {
                Some(address) => *final(self) == advance(*old(self), mode) && r == Ok::<u8, CpuError>(load(bus@, address)),
                None => *final(self) == *old(self) && r == Err::<u8, CpuError>(CpuError::UnsupportedAddressingMode(mnemonic)),
            },
    {
        match self.get_address(bus, mode) {
            Some(address) => Ok(bus.read(address)),
            None => Err(CpuError::UnsupportedAddressingMode(mnemonic)),
        }
    }

    fn set_accumulator(&mut self, value: u8)
        ensures
            *final(self) == with_accumulator(*old(self), value),
    {
        self.register_a = value;
        self.processor_status.update_zero_and_negative(value);
    }

    fn set_x(&mut self, value: u8)
        ensures
            *final(self) == with_x(*old(self), value),
    {
        self.register_x = value;
        self.processor_status.update_zero_and_negative(value);
    }

    fn set_y(&mut self, value: u8)
        ensures
            *final(self) == with_y(*old(self), value),
    {
        self.register_y = value;
        self.processor_status.update_zero_and_negative(value);
    }

    fn add_with_carry(&mut self, bus: &Bus, mode: AddressingModes) -> (r: Result<(), CpuError>)
        ensures
            (*final(self), bus@, r) == execute(*old(self), bus@, Mnemonic::Adc, mode),
    {
        match self.read_operand(bus, mode, Mnemonic::Adc) {
            Ok(memory) => {
                let a = self.register_a;
                let carry: u16 = if self.processor_status.get_carry_flag() { 1 } else { 0 };
                let sum: u16 = a as u16 + memory as u16 + carry;
                let result = (sum % 0x100) as u8;
                self.processor_status.assign(CARRY, sum > 0xFF);
                self.processor_status.assign(OVERFLOW, (a ^ result) & (memory ^ result) & 0x80 != 0);
                self.set_accumulator(result);
                Ok(())
            },
            Err(e) => Err(e),
        }
    }

    fn subtract_with_carry(&mut self, bus: &Bus, mode: AddressingModes) -> (r: Result<(), CpuError>)
        ensures
            (*final(self), bus@, r) == execute(*old(self), bus@, Mnemonic::Sbc, mode),
    {
        match self.read_operand(bus, mode, Mnemonic::Sbc) {
            Ok(memory) => {
                let a = self.register_a;
                let borrow: u8 = if self.processor_status.get_carry_flag() { 0 } else { 1 };
                let result = a.wrapping_sub(memory).wrapping_sub(borrow);
                self.processor_status.assign(CARRY, a as u16 >= memory as u16 + borrow as u16);
                self.processor_status.assign(OVERFLOW, (a ^ result) & (!memory ^ result) & 0x80 != 0);
                self.set_accumulator(result);
                Ok(())
            },
            Err(e) => Err(e),
        }
    }

    fn logical_and(&mut self, bus: &Bus, mode: AddressingModes) -> (r: Result<(), CpuError>)
        ensures
            (*final(self), bus@, r) == execute(*old(self), bus@, Mnemonic::And, mode),
    {
        match self.read_operand(bus, mode, Mnemonic::And) {
            Ok(memory) => {
                self.set_accumulator(self.register_a & memory);
                Ok(())
            },
            Err(e) => Err(e),
        }
    }

    fn logical_inclusive_or(&mut self, bus: &Bus, mode: AddressingModes) -> (r: Result<(), CpuError>)
        ensures
            (*final(self), bus@, r) == execute(*old(self), bus@, Mnemonic::Ora, mode),
    {
        match self.read_operand(bus, mode, Mnemonic::Ora) {
            Ok(memory) => {
                self.set_accumulator(self.register_a | memory);
                Ok(())
            },
            Err(e) => Err(e),
        }
    }

    fn exclusive_or(&mut self, bus: &Bus, mode: AddressingModes) -> (r: Result<(), CpuError>)
        ensures
            (*final(self), bus@, r) == execute(*old(self), bus@, Mnemonic::Eor, mode),
    {
        match self.read_operand(bus, mode, Mnemonic::Eor) {
            Ok(memory) => {
                self.set_accumulator(self.register_a ^ memory);
                Ok(())
            },
            Err(e) => Err(e),
        }
    }

    fn load_accumulator(&mut self, bus: &Bus, mode: AddressingModes) -> (r: Result<(), CpuError>)
        ensures
            (*final(self), bus@, r) == execute(*old(self), bus@, Mnemonic::Lda, mode),
    {
        match self.read_operand(bus, mode, Mnemonic::Lda) {
            Ok(memory) => {
                self.set_accumulator(memory);
                Ok(())
            },
            Err(e) => Err(e),
        }
    }

    fn load_x_register(&mut self, bus: &Bus, mode: AddressingModes) -> (r: Result<(), CpuError>)
        ensures
            (*final(self), bus@, r) == execute(*old(self), bus@, Mnemonic::Ldx, mode),
    {
        match self.read_operand(bus, mode, Mnemonic::Ldx) {
            Ok(memory) => {
                self.set_x(memory);
                Ok(())
            },
            Err(e) => Err(e),
        }
    }

    fn load_y_register(&mut self, bus: &Bus, mode: AddressingModes) -> (r: Result<(), CpuError>)
        ensures
            (*final(self), bus@, r) == execute(*old(self), bus@, Mnemonic::Ldy, mode),
    {
        match self.read_operand(bus, mode, Mnemonic::Ldy) {
            Ok(memory) => {
                self.set_y(memory);
                Ok(())
            },
            Err(e) => Err(e),
        }
    }

    /// Flags of `register - memory`: carry when no borrow, zero and negative
    /// from the difference.
    fn compare_with(&mut self, register: u8, memory: u8)
        ensures
            *final(self) == compared(*old(self), register, memory),
    {
        self.processor_status.assign(CARRY, register >= memory);
        self.processor_status.update_zero_and_negative(register.wrapping_sub(memory));
    }

    fn compare(&mut self, bus: &Bus, mode: AddressingModes) -> (r: Result<(), CpuError>)
        ensures
            (*final(self), bus@, r) == execute(*old(self), bus@, Mnemonic::Cmp, mode),
    {
        match self.read_operand(bus, mode, Mnemonic::Cmp) {
            Ok(memory) => {
                self.compare_with(self.register_a, memory);
                Ok(())
            },
            Err(e) => Err(e),
        }
    }

    fn compare_x_register(&mut self, bus: &Bus, mode: AddressingModes) -> (r: Result<(), CpuError>)
        ensures
            (*final(self), bus@, r) == execute(*old(self), bus@, Mnemonic::Cpx, mode),
    {
        match self.read_operand(bus, mode, Mnemonic::Cpx) {
            Ok(memory) => {
                self.compare_with(self.register_x, memory);
                Ok(())
            },
            Err(e) => Err(e),
        }
    }

    fn compare_y_register(&mut self, bus: &Bus, mode: AddressingModes) -> (r: Result<(), CpuError>)
        ensures
            (*final(self), bus@, r) == execute(*old(self), bus@, Mnemonic::Cpy, mode),
    {
        match self.read_operand(bus, mode, Mnemonic::Cpy) {
            Ok(memory) => {
                self.compare_with(self.register_y, memory);
                Ok(())
            },
            Err(e) => Err(e),
        }
    }

    fn bit_test(&mut self, bus: &Bus, mode: AddressingModes) -> (r: Result<(), CpuError>)
        ensures
            (*final(self), bus@, r) == execute(*old(self), bus@, Mnemonic::Bit, mode),
    {
        match self.read_operand(bus, mode, Mnemonic::Bit) {
            Ok(memory) => {
                self.processor_status.assign(OVERFLOW, memory & 0x40 != 0);
                self.processor_status.assign(NEGATIVE, memory & 0x80 != 0);
                self.processor_status.assign(ZERO, self.register_a & memory == 0);
                Ok(())
            },
            Err(e) => Err(e),
        }
    }

    /// Shared body of ASL, LSR, ROL and ROR.
    fn shift(&mut self, bus: &mut Bus, mode: AddressingModes, mnemonic: Mnemonic) -> (r: Result<(), CpuError>)
        ensures
            (*final(self), final(bus)@, r) == shift_instruction(*old(self), old(bus)@, mnemonic, mode),
    {
        let carry_in = self.processor_status.get_carry_flag();
        match self.get_address(bus, mode) {
            Some(address) => {
                let (result, carry) = shift_value(mnemonic, bus.read(address), carry_in);
                bus.write(address, result);
                self.processor_status.assign(CARRY, carry);
                self.processor_status.update_zero_and_negative(result);
                Ok(())
            },
            None => match mode {
                AddressingModes::Accumulator => {
                    let (result, carry) = shift_value(mnemonic, self.register_a, carry_in);
                    self.register_a = result;
                    self.processor_status.assign(CARRY, carry);
                    self.processor_status.update_zero_and_negative(result);
                    Ok(())
                },
                _ => Err(CpuError::UnsupportedAddressingMode(mnemonic)),
            },
        }
    }

    fn arithmetic_shift_left(&mut self, bus: &mut Bus, mode: AddressingModes) -> (r: Result<(), CpuError>)
        ensures
            (*final(self), final(bus)@, r) == execute(*old(self), old(bus)@, Mnemonic::Asl, mode),
    {
        self.shift(bus, mode, Mnemonic::Asl)
    }

    fn logical_shift_right(&mut self, bus: &mut Bus, mode: AddressingModes) -> (r: Result<(), CpuError>)
        ensures
            (*final(self), final(bus)@, r) == execute(*old(self), old(bus)@, Mnemonic::Lsr, mode),
    {
        self.shift(bus, mode, Mnemonic::Lsr)
    }

    fn rotate_left(&mut self, bus: &mut Bus, mode: AddressingModes) -> (r: Result<(), CpuError>)
        ensures
            (*final(self), final(bus)@, r) == execute(*old(self), old(bus)@, Mnemonic::Rol, mode),
    {
        self.shift(bus, mode, Mnemonic::Rol)
    }

    fn rotate_right(&mut self, bus: &mut Bus, mode: AddressingModes) -> (r: Result<(), CpuError>)
        ensures
            (*final(self), final(bus)@, r) == execute(*old(self), old(bus)@, Mnemonic::Ror, mode),
    {
        self.shift(bus, mode, Mnemonic::Ror)
    }

    fn increment_memory(&mut self, bus: &mut Bus, mode: AddressingModes) -> (r: Result<(), CpuError>)
        ensures
            (*final(self), final(bus)@, r) == execute(*old(self), old(bus)@, Mnemonic::Inc, mode),
    {
        match self.get_address(bus, mode) {
            Some(address) => {
                let result = bus.read(address).wrapping_add(1);
                bus.write(address, result);
                self.processor_status.update_zero_and_negative(result);
                Ok(())
            },
            None => Err(CpuError::UnsupportedAddressingMode(Mnemonic::Inc)),
        }
    }

    fn decrement_memory(&mut self, bus: &mut Bus, mode: AddressingModes) -> (r: Result<(), CpuError>)
        ensures
            (*final(self), final(bus)@, r) == execute(*old(self), old(bus)@, Mnemonic::Dec, mode),
    {
        match self.get_address(bus, mode) {
            Some(address) => {
                let result = bus.read(address).wrapping_sub(1);
                bus.write(address, result);
                self.processor_status.update_zero_and_negative(result);
                Ok(())
            },
            None => Err(CpuError::UnsupportedAddressingMode(Mnemonic::Dec)),
        }
    }

    fn store_accumulator(&mut self, bus: &mut Bus, mode: AddressingModes) -> (r: Result<(), CpuError>)
        ensures
            (*final(self), final(bus)@, r) == execute(*old(self), old(bus)@, Mnemonic::Sta, mode),
    {
        match self.get_address(bus, mode) {
            Some(address) => {
                bus.write(address, self.register_a);
                Ok(())
            },
            None => Err(CpuError::UnsupportedAddressingMode(Mnemonic::Sta)),
        }
    }

    fn store_x_register(&mut self, bus: &mut Bus, mode: AddressingModes) -> (r: Result<(), CpuError>)
        ensures
            (*final(self), final(bus)@, r) == execute(*old(self), old(bus)@, Mnemonic::Stx, mode),
    {
        match self.get_address(bus, mode) {
            Some(address) => {
                bus.write(address, self.register_x);
                Ok(())
            },
            None => Err(CpuError::UnsupportedAddressingMode(Mnemonic::Stx)),
        }
    }

    fn store_y_register(&mut self, bus: &mut Bus, mode: AddressingModes) -> (r: Result<(), CpuError>)
        ensures
            (*final(self), final(bus)@, r) == execute(*old(self), old(bus)@, Mnemonic::Sty, mode),
    {
        match self.get_address(bus, mode) {
            Some(address) => {
                bus.write(address, self.register_y);
                Ok(())
            },
            None => Err(CpuError::UnsupportedAddressingMode(Mnemonic::Sty)),
        }
    }

    /// Shared body of the branch instructions; `taken` is the outcome of
    /// the instruction's flag test.
    fn branch(&mut self, bus: &Bus, mode: AddressingModes, mnemonic: Mnemonic, taken: bool) -> (r: Result<(), CpuError>)
        requires
            taken == branch_condition(mnemonic, old(self).status()),
        ensures
            (*final(self), bus@, r) == branch_instruction(*old(self), bus@, mnemonic, mode),
    {
        match self.get_address(bus, mode) {
            Some(address) => {
                if taken {
                    self.program_counter = address;
                }
                Ok(())
            },
            None => Err(CpuError::UnsupportedAddressingMode(mnemonic)),
        }
    }

    fn branch_if_carry_clear(&mut self, bus: &Bus, mode: AddressingModes) -> (r: Result<(), CpuError>)
        ensures
            (*final(self), bus@, r) == execute(*old(self), bus@, Mnemonic::Bcc, mode),
    {
        let taken = !self.processor_status.get_carry_flag();
        self.branch(bus, mode, Mnemonic::Bcc, taken)
    }

    fn branch_if_carry_set(&mut self, bus: &Bus, mode: AddressingModes) -> (r: Result<(), CpuError>)
        ensures
            (*final(self), bus@, r) == execute(*old(self), bus@, Mnemonic::Bcs, mode),
    {
        let taken = self.processor_status.get_carry_flag();
        self.branch(bus, mode, Mnemonic::Bcs, taken)
    }

    fn branch_if_equal(&mut self, bus: &Bus, mode: AddressingModes) -> (r: Result<(), CpuError>)
        ensures
            (*final(self), bus@, r) == execute(*old(self), bus@, Mnemonic::Beq, mode),
    {
        let taken = self.processor_status.get_zero_flag();
        self.branch(bus, mode, Mnemonic::Beq, taken)
    }

    fn branch_if_not_equal(&mut self, bus: &Bus, mode: AddressingModes) -> (r: Result<(), CpuError>)
        ensures
            (*final(self), bus@, r) == execute(*old(self), bus@, Mnemonic::Bne, mode),
    {
        let taken = !self.processor_status.get_zero_flag();
        self.branch(bus, mode, Mnemonic::Bne, taken)
    }

    fn branch_if_minus(&mut self, bus: &Bus, mode: AddressingModes) -> (r: Result<(), CpuError>)
        ensures
            (*final(self), bus@, r) == execute(*old(self), bus@, Mnemonic::Bmi, mode),
    {
        let taken = self.processor_status.get_negative_flag();
        self.branch(bus, mode, Mnemonic::Bmi, taken)
    }

    fn branch_if_positive(&mut self, bus: &Bus, mode: AddressingModes) -> (r: Result<(), CpuError>)
        ensures
            (*final(self), bus@, r) == execute(*old(self), bus@, Mnemonic::Bpl, mode),
    {
        let taken = !self.processor_status.get_negative_flag();
        self.branch(bus, mode, Mnemonic::Bpl, taken)
    }

    fn branch_if_overflow_clear(&mut self, bus: &Bus, mode: AddressingModes) -> (r: Result<(), CpuError>)
        ensures
            (*final(self), bus@, r) == execute(*old(self), bus@, Mnemonic::Bvc, mode),
    {
        let taken = !self.processor_status.get_overflow_flag();
        self.branch(bus, mode, Mnemonic::Bvc, taken)
    }

    fn branch_if_overflow_set(&mut self, bus: &Bus, mode: AddressingModes) -> (r: Result<(), CpuError>)
        ensures
            (*final(self), bus@, r) == execute(*old(self), bus@, Mnemonic::Bvs, mode),
    {
        let taken = self.processor_status.get_overflow_flag();
        self.branch(bus, mode, Mnemonic::Bvs, taken)
    }

    fn jump(&mut self, bus: &Bus, mode: AddressingModes) -> (r: Result<(), CpuError>)
        ensures
            (*final(self), bus@, r) == execute(*old(self), bus@, Mnemonic::Jmp, mode),
    {
        match self.get_address(bus, mode) {
            Some(address) => {
                self.program_counter = address;
                Ok(())
            },
            None => Err(CpuError::UnsupportedAddressingMode(Mnemonic::Jmp)),
        }
    }

    fn jump_to_subroutine(&mut self, bus: &mut Bus, mode: AddressingModes) -> (r: Result<(), CpuError>)
        ensures
            (*final(self), final(bus)@, r) == execute(*old(self), old(bus)@, Mnemonic::Jsr, mode),
    {
        match self.get_address(bus, mode) {
            Some(address) => {
                let ret = self.program_counter.wrapping_sub(1);
                self.stack_push(bus, (ret / 0x100) as u8);
                self.stack_push(bus, (ret % 0x100) as u8);
                self.program_counter = address;
                Ok(())
            },
            None => Err(CpuError::UnsupportedAddressingMode(Mnemonic::Jsr)),
        }
    }

    fn force_interrupt(&mut self, bus: &mut Bus, mode: AddressingModes) -> (r: Result<(), CpuError>)
        ensures
            (*final(self), final(bus)@, r) == execute(*old(self), old(bus)@, Mnemonic::Brk, mode),
    {
        match mode {
            AddressingModes::Implied => {
                let pc = self.program_counter;
                self.stack_push(bus, (pc / 0x100) as u8);
                self.stack_push(bus, (pc % 0x100) as u8);
                let status = self.processor_status.status | BREAK_COMMAND;
                self.stack_push(bus, status);
                let lo = bus.read(IRQ_VECTOR);
                let hi = bus.read(0xFFFF);
                self.program_counter = make_word(lo, hi);
                Ok(())
            },
            _ => Err(CpuError::UnsupportedAddressingMode(Mnemonic::Brk)),
        }
    }

    fn clear_carry_flag(&mut self, bus: &Bus, mode: AddressingModes) -> (r: Result<(), CpuError>)
        ensures
            (*final(self), bus@, r) == execute(*old(self), bus@, Mnemonic::Clc, mode),
    {
        match mode {
            AddressingModes::Implied => {
                self.processor_status.clear_carry_flag();
                Ok(())
            },
            _ => Err(CpuError::UnsupportedAddressingMode(Mnemonic::Clc)),
        }
    }

    fn clear_decimal_mode(&mut self, bus: &Bus, mode: AddressingModes) -> (r: Result<(), CpuError>)
        ensures
            (*final(self), bus@, r) == execute(*old(self), bus@, Mnemonic::Cld, mode),
    {
        match mode {
            AddressingModes::Implied => {
                self.processor_status.clear_decimal_mode_flag();
                Ok(())
            },
            _ => Err(CpuError::UnsupportedAddressingMode(Mnemonic::Cld)),
        }
    }

    fn clear_interrupt_disable(&mut self, bus: &Bus, mode: AddressingModes) -> (r: Result<(), CpuError>)
        ensures
            (*final(self), bus@, r) == execute(*old(self), bus@, Mnemonic::Cli, mode),
    {
        match mode {
            AddressingModes::Implied => {
                self.processor_status.clear_interrupt_disable_flag();
                Ok(())
            },
            _ => Err(CpuError::UnsupportedAddressingMode(Mnemonic::Cli)),
        }
    }

    fn clear_overflow_flag(&mut self, bus: &Bus, mode: AddressingModes) -> (r: Result<(), CpuError>)
        ensures
            (*final(self), bus@, r) == execute(*old(self), bus@, Mnemonic::Clv, mode),
    {
        match mode {
            AddressingModes::Implied => {
                self.processor_status.clear_overflow_flag();
                Ok(())
            },
            _ => Err(CpuError::UnsupportedAddressingMode(Mnemonic::Clv)),
        }
    }

    fn set_carry_flag(&mut self, bus: &Bus, mode: AddressingModes) -> (r: Result<(), CpuError>)
        ensures
            (*final(self), bus@, r) == execute(*old(self), bus@, Mnemonic::Sec, mode),
    {
        match mode {
            AddressingModes::Implied => {
                self.processor_status.set_carry_flag();
                Ok(())
            },
            _ => Err(CpuError::UnsupportedAddressingMode(Mnemonic::Sec)),
        }
    }

    fn set_decimal_flag(&mut self, bus: &Bus, mode: AddressingModes) -> (r: Result<(), CpuError>)
        ensures
            (*final(self), bus@, r) == execute(*old(self), bus@, Mnemonic::Sed, mode),
    {
        match mode {
            AddressingModes::Implied => {
                self.processor_status.set_decimal_mode_flag();
                Ok(())
            },
            _ => Err(CpuError::UnsupportedAddressingMode(Mnemonic::Sed)),
        }
    }

    fn set_interrupt_disable(&mut self, bus: &Bus, mode: AddressingModes) -> (r: Result<(), CpuError>)
        ensures
            (*final(self), bus@, r) == execute(*old(self), bus@, Mnemonic::Sei, mode),
    {
        match mode {
            AddressingModes::Implied => {
                self.processor_status.set_interrupt_disable_flag();
                Ok(())
            },
            _ => Err(CpuError::UnsupportedAddressingMode(Mnemonic::Sei)),
        }
    }

    fn decrement_x_register(&mut self, bus: &Bus, mode: AddressingModes) -> (r: Result<(), CpuError>)
        ensures
            (*final(self), bus@, r) == execute(*old(self), bus@, Mnemonic::Dex, mode),
    {
        match mode {
            AddressingModes::Implied => {
                self.set_x(self.register_x.wrapping_sub(1));
                Ok(())
            },
            _ => Err(CpuError::UnsupportedAddressingMode(Mnemonic::Dex)),
        }
    }

    fn decrement_y_register(&mut self, bus: &Bus, mode: AddressingModes) -> (r: Result<(), CpuError>)
        ensures
            (*final(self), bus@, r) == execute(*old(self), bus@, Mnemonic::Dey, mode),
    {
        match mode {
            AddressingModes::Implied => {
                self.set_y(self.register_y.wrapping_sub(1));
                Ok(())
            },
            _ => Err(CpuError::UnsupportedAddressingMode(Mnemonic::Dey)),
        }
    }

    fn increment_x_register(&mut self, bus: &Bus, mode: AddressingModes) -> (r: Result<(), CpuError>)
        ensures
            (*final(self), bus@, r) == execute(*old(self), bus@, Mnemonic::Inx, mode),
    {
        match mode {
            AddressingModes::Implied => {
                self.set_x(self.register_x.wrapping_add(1));
                Ok(())
            },
            _ => Err(CpuError::UnsupportedAddressingMode(Mnemonic::Inx)),
        }
    }

    fn increment_y_register(&mut self, bus: &Bus, mode: AddressingModes) -> (r: Result<(), CpuError>)
        ensures
            (*final(self), bus@, r) == execute(*old(self), bus@, Mnemonic::Iny, mode),
    {
        match mode {
            AddressingModes::Implied => {
                self.set_y(self.register_y.wrapping_add(1));
                Ok(())
            },
            _ => Err(CpuError::UnsupportedAddressingMode(Mnemonic::Iny)),
        }
    }

    fn no_operation(&mut self, bus: &Bus, mode: AddressingModes) -> (r: Result<(), CpuError>)
        ensures
            (*final(self), bus@, r) == execute(*old(self), bus@, Mnemonic::Nop, mode),
    {
        match mode {
            AddressingModes::Implied => Ok(()),
            _ => Err(CpuError::UnsupportedAddressingMode(Mnemonic::Nop)),
        }
    }

    fn push_accumulator(&mut self, bus: &mut Bus, mode: AddressingModes) -> (r: Result<(), CpuError>)
        ensures
            (*final(self), final(bus)@, r) == execute(*old(self), old(bus)@, Mnemonic::Pha, mode),
    {
        match mode {
            AddressingModes::Implied => {
                self.stack_push(bus, self.register_a);
                Ok(())
            },
            _ => Err(CpuError::UnsupportedAddressingMode(Mnemonic::Pha)),
        }
    }

    fn push_processor_status(&mut self, bus: &mut Bus, mode: AddressingModes) -> (r: Result<(), CpuError>)
        ensures
            (*final(self), final(bus)@, r) == execute(*old(self), old(bus)@, Mnemonic::Php, mode),
    {
        match mode {
            AddressingModes::Implied => {
                self.stack_push(bus, self.processor_status.status);
                Ok(())
            },
            _ => Err(CpuError::UnsupportedAddressingMode(Mnemonic::Php)),
        }
    }

    fn pull_accumulator(&mut self, bus: &Bus, mode: AddressingModes) -> (r: Result<(), CpuError>)
        ensures
            (*final(self), bus@, r) == execute(*old(self), bus@, Mnemonic::Pla, mode),
    {
        match mode {
            AddressingModes::Implied => {
                let value = self.stack_pop(bus);
                self.set_accumulator(value);
                Ok(())
            },
            _ => Err(CpuError::UnsupportedAddressingMode(Mnemonic::Pla)),
        }
    }

    fn pull_processor_status(&mut self, bus: &Bus, mode: AddressingModes) -> (r: Result<(), CpuError>)
        ensures
            (*final(self), bus@, r) == execute(*old(self), bus@, Mnemonic::Plp, mode),
    {
        match mode {
            AddressingModes::Implied => {
                self.processor_status.status = self.stack_pop(bus);
                Ok(())
            },
            _ => Err(CpuError::UnsupportedAddressingMode(Mnemonic::Plp)),
        }
    }

    fn return_from_interrupt(&mut self, bus: &Bus, mode: AddressingModes) -> (r: Result<(), CpuError>)
        ensures
            (*final(self), bus@, r) == execute(*old(self), bus@, Mnemonic::Rti, mode),
    {
        match mode {
            AddressingModes::Implied => {
                self.processor_status.status = self.stack_pop(bus);
                let lo = self.stack_pop(bus);
                let hi = self.stack_pop(bus);
                self.program_counter = make_word(lo, hi);
                Ok(())
            },
            _ => Err(CpuError::UnsupportedAddressingMode(Mnemonic::Rti)),
        }
    }

    fn return_from_subroutine(&mut self, bus: &Bus, mode: AddressingModes) -> (r: Result<(), CpuError>)
        ensures
            (*final(self), bus@, r) == execute(*old(self), bus@, Mnemonic::Rts, mode),
    {
        match mode {
            AddressingModes::Implied => {
                let lo = self.stack_pop(bus);
                let hi = self.stack_pop(bus);
                self.program_counter = make_word(lo, hi).wrapping_add(1);
                Ok(())
            },
            _ => Err(CpuError::UnsupportedAddressingMode(Mnemonic::Rts)),
        }
    }

    fn transfer_accumulator_to_x(&mut self, bus: &Bus, mode: AddressingModes) -> (r: Result<(), CpuError>)
        ensures
            (*final(self), bus@, r) == execute(*old(self), bus@, Mnemonic::Tax, mode),
    {
        match mode {
            AddressingModes::Implied => {
                self.set_x(self.register_a);
                Ok(())
            },
            _ => Err(CpuError::UnsupportedAddressingMode(Mnemonic::Tax)),
        }
    }

    fn transfer_accumulator_to_y(&mut self, bus: &Bus, mode: AddressingModes) -> (r: Result<(), CpuError>)
        ensures
            (*final(self), bus@, r) == execute(*old(self), bus@, Mnemonic::Tay, mode),
    {
        match mode {
            AddressingModes::Implied => {
                self.set_y(self.register_a);
                Ok(())
            },
            _ => Err(CpuError::UnsupportedAddressingMode(Mnemonic::Tay)),
        }
    }

    fn transfer_stack_pointer_to_x(&mut self, bus: &Bus, mode: AddressingModes) -> (r: Result<(), CpuError>)
        ensures
            (*final(self), bus@, r) == execute(*old(self), bus@, Mnemonic::Tsx, mode),
    {
        match mode {
            AddressingModes::Implied => {
                self.set_x(self.stack_pointer);
                Ok(())
            },
            _ => Err(CpuError::UnsupportedAddressingMode(Mnemonic::Tsx)),
        }
    }

    fn transfer_x_to_accumulator(&mut self, bus: &Bus, mode: AddressingModes) -> (r: Result<(), CpuError>)
        ensures
            (*final(self), bus@, r) == execute(*old(self), bus@, Mnemonic::Txa, mode),
    {
        match mode {
            AddressingModes::Implied => {
                self.set_accumulator(self.register_x);
                Ok(())
            },
            _ => Err(CpuError::UnsupportedAddressingMode(Mnemonic::Txa)),
        }
    }

    fn transfer_x_to_stack_pointer(&mut self, bus: &Bus, mode: AddressingModes) -> (r: Result<(), CpuError>)
        ensures
            (*final(self), bus@, r) == execute(*old(self), bus@, Mnemonic::Txs, mode),
    {
        match mode {
            AddressingModes::Implied => {
                self.stack_pointer = self.register_x;
                Ok(())
            },
            _ => Err(CpuError::UnsupportedAddressingMode(Mnemonic::Txs)),
        }
    }

    fn transfer_y_to_accumulator(&mut self, bus: &Bus, mode: AddressingModes) -> (r: Result<(), CpuError>)
        ensures
            (*final(self), bus@, r) == execute(*old(self), bus@, Mnemonic::Tya, mode),
    {
        match mode {
            AddressingModes::Implied => {
                self.set_accumulator(self.register_y);
                Ok(())
            },
            _ => Err(CpuError::UnsupportedAddressingMode(Mnemonic::Tya)),
        }
    }
}

/// The value and carry out of ASL, LSR, ROL or ROR on `value`.
fn shift_value(mnemonic: Mnemonic, value: u8, carry: bool) -> (r: (u8, bool))
    ensures
        r == shifted(mnemonic, value, carry),
{
    match mnemonic {
        Mnemonic::Asl => (value << 1u8, value & 0x80 != 0),
        Mnemonic::Lsr => (value >> 1u8, value & 1 != 0),
        Mnemonic::Rol => ((value << 1u8) | if carry { 1u8 } else { 0u8 }, value & 0x80 != 0),
        Mnemonic::Ror => ((value >> 1u8) | if carry { 0x80u8 } else { 0u8 }, value & 1 != 0),
        _ => (value, carry),
    }
}

/// Number of operand bytes of `mode`.
fn operand_bytes(mode: AddressingModes) -> (n: u16)
    ensures
        n == operand_length(mode),
{
    match mode {
        AddressingModes::Implied | AddressingModes::Accumulator => 0,
        AddressingModes::Absolute | AddressingModes::AbsoluteX | AddressingModes::AbsoluteY
        | AddressingModes::Indirect => 2,
        _ => 1,
    }
}

/// The little-endian word at `address` and the byte after it.
fn read_word(bus: &Bus, address: u16) -> (w: u16)
    ensures
        w == word(load(bus@, address), load(bus@, wrap16(address + 1))),
{
    let lo = bus.read(address);
    let hi = bus.read(address.wrapping_add(1));
    make_word(lo, hi)
}

/// A branch target: `next` moved by `offset` read as a signed byte.
fn relative_target(next: u16, offset: u8) -> (target: u16)
    ensures
        target == wrap16(next + signed(offset)),
{
    if offset < 0x80 {
        next.wrapping_add(offset as u16)
    } else {
        next.wrapping_sub(0x100 - offset as u16)
    }
}

fn make_word(lo: u8, hi: u8) -> (w: u16)
    ensures
        w == word(lo, hi),
{
    (hi as u16) * 0x100 + lo as u16
}

} // verus!
