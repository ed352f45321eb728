use nes_play::bus::Bus;
use nes_play::cpu::Cpu;
use nes_play::nes::Nes;
use nes_play::opcode::{lookup, AddressingModes, CpuError, Mnemonic, Opcode};

const START: u16 = 0x0600;
const C: u8 = 0b0000_0001;
const Z: u8 = 0b0000_0010;
const I: u8 = 0b0000_0100;
const D: u8 = 0b0000_1000;
const B: u8 = 0b0001_0000;
const V: u8 = 0b0010_0000;
const N: u8 = 0b0100_0000;

fn machine(program: &[u8]) -> (Cpu, Bus) {
    let mut bus = Bus::new();
    bus.load_program(START, program);
    let mut cpu = Cpu::new();
    cpu.set_program_counter(START);
    (cpu, bus)
}

fn run(cpu: &mut Cpu, bus: &mut Bus, steps: usize) {
    for _ in 0..steps {
        cpu.execute_opcode(bus).unwrap();
    }
}

fn status(cpu: &Cpu) -> u8 {
    cpu.processor_status.status
}

#[test]
fn power_on_registers() {
    let cpu = Cpu::new();
    assert_eq!(cpu.program_counter, 0);
    assert_eq!(cpu.stack_pointer, 0xFF);
    assert_eq!((cpu.register_a, cpu.register_x, cpu.register_y), (0, 0, 0));
    assert_eq!(status(&cpu), 0);
}

#[test]
fn reset_restores_power_on_registers() {
    let (mut cpu, mut bus) = machine(&[0xA9, 0x05, 0xAA, 0x38]);
    run(&mut cpu, &mut bus, 3);
    cpu.reset();
    assert_eq!(cpu.program_counter, 0);
    assert_eq!(cpu.stack_pointer, 0xFF);
    assert_eq!((cpu.register_a, cpu.register_x, status(&cpu)), (0, 0, 0));
}

#[test]
fn adc_without_carry_wraps_and_sets_flags() {
    // CLC; LDA #$50; ADC #$50
    let (mut cpu, mut bus) = machine(&[0x18, 0xA9, 0x50, 0x69, 0x50]);
    run(&mut cpu, &mut bus, 3);
    assert_eq!(cpu.register_a, 0xA0);
    assert_eq!(status(&cpu), V | N);

    // LDA #$FF; ADC #$01
    let (mut cpu, mut bus) = machine(&[0xA9, 0xFF, 0x69, 0x01]);
    run(&mut cpu, &mut bus, 2);
    assert_eq!(cpu.register_a, 0x00);
    assert_eq!(status(&cpu), C | Z);

    // LDA #$80; ADC #$80
    let (mut cpu, mut bus) = machine(&[0xA9, 0x80, 0x69, 0x80]);
    run(&mut cpu, &mut bus, 2);
    assert_eq!(cpu.register_a, 0x00);
    assert_eq!(status(&cpu), C | Z | V);

    // LDA #$01; ADC #$01
    let (mut cpu, mut bus) = machine(&[0xA9, 0x01, 0x69, 0x01]);
    run(&mut cpu, &mut bus, 2);
    assert_eq!(cpu.register_a, 0x02);
    assert_eq!(status(&cpu), 0);
}

#[test]
fn adc_adds_the_incoming_carry() {
    // SEC; LDA #$10; ADC #$20
    let (mut cpu, mut bus) = machine(&[0x38, 0xA9, 0x10, 0x69, 0x20]);
    run(&mut cpu, &mut bus, 3);
    assert_eq!(cpu.register_a, 0x31);
    assert_eq!(status(&cpu), 0);

    // SEC; LDA #$FF; ADC #$FF: 0xFF + 0xFF + 1 = 0x1FF
    let (mut cpu, mut bus) = machine(&[0x38, 0xA9, 0xFF, 0x69, 0xFF]);
    run(&mut cpu, &mut bus, 3);
    assert_eq!(cpu.register_a, 0xFF);
    assert_eq!(status(&cpu), C | N);
}

#[test]
fn sbc_subtracts_with_borrow() {
    // SEC; LDA #$05; SBC #$03
    let (mut cpu, mut bus) = machine(&[0x38, 0xA9, 0x05, 0xE9, 0x03]);
    run(&mut cpu, &mut bus, 3);
    assert_eq!(cpu.register_a, 0x02);
    assert_eq!(status(&cpu), C);

    // CLC; LDA #$05; SBC #$03: the clear carry borrows one more
    let (mut cpu, mut bus) = machine(&[0x18, 0xA9, 0x05, 0xE9, 0x03]);
    run(&mut cpu, &mut bus, 3);
    assert_eq!(cpu.register_a, 0x01);
    assert_eq!(status(&cpu), C);

    // SEC; LDA #$00; SBC #$01
    let (mut cpu, mut bus) = machine(&[0x38, 0xA9, 0x00, 0xE9, 0x01]);
    run(&mut cpu, &mut bus, 3);
    assert_eq!(cpu.register_a, 0xFF);
    assert_eq!(status(&cpu), N);
}

#[test]
fn sbc_overflow_follows_the_signed_difference() {
    // 80 - (-80) = 160 does not fit in a signed byte
    let (mut cpu, mut bus) = machine(&[0x38, 0xA9, 0x50, 0xE9, 0xB0]);
    run(&mut cpu, &mut bus, 3);
    assert_eq!(cpu.register_a, 0xA0);
    assert_eq!(status(&cpu), V | N);

    // 80 - (-16) = 96 fits
    let (mut cpu, mut bus) = machine(&[0x38, 0xA9, 0x50, 0xE9, 0xF0]);
    run(&mut cpu, &mut bus, 3);
    assert_eq!(cpu.register_a, 0x60);
    assert_eq!(status(&cpu), 0);

    // -48 - 112 = -160 does not fit
    let (mut cpu, mut bus) = machine(&[0x38, 0xA9, 0xD0, 0xE9, 0x70]);
    run(&mut cpu, &mut bus, 3);
    assert_eq!(cpu.register_a, 0x60);
    assert_eq!(status(&cpu), C | V);
}

#[test]
fn cmp_sets_carry_when_not_below_and_keeps_accumulator() {
    // LDA #$40; CMP #$30
    let (mut cpu, mut bus) = machine(&[0xA9, 0x40, 0xC9, 0x30]);
    run(&mut cpu, &mut bus, 2);
    assert_eq!(cpu.register_a, 0x40);
    assert_eq!(status(&cpu), C);

    // LDA #$40; CMP #$40
    let (mut cpu, mut bus) = machine(&[0xA9, 0x40, 0xC9, 0x40]);
    run(&mut cpu, &mut bus, 2);
    assert_eq!(cpu.register_a, 0x40);
    assert_eq!(status(&cpu), C | Z);

    // LDA #$40; CMP #$50: 0x40 - 0x50 = 0xF0
    let (mut cpu, mut bus) = machine(&[0xA9, 0x40, 0xC9, 0x50]);
    run(&mut cpu, &mut bus, 2);
    assert_eq!(cpu.register_a, 0x40);
    assert_eq!(status(&cpu), N);
}

#[test]
fn cpx_and_cpy_compare_the_index_registers() {
    // LDX #$10; CPX #$10
    let (mut cpu, mut bus) = machine(&[0xA2, 0x10, 0xE0, 0x10]);
    run(&mut cpu, &mut bus, 2);
    assert_eq!(cpu.register_x, 0x10);
    assert_eq!(status(&cpu), C | Z);

    // LDY #$01; CPY #$02
    let (mut cpu, mut bus) = machine(&[0xA0, 0x01, 0xC0, 0x02]);
    run(&mut cpu, &mut bus, 2);
    assert_eq!(cpu.register_y, 0x01);
    assert_eq!(status(&cpu), N);
}

#[test]
fn rol_then_ror_restores_the_accumulator_and_carry() {
    // SEC; LDA #$81; ROL A; ROR A
    let (mut cpu, mut bus) = machine(&[0x38, 0xA9, 0x81, 0x2A, 0x6A]);
    run(&mut cpu, &mut bus, 3);
    assert_eq!(cpu.register_a, 0x03);
    assert_eq!(status(&cpu) & C, C);
    run(&mut cpu, &mut bus, 1);
    assert_eq!(cpu.register_a, 0x81);
    assert_eq!(status(&cpu), C | N);
}

#[test]
fn rol_then_ror_restores_memory_and_carry() {
    // CLC; LDA #$C4; STA $10; ROL $10; ROR $10
    let (mut cpu, mut bus) = machine(&[0x18, 0xA9, 0xC4, 0x85, 0x10, 0x26, 0x10, 0x66, 0x10]);
    run(&mut cpu, &mut bus, 4);
    assert_eq!(bus.read(0x0010), 0x88);
    assert_eq!(status(&cpu) & C, C);
    run(&mut cpu, &mut bus, 1);
    assert_eq!(bus.read(0x0010), 0xC4);
    assert_eq!(status(&cpu) & C, 0);
}

#[test]
fn asl_and_lsr_shift_through_the_carry() {
    // LDA #$81; ASL A; LSR A; LSR A
    let (mut cpu, mut bus) = machine(&[0xA9, 0x81, 0x0A, 0x4A, 0x4A]);
    run(&mut cpu, &mut bus, 2);
    assert_eq!(cpu.register_a, 0x02);
    assert_eq!(status(&cpu), C);
    run(&mut cpu, &mut bus, 1);
    assert_eq!(cpu.register_a, 0x01);
    assert_eq!(status(&cpu), 0);
    run(&mut cpu, &mut bus, 1);
    assert_eq!(cpu.register_a, 0x00);
    assert_eq!(status(&cpu), C | Z);
}

#[test]
fn asl_on_memory_writes_back() {
    // ASL $20 with 0x40 there
    let (mut cpu, mut bus) = machine(&[0x06, 0x20]);
    bus.write(0x0020, 0x40);
    run(&mut cpu, &mut bus, 1);
    assert_eq!(bus.read(0x0020), 0x80);
    assert_eq!(status(&cpu), N);
    assert_eq!(cpu.register_a, 0);
}

#[test]
fn zero_page_indexed_wraps_within_page_zero() {
    // LDX #$20; LDA $F0,X reads 0x0010, not 0x0110
    let (mut cpu, mut bus) = machine(&[0xA2, 0x20, 0xB5, 0xF0]);
    bus.write(0x0010, 0x5A);
    bus.write(0x0110, 0x99);
    run(&mut cpu, &mut bus, 2);
    assert_eq!(cpu.register_a, 0x5A);

    // LDY #$FF; LDX $02,Y reads 0x0001
    let (mut cpu, mut bus) = machine(&[0xA0, 0xFF, 0xB6, 0x02]);
    bus.write(0x0001, 0x33);
    bus.write(0x0101, 0x44);
    run(&mut cpu, &mut bus, 2);
    assert_eq!(cpu.register_x, 0x33);
}

#[test]
fn indirect_jump_takes_high_byte_from_the_same_page() {
    // JMP ($02FF)
    let (mut cpu, mut bus) = machine(&[0x6C, 0xFF, 0x02]);
    bus.write(0x02FF, 0x34);
    bus.write(0x0200, 0x12);
    bus.write(0x0300, 0x56);
    run(&mut cpu, &mut bus, 1);
    assert_eq!(cpu.program_counter, 0x1234);
}

#[test]
fn indirect_jump_inside_a_page() {
    // JMP ($0120)
    let (mut cpu, mut bus) = machine(&[0x6C, 0x20, 0x01]);
    bus.write(0x0120, 0xCD);
    bus.write(0x0121, 0x0A);
    run(&mut cpu, &mut bus, 1);
    assert_eq!(cpu.program_counter, 0x0ACD);
}

#[test]
fn jsr_then_rts_resumes_after_the_call() {
    let (mut cpu, mut bus) = machine(&[0x20, 0x00, 0x07]);
    bus.write(0x0700, 0x60);
    run(&mut cpu, &mut bus, 1);
    assert_eq!(cpu.program_counter, 0x0700);
    assert_eq!(cpu.stack_pointer, 0xFD);
    assert_eq!(bus.read(0x01FF), 0x06);
    assert_eq!(bus.read(0x01FE), 0x02);
    run(&mut cpu, &mut bus, 1);
    assert_eq!(cpu.program_counter, 0x0603);
    assert_eq!(cpu.stack_pointer, 0xFF);
}

#[test]
fn jsr_at_8000_then_rts_returns_to_8003() {
    // the opcode at 0x8000 is consumed; its operand reads 0x0000, unbacked
    let mut bus = Bus::new();
    bus.write(0x0000, 0x60);
    let mut cpu = Cpu::new();
    cpu.set_program_counter(0x8001);
    let jsr = lookup(0x20).unwrap();
    cpu.execute_instruction(&mut bus, &jsr).unwrap();
    assert_eq!(cpu.program_counter, 0x0000);
    assert_eq!(bus.read(0x01FF), 0x80);
    assert_eq!(bus.read(0x01FE), 0x02);
    cpu.execute_opcode(&mut bus).unwrap();
    assert_eq!(cpu.program_counter, 0x8003);
    assert_eq!(cpu.stack_pointer, 0xFF);
}

#[test]
fn brk_pushes_three_bytes_and_jumps_through_the_vector() {
    // SEC; BRK
    let (mut cpu, mut bus) = machine(&[0x38, 0x00]);
    run(&mut cpu, &mut bus, 2);
    assert_eq!(cpu.stack_pointer, 0xFC);
    assert_eq!(bus.read(0x01FF), 0x06);
    assert_eq!(bus.read(0x01FE), 0x02);
    assert_eq!(bus.read(0x01FD), C | B);
    assert_eq!(bus.read(0x01FC), 0x00);
    // the vector at 0xFFFE/0xFFFF is unbacked and reads 0
    assert_eq!(cpu.program_counter, 0x0000);
    assert_eq!(status(&cpu), C);
}

#[test]
fn rti_after_brk_restores_status_and_program_counter() {
    // SEC; BRK, with RTI at the vector target 0x0000
    let (mut cpu, mut bus) = machine(&[0x38, 0x00]);
    bus.write(0x0000, 0x40);
    run(&mut cpu, &mut bus, 3);
    assert_eq!(cpu.program_counter, 0x0602);
    assert_eq!(cpu.stack_pointer, 0xFF);
    assert_eq!(status(&cpu), C | B);
}

#[test]
fn branch_not_taken_only_consumes_the_operand() {
    // LDA #$01; BEQ +5
    let (mut cpu, mut bus) = machine(&[0xA9, 0x01, 0xF0, 0x05]);
    run(&mut cpu, &mut bus, 2);
    assert_eq!(cpu.program_counter, 0x0604);
    assert_eq!(cpu.register_a, 0x01);
    assert_eq!(status(&cpu), 0);
}

#[test]
fn branch_taken_moves_from_after_the_operand() {
    // LDA #$00; BEQ +5
    let (mut cpu, mut bus) = machine(&[0xA9, 0x00, 0xF0, 0x05]);
    run(&mut cpu, &mut bus, 2);
    assert_eq!(cpu.program_counter, 0x0609);

    // LDA #$01; BNE -4 (back to the BNE itself minus two)
    let (mut cpu, mut bus) = machine(&[0xA9, 0x01, 0xD0, 0xFC]);
    run(&mut cpu, &mut bus, 2);
    assert_eq!(cpu.program_counter, 0x0600);
}

#[test]
fn each_branch_tests_its_own_flag() {
    // SEC; BCS +2; BCC +2 (not taken)
    let (mut cpu, mut bus) = machine(&[0x38, 0xB0, 0x02]);
    run(&mut cpu, &mut bus, 2);
    assert_eq!(cpu.program_counter, 0x0605);
    let (mut cpu, mut bus) = machine(&[0x38, 0x90, 0x02]);
    run(&mut cpu, &mut bus, 2);
    assert_eq!(cpu.program_counter, 0x0603);
    // LDA #$80; BMI +2 / BPL +2
    let (mut cpu, mut bus) = machine(&[0xA9, 0x80, 0x30, 0x02]);
    run(&mut cpu, &mut bus, 2);
    assert_eq!(cpu.program_counter, 0x0606);
    let (mut cpu, mut bus) = machine(&[0xA9, 0x80, 0x10, 0x02]);
    run(&mut cpu, &mut bus, 2);
    assert_eq!(cpu.program_counter, 0x0604);
    // CLV; BVC +2 / BVS +2
    let (mut cpu, mut bus) = machine(&[0xB8, 0x50, 0x02]);
    run(&mut cpu, &mut bus, 2);
    assert_eq!(cpu.program_counter, 0x0605);
    let (mut cpu, mut bus) = machine(&[0xB8, 0x70, 0x02]);
    run(&mut cpu, &mut bus, 2);
    assert_eq!(cpu.program_counter, 0x0603);
}

#[test]
fn unknown_opcode_stops_with_its_byte() {
    let (mut cpu, mut bus) = machine(&[0x02]);
    assert_eq!(cpu.execute_opcode(&mut bus), Err(CpuError::UnknownOpcode(0x02)));
    assert_eq!(cpu.program_counter, 0x0601);
}

#[test]
fn instruction_given_a_mode_it_does_not_define_fails() {
    let (mut cpu, mut bus) = machine(&[0x00, 0x00]);
    let adc = Opcode::new(0x69, Mnemonic::Adc, 1, 2, AddressingModes::Implied);
    assert_eq!(
        cpu.execute_instruction(&mut bus, &adc),
        Err(CpuError::UnsupportedAddressingMode(Mnemonic::Adc))
    );
    let nop = Opcode::new(0xEA, Mnemonic::Nop, 2, 2, AddressingModes::Immediate);
    assert_eq!(
        cpu.execute_instruction(&mut bus, &nop),
        Err(CpuError::UnsupportedAddressingMode(Mnemonic::Nop))
    );
    let asl = Opcode::new(0x0A, Mnemonic::Asl, 1, 2, AddressingModes::Implied);
    assert_eq!(
        cpu.execute_instruction(&mut bus, &asl),
        Err(CpuError::UnsupportedAddressingMode(Mnemonic::Asl))
    );
    assert_eq!(cpu.program_counter, START);
    assert_eq!(cpu.stack_pointer, 0xFF);
}

#[test]
fn loads_set_zero_and_negative() {
    // LDA #$00; LDX #$80; LDY #$7F
    let (mut cpu, mut bus) = machine(&[0xA9, 0x00, 0xA2, 0x80, 0xA0, 0x7F]);
    run(&mut cpu, &mut bus, 1);
    assert_eq!(status(&cpu), Z);
    run(&mut cpu, &mut bus, 1);
    assert_eq!(cpu.register_x, 0x80);
    assert_eq!(status(&cpu), N);
    run(&mut cpu, &mut bus, 1);
    assert_eq!(cpu.register_y, 0x7F);
    assert_eq!(status(&cpu), 0);
}

#[test]
fn stores_write_without_touching_flags() {
    // LDA #$80; LDX #$00; LDY #$05; STA $0200; STX $10; STY $11
    let (mut cpu, mut bus) =
        machine(&[0xA9, 0x80, 0xA2, 0x00, 0xA0, 0x05, 0x8D, 0x00, 0x02, 0x86, 0x10, 0x84, 0x11]);
    bus.write(0x0010, 0xEE);
    run(&mut cpu, &mut bus, 6);
    assert_eq!(bus.read(0x0200), 0x80);
    assert_eq!(bus.read(0x0010), 0x00);
    assert_eq!(bus.read(0x0011), 0x05);
    assert_eq!(status(&cpu), 0);
}

#[test]
fn inc_and_dec_wrap_in_memory() {
    // INC $10; DEC $10; DEC $10
    let (mut cpu, mut bus) = machine(&[0xE6, 0x10, 0xC6, 0x10, 0xC6, 0x10]);
    bus.write(0x0010, 0xFF);
    run(&mut cpu, &mut bus, 1);
    assert_eq!(bus.read(0x0010), 0x00);
    assert_eq!(status(&cpu), Z);
    run(&mut cpu, &mut bus, 2);
    assert_eq!(bus.read(0x0010), 0xFE);
    assert_eq!(status(&cpu), N);
}

#[test]
fn index_increments_and_decrements_wrap() {
    // DEX; INY; INX; DEY
    let (mut cpu, mut bus) = machine(&[0xCA, 0xC8, 0xE8, 0x88]);
    run(&mut cpu, &mut bus, 1);
    assert_eq!(cpu.register_x, 0xFF);
    assert_eq!(status(&cpu), N);
    run(&mut cpu, &mut bus, 1);
    assert_eq!(cpu.register_y, 0x01);
    assert_eq!(status(&cpu), 0);
    run(&mut cpu, &mut bus, 1);
    assert_eq!(cpu.register_x, 0x00);
    assert_eq!(status(&cpu), Z);
    run(&mut cpu, &mut bus, 1);
    assert_eq!(cpu.register_y, 0x00);
    assert_eq!(status(&cpu), Z);
}

#[test]
fn transfers_copy_and_set_flags_from_bit_seven() {
    // LDA #$80; TAX; TAY
    let (mut cpu, mut bus) = machine(&[0xA9, 0x80, 0xAA, 0xA8]);
    run(&mut cpu, &mut bus, 3);
    assert_eq!((cpu.register_x, cpu.register_y), (0x80, 0x80));
    assert_eq!(status(&cpu), N);

    // LDA #$40; TAX: bit 6 alone is not negative
    let (mut cpu, mut bus) = machine(&[0xA9, 0x40, 0xAA]);
    run(&mut cpu, &mut bus, 2);
    assert_eq!(cpu.register_x, 0x40);
    assert_eq!(status(&cpu), 0);

    // LDX #$00; LDY #$07; TXA; TYA
    let (mut cpu, mut bus) = machine(&[0xA2, 0x00, 0xA0, 0x07, 0x8A, 0x98]);
    run(&mut cpu, &mut bus, 3);
    assert_eq!(cpu.register_a, 0x00);
    assert_eq!(status(&cpu), Z);
    run(&mut cpu, &mut bus, 1);
    assert_eq!(cpu.register_a, 0x07);
    assert_eq!(status(&cpu), 0);
}

#[test]
fn stack_pointer_transfers() {
    // TSX
    let (mut cpu, mut bus) = machine(&[0xBA]);
    run(&mut cpu, &mut bus, 1);
    assert_eq!(cpu.register_x, 0xFF);
    assert_eq!(status(&cpu), N);

    // LDX #$40; LDA #$00; TXS: no flag changes
    let (mut cpu, mut bus) = machine(&[0xA2, 0x40, 0xA9, 0x00, 0x9A]);
    run(&mut cpu, &mut bus, 3);
    assert_eq!(cpu.stack_pointer, 0x40);
    assert_eq!(status(&cpu), Z);
}

#[test]
fn pha_then_pla_restores_the_accumulator() {
    // LDA #$42; PHA; LDA #$00; PLA
    let (mut cpu, mut bus) = machine(&[0xA9, 0x42, 0x48, 0xA9, 0x00, 0x68]);
    run(&mut cpu, &mut bus, 2);
    assert_eq!(cpu.stack_pointer, 0xFE);
    assert_eq!(bus.read(0x01FF), 0x42);
    run(&mut cpu, &mut bus, 2);
    assert_eq!(cpu.register_a, 0x42);
    assert_eq!(cpu.stack_pointer, 0xFF);
    assert_eq!(status(&cpu), 0);
}

#[test]
fn php_then_plp_restores_the_whole_status_byte() {
    // SEC; SED; PHP; CLC; CLD; PLP
    let (mut cpu, mut bus) = machine(&[0x38, 0xF8, 0x08, 0x18, 0xD8, 0x28]);
    cpu.processor_status.set_raw(0x80);
    run(&mut cpu, &mut bus, 5);
    assert_eq!(status(&cpu), 0x80);
    run(&mut cpu, &mut bus, 1);
    assert_eq!(status(&cpu), 0x80 | C | D);
    assert_eq!(cpu.stack_pointer, 0xFF);
}

#[test]
fn bit_copies_bits_six_and_seven() {
    // LDA #$01; BIT $10 with 0xC0 there
    let (mut cpu, mut bus) = machine(&[0xA9, 0x01, 0x24, 0x10]);
    bus.write(0x0010, 0xC0);
    run(&mut cpu, &mut bus, 2);
    assert_eq!(cpu.register_a, 0x01);
    assert_eq!(status(&cpu), Z | V | N);

    // LDA #$03; BIT $0200 with 0x01 there
    let (mut cpu, mut bus) = machine(&[0xA9, 0x03, 0x2C, 0x00, 0x02]);
    bus.write(0x0200, 0x01);
    run(&mut cpu, &mut bus, 2);
    assert_eq!(status(&cpu), 0);
}

#[test]
fn logic_instructions_combine_with_the_accumulator() {
    // LDA #$F0; AND #$3C; ORA #$0F; EOR #$FF
    let (mut cpu, mut bus) = machine(&[0xA9, 0xF0, 0x29, 0x3C, 0x09, 0x0F, 0x49, 0xFF]);
    run(&mut cpu, &mut bus, 2);
    assert_eq!(cpu.register_a, 0x30);
    run(&mut cpu, &mut bus, 1);
    assert_eq!(cpu.register_a, 0x3F);
    run(&mut cpu, &mut bus, 1);
    assert_eq!(cpu.register_a, 0xC0);
    assert_eq!(status(&cpu), N);
}

#[test]
fn jmp_absolute_sets_the_program_counter() {
    let (mut cpu, mut bus) = machine(&[0x4C, 0x34, 0x12]);
    run(&mut cpu, &mut bus, 1);
    assert_eq!(cpu.program_counter, 0x1234);
}

#[test]
fn absolute_indexed_wraps_at_sixteen_bits() {
    // LDX #$02; LDA $FFFF,X reads 0x0001
    let (mut cpu, mut bus) = machine(&[0xA2, 0x02, 0xBD, 0xFF, 0xFF]);
    bus.write(0x0001, 0x77);
    run(&mut cpu, &mut bus, 2);
    assert_eq!(cpu.register_a, 0x77);

    // LDY #$10; LDA $0200,Y
    let (mut cpu, mut bus) = machine(&[0xA0, 0x10, 0xB9, 0x00, 0x02]);
    bus.write(0x0210, 0x66);
    run(&mut cpu, &mut bus, 2);
    assert_eq!(cpu.register_a, 0x66);
}

#[test]
fn indexed_indirect_wraps_in_page_zero() {
    // LDX #$04; LDA ($FE,X): pointer at 0x02
    let (mut cpu, mut bus) = machine(&[0xA2, 0x04, 0xA1, 0xFE]);
    bus.write(0x0002, 0x00);
    bus.write(0x0003, 0x03);
    bus.write(0x0300, 0x99);
    run(&mut cpu, &mut bus, 2);
    assert_eq!(cpu.register_a, 0x99);

    // LDX #$01; LDA ($FE,X): pointer at 0xFF, high byte from 0x00
    let (mut cpu, mut bus) = machine(&[0xA2, 0x01, 0xA1, 0xFE]);
    bus.write(0x00FF, 0x20);
    bus.write(0x0000, 0x04);
    bus.write(0x0100, 0x05);
    bus.write(0x0420, 0xAB);
    run(&mut cpu, &mut bus, 2);
    assert_eq!(cpu.register_a, 0xAB);
}

#[test]
fn indirect_indexed_adds_y_to_the_pointer() {
    // LDY #$10; LDA ($20),Y
    let (mut cpu, mut bus) = machine(&[0xA0, 0x10, 0xB1, 0x20]);
    bus.write(0x0020, 0xF8);
    bus.write(0x0021, 0x02);
    bus.write(0x0308, 0x55);
    run(&mut cpu, &mut bus, 2);
    assert_eq!(cpu.register_a, 0x55);

    // LDY #$00; STA ($FF),Y: pointer high byte from 0x00
    let (mut cpu, mut bus) = machine(&[0xA0, 0x00, 0xA9, 0x3C, 0x91, 0xFF]);
    bus.write(0x00FF, 0x10);
    bus.write(0x0000, 0x05);
    run(&mut cpu, &mut bus, 3);
    assert_eq!(bus.read(0x0510), 0x3C);
}

#[test]
fn flag_instructions_set_and_clear_their_flags() {
    // SEC; SED; SEI
    let (mut cpu, mut bus) = machine(&[0x38, 0xF8, 0x78, 0x18, 0xD8, 0x58]);
    run(&mut cpu, &mut bus, 3);
    assert_eq!(status(&cpu), C | D | I);
    // CLC; CLD; CLI
    run(&mut cpu, &mut bus, 3);
    assert_eq!(status(&cpu), 0);

    // LDA #$50; ADC #$50; CLV
    let (mut cpu, mut bus) = machine(&[0xA9, 0x50, 0x69, 0x50, 0xB8]);
    run(&mut cpu, &mut bus, 3);
    assert_eq!(status(&cpu), N);
}

#[test]
fn nop_only_moves_the_program_counter() {
    let (mut cpu, mut bus) = machine(&[0xEA]);
    run(&mut cpu, &mut bus, 1);
    assert_eq!(cpu.program_counter, 0x0601);
    assert_eq!(cpu.stack_pointer, 0xFF);
    assert_eq!((cpu.register_a, cpu.register_x, cpu.register_y, status(&cpu)), (0, 0, 0, 0));
}

#[test]
fn console_steps_its_processor_against_the_shared_bus() {
    let mut nes = Nes::new();
    nes.bus.load_program(START, &[0xA9, 0x2A, 0x8D, 0x00, 0x20]);
    nes.cpu.set_program_counter(START);
    nes.step().unwrap();
    nes.step().unwrap();
    assert_eq!(nes.cpu.register_a, 0x2A);
    assert_eq!(nes.bus.read(0x2008), 0x2A);
    nes.reset();
    assert_eq!(nes.cpu.program_counter, 0);
    assert_eq!(nes.bus.read(0x2000), 0);
    assert_eq!(nes.bus.read(START), 0);
}

#[test]
fn every_byte_runs_or_is_an_unknown_opcode() {
    for code in 0..=255u8 {
        let (mut cpu, mut bus) = machine(&[code, 0x10, 0x02]);
        let r = cpu.execute_opcode(&mut bus);
        match lookup(code) {
            Ok(_) => assert_eq!(r, Ok(()), "opcode {:#04x}", code),
            Err(_) => assert_eq!(r, Err(CpuError::UnknownOpcode(code))),
        }
    }
}
