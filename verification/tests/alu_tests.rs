use w65xx_emulator::addressing::AddressingModes;
use w65xx_emulator::alu::add_two_numbers;
use w65xx_emulator::cpu::{RegisterId, CPU};
use w65xx_emulator::memory::VirtualMemory;
use w65xx_emulator::register::{StatusFlags, StatusRegister};

fn alu_test_setup() -> CPU {
    let mut memory = VirtualMemory::new();
    let paddng: Vec<u8> = vec![0xEA; 0xFF00];
    let working_data: Vec<u8> = (0..0xFC).collect();
    let reset_vector: Vec<u8> = vec![0x00, 0xFF];
    let test_rom = vec![paddng, working_data, reset_vector].concat();
    memory.load_rom(test_rom, 0x00).unwrap();
    let mut cpu = CPU::new(memory);
    cpu.boot_cycle(); // PC starts at 0xFF00
    return cpu;
}

#[test]
fn adc_test() {
    // Setup
    let mut cpu = alu_test_setup();
    cpu.program_counter.increment(0); // Operand is the byte past the new counter, which is 2.
    cpu.accumulator.value = 1;
    cpu.processor_status_flags.clear_flag(StatusFlags::Carry); // Programmer is responsible for clearing the carry flag before adding

    // Execute
    cpu.sum_with_carry(&AddressingModes::Immediate, false);
    // Verify
    assert_eq!(cpu.accumulator.value, 3);
}

#[test]
fn adc_carry_out_test() {
    // Setup
    let mut cpu = alu_test_setup();
    cpu.memory.write(0xFF01, 100);
    cpu.accumulator.value = 200;
    cpu.processor_status_flags.clear_flag(StatusFlags::Carry);

    // Execute
    cpu.sum_with_carry(&AddressingModes::Immediate, false);

    // Verify: (200 + 100) mod 256 with the carry flag holding bit 8.
    assert_eq!(cpu.accumulator.value, 44);
    assert!(cpu.processor_status_flags.check_flag(StatusFlags::Carry));
}

#[test]
fn sbc_test() {
    // Setup
    let mut cpu = alu_test_setup();
    cpu.program_counter.increment(0xee); // PC set to 0xffef, operand is at 0xfff0
    cpu.accumulator.value = 0x50;
    cpu.processor_status_flags.set_flag(StatusFlags::Carry); // Programmer is responsible for setting the carry flag to "complete" 2s compliment.

    // Execute
    cpu.sum_with_carry(&AddressingModes::Immediate, true);

    // Verify
    assert_eq!(cpu.accumulator.value, 0x60);
}

#[test]
fn sbc_borrow_test() {
    // Setup
    let mut cpu = alu_test_setup();
    cpu.program_counter.increment(0x6e); // PC set to 0xff6f, operand is at 0xff70
    cpu.accumulator.value = 0xd0;
    cpu.processor_status_flags.set_flag(StatusFlags::Carry); // Programmer is responsible for setting the carry flag to "complete" 2s compliment.

    // Execute
    cpu.sum_with_carry(&AddressingModes::Immediate, true);

    // Verify
    assert_eq!(cpu.accumulator.value, 0x60);
    assert!(cpu.processor_status_flags.check_flag(StatusFlags::Overflow));
}

#[test]
fn adder_exact_sum_test() {
    let mut status_flags = StatusRegister::new();

    // Carry clear: the sum is exact and no carry comes out.
    let sum = add_two_numbers(&mut status_flags, 1, 2);
    assert_eq!(sum, 3);
    assert!(!status_flags.check_flag(StatusFlags::Carry));

    // Carry set from a previous addition feeds the next one.
    let wrapped = add_two_numbers(&mut status_flags, 200, 100);
    assert_eq!(wrapped, 44);
    assert!(status_flags.check_flag(StatusFlags::Carry));
    let with_carry_in = add_two_numbers(&mut status_flags, 1, 2);
    assert_eq!(with_carry_in, 4);
}

// Bitwise operations

#[test]
fn bitwise_and_test() {
    // Set up
    let mut cpu = alu_test_setup();
    cpu.accumulator.value = 3;

    // Execute
    cpu.bitwise_and(&AddressingModes::Immediate);

    // Verify
    assert_eq!(cpu.accumulator.value, 1);
}

#[test]
fn bitwise_or_test() {
    // Set up
    let mut cpu = alu_test_setup();
    cpu.accumulator.value = 2;

    // Execute
    cpu.bitwise_or(&AddressingModes::Immediate);

    // Verify
    assert_eq!(cpu.accumulator.value, 3);
}

#[test]
fn bitwise_exclusive_or_test() {
    // Set up
    let mut cpu = alu_test_setup();
    cpu.accumulator.value = 0;

    // Execute
    cpu.bitwise_exclusive_or(&AddressingModes::Immediate);

    // Verify
    assert_eq!(cpu.accumulator.value, 1);
}

#[test]
fn arithmetic_shift_lift_test() {
    // Setup
    let mut cpu = alu_test_setup();
    cpu.accumulator.value = 0x81;

    // Execute
    cpu.left_shift(&AddressingModes::Accumulator, false);

    // Verify
    assert!(cpu.processor_status_flags.check_flag(StatusFlags::Carry));
    assert_eq!(cpu.accumulator.value, 2);
}

#[test]
fn rotate_left_test() {
    // Setup
    let mut cpu = alu_test_setup();
    cpu.accumulator.value = 0x81;
    cpu.processor_status_flags.set_flag(StatusFlags::Carry);

    // Execute
    cpu.left_shift(&AddressingModes::Accumulator, true);
    cpu.left_shift(&AddressingModes::Accumulator, true);

    // Verify
    assert!(!cpu.processor_status_flags.check_flag(StatusFlags::Carry));
    assert_eq!(cpu.accumulator.value, 0x7);
}

#[test]
fn shift_right_test() {
    // Setup
    let mut cpu = alu_test_setup();
    cpu.accumulator.value = 3;

    // Execute
    cpu.right_shift(&AddressingModes::Accumulator, false);

    // Verify
    assert!(cpu.processor_status_flags.check_flag(StatusFlags::Carry));
    assert_eq!(cpu.accumulator.value, 1);
}

#[test]
fn rotate_right_test() {
    // Setup
    let mut cpu = alu_test_setup();
    cpu.accumulator.value = 0x83;

    // Execute
    cpu.right_shift(&AddressingModes::Accumulator, true);
    cpu.right_shift(&AddressingModes::Accumulator, true);

    // Verify
    assert!(cpu.processor_status_flags.check_flag(StatusFlags::Carry));
    assert_eq!(cpu.accumulator.value, 0xa0);
}

#[test]
fn left_shift_memory_test() {
    // Setup
    let mut cpu = alu_test_setup();
    // The zero-page operand byte at 0xFF01 is 0x01, so the shift works on
    // address 0x0001, which holds 0xEA.
    cpu.processor_status_flags.clear_flag(StatusFlags::Carry);

    // Execute
    cpu.left_shift(&AddressingModes::ZeroPage, false);

    // Verify: 0xEA shifted left once is 0xD4 with a carry out of bit 7.
    assert_eq!(cpu.memory.read(0x0001), 0xD4);
    assert!(cpu.processor_status_flags.check_flag(StatusFlags::Carry));
    assert_eq!(cpu.accumulator.value, 0);
}

#[test]
fn increment_test() {
    // Setup
    let mut cpu = alu_test_setup();
    cpu.x_register.value = 1;

    // Execute
    cpu.inc_dec_memory(&AddressingModes::ZeroPage, false);
    cpu.inc_dec_register(RegisterId::IndexX, false);

    // Verify
    assert_eq!(cpu.x_register.value, 2);
    assert_eq!(cpu.memory.read(0x0001), 0xeb);
}

#[test]
fn decrement_wrap_test() {
    let mut cpu = alu_test_setup();
    cpu.x_register.value = 0;

    cpu.inc_dec_register(RegisterId::IndexX, true);

    assert_eq!(cpu.x_register.value, 0xFF);
    assert!(cpu.processor_status_flags.check_flag(StatusFlags::Negative));
    assert!(!cpu.processor_status_flags.check_flag(StatusFlags::Zero));
}

#[test]
fn increment_to_zero_test() {
    let mut cpu = alu_test_setup();
    cpu.y_register.value = 0xFF;

    cpu.inc_dec_register(RegisterId::IndexY, false);

    assert_eq!(cpu.y_register.value, 0);
    assert!(cpu.processor_status_flags.check_flag(StatusFlags::Zero));
    assert!(!cpu.processor_status_flags.check_flag(StatusFlags::Negative));
}

#[test]
fn bit_test() {
    // Setup
    let mut cpu = alu_test_setup();
    cpu.accumulator.value = 0xff;

    // Execute
    cpu.bit_instruction(&AddressingModes::ZeroPage);

    // Verify
    let status_register = &cpu.processor_status_flags;
    assert!(!status_register.check_flag(StatusFlags::Zero));
    assert!(status_register.check_flag(StatusFlags::Negative));
    assert!(status_register.check_flag(StatusFlags::Overflow));
}

#[test]
fn bit_zero_operand_test() {
    // Setup: memory holds zero everywhere but the reset vector.
    let mut memory = VirtualMemory::new();
    memory.load_rom(vec![0x00, 0xFF], 0xFFFC).unwrap();
    let mut cpu = CPU::new(memory);
    cpu.boot_cycle();
    cpu.accumulator.value = 0xFF;

    // Execute: the operand byte is 0, so the AND result is 0 and the
    // operand's bits 7 and 6 are both clear.
    cpu.bit_instruction(&AddressingModes::ZeroPage);

    let status_register = &cpu.processor_status_flags;
    assert!(status_register.check_flag(StatusFlags::Zero));
    assert!(!status_register.check_flag(StatusFlags::Negative));
    assert!(!status_register.check_flag(StatusFlags::Overflow));
    // The test advanced the counter past the opcode and one operand byte.
    assert_eq!(cpu.program_counter.value, 0xFF02);
}
