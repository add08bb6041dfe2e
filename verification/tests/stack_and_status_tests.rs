use w65xx_emulator::cpu::CPU;
use w65xx_emulator::initialize;
use w65xx_emulator::io::PinIO;
use w65xx_emulator::memory::VirtualMemory;
use w65xx_emulator::register::StatusFlags;

fn test_setup() -> CPU {
    let mut memory = VirtualMemory::new();
    memory.load_rom(vec![0x00, 0xFF], 0xFFFC).unwrap();
    let mut cpu = CPU::new(memory);
    cpu.boot_cycle(); // PC starts at 0xFF00
    return cpu;
}

#[test]
fn push_pop_accumulator_test() {
    let mut cpu = test_setup();
    cpu.accumulator.value = 0x42;

    cpu.push_accumulator();
    assert_eq!(cpu.memory.read(0x01FF), 0x42);
    assert_eq!(cpu.stack_pointer.get_pointer(), 0xFE);

    cpu.accumulator.value = 0;
    cpu.pop_accumulator();
    assert_eq!(cpu.accumulator.value, 0x42);
    assert_eq!(cpu.stack_pointer.get_pointer(), 0xFF);
}

#[test]
fn push_pop_status_test() {
    let mut cpu = test_setup();
    cpu.processor_status_flags.set_flag(StatusFlags::Carry);
    cpu.processor_status_flags.set_flag(StatusFlags::Negative);
    let pushed = cpu.processor_status_flags.get_flags();

    cpu.push_status();
    assert_eq!(cpu.memory.read(0x01FF), pushed);

    cpu.processor_status_flags.clear_flag(StatusFlags::Carry);
    cpu.processor_status_flags.clear_flag(StatusFlags::Negative);
    cpu.pop_status();
    assert_eq!(cpu.processor_status_flags.get_flags(), pushed);
}

#[test]
fn pop_status_forces_reserved_bit_test() {
    let mut cpu = test_setup();
    // Place a status byte with the reserved bit clear where the next pop
    // reads: the pointer sits at 0xFF, so the pop reads 0x0100.
    cpu.memory.write(0x0100, 0b00000001);

    cpu.pop_status();

    // The restored byte reads with the reserved bit forced back to 1.
    assert_eq!(cpu.processor_status_flags.get_flags(), 0b00100001);
    assert_eq!(cpu.stack_pointer.get_pointer(), 0x00);
}

#[test]
fn set_clear_flag_instruction_test() {
    let mut cpu = test_setup();

    cpu.set_carry_flag();
    cpu.set_decimal_flag();
    cpu.set_interrupt_disable_flag();
    assert!(cpu.processor_status_flags.check_flag(StatusFlags::Carry));
    assert!(cpu.processor_status_flags.check_flag(StatusFlags::Decimal));
    assert!(cpu
        .processor_status_flags
        .check_flag(StatusFlags::InterruptDisable));

    cpu.clear_carry_flag();
    cpu.clear_decimal_flag();
    cpu.clear_interrupt_disable_flag();
    assert!(!cpu.processor_status_flags.check_flag(StatusFlags::Carry));
    assert!(!cpu.processor_status_flags.check_flag(StatusFlags::Decimal));
    assert!(!cpu
        .processor_status_flags
        .check_flag(StatusFlags::InterruptDisable));
    // Each of the six implied-mode instructions advanced the counter by one.
    assert_eq!(cpu.program_counter.value, 0xFF06);
}

#[test]
fn clear_overflow_flag_test() {
    let mut cpu = test_setup();
    cpu.processor_status_flags.set_flag(StatusFlags::Overflow);

    cpu.clear_overflow_flag();

    assert!(!cpu.processor_status_flags.check_flag(StatusFlags::Overflow));
}

#[test]
fn flag_instructions_keep_other_flags_test() {
    let mut cpu = test_setup();
    cpu.processor_status_flags.set_flag(StatusFlags::Zero);
    cpu.processor_status_flags.set_flag(StatusFlags::Negative);

    cpu.set_carry_flag();
    cpu.clear_decimal_flag();

    assert!(cpu.processor_status_flags.check_flag(StatusFlags::Zero));
    assert!(cpu.processor_status_flags.check_flag(StatusFlags::Negative));
}

#[test]
fn pin_io_test() {
    let pins = PinIO::new();
    assert_eq!(pins.data_buffer, 0);
    assert_eq!(pins.address_buffer, 0);

    let default_pins = PinIO::default();
    assert_eq!(default_pins.data_buffer, 0);
    assert_eq!(default_pins.address_buffer, 0);
}

#[test]
fn initialize_test() {
    initialize();
}
