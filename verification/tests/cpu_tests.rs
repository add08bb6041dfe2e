use w65xx_emulator::addressing::AddressingModes;
use w65xx_emulator::cpu::CPU;
use w65xx_emulator::memory::VirtualMemory;

#[test]
fn verify_boot_cycle() {
    // Set up
    let mut memory = VirtualMemory::new();
    let rom: Vec<u8> = vec![0x00, 0x80];

    // Execute
    memory.load_rom(rom, 0xFFFC).unwrap();
    let mut cpu = CPU::new(memory);
    cpu.boot_cycle();

    // Verify
    assert_eq!(cpu.memory.read_word(0xFFFC), 0x8000);
    assert_eq!(cpu.program_counter.value, 0x8000);
}

fn address_mode_setup() -> CPU {
    let mut memory = VirtualMemory::new();
    // Make a test rom that is padded from 0 to 0xFEFF with 0xEA and
    // Then 0xFEFF to 0xFFFB is just counted up from 0, finally 0xFFFC is 0x00 and 0xFFFD is 0xFF
    let zp_padding: Vec<u8> = (0x00..=0xFF).collect();
    let mut stack_page_padding: Vec<u8> = (0x00..=0xFF).collect();
    stack_page_padding.push(0x00);
    let padding: Vec<u8> = vec![0xEA; 0xFCFF];
    let test_rom: Vec<u8> = (0..0xFC).collect();
    let reset_vector: Vec<u8> = vec![0x00, 0xFF];
    let rom = vec![
        zp_padding,
        stack_page_padding,
        padding,
        test_rom,
        reset_vector,
        vec![0x00],
    ]
    .concat();

    // Sanity checks
    assert_eq!(rom.len(), 0xFFFF);
    assert_eq!(rom[0xFF00], 0x00);
    assert_eq!(rom[0xFFFC], 0x00);
    assert_eq!(rom[0xFFFD], 0xFF);
    memory.load_rom(rom, 0x0).unwrap();
    let mut cpu = CPU::new(memory);
    cpu.boot_cycle();
    assert_eq!(cpu.program_counter.value, 0xFF00);
    return cpu;
}

#[test]
fn addr_setup_test() {
    address_mode_setup();
}

#[test]
fn addr_immiate_test() {
    // Setup
    let cpu = address_mode_setup();

    // Execute
    let address = cpu.fetch_address(&AddressingModes::Immediate).unwrap();
    let data = cpu.memory.read(address);

    // Verify
    assert_eq!(data, 0x01);
    assert_eq!(address, 0xFF01);
    assert_eq!(cpu.program_counter.value, 0xFF00);
}

#[test]
fn addr_absolute_test() {
    // Setup
    let cpu = address_mode_setup();

    // Execute
    let address = cpu.fetch_address(&AddressingModes::Absolute).unwrap();
    let data = cpu.memory.read(address);

    // Verify
    assert_eq!(cpu.program_counter.value, 0xFF00);
    assert_eq!(address, 0x0201);
    assert_eq!(data, 0xea);
}

#[test]
fn addr_absolute_x_test() {
    // Setup
    let mut cpu = address_mode_setup();

    // Execute
    cpu.x_register.value = 4;
    let address = cpu.fetch_address(&AddressingModes::AbsoluteXIndex).unwrap();
    let data = cpu.memory.read(address);

    // Verify
    assert_eq!(cpu.program_counter.value, 0xFF00);
    assert_eq!(address, 0x0205);
    assert_eq!(data, 0xea)
}

#[test]
fn addr_absolute_y_test() {
    // Setup
    let mut cpu = address_mode_setup();

    // Execute
    cpu.y_register.value = 7;
    let address = cpu.fetch_address(&AddressingModes::AbsoluteYIndex).unwrap();
    let data = cpu.memory.read(address);

    // Verify
    assert_eq!(cpu.program_counter.value, 0xFF00);
    assert_eq!(address, 0x0208);
    assert_eq!(data, 0xea)
}

#[test]
fn addr_indirect_test() {
    // Setup
    let cpu = address_mode_setup();

    // Execute
    let address = cpu.fetch_address(&AddressingModes::Indirect).unwrap();
    let data = cpu.memory.read(address);

    // Verify
    assert_eq!(cpu.program_counter.value, 0xFF00);
    assert_eq!(address, 0xEAEA);
    assert_eq!(data, 0xEA);
}

#[test]
fn addr_indirect_x_test() {
    // Setup
    let mut cpu = address_mode_setup();

    // Execute
    cpu.x_register.value = 5;
    let address = cpu
        .fetch_address(&AddressingModes::PreIndexIndirect)
        .unwrap();
    let data = cpu.memory.read(address);

    // Verify
    assert_eq!(cpu.program_counter.value, 0xFF00);
    assert_eq!(address, 0x0706); // operand at pc + 1 is 0x1, x = 5. lookup addr = 0x0006, read word: 0x0706
    assert_eq!(data, 0xea); // almost all padding is 0xEA (nop instruction)
}

#[test]
fn addr_indirect_y_test() {
    // Setup
    let mut cpu = address_mode_setup();

    // Execute
    cpu.y_register.value = 10;
    let address = cpu
        .fetch_address(&AddressingModes::PostIndexIndirect)
        .unwrap();
    let data = cpu.memory.read(address);

    // Verify
    assert_eq!(cpu.program_counter.value, 0xFF00);
    assert_eq!(address, 0x000B); // operand at pc + 1 is 0x1; the byte stored at 0x0001 is 0x1; plus 10 (y) gives 0xB
    assert_eq!(data, 0x0B);
}

#[test]
fn addr_zeropage_test() {
    // Setup
    let cpu = address_mode_setup();

    // Execute
    let address = cpu.fetch_address(&AddressingModes::ZeroPage).unwrap();
    let data = cpu.memory.read(address);

    // Verify
    assert_eq!(cpu.program_counter.value, 0xFF00);
    assert_eq!(address, 0x0001);
    assert_eq!(data, 0x1);
}

#[test]
fn addr_zeropage_x_test() {
    // Setup
    let mut cpu = address_mode_setup();

    // Execute
    cpu.x_register.value = 7;
    let address = cpu.fetch_address(&AddressingModes::ZeroPageXIndex).unwrap();
    let data = cpu.memory.read(address);

    // Verify
    assert_eq!(cpu.program_counter.value, 0xFF00);
    assert_eq!(address, 0x0008);
    assert_eq!(data, 0x8);
}

#[test]
fn addr_zeropage_y_test() {
    // Setup
    let mut cpu = address_mode_setup();

    // Execute
    cpu.y_register.value = 10;
    let address = cpu.fetch_address(&AddressingModes::ZeroPageYIndex).unwrap();
    let data = cpu.memory.read(address);

    // Verify
    assert_eq!(cpu.program_counter.value, 0xFF00);
    assert_eq!(address, 0x000B);
    assert_eq!(data, 0xB);
}

#[test]
fn addr_zeropage_x_wrap_test() {
    // Setup
    let mut memory = VirtualMemory::new();
    memory.load_rom(vec![0x00, 0xFF], 0xFFFC).unwrap();
    let mut cpu = CPU::new(memory);
    cpu.boot_cycle();
    cpu.memory.write(0xFF01, 0xFF);
    cpu.x_register.value = 2;

    // Execute
    let address = cpu.fetch_address(&AddressingModes::ZeroPageXIndex).unwrap();

    // Verify: the index wraps within page zero, never into the high byte.
    assert_eq!(address, 0x0001);
}

#[test]
fn addr_register_modes_test() {
    let cpu = address_mode_setup();

    assert!(cpu.fetch_address(&AddressingModes::Accumulator).is_none());
    assert!(cpu.fetch_address(&AddressingModes::Implied).is_none());
}

#[test]
fn parameter_bytes_test() {
    assert_eq!(AddressingModes::Accumulator.parameter_bytes(), 0);
    assert_eq!(AddressingModes::Implied.parameter_bytes(), 0);
    assert_eq!(AddressingModes::Immediate.parameter_bytes(), 1);
    assert_eq!(AddressingModes::ZeroPage.parameter_bytes(), 1);
    assert_eq!(AddressingModes::Relative.parameter_bytes(), 1);
    assert_eq!(AddressingModes::Absolute.parameter_bytes(), 2);
    assert_eq!(AddressingModes::Indirect.parameter_bytes(), 2);
}

#[test]
fn addressing_mode_name_test() {
    assert_eq!(AddressingModes::Absolute.name(), "Absolute");
    assert_eq!(AddressingModes::PostIndexIndirect.name(), "PostIndexIndirect");
}
