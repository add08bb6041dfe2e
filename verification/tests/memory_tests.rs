use w65xx_emulator::common::reverse_endianness;
use w65xx_emulator::memory::VirtualMemory;

// memory tests
#[test]
fn memory_index_test() {
    let mut virtual_memory = VirtualMemory::new();
    // Test indexing
    assert_eq!(virtual_memory.read(0), 0);

    // Test Mutation and indexing
    virtual_memory.write(0, 0x10);
    assert_eq!(virtual_memory.read(0), 0x10);
}

#[test]
fn memory_rom_load_test() {
    // Set up
    let mut virtual_memory = VirtualMemory::new();
    let test_rom = (0x80..0xFF).collect::<Vec<u8>>();

    let expected_output = vec![vec![0; 0xFFFF - test_rom.len()], test_rom.clone()].concat();

    // Execute
    let res = virtual_memory.load_rom(test_rom.clone(), 0xFFFF - (test_rom.len() as u16));
    if let Err(e) = res {
        panic!("{}", e.get_message());
    }

    // Validate
    assert_eq!(0xFFFF, expected_output.len()); // santity check
    for i in 0..0xFFFF {
        assert_eq!(virtual_memory.read(i), expected_output[i as usize]);
    }
}

#[test]
fn memory_rom_too_large_test() {
    let mut virtual_memory = VirtualMemory::new();
    let test_rom = vec![0xEA; 0x10];

    let res = virtual_memory.load_rom(test_rom, 0xFFF8);

    assert!(res.is_err());
    if let Err(e) = res {
        assert_eq!(e.get_message(), "Not enough space to fit ROM at this memory address");
    }
    // Memory is untouched on failure.
    assert_eq!(virtual_memory.read(0xFFF8), 0);
}

#[test]
fn memory_read_word_test() {
    let mut virtual_memory = VirtualMemory::new();
    virtual_memory.write(0x1000, 0x34);
    virtual_memory.write(0x1001, 0x12);

    assert_eq!(virtual_memory.read_word(0x1000), 0x1234);
}

#[test]
fn memory_read_word_wrap_test() {
    let mut virtual_memory = VirtualMemory::new();
    virtual_memory.write(0xFFFF, 0xCD);
    virtual_memory.write(0x0000, 0xAB);

    // The high byte is read from address 0x0000 after the address wraps.
    assert_eq!(virtual_memory.read_word(0xFFFF), 0xABCD);
}

#[test]
fn memory_reinitialize_test() {
    let mut virtual_memory = VirtualMemory::new();
    virtual_memory.write(0x0042, 0x99);

    virtual_memory.reinitialize();

    assert_eq!(virtual_memory.read(0x0042), 0);
}

#[test]
fn reverse_endianness_test() {
    assert_eq!(reverse_endianness(0x1234), 0x3412);
    assert_eq!(reverse_endianness(0x00FF), 0xFF00);
}
