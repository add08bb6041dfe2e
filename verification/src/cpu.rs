//! The processor orchestrator: the register bank, the shared memory and the
//! addressing-mode resolver.

use crate::addressing::AddressingModes;
use crate::common::spec_wrap_add16;
use crate::memory::{spec_read_word, VirtualMemory};
use crate::register::{
    DataRegister, ProgramCounter, StackPointerRegister, StatusRegister,
};
use vstd::prelude::*;

verus! {

/// Which 8-bit data register an instruction names.  All three share the same
/// load, store and reset behaviour, so handlers take a register id and look
/// the register up in the bank.
#[derive(Clone, Copy, Debug, PartialEq, Eq, Structural)]
pub enum RegisterId {
    Accumulator,
    IndexX,
    IndexY,
}

/// The processor: the exclusively owned register bank and the memory it
/// reads and writes.
#[derive(Debug)]
pub struct CPU {
    pub accumulator: DataRegister,
    pub x_register: DataRegister,
    pub y_register: DataRegister,
    pub program_counter: ProgramCounter,
    pub stack_pointer: StackPointerRegister,
    pub processor_status_flags: StatusRegister,
    pub memory: VirtualMemory,
}

impl CPU {
    /// The memory spans the whole address space and the status register keeps
    /// its reserved bit.
    pub open spec fn wf(&self) -> bool {
        self.memory.wf() && self.processor_status_flags.wf()
    }

    /// The value of the named data register.
    pub open spec fn spec_register(self, id: RegisterId) -> u8 {
        match id {
            RegisterId::Accumulator => self.accumulator.value,
            RegisterId::IndexX => self.x_register.value,
            RegisterId::IndexY => self.y_register.value,
        }
    }

    /// The effective address the given mode resolves to in the current state,
    /// or `None` for the register-only modes.  Operand bytes begin one byte
    /// past the program counter.
    pub open spec fn spec_effective_address(self, mode: AddressingModes) -> Option<u16> {
        let m = self.memory@;
        let pc = self.program_counter.value;
        let x = self.x_register.value;
        let y = self.y_register.value;
        match mode {
            AddressingModes::Immediate | AddressingModes::Relative => Some(spec_wrap_add16(pc, 1)),
            AddressingModes::Absolute => Some(spec_read_word(m, spec_wrap_add16(pc, 1))),
            AddressingModes::AbsoluteXIndex => Some(
                spec_wrap_add16(spec_read_word(m, spec_wrap_add16(pc, 1)), x as u16),
            ),
            AddressingModes::AbsoluteYIndex => Some(
                spec_wrap_add16(spec_read_word(m, spec_wrap_add16(pc, 1)), y as u16),
            ),
            AddressingModes::Indirect => Some(
                spec_read_word(m, spec_read_word(m, spec_wrap_add16(pc, 1))),
            ),
            AddressingModes::ZeroPage => Some(m[spec_wrap_add16(pc, 1) as int] as u16),
            AddressingModes::ZeroPageXIndex => Some(
                ((m[spec_wrap_add16(pc, 1) as int] + x) % 0x100) as u16,
            ),
            AddressingModes::ZeroPageYIndex => Some(
                ((m[spec_wrap_add16(pc, 1) as int] + y) % 0x100) as u16,
            ),
            AddressingModes::PreIndexIndirect => Some(
                spec_read_word(m, ((m[spec_wrap_add16(pc, 1) as int] + x) % 0x100) as u16),
            ),
            AddressingModes::PostIndexIndirect => Some(
                (m[m[spec_wrap_add16(pc, 1) as int] as int] + y) as u16,
            ),
            AddressingModes::Accumulator | AddressingModes::Implied => None,
        }
    }

    /// The address the given mode resolves to, where one exists.
    pub open spec fn spec_operand_address(self, mode: AddressingModes) -> u16 {
        self.spec_effective_address(mode)->Some_0
    }

    /// The memory byte the given mode designates, where it designates one.
    pub open spec fn spec_operand(self, mode: AddressingModes) -> u8 {
        self.memory@[self.spec_operand_address(mode) as int]
    }

    /// The program counter after a handler advances it past the opcode byte
    /// and the mode's operand bytes.
    pub open spec fn spec_advanced_pc(self, mode: AddressingModes) -> u16 {
        ((self.program_counter.value + mode.spec_parameter_bytes() + 1) % 0x10000) as u16
    }

    /// A processor over the given memory, with zeroed registers, the stack
    /// pointer at the top of page 0x01 and only the reserved status bit set.
    pub fn new(p_memory: VirtualMemory) -> (r: Self)
        requires
            p_memory.wf(),
        ensures
            r.wf(),
            r.accumulator.value == 0,
            r.accumulator.name@ == "A"@,
            r.x_register.value == 0,
            r.x_register.name@ == "X"@,
            r.y_register.value == 0,
            r.y_register.name@ == "Y"@,
            r.program_counter.value == 0,
            r.program_counter.default == 0,
            r.stack_pointer.spec_page() == 0x01,
            r.stack_pointer.spec_pointer() == 0xFF,
            r.processor_status_flags.spec_flags() == 0x20,
            r.memory == p_memory,
    {
        CPU {
            accumulator: DataRegister::new("A"),
            x_register: DataRegister::new("X"),
            y_register: DataRegister::new("Y"),
            program_counter: ProgramCounter::from(0),
            stack_pointer: StackPointerRegister::new(0x01, 0xFF),
            processor_status_flags: StatusRegister::new(),
            memory: p_memory,
        }
    }

    /// Boot/reset: returns the program counter to its default, then loads the
    /// little-endian reset-vector word at 0xFFFC into it, establishing the
    /// first instruction address.
    pub fn boot_cycle(&mut self)
        requires
            old(self).wf(),
        ensures
            final(self).wf(),
            final(self).program_counter.value == spec_read_word(old(self).memory@, 0xFFFC),
            final(self).program_counter.default == old(self).program_counter.default,
            final(self).accumulator == old(self).accumulator,
            final(self).x_register == old(self).x_register,
            final(self).y_register == old(self).y_register,
            final(self).stack_pointer == old(self).stack_pointer,
            final(self).processor_status_flags == old(self).processor_status_flags,
            final(self).memory == old(self).memory,
    {
        self.program_counter.reset_register();
        let program_start_location: u16 = self.memory.read_word(0xFFFC);
        self.program_counter.value = program_start_location;
    }

    /// Resolves the given addressing mode against the current registers and
    /// memory.  Returns `None` exactly for the register-only modes; the
    /// counter itself is never advanced here.
    pub fn fetch_address(&self, addressing_mode: &AddressingModes) -> (r: Option<u16>)
        requires
            self.wf(),
        ensures
            r == self.spec_effective_address(*addressing_mode),
            r is Some <==> addressing_mode.spec_resolves_to_address(),
            (*addressing_mode == AddressingModes::ZeroPage || *addressing_mode
                == AddressingModes::ZeroPageXIndex || *addressing_mode
                == AddressingModes::ZeroPageYIndex) ==> r->Some_0 < 0x100,
    {
        let pc_operand = self.program_counter.value.wrapping_add(1);
        match addressing_mode {
            AddressingModes::Immediate | AddressingModes::Relative => Some(pc_operand),
            AddressingModes::Absolute => Some(self.memory.read_word(pc_operand)),
            AddressingModes::AbsoluteXIndex => {
                let base = self.memory.read_word(pc_operand);
                Some(base.wrapping_add(self.x_register.value as u16))
            },
            AddressingModes::AbsoluteYIndex => {
                let base = self.memory.read_word(pc_operand);
                Some(base.wrapping_add(self.y_register.value as u16))
            },
            AddressingModes::Indirect => {
                let lookup_addr = self.memory.read_word(pc_operand);
                Some(self.memory.read_word(lookup_addr))
            },
            AddressingModes::ZeroPage => Some(self.memory.read(pc_operand) as u16),
            AddressingModes::ZeroPageXIndex => {
                let operand = self.memory.read(pc_operand);
                Some(operand.wrapping_add(self.x_register.value) as u16)
            },
            AddressingModes::ZeroPageYIndex => {
                let operand = self.memory.read(pc_operand);
                Some(operand.wrapping_add(self.y_register.value) as u16)
            },
            AddressingModes::PreIndexIndirect => {
                let operand = self.memory.read(pc_operand);
                let lookup_addr = operand.wrapping_add(self.x_register.value) as u16;
                Some(self.memory.read_word(lookup_addr))
            },
            AddressingModes::PostIndexIndirect => {
                let operand = self.memory.read(pc_operand);
                let stored = self.memory.read(operand as u16);
                Some(stored as u16 + self.y_register.value as u16)
            },
            AddressingModes::Accumulator | AddressingModes::Implied => None,
        }
    }

    /// The value of the named data register.
    pub fn read_register(&self, id: RegisterId) -> (r: u8)
        ensures
            r == self.spec_register(id),
    {
        match id {
            RegisterId::Accumulator => self.accumulator.value,
            RegisterId::IndexX => self.x_register.value,
            RegisterId::IndexY => self.y_register.value,
        }
    }

    /// Replaces the value of the named data register, leaving everything else
    /// unchanged.
    pub fn write_register(&mut self, id: RegisterId, data: u8)
        ensures
            final(self).spec_register(id) == data,
            final(self).accumulator.value == (if id == RegisterId::Accumulator {
                data
            } else {
                old(self).accumulator.value
            }),
            final(self).x_register.value == (if id == RegisterId::IndexX {
                data
            } else {
                old(self).x_register.value
            }),
            final(self).y_register.value == (if id == RegisterId::IndexY {
                data
            } else {
                old(self).y_register.value
            }),
            final(self).accumulator.name == old(self).accumulator.name,
            final(self).x_register.name == old(self).x_register.name,
            final(self).y_register.name == old(self).y_register.name,
            final(self).program_counter == old(self).program_counter,
            final(self).stack_pointer == old(self).stack_pointer,
            final(self).processor_status_flags == old(self).processor_status_flags,
            final(self).memory == old(self).memory,
    {
        match id {
            RegisterId::Accumulator => {
                self.accumulator.value = data;
            },
            RegisterId::IndexX => {
                self.x_register.value = data;
            },
            RegisterId::IndexY => {
                self.y_register.value = data;
            },
        }
    }
}

} // verus!
