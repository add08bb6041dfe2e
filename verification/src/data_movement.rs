//! The data-movement handlers: loads, stores and register-to-register
//! transfers.

use crate::addressing::AddressingModes;
use crate::cpu::{RegisterId, CPU};
use crate::register::spec_is_negative;
use vstd::prelude::*;

verus! {

impl CPU {
    /// Load: reads the byte the mode resolves to into the destination
    /// register and refreshes Zero and Negative from the loaded value.
    pub fn load_instruction(&mut self, addressing_mode: AddressingModes, destination: RegisterId)
        requires
            old(self).wf(),
            addressing_mode.spec_resolves_to_address(),
        ensures
            final(self).wf(),
            ({
                let data = old(self).spec_operand(addressing_mode);
                &&& final(self).spec_register(destination) == data
                &&& final(self).processor_status_flags.spec_negative() == spec_is_negative(data)
                &&& final(self).processor_status_flags.spec_zero() == (data == 0)
            }),
            forall|other: RegisterId|
                other != destination ==> final(self).spec_register(other) == old(
                    self,
                ).spec_register(other),
            final(self).processor_status_flags.spec_carry() == old(
                self,
            ).processor_status_flags.spec_carry(),
            final(self).processor_status_flags.spec_overflow() == old(
                self,
            ).processor_status_flags.spec_overflow(),
            final(self).processor_status_flags.spec_decimal() == old(
                self,
            ).processor_status_flags.spec_decimal(),
            final(self).processor_status_flags.spec_interrupt_disable() == old(
                self,
            ).processor_status_flags.spec_interrupt_disable(),
            final(self).processor_status_flags.spec_brk() == old(
                self,
            ).processor_status_flags.spec_brk(),
            final(self).program_counter.value == old(self).spec_advanced_pc(addressing_mode),
            final(self).program_counter.default == old(self).program_counter.default,
            final(self).memory == old(self).memory,
            final(self).accumulator.name == old(self).accumulator.name,
            final(self).x_register.name == old(self).x_register.name,
            final(self).y_register.name == old(self).y_register.name,
            final(self).stack_pointer == old(self).stack_pointer,
    {
        let address: u16 = self.fetch_address(&addressing_mode).unwrap();
        let data = self.memory.read(address);
        self.write_register(destination, data);
        self.processor_status_flags.update_nz_flags(data);
        self.program_counter.increment(addressing_mode.parameter_bytes());
    }

    /// Store: writes the source register's value to the address the mode
    /// resolves to.  No flag changes.
    pub fn store_instruction(&mut self, addressing_mode: AddressingModes, source: RegisterId)
        requires
            old(self).wf(),
            addressing_mode.spec_resolves_to_address(),
        ensures
            final(self).wf(),
            final(self).memory@ == old(self).memory@.update(
                old(self).spec_operand_address(addressing_mode) as int,
                old(self).spec_register(source),
            ),
            final(self).processor_status_flags == old(self).processor_status_flags,
            final(self).program_counter.value == old(self).spec_advanced_pc(addressing_mode),
            final(self).program_counter.default == old(self).program_counter.default,
            final(self).accumulator == old(self).accumulator,
            final(self).x_register == old(self).x_register,
            final(self).y_register == old(self).y_register,
            final(self).stack_pointer == old(self).stack_pointer,
    {
        let address = self.fetch_address(&addressing_mode).unwrap();
        let data = self.read_register(source);
        self.memory.write(address, data);
        self.program_counter.increment(addressing_mode.parameter_bytes());
    }

    /// Transfer: copies the source register into the destination register and
    /// refreshes Zero and Negative from the copied value.  The only possible
    /// addressing mode is Implied, so the counter advances by one byte.
    pub fn transfer_register(&mut self, source: RegisterId, destination: RegisterId)
        requires
            old(self).wf(),
        ensures
            final(self).wf(),
            ({
                let data = old(self).spec_register(source);
                &&& final(self).spec_register(destination) == data
                &&& final(self).processor_status_flags.spec_negative() == spec_is_negative(data)
                &&& final(self).processor_status_flags.spec_zero() == (data == 0)
            }),
            forall|other: RegisterId|
                other != destination ==> final(self).spec_register(other) == old(
                    self,
                ).spec_register(other),
            final(self).processor_status_flags.spec_carry() == old(
                self,
            ).processor_status_flags.spec_carry(),
            final(self).processor_status_flags.spec_overflow() == old(
                self,
            ).processor_status_flags.spec_overflow(),
            final(self).processor_status_flags.spec_decimal() == old(
                self,
            ).processor_status_flags.spec_decimal(),
            final(self).processor_status_flags.spec_interrupt_disable() == old(
                self,
            ).processor_status_flags.spec_interrupt_disable(),
            final(self).processor_status_flags.spec_brk() == old(
                self,
            ).processor_status_flags.spec_brk(),
            final(self).program_counter.value == ((old(self).program_counter.value + 1)
                % 0x10000) as u16,
            final(self).program_counter.default == old(self).program_counter.default,
            final(self).memory == old(self).memory,
            final(self).accumulator.name == old(self).accumulator.name,
            final(self).x_register.name == old(self).x_register.name,
            final(self).y_register.name == old(self).y_register.name,
            final(self).stack_pointer == old(self).stack_pointer,
    {
        let data = self.read_register(source);
        self.write_register(destination, data);
        self.processor_status_flags.update_nz_flags(data);
        self.program_counter.increment(0);
    }
}

} // verus!
