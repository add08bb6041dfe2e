//! The stack handlers: pushing and popping the accumulator and the status
//! register over the fixed stack page.

use crate::cpu::CPU;
use crate::register::spec_stack_addr;
use vstd::prelude::*;

verus! {

impl CPU {
    /// Push-accumulator: writes the accumulator at the current stack address
    /// and decrements the stack pointer with 8-bit wraparound.
    pub fn push_accumulator(&mut self)
        requires
            old(self).wf(),
        ensures
            final(self).wf(),
            final(self).memory@ == old(self).memory@.update(
                spec_stack_addr(
                    old(self).stack_pointer.spec_page(),
                    old(self).stack_pointer.spec_pointer(),
                ),
                old(self).accumulator.value,
            ),
            final(self).stack_pointer.spec_page() == old(self).stack_pointer.spec_page(),
            final(self).stack_pointer.spec_pointer() == ((old(self).stack_pointer.spec_pointer()
                + 0xFF) % 0x100) as u8,
            final(self).program_counter.value == ((old(self).program_counter.value + 1)
                % 0x10000) as u16,
            final(self).program_counter.default == old(self).program_counter.default,
            final(self).processor_status_flags == old(self).processor_status_flags,
            final(self).accumulator == old(self).accumulator,
            final(self).x_register == old(self).x_register,
            final(self).y_register == old(self).y_register,
    {
        let acc_value = self.accumulator.value;
        self.stack_pointer.push(&mut self.memory, acc_value);
        self.program_counter.increment(0);
    }

    /// Push-status: writes the whole status byte at the current stack address
    /// and decrements the stack pointer with 8-bit wraparound.
    pub fn push_status(&mut self)
        requires
            old(self).wf(),
        ensures
            final(self).wf(),
            final(self).memory@ == old(self).memory@.update(
                spec_stack_addr(
                    old(self).stack_pointer.spec_page(),
                    old(self).stack_pointer.spec_pointer(),
                ),
                old(self).processor_status_flags.spec_flags(),
            ),
            final(self).stack_pointer.spec_page() == old(self).stack_pointer.spec_page(),
            final(self).stack_pointer.spec_pointer() == ((old(self).stack_pointer.spec_pointer()
                + 0xFF) % 0x100) as u8,
            final(self).program_counter.value == ((old(self).program_counter.value + 1)
                % 0x10000) as u16,
            final(self).program_counter.default == old(self).program_counter.default,
            final(self).processor_status_flags == old(self).processor_status_flags,
            final(self).accumulator == old(self).accumulator,
            final(self).x_register == old(self).x_register,
            final(self).y_register == old(self).y_register,
    {
        let flags = self.processor_status_flags.get_flags();
        self.stack_pointer.push(&mut self.memory, flags);
        self.program_counter.increment(0);
    }

    /// Pop-accumulator: increments the stack pointer with 8-bit wraparound
    /// and reads the byte there into the accumulator.
    pub fn pop_accumulator(&mut self)
        requires
            old(self).wf(),
        ensures
            final(self).wf(),
            final(self).stack_pointer.spec_page() == old(self).stack_pointer.spec_page(),
            final(self).stack_pointer.spec_pointer() == ((old(self).stack_pointer.spec_pointer()
                + 1) % 0x100) as u8,
            final(self).accumulator.value == old(self).memory@[spec_stack_addr(
                old(self).stack_pointer.spec_page(),
                final(self).stack_pointer.spec_pointer(),
            )],
            final(self).accumulator.name == old(self).accumulator.name,
            final(self).program_counter.value == ((old(self).program_counter.value + 1)
                % 0x10000) as u16,
            final(self).program_counter.default == old(self).program_counter.default,
            final(self).processor_status_flags == old(self).processor_status_flags,
            final(self).memory == old(self).memory,
            final(self).x_register == old(self).x_register,
            final(self).y_register == old(self).y_register,
    {
        let acc_value = self.stack_pointer.pop(&self.memory);
        self.accumulator.value = acc_value;
        self.program_counter.increment(0);
    }

    /// Pop-status: increments the stack pointer with 8-bit wraparound and
    /// restores the status register from the byte there, forcing the
    /// reserved bit back to 1.
    pub fn pop_status(&mut self)
        requires
            old(self).wf(),
        ensures
            final(self).wf(),
            final(self).stack_pointer.spec_page() == old(self).stack_pointer.spec_page(),
            final(self).stack_pointer.spec_pointer() == ((old(self).stack_pointer.spec_pointer()
                + 1) % 0x100) as u8,
            final(self).processor_status_flags.spec_flags() == old(self).memory@[spec_stack_addr(
                old(self).stack_pointer.spec_page(),
                final(self).stack_pointer.spec_pointer(),
            )] | 0x20,
            final(self).program_counter.value == ((old(self).program_counter.value + 1)
                % 0x10000) as u16,
            final(self).program_counter.default == old(self).program_counter.default,
            final(self).memory == old(self).memory,
            final(self).accumulator == old(self).accumulator,
            final(self).x_register == old(self).x_register,
            final(self).y_register == old(self).y_register,
    {
        let flags = self.stack_pointer.pop(&self.memory);
        self.processor_status_flags.set_mask(flags);
        self.program_counter.increment(0);
    }
}

} // verus!
