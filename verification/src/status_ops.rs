//! The flag-manipulation handlers: instructions that set or clear one status
//! flag and advance the counter past their single opcode byte.

use crate::cpu::CPU;
use crate::register::StatusFlags;
use vstd::prelude::*;

verus! {

impl CPU {
    /// Clear-carry: clears the Carry flag.
    pub fn clear_carry_flag(&mut self)
        requires
            old(self).wf(),
        ensures
            final(self).wf(),
            !final(self).processor_status_flags.spec_carry(),
            final(self).processor_status_flags.spec_zero() == old(
                self,
            ).processor_status_flags.spec_zero(),
            final(self).processor_status_flags.spec_interrupt_disable() == old(
                self,
            ).processor_status_flags.spec_interrupt_disable(),
            final(self).processor_status_flags.spec_decimal() == old(
                self,
            ).processor_status_flags.spec_decimal(),
            final(self).processor_status_flags.spec_brk() == old(
                self,
            ).processor_status_flags.spec_brk(),
            final(self).processor_status_flags.spec_overflow() == old(
                self,
            ).processor_status_flags.spec_overflow(),
            final(self).processor_status_flags.spec_negative() == old(
                self,
            ).processor_status_flags.spec_negative(),
            final(self).program_counter.value == ((old(self).program_counter.value + 1)
                % 0x10000) as u16,
            final(self).program_counter.default == old(self).program_counter.default,
            final(self).memory == old(self).memory,
            final(self).accumulator == old(self).accumulator,
            final(self).x_register == old(self).x_register,
            final(self).y_register == old(self).y_register,
            final(self).stack_pointer == old(self).stack_pointer,
    {
        self.processor_status_flags.clear_flag(StatusFlags::Carry);
        self.program_counter.increment(0);
    }

    /// Clear-decimal: clears the Decimal flag.
    pub fn clear_decimal_flag(&mut self)
        requires
            old(self).wf(),
        ensures
            final(self).wf(),
            !final(self).processor_status_flags.spec_decimal(),
            final(self).processor_status_flags.spec_carry() == old(
                self,
            ).processor_status_flags.spec_carry(),
            final(self).processor_status_flags.spec_zero() == old(
                self,
            ).processor_status_flags.spec_zero(),
            final(self).processor_status_flags.spec_interrupt_disable() == old(
                self,
            ).processor_status_flags.spec_interrupt_disable(),
            final(self).processor_status_flags.spec_brk() == old(
                self,
            ).processor_status_flags.spec_brk(),
            final(self).processor_status_flags.spec_overflow() == old(
                self,
            ).processor_status_flags.spec_overflow(),
            final(self).processor_status_flags.spec_negative() == old(
                self,
            ).processor_status_flags.spec_negative(),
            final(self).program_counter.value == ((old(self).program_counter.value + 1)
                % 0x10000) as u16,
            final(self).program_counter.default == old(self).program_counter.default,
            final(self).memory == old(self).memory,
            final(self).accumulator == old(self).accumulator,
            final(self).x_register == old(self).x_register,
            final(self).y_register == old(self).y_register,
            final(self).stack_pointer == old(self).stack_pointer,
    {
        self.processor_status_flags.clear_flag(StatusFlags::Decimal);
        self.program_counter.increment(0);
    }

    /// Clear-interrupt-disable: clears the InterruptDisable flag.
    pub fn clear_interrupt_disable_flag(&mut self)
        requires
            old(self).wf(),
        ensures
            final(self).wf(),
            !final(self).processor_status_flags.spec_interrupt_disable(),
            final(self).processor_status_flags.spec_carry() == old(
                self,
            ).processor_status_flags.spec_carry(),
            final(self).processor_status_flags.spec_zero() == old(
                self,
            ).processor_status_flags.spec_zero(),
            final(self).processor_status_flags.spec_decimal() == old(
                self,
            ).processor_status_flags.spec_decimal(),
            final(self).processor_status_flags.spec_brk() == old(
                self,
            ).processor_status_flags.spec_brk(),
            final(self).processor_status_flags.spec_overflow() == old(
                self,
            ).processor_status_flags.spec_overflow(),
            final(self).processor_status_flags.spec_negative() == old(
                self,
            ).processor_status_flags.spec_negative(),
            final(self).program_counter.value == ((old(self).program_counter.value + 1)
                % 0x10000) as u16,
            final(self).program_counter.default == old(self).program_counter.default,
            final(self).memory == old(self).memory,
            final(self).accumulator == old(self).accumulator,
            final(self).x_register == old(self).x_register,
            final(self).y_register == old(self).y_register,
            final(self).stack_pointer == old(self).stack_pointer,
    {
        self.processor_status_flags.clear_flag(StatusFlags::InterruptDisable);
        self.program_counter.increment(0);
    }

    /// Clear-overflow: clears the Overflow flag.
    pub fn clear_overflow_flag(&mut self)
        requires
            old(self).wf(),
        ensures
            final(self).wf(),
            !final(self).processor_status_flags.spec_overflow(),
            final(self).processor_status_flags.spec_carry() == old(
                self,
            ).processor_status_flags.spec_carry(),
            final(self).processor_status_flags.spec_zero() == old(
                self,
            ).processor_status_flags.spec_zero(),
            final(self).processor_status_flags.spec_interrupt_disable() == old(
                self,
            ).processor_status_flags.spec_interrupt_disable(),
            final(self).processor_status_flags.spec_decimal() == old(
                self,
            ).processor_status_flags.spec_decimal(),
            final(self).processor_status_flags.spec_brk() == old(
                self,
            ).processor_status_flags.spec_brk(),
            final(self).processor_status_flags.spec_negative() == old(
                self,
            ).processor_status_flags.spec_negative(),
            final(self).program_counter.value == ((old(self).program_counter.value + 1)
                % 0x10000) as u16,
            final(self).program_counter.default == old(self).program_counter.default,
            final(self).memory == old(self).memory,
            final(self).accumulator == old(self).accumulator,
            final(self).x_register == old(self).x_register,
            final(self).y_register == old(self).y_register,
            final(self).stack_pointer == old(self).stack_pointer,
    {
        self.processor_status_flags.clear_flag(StatusFlags::Overflow);
        self.program_counter.increment(0);
    }

    /// Set-carry: sets the Carry flag.
    pub fn set_carry_flag(&mut self)
        requires
            old(self).wf(),
        ensures
            final(self).wf(),
            final(self).processor_status_flags.spec_carry(),
            final(self).processor_status_flags.spec_zero() == old(
                self,
            ).processor_status_flags.spec_zero(),
            final(self).processor_status_flags.spec_interrupt_disable() == old(
                self,
            ).processor_status_flags.spec_interrupt_disable(),
            final(self).processor_status_flags.spec_decimal() == old(
                self,
            ).processor_status_flags.spec_decimal(),
            final(self).processor_status_flags.spec_brk() == old(
                self,
            ).processor_status_flags.spec_brk(),
            final(self).processor_status_flags.spec_overflow() == old(
                self,
            ).processor_status_flags.spec_overflow(),
            final(self).processor_status_flags.spec_negative() == old(
                self,
            ).processor_status_flags.spec_negative(),
            final(self).program_counter.value == ((old(self).program_counter.value + 1)
                % 0x10000) as u16,
            final(self).program_counter.default == old(self).program_counter.default,
            final(self).memory == old(self).memory,
            final(self).accumulator == old(self).accumulator,
            final(self).x_register == old(self).x_register,
            final(self).y_register == old(self).y_register,
            final(self).stack_pointer == old(self).stack_pointer,
    {
        self.processor_status_flags.set_flag(StatusFlags::Carry);
        self.program_counter.increment(0);
    }

    /// Set-decimal: sets the Decimal flag.
    pub fn set_decimal_flag(&mut self)
        requires
            old(self).wf(),
        ensures
            final(self).wf(),
            final(self).processor_status_flags.spec_decimal(),
            final(self).processor_status_flags.spec_carry() == old(
                self,
            ).processor_status_flags.spec_carry(),
            final(self).processor_status_flags.spec_zero() == old(
                self,
            ).processor_status_flags.spec_zero(),
            final(self).processor_status_flags.spec_interrupt_disable() == old(
                self,
            ).processor_status_flags.spec_interrupt_disable(),
            final(self).processor_status_flags.spec_brk() == old(
                self,
            ).processor_status_flags.spec_brk(),
            final(self).processor_status_flags.spec_overflow() == old(
                self,
            ).processor_status_flags.spec_overflow(),
            final(self).processor_status_flags.spec_negative() == old(
                self,
            ).processor_status_flags.spec_negative(),
            final(self).program_counter.value == ((old(self).program_counter.value + 1)
                % 0x10000) as u16,
            final(self).program_counter.default == old(self).program_counter.default,
            final(self).memory == old(self).memory,
            final(self).accumulator == old(self).accumulator,
            final(self).x_register == old(self).x_register,
            final(self).y_register == old(self).y_register,
            final(self).stack_pointer == old(self).stack_pointer,
    {
        self.processor_status_flags.set_flag(StatusFlags::Decimal);
        self.program_counter.increment(0);
    }

    /// Set-interrupt-disable: sets the InterruptDisable flag.
    pub fn set_interrupt_disable_flag(&mut self)
        requires
            old(self).wf(),
        ensures
            final(self).wf(),
            final(self).processor_status_flags.spec_interrupt_disable(),
            final(self).processor_status_flags.spec_carry() == old(
                self,
            ).processor_status_flags.spec_carry(),
            final(self).processor_status_flags.spec_zero() == old(
                self,
            ).processor_status_flags.spec_zero(),
            final(self).processor_status_flags.spec_decimal() == old(
                self,
            ).processor_status_flags.spec_decimal(),
            final(self).processor_status_flags.spec_brk() == old(
                self,
            ).processor_status_flags.spec_brk(),
            final(self).processor_status_flags.spec_overflow() == old(
                self,
            ).processor_status_flags.spec_overflow(),
            final(self).processor_status_flags.spec_negative() == old(
                self,
            ).processor_status_flags.spec_negative(),
            final(self).program_counter.value == ((old(self).program_counter.value + 1)
                % 0x10000) as u16,
            final(self).program_counter.default == old(self).program_counter.default,
            final(self).memory == old(self).memory,
            final(self).accumulator == old(self).accumulator,
            final(self).x_register == old(self).x_register,
            final(self).y_register == old(self).y_register,
            final(self).stack_pointer == old(self).stack_pointer,
    {
        self.processor_status_flags.set_flag(StatusFlags::InterruptDisable);
        self.program_counter.increment(0);
    }
}

} // verus!
