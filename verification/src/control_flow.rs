//! The control-flow handlers: compare, jump and jump-to-subroutine, return
//! from subroutine, and the conditional branches.

use crate::addressing::{AddressingModes, BranchMode};
use crate::common::{spec_high_byte, spec_low_byte, spec_word_from_bytes};
use crate::cpu::{RegisterId, CPU};
use crate::register::{spec_is_negative, spec_overflow_set, spec_stack_addr, StatusFlags};
use vstd::prelude::*;

verus! {

impl CPU {
    /// Compare: derives the flags of `register - operand` without mutating
    /// the register, by feeding the two's-complement negation of the memory
    /// operand through the same flag derivations as the adder.  The negation
    /// is kept as a 9-bit value, so Carry reads `register >= operand` even
    /// when the operand is 0.
    pub fn compare(&mut self, addressing_mode: &AddressingModes, register: RegisterId)
        requires
            old(self).wf(),
            addressing_mode.spec_resolves_to_address(),
        ensures
            final(self).wf(),
            ({
                let reg = old(self).spec_register(register);
                let mem = old(self).spec_operand(*addressing_mode);
                let negated = ((0x100 - mem) % 0x100) as u8;
                let result = ((reg + 0x100 - mem) % 0x100) as u8;
                &&& final(self).processor_status_flags.spec_carry() == (reg >= mem)
                &&& final(self).processor_status_flags.spec_zero() == (reg == mem)
                &&& final(self).processor_status_flags.spec_negative() == spec_is_negative(result)
                &&& final(self).processor_status_flags.spec_overflow() == spec_overflow_set(
                    reg,
                    negated,
                    result,
                )
            }),
            final(self).processor_status_flags.spec_decimal() == old(
                self,
            ).processor_status_flags.spec_decimal(),
            final(self).processor_status_flags.spec_interrupt_disable() == old(
                self,
            ).processor_status_flags.spec_interrupt_disable(),
            final(self).processor_status_flags.spec_brk() == old(
                self,
            ).processor_status_flags.spec_brk(),
            final(self).program_counter.value == old(self).spec_advanced_pc(*addressing_mode),
            final(self).program_counter.default == old(self).program_counter.default,
            final(self).memory == old(self).memory,
            final(self).accumulator == old(self).accumulator,
            final(self).x_register == old(self).x_register,
            final(self).y_register == old(self).y_register,
            final(self).stack_pointer == old(self).stack_pointer,
    {
        let address = self.fetch_address(addressing_mode).unwrap();
        let mem_data = self.memory.read(address);
        let reg_value = self.read_register(register);
        let negated_wide: u16 = 0x100 - mem_data as u16;
        let wide: u16 = reg_value as u16 + negated_wide;
        let result: u8 = (wide % 0x100) as u8;
        let negated: u8 = (negated_wide % 0x100) as u8;
        if wide >= 0x100 {
            self.processor_status_flags.set_flag(StatusFlags::Carry);
        } else {
            self.processor_status_flags.clear_flag(StatusFlags::Carry);
        }
        self.processor_status_flags.update_overflow_flag(reg_value, negated, result);
        self.processor_status_flags.update_nz_flags(result);
        self.program_counter.increment(addressing_mode.parameter_bytes());
    }

    /// Jump, or jump-to-subroutine when `is_subroutine` is set: valid only
    /// for the Absolute and Indirect modes, it sets the program counter to
    /// the resolved target directly.  A subroutine jump first pushes the
    /// return address minus one — the counter plus two, the address of the
    /// instruction's last byte — high byte first; the subroutine return adds
    /// the missing one.  An interrupt-style jump also pushes the status byte.
    pub fn jump(&mut self, addressing_mode: &AddressingModes, is_subroutine: bool, is_irq: bool)
        requires
            old(self).wf(),
            *addressing_mode == AddressingModes::Absolute || *addressing_mode
                == AddressingModes::Indirect,
        ensures
            final(self).wf(),
            final(self).program_counter.value == old(self).spec_operand_address(*addressing_mode),
            final(self).program_counter.default == old(self).program_counter.default,
            final(self).accumulator == old(self).accumulator,
            final(self).x_register == old(self).x_register,
            final(self).y_register == old(self).y_register,
            final(self).processor_status_flags == old(self).processor_status_flags,
            final(self).stack_pointer.spec_page() == old(self).stack_pointer.spec_page(),
            !is_subroutine ==> (final(self).memory == old(self).memory
                && final(self).stack_pointer == old(self).stack_pointer),
            is_subroutine ==> ({
                let page = old(self).stack_pointer.spec_page();
                let ptr = old(self).stack_pointer.spec_pointer();
                let ret = ((old(self).program_counter.value + 2) % 0x10000) as u16;
                let ptr1 = ((ptr + 0xFF) % 0x100) as u8;
                let ptr2 = ((ptr1 + 0xFF) % 0x100) as u8;
                let pushed = old(self).memory@.update(
                    spec_stack_addr(page, ptr),
                    spec_high_byte(ret),
                ).update(spec_stack_addr(page, ptr1), spec_low_byte(ret));
                &&& if is_irq {
                    final(self).memory@ == pushed.update(
                        spec_stack_addr(page, ptr2),
                        old(self).processor_status_flags.spec_flags(),
                    ) && final(self).stack_pointer.spec_pointer() == ((ptr2 + 0xFF) % 0x100) as u8
                } else {
                    final(self).memory@ == pushed && final(self).stack_pointer.spec_pointer()
                        == ptr2
                }
            }),
    {
        let address = self.fetch_address(addressing_mode).unwrap();
        if is_subroutine {
            let return_addr = self.program_counter.value.wrapping_add(2);
            let pch = (return_addr / 0x100) as u8;
            let pcl = (return_addr % 0x100) as u8;
            self.stack_pointer.push(&mut self.memory, pch);
            self.stack_pointer.push(&mut self.memory, pcl);
            if is_irq {
                let flags = self.processor_status_flags.get_flags();
                self.stack_pointer.push(&mut self.memory, flags);
            }
        }
        self.program_counter.value = address;
    }

    /// Return-from-subroutine: pops the low then the high byte of the
    /// counter, in the inverse order of the subroutine jump's pushes, and
    /// adds one to account for the byte consumed by the jump's opcode.
    pub fn subroutine_return(&mut self)
        requires
            old(self).wf(),
        ensures
            final(self).wf(),
            ({
                let page = old(self).stack_pointer.spec_page();
                let ptr = old(self).stack_pointer.spec_pointer();
                let pcl = old(self).memory@[spec_stack_addr(page, ((ptr + 1) % 0x100) as u8)];
                let pch = old(self).memory@[spec_stack_addr(page, ((ptr + 2) % 0x100) as u8)];
                final(self).program_counter.value == ((spec_word_from_bytes(pcl, pch) + 1)
                    % 0x10000) as u16
            }),
            final(self).program_counter.default == old(self).program_counter.default,
            final(self).stack_pointer.spec_page() == old(self).stack_pointer.spec_page(),
            final(self).stack_pointer.spec_pointer() == ((old(self).stack_pointer.spec_pointer()
                + 2) % 0x100) as u8,
            final(self).memory == old(self).memory,
            final(self).accumulator == old(self).accumulator,
            final(self).x_register == old(self).x_register,
            final(self).y_register == old(self).y_register,
            final(self).processor_status_flags == old(self).processor_status_flags,
    {
        let new_pcl = self.stack_pointer.pop(&self.memory);
        let new_pch = self.stack_pointer.pop(&self.memory);

        self.program_counter.set_pch(new_pch);
        self.program_counter.set_pcl(new_pcl);
        self.program_counter.increment(0);
    }

    /// Conditional branch: when the predicate fails, the counter advances by
    /// the Relative mode's normal increment and nothing else changes; when it
    /// holds, the signed displacement at the operand byte is added to the
    /// address of the following instruction, with 16-bit wraparound.
    pub fn branch_exec(&mut self, branch_mode: BranchMode)
        requires
            old(self).wf(),
        ensures
            final(self).wf(),
            ({
                let taken = branch_mode.spec_taken(old(self).processor_status_flags);
                let displacement = old(self).spec_operand(AddressingModes::Relative);
                let offset: int = if spec_is_negative(displacement) {
                    displacement - 0x100
                } else {
                    displacement as int
                };
                final(self).program_counter.value == if taken {
                    ((old(self).program_counter.value + 2 + offset) % 0x10000) as u16
                } else {
                    ((old(self).program_counter.value + 2) % 0x10000) as u16
                }
            }),
            final(self).program_counter.default == old(self).program_counter.default,
            final(self).memory == old(self).memory,
            final(self).accumulator == old(self).accumulator,
            final(self).x_register == old(self).x_register,
            final(self).y_register == old(self).y_register,
            final(self).processor_status_flags == old(self).processor_status_flags,
            final(self).stack_pointer == old(self).stack_pointer,
    {
        if !branch_mode.verify(&self.processor_status_flags) {
            self.program_counter.increment(AddressingModes::Relative.parameter_bytes());
            return;
        }
        let address = self.fetch_address(&AddressingModes::Relative).unwrap();
        let delta = self.memory.read(address);
        let offset: u16 = if delta >= 0x80 {
            delta as u16 + 0xFF00
        } else {
            delta as u16
        };
        let target: u32 = self.program_counter.value as u32 + 2 + offset as u32;
        self.program_counter.value = (target % 0x10000) as u16;
    }
}

} // verus!
