//! The arithmetic and logic handlers: add/subtract with carry, bitwise
//! operations, shifts and rotates, the BIT test and increment/decrement.

use crate::addressing::AddressingModes;
use crate::cpu::{RegisterId, CPU};
use crate::register::{spec_is_negative, spec_overflow_set, StatusFlags, StatusRegister};
use vstd::prelude::*;

verus! {

/// The carry flag read as the adder's third operand: 1 when set, else 0.
pub open spec fn spec_carry_in(status: StatusRegister) -> int {
    if status.spec_carry() {
        1
    } else {
        0
    }
}

/// The adder's 8-bit result: the sum of both operands and the carry-in,
/// wrapped modulo 256.
pub open spec fn spec_adc_sum(first: u8, second: u8, carry_in: int) -> u8 {
    ((first + second + carry_in) % 0x100) as u8
}

/// The adder's carry-out: bit 8 of the 9-bit sum of both operands and the
/// carry-in.
pub open spec fn spec_adc_carry_out(first: u8, second: u8, carry_in: int) -> bool {
    first + second + carry_in >= 0x100
}

/// With carry-in 0, the adder returns exactly the modular sum, and its
/// carry-out says exactly whether the true sum reached 256.
pub proof fn lemma_add_with_carry_in_zero(a: u8, b: u8)
    ensures
        spec_adc_sum(a, b, 0) == (a + b) % 0x100,
        spec_adc_carry_out(a, b, 0) == (a + b >= 0x100),
{
}

/// The overflow test is the two's-complement sign rule: the flag holds iff
/// both operands share a sign bit and the result's sign bit differs from
/// theirs.
pub proof fn lemma_overflow_flag_meaning(m: u8, n: u8, result: u8)
    by (bit_vector)
    ensures
        spec_overflow_set(m, n, result) <==> ((spec_is_negative(m) == spec_is_negative(n)) && (
        spec_is_negative(result) != spec_is_negative(m))),
{
}

/// The shared adder: sums `first`, `second` and the current Carry flag, and
/// derives Carry, Overflow, Zero and Negative from the result.  Overflow is
/// computed from `second` as supplied, not from the carry-adjusted operand.
pub fn add_two_numbers(status_flags: &mut StatusRegister, first: u8, second: u8) -> (sum: u8)
    ensures
        ({
            let carry_in = spec_carry_in(*old(status_flags));
            &&& sum == spec_adc_sum(first, second, carry_in)
            &&& final(status_flags).spec_carry() == spec_adc_carry_out(first, second, carry_in)
            &&& final(status_flags).spec_overflow() == spec_overflow_set(first, second, sum)
            &&& final(status_flags).spec_negative() == spec_is_negative(sum)
            &&& final(status_flags).spec_zero() == (sum == 0)
            &&& final(status_flags).spec_interrupt_disable() == old(
                status_flags,
            ).spec_interrupt_disable()
            &&& final(status_flags).spec_decimal() == old(status_flags).spec_decimal()
            &&& final(status_flags).spec_brk() == old(status_flags).spec_brk()
            &&& old(status_flags).wf() ==> final(status_flags).wf()
        }),
{
    let carry_flag: u16 = if status_flags.check_flag(StatusFlags::Carry) {
        1
    } else {
        0
    };
    let true_sum: u16 = first as u16 + second as u16 + carry_flag;
    let sum: u8 = (true_sum % 0x100) as u8;
    if true_sum >= 0x100 {
        status_flags.set_flag(StatusFlags::Carry);
    } else {
        status_flags.clear_flag(StatusFlags::Carry);
    }
    status_flags.update_overflow_flag(first, second, sum);
    status_flags.update_nz_flags(sum);
    sum
}

impl CPU {
    /// Add-with-carry, or subtract-with-carry when `subtract` is set: the
    /// memory operand (bitwise-inverted for subtraction) is summed into the
    /// accumulator through the shared adder.  For a true subtraction the
    /// programmer pre-sets Carry to 1, mirroring two's-complement subtraction
    /// by addition of the negated operand.
    pub fn sum_with_carry(&mut self, addressing_mode: &AddressingModes, subtract: bool)
        requires
            old(self).wf(),
            addressing_mode.spec_resolves_to_address(),
        ensures
            final(self).wf(),
            ({
                let operand = if subtract {
                    !old(self).spec_operand(*addressing_mode)
                } else {
                    old(self).spec_operand(*addressing_mode)
                };
                let carry_in = spec_carry_in(old(self).processor_status_flags);
                let sum = spec_adc_sum(old(self).accumulator.value, operand, carry_in);
                &&& final(self).accumulator.value == sum
                &&& final(self).processor_status_flags.spec_carry() == spec_adc_carry_out(
                    old(self).accumulator.value,
                    operand,
                    carry_in,
                )
                &&& final(self).processor_status_flags.spec_overflow() == spec_overflow_set(
                    old(self).accumulator.value,
                    operand,
                    sum,
                )
                &&& final(self).processor_status_flags.spec_negative() == spec_is_negative(sum)
                &&& final(self).processor_status_flags.spec_zero() == (sum == 0)
            }),
            final(self).processor_status_flags.spec_decimal() == old(
                self,
            ).processor_status_flags.spec_decimal(),
            final(self).processor_status_flags.spec_interrupt_disable() == old(
                self,
            ).processor_status_flags.spec_interrupt_disable(),
            final(self).processor_status_flags.spec_brk() == old(
                self,
            ).processor_status_flags.spec_brk(),
            final(self).program_counter.value == old(self).spec_advanced_pc(*addressing_mode),
            final(self).program_counter.default == old(self).program_counter.default,
            final(self).memory == old(self).memory,
            final(self).x_register == old(self).x_register,
            final(self).y_register == old(self).y_register,
            final(self).accumulator.name == old(self).accumulator.name,
            final(self).stack_pointer == old(self).stack_pointer,
    {
        let address = self.fetch_address(addressing_mode).unwrap();
        let mut memory_data = self.memory.read(address);
        if subtract {
            memory_data = !memory_data;
        }
        let acc_data = self.accumulator.value;
        let sum = add_two_numbers(&mut self.processor_status_flags, acc_data, memory_data);
        self.accumulator.value = sum;
        self.program_counter.increment(addressing_mode.parameter_bytes());
    }

    /// Applies one Boolean operator between the accumulator and the memory
    /// operand, stores the result in the accumulator and refreshes Zero and
    /// Negative.
    fn bitwise_operations(&mut self, addressing_mode: &AddressingModes, operation: BitwiseOp)
        requires
            old(self).wf(),
            addressing_mode.spec_resolves_to_address(),
        ensures
            final(self).wf(),
            ({
                let result = spec_apply_bitwise(
                    operation,
                    old(self).accumulator.value,
                    old(self).spec_operand(*addressing_mode),
                );
                &&& final(self).accumulator.value == result
                &&& final(self).processor_status_flags.spec_negative() == spec_is_negative(result)
                &&& final(self).processor_status_flags.spec_zero() == (result == 0)
            }),
            final(self).processor_status_flags.spec_carry() == old(
                self,
            ).processor_status_flags.spec_carry(),
            final(self).processor_status_flags.spec_overflow() == old(
                self,
            ).processor_status_flags.spec_overflow(),
            final(self).processor_status_flags.spec_decimal() == old(
                self,
            ).processor_status_flags.spec_decimal(),
            final(self).processor_status_flags.spec_interrupt_disable() == old(
                self,
            ).processor_status_flags.spec_interrupt_disable(),
            final(self).processor_status_flags.spec_brk() == old(
                self,
            ).processor_status_flags.spec_brk(),
            final(self).program_counter.value == old(self).spec_advanced_pc(*addressing_mode),
            final(self).program_counter.default == old(self).program_counter.default,
            final(self).memory == old(self).memory,
            final(self).x_register == old(self).x_register,
            final(self).y_register == old(self).y_register,
            final(self).accumulator.name == old(self).accumulator.name,
            final(self).stack_pointer == old(self).stack_pointer,
    {
        let address = self.fetch_address(addressing_mode).unwrap();
        let memory_data = self.memory.read(address);
        let acc_data = self.accumulator.value;
        let op_result = match operation {
            BitwiseOp::And => acc_data & memory_data,
            BitwiseOp::Or => acc_data | memory_data,
            BitwiseOp::Xor => acc_data ^ memory_data,
        };
        self.accumulator.value = op_result;
        self.processor_status_flags.update_nz_flags(op_result);
        self.program_counter.increment(addressing_mode.parameter_bytes());
    }

    /// Bitwise AND between the accumulator and the memory operand.
    pub fn bitwise_and(&mut self, addressing_mode: &AddressingModes)
        requires
            old(self).wf(),
            addressing_mode.spec_resolves_to_address(),
        ensures
            final(self).wf(),
            final(self).accumulator.value == (old(self).accumulator.value & old(self).spec_operand(
                *addressing_mode,
            )),
            final(self).processor_status_flags.spec_negative() == spec_is_negative(
                final(self).accumulator.value,
            ),
            final(self).processor_status_flags.spec_zero() == (final(self).accumulator.value == 0),
            final(self).processor_status_flags.spec_carry() == old(
                self,
            ).processor_status_flags.spec_carry(),
            final(self).processor_status_flags.spec_overflow() == old(
                self,
            ).processor_status_flags.spec_overflow(),
            final(self).processor_status_flags.spec_decimal() == old(
                self,
            ).processor_status_flags.spec_decimal(),
            final(self).processor_status_flags.spec_interrupt_disable() == old(
                self,
            ).processor_status_flags.spec_interrupt_disable(),
            final(self).processor_status_flags.spec_brk() == old(
                self,
            ).processor_status_flags.spec_brk(),
            final(self).program_counter.value == old(self).spec_advanced_pc(*addressing_mode),
            final(self).program_counter.default == old(self).program_counter.default,
            final(self).memory == old(self).memory,
            final(self).x_register == old(self).x_register,
            final(self).y_register == old(self).y_register,
            final(self).accumulator.name == old(self).accumulator.name,
            final(self).stack_pointer == old(self).stack_pointer,
    {
        self.bitwise_operations(addressing_mode, BitwiseOp::And);
    }

    /// Bitwise OR between the accumulator and the memory operand.
    pub fn bitwise_or(&mut self, addressing_mode: &AddressingModes)
        requires
            old(self).wf(),
            addressing_mode.spec_resolves_to_address(),
        ensures
            final(self).wf(),
            final(self).accumulator.value == (old(self).accumulator.value | old(self).spec_operand(
                *addressing_mode,
            )),
            final(self).processor_status_flags.spec_negative() == spec_is_negative(
                final(self).accumulator.value,
            ),
            final(self).processor_status_flags.spec_zero() == (final(self).accumulator.value == 0),
            final(self).processor_status_flags.spec_carry() == old(
                self,
            ).processor_status_flags.spec_carry(),
            final(self).processor_status_flags.spec_overflow() == old(
                self,
            ).processor_status_flags.spec_overflow(),
            final(self).processor_status_flags.spec_decimal() == old(
                self,
            ).processor_status_flags.spec_decimal(),
            final(self).processor_status_flags.spec_interrupt_disable() == old(
                self,
            ).processor_status_flags.spec_interrupt_disable(),
            final(self).processor_status_flags.spec_brk() == old(
                self,
            ).processor_status_flags.spec_brk(),
            final(self).program_counter.value == old(self).spec_advanced_pc(*addressing_mode),
            final(self).program_counter.default == old(self).program_counter.default,
            final(self).memory == old(self).memory,
            final(self).x_register == old(self).x_register,
            final(self).y_register == old(self).y_register,
            final(self).accumulator.name == old(self).accumulator.name,
            final(self).stack_pointer == old(self).stack_pointer,
    {
        self.bitwise_operations(addressing_mode, BitwiseOp::Or);
    }

    /// Bitwise exclusive OR between the accumulator and the memory operand.
    pub fn bitwise_exclusive_or(&mut self, addressing_mode: &AddressingModes)
        requires
            old(self).wf(),
            addressing_mode.spec_resolves_to_address(),
        ensures
            final(self).wf(),
            final(self).accumulator.value == (old(self).accumulator.value ^ old(self).spec_operand(
                *addressing_mode,
            )),
            final(self).processor_status_flags.spec_negative() == spec_is_negative(
                final(self).accumulator.value,
            ),
            final(self).processor_status_flags.spec_zero() == (final(self).accumulator.value == 0),
            final(self).processor_status_flags.spec_carry() == old(
                self,
            ).processor_status_flags.spec_carry(),
            final(self).processor_status_flags.spec_overflow() == old(
                self,
            ).processor_status_flags.spec_overflow(),
            final(self).processor_status_flags.spec_decimal() == old(
                self,
            ).processor_status_flags.spec_decimal(),
            final(self).processor_status_flags.spec_interrupt_disable() == old(
                self,
            ).processor_status_flags.spec_interrupt_disable(),
            final(self).processor_status_flags.spec_brk() == old(
                self,
            ).processor_status_flags.spec_brk(),
            final(self).program_counter.value == old(self).spec_advanced_pc(*addressing_mode),
            final(self).program_counter.default == old(self).program_counter.default,
            final(self).memory == old(self).memory,
            final(self).x_register == old(self).x_register,
            final(self).y_register == old(self).y_register,
            final(self).accumulator.name == old(self).accumulator.name,
            final(self).stack_pointer == old(self).stack_pointer,
    {
        self.bitwise_operations(addressing_mode, BitwiseOp::Xor);
    }
}

impl CPU {
    /// Shift-left (no rotate) or rotate-left: the operand — the memory byte
    /// the mode resolves to, or the accumulator for the register-only modes —
    /// is shifted left one bit with 8-bit truncation; a rotate ORs the old
    /// Carry into the vacated bit 0.  The new Carry is the operand's old bit
    /// 7, and the result is written back where the operand came from.
    pub fn left_shift(&mut self, addressing_mode: &AddressingModes, rotate: bool)
        requires
            old(self).wf(),
        ensures
            final(self).wf(),
            ({
                let addr_opt = old(self).spec_effective_address(*addressing_mode);
                let data = if addr_opt is Some {
                    old(self).memory@[addr_opt->Some_0 as int]
                } else {
                    old(self).accumulator.value
                };
                let old_carry: u8 = if old(self).processor_status_flags.spec_carry() {
                    1
                } else {
                    0
                };
                let new_value = if rotate {
                    (data << 1) | old_carry
                } else {
                    data << 1
                };
                &&& final(self).processor_status_flags.spec_carry() == (data & 0x80 != 0)
                &&& final(self).processor_status_flags.spec_negative() == spec_is_negative(
                    new_value,
                )
                &&& final(self).processor_status_flags.spec_zero() == (new_value == 0)
                &&& if addr_opt is Some {
                    final(self).memory@ == old(self).memory@.update(
                        addr_opt->Some_0 as int,
                        new_value,
                    ) && final(self).accumulator == old(self).accumulator
                } else {
                    final(self).accumulator.value == new_value && final(self).memory == old(
                        self,
                    ).memory && final(self).accumulator.name == old(self).accumulator.name
                }
            }),
            final(self).processor_status_flags.spec_overflow() == old(
                self,
            ).processor_status_flags.spec_overflow(),
            final(self).processor_status_flags.spec_decimal() == old(
                self,
            ).processor_status_flags.spec_decimal(),
            final(self).processor_status_flags.spec_interrupt_disable() == old(
                self,
            ).processor_status_flags.spec_interrupt_disable(),
            final(self).processor_status_flags.spec_brk() == old(
                self,
            ).processor_status_flags.spec_brk(),
            final(self).program_counter.value == old(self).spec_advanced_pc(*addressing_mode),
            final(self).program_counter.default == old(self).program_counter.default,
            final(self).x_register == old(self).x_register,
            final(self).y_register == old(self).y_register,
            final(self).stack_pointer == old(self).stack_pointer,
    {
        let address_option = self.fetch_address(addressing_mode);
        let mut data = match address_option {
            Some(addr) => self.memory.read(addr),
            None => self.accumulator.value,
        };
        let old_carry: u8 = if self.processor_status_flags.check_flag(StatusFlags::Carry) {
            1
        } else {
            0
        };
        let new_carry = data & 0x80;
        data = data << 1;

        if new_carry != 0 {
            self.processor_status_flags.set_flag(StatusFlags::Carry);
        } else {
            self.processor_status_flags.clear_flag(StatusFlags::Carry);
        }

        if rotate {
            data = data | old_carry;
        }
        match address_option {
            Some(addr) => self.memory.write(addr, data),
            None => self.accumulator.value = data,
        };
        self.processor_status_flags.update_nz_flags(data);
        self.program_counter.increment(addressing_mode.parameter_bytes());
    }

    /// Shift-right (no rotate) or rotate-right: symmetric to the left shift.
    /// The new Carry is the operand's old bit 0; a rotate ORs the old Carry
    /// into the vacated bit 7.
    pub fn right_shift(&mut self, addressing_mode: &AddressingModes, rotate: bool)
        requires
            old(self).wf(),
        ensures
            final(self).wf(),
            ({
                let addr_opt = old(self).spec_effective_address(*addressing_mode);
                let data = if addr_opt is Some {
                    old(self).memory@[addr_opt->Some_0 as int]
                } else {
                    old(self).accumulator.value
                };
                let old_carry: u8 = if old(self).processor_status_flags.spec_carry() {
                    1
                } else {
                    0
                };
                let new_value = if rotate {
                    (data >> 1) | (old_carry << 7)
                } else {
                    data >> 1
                };
                &&& final(self).processor_status_flags.spec_carry() == (data & 0x01 != 0)
                &&& final(self).processor_status_flags.spec_negative() == spec_is_negative(
                    new_value,
                )
                &&& final(self).processor_status_flags.spec_zero() == (new_value == 0)
                &&& if addr_opt is Some {
                    final(self).memory@ == old(self).memory@.update(
                        addr_opt->Some_0 as int,
                        new_value,
                    ) && final(self).accumulator == old(self).accumulator
                } else {
                    final(self).accumulator.value == new_value && final(self).memory == old(
                        self,
                    ).memory && final(self).accumulator.name == old(self).accumulator.name
                }
            }),
            final(self).processor_status_flags.spec_overflow() == old(
                self,
            ).processor_status_flags.spec_overflow(),
            final(self).processor_status_flags.spec_decimal() == old(
                self,
            ).processor_status_flags.spec_decimal(),
            final(self).processor_status_flags.spec_interrupt_disable() == old(
                self,
            ).processor_status_flags.spec_interrupt_disable(),
            final(self).processor_status_flags.spec_brk() == old(
                self,
            ).processor_status_flags.spec_brk(),
            final(self).program_counter.value == old(self).spec_advanced_pc(*addressing_mode),
            final(self).program_counter.default == old(self).program_counter.default,
            final(self).x_register == old(self).x_register,
            final(self).y_register == old(self).y_register,
            final(self).stack_pointer == old(self).stack_pointer,
    {
        let old_carry: u8 = if self.processor_status_flags.check_flag(StatusFlags::Carry) {
            1
        } else {
            0
        };
        let address_option = self.fetch_address(addressing_mode);
        let mut data = match address_option {
            Some(addr) => self.memory.read(addr),
            None => self.accumulator.value,
        };
        let new_carry = data & 0x01;
        data = data >> 1;
        if new_carry != 0 {
            self.processor_status_flags.set_flag(StatusFlags::Carry);
        } else {
            self.processor_status_flags.clear_flag(StatusFlags::Carry);
        }

        if rotate {
            data = data | (old_carry << 7);
        }

        match address_option {
            Some(addr) => self.memory.write(addr, data),
            None => self.accumulator.value = data,
        };

        self.processor_status_flags.update_nz_flags(data);
        self.program_counter.increment(addressing_mode.parameter_bytes());
    }

    /// The BIT test: ANDs the memory operand with the accumulator without
    /// storing the result; Zero says whether that AND is zero, while Negative
    /// and Overflow copy bits 7 and 6 of the memory operand itself.  Nothing
    /// else changes beyond the counter's normal advancement.
    pub fn bit_instruction(&mut self, addressing_mode: &AddressingModes)
        requires
            old(self).wf(),
            addressing_mode.spec_resolves_to_address(),
        ensures
            final(self).wf(),
            ({
                let operand = old(self).spec_operand(*addressing_mode);
                let result = operand & old(self).accumulator.value;
                &&& final(self).processor_status_flags.spec_zero() == (result == 0)
                &&& final(self).processor_status_flags.spec_negative() == (operand & 0x80 != 0)
                &&& final(self).processor_status_flags.spec_overflow() == (operand & 0x40 != 0)
            }),
            final(self).processor_status_flags.spec_carry() == old(
                self,
            ).processor_status_flags.spec_carry(),
            final(self).processor_status_flags.spec_decimal() == old(
                self,
            ).processor_status_flags.spec_decimal(),
            final(self).processor_status_flags.spec_interrupt_disable() == old(
                self,
            ).processor_status_flags.spec_interrupt_disable(),
            final(self).processor_status_flags.spec_brk() == old(
                self,
            ).processor_status_flags.spec_brk(),
            final(self).program_counter.value == old(self).spec_advanced_pc(*addressing_mode),
            final(self).program_counter.default == old(self).program_counter.default,
            final(self).memory == old(self).memory,
            final(self).accumulator == old(self).accumulator,
            final(self).x_register == old(self).x_register,
            final(self).y_register == old(self).y_register,
            final(self).stack_pointer == old(self).stack_pointer,
    {
        let address = self.fetch_address(addressing_mode).unwrap();
        let mem_operand = self.memory.read(address);
        let result = mem_operand & self.accumulator.value;

        if result == 0 {
            self.processor_status_flags.set_flag(StatusFlags::Zero);
        } else {
            self.processor_status_flags.clear_flag(StatusFlags::Zero);
        }

        if mem_operand & 0x80 != 0 {
            self.processor_status_flags.set_flag(StatusFlags::Negative);
        } else {
            self.processor_status_flags.clear_flag(StatusFlags::Negative);
        }

        if mem_operand & 0x40 != 0 {
            self.processor_status_flags.set_flag(StatusFlags::Overflow);
        } else {
            self.processor_status_flags.clear_flag(StatusFlags::Overflow);
        }
        self.program_counter.increment(addressing_mode.parameter_bytes());
    }

    /// Increments (or, with `dec`, decrements) the memory byte the mode
    /// resolves to, with 8-bit wraparound, and refreshes Zero and Negative
    /// from the new value, matching the architecture's defined behaviour.
    pub fn inc_dec_memory(&mut self, addressing_mode: &AddressingModes, dec: bool)
        requires
            old(self).wf(),
            addressing_mode.spec_resolves_to_address(),
        ensures
            final(self).wf(),
            ({
                let address = old(self).spec_operand_address(*addressing_mode);
                let new_value = if dec {
                    ((old(self).spec_operand(*addressing_mode) + 0xFF) % 0x100) as u8
                } else {
                    ((old(self).spec_operand(*addressing_mode) + 1) % 0x100) as u8
                };
                &&& final(self).memory@ == old(self).memory@.update(address as int, new_value)
                &&& final(self).processor_status_flags.spec_negative() == spec_is_negative(
                    new_value,
                )
                &&& final(self).processor_status_flags.spec_zero() == (new_value == 0)
            }),
            final(self).processor_status_flags.spec_carry() == old(
                self,
            ).processor_status_flags.spec_carry(),
            final(self).processor_status_flags.spec_overflow() == old(
                self,
            ).processor_status_flags.spec_overflow(),
            final(self).processor_status_flags.spec_decimal() == old(
                self,
            ).processor_status_flags.spec_decimal(),
            final(self).processor_status_flags.spec_interrupt_disable() == old(
                self,
            ).processor_status_flags.spec_interrupt_disable(),
            final(self).processor_status_flags.spec_brk() == old(
                self,
            ).processor_status_flags.spec_brk(),
            final(self).program_counter.value == old(self).spec_advanced_pc(*addressing_mode),
            final(self).program_counter.default == old(self).program_counter.default,
            final(self).accumulator == old(self).accumulator,
            final(self).x_register == old(self).x_register,
            final(self).y_register == old(self).y_register,
            final(self).stack_pointer == old(self).stack_pointer,
    {
        let address = self.fetch_address(addressing_mode).unwrap();
        let value = self.memory.read(address);
        let new_value = if dec {
            value.wrapping_sub(1)
        } else {
            value.wrapping_add(1)
        };
        self.memory.write(address, new_value);
        self.processor_status_flags.update_nz_flags(new_value);
        self.program_counter.increment(addressing_mode.parameter_bytes());
    }

    /// Increments (or, with `dec`, decrements) the named data register, with
    /// 8-bit wraparound, and refreshes Zero and Negative from the new value,
    /// matching the architecture's defined behaviour.
    pub fn inc_dec_register(&mut self, register: RegisterId, dec: bool)
        requires
            old(self).wf(),
        ensures
            final(self).wf(),
            ({
                let new_value = if dec {
                    ((old(self).spec_register(register) + 0xFF) % 0x100) as u8
                } else {
                    ((old(self).spec_register(register) + 1) % 0x100) as u8
                };
                &&& final(self).spec_register(register) == new_value
                &&& final(self).processor_status_flags.spec_negative() == spec_is_negative(
                    new_value,
                )
                &&& final(self).processor_status_flags.spec_zero() == (new_value == 0)
            }),
            forall|other: RegisterId|
                other != register ==> final(self).spec_register(other) == old(self).spec_register(
                    other,
                ),
            final(self).processor_status_flags.spec_carry() == old(
                self,
            ).processor_status_flags.spec_carry(),
            final(self).processor_status_flags.spec_overflow() == old(
                self,
            ).processor_status_flags.spec_overflow(),
            final(self).processor_status_flags.spec_decimal() == old(
                self,
            ).processor_status_flags.spec_decimal(),
            final(self).processor_status_flags.spec_interrupt_disable() == old(
                self,
            ).processor_status_flags.spec_interrupt_disable(),
            final(self).processor_status_flags.spec_brk() == old(
                self,
            ).processor_status_flags.spec_brk(),
            final(self).program_counter.value == ((old(self).program_counter.value + 1)
                % 0x10000) as u16,
            final(self).program_counter.default == old(self).program_counter.default,
            final(self).memory == old(self).memory,
            final(self).accumulator.name == old(self).accumulator.name,
            final(self).x_register.name == old(self).x_register.name,
            final(self).y_register.name == old(self).y_register.name,
            final(self).stack_pointer == old(self).stack_pointer,
    {
        let value = self.read_register(register);
        let new_value = if dec {
            value.wrapping_sub(1)
        } else {
            value.wrapping_add(1)
        };
        self.write_register(register, new_value);
        self.processor_status_flags.update_nz_flags(new_value);
        self.program_counter.increment(0);
    }
}

/// The three Boolean operators the bitwise handlers share.
pub(crate) enum BitwiseOp {
    And,
    Or,
    Xor,
}

/// The byte produced by one of the Boolean operators.
pub(crate) open spec fn spec_apply_bitwise(op: BitwiseOp, a: u8, b: u8) -> u8 {
    match op {
        BitwiseOp::And => a & b,
        BitwiseOp::Or => a | b,
        BitwiseOp::Xor => a ^ b,
    }
}

} // verus!
