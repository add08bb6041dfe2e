//! The register bank: data registers, program counter, stack pointer and the
//! status register with its seven architectural flags.

use crate::common::{spec_high_byte, spec_low_byte, spec_word_from_bytes};
use crate::memory::VirtualMemory;
use vstd::prelude::*;

verus! {

/// An 8-bit register with no identity beyond its value and a display name.
#[derive(Debug)]
pub struct DataRegister {
    pub name: String,
    pub value: u8,
}

impl DataRegister {
    /// A zeroed register with the given display name.
    pub fn new(p_name: &str) -> (r: Self)
        ensures
            r.value == 0,
            r.name@ == p_name@,
    {
        DataRegister { name: p_name.to_owned(), value: 0 }
    }

    /// The register's display name.
    pub fn get_name(&self) -> (r: &str)
        ensures
            r@ == self.name@,
    {
        self.name.as_str()
    }

    /// Zeroes the register.
    pub fn reset_register(&mut self)
        ensures
            final(self).value == 0,
            final(self).name == old(self).name,
    {
        self.value = 0;
    }
}

/// The 16-bit program counter: the address of the next instruction.  It wraps
/// modulo 65536 on increment and exposes its two bytes independently for
/// subroutine calls.
#[derive(Debug)]
pub struct ProgramCounter {
    pub value: u16,
    pub default: u16,
}

impl ProgramCounter {
    /// A counter that starts at, and resets to, `p_default`.
    pub fn from(p_default: u16) -> (r: Self)
        ensures
            r.value == p_default,
            r.default == p_default,
    {
        ProgramCounter { value: p_default, default: p_default }
    }

    /// One byte of the counter: the low byte when `low_byte` is set, the high
    /// byte otherwise.
    fn fetch_byte(&self, low_byte: bool) -> (r: u8)
        ensures
            r == if low_byte {
                spec_low_byte(self.value)
            } else {
                spec_high_byte(self.value)
            },
    {
        if low_byte {
            (self.value % 0x100) as u8
        } else {
            (self.value / 0x100) as u8
        }
    }

    /// Replaces one byte of the counter, leaving the other byte unchanged.
    fn set_byte(&mut self, byte: u8, low_byte: bool)
        ensures
            final(self).value == if low_byte {
                spec_word_from_bytes(byte, spec_high_byte(old(self).value))
            } else {
                spec_word_from_bytes(spec_low_byte(old(self).value), byte)
            },
            final(self).default == old(self).default,
    {
        if low_byte {
            let high = self.value / 0x100;
            self.value = high * 0x100 + byte as u16;
        } else {
            let low = self.value % 0x100;
            self.value = (byte as u16) * 0x100 + low;
        }
    }

    /// The low byte of the counter.
    pub fn get_pcl(&self) -> (r: u8)
        ensures
            r == spec_low_byte(self.value),
    {
        self.fetch_byte(true)
    }

    /// The high byte of the counter.
    pub fn get_pch(&self) -> (r: u8)
        ensures
            r == spec_high_byte(self.value),
    {
        self.fetch_byte(false)
    }

    /// Replaces the low byte of the counter.
    pub fn set_pcl(&mut self, data: u8)
        ensures
            final(self).value == spec_word_from_bytes(data, spec_high_byte(old(self).value)),
            final(self).default == old(self).default,
    {
        self.set_byte(data, true);
    }

    /// Replaces the high byte of the counter.
    pub fn set_pch(&mut self, data: u8)
        ensures
            final(self).value == spec_word_from_bytes(spec_low_byte(old(self).value), data),
            final(self).default == old(self).default,
    {
        self.set_byte(data, false);
    }

    /// Advances the counter past an instruction: one byte for the opcode plus
    /// `num_params` operand bytes, wrapping modulo 65536.
    pub fn increment(&mut self, num_params: u16)
        ensures
            final(self).value == ((old(self).value + num_params + 1) % 0x10000) as u16,
            final(self).default == old(self).default,
    {
        let sum: u32 = self.value as u32 + num_params as u32 + 1;
        self.value = (sum % 0x10000) as u16;
    }

    /// Returns the counter to its configured default.
    pub fn reset_register(&mut self)
        ensures
            final(self).value == old(self).default,
            final(self).default == old(self).default,
    {
        self.value = self.default;
    }
}

/// The address within the stack page that `pointer` designates.
pub open spec fn spec_stack_addr(page: u8, pointer: u8) -> int {
    page * 0x100 + pointer
}

/// The stack pointer: an 8-bit offset into a fixed 256-byte memory page.  It
/// wraps modulo 256 on push and pop and never crosses into another page.
#[derive(Debug)]
pub struct StackPointerRegister {
    page: u8,
    pointer: u8,
}

impl StackPointerRegister {
    /// The high byte of every stack address.
    pub closed spec fn spec_page(&self) -> u8 {
        self.page
    }

    /// The current offset within the stack page.
    pub closed spec fn spec_pointer(&self) -> u8 {
        self.pointer
    }

    /// A stack pointer for page `p_page` starting at offset `p_start_addr`.
    pub fn new(p_page: u8, p_start_addr: u8) -> (r: Self)
        ensures
            r.spec_page() == p_page,
            r.spec_pointer() == p_start_addr,
    {
        StackPointerRegister { page: p_page, pointer: p_start_addr }
    }

    /// Writes `p_data` at the current stack address, then decrements the
    /// pointer with 8-bit wraparound.
    pub fn push(&mut self, memory: &mut VirtualMemory, p_data: u8)
        requires
            old(memory).wf(),
        ensures
            final(memory).wf(),
            final(memory)@ == old(memory)@.update(
                spec_stack_addr(old(self).spec_page(), old(self).spec_pointer()),
                p_data,
            ),
            final(self).spec_page() == old(self).spec_page(),
            final(self).spec_pointer() == ((old(self).spec_pointer() + 0xFF) % 0x100) as u8,
    {
        let address: u16 = (self.page as u16) * 0x100 + self.pointer as u16;
        memory.write(address, p_data);
        self.pointer = self.pointer.wrapping_sub(1);
    }

    /// Increments the pointer with 8-bit wraparound, then reads the byte at
    /// the new stack address.
    pub fn pop(&mut self, memory: &VirtualMemory) -> (byte: u8)
        requires
            memory.wf(),
        ensures
            final(self).spec_page() == old(self).spec_page(),
            final(self).spec_pointer() == ((old(self).spec_pointer() + 1) % 0x100) as u8,
            byte == memory@[spec_stack_addr(old(self).spec_page(), final(self).spec_pointer())],
    {
        self.pointer = self.pointer.wrapping_add(1);
        let address: u16 = (self.page as u16) * 0x100 + self.pointer as u16;
        memory.read(address)
    }

    /// The current offset within the stack page.
    pub fn get_pointer(&self) -> (r: u8)
        ensures
            r == self.spec_pointer(),
    {
        self.pointer
    }

    /// Returns the pointer to the architectural default: page 0x01, offset
    /// 0xFF.
    pub fn reset_register(&mut self)
        ensures
            final(self).spec_page() == 0x01,
            final(self).spec_pointer() == 0xFF,
    {
        self.page = 0x01;
        self.pointer = 0xFF;
    }
}

/// The stack is last-in first-out: a pop directly after a push reads back the
/// pushed byte from the same stack address and restores the pointer.
pub proof fn lemma_stack_push_pop(mem: Seq<u8>, page: u8, pointer: u8, data: u8)
    requires
        mem.len() == 0x10000,
    ensures
        ({
            let pushed_mem = mem.update(spec_stack_addr(page, pointer), data);
            let pushed_ptr = ((pointer + 0xFF) % 0x100) as u8;
            let popped_ptr = ((pushed_ptr + 1) % 0x100) as u8;
            &&& popped_ptr == pointer
            &&& pushed_mem[spec_stack_addr(page, popped_ptr)] == data
        }),
{
    if pointer == 0 {
        assert(((pointer + 0xFF) % 0x100) as u8 == 0xFFu8);
    } else {
        assert(((pointer + 0xFF) % 0x100) == pointer - 1);
    }
}

/// The stack is last-in first-out over its whole page: after two pushes, the
/// pops return the two bytes in the reverse order and restore the pointer,
/// and both bytes sit in the stack page at descending offsets.
pub proof fn lemma_stack_lifo(mem: Seq<u8>, page: u8, pointer: u8, first: u8, second: u8)
    requires
        mem.len() == 0x10000,
    ensures
        ({
            let ptr1 = ((pointer + 0xFF) % 0x100) as u8;
            let mem1 = mem.update(spec_stack_addr(page, pointer), first);
            let ptr2 = ((ptr1 + 0xFF) % 0x100) as u8;
            let mem2 = mem1.update(spec_stack_addr(page, ptr1), second);
            &&& ((ptr2 + 1) % 0x100) as u8 == ptr1
            &&& mem2[spec_stack_addr(page, ptr1)] == second
            &&& ((ptr1 + 1) % 0x100) as u8 == pointer
            &&& mem2[spec_stack_addr(page, pointer)] == first
        }),
{
    let ptr1 = ((pointer + 0xFF) % 0x100) as u8;
    if pointer == 0 {
        assert(ptr1 == 0xFFu8);
    } else {
        assert(ptr1 == pointer - 1);
    }
    if ptr1 == 0 {
        assert(((ptr1 + 0xFF) % 0x100) as u8 == 0xFFu8);
    } else {
        assert(((ptr1 + 0xFF) % 0x100) == ptr1 - 1);
    }
    assert(ptr1 != pointer);
    assert(spec_stack_addr(page, ptr1) != spec_stack_addr(page, pointer));
}

/// The seven architectural flags of the status register.  Bit 5 of the
/// register is reserved and always reads as 1; no flag names it.
#[derive(Clone, Copy, Debug, PartialEq, Eq, Structural)]
pub enum StatusFlags {
    Carry,
    Zero,
    InterruptDisable,
    Decimal,
    BRK,
    Overflow,
    Negative,
}

impl StatusFlags {
    /// The single-bit mask of the flag within the status byte.
    pub open spec fn spec_mask(self) -> u8 {
        match self {
            StatusFlags::Carry => 0x01,
            StatusFlags::Zero => 0x02,
            StatusFlags::InterruptDisable => 0x04,
            StatusFlags::Decimal => 0x08,
            StatusFlags::BRK => 0x10,
            StatusFlags::Overflow => 0x40,
            StatusFlags::Negative => 0x80,
        }
    }

    /// The single-bit mask of the flag within the status byte.
    pub fn get_mask(&self) -> (r: u8)
        ensures
            r == self.spec_mask(),
    {
        match self {
            Self::Carry => 0x01,
            Self::Zero => 0x02,
            Self::InterruptDisable => 0x04,
            Self::Decimal => 0x08,
            Self::BRK => 0x10,
            Self::Overflow => 0x40,
            Self::Negative => 0x80,
        }
    }

    /// Every flag, in declaration order.
    pub fn all() -> (r: Vec<StatusFlags>)
        ensures
            r@ =~= seq![
                StatusFlags::Carry,
                StatusFlags::Zero,
                StatusFlags::InterruptDisable,
                StatusFlags::Decimal,
                StatusFlags::BRK,
                StatusFlags::Overflow,
                StatusFlags::Negative,
            ],
    {
        let mut flags: Vec<StatusFlags> = Vec::new();
        flags.push(StatusFlags::Carry);
        flags.push(StatusFlags::Zero);
        flags.push(StatusFlags::InterruptDisable);
        flags.push(StatusFlags::Decimal);
        flags.push(StatusFlags::BRK);
        flags.push(StatusFlags::Overflow);
        flags.push(StatusFlags::Negative);
        flags
    }
}

/// The 8-bit status register.  Bit 5 is reserved and holds 1 after every
/// mutation; the other bits are the seven named flags.
#[derive(Debug)]
pub struct StatusRegister {
    flags: u8,
}

impl StatusRegister {
    /// The raw status byte.
    pub closed spec fn spec_flags(&self) -> u8 {
        self.flags
    }

    /// The reserved bit 5 reads as 1.
    pub open spec fn wf(&self) -> bool {
        self.spec_flags() & 0x20 == 0x20
    }

    /// The Carry flag (bit 0).
    pub open spec fn spec_carry(&self) -> bool {
        self.spec_flags() & 0x01 != 0
    }

    /// The Zero flag (bit 1).
    pub open spec fn spec_zero(&self) -> bool {
        self.spec_flags() & 0x02 != 0
    }

    /// The InterruptDisable flag (bit 2).
    pub open spec fn spec_interrupt_disable(&self) -> bool {
        self.spec_flags() & 0x04 != 0
    }

    /// The Decimal flag (bit 3).
    pub open spec fn spec_decimal(&self) -> bool {
        self.spec_flags() & 0x08 != 0
    }

    /// The Break flag (bit 4).
    pub open spec fn spec_brk(&self) -> bool {
        self.spec_flags() & 0x10 != 0
    }

    /// The Overflow flag (bit 6).
    pub open spec fn spec_overflow(&self) -> bool {
        self.spec_flags() & 0x40 != 0
    }

    /// The Negative flag (bit 7).
    pub open spec fn spec_negative(&self) -> bool {
        self.spec_flags() & 0x80 != 0
    }

    /// Whether the given flag is set.
    pub open spec fn spec_flag_set(&self, flag: StatusFlags) -> bool {
        self.spec_flags() & flag.spec_mask() != 0
    }

    /// A status register with every flag clear and the reserved bit set.
    pub fn new() -> (r: Self)
        ensures
            r.spec_flags() == 0x20u8,
            r.wf(),
            !r.spec_carry(),
            !r.spec_zero(),
            !r.spec_interrupt_disable(),
            !r.spec_decimal(),
            !r.spec_brk(),
            !r.spec_overflow(),
            !r.spec_negative(),
    {
        proof {
            assert(0x20u8 & 0x20 == 0x20 && 0x20u8 & 0x01 == 0 && 0x20u8 & 0x02 == 0 && 0x20u8
                & 0x04 == 0 && 0x20u8 & 0x08 == 0 && 0x20u8 & 0x10 == 0 && 0x20u8 & 0x40 == 0
                && 0x20u8 & 0x80 == 0) by (bit_vector);
        }
        StatusRegister { flags: 0b00100000 }
    }

    /// Sets or clears one flag, leaving every other bit unchanged.
    fn bit_manager(&mut self, flag: StatusFlags, to_set: bool)
        ensures
            final(self).spec_flags() == if to_set {
                old(self).spec_flags() | flag.spec_mask()
            } else {
                old(self).spec_flags() & !flag.spec_mask()
            },
            final(self).spec_carry() == if flag == StatusFlags::Carry {
                to_set
            } else {
                old(self).spec_carry()
            },
            final(self).spec_zero() == if flag == StatusFlags::Zero {
                to_set
            } else {
                old(self).spec_zero()
            },
            final(self).spec_interrupt_disable() == if flag == StatusFlags::InterruptDisable {
                to_set
            } else {
                old(self).spec_interrupt_disable()
            },
            final(self).spec_decimal() == if flag == StatusFlags::Decimal {
                to_set
            } else {
                old(self).spec_decimal()
            },
            final(self).spec_brk() == if flag == StatusFlags::BRK {
                to_set
            } else {
                old(self).spec_brk()
            },
            final(self).spec_overflow() == if flag == StatusFlags::Overflow {
                to_set
            } else {
                old(self).spec_overflow()
            },
            final(self).spec_negative() == if flag == StatusFlags::Negative {
                to_set
            } else {
                old(self).spec_negative()
            },
            old(self).wf() ==> final(self).wf(),
    {
        let mask = flag.get_mask();
        proof {
            let f = self.flags;
            match flag {
                StatusFlags::Carry => {
                    assert(((f | mask) & 0x01) != 0 && ((f & !mask) & 0x01) == 0 && ((f | mask)
                        & 0x02) == (f & 0x02) && ((f & !mask) & 0x02) == (f & 0x02) && ((f | mask)
                        & 0x04) == (f & 0x04) && ((f & !mask) & 0x04) == (f & 0x04) && ((f | mask)
                        & 0x08) == (f & 0x08) && ((f & !mask) & 0x08) == (f & 0x08) && ((f | mask)
                        & 0x10) == (f & 0x10) && ((f & !mask) & 0x10) == (f & 0x10) && ((f | mask)
                        & 0x20) == (f & 0x20) && ((f & !mask) & 0x20) == (f & 0x20) && ((f | mask)
                        & 0x40) == (f & 0x40) && ((f & !mask) & 0x40) == (f & 0x40) && ((f | mask)
                        & 0x80) == (f & 0x80) && ((f & !mask) & 0x80) == (f & 0x80)) by (bit_vector)
                        requires
                            mask == 0x01u8,
                    ;
                },
                StatusFlags::Zero => {
                    assert(((f | mask) & 0x02) != 0 && ((f & !mask) & 0x02) == 0 && ((f | mask)
                        & 0x01) == (f & 0x01) && ((f & !mask) & 0x01) == (f & 0x01) && ((f | mask)
                        & 0x04) == (f & 0x04) && ((f & !mask) & 0x04) == (f & 0x04) && ((f | mask)
                        & 0x08) == (f & 0x08) && ((f & !mask) & 0x08) == (f & 0x08) && ((f | mask)
                        & 0x10) == (f & 0x10) && ((f & !mask) & 0x10) == (f & 0x10) && ((f | mask)
                        & 0x20) == (f & 0x20) && ((f & !mask) & 0x20) == (f & 0x20) && ((f | mask)
                        & 0x40) == (f & 0x40) && ((f & !mask) & 0x40) == (f & 0x40) && ((f | mask)
                        & 0x80) == (f & 0x80) && ((f & !mask) & 0x80) == (f & 0x80)) by (bit_vector)
                        requires
                            mask == 0x02u8,
                    ;
                },
                StatusFlags::InterruptDisable => {
                    assert(((f | mask) & 0x04) != 0 && ((f & !mask) & 0x04) == 0 && ((f | mask)
                        & 0x01) == (f & 0x01) && ((f & !mask) & 0x01) == (f & 0x01) && ((f | mask)
                        & 0x02) == (f & 0x02) && ((f & !mask) & 0x02) == (f & 0x02) && ((f | mask)
                        & 0x08) == (f & 0x08) && ((f & !mask) & 0x08) == (f & 0x08) && ((f | mask)
                        & 0x10) == (f & 0x10) && ((f & !mask) & 0x10) == (f & 0x10) && ((f | mask)
                        & 0x20) == (f & 0x20) && ((f & !mask) & 0x20) == (f & 0x20) && ((f | mask)
                        & 0x40) == (f & 0x40) && ((f & !mask) & 0x40) == (f & 0x40) && ((f | mask)
                        & 0x80) == (f & 0x80) && ((f & !mask) & 0x80) == (f & 0x80)) by (bit_vector)
                        requires
                            mask == 0x04u8,
                    ;
                },
                StatusFlags::Decimal => {
                    assert(((f | mask) & 0x08) != 0 && ((f & !mask) & 0x08) == 0 && ((f | mask)
                        & 0x01) == (f & 0x01) && ((f & !mask) & 0x01) == (f & 0x01) && ((f | mask)
                        & 0x02) == (f & 0x02) && ((f & !mask) & 0x02) == (f & 0x02) && ((f | mask)
                        & 0x04) == (f & 0x04) && ((f & !mask) & 0x04) == (f & 0x04) && ((f | mask)
                        & 0x10) == (f & 0x10) && ((f & !mask) & 0x10) == (f & 0x10) && ((f | mask)
                        & 0x20) == (f & 0x20) && ((f & !mask) & 0x20) == (f & 0x20) && ((f | mask)
                        & 0x40) == (f & 0x40) && ((f & !mask) & 0x40) == (f & 0x40) && ((f | mask)
                        & 0x80) == (f & 0x80) && ((f & !mask) & 0x80) == (f & 0x80)) by (bit_vector)
                        requires
                            mask == 0x08u8,
                    ;
                },
                StatusFlags::BRK => {
                    assert(((f | mask) & 0x10) != 0 && ((f & !mask) & 0x10) == 0 && ((f | mask)
                        & 0x01) == (f & 0x01) && ((f & !mask) & 0x01) == (f & 0x01) && ((f | mask)
                        & 0x02) == (f & 0x02) && ((f & !mask) & 0x02) == (f & 0x02) && ((f | mask)
                        & 0x04) == (f & 0x04) && ((f & !mask) & 0x04) == (f & 0x04) && ((f | mask)
                        & 0x08) == (f & 0x08) && ((f & !mask) & 0x08) == (f & 0x08) && ((f | mask)
                        & 0x20) == (f & 0x20) && ((f & !mask) & 0x20) == (f & 0x20) && ((f | mask)
                        & 0x40) == (f & 0x40) && ((f & !mask) & 0x40) == (f & 0x40) && ((f | mask)
                        & 0x80) == (f & 0x80) && ((f & !mask) & 0x80) == (f & 0x80)) by (bit_vector)
                        requires
                            mask == 0x10u8,
                    ;
                },
                StatusFlags::Overflow => {
                    assert(((f | mask) & 0x40) != 0 && ((f & !mask) & 0x40) == 0 && ((f | mask)
                        & 0x01) == (f & 0x01) && ((f & !mask) & 0x01) == (f & 0x01) && ((f | mask)
                        & 0x02) == (f & 0x02) && ((f & !mask) & 0x02) == (f & 0x02) && ((f | mask)
                        & 0x04) == (f & 0x04) && ((f & !mask) & 0x04) == (f & 0x04) && ((f | mask)
                        & 0x08) == (f & 0x08) && ((f & !mask) & 0x08) == (f & 0x08) && ((f | mask)
                        & 0x10) == (f & 0x10) && ((f & !mask) & 0x10) == (f & 0x10) && ((f | mask)
                        & 0x20) == (f & 0x20) && ((f & !mask) & 0x20) == (f & 0x20) && ((f | mask)
                        & 0x80) == (f & 0x80) && ((f & !mask) & 0x80) == (f & 0x80)) by (bit_vector)
                        requires
                            mask == 0x40u8,
                    ;
                },
                StatusFlags::Negative => {
                    assert(((f | mask) & 0x80) != 0 && ((f & !mask) & 0x80) == 0 && ((f | mask)
                        & 0x01) == (f & 0x01) && ((f & !mask) & 0x01) == (f & 0x01) && ((f | mask)
                        & 0x02) == (f & 0x02) && ((f & !mask) & 0x02) == (f & 0x02) && ((f | mask)
                        & 0x04) == (f & 0x04) && ((f & !mask) & 0x04) == (f & 0x04) && ((f | mask)
                        & 0x08) == (f & 0x08) && ((f & !mask) & 0x08) == (f & 0x08) && ((f | mask)
                        & 0x10) == (f & 0x10) && ((f & !mask) & 0x10) == (f & 0x10) && ((f | mask)
                        & 0x20) == (f & 0x20) && ((f & !mask) & 0x20) == (f & 0x20) && ((f | mask)
                        & 0x40) == (f & 0x40) && ((f & !mask) & 0x40) == (f & 0x40)) by (bit_vector)
                        requires
                            mask == 0x80u8,
                    ;
                },
            }
        }
        if to_set {
            self.flags = self.flags | mask;
        } else {
            let inverse_mask = !mask;
            self.flags = self.flags & inverse_mask;
        }
    }

    /// Sets one flag, leaving every other bit unchanged.
    pub fn set_flag(&mut self, flag: StatusFlags)
        ensures
            final(self).spec_flags() == old(self).spec_flags() | flag.spec_mask(),
            final(self).spec_carry() == (flag == StatusFlags::Carry || old(self).spec_carry()),
            final(self).spec_zero() == (flag == StatusFlags::Zero || old(self).spec_zero()),
            final(self).spec_interrupt_disable() == (flag == StatusFlags::InterruptDisable || old(
                self,
            ).spec_interrupt_disable()),
            final(self).spec_decimal() == (flag == StatusFlags::Decimal || old(
                self,
            ).spec_decimal()),
            final(self).spec_brk() == (flag == StatusFlags::BRK || old(self).spec_brk()),
            final(self).spec_overflow() == (flag == StatusFlags::Overflow || old(
                self,
            ).spec_overflow()),
            final(self).spec_negative() == (flag == StatusFlags::Negative || old(
                self,
            ).spec_negative()),
            old(self).wf() ==> final(self).wf(),
    {
        self.bit_manager(flag, true)
    }

    /// Clears one flag, leaving every other bit unchanged.
    pub fn clear_flag(&mut self, flag: StatusFlags)
        ensures
            final(self).spec_flags() == old(self).spec_flags() & !flag.spec_mask(),
            final(self).spec_carry() == (flag != StatusFlags::Carry && old(self).spec_carry()),
            final(self).spec_zero() == (flag != StatusFlags::Zero && old(self).spec_zero()),
            final(self).spec_interrupt_disable() == (flag != StatusFlags::InterruptDisable && old(
                self,
            ).spec_interrupt_disable()),
            final(self).spec_decimal() == (flag != StatusFlags::Decimal && old(
                self,
            ).spec_decimal()),
            final(self).spec_brk() == (flag != StatusFlags::BRK && old(self).spec_brk()),
            final(self).spec_overflow() == (flag != StatusFlags::Overflow && old(
                self,
            ).spec_overflow()),
            final(self).spec_negative() == (flag != StatusFlags::Negative && old(
                self,
            ).spec_negative()),
            old(self).wf() ==> final(self).wf(),
    {
        self.bit_manager(flag, false)
    }

    /// Whether the given flag is set.
    pub fn check_flag(&self, flag: StatusFlags) -> (r: bool)
        ensures
            r == self.spec_flag_set(flag),
            flag == StatusFlags::Carry ==> r == self.spec_carry(),
            flag == StatusFlags::Zero ==> r == self.spec_zero(),
            flag == StatusFlags::InterruptDisable ==> r == self.spec_interrupt_disable(),
            flag == StatusFlags::Decimal ==> r == self.spec_decimal(),
            flag == StatusFlags::BRK ==> r == self.spec_brk(),
            flag == StatusFlags::Overflow ==> r == self.spec_overflow(),
            flag == StatusFlags::Negative ==> r == self.spec_negative(),
    {
        let mask = flag.get_mask();
        let bit_state = self.flags & mask;
        bit_state != 0
    }

    /// Whether every bit of `mask` is set.
    pub fn check_mask(&self, mask: u8) -> (r: bool)
        ensures
            r == (self.spec_flags() & mask == mask),
    {
        self.flags & mask == mask
    }

    /// Replaces the whole status byte with `mask`, forcing the reserved bit
    /// back to 1.
    pub fn set_mask(&mut self, mask: u8)
        ensures
            final(self).spec_flags() == mask | 0x20,
            final(self).wf(),
    {
        proof {
            assert(((mask | 0x20) & 0x20) == 0x20u8) by (bit_vector);
        }
        self.flags = mask | 0x20;
    }

    /// Clears every bit of `mask` except the reserved bit.
    pub fn clear_mask(&mut self, mask: u8)
        ensures
            final(self).spec_flags() == old(self).spec_flags() & (!mask | 0x20),
            old(self).wf() ==> final(self).wf(),
    {
        proof {
            let f = self.flags;
            assert((f & (!mask | 0x20)) & 0x20 == f & 0x20) by (bit_vector);
        }
        self.flags = self.flags & (!mask | 0x20);
    }

    /// The raw status byte.
    pub fn get_flags(&self) -> (r: u8)
        ensures
            r == self.spec_flags(),
    {
        self.flags
    }

    /// Derives the Carry flag from an addition: the two operands are summed
    /// as a 9-bit value and Carry is set iff bit 8 of that sum is 1.
    pub fn add_update_carry_flag(&mut self, first_operand: u8, second_operand: u8)
        ensures
            final(self).spec_carry() == (first_operand + second_operand >= 0x100),
            final(self).spec_zero() == old(self).spec_zero(),
            final(self).spec_interrupt_disable() == old(self).spec_interrupt_disable(),
            final(self).spec_decimal() == old(self).spec_decimal(),
            final(self).spec_brk() == old(self).spec_brk(),
            final(self).spec_overflow() == old(self).spec_overflow(),
            final(self).spec_negative() == old(self).spec_negative(),
            old(self).wf() ==> final(self).wf(),
    {
        let a = first_operand as u16;
        let b = second_operand as u16;
        let true_sum = a + b;

        if true_sum >= 0x100 {
            self.set_flag(StatusFlags::Carry);
        } else {
            self.clear_flag(StatusFlags::Carry);
        }
    }

    /// Derives the Overflow flag from the sign bits of the two operands in
    /// relation to their result: it is set iff both operands share a sign bit
    /// that differs from the result's sign bit.
    pub fn update_overflow_flag(&mut self, m: u8, n: u8, result: u8)
        ensures
            final(self).spec_overflow() == spec_overflow_set(m, n, result),
            final(self).spec_carry() == old(self).spec_carry(),
            final(self).spec_zero() == old(self).spec_zero(),
            final(self).spec_interrupt_disable() == old(self).spec_interrupt_disable(),
            final(self).spec_decimal() == old(self).spec_decimal(),
            final(self).spec_brk() == old(self).spec_brk(),
            final(self).spec_negative() == old(self).spec_negative(),
            old(self).wf() ==> final(self).wf(),
    {
        let first_test = (m ^ result) & (n ^ result) & 0x80;

        if first_test != 0 {
            self.set_flag(StatusFlags::Overflow)
        } else {
            self.clear_flag(StatusFlags::Overflow)
        }
    }

    /// Derives Zero and Negative from a result byte interpreted as a signed
    /// two's-complement value: Negative iff it is below zero, Zero iff it is
    /// zero.
    pub fn update_nz_flags(&mut self, data: u8)
        ensures
            final(self).spec_negative() == spec_is_negative(data),
            final(self).spec_zero() == (data == 0),
            final(self).spec_carry() == old(self).spec_carry(),
            final(self).spec_interrupt_disable() == old(self).spec_interrupt_disable(),
            final(self).spec_decimal() == old(self).spec_decimal(),
            final(self).spec_brk() == old(self).spec_brk(),
            final(self).spec_overflow() == old(self).spec_overflow(),
            old(self).wf() ==> final(self).wf(),
    {
        if data >= 0x80 {
            self.set_flag(StatusFlags::Negative);
            self.clear_flag(StatusFlags::Zero);
        } else if data == 0 {
            self.clear_flag(StatusFlags::Negative);
            self.set_flag(StatusFlags::Zero);
        } else {
            self.clear_flag(StatusFlags::Negative);
            self.clear_flag(StatusFlags::Zero);
        }
    }
}

/// Whether a result byte reads as negative in two's complement: its sign bit
/// (bit 7) is set, that is, its unsigned value is at least 0x80.
pub open spec fn spec_is_negative(data: u8) -> bool {
    data >= 0x80
}

/// The two's-complement overflow test: both operands share a sign bit that
/// differs from the result's sign bit.
pub open spec fn spec_overflow_set(m: u8, n: u8, result: u8) -> bool {
    (m ^ result) & (n ^ result) & 0x80 != 0
}

/// An error in the register bank reported to a driver.
#[derive(Debug)]
pub struct RegisterError {
    err_msg: String,
}

impl RegisterError {
    /// The characters of the stored message.
    pub closed spec fn spec_message(&self) -> Seq<char> {
        self.err_msg@
    }

    /// Wraps a message into an error value.
    pub fn from(value: &str) -> (r: Self)
        ensures
            r.spec_message() == value@,
    {
        RegisterError { err_msg: value.to_owned() }
    }

    /// The stored message.
    pub fn get_message(&self) -> (r: &String)
        ensures
            r@ == self.spec_message(),
    {
        &self.err_msg
    }
}

} // verus!
