//! Small helpers shared by the register bank, the memory store and the
//! addressing resolver: byte/word splitting and 16-bit modular arithmetic.

use vstd::prelude::*;

verus! {

/// Low byte of a 16-bit word.
pub open spec fn spec_low_byte(word: u16) -> u8 {
    (word % 0x100) as u8
}

/// High byte of a 16-bit word.
pub open spec fn spec_high_byte(word: u16) -> u8 {
    (word / 0x100) as u8
}

/// The 16-bit word whose low byte is `low` and high byte is `high`.
pub open spec fn spec_word_from_bytes(low: u8, high: u8) -> u16 {
    (high * 0x100 + low) as u16
}

/// 16-bit addition that wraps modulo 65536.
pub open spec fn spec_wrap_add16(a: u16, b: u16) -> u16 {
    ((a + b) % 0x10000) as u16
}

/// Swaps the two bytes of a 16-bit word.
pub fn reverse_endianness(word: u16) -> (new_word: u16)
    ensures
        new_word == spec_word_from_bytes(spec_high_byte(word), spec_low_byte(word)),
{
    let new_high_byte: u16 = word % 0x100;
    let new_low_byte: u16 = word / 0x100;
    let new_word: u16 = new_high_byte * 0x100 + new_low_byte;
    new_word
}

} // verus!
