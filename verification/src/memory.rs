//! The flat byte-addressable memory store shared by the processor and any
//! external driver (for example a ROM loader).

use crate::common::spec_wrap_add16;
use vstd::prelude::*;

verus! {

/// Number of addressable bytes: the flat space 0x0000 through 0xFFFF.
pub const MEMORY_SIZE: usize = 0x10000;

/// A flat 64 KiB byte-addressable buffer.
#[derive(Debug)]
pub struct VirtualMemory {
    buffer: Vec<u8>,
}

/// The little-endian word stored at `low_byte_addr`: the byte there is the
/// low half, the byte at the next address (wrapping modulo 65536) the high
/// half.
pub open spec fn spec_read_word(m: Seq<u8>, low_byte_addr: u16) -> u16 {
    (m[spec_wrap_add16(low_byte_addr, 1) as int] * 0x100 + m[low_byte_addr as int]) as u16
}

/// Memory contents after an image `rom` is placed starting at `start`.
pub open spec fn spec_load_image(m: Seq<u8>, rom: Seq<u8>, start: int) -> Seq<u8> {
    Seq::new(m.len(), |i: int| if start <= i < start + rom.len() { rom[i - start] } else { m[i] })
}

impl View for VirtualMemory {
    type V = Seq<u8>;

    closed spec fn view(&self) -> Seq<u8> {
        self.buffer@
    }
}

impl VirtualMemory {
    /// The buffer always spans the whole address space.
    pub open spec fn wf(&self) -> bool {
        self@.len() == MEMORY_SIZE
    }

    /// A memory with every byte zeroed.
    pub fn new() -> (r: Self)
        ensures
            r.wf(),
            forall|i: int| 0 <= i < MEMORY_SIZE ==> r@[i] == 0u8,
    {
        VirtualMemory { buffer: zeroed_buffer() }
    }

    /// Zeroes every byte again.
    pub fn reinitialize(&mut self)
        ensures
            final(self).wf(),
            forall|i: int| 0 <= i < MEMORY_SIZE ==> final(self)@[i] == 0u8,
    {
        self.buffer = zeroed_buffer();
    }

    /// The byte stored at `address`.
    pub fn read(&self, address: u16) -> (r: u8)
        requires
            self.wf(),
        ensures
            r == self@[address as int],
    {
        self.buffer[address as usize]
    }

    /// Stores `data` at `address`.
    pub fn write(&mut self, address: u16, data: u8)
        requires
            old(self).wf(),
        ensures
            final(self).wf(),
            final(self)@ == old(self)@.update(address as int, data),
    {
        self.buffer[address as usize] = data;
    }

    /// Reads a word in little-endian order: returns 0xHHLL, where 0xLL is the
    /// byte at `low_byte_addr` and 0xHH the byte at the following address.
    pub fn read_word(&self, low_byte_addr: u16) -> (r: u16)
        requires
            self.wf(),
        ensures
            r == spec_read_word(self@, low_byte_addr),
    {
        let low = self.read(low_byte_addr);
        let high = self.read(low_byte_addr.wrapping_add(1));
        (high as u16) * 0x100 + (low as u16)
    }

    /// Copies an image of bytes into memory starting at `starting_address`.
    /// Fails, leaving memory untouched, iff the image does not fit in the
    /// remaining address space.
    pub fn load_rom(&mut self, rom_data: Vec<u8>, starting_address: u16) -> (r: Result<
        (),
        MemoryError,
    >)
        requires
            old(self).wf(),
        ensures
            final(self).wf(),
            r is Ok <==> starting_address + rom_data@.len() <= MEMORY_SIZE,
            r is Ok ==> final(self)@ == spec_load_image(
                old(self)@,
                rom_data@,
                starting_address as int,
            ),
            r is Err ==> final(self)@ == old(self)@,
    {
        if rom_data.len() > MEMORY_SIZE - starting_address as usize {
            return Err(MemoryError::new("Not enough space to fit ROM at this memory address"));
        }
        let start = starting_address as usize;
        let mut rom_idx: usize = 0;
        while rom_idx < rom_data.len()
            invariant
                self@.len() == MEMORY_SIZE,
                0 <= rom_idx <= rom_data@.len(),
                start == starting_address as int,
                start + rom_data@.len() <= MEMORY_SIZE,
                forall|j: int| 0 <= j < rom_idx ==> self@[start + j] == rom_data@[j],
                forall|j: int|
                    0 <= j < MEMORY_SIZE && !(start <= j < start + rom_idx) ==> self@[j] == old(
                        self,
                    )@[j],
            decreases rom_data@.len() - rom_idx,
        {
            self.buffer[start + rom_idx] = rom_data[rom_idx];
            rom_idx += 1;
        }
        proof {
            assert(self@ =~= spec_load_image(old(self)@, rom_data@, starting_address as int));
        }
        Ok(())
    }
}

/// A reported, recoverable memory failure, such as an image that does not fit.
#[derive(Debug)]
pub struct MemoryError {
    error_msg: String,
}

impl MemoryError {
    /// The characters of the stored message.
    pub closed spec fn spec_message(&self) -> Seq<char> {
        self.error_msg@
    }

    /// Wraps a message into an error value.
    pub fn new(err_str: &str) -> (r: Self)
        ensures
            r.spec_message() == err_str@,
    {
        MemoryError { error_msg: err_str.to_owned() }
    }

    /// The stored message.
    pub fn get_message(&self) -> (r: &String)
        ensures
            r@ == self.spec_message(),
    {
        &self.error_msg
    }
}

/// A buffer of `MEMORY_SIZE` zero bytes.
fn zeroed_buffer() -> (r: Vec<u8>)
    ensures
        r@.len() == MEMORY_SIZE,
        forall|i: int| 0 <= i < MEMORY_SIZE ==> r@[i] == 0u8,
{
    let mut buffer: Vec<u8> = Vec::new();
    while buffer.len() < MEMORY_SIZE
        invariant
            buffer@.len() <= MEMORY_SIZE,
            forall|i: int| 0 <= i < buffer@.len() ==> buffer@[i] == 0u8,
        decreases MEMORY_SIZE - buffer@.len(),
    {
        buffer.push(0u8);
    }
    buffer
}

} // verus!
