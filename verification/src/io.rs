//! The processor's pin buffers: the data and address lines a bus driver
//! reads and writes.

use vstd::prelude::*;

verus! {

/// The pin buffers: D0-D7 as one data byte, A0-A15 as one address word.
#[derive(Debug)]
pub struct PinIO {
    pub data_buffer: u8,
    pub address_buffer: u16,
}

impl PinIO {
    /// Pin buffers with every line low.
    pub fn new() -> (r: Self)
        ensures
            r.data_buffer == 0,
            r.address_buffer == 0,
    {
        PinIO { data_buffer: 0, address_buffer: 0 }
    }
}

impl Default for PinIO {
    /// Pin buffers with every line low.
    fn default() -> (r: Self)
        ensures
            r.data_buffer == 0,
            r.address_buffer == 0,
    {
        PinIO { data_buffer: 0, address_buffer: 0 }
    }
}

} // verus!
