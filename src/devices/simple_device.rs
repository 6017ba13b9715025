use vstd::prelude::*;

verus! {

/// A placeholder peripheral that only occupies an address window; it shows
/// how a device shares the address space with memory.
#[derive(Debug, Clone, Copy, PartialEq, Eq, Structural)]
pub struct SimpleDevice {
    pub base_address: u32,
    pub size: u32,
}

impl SimpleDevice {
    pub fn new(base_address: u32, size: u32) -> (r: Self)
        ensures
            r == (SimpleDevice { base_address, size }),
    {
        SimpleDevice { base_address, size }
    }

    /// Reads back the address itself.
    pub fn read(&self, addr: u32) -> (r: u32)
        ensures
            r == addr,
    {
        addr
    }

    /// Accepts and discards a write.
    pub fn write(&self, _addr: u32, _value: u32) {
    }
}

} // verus!
