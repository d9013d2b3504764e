use vstd::prelude::*;

verus! {

/// Addresses of the picture unit's memory are 14 bits wide; larger values
/// mirror down.
pub const PPU_ADDRESS_SPACE: u16 = 0x4000;

/// The picture unit's address register, written one byte at a time: first the
/// high byte, then the low byte.
pub struct AdderRegister {
    /// High byte, then low byte.
    pub value: (u8, u8),
    /// Whether the next write goes to the high byte.
    pub hi_ptr: bool,
}

impl AdderRegister {
    /// The address the register holds.
    pub open spec fn address(&self) -> int {
        self.value.0 as int * 256 + self.value.1 as int
    }

    /// The address stays within the 14-bit space.
    pub open spec fn wf(&self) -> bool {
        self.address() < PPU_ADDRESS_SPACE
    }

    /// Address 0, expecting the high byte first.
    pub fn new() -> (r: AdderRegister)
        ensures
            r.wf(),
            r.address() == 0,
            r.hi_ptr,
    {
        AdderRegister { value: (0, 0), hi_ptr: true }
    }

    fn set(&mut self, data: u16)
        ensures
            final(self).address() == data as int,
            final(self).hi_ptr == old(self).hi_ptr,
    {
        self.value.0 = (data / 256) as u8;
        self.value.1 = (data % 256) as u8;
    }

    /// The address the register holds.
    pub fn get(&self) -> (r: u16)
        ensures
            r as int == self.address(),
    {
        self.value.0 as u16 * 256 + self.value.1 as u16
    }

    /// Writes one byte of the address, the high byte and the low byte in turn;
    /// an address beyond the 14-bit space mirrors down into it.
    pub fn update(&mut self, data: u8)
        ensures
            final(self).wf(),
            final(self).hi_ptr == !old(self).hi_ptr,
            final(self).address() == (if old(self).hi_ptr {
                data as int * 256 + old(self).value.1 as int
            } else {
                old(self).value.0 as int * 256 + data as int
            }) % PPU_ADDRESS_SPACE as int,
    {
        if self.hi_ptr {
            self.value.0 = data;
        } else {
            self.value.1 = data;
        }
        let a = self.get();
        if a >= PPU_ADDRESS_SPACE {
            self.set(a % PPU_ADDRESS_SPACE);
        }
        self.hi_ptr = !self.hi_ptr;
    }

    /// Moves the address on by `inc`, carrying from the low byte into the high
    /// byte and wrapping within the 14-bit space.
    pub fn increment(&mut self, inc: u8)
        requires
            old(self).wf(),
        ensures
            final(self).wf(),
            final(self).hi_ptr == old(self).hi_ptr,
            final(self).address() == (old(self).address() + inc) % PPU_ADDRESS_SPACE as int,
    {
        let lo = self.value.1;
        self.value.1 = self.value.1.wrapping_add(inc);
        if lo > self.value.1 {
            self.value.0 = self.value.0.wrapping_add(1);
        }
        let a = self.get();
        if a >= PPU_ADDRESS_SPACE {
            self.set(a % PPU_ADDRESS_SPACE);
        }
    }
}

} // verus!
