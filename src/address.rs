use vstd::prelude::*;

verus! {

/// A 24-bit bus address: an 8-bit bank and a 16-bit offset within it.
#[derive(Copy, Clone, Debug, PartialEq, Eq, Structural)]
pub struct HardwareAddress {
    pub bank: u8,
    pub offset: u16,
}

/// The 24-bit number an address stands for.
pub open spec fn linear(a: HardwareAddress) -> int {
    a.bank as int * 0x10000 + a.offset as int
}

/// Offset arithmetic that stays inside the bank.
pub open spec fn in_bank(a: HardwareAddress, n: int) -> HardwareAddress {
    HardwareAddress { bank: a.bank, offset: ((a.offset as int + n) % 0x10000) as u16 }
}

impl HardwareAddress {
    pub fn new(bank: u8, offset: u16) -> (r: HardwareAddress)
        ensures
            r.bank == bank,
            r.offset == offset,
    {
        HardwareAddress { bank, offset }
    }

    pub fn bank(&self) -> (r: u8)
        ensures
            r == self.bank,
    {
        self.bank
    }

    pub fn set_bank(&mut self, bank: u8)
        ensures
            final(self).bank == bank,
            final(self).offset == old(self).offset,
    {
        self.bank = bank;
    }

    pub fn offset(&self) -> (r: u16)
        ensures
            r == self.offset,
    {
        self.offset
    }

    pub fn set_offset(&mut self, offset: u16)
        ensures
            final(self).bank == old(self).bank,
            final(self).offset == offset,
    {
        self.offset = offset;
    }

    /// The offset, for callers that update it in place.
    pub fn offset_mut(&mut self) -> (r: &mut u16)
        ensures
            *r == old(self).offset,
            final(self).offset == *final(r),
            final(self).bank == old(self).bank,
    {
        &mut self.offset
    }

    /// Adds to the offset; a carry out of the offset moves to the next bank (wrapping at 24 bits).
    pub fn wrapping_add(self, rhs: u16) -> (r: HardwareAddress)
        ensures
            linear(r) == (linear(self) + rhs) % 0x1000000,
    {
        let sum: u32 = self.offset as u32 + rhs as u32;
        let offset: u16 = (sum % 0x10000) as u16;
        let bank: u8 = if sum >= 0x10000 {
            ((self.bank as u16 + 1) % 0x100) as u8
        } else {
            self.bank
        };
        HardwareAddress { bank, offset }
    }

    /// Adds to the offset, staying in the same bank.
    pub fn add_in_bank(self, n: u16) -> (r: HardwareAddress)
        ensures
            r == in_bank(self, n as int),
    {
        HardwareAddress { bank: self.bank, offset: ((self.offset as u32 + n as u32) % 0x10000) as u16 }
    }
}

} // verus!
