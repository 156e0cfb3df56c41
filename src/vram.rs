use vstd::prelude::*;
use crate::bits::{lo, hi, with_lo, with_hi, lower, upper, set_lower, set_upper};

verus! {

/// Words of video RAM.
pub const VRAM_WORD_SIZE: usize = 32768;

/// Video RAM behind $2115-$2119 and $2139/$213A.
pub struct Vram {
    pub raw_data: Vec<u16>,
    pub address: u16,
    pub read_buffer: u16,
    pub remap_mode: u8,
    pub increment_on_high: bool,
    pub increment_amount: u16,
}

/// The word the address register selects, after address remapping; VRAM is 32K words so
/// the top bit wraps.
pub open spec fn mapped(a: u16, remap: u8) -> u16 {
    (if remap == 0 {
        a
    } else if remap == 1 {
        (a & 0xFF00) | ((a & 0x00E0) >> 5) | ((a & 0x001F) << 3)
    } else if remap == 2 {
        (a & 0xFE00) | ((a & 0x01C0) >> 6) | ((a & 0x003F) << 3)
    } else {
        (a & 0xFC00) | ((a & 0x0380) >> 7) | ((a & 0x007F) << 3)
    }) & 0x7FFF
}

impl Vram {
    pub open spec fn wf(&self) -> bool {
        self.raw_data@.len() == VRAM_WORD_SIZE && self.remap_mode < 4
    }

    pub open spec fn next_address(&self) -> u16 {
        ((self.address as int + self.increment_amount as int) % 0x10000) as u16
    }

    pub fn new() -> (r: Vram)
        ensures
            r.wf(),
            r.address == 0,
            r.remap_mode == 0,
            !r.increment_on_high,
            r.increment_amount == 1,
            forall|i: int| 0 <= i < VRAM_WORD_SIZE ==> r.raw_data@[i] == 0u16,
    {
        Vram {
            raw_data: vec![0u16; VRAM_WORD_SIZE],
            address: 0,
            read_buffer: 0,
            remap_mode: 0,
            increment_on_high: false,
            increment_amount: 1,
        }
    }

    /// $2115: bits 2-3 remap mode, bit 7 increments after the high byte, bits 0-1 the step
    /// (1, 32, else 128 words).
    pub fn set_port_control(&mut self, value: u8)
        requires
            old(self).wf(),
        ensures
            final(self).wf(),
            final(self).raw_data == old(self).raw_data,
            final(self).address == old(self).address,
            final(self).read_buffer == old(self).read_buffer,
            final(self).remap_mode == (value & 0x0C) >> 2,
            final(self).increment_on_high == (value & 0x80 != 0),
            final(self).increment_amount == (if value & 0x03 == 0 {
                1u16
            } else if value & 0x03 == 1 {
                32u16
            } else {
                128u16
            }),
    {
        assert((value & 0x0C) >> 2 < 4) by (bit_vector);
        self.remap_mode = (value & 0x0C) >> 2;
        self.increment_on_high = value & 0x80 != 0;
        self.increment_amount = if value & 0x03 == 0 {
            1
        } else if value & 0x03 == 1 {
            32
        } else {
            128
        };
    }

    pub fn set_lower_address_byte(&mut self, value: u8)
        requires
            old(self).wf(),
        ensures
            *final(self) == (Vram { address: with_lo(old(self).address, value), ..*old(self) }),
    {
        self.address = set_lower(self.address, value);
    }

    pub fn set_upper_address_byte(&mut self, value: u8)
        requires
            old(self).wf(),
        ensures
            *final(self) == (Vram { address: with_hi(old(self).address, value), ..*old(self) }),
    {
        self.address = set_upper(self.address, value);
    }

    fn mapped_address(&self) -> (r: usize)
        requires
            self.wf(),
        ensures
            r == mapped(self.address, self.remap_mode) as usize,
            r < VRAM_WORD_SIZE,
    {
        let a = self.address;
        let m: u16 = if self.remap_mode == 0 {
            a
        } else if self.remap_mode == 1 {
            (a & 0xFF00) | ((a & 0x00E0) >> 5) | ((a & 0x001F) << 3)
        } else if self.remap_mode == 2 {
            (a & 0xFE00) | ((a & 0x01C0) >> 6) | ((a & 0x003F) << 3)
        } else {
            (a & 0xFC00) | ((a & 0x0380) >> 7) | ((a & 0x007F) << 3)
        };
        assert(m & 0x7FFF < 32768) by (bit_vector);
        (m & 0x7FFF) as usize
    }

    fn increment(&mut self)
        requires
            old(self).wf(),
        ensures
            *final(self) == (Vram { address: old(self).next_address(), ..*old(self) }),
    {
        self.address = ((self.address as u32 + self.increment_amount as u32) % 0x10000) as u16;
    }

    /// $2139: the low byte of the prefetched word; when the step follows the low byte the
    /// word at the address is prefetched and the address advances.
    pub fn read_low_byte(&mut self) -> (r: u8)
        requires
            old(self).wf(),
        ensures
            final(self).wf(),
            r == lo(old(self).read_buffer),
            final(self).raw_data == old(self).raw_data,
            !old(self).increment_on_high ==> final(self).read_buffer == old(self).raw_data@[mapped(
                old(self).address,
                old(self).remap_mode,
            ) as int] && final(self).address == old(self).next_address(),
            old(self).increment_on_high ==> *final(self) == *old(self),
    {
        let value = lower(self.read_buffer);
        if !self.increment_on_high {
            let m = self.mapped_address();
            self.read_buffer = self.raw_data[m];
            self.increment();
        }
        value
    }

    /// $213A: as $2139 for the high byte.
    pub fn read_high_byte(&mut self) -> (r: u8)
        requires
            old(self).wf(),
        ensures
            final(self).wf(),
            r == hi(old(self).read_buffer),
            final(self).raw_data == old(self).raw_data,
            old(self).increment_on_high ==> final(self).read_buffer == old(self).raw_data@[mapped(
                old(self).address,
                old(self).remap_mode,
            ) as int] && final(self).address == old(self).next_address(),
            !old(self).increment_on_high ==> *final(self) == *old(self),
    {
        let value = upper(self.read_buffer);
        if self.increment_on_high {
            let m = self.mapped_address();
            self.read_buffer = self.raw_data[m];
            self.increment();
        }
        value
    }

    /// $2118: stores the low byte of the addressed word.
    pub fn write_low_byte(&mut self, value: u8)
        requires
            old(self).wf(),
        ensures
            final(self).wf(),
            final(self).raw_data@ == old(self).raw_data@.update(
                mapped(old(self).address, old(self).remap_mode) as int,
                with_lo(old(self).raw_data@[mapped(old(self).address, old(self).remap_mode) as int], value),
            ),
            final(self).address == if old(self).increment_on_high {
                old(self).address
            } else {
                old(self).next_address()
            },
            final(self).read_buffer == old(self).read_buffer,
    {
        let m = self.mapped_address();
        let w = set_lower(self.raw_data[m], value);
        self.raw_data.set(m, w);
        if !self.increment_on_high {
            self.increment();
        }
    }

    /// $2119: stores the high byte of the addressed word.
    pub fn write_high_byte(&mut self, value: u8)
        requires
            old(self).wf(),
        ensures
            final(self).wf(),
            final(self).raw_data@ == old(self).raw_data@.update(
                mapped(old(self).address, old(self).remap_mode) as int,
                with_hi(old(self).raw_data@[mapped(old(self).address, old(self).remap_mode) as int], value),
            ),
            final(self).address == if old(self).increment_on_high {
                old(self).next_address()
            } else {
                old(self).address
            },
            final(self).read_buffer == old(self).read_buffer,
    {
        let m = self.mapped_address();
        let w = set_upper(self.raw_data[m], value);
        self.raw_data.set(m, w);
        if self.increment_on_high {
            self.increment();
        }
    }

    /// The word at a VRAM word index.
    pub fn word(&self, index: usize) -> (r: u16)
        requires
            self.wf(),
            index < VRAM_WORD_SIZE,
        ensures
            r == self.raw_data@[index as int],
    {
        self.raw_data[index]
    }
}

} // verus!
