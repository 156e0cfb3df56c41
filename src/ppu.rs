use vstd::prelude::*;
use crate::bits::{ByteSelector, WriteTwice, ReadTwice, lo, hi, with_lo, with_hi, join};
use crate::color::{with_high_byte, with_low_byte};
use crate::cgram::COLOR_COUNT;
use crate::oam::byte_of;
use crate::vram::mapped;
use crate::cgram::Cgram;
use crate::oam::Oam;
use crate::vram::Vram;
use crate::io_port::PPU_LATCH_BIT;
use crate::layers::Layers;

verus! {

pub const DOTS_PER_LINE: u16 = 340;
pub const TOTAL_SCANLINES: u16 = 262;
pub const HBLANK_START: u16 = 274;
pub const HBLANK_END: u16 = 1;
pub const DISPLAY_TOP: u16 = 1;
pub const VBLANK_START_NORMAL: u16 = 225;
pub const VBLANK_START_OVERSCAN: u16 = 240;
pub const STANDARD_PIXEL_CYCLES: u64 = 4;
pub const WIDE_PIXEL_CYCLES: u64 = 6;
pub const CHIP_VERSION_5C77: u8 = 1;
pub const CHIP_VERSION_5C78: u8 = 3;

/// The beam position: dot within the line and line within the frame.
#[derive(Copy, Clone, Debug, PartialEq, Eq, Structural)]
pub struct Position {
    pub h: u16,
    pub v: u16,
}

impl Position {
    pub fn h(&self) -> (r: u16)
        ensures
            r == self.h,
    {
        self.h
    }

    pub fn v(&self) -> (r: u16)
        ensures
            r == self.v,
    {
        self.v
    }
}

/// The picture unit as the CPU sees it: beam timing, blanking signals, the counter latch,
/// the signed multiplier and the VRAM, CGRAM and OAM ports. Pixel composition is not
/// modelled.
pub struct Ppu {
    pub position: Position,
    pub stored_h: ReadTwice,
    pub stored_v: ReadTwice,
    pub stored: bool,
    pub force_blank: bool,
    pub brightness: u8,
    pub overscan: bool,
    pub hblank: bool,
    pub vblank: bool,
    pub oam: Oam,
    pub vram: Vram,
    pub cgram: Cgram,
    pub multiplication_lhs: WriteTwice,
    pub multiplication_result: u32,
    pub cycles: u64,
    pub next_pixel_cycles: u64,
    pub layers: Layers,
}

pub open spec fn vblank_start(overscan: bool) -> u16 {
    if overscan { VBLANK_START_OVERSCAN } else { VBLANK_START_NORMAL }
}

/// The line and blank state after the beam leaves the last dot of line `v`.
pub open spec fn next_line(v: u16, vblank: bool, overscan: bool) -> (u16, bool) {
    let nv = (v + 1) as u16;
    if nv == DISPLAY_TOP || nv < vblank_start(overscan) {
        (nv, vblank)
    } else if !vblank {
        (nv, true)
    } else if nv == TOTAL_SCANLINES {
        (0, false)
    } else {
        (nv, vblank)
    }
}

/// The 24-bit signed product that $2134-$2136 show.
pub open spec fn signed_product(lhs: u16, rhs: u8) -> u32 {
    let p = (((lhs as i16) as i32) * ((rhs as i8) as i32)) as u32;
    ((p & 0x80000000) >> 8) | (p & 0x007FFFFF)
}

impl Ppu {
    pub open spec fn wf(&self) -> bool {
        &&& self.position.h < DOTS_PER_LINE
        &&& self.position.v < TOTAL_SCANLINES
        &&& (self.position.v >= VBLANK_START_OVERSCAN ==> self.vblank)
        &&& self.stored_h.spec_mask() == 0x01FF
        &&& self.stored_v.spec_mask() == 0x01FF
        &&& self.oam.wf()
        &&& self.vram.wf()
        &&& self.cgram.wf()
        &&& (self.next_pixel_cycles == STANDARD_PIXEL_CYCLES || self.next_pixel_cycles == WIDE_PIXEL_CYCLES)
    }

    pub fn new() -> (r: Ppu)
        ensures
            r.wf(),
            r.position == (Position { h: 0, v: 0 }),
            r.vblank,
            r.hblank,
            r.force_blank,
            r.cycles == 0,
    {
        Ppu {
            position: Position { h: 0, v: 0 },
            stored_h: WriteTwice::new(0, 0x01FF),
            stored_v: WriteTwice::new(0, 0x01FF),
            stored: false,
            force_blank: true,
            brightness: 0x0F,
            overscan: false,
            hblank: true,
            vblank: true,
            oam: Oam::new(),
            vram: Vram::new(),
            cgram: Cgram::new(),
            multiplication_lhs: WriteTwice::new(0, 0xFFFF),
            multiplication_result: 0,
            cycles: 0,
            next_pixel_cycles: STANDARD_PIXEL_CYCLES,
            layers: Layers::new(),
        }
    }

    pub fn position(&self) -> (r: &Position)
        ensures
            *r == self.position,
    {
        &self.position
    }

    /// Latches the beam position into the $213C/$213D counters.
    pub fn store_position(&mut self)
        requires
            old(self).wf(),
        ensures
            final(self).wf(),
            final(self).stored,
            final(self).stored_h.spec_value() == old(self).position.h & 0x01FF,
            final(self).stored_v.spec_value() == old(self).position.v & 0x01FF,
            final(self).position == old(self).position,
            final(self).vblank == old(self).vblank,
            final(self).hblank == old(self).hblank,
            final(self).cycles == old(self).cycles,
            final(self).next_pixel_cycles == old(self).next_pixel_cycles,
            final(self).oam == old(self).oam,
            final(self).vram == old(self).vram,
            final(self).cgram == old(self).cgram,
            final(self).multiplication_lhs == old(self).multiplication_lhs,
            final(self).multiplication_result == old(self).multiplication_result,
            final(self).force_blank == old(self).force_blank,
            final(self).brightness == old(self).brightness,
            final(self).overscan == old(self).overscan,
    {
        let h = self.position.h;
        let v = self.position.v;
        self.stored_h.set_value(h);
        self.stored_v.set_value(v);
        self.stored = true;
        proof {
            crate::bits::lemma_masked_store(old(self).stored_h.spec_value(), h, 0x01FF);
            crate::bits::lemma_masked_store(old(self).stored_v.spec_value(), v, 0x01FF);
        }
    }

    /// Everything but the beam timing is the same in both.
    pub open spec fn same_ports(&self, other: &Ppu) -> bool {
        &&& self.stored_h == other.stored_h
        &&& self.stored_v == other.stored_v
        &&& self.stored == other.stored
        &&& self.force_blank == other.force_blank
        &&& self.brightness == other.brightness
        &&& self.overscan == other.overscan
        &&& self.oam == other.oam
        &&& self.vram == other.vram
        &&& self.cgram == other.cgram
        &&& self.multiplication_lhs == other.multiplication_lhs
        &&& self.multiplication_result == other.multiplication_result
    }

    /// Moves the beam one dot once enough cycles have accumulated; returns whether it moved.
    /// Dots 322 and 326 of a line take 6 cycles, the others 4; the line wraps after 340 dots,
    /// VBlank starts at line 225 (240 with overscan) and the frame wraps after 262 lines.
    pub fn next_pixel(&mut self) -> (r: bool)
        requires
            old(self).wf(),
        ensures
            final(self).wf(),
            final(self).same_ports(old(self)),
            r == (old(self).cycles >= old(self).next_pixel_cycles),
            !r ==> *final(self) == *old(self),
            r ==> final(self).cycles == old(self).cycles - old(self).next_pixel_cycles,
            r && old(self).position.h + 1 == DOTS_PER_LINE ==> final(self).position.h == 0 && (
            final(self).position.v,
            final(self).vblank,
            ) == next_line(old(self).position.v, old(self).vblank, old(self).overscan),
            r && old(self).position.h + 1 != DOTS_PER_LINE ==> final(self).position.h
                == old(self).position.h + 1 && final(self).position.v == old(self).position.v
                && final(self).vblank == old(self).vblank,
            r ==> final(self).hblank == (final(self).position.h >= HBLANK_START
                || final(self).position.h < HBLANK_END),
            r ==> final(self).next_pixel_cycles == if final(self).position.h == 322
                || final(self).position.h == 326 {
                WIDE_PIXEL_CYCLES
            } else {
                STANDARD_PIXEL_CYCLES
            },
    {
        if self.cycles < self.next_pixel_cycles {
            return false;
        }
        self.cycles = self.cycles - self.next_pixel_cycles;
        let start = if self.overscan {
            VBLANK_START_OVERSCAN
        } else {
            VBLANK_START_NORMAL
        };
        self.position.h = self.position.h + 1;
        if self.position.h == DOTS_PER_LINE {
            self.position.h = 0;
            self.position.v = self.position.v + 1;
            if self.position.v == DISPLAY_TOP || self.position.v < start {
            } else if !self.vblank {
                self.vblank = true;
            } else if self.position.v == TOTAL_SCANLINES {
                self.position.v = 0;
                self.vblank = false;
            }
        }
        self.hblank = self.position.h >= HBLANK_START || self.position.h < HBLANK_END;
        self.next_pixel_cycles = if self.position.h == 322 || self.position.h == 326 {
            WIDE_PIXEL_CYCLES
        } else {
            STANDARD_PIXEL_CYCLES
        };
        true
    }

    /// Reads $21xx at `offset` (0 to $3F); `io_port` is the value of the programmable I/O port.
    pub fn read(&mut self, offset: usize, io_port: u8) -> (r: u8)
        requires
            old(self).wf(),
        ensures
            final(self).wf(),
            final(self).position == old(self).position,
            final(self).vblank == old(self).vblank,
            final(self).hblank == old(self).hblank,
            final(self).cycles == old(self).cycles,
            final(self).next_pixel_cycles == old(self).next_pixel_cycles,
            final(self).vram.raw_data == old(self).vram.raw_data,
            final(self).cgram.colors == old(self).cgram.colors,
            offset == 0x34 ==> r == (old(self).multiplication_result & 0xFF) as u8,
            offset == 0x35 ==> r == ((old(self).multiplication_result >> 8) & 0xFF) as u8,
            offset == 0x36 ==> r == ((old(self).multiplication_result >> 16) & 0xFF) as u8,
            offset == 0x3E ==> r == CHIP_VERSION_5C77,
            offset == 0x3F ==> r == (if old(self).stored { 0x40u8 } else { 0u8 }) | CHIP_VERSION_5C78,
            offset < 0x34 ==> r == 0 && *final(self) == *old(self),
    {
        if offset == 0x34 {
            (self.multiplication_result & 0xFF) as u8
        } else if offset == 0x35 {
            ((self.multiplication_result >> 8) & 0xFF) as u8
        } else if offset == 0x36 {
            ((self.multiplication_result >> 16) & 0xFF) as u8
        } else if offset == 0x37 {
            if io_port & PPU_LATCH_BIT != 0 {
                self.store_position();
            }
            0
        } else if offset == 0x38 {
            self.oam.read()
        } else if offset == 0x39 {
            self.vram.read_low_byte()
        } else if offset == 0x3A {
            self.vram.read_high_byte()
        } else if offset == 0x3B {
            self.cgram.read()
        } else if offset == 0x3C {
            self.stored_h.read()
        } else if offset == 0x3D {
            self.stored_v.read()
        } else if offset == 0x3E {
            CHIP_VERSION_5C77
        } else if offset == 0x3F {
            let value: u8 = if self.stored { 0x40 } else { 0x00 };
            self.stored_h.reset_byte_selector();
            self.stored_v.reset_byte_selector();
            value | CHIP_VERSION_5C78
        } else {
            0
        }
    }

    /// Writes $21xx at `offset` (0 to $3F).
    pub fn write(&mut self, offset: usize, value: u8)
        requires
            old(self).wf(),
        ensures
            final(self).wf(),
            final(self).position == old(self).position,
            final(self).vblank == old(self).vblank,
            final(self).hblank == old(self).hblank,
            final(self).cycles == old(self).cycles,
            final(self).next_pixel_cycles == old(self).next_pixel_cycles,
            offset == 0x00 ==> final(self).force_blank == (value & 0x80 != 0) && final(self).brightness
                == value & 0x0F,
            offset == 0x1C ==> final(self).multiplication_result == signed_product(
                old(self).multiplication_lhs.spec_value(),
                value,
            ),
            offset == 0x33 ==> final(self).overscan == (value & 0x04 != 0),
            offset == 0x15 ==> (final(self).vram.raw_data == old(self).vram.raw_data),
            offset == 0x15 ==> (final(self).vram.address == old(self).vram.address),
            offset == 0x15 ==> (final(self).vram.read_buffer == old(self).vram.read_buffer),
            offset == 0x15 ==> (final(self).vram.remap_mode == (value & 0x0C) >> 2),
            offset == 0x15 ==> (final(self).vram.increment_on_high == (value & 0x80 != 0)),
            offset == 0x15 ==> (final(self).vram.increment_amount == (if value & 0x03 == 0 { 1u16 } else if value & 0x03 == 1 { 32u16 } else { 128u16 })),
            offset == 0x16 ==> (final(self).vram == (crate::vram::Vram { address: with_lo(old(self).vram.address, value), ..old(self).vram })),
            offset == 0x17 ==> (final(self).vram == (crate::vram::Vram { address: with_hi(old(self).vram.address, value), ..old(self).vram })),
            offset == 0x18 ==> (final(self).vram.raw_data@ == old(self).vram.raw_data@.update( mapped(old(self).vram.address, old(self).vram.remap_mode) as int, with_lo(old(self).vram.raw_data@[mapped(old(self).vram.address, old(self).vram.remap_mode) as int], value), )),
            offset == 0x18 ==> (final(self).vram.address == if old(self).vram.increment_on_high { old(self).vram.address } else { old(self).vram.next_address() }),
            offset == 0x18 ==> (final(self).vram.read_buffer == old(self).vram.read_buffer),
            offset == 0x19 ==> (final(self).vram.raw_data@ == old(self).vram.raw_data@.update( mapped(old(self).vram.address, old(self).vram.remap_mode) as int, with_hi(old(self).vram.raw_data@[mapped(old(self).vram.address, old(self).vram.remap_mode) as int], value), )),
            offset == 0x19 ==> (final(self).vram.address == if old(self).vram.increment_on_high { old(self).vram.next_address() } else { old(self).vram.address }),
            offset == 0x19 ==> (final(self).vram.read_buffer == old(self).vram.read_buffer),
            offset == 0x21 ==> (final(self).cgram.colors == old(self).cgram.colors),
            offset == 0x21 ==> (final(self).cgram.address == value as usize),
            offset == 0x21 ==> (final(self).cgram.byte_selector == ByteSelector::Lower),
            offset == 0x22 ==> (old(self).cgram.byte_selector == ByteSelector::Lower ==> final(self).cgram.colors == old(self).cgram.colors && final(self).cgram.write_buffer == value && final(self).cgram.address == old(self).cgram.address && final(self).cgram.byte_selector == ByteSelector::Upper),
            offset == 0x22 ==> (old(self).cgram.byte_selector == ByteSelector::Upper ==> final(self).cgram.colors@ == old(self).cgram.colors@.update( old(self).cgram.address as int, with_high_byte(with_low_byte(old(self).cgram.colors@[old(self).cgram.address as int], old(self).cgram.write_buffer), value), ) && final(self).cgram.address == (old(self).cgram.address + 1) % (COLOR_COUNT as int) && final(self).cgram.byte_selector == ByteSelector::Lower),
            offset == 0x02 ==> (final(self).oam.lower_table == old(self).oam.lower_table),
            offset == 0x02 ==> (final(self).oam.upper_table == old(self).oam.upper_table),
            offset == 0x02 ==> (final(self).oam.upper_selected == old(self).oam.upper_selected),
            offset == 0x02 ==> (final(self).oam.address == value as usize),
            offset == 0x02 ==> (final(self).oam.byte_selector == ByteSelector::Lower),
            offset == 0x04 ==> (old(self).oam.advanced(&final(self).oam)),
            offset == 0x04 ==> (!old(self).oam.upper_selected && old(self).oam.byte_selector == ByteSelector::Lower ==> final(self).oam.lower_table == old(self).oam.lower_table && final(self).oam.upper_table == old(self).oam.upper_table && final(self).oam.lower_table_write_buffer == value),
            offset == 0x04 ==> (!old(self).oam.upper_selected && old(self).oam.byte_selector == ByteSelector::Upper ==> final(self).oam.lower_table@ == old(self).oam.lower_table@.update(old(self).oam.address as int, join(old(self).oam.lower_table_write_buffer, value)) && final(self).oam.upper_table == old(self).oam.upper_table),
            offset == 0x04 ==> (old(self).oam.upper_selected ==> final(self).oam.lower_table == old(self).oam.lower_table && final(self).oam.upper_table@ == old(self).oam.upper_table@.update( old(self).oam.address as int % 16, match old(self).oam.byte_selector { ByteSelector::Lower => with_lo(old(self).oam.upper_table@[old(self).oam.address as int % 16], value), ByteSelector::Upper => with_hi(old(self).oam.upper_table@[old(self).oam.address as int % 16], value), }, )),
            offset == 0x03 ==> final(self).oam.upper_selected == (value & 0x01 == 0x01),
            offset != 0x02 && offset != 0x03 && offset != 0x04 ==> final(self).oam == old(self).oam,
            !(0x15 <= offset <= 0x19) ==> final(self).vram == old(self).vram,
            offset != 0x21 && offset != 0x22 ==> final(self).cgram == old(self).cgram,
    {
        if offset == 0x00 {
            self.brightness = value & 0x0F;
            self.force_blank = value & 0x80 != 0;
        } else if offset == 0x02 {
            self.oam.set_address(value);
        } else if offset == 0x03 {
            self.oam.set_table(value);
        } else if offset == 0x04 {
            self.oam.write(value);
        } else if offset == 0x15 {
            self.vram.set_port_control(value);
        } else if offset == 0x16 {
            self.vram.set_lower_address_byte(value);
        } else if offset == 0x17 {
            self.vram.set_upper_address_byte(value);
        } else if offset == 0x18 {
            self.vram.write_low_byte(value);
        } else if offset == 0x19 {
            self.vram.write_high_byte(value);
        } else if offset == 0x1B {
            self.multiplication_lhs.write(value);
        } else if offset == 0x1C {
            let lhs = (self.multiplication_lhs.value() as i16) as i32;
            let rhs = (value as i8) as i32;
            assert(-32768 * 128 <= lhs * rhs <= 32768 * 128) by (nonlinear_arith)
                requires
                    -32768 <= lhs <= 32767,
                    -128 <= rhs <= 127,
            ;
            let p = (lhs * rhs) as u32;
            self.multiplication_result = ((p & 0x80000000) >> 8) | (p & 0x007FFFFF);
        } else if offset == 0x21 {
            self.cgram.set_address(value);
        } else if offset == 0x22 {
            self.cgram.write(value);
        } else if offset == 0x33 {
            self.overscan = value & 0x04 != 0;
            self.layers.set_mode_7_ext(value & 0x40 != 0);
        } else {
            self.layers.write(offset, value);
        }
    }

    pub fn vblank(&self) -> (r: bool)
        ensures
            r == self.vblank,
    {
        self.vblank
    }

    pub fn hblank(&self) -> (r: bool)
        ensures
            r == self.hblank,
    {
        self.hblank
    }

    pub fn add_cycles(&mut self, cycles: u64)
        ensures
            *final(self) == (Ppu { cycles: old(self).cycles.saturating_add(cycles), ..*old(self) }),
    {
        self.cycles = self.cycles.saturating_add(cycles);
    }
}

} // verus!
