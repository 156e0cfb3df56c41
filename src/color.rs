use vstd::prelude::*;
use crate::bits::{hi, lo, lower, upper};

verus! {

/// A 15-bit BGR colour, five bits per channel.
#[derive(Copy, Clone, Debug, PartialEq, Eq, Structural)]
pub struct Color {
    pub red: u8,
    pub green: u8,
    pub blue: u8,
}

/// The colour packed into a word: blue in bits 10-14, green in 5-9, red in 0-4.
pub open spec fn packed(c: Color) -> u16 {
    ((c.blue as u16) << 10) | ((c.green as u16) << 5) | (c.red as u16)
}

/// The colour after its low packed byte is written.
pub open spec fn with_low_byte(c: Color, value: u8) -> Color {
    Color { red: value & 0x1F, green: (c.green & 0x18) | ((value & 0xE0) >> 5), blue: c.blue }
}

/// The colour after its high packed byte is written.
pub open spec fn with_high_byte(c: Color, value: u8) -> Color {
    Color { red: c.red, green: ((value & 0x03) << 3) | (c.green & 0x07), blue: (value & 0x7C) >> 2 }
}

impl Color {
    pub open spec fn valid(&self) -> bool {
        self.red < 32 && self.green < 32 && self.blue < 32
    }

    pub fn new(red: u8, green: u8, blue: u8) -> (r: Color)
        ensures
            r == (Color { red, green, blue }),
    {
        Color { red, green, blue }
    }

    pub fn red(&self) -> (r: u8)
        ensures
            r == self.red,
    {
        self.red
    }

    pub fn set_red(&mut self, intensity: u8)
        ensures
            *final(self) == (Color { red: intensity, ..*old(self) }),
    {
        self.red = intensity;
    }

    pub fn green(&self) -> (r: u8)
        ensures
            r == self.green,
    {
        self.green
    }

    pub fn set_green(&mut self, intensity: u8)
        ensures
            *final(self) == (Color { green: intensity, ..*old(self) }),
    {
        self.green = intensity;
    }

    pub fn blue(&self) -> (r: u8)
        ensures
            r == self.blue,
    {
        self.blue
    }

    pub fn set_blue(&mut self, intensity: u8)
        ensures
            *final(self) == (Color { blue: intensity, ..*old(self) }),
    {
        self.blue = intensity;
    }

    /// Unpacks a BGR15 word; bit 15 is ignored.
    pub fn from_word(value: u16) -> (r: Color)
        ensures
            r.red == (value & 0x001F) as u8,
            r.green == ((value & 0x03E0) >> 5) as u8,
            r.blue == ((value & 0x7C00) >> 10) as u8,
            r.valid(),
    {
        assert((value & 0x001F) < 32 && ((value & 0x03E0) >> 5) < 32 && ((value & 0x7C00) >> 10) < 32)
            by (bit_vector);
        Color {
            red: (value & 0x001F) as u8,
            green: ((value & 0x03E0) >> 5) as u8,
            blue: ((value & 0x7C00) >> 10) as u8,
        }
    }

    pub fn to_word(&self) -> (r: u16)
        ensures
            r == packed(*self),
    {
        ((self.blue as u16) << 10) | ((self.green as u16) << 5) | (self.red as u16)
    }

    /// Low byte of the packed colour.
    pub fn lower(&self) -> (r: u8)
        ensures
            r == lo(packed(*self)),
    {
        lower(self.to_word())
    }

    /// High byte of the packed colour.
    pub fn upper(&self) -> (r: u8)
        ensures
            r == hi(packed(*self)),
    {
        upper(self.to_word())
    }

    /// Replaces red and the low three bits of green from a low byte.
    pub fn set_lower(&mut self, value: u8)
        ensures
            *final(self) == with_low_byte(*old(self), value),
    {
        self.red = value & 0x1F;
        self.green = (self.green & 0x18) | ((value & 0xE0) >> 5);
    }

    /// Replaces blue and the high two bits of green from a high byte.
    pub fn set_upper(&mut self, value: u8)
        ensures
            *final(self) == with_high_byte(*old(self), value),
    {
        self.blue = (value & 0x7C) >> 2;
        self.green = ((value & 0x03) << 3) | (self.green & 0x07);
    }
}

} // verus!
