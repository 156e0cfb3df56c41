use vstd::prelude::*;
use crate::bits::ByteSelector;
use crate::color::{Color, with_high_byte, with_low_byte, packed};
use crate::bits::{lo, hi};

verus! {

/// Entries of the palette.
pub const COLOR_COUNT: usize = 256;

/// Palette memory behind $2121 (address), $2122 (data) and $213B (read).
pub struct Cgram {
    pub colors: Vec<Color>,
    pub address: usize,
    pub write_buffer: u8,
    pub byte_selector: ByteSelector,
}

impl Cgram {
    pub open spec fn wf(&self) -> bool {
        self.colors@.len() == COLOR_COUNT && self.address < COLOR_COUNT
    }

    pub fn new() -> (r: Cgram)
        ensures
            r.wf(),
            r.address == 0,
            r.byte_selector == ByteSelector::Lower,
            forall|i: int| 0 <= i < COLOR_COUNT ==> r.colors@[i] == (Color { red: 0, green: 0, blue: 0 }),
    {
        let black = Color { red: 0, green: 0, blue: 0 };
        Cgram { colors: vec![black; COLOR_COUNT], address: 0, write_buffer: 0, byte_selector: ByteSelector::Lower }
    }

    pub fn set_address(&mut self, value: u8)
        requires
            old(self).wf(),
        ensures
            final(self).wf(),
            final(self).colors == old(self).colors,
            final(self).address == value as usize,
            final(self).byte_selector == ByteSelector::Lower,
    {
        self.address = value as usize;
        self.byte_selector = ByteSelector::Lower;
    }

    /// Reads the low byte of the addressed colour, then its high byte, then moves on.
    pub fn read(&mut self) -> (r: u8)
        requires
            old(self).wf(),
        ensures
            final(self).wf(),
            final(self).colors == old(self).colors,
            old(self).byte_selector == ByteSelector::Lower ==> r == lo(packed(old(self).colors@[old(self).address as int]))
                && final(self).address == old(self).address && final(self).byte_selector == ByteSelector::Upper,
            old(self).byte_selector == ByteSelector::Upper ==> r == hi(packed(old(self).colors@[old(self).address as int]))
                && final(self).address == (old(self).address + 1) % (COLOR_COUNT as int)
                && final(self).byte_selector == ByteSelector::Lower,
    {
        match self.byte_selector {
            ByteSelector::Lower => {
                self.byte_selector = ByteSelector::Upper;
                self.colors[self.address].lower()
            },
            ByteSelector::Upper => {
                self.byte_selector = ByteSelector::Lower;
                let value = self.colors[self.address].upper();
                self.address = (self.address + 1) % COLOR_COUNT;
                value
            },
        }
    }

    /// The first byte is held back; the second stores both into the addressed colour.
    pub fn write(&mut self, value: u8)
        requires
            old(self).wf(),
        ensures
            final(self).wf(),
            old(self).byte_selector == ByteSelector::Lower ==> final(self).colors == old(self).colors
                && final(self).write_buffer == value && final(self).address == old(self).address
                && final(self).byte_selector == ByteSelector::Upper,
            old(self).byte_selector == ByteSelector::Upper ==> final(self).colors@ == old(self).colors@.update(
                old(self).address as int,
                with_high_byte(with_low_byte(old(self).colors@[old(self).address as int], old(self).write_buffer), value),
            ) && final(self).address == (old(self).address + 1) % (COLOR_COUNT as int)
                && final(self).byte_selector == ByteSelector::Lower,
    {
        match self.byte_selector {
            ByteSelector::Lower => {
                self.byte_selector = ByteSelector::Upper;
                self.write_buffer = value;
            },
            ByteSelector::Upper => {
                self.byte_selector = ByteSelector::Lower;
                let mut color = self.colors[self.address];
                color.set_lower(self.write_buffer);
                color.set_upper(value);
                self.colors.set(self.address, color);
                self.address = (self.address + 1) % COLOR_COUNT;
            },
        }
    }

    pub fn color(&self, index: usize) -> (r: Color)
        requires
            self.wf(),
            index < COLOR_COUNT,
        ensures
            r == self.colors@[index as int],
    {
        self.colors[index]
    }
}

} // verus!
