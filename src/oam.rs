use vstd::prelude::*;
use crate::bits::{ByteSelector, lo, hi, with_lo, with_hi, join, lower, upper, set_lower, set_upper, join_bytes};

verus! {

/// Words in the main object table.
pub const LOWER_TABLE_SIZE: usize = 256;

/// Words in the auxiliary object table.
pub const UPPER_TABLE_SIZE: usize = 16;

/// Object attribute memory behind $2102-$2104 and $2138.
pub struct Oam {
    pub lower_table: Vec<u16>,
    pub upper_table: Vec<u16>,
    pub address: usize,
    pub lower_table_write_buffer: u8,
    pub upper_selected: bool,
    pub byte_selector: ByteSelector,
}

/// The byte a selector picks out of a word.
pub open spec fn byte_of(w: u16, s: ByteSelector) -> u8 {
    match s {
        ByteSelector::Lower => lo(w),
        ByteSelector::Upper => hi(w),
    }
}

impl Oam {
    pub open spec fn wf(&self) -> bool {
        self.lower_table@.len() == LOWER_TABLE_SIZE && self.upper_table@.len() == UPPER_TABLE_SIZE
            && self.address < LOWER_TABLE_SIZE
    }

    /// The cursor moved past one byte: after the high byte the word address advances, and
    /// past the end of the main table the other table is selected.
    pub open spec fn advanced(&self, next: &Oam) -> bool {
        match self.byte_selector {
            ByteSelector::Lower => next.byte_selector == ByteSelector::Upper && next.address == self.address
                && next.upper_selected == self.upper_selected,
            ByteSelector::Upper => next.byte_selector == ByteSelector::Lower && if self.address + 1
                == LOWER_TABLE_SIZE {
                next.address == 0 && next.upper_selected == !self.upper_selected
            } else {
                next.address == self.address + 1 && next.upper_selected == self.upper_selected
            },
        }
    }

    pub fn new() -> (r: Oam)
        ensures
            r.wf(),
            r.address == 0,
            !r.upper_selected,
            r.byte_selector == ByteSelector::Lower,
    {
        Oam {
            lower_table: vec![0u16; LOWER_TABLE_SIZE],
            upper_table: vec![0u16; UPPER_TABLE_SIZE],
            address: 0,
            lower_table_write_buffer: 0,
            upper_selected: false,
            byte_selector: ByteSelector::Lower,
        }
    }

    pub fn set_address(&mut self, value: u8)
        requires
            old(self).wf(),
        ensures
            final(self).wf(),
            final(self).lower_table == old(self).lower_table,
            final(self).upper_table == old(self).upper_table,
            final(self).upper_selected == old(self).upper_selected,
            final(self).address == value as usize,
            final(self).byte_selector == ByteSelector::Lower,
    {
        self.address = value as usize;
        self.byte_selector = ByteSelector::Lower;
    }

    /// Bit 0 selects the auxiliary table.
    pub fn set_table(&mut self, value: u8)
        requires
            old(self).wf(),
        ensures
            final(self).wf(),
            final(self).lower_table == old(self).lower_table,
            final(self).upper_table == old(self).upper_table,
            final(self).address == old(self).address,
            final(self).byte_selector == old(self).byte_selector,
            final(self).upper_selected == (value & 0x01 == 0x01),
    {
        self.upper_selected = value & 0x01 == 0x01;
    }

    fn increment_address(&mut self)
        requires
            old(self).wf(),
        ensures
            final(self).wf(),
            old(self).advanced(final(self)),
            final(self).lower_table == old(self).lower_table,
            final(self).upper_table == old(self).upper_table,
            final(self).lower_table_write_buffer == old(self).lower_table_write_buffer,
    {
        match self.byte_selector {
            ByteSelector::Lower => {
                self.byte_selector = ByteSelector::Upper;
            },
            ByteSelector::Upper => {
                self.byte_selector = ByteSelector::Lower;
                self.address = self.address + 1;
                if self.address == LOWER_TABLE_SIZE {
                    self.address = 0;
                    self.upper_selected = !self.upper_selected;
                }
            },
        }
    }

    pub fn read(&mut self) -> (r: u8)
        requires
            old(self).wf(),
        ensures
            final(self).wf(),
            old(self).advanced(final(self)),
            final(self).lower_table == old(self).lower_table,
            final(self).upper_table == old(self).upper_table,
            r == byte_of(
                if old(self).upper_selected {
                    old(self).upper_table@[old(self).address as int % 16]
                } else {
                    old(self).lower_table@[old(self).address as int]
                },
                old(self).byte_selector,
            ),
    {
        let word = if self.upper_selected {
            self.upper_table[self.address % UPPER_TABLE_SIZE]
        } else {
            self.lower_table[self.address]
        };
        let value = match self.byte_selector {
            ByteSelector::Lower => lower(word),
            ByteSelector::Upper => upper(word),
        };
        self.increment_address();
        value
    }

    /// Writes a byte. A main-table word is stored only when its high byte arrives, together
    /// with the low byte held back; auxiliary-table bytes are stored at once.
    pub fn write(&mut self, value: u8)
        requires
            old(self).wf(),
        ensures
            final(self).wf(),
            old(self).advanced(final(self)),
            !old(self).upper_selected && old(self).byte_selector == ByteSelector::Lower ==> final(self).lower_table
                == old(self).lower_table && final(self).upper_table == old(self).upper_table
                && final(self).lower_table_write_buffer == value,
            !old(self).upper_selected && old(self).byte_selector == ByteSelector::Upper ==> final(self).lower_table@
                == old(self).lower_table@.update(old(self).address as int, join(old(self).lower_table_write_buffer, value))
                && final(self).upper_table == old(self).upper_table,
            old(self).upper_selected ==> final(self).lower_table == old(self).lower_table
                && final(self).upper_table@ == old(self).upper_table@.update(
                old(self).address as int % 16,
                match old(self).byte_selector {
                    ByteSelector::Lower => with_lo(old(self).upper_table@[old(self).address as int % 16], value),
                    ByteSelector::Upper => with_hi(old(self).upper_table@[old(self).address as int % 16], value),
                },
            ),
    {
        if !self.upper_selected {
            match self.byte_selector {
                ByteSelector::Lower => self.lower_table_write_buffer = value,
                ByteSelector::Upper => {
                    let w = join_bytes(self.lower_table_write_buffer, value);
                    self.lower_table.set(self.address, w);
                },
            }
        } else {
            let i = self.address % UPPER_TABLE_SIZE;
            let w = self.upper_table[i];
            let nw = match self.byte_selector {
                ByteSelector::Lower => set_lower(w, value),
                ByteSelector::Upper => set_upper(w, value),
            };
            self.upper_table.set(i, nw);
        }
        self.increment_address();
    }
}

} // verus!
