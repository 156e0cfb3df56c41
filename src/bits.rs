use vstd::prelude::*;

verus! {

/// Low byte of a 16-bit word.
pub open spec fn lo(w: u16) -> u8 {
    (w & 0xFF) as u8
}

/// High byte of a 16-bit word.
pub open spec fn hi(w: u16) -> u8 {
    (w >> 8) as u8
}

/// The word with its low byte replaced.
pub open spec fn with_lo(w: u16, v: u8) -> u16 {
    (w & 0xFF00) | (v as u16)
}

/// The word with its high byte replaced.
pub open spec fn with_hi(w: u16, v: u8) -> u16 {
    (w & 0x00FF) | ((v as u16) << 8)
}

/// The word made of a low and a high byte.
pub open spec fn join(l: u8, h: u8) -> u16 {
    ((h as u16) << 8) | (l as u16)
}

pub fn lower(w: u16) -> (r: u8)
    ensures
        r == lo(w),
{
    (w & 0xFF) as u8
}

pub fn upper(w: u16) -> (r: u8)
    ensures
        r == hi(w),
{
    (w >> 8) as u8
}

pub fn set_lower(w: u16, v: u8) -> (r: u16)
    ensures
        r == with_lo(w, v),
{
    (w & 0xFF00) | (v as u16)
}

pub fn set_upper(w: u16, v: u8) -> (r: u16)
    ensures
        r == with_hi(w, v),
{
    (w & 0x00FF) | ((v as u16) << 8)
}

pub fn join_bytes(l: u8, h: u8) -> (r: u16)
    ensures
        r == join(l, h),
{
    ((h as u16) << 8) | (l as u16)
}

/// Joining the two bytes of a word gives the word back.
pub proof fn lemma_join_bytes(w: u16)
    ensures
        join(lo(w), hi(w)) == w,
{
    assert(((((w >> 8) as u8) as u16) << 8) | (((w & 0xFF) as u8) as u16) == w) by (bit_vector);
}

/// Storing both bytes of a word through a mask stores the masked word.
pub proof fn lemma_masked_store(x: u16, v: u16, m: u16)
    ensures
        with_hi(with_lo(x, lo(v) & lo(m)), hi(v) & hi(m)) == v & m,
{
    assert((((x & 0xFF00) | ((((v & 0xFF) as u8) & ((m & 0xFF) as u8)) as u16)) & 0x00FF) | (((((
    v >> 8) as u8) & ((m >> 8) as u8)) as u16) << 8) == v & m) by (bit_vector);
}

/// Which half of a word a two-step port touches next.
#[derive(Copy, Clone, Debug, PartialEq, Eq, Structural)]
pub enum ByteSelector {
    Lower,
    Upper,
}

/// A 16-bit register that is written (or read) one byte at a time, low byte first.
pub struct WriteTwice {
    value: u16,
    write_mask: u16,
    byte_selector: ByteSelector,
}

/// The same register seen from the reading side.
pub type ReadTwice = WriteTwice;

impl WriteTwice {
    pub closed spec fn spec_value(&self) -> u16 {
        self.value
    }

    pub closed spec fn spec_mask(&self) -> u16 {
        self.write_mask
    }

    pub closed spec fn spec_selector(&self) -> ByteSelector {
        self.byte_selector
    }

    pub fn new(initial_value: u16, write_mask: u16) -> (r: WriteTwice)
        ensures
            r.spec_value() == initial_value,
            r.spec_mask() == write_mask,
            r.spec_selector() == ByteSelector::Lower,
    {
        WriteTwice { value: initial_value, write_mask, byte_selector: ByteSelector::Lower }
    }

    pub fn value(&self) -> (r: u16)
        ensures
            r == self.spec_value(),
    {
        self.value
    }

    /// Stores the bits of `value` that the write mask lets through.
    pub fn set_value(&mut self, value: u16)
        ensures
            final(self).spec_value() == with_hi(
                with_lo(old(self).spec_value(), lo(value) & lo(old(self).spec_mask())),
                hi(value) & hi(old(self).spec_mask()),
            ),
            final(self).spec_mask() == old(self).spec_mask(),
            final(self).spec_selector() == old(self).spec_selector(),
    {
        let l = lower(value) & lower(self.write_mask);
        let h = upper(value) & upper(self.write_mask);
        self.value = set_lower(self.value, l);
        self.value = set_upper(self.value, h);
    }

    pub fn reset_byte_selector(&mut self)
        ensures
            final(self).spec_value() == old(self).spec_value(),
            final(self).spec_mask() == old(self).spec_mask(),
            final(self).spec_selector() == ByteSelector::Lower,
    {
        self.byte_selector = ByteSelector::Lower;
    }

    /// Writes the low byte, then the high byte on the next call, and so on.
    pub fn write(&mut self, value: u8)
        ensures
            final(self).spec_mask() == old(self).spec_mask(),
            old(self).spec_selector() == ByteSelector::Lower ==> final(self).spec_value() == with_lo(
                old(self).spec_value(),
                value & lo(old(self).spec_mask()),
            ) && final(self).spec_selector() == ByteSelector::Upper,
            old(self).spec_selector() == ByteSelector::Upper ==> final(self).spec_value() == with_hi(
                old(self).spec_value(),
                value & hi(old(self).spec_mask()),
            ) && final(self).spec_selector() == ByteSelector::Lower,
    {
        match self.byte_selector {
            ByteSelector::Lower => {
                self.byte_selector = ByteSelector::Upper;
                self.value = set_lower(self.value, value & lower(self.write_mask));
            },
            ByteSelector::Upper => {
                self.byte_selector = ByteSelector::Lower;
                self.value = set_upper(self.value, value & upper(self.write_mask));
            },
        }
    }

    /// Reads the low byte, then the high byte on the next call, and so on.
    pub fn read(&mut self) -> (r: u8)
        ensures
            final(self).spec_value() == old(self).spec_value(),
            final(self).spec_mask() == old(self).spec_mask(),
            old(self).spec_selector() == ByteSelector::Lower ==> r == lo(old(self).spec_value())
                && final(self).spec_selector() == ByteSelector::Upper,
            old(self).spec_selector() == ByteSelector::Upper ==> r == hi(old(self).spec_value())
                && final(self).spec_selector() == ByteSelector::Lower,
    {
        match self.byte_selector {
            ByteSelector::Lower => {
                self.byte_selector = ByteSelector::Upper;
                lower(self.value)
            },
            ByteSelector::Upper => {
                self.byte_selector = ByteSelector::Lower;
                upper(self.value)
            },
        }
    }
}

} // verus!
