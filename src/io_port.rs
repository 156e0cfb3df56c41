use vstd::prelude::*;

verus! {

/// Bit of the programmable I/O port whose falling edge latches the PPU counters.
pub const PPU_LATCH_BIT: u8 = 0x80;

/// The programmable I/O port ($4201 written, $4213 read).
pub struct IoPort {
    pub value: u8,
    pub triggered: bool,
}

impl IoPort {
    pub fn new() -> (r: IoPort)
        ensures
            r.value == 0xC0,
            !r.triggered,
    {
        IoPort { value: 0xC0, triggered: false }
    }

    pub fn value(&self) -> (r: u8)
        ensures
            r == self.value,
    {
        self.value
    }

    /// Stores the value; a high-to-low edge of the latch bit raises the trigger.
    pub fn set_value(&mut self, value: u8)
        ensures
            final(self).value == value,
            final(self).triggered == (old(self).triggered || (old(self).value & PPU_LATCH_BIT != 0
                && value & PPU_LATCH_BIT == 0)),
    {
        let old_value = self.value;
        self.value = value;
        if (old_value & PPU_LATCH_BIT) != 0 && (value & PPU_LATCH_BIT) == 0 {
            self.triggered = true;
        }
    }

    pub fn triggered(&self) -> (r: bool)
        ensures
            r == self.triggered,
    {
        self.triggered
    }

    pub fn reset_trigger(&mut self)
        ensures
            final(self).value == old(self).value,
            !final(self).triggered,
    {
        self.triggered = false;
    }
}

} // verus!
