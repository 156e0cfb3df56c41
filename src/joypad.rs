use vstd::prelude::*;

verus! {

/// Controller ports served by automatic reading.
pub const JOYPAD_COUNT: usize = 4;

/// Button bits of a controller state word.
pub const BUTTON_B: u16 = 0x8000;
pub const BUTTON_Y: u16 = 0x4000;
pub const BUTTON_SELECT: u16 = 0x2000;
pub const BUTTON_START: u16 = 0x1000;
pub const BUTTON_UP: u16 = 0x0800;
pub const BUTTON_DOWN: u16 = 0x0400;
pub const BUTTON_LEFT: u16 = 0x0200;
pub const BUTTON_RIGHT: u16 = 0x0100;
pub const BUTTON_A: u16 = 0x0080;
pub const BUTTON_X: u16 = 0x0040;
pub const BUTTON_L: u16 = 0x0020;
pub const BUTTON_R: u16 = 0x0010;

/// Controller state and the serial (NES-style) read-out at $4016/$4017.
pub struct Joypad {
    pub button_state: [u16; 4],
    pub button_indexes: [usize; 2],
    pub latch: bool,
}

/// The two data lines of serial port `port` at bit `index` (past bit 15 both lines read 1).
pub open spec fn data_lines(state: Seq<u16>, port: int, index: usize) -> u8 {
    if index < 16 {
        let mask = (0x8000u16 >> index);
        ((if state[port + 2] & mask != 0 { 2u8 } else { 0u8 }) | (if state[port] & mask != 0 {
            1u8
        } else {
            0u8
        }))
    } else {
        0x03
    }
}

impl Joypad {
    pub fn new() -> (r: Joypad)
        ensures
            r.button_state@ == seq![0u16, 0u16, 0u16, 0u16],
            r.button_indexes@ == seq![0usize, 0usize],
            !r.latch,
    {
        Joypad { button_state: [0, 0, 0, 0], button_indexes: [0, 0], latch: false }
    }

    pub fn read_button_state(&self) -> (r: [u16; 4])
        ensures
            r@ == self.button_state@,
    {
        self.button_state
    }

    /// Presses or releases the buttons of `mask` on controller `pad`.
    pub fn set_buttons(&mut self, pad: usize, mask: u16, pressed: bool)
        requires
            pad < JOYPAD_COUNT,
        ensures
            final(self).button_state@ == old(self).button_state@.update(
                pad as int,
                if pressed {
                    old(self).button_state@[pad as int] | mask
                } else {
                    old(self).button_state@[pad as int] & !mask
                },
            ),
            final(self).button_indexes == old(self).button_indexes,
            final(self).latch == old(self).latch,
    {
        let s = self.button_state[pad];
        self.button_state[pad] = if pressed {
            s | mask
        } else {
            s & !mask
        };
    }

    fn read_data_line_state(&mut self, port: usize) -> (r: u8)
        requires
            port < 2,
        ensures
            r == data_lines(old(self).button_state@, port as int, old(self).button_indexes@[port as int]),
            final(self).button_state == old(self).button_state,
            final(self).latch == old(self).latch,
            final(self).button_indexes@ == if old(self).button_indexes@[port as int] < 16 {
                old(self).button_indexes@.update(
                    port as int,
                    (old(self).button_indexes@[port as int] + 1) as usize,
                )
            } else {
                old(self).button_indexes@
            },
    {
        let index = self.button_indexes[port];
        if index < 16 {
            let mask = 0x8000u16 >> index;
            let line_1 = (self.button_state[port] & mask) != 0;
            let line_2 = (self.button_state[port + 2] & mask) != 0;
            self.button_indexes[port] = index + 1;
            (if line_2 { 2u8 } else { 0u8 }) | (if line_1 { 1u8 } else { 0u8 })
        } else {
            0x03
        }
    }

    /// Reads $40xx at `offset`: $16 and $17 shift out the serial data lines.
    pub fn read(&mut self, offset: usize) -> (r: u8)
        ensures
            final(self).button_state == old(self).button_state,
            offset == 0x16 ==> r == data_lines(old(self).button_state@, 0, old(self).button_indexes@[0]),
            offset == 0x17 ==> r == 0x1C | data_lines(old(self).button_state@, 1, old(self).button_indexes@[1]),
            offset != 0x16 && offset != 0x17 ==> r == 0 && *final(self) == *old(self),
    {
        if offset == 0x16 {
            self.read_data_line_state(0)
        } else if offset == 0x17 {
            0x1C | self.read_data_line_state(1)
        } else {
            0x00
        }
    }

    /// Writes $40xx at `offset`: a rising edge of bit 0 at $16 restarts the serial read-out.
    pub fn write(&mut self, offset: usize, value: u8)
        ensures
            final(self).button_state == old(self).button_state,
            offset == 0x16 ==> final(self).latch == (value & 0x01 != 0) && (final(self).latch
                && !old(self).latch ==> final(self).button_indexes@ == seq![0usize, 0usize]) && (!(
            final(self).latch && !old(self).latch) ==> final(self).button_indexes
                == old(self).button_indexes),
            offset != 0x16 ==> *final(self) == *old(self),
    {
        if offset == 0x16 {
            let old_latch = self.latch;
            self.latch = value & 0x01 != 0;
            if self.latch && !old_latch {
                self.button_indexes[0] = 0;
                self.button_indexes[1] = 0;
                assert(self.button_indexes@ =~= seq![0usize, 0usize]);
            }
        }
    }
}

} // verus!
