use vstd::prelude::*;

verus! {

/// The four sound-processor ports seen from the CPU, answering the boot handshake.
pub struct Apu {
    pub ports: [u8; 4],
    pub transfer_started: bool,
}

impl Apu {
    pub fn new() -> (r: Apu)
        ensures
            r.ports@ == seq![0xAAu8, 0x00u8, 0x00u8, 0x00u8],
            !r.transfer_started,
    {
        Apu { ports: [0xAA, 0x00, 0x00, 0x00], transfer_started: false }
    }

    /// Reads port `offset & 3`; port 1 always answers $BB.
    pub fn read(&self, offset: usize) -> (r: u8)
        ensures
            offset % 4 == 1 ==> r == 0xBB,
            offset % 4 != 1 ==> r == self.ports@[(offset % 4) as int],
    {
        let i = offset % 4;
        if i == 1 {
            0xBB
        } else {
            self.ports[i]
        }
    }

    /// Writes port `offset & 3`. Port 0 follows the upload handshake: $CC with port 1
    /// non-zero starts a transfer, a write that breaks the sequence ends it, and $00
    /// outside a transfer resets the port to $AA.
    pub fn write(&mut self, offset: usize, value: u8)
        ensures
            offset % 4 != 0 ==> final(self).ports@ == old(self).ports@.update((offset % 4) as int, value)
                && final(self).transfer_started == old(self).transfer_started,
            offset % 4 == 0 && old(self).transfer_started ==> final(self).ports@ == old(
                self,
            ).ports@.update(0, value) && final(self).transfer_started == (value == 0 || value as int
                == old(self).ports@[0] + 1 || old(self).ports@[1] != 0),
            offset % 4 == 0 && !old(self).transfer_started && value == 0xCC && old(self).ports@[1]
                != 0 ==> final(self).ports@ == old(self).ports@.update(0, value)
                && final(self).transfer_started,
            offset % 4 == 0 && !old(self).transfer_started && !(value == 0xCC && old(self).ports@[1]
                != 0) ==> final(self).ports@ == (if value == 0 {
                old(self).ports@.update(0, 0xAA)
            } else {
                old(self).ports@
            }) && !final(self).transfer_started,
    {
        let i = offset % 4;
        if i == 0 {
            if self.transfer_started {
                let next = self.ports[0] as u16 + 1;
                if !(value == 0 || value as u16 == next || self.ports[1] != 0) {
                    self.transfer_started = false;
                }
                self.ports[0] = value;
            } else if value == 0xCC && self.ports[1] != 0 {
                self.transfer_started = true;
                self.ports[0] = value;
            } else if value == 0x00 {
                self.ports[0] = 0xAA;
            }
        } else {
            self.ports[i] = value;
        }
    }
}

} // verus!
