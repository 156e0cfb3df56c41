use vstd::prelude::*;

verus! {

/// Bytes of work RAM.
pub const WRAM_SIZE: usize = 131072;

/// The work RAM contents.
pub struct WramData(pub Vec<u8>);

/// Work RAM with its auto-incrementing access port ($2180-$2183).
pub struct Wram {
    pub data: WramData,
    pub address: usize,
}

impl Wram {
    pub open spec fn wf(&self) -> bool {
        self.data.0@.len() == WRAM_SIZE && self.address < WRAM_SIZE
    }

    pub fn new() -> (r: Wram)
        ensures
            r.wf(),
            r.address == 0,
            forall|i: int| 0 <= i < WRAM_SIZE ==> r.data.0@[i] == 0u8,
    {
        Wram { data: WramData(vec![0u8; WRAM_SIZE]), address: 0 }
    }

    pub fn data(&mut self) -> (r: &mut WramData)
        ensures
            *r == old(self).data,
            final(self).data == *final(r),
            final(self).address == old(self).address,
    {
        &mut self.data
    }

    /// Reads the port at `offset` (0 is the data port); the data port advances the cursor.
    pub fn read(&mut self, offset: usize) -> (r: u8)
        requires
            old(self).wf(),
        ensures
            final(self).wf(),
            final(self).data == old(self).data,
            offset == 0 ==> r == old(self).data.0@[old(self).address as int] && final(self).address
                == (old(self).address + 1) % (WRAM_SIZE as int),
            offset != 0 ==> r == 0 && final(self).address == old(self).address,
    {
        if offset == 0 {
            let value = self.data.0[self.address];
            self.address = (self.address + 1) % WRAM_SIZE;
            value
        } else {
            0
        }
    }

    /// Writes the port at `offset`: 0 stores at the cursor and advances it, 1 to 3 set
    /// bytes 0, 1 and bit 16 of the cursor.
    pub fn write(&mut self, offset: usize, value: u8)
        requires
            old(self).wf(),
        ensures
            final(self).wf(),
            offset == 0 ==> final(self).data.0@ == old(self).data.0@.update(
                old(self).address as int,
                value,
            ) && final(self).address == (old(self).address + 1) % (WRAM_SIZE as int),
            offset == 1 ==> final(self).data == old(self).data && final(self).address == (old(
                self,
            ).address & 0x1FF00) | (value as usize),
            offset == 2 ==> final(self).data == old(self).data && final(self).address == (old(
                self,
            ).address & 0x100FF) | ((value as usize) << 8),
            offset == 3 ==> final(self).data == old(self).data && final(self).address == (old(
                self,
            ).address & 0x0FFFF) | (((value & 0x01) as usize) << 16),
            offset > 3 ==> final(self).data == old(self).data && final(self).address == old(
                self,
            ).address,
    {
        let a = self.address;
        if offset == 0 {
            self.data.0.set(a, value);
            self.address = (a + 1) % WRAM_SIZE;
        } else if offset == 1 {
            assert(((a & 0x1FF00) | (value as usize)) < 131072) by (bit_vector)
                requires
                    a < 131072,
            ;
            self.address = (a & 0x1FF00) | (value as usize);
        } else if offset == 2 {
            assert(((a & 0x100FF) | ((value as usize) << 8)) < 131072) by (bit_vector)
                requires
                    a < 131072,
            ;
            self.address = (a & 0x100FF) | ((value as usize) << 8);
        } else if offset == 3 {
            assert(((a & 0x0FFFF) | (((value & 0x01) as usize) << 16)) < 131072) by (bit_vector);
            self.address = (a & 0x0FFFF) | (((value & 0x01) as usize) << 16);
        }
    }
}

} // verus!
