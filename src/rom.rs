use vstd::prelude::*;

verus! {

/// Bytes of the copier header that some images carry in front of the ROM.
pub const SMC_HEADER_SIZE: usize = 512;

/// How the cartridge maps its ROM into the bus.
#[derive(Copy, Clone, Debug, PartialEq, Eq, Structural)]
pub enum RomMode {
    LoRom,
    HiRom,
}

/// Why a cartridge image was refused.
#[derive(Copy, Clone, Debug, PartialEq, Eq, Structural)]
pub enum RomError {
    /// The image size modulo 1024 is neither 0 nor 512; the remainder is given.
    InvalidSmcHeader(usize),
    /// Neither candidate header scored above zero.
    NoValidHeader,
}

/// Read-only cartridge ROM.
pub struct DataBus(pub Vec<u8>);

/// Battery-backed cartridge RAM.
pub struct SramBus(pub Vec<u8>);

/// A cartridge: its mapping mode, ROM and SRAM.
pub struct Rom {
    pub mode: RomMode,
    pub data: DataBus,
    pub sram: SramBus,
}

/// Where a candidate header starts in the ROM.
pub open spec fn header_base(mode: RomMode) -> int {
    match mode {
        RomMode::LoRom => 0x7F00,
        RomMode::HiRom => 0xFF00,
    }
}

pub open spec fn has_header(d: Seq<u8>, mode: RomMode) -> bool {
    d.len() >= header_base(mode) + 0x100
}

/// Byte `i` of the candidate header.
pub open spec fn hb(d: Seq<u8>, mode: RomMode, i: int) -> u8 {
    d[header_base(mode) + i]
}

pub open spec fn printable(b: u8) -> bool {
    0x20 <= b && b <= 0x7E
}

pub open spec fn title_valid(d: Seq<u8>, mode: RomMode) -> bool {
    forall|i: int| 0xC0 <= i < 0xD5 ==> printable(#[trigger] hb(d, mode, i))
}

pub open spec fn reset_vector_valid(d: Seq<u8>, mode: RomMode) -> bool {
    hb(d, mode, 0xFD) >= 0x80 && hb(d, mode, 0xFD) != 0xFF
}

/// The ROM size the header reports, 1 KiB shifted left by its size code.
pub open spec fn reported_size_matches(d: Seq<u8>, mode: RomMode) -> bool {
    hb(d, mode, 0xD7) < 48 && (0x400u64 << hb(d, mode, 0xD7)) as int == d.len()
}

pub open spec fn point(b: bool) -> nat {
    if b { 1 } else { 0 }
}

/// The score of a candidate header: a valid reset vector is required, then one point each
/// for it, a matching mode bit, a printable title and a matching reported size.
pub open spec fn header_score(d: Seq<u8>, mode: RomMode) -> nat {
    if !has_header(d, mode) || !reset_vector_valid(d, mode) {
        0
    } else {
        1 + point((hb(d, mode, 0xD5) & 0x01 == 1) == (mode == RomMode::HiRom)) + point(
            title_valid(d, mode),
        ) + point(reported_size_matches(d, mode))
    }
}

/// The image with a copier header removed, when its size says there is one.
pub open spec fn stripped(image: Seq<u8>) -> Seq<u8> {
    if image.len() % 1024 == 512 {
        image.subrange(512, image.len() as int)
    } else {
        image
    }
}

/// The mode of the winning header; ties go to HiROM.
pub open spec fn chosen_mode(d: Seq<u8>) -> RomMode {
    if header_score(d, RomMode::HiRom) >= header_score(d, RomMode::LoRom) {
        RomMode::HiRom
    } else {
        RomMode::LoRom
    }
}

/// SRAM bytes that the chosen header asks for; size codes above 15 are taken as none.
pub open spec fn sram_size(d: Seq<u8>, mode: RomMode) -> int {
    let kind = hb(d, mode, 0xD6) & 0x0F;
    if (kind == 1 || kind == 2) && hb(d, mode, 0xD8) < 16 {
        (0x400usize << hb(d, mode, 0xD8)) as int
    } else {
        0
    }
}

fn title_is_printable(d: &Vec<u8>, mode: RomMode, base: usize) -> (r: bool)
    requires
        base + 0x100 <= d@.len(),
        base as int == header_base(mode),
    ensures
        r == title_valid(d@, mode),
{
    let n = d.len();
    let mut i: usize = 0xC0;
    while i < 0xD5
        invariant
            0xC0 <= i <= 0xD5,
            n == d@.len(),
            base + 0x100 <= n,
            base as int == header_base(mode),
            forall|j: int| 0xC0 <= j < i ==> printable(#[trigger] hb(d@, mode, j)),
        decreases 0xD5 - i,
    {
        let b = d[base + i];
        if b < 0x20 || b > 0x7E {
            assert(!printable(hb(d@, mode, i as int)));
            return false;
        }
        i = i + 1;
    }
    true
}

/// Scores the candidate header of `mode` in the ROM data.
pub fn score_header(d: &Vec<u8>, mode: RomMode) -> (r: u32)
    ensures
        r as nat == header_score(d@, mode),
{
    let base: usize = match mode {
        RomMode::LoRom => 0x7F00,
        RomMode::HiRom => 0xFF00,
    };
    if d.len() < base + 0x100 {
        return 0;
    }
    let reset = d[base + 0xFD];
    if !(reset >= 0x80 && reset != 0xFF) {
        return 0;
    }
    let mut score: u32 = 1;
    let hi_bit = d[base + 0xD5] & 0x01 == 1;
    if hi_bit == (mode == RomMode::HiRom) {
        score = score + 1;
    }
    let title = title_is_printable(d, mode, base);
    if title {
        score = score + 1;
    }
    let code = d[base + 0xD7];
    if code < 48 && (0x400u64 << code) == d.len() as u64 {
        score = score + 1;
    }
    score
}

impl Rom {
    /// Builds a cartridge from an image: a 512-byte copier header is stripped when the size
    /// modulo 1024 is 512, the higher-scoring header (ties to HiROM) picks the mode, and the
    /// SRAM is sized from that header.
    pub fn from_image(image: Vec<u8>) -> (r: Result<Rom, RomError>)
        ensures
            image@.len() % 1024 != 0 && image@.len() % 1024 != 512 <==> r == Err::<Rom, RomError>(
                RomError::InvalidSmcHeader((image@.len() % 1024) as usize),
            ),
            (image@.len() % 1024 == 0 || image@.len() % 1024 == 512) ==> (match r {
                Err(e) => e == RomError::NoValidHeader && header_score(
                    stripped(image@),
                    chosen_mode(stripped(image@)),
                ) == 0,
                Ok(rom) => header_score(stripped(image@), chosen_mode(stripped(image@))) > 0
                    && rom.mode == chosen_mode(stripped(image@)) && rom.data.0@ == stripped(image@)
                    && rom.sram.0@.len() == sram_size(stripped(image@), rom.mode)
                    && forall|i: int| 0 <= i < rom.sram.0@.len() ==> rom.sram.0@[i] == 0u8,
            }),
    {
        let rem = image.len() % 1024;
        if rem != 0 && rem != SMC_HEADER_SIZE {
            return Err(RomError::InvalidSmcHeader(rem));
        }
        let mut data = image;
        if rem == SMC_HEADER_SIZE {
            data = split_tail(data, SMC_HEADER_SIZE);
        }
        let lo = score_header(&data, RomMode::LoRom);
        let hi = score_header(&data, RomMode::HiRom);
        let (mode, score) = if hi >= lo {
            (RomMode::HiRom, hi)
        } else {
            (RomMode::LoRom, lo)
        };
        if score == 0 {
            return Err(RomError::NoValidHeader);
        }
        let base: usize = match mode {
            RomMode::LoRom => 0x7F00,
            RomMode::HiRom => 0xFF00,
        };
        let kind = data[base + 0xD6] & 0x0F;
        let code = data[base + 0xD8];
        let size: usize = if (kind == 1 || kind == 2) && code < 16 {
            0x400usize << code
        } else {
            0
        };
        Ok(Rom { mode, data: DataBus(data), sram: SramBus(vec![0u8; size]) })
    }

    pub fn mode(&self) -> (r: RomMode)
        ensures
            r == self.mode,
    {
        self.mode
    }

    pub fn data(&mut self) -> (r: &mut DataBus)
        ensures
            *r == old(self).data,
            final(self).data == *final(r),
            final(self).mode == old(self).mode,
            final(self).sram == old(self).sram,
    {
        &mut self.data
    }

    pub fn sram(&mut self) -> (r: &mut SramBus)
        ensures
            *r == old(self).sram,
            final(self).sram == *final(r),
            final(self).mode == old(self).mode,
            final(self).data == old(self).data,
    {
        &mut self.sram
    }
}

/// The bytes of `v` from `at` on.
fn split_tail(v: Vec<u8>, at: usize) -> (r: Vec<u8>)
    requires
        at <= v@.len(),
    ensures
        r@ == v@.subrange(at as int, v@.len() as int),
{
    let mut v = v;
    v.split_off(at)
}

/// The byte a ROM index reads; ROM smaller than the mapped window is mirrored.
pub open spec fn rom_byte(d: Seq<u8>, index: int) -> u8 {
    if d.len() > 0 { d[index % (d.len() as int)] } else { 0 }
}

impl DataBus {
    pub fn read(&self, offset: usize) -> (r: u8)
        ensures
            r == rom_byte(self.0@, offset as int),
    {
        let len = self.0.len();
        if len > 0 {
            self.0[offset % len]
        } else {
            0
        }
    }
}

impl SramBus {
    pub fn read(&self, offset: usize) -> (r: u8)
        ensures
            r == rom_byte(self.0@, offset as int),
    {
        let len = self.0.len();
        if len > 0 {
            self.0[offset % len]
        } else {
            0
        }
    }

    /// Stores at the index, mirrored over the SRAM size; no SRAM drops the write.
    pub fn write(&mut self, offset: usize, value: u8)
        ensures
            old(self).0@.len() > 0 ==> final(self).0@ == old(self).0@.update(
                offset as int % old(self).0@.len() as int,
                value,
            ),
            old(self).0@.len() == 0 ==> final(self).0@ == old(self).0@,
    {
        let len = self.0.len();
        if len > 0 {
            self.0.set(offset % len, value);
        }
    }
}

} // verus!
