use vstd::prelude::*;
use crate::address::HardwareAddress;
use crate::bits::{lo, hi, with_lo, with_hi, lower, upper, set_lower, set_upper};

verus! {

pub const DMA_CHANNEL_COUNT: usize = 8;

/// Master cycles per DMA setup and per byte moved.
pub const DMA_CYCLES: u64 = 8;

/// How the A-bus address moves after each byte.
#[derive(Copy, Clone, Debug, PartialEq, Eq, Structural)]
pub enum IncrementType {
    Increment,
    Decrement,
    Fixed,
}

/// The pattern of B-bus register offsets a transfer cycles through.
#[derive(Copy, Clone, Debug, PartialEq, Eq, Structural)]
pub enum TransferMode {
    A,
    AB,
    AA,
    AABB,
    ABCD,
    ABAB,
}

/// The HDMA line counter register ($43x A).
#[derive(Copy, Clone, Debug, PartialEq, Eq, Structural)]
pub enum HdmaLineCounter {
    Count(u8),
    Repeat(u8),
}

/// One DMA channel's registers ($43x0-$43xA).
#[derive(Copy, Clone, Debug, PartialEq, Eq, Structural)]
pub struct DmaChannel {
    pub reverse_transfer: bool,
    pub hdma_indirect_mode: bool,
    pub increment_type: IncrementType,
    pub transfer_mode: TransferMode,
    pub raw_control_value: u8,
    pub destination: u16,
    pub source: HardwareAddress,
    pub hdma_indirect_address: HardwareAddress,
    pub hdma_table_address: HardwareAddress,
    pub hdma_line_counter: HdmaLineCounter,
    pub hdma_active: bool,
}

/// Slots in one round of the pattern.
pub open spec fn mode_len(m: TransferMode) -> u16 {
    match m {
        TransferMode::A => 1,
        TransferMode::AB => 2,
        TransferMode::AA => 2,
        TransferMode::AABB => 4,
        TransferMode::ABCD => 4,
        TransferMode::ABAB => 4,
    }
}

/// The register offset of slot `phase` (below `mode_len`) of the pattern.
pub open spec fn slot(m: TransferMode, phase: u16) -> u16 {
    match m {
        TransferMode::A => phase,
        TransferMode::AB => phase,
        TransferMode::AA => phase / 2,
        TransferMode::AABB => phase / 2,
        TransferMode::ABCD => phase,
        TransferMode::ABAB => phase % 2,
    }
}

/// The pattern that bits 0-2 of the control byte select.
pub open spec fn mode_of(value: u8) -> TransferMode {
    let m = value & 0x07;
    if m == 0 {
        TransferMode::A
    } else if m == 1 {
        TransferMode::AB
    } else if m == 2 || m == 6 {
        TransferMode::AA
    } else if m == 3 || m == 7 {
        TransferMode::AABB
    } else if m == 4 {
        TransferMode::ABCD
    } else {
        TransferMode::ABAB
    }
}

/// The address step that bits 3-4 of the control byte select.
pub open spec fn increment_of(value: u8) -> IncrementType {
    if value & 0x18 == 0 {
        IncrementType::Increment
    } else if value & 0x18 == 0x10 {
        IncrementType::Decrement
    } else {
        IncrementType::Fixed
    }
}

impl TransferMode {
    pub fn len(&self) -> (r: u16)
        ensures
            r == mode_len(*self),
    {
        match *self {
            TransferMode::A => 1,
            TransferMode::AB => 2,
            TransferMode::AA => 2,
            TransferMode::AABB => 4,
            TransferMode::ABCD => 4,
            TransferMode::ABAB => 4,
        }
    }

    /// The register offset of slot `phase`.
    pub fn offset_at(&self, phase: u16) -> (r: u16)
        requires
            phase < mode_len(*self),
        ensures
            r == slot(*self, phase),
            r < 4,
    {
        match *self {
            TransferMode::A => phase,
            TransferMode::AB => phase,
            TransferMode::AA => phase / 2,
            TransferMode::AABB => phase / 2,
            TransferMode::ABCD => phase,
            TransferMode::ABAB => phase % 2,
        }
    }
}

impl DmaChannel {
    /// The registers after power-on.
    pub open spec fn spec_new() -> DmaChannel {
        DmaChannel {
            reverse_transfer: false,
            hdma_indirect_mode: false,
            increment_type: IncrementType::Increment,
            transfer_mode: TransferMode::A,
            raw_control_value: 0,
            destination: 0x2100,
            source: HardwareAddress { bank: 0, offset: 0 },
            hdma_indirect_address: HardwareAddress { bank: 0, offset: 0 },
            hdma_table_address: HardwareAddress { bank: 0, offset: 0 },
            hdma_line_counter: HdmaLineCounter::Repeat(0x7F),
            hdma_active: false,
        }
    }

    pub fn new() -> (r: DmaChannel)
        ensures
            r == DmaChannel::spec_new(),
    {
        DmaChannel {
            reverse_transfer: false,
            hdma_indirect_mode: false,
            increment_type: IncrementType::Increment,
            transfer_mode: TransferMode::A,
            raw_control_value: 0,
            destination: 0x2100,
            source: HardwareAddress::new(0, 0),
            hdma_indirect_address: HardwareAddress::new(0, 0),
            hdma_table_address: HardwareAddress::new(0, 0),
            hdma_line_counter: HdmaLineCounter::Repeat(0x7F),
            hdma_active: false,
        }
    }

    /// Reads register `offset` of the channel.
    pub fn read(&self, offset: usize) -> (r: u8)
        ensures
            offset == 0 ==> r == self.raw_control_value,
            offset == 1 ==> r == lo(self.destination),
            offset == 2 ==> r == lo(self.source.offset),
            offset == 3 ==> r == hi(self.source.offset),
            offset == 4 ==> r == self.source.bank,
            offset == 5 ==> r == lo(self.hdma_indirect_address.offset),
            offset == 6 ==> r == hi(self.hdma_indirect_address.offset),
            offset == 7 ==> r == self.hdma_indirect_address.bank,
            offset == 8 ==> r == lo(self.hdma_table_address.offset),
            offset == 9 ==> r == hi(self.hdma_table_address.offset),
            offset == 10 ==> r == match self.hdma_line_counter {
                HdmaLineCounter::Repeat(c) => ((0x80 + c as int) % 256) as u8,
                HdmaLineCounter::Count(c) => c,
            },
            offset > 10 ==> r == 0,
    {
        if offset == 0 {
            self.raw_control_value
        } else if offset == 1 {
            lower(self.destination)
        } else if offset == 2 {
            lower(self.source.offset)
        } else if offset == 3 {
            upper(self.source.offset)
        } else if offset == 4 {
            self.source.bank
        } else if offset == 5 {
            lower(self.hdma_indirect_address.offset)
        } else if offset == 6 {
            upper(self.hdma_indirect_address.offset)
        } else if offset == 7 {
            self.hdma_indirect_address.bank
        } else if offset == 8 {
            lower(self.hdma_table_address.offset)
        } else if offset == 9 {
            upper(self.hdma_table_address.offset)
        } else if offset == 10 {
            match self.hdma_line_counter {
                HdmaLineCounter::Repeat(c) => ((0x80u16 + c as u16) % 256) as u8,
                HdmaLineCounter::Count(c) => c,
            }
        } else {
            0
        }
    }

    /// Writes register `offset` of the channel. The control byte sets direction (bit 7),
    /// HDMA indirect mode (bit 6), the address step (bits 3-4) and the pattern (bits 0-2);
    /// register 1 is the B-bus destination ($2100 plus the byte).
    pub fn write(&mut self, offset: usize, value: u8)
        ensures
            offset == 0 ==> *final(self) == (DmaChannel {
                reverse_transfer: value & 0x80 != 0,
                hdma_indirect_mode: value & 0x40 != 0,
                increment_type: increment_of(value),
                transfer_mode: mode_of(value),
                raw_control_value: value,
                ..*old(self)
            }),
            offset == 1 ==> *final(self) == (DmaChannel { destination: with_lo(old(self).destination, value), ..*old(self) }),
            offset == 2 ==> *final(self) == (DmaChannel {
                source: HardwareAddress { offset: with_lo(old(self).source.offset, value), ..old(self).source },
                ..*old(self)
            }),
            offset == 3 ==> *final(self) == (DmaChannel {
                source: HardwareAddress { offset: with_hi(old(self).source.offset, value), ..old(self).source },
                ..*old(self)
            }),
            offset == 4 ==> *final(self) == (DmaChannel {
                source: HardwareAddress { bank: value, ..old(self).source },
                ..*old(self)
            }),
            offset == 5 ==> *final(self) == (DmaChannel {
                hdma_indirect_address: HardwareAddress {
                    offset: with_lo(old(self).hdma_indirect_address.offset, value),
                    ..old(self).hdma_indirect_address
                },
                ..*old(self)
            }),
            offset == 6 ==> *final(self) == (DmaChannel {
                hdma_indirect_address: HardwareAddress {
                    offset: with_hi(old(self).hdma_indirect_address.offset, value),
                    ..old(self).hdma_indirect_address
                },
                ..*old(self)
            }),
            offset == 7 ==> *final(self) == (DmaChannel {
                hdma_indirect_address: HardwareAddress { bank: value, ..old(self).hdma_indirect_address },
                ..*old(self)
            }),
            offset == 8 ==> *final(self) == (DmaChannel {
                hdma_table_address: HardwareAddress {
                    offset: with_lo(old(self).hdma_table_address.offset, value),
                    ..old(self).hdma_table_address
                },
                ..*old(self)
            }),
            offset == 9 ==> *final(self) == (DmaChannel {
                hdma_table_address: HardwareAddress {
                    offset: with_hi(old(self).hdma_table_address.offset, value),
                    ..old(self).hdma_table_address
                },
                ..*old(self)
            }),
            offset == 10 ==> *final(self) == (DmaChannel {
                hdma_line_counter: if (value as int + 255) % 256 >= 128 {
                    HdmaLineCounter::Repeat(((value as int + 128) % 256) as u8)
                } else {
                    HdmaLineCounter::Count(value)
                },
                ..*old(self)
            }),
            offset > 10 ==> *final(self) == *old(self),
    {
        if offset == 0 {
            self.reverse_transfer = value & 0x80 != 0;
            self.hdma_indirect_mode = value & 0x40 != 0;
            let step = value & 0x18;
            self.increment_type = if step == 0 {
                IncrementType::Increment
            } else if step == 0x10 {
                IncrementType::Decrement
            } else {
                IncrementType::Fixed
            };
            let m = value & 0x07;
            self.transfer_mode = if m == 0 {
                TransferMode::A
            } else if m == 1 {
                TransferMode::AB
            } else if m == 2 || m == 6 {
                TransferMode::AA
            } else if m == 3 || m == 7 {
                TransferMode::AABB
            } else if m == 4 {
                TransferMode::ABCD
            } else {
                TransferMode::ABAB
            };
            self.raw_control_value = value;
        } else if offset == 1 {
            self.destination = set_lower(self.destination, value);
        } else if offset == 2 {
            self.source.offset = set_lower(self.source.offset, value);
        } else if offset == 3 {
            self.source.offset = set_upper(self.source.offset, value);
        } else if offset == 4 {
            self.source.bank = value;
        } else if offset == 5 {
            self.hdma_indirect_address.offset = set_lower(self.hdma_indirect_address.offset, value);
        } else if offset == 6 {
            self.hdma_indirect_address.offset = set_upper(self.hdma_indirect_address.offset, value);
        } else if offset == 7 {
            self.hdma_indirect_address.bank = value;
        } else if offset == 8 {
            self.hdma_table_address.offset = set_lower(self.hdma_table_address.offset, value);
        } else if offset == 9 {
            self.hdma_table_address.offset = set_upper(self.hdma_table_address.offset, value);
        } else if offset == 10 {
            let d: u16 = (value as u16 + 255) % 256;
            assert((d & 0x80 != 0) == (d >= 128)) by (bit_vector)
                requires
                    d < 256,
            ;
            self.hdma_line_counter = if d & 0x80 != 0 {
                HdmaLineCounter::Repeat(((value as u16 + 128) % 256) as u8)
            } else {
                HdmaLineCounter::Count(value)
            };
        }
    }
}

} // verus!
