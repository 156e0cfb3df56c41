use vstd::prelude::*;
use crate::address::{HardwareAddress, in_bank};
use crate::apu::Apu;
use crate::bits::{join, lo, hi, join_bytes, lower, upper};
use crate::dma::{DmaChannel, DMA_CHANNEL_COUNT, DMA_CYCLES, IncrementType, mode_len, slot};
use crate::joypad::Joypad;
use crate::ppu::Ppu;
use crate::registers::{HardwareRegs, ACTION_NMI, ACTION_IRQ, ACTION_DMA};
use crate::rom::{Rom, RomMode, rom_byte};
use crate::wram::{Wram, WRAM_SIZE};

verus! {

/// Master cycles per byte in each speed class.
pub const FAST_CYCLES: u64 = 6;
pub const SLOW_CYCLES: u64 = 8;
pub const EXTRA_SLOW_CYCLES: u64 = 12;

/// What a bus address reaches.
#[derive(Copy, Clone, Debug, PartialEq, Eq, Structural)]
pub enum Port {
    WorkRam,
    Rom,
    Sram,
    Ppu,
    Apu,
    WramPort,
    Regs,
    Dma(usize),
    Joypad,
    OpenBus,
}

/// A decoded bus address: the port, the offset within it and the cycles an access costs.
#[derive(Copy, Clone, Debug, PartialEq, Eq, Structural)]
pub struct MemoryLocation {
    pub port: Port,
    pub offset: usize,
    pub cycles: u64,
}

pub open spec fn rom20(a: HardwareAddress) -> usize {
    (0x8000 * (a.bank & 0x7F) as int + (a.offset & 0x7FFF) as int) as usize
}

pub open spec fn rom21(a: HardwareAddress) -> usize {
    (0x10000 * (a.bank & 0x3F) as int + a.offset as int) as usize
}

pub open spec fn sram20(a: HardwareAddress) -> usize {
    (0x8000 * (a.bank & 0x0F) as int + (a.offset & 0x7FFF) as int) as usize
}

pub open spec fn sram21(a: HardwareAddress) -> usize {
    (0x2000 * (a.bank & 0x1F) as int + (a.offset & 0x1FFF) as int) as usize
}

pub open spec fn loc(port: Port, offset: usize, cycles: u64) -> MemoryLocation {
    MemoryLocation { port, offset, cycles }
}

/// The bus decoding of an address under a ROM mapping.
pub open spec fn route(mode: RomMode, a: HardwareAddress) -> MemoryLocation {
    let bank = a.bank;
    let off = a.offset;
    if bank & 0x40 != 0 {
        if bank == 0x7E {
            loc(Port::WorkRam, off as usize, SLOW_CYCLES)
        } else if bank == 0x7F {
            loc(Port::WorkRam, (0x10000 + off as int) as usize, SLOW_CYCLES)
        } else if mode == RomMode::HiRom {
            loc(Port::Rom, rom21(a), SLOW_CYCLES)
        } else if off & 0x8000 != 0 {
            loc(Port::Rom, rom20(a), SLOW_CYCLES)
        } else if bank & 0x70 == 0x70 {
            loc(Port::Sram, sram20(a), SLOW_CYCLES)
        } else {
            loc(Port::OpenBus, 0, FAST_CYCLES)
        }
    } else {
        let top = off & 0xE000;
        if top == 0 {
            loc(Port::WorkRam, off as usize, SLOW_CYCLES)
        } else if top == 0x2000 {
            let sub = off & 0xFFC0;
            if sub == 0x2100 {
                loc(Port::Ppu, (off & 0x3F) as usize, FAST_CYCLES)
            } else if sub == 0x2140 {
                loc(Port::Apu, (off & 0x03) as usize, FAST_CYCLES)
            } else if sub == 0x2180 {
                loc(Port::WramPort, (off & 0x3F) as usize, FAST_CYCLES)
            } else {
                loc(Port::OpenBus, 0, FAST_CYCLES)
            }
        } else if top == 0x4000 {
            let sub = off & 0xFF80;
            if sub == 0x4200 {
                loc(Port::Regs, (off & 0x7F) as usize, FAST_CYCLES)
            } else if sub == 0x4300 {
                loc(Port::Dma(((off & 0x70) >> 4) as usize), (off & 0x0F) as usize, FAST_CYCLES)
            } else if sub == 0x4000 {
                loc(Port::Joypad, (off & 0x7F) as usize, EXTRA_SLOW_CYCLES)
            } else {
                loc(Port::OpenBus, 0, FAST_CYCLES)
            }
        } else if top == 0x6000 {
            if mode == RomMode::HiRom && bank & 0x20 == 0x20 {
                loc(Port::Sram, sram21(a), SLOW_CYCLES)
            } else {
                loc(Port::OpenBus, 0, SLOW_CYCLES)
            }
        } else if mode == RomMode::HiRom {
            loc(Port::Rom, rom21(a), SLOW_CYCLES)
        } else {
            loc(Port::Rom, rom20(a), SLOW_CYCLES)
        }
    }
}

/// Bank 0 below $2000 is work RAM at the same offset.
pub proof fn lemma_low_ram(mode: RomMode, o: u16)
    requires
        o < 0x2000,
    ensures
        route(mode, HardwareAddress { bank: 0, offset: o }) == loc(Port::WorkRam, o as usize, SLOW_CYCLES),
{
    assert(o & 0xE000 == 0) by (bit_vector)
        requires
            o < 0x2000,
    ;
    assert(0u8 & 0x40 == 0) by (bit_vector);
}

/// Every bus access costs between 6 and 12 master cycles.
pub proof fn lemma_access_cycles(mode: RomMode, a: HardwareAddress)
    ensures
        FAST_CYCLES <= route(mode, a).cycles <= EXTRA_SLOW_CYCLES,
{
}

/// The clock after `n` more cycles.
pub open spec fn clock_after(c: u64, n: u64) -> u64 {
    ((c as int + n as int) % 0x1_0000_0000_0000_0000) as u64
}

/// The console hardware on the CPU's bus.
pub struct Hardware {
    pub rom: Rom,
    pub wram: Wram,
    pub ppu: Ppu,
    pub apu: Apu,
    pub joypad: Joypad,
    pub regs: HardwareRegs,
    pub dma_channels: Vec<DmaChannel>,
    pub clock: u64,
}

/// The byte a read returns where the location is plain storage, and `None` for a device
/// register.
pub open spec fn storage_value(hw: Hardware, l: MemoryLocation) -> Option<u8> {
    match l.port {
        Port::WorkRam => Some(hw.wram.data.0@[l.offset as int]),
        Port::Rom => Some(rom_byte(hw.rom.data.0@, l.offset as int)),
        Port::Sram => Some(rom_byte(hw.rom.sram.0@, l.offset as int)),
        Port::OpenBus => Some(0u8),
        _ => None,
    }
}

impl MemoryLocation {
    /// The offset lies inside the port.
    pub open spec fn valid(&self) -> bool {
        match self.port {
            Port::WorkRam => self.offset < WRAM_SIZE,
            Port::Dma(i) => i < DMA_CHANNEL_COUNT,
            _ => true,
        }
    }

    pub fn new(port: Port, offset: usize, cycles: u64) -> (r: MemoryLocation)
        ensures
            r == loc(port, offset, cycles),
    {
        MemoryLocation { port, offset, cycles }
    }

    pub fn cycles(&self) -> (r: u64)
        ensures
            r == self.cycles,
    {
        self.cycles
    }

    /// Reads the location without charging cycles.
    pub fn read(&self, hw: &mut Hardware) -> (r: u8)
        requires
            old(hw).wf(),
            self.valid(),
        ensures
            final(hw).wf(),
            final(hw).same_storage(old(hw)),
            final(hw).clock == old(hw).clock,
            storage_value(*old(hw), *self) matches Some(v) ==> r == v,
    {
        hw.port_read(*self)
    }

    /// Writes the location without charging cycles.
    pub fn write(&self, hw: &mut Hardware, value: u8)
        requires
            old(hw).wf(),
            self.valid(),
        ensures
            final(hw).wf(),
            final(hw).clock == old(hw).clock,
            final(hw).stored(old(hw), *self, value),
    {
        hw.port_write(*self, value)
    }
}

impl Hardware {
    pub open spec fn wf(&self) -> bool {
        &&& self.wram.wf()
        &&& self.ppu.wf()
        &&& self.dma_channels@.len() == DMA_CHANNEL_COUNT
    }

    /// ROM, work RAM, SRAM and the DMA registers are the same in both.
    pub open spec fn same_storage(&self, other: &Hardware) -> bool {
        &&& self.rom.mode == other.rom.mode
        &&& self.rom.data.0@ == other.rom.data.0@
        &&& self.rom.sram.0@ == other.rom.sram.0@
        &&& self.wram.data.0@ == other.wram.data.0@
        &&& self.dma_channels@ == other.dma_channels@
        &&& self.keeps_requests(other)
    }

    /// Every request pending in `old` is still pending.
    pub open spec fn keeps_requests(&self, old: &Hardware) -> bool {
        &&& (old.regs.cpu_action & ACTION_NMI != 0 ==> self.regs.cpu_action & ACTION_NMI != 0)
        &&& (old.regs.cpu_action & ACTION_IRQ != 0 ==> self.regs.cpu_action & ACTION_IRQ != 0)
        &&& (old.regs.cpu_action & ACTION_DMA != 0 ==> self.regs.cpu_action & ACTION_DMA != 0)
    }

    /// `self` is `old` after `value` was written at the location: plain storage holds the
    /// byte, ROM and open bus ignore it, and storage the location does not reach is kept.
    pub open spec fn stored(&self, old: &Hardware, l: MemoryLocation, value: u8) -> bool {
        &&& self.keeps_requests(old)
        &&& self.rom.mode == old.rom.mode
        &&& self.rom.data.0@ == old.rom.data.0@
        &&& (l.port == Port::WorkRam ==> self.wram.data.0@ == old.wram.data.0@.update(l.offset as int, value))
        &&& (l.port == Port::Sram && old.rom.sram.0@.len() > 0 ==> self.rom.sram.0@
            == old.rom.sram.0@.update(l.offset as int % old.rom.sram.0@.len() as int, value))
        &&& (l.port != Port::Sram || old.rom.sram.0@.len() == 0 ==> self.rom.sram.0@ == old.rom.sram.0@)
        &&& (l.port != Port::WorkRam && !(l.port == Port::WramPort && l.offset == 0) ==> self.wram.data.0@
            == old.wram.data.0@)
        &&& (l.port == Port::WramPort && l.offset == 0 ==> self.wram.data.0@ == old.wram.data.0@.update(
            old.wram.address as int,
            value,
        ))
        &&& (forall|i: usize| l.port != Port::Dma(i) && i < DMA_CHANNEL_COUNT ==> self.dma_channels@[i as int]
            == old.dma_channels@[i as int])
        &&& (l.port == Port::OpenBus || l.port == Port::Rom ==> self.same_storage(old))
    }

    /// `self` is `old` after `value` was written at the location, as far as plain storage
    /// shows it: work RAM and SRAM hold the byte, ROM is unchanged, and a location that is
    /// neither work RAM nor its access port leaves work RAM as it was.
    pub open spec fn written(&self, old: &Hardware, l: MemoryLocation, value: u8) -> bool {
        &&& self.keeps_requests(old)
        &&& self.rom.mode == old.rom.mode
        &&& self.rom.data.0@ == old.rom.data.0@
        &&& (l.port == Port::WorkRam ==> self.wram.data.0@ == old.wram.data.0@.update(l.offset as int, value))
        &&& (l.port == Port::Sram && old.rom.sram.0@.len() > 0 ==> self.rom.sram.0@
            == old.rom.sram.0@.update(l.offset as int % old.rom.sram.0@.len() as int, value))
        &&& (l.port != Port::WorkRam && l.port != Port::WramPort ==> self.wram.data.0@ == old.wram.data.0@)
    }

    /// `self` is `old` after the word `value` was written at `a` (low byte first, high byte
    /// at the next offset of the bank), where both bytes land in work RAM.
    pub open spec fn word_written(&self, old: &Hardware, a: HardwareAddress, value: u16) -> bool {
        &&& self.keeps_requests(old)
        &&& self.rom.mode == old.rom.mode
        &&& self.rom.data.0@ == old.rom.data.0@
        &&& (route(old.rom.mode, a).port == Port::WorkRam && route(old.rom.mode, in_bank(a, 1)).port == Port::WorkRam
            ==> self.wram.data.0@ == old.wram.data.0@.update(route(old.rom.mode, a).offset as int, lo(value)).update(
            route(old.rom.mode, in_bank(a, 1)).offset as int,
            hi(value),
        ))
    }

    /// The picture unit's memories, the sound ports and the controllers are the same in both.
    pub open spec fn same_devices(&self, other: &Hardware) -> bool {
        &&& self.ppu.vram == other.ppu.vram
        &&& self.ppu.cgram == other.ppu.cgram
        &&& self.ppu.oam == other.ppu.oam
        &&& self.apu == other.apu
        &&& self.joypad == other.joypad
        &&& self.regs.irq_enabled == other.regs.irq_enabled
        &&& self.regs.nmi_enabled == other.regs.nmi_enabled
        &&& self.regs.dma_channel_mask == other.regs.dma_channel_mask
    }

    pub fn new(rom: Rom, wram: Wram, ppu: Ppu, apu: Apu, joypad: Joypad) -> (r: Hardware)
        requires
            wram.wf(),
            ppu.wf(),
        ensures
            r.wf(),
            r.clock == 0,
            r.rom == rom,
            r.wram == wram,
            r.ppu == ppu,
            r.regs.cpu_action == 0,
            forall|i: int| 0 <= i < DMA_CHANNEL_COUNT ==> r.dma_channels@[i] == DmaChannel::spec_new(),
    {
        let mut channels: Vec<DmaChannel> = Vec::new();
        let mut i: usize = 0;
        while i < DMA_CHANNEL_COUNT
            invariant
                i <= DMA_CHANNEL_COUNT,
                channels@.len() == i,
                forall|j: int| 0 <= j < i ==> channels@[j] == DmaChannel::spec_new(),
            decreases DMA_CHANNEL_COUNT - i,
        {
            channels.push(DmaChannel::new());
            i = i + 1;
        }
        Hardware { rom, wram, ppu, apu, joypad, regs: HardwareRegs::new(), dma_channels: channels, clock: 0 }
    }

    pub fn regs(&self) -> (r: &HardwareRegs)
        ensures
            *r == self.regs,
    {
        &self.regs
    }

    pub fn regs_mut(&mut self) -> (r: &mut HardwareRegs)
        ensures
            *r == old(self).regs,
            final(self).regs == *final(r),
            final(self).rom == old(self).rom,
            final(self).wram == old(self).wram,
            final(self).ppu == old(self).ppu,
            final(self).apu == old(self).apu,
            final(self).joypad == old(self).joypad,
            final(self).dma_channels == old(self).dma_channels,
            final(self).clock == old(self).clock,
    {
        &mut self.regs
    }

    pub fn joypad(&self) -> (r: &Joypad)
        ensures
            *r == self.joypad,
    {
        &self.joypad
    }

    pub fn joypad_mut(&mut self) -> (r: &mut Joypad)
        ensures
            *r == old(self).joypad,
            final(self).joypad == *final(r),
            final(self).rom == old(self).rom,
            final(self).wram == old(self).wram,
            final(self).ppu == old(self).ppu,
            final(self).apu == old(self).apu,
            final(self).regs == old(self).regs,
            final(self).dma_channels == old(self).dma_channels,
            final(self).clock == old(self).clock,
    {
        &mut self.joypad
    }

    pub fn dma_channel(&self, index: usize) -> (r: &DmaChannel)
        requires
            self.wf(),
            index < DMA_CHANNEL_COUNT,
        ensures
            *r == self.dma_channels@[index as int],
    {
        &self.dma_channels[index]
    }

    /// Replaces the registers of a DMA channel.
    pub fn set_dma_channel(&mut self, index: usize, channel: DmaChannel)
        requires
            old(self).wf(),
            index < DMA_CHANNEL_COUNT,
        ensures
            final(self).wf(),
            final(self).dma_channels@ == old(self).dma_channels@.update(index as int, channel),
            final(self).rom == old(self).rom,
            final(self).wram == old(self).wram,
            final(self).ppu == old(self).ppu,
            final(self).regs == old(self).regs,
            final(self).clock == old(self).clock,
    {
        self.dma_channels.set(index, channel);
    }

    pub fn clock(&self) -> (r: u64)
        ensures
            r == self.clock,
    {
        self.clock
    }

    /// Decodes a bus address.
    pub fn byte_at(&self, address: HardwareAddress) -> (r: MemoryLocation)
        ensures
            r == route(self.rom.mode, address),
            r.valid(),
    {
        let bank = address.bank;
        let off = address.offset;
        assert(((off & 0x70) >> 4) < 8) by (bit_vector);
        if bank & 0x40 != 0 {
            if bank == 0x7E {
                MemoryLocation::new(Port::WorkRam, off as usize, SLOW_CYCLES)
            } else if bank == 0x7F {
                MemoryLocation::new(Port::WorkRam, 0x10000 + off as usize, SLOW_CYCLES)
            } else if self.rom.mode == RomMode::HiRom {
                MemoryLocation::new(Port::Rom, 0x10000 * (bank & 0x3F) as usize + off as usize, SLOW_CYCLES)
            } else if off & 0x8000 != 0 {
                MemoryLocation::new(Port::Rom, 0x8000 * (bank & 0x7F) as usize + (off & 0x7FFF) as usize, SLOW_CYCLES)
            } else if bank & 0x70 == 0x70 {
                MemoryLocation::new(Port::Sram, 0x8000 * (bank & 0x0F) as usize + (off & 0x7FFF) as usize, SLOW_CYCLES)
            } else {
                MemoryLocation::new(Port::OpenBus, 0, FAST_CYCLES)
            }
        } else {
            let top = off & 0xE000;
            if top == 0 {
                MemoryLocation::new(Port::WorkRam, off as usize, SLOW_CYCLES)
            } else if top == 0x2000 {
                let sub = off & 0xFFC0;
                if sub == 0x2100 {
                    MemoryLocation::new(Port::Ppu, (off & 0x3F) as usize, FAST_CYCLES)
                } else if sub == 0x2140 {
                    MemoryLocation::new(Port::Apu, (off & 0x03) as usize, FAST_CYCLES)
                } else if sub == 0x2180 {
                    MemoryLocation::new(Port::WramPort, (off & 0x3F) as usize, FAST_CYCLES)
                } else {
                    MemoryLocation::new(Port::OpenBus, 0, FAST_CYCLES)
                }
            } else if top == 0x4000 {
                let sub = off & 0xFF80;
                if sub == 0x4200 {
                    MemoryLocation::new(Port::Regs, (off & 0x7F) as usize, FAST_CYCLES)
                } else if sub == 0x4300 {
                    MemoryLocation::new(Port::Dma(((off & 0x70) >> 4) as usize), (off & 0x0F) as usize, FAST_CYCLES)
                } else if sub == 0x4000 {
                    MemoryLocation::new(Port::Joypad, (off & 0x7F) as usize, EXTRA_SLOW_CYCLES)
                } else {
                    MemoryLocation::new(Port::OpenBus, 0, FAST_CYCLES)
                }
            } else if top == 0x6000 {
                if self.rom.mode == RomMode::HiRom && bank & 0x20 == 0x20 {
                    MemoryLocation::new(Port::Sram, 0x2000 * (bank & 0x1F) as usize + (off & 0x1FFF) as usize, SLOW_CYCLES)
                } else {
                    MemoryLocation::new(Port::OpenBus, 0, SLOW_CYCLES)
                }
            } else if self.rom.mode == RomMode::HiRom {
                MemoryLocation::new(Port::Rom, 0x10000 * (bank & 0x3F) as usize + off as usize, SLOW_CYCLES)
            } else {
                MemoryLocation::new(Port::Rom, 0x8000 * (bank & 0x7F) as usize + (off & 0x7FFF) as usize, SLOW_CYCLES)
            }
        }
    }
}

impl Hardware {
    fn port_read(&mut self, l: MemoryLocation) -> (r: u8)
        requires
            old(self).wf(),
            l.valid(),
        ensures
            final(self).wf(),
            final(self).same_storage(old(self)),
            final(self).clock == old(self).clock,
            storage_value(*old(self), l) matches Some(v) ==> r == v,
    {
        match l.port {
            Port::WorkRam => self.wram.data.0[l.offset],
            Port::Rom => self.rom.data.read(l.offset),
            Port::Sram => self.rom.sram.read(l.offset),
            Port::Ppu => {
                let io = self.regs.io_port.value();
                self.ppu.read(l.offset, io)
            },
            Port::Apu => self.apu.read(l.offset),
            Port::WramPort => self.wram.read(l.offset),
            Port::Regs => self.regs.read(l.offset),
            Port::Dma(i) => self.dma_channels[i].read(l.offset),
            Port::Joypad => self.joypad.read(l.offset),
            Port::OpenBus => 0,
        }
    }

    fn port_write(&mut self, l: MemoryLocation, value: u8)
        requires
            old(self).wf(),
            l.valid(),
        ensures
            final(self).wf(),
            final(self).clock == old(self).clock,
            final(self).stored(old(self), l, value),
    {
        match l.port {
            Port::WorkRam => self.wram.data.0.set(l.offset, value),
            Port::Rom => {},
            Port::Sram => self.rom.sram.write(l.offset, value),
            Port::Ppu => self.ppu.write(l.offset, value),
            Port::Apu => self.apu.write(l.offset, value),
            Port::WramPort => self.wram.write(l.offset, value),
            Port::Regs => self.regs.write(l.offset, value),
            Port::Dma(i) => {
                let mut channel = self.dma_channels[i];
                channel.write(l.offset, value);
                self.dma_channels.set(i, channel);
            },
            Port::Joypad => self.joypad.write(l.offset, value),
            Port::OpenBus => {},
        }
    }

    /// Advances the master clock, letting the picture unit run through the elapsed dots and
    /// the system registers sample it after each one.
    pub fn tick(&mut self, cycles: u64)
        requires
            old(self).wf(),
        ensures
            final(self).wf(),
            final(self).clock == clock_after(old(self).clock, cycles),
            final(self).same_storage(old(self)),
            final(self).same_devices(old(self)),
    {
        self.ppu.add_cycles(cycles);
        loop
            invariant
                self.wf(),
                self.same_storage(old(self)),
                self.same_devices(old(self)),
                self.clock == old(self).clock,
            decreases self.ppu.cycles,
        {
            if !self.ppu.next_pixel() {
                break;
            }
            self.regs.update(&mut self.ppu, &self.joypad);
        }
        self.clock = self.clock.wrapping_add(cycles);
    }

    /// Reads a byte, charging its cycles.
    pub fn read_u8(&mut self, address: HardwareAddress) -> (r: u8)
        requires
            old(self).wf(),
        ensures
            final(self).wf(),
            final(self).clock == clock_after(old(self).clock, route(old(self).rom.mode, address).cycles),
            final(self).same_storage(old(self)),
            storage_value(*old(self), route(old(self).rom.mode, address)) matches Some(v) ==> r == v,
    {
        let l = self.byte_at(address);
        let value = self.port_read(l);
        self.tick(l.cycles);
        value
    }

    /// Writes a byte, charging its cycles.
    pub fn write_u8(&mut self, address: HardwareAddress, value: u8)
        requires
            old(self).wf(),
        ensures
            final(self).wf(),
            final(self).clock == clock_after(old(self).clock, route(old(self).rom.mode, address).cycles),
            final(self).stored(old(self), route(old(self).rom.mode, address), value),
            final(self).written(old(self), route(old(self).rom.mode, address), value),
    {
        let l = self.byte_at(address);
        self.port_write(l, value);
        self.tick(l.cycles);
    }

    /// Reads a little-endian word from two consecutive offsets in one bank.
    pub fn read_u16(&mut self, address: HardwareAddress) -> (r: u16)
        requires
            old(self).wf(),
        ensures
            final(self).wf(),
            final(self).same_storage(old(self)),
            final(self).clock == clock_after(
                clock_after(old(self).clock, route(old(self).rom.mode, address).cycles),
                route(old(self).rom.mode, in_bank(address, 1)).cycles,
            ),
            storage_value(*old(self), route(old(self).rom.mode, address)) matches Some(l)
                ==> storage_value(*old(self), route(old(self).rom.mode, in_bank(address, 1))) matches Some(h)
                ==> r == join(l, h),
    {
        let l = self.read_u8(address);
        let h = self.read_u8(address.add_in_bank(1));
        join_bytes(l, h)
    }

    /// Writes a little-endian word to two consecutive offsets in one bank.
    pub fn write_u16(&mut self, address: HardwareAddress, value: u16)
        requires
            old(self).wf(),
        ensures
            final(self).wf(),
            final(self).clock == clock_after(
                clock_after(old(self).clock, route(old(self).rom.mode, address).cycles),
                route(old(self).rom.mode, in_bank(address, 1)).cycles,
            ),
            final(self).rom.mode == old(self).rom.mode,
            final(self).rom.data.0@ == old(self).rom.data.0@,
            final(self).word_written(old(self), address, value),
    {
        self.write_u8(address, lower(value));
        self.write_u8(address.add_in_bank(1), upper(value));
    }

    /// Reads a 24-bit address: a word for the offset, then the bank byte.
    pub fn read_address(&mut self, address: HardwareAddress) -> (r: HardwareAddress)
        requires
            old(self).wf(),
        ensures
            final(self).wf(),
            final(self).same_storage(old(self)),
            storage_value(*old(self), route(old(self).rom.mode, address)) matches Some(l)
                ==> storage_value(*old(self), route(old(self).rom.mode, in_bank(address, 1))) matches Some(h)
                ==> r.offset == join(l, h),
            storage_value(*old(self), route(old(self).rom.mode, in_bank(address, 2))) matches Some(b)
                ==> r.bank == b,
    {
        let offset = self.read_u16(address);
        let bank = self.read_u8(address.add_in_bank(2));
        HardwareAddress::new(bank, offset)
    }

    /// Moves one byte between two bus addresses without charging cycles.
    fn transfer(&mut self, src: HardwareAddress, dst: HardwareAddress)
        requires
            old(self).wf(),
        ensures
            final(self).wf(),
            final(self).clock == old(self).clock,
            final(self).rom.mode == old(self).rom.mode,
            final(self).rom.data.0@ == old(self).rom.data.0@,
            storage_value(*old(self), route(old(self).rom.mode, src)) matches Some(v) ==> final(self).written(
                old(self),
                route(old(self).rom.mode, dst),
                v,
            ),
            forall|i: usize| route(old(self).rom.mode, dst).port != Port::Dma(i) && i < DMA_CHANNEL_COUNT
                ==> final(self).dma_channels@[i as int] == old(self).dma_channels@[i as int],
    {
        let from = self.byte_at(src);
        let value = self.port_read(from);
        let to = self.byte_at(dst);
        self.port_write(to, value);
    }
}

/// A B-bus address ($00:2100 plus a destination byte and a slot) never reaches the DMA
/// registers.
pub proof fn lemma_b_bus_not_dma(mode: RomMode, d: u16, off: u16)
    requires
        d & 0xFF00 == 0x2100,
        off < 4,
    ensures
        forall|i: usize| route(mode, HardwareAddress { bank: 0, offset: ((d as int + off as int) % 0x10000) as u16 }).port
            != Port::Dma(i),
{
    assert(d < 0x2200) by (bit_vector)
        requires
            d & 0xFF00 == 0x2100,
    ;
    let o = ((d as int + off as int) % 0x10000) as u16;
    assert(o == d + off);
    assert(o & 0xE000 == 0x2000) by (bit_vector)
        requires
            d & 0xFF00 == 0x2100,
            off < 4,
            o == d + off,
    ;
    assert(0u8 & 0x40 == 0) by (bit_vector);
}

/// Charging `a` then `b` cycles charges `a + b`.
pub proof fn lemma_clock_after_add(c: u64, a: int, b: int)
    requires
        0 <= a,
        0 <= b,
        a + b < 0x1_0000_0000_0000_0000,
    ensures
        clock_after(clock_after(c, a as u64), b as u64) == clock_after(c, (a + b) as u64),
{
    vstd::arithmetic::div_mod::lemma_add_mod_noop(c as int + a, b, 0x1_0000_0000_0000_0000);
    vstd::arithmetic::div_mod::lemma_mod_twice(b, 0x1_0000_0000_0000_0000);
}

/// Channel `i` is selected by the mask.
pub open spec fn selected(mask: u8, i: int) -> bool {
    mask & (1u8 << (i as u8)) != 0
}

/// Every selected channel moves bytes from the A bus to the B-bus registers at $2100-$21FF.
pub open spec fn forward_only(chs: Seq<DmaChannel>, mask: u8) -> bool {
    forall|i: int| 0 <= i < DMA_CHANNEL_COUNT && #[trigger] selected(mask, i) ==> !chs[i].reverse_transfer
        && chs[i].destination & 0xFF00 == 0x2100
}

/// The cycles that servicing the selected channels among the first `n` costs.
pub open spec fn dma_cycles(chs: Seq<DmaChannel>, mask: u8, n: int) -> int
    decreases n,
{
    if n <= 0 {
        0
    } else {
        dma_cycles(chs, mask, n - 1) + if selected(mask, n - 1) {
            DMA_CYCLES * (1 + if chs[n - 1].hdma_active { 0 } else { transfer_count(chs[n - 1]) })
        } else {
            0
        }
    }
}

pub proof fn lemma_dma_cycles_bound(chs: Seq<DmaChannel>, mask: u8, n: int)
    ensures
        0 <= dma_cycles(chs, mask, n) <= (if n < 0 { 0 } else { n }) * 8 * 0x10001,
    decreases n,
{
    if n > 0 {
        lemma_dma_cycles_bound(chs, mask, n - 1);
    }
}

/// The channel registers after a DMA service, under a mask.
pub open spec fn serviced(c: DmaChannel, mask: u8, i: int) -> DmaChannel {
    if selected(mask, i) && !c.hdma_active { after_transfer(c) } else { c }
}

/// The A-bus offset after `n` bytes under an address step.
pub open spec fn advanced_offset(o: u16, step: IncrementType, n: int) -> u16 {
    match step {
        IncrementType::Increment => ((o as int + n) % 0x10000) as u16,
        IncrementType::Decrement => ((o as int - n) % 0x10000) as u16,
        IncrementType::Fixed => o,
    }
}

/// The bytes a channel moves: its count register, where 0 stands for 65536.
pub open spec fn transfer_count(c: DmaChannel) -> int {
    if c.hdma_indirect_address.offset == 0 { 0x10000 } else { c.hdma_indirect_address.offset as int }
}

/// The channel registers after a completed transfer: the source has moved by the count and
/// the count register is 0.
pub open spec fn after_transfer(c: DmaChannel) -> DmaChannel {
    DmaChannel {
        source: HardwareAddress {
            offset: advanced_offset(c.source.offset, c.increment_type, transfer_count(c)),
            ..c.source
        },
        hdma_indirect_address: HardwareAddress { offset: 0, ..c.hdma_indirect_address },
        ..c
    }
}

impl Hardware {
    /// Moves the byte of pattern slot `phase` of a channel, then charges its cycles.
    fn dma_move_byte(&mut self, channel: &DmaChannel, phase: u16)
        requires
            old(self).wf(),
            phase < mode_len(channel.transfer_mode),
        ensures
            final(self).wf(),
            final(self).rom.mode == old(self).rom.mode,
            final(self).rom.data.0@ == old(self).rom.data.0@,
            final(self).clock == clock_after(old(self).clock, DMA_CYCLES),
            !channel.reverse_transfer ==> (storage_value(*old(self), route(old(self).rom.mode, channel.source)) matches Some(v)
                ==> final(self).written(
                old(self),
                route(
                    old(self).rom.mode,
                    HardwareAddress {
                        bank: 0,
                        offset: ((channel.destination as int + slot(channel.transfer_mode, phase) as int) % 0x10000) as u16,
                    },
                ),
                v,
            )),
            !channel.reverse_transfer && channel.destination & 0xFF00 == 0x2100 ==> final(self).dma_channels@
                == old(self).dma_channels@,
    {
        let off = channel.transfer_mode.offset_at(phase);
        proof {
            if channel.destination & 0xFF00 == 0x2100 {
                lemma_b_bus_not_dma(self.rom.mode, channel.destination, off);
            }
        }
        let dest = HardwareAddress::new(0, ((channel.destination as u32 + off as u32) % 0x10000) as u16);
        if channel.reverse_transfer {
            self.transfer(dest, channel.source);
        } else {
            self.transfer(channel.source, dest);
        }
        self.tick(DMA_CYCLES);
    }

    /// Runs one DMA channel: a setup tick, then (unless HDMA owns it) one byte per pattern
    /// slot between the A-bus source and $00:2100 plus the destination and slot, eight
    /// cycles each, until the count runs out.
    #[verifier::rlimit(100)]
    fn dma_channel_transfer(&mut self, index: usize)
        requires
            old(self).wf(),
            index < DMA_CHANNEL_COUNT,
        ensures
            final(self).wf(),
            final(self).rom.mode == old(self).rom.mode,
            final(self).rom.data.0@ == old(self).rom.data.0@,
            old(self).dma_channels@[index as int].hdma_active ==> final(self).clock == clock_after(
                old(self).clock,
                DMA_CYCLES,
            ) && final(self).dma_channels@ == old(self).dma_channels@,
            !old(self).dma_channels@[index as int].hdma_active ==> final(self).dma_channels@[index as int]
                == after_transfer(old(self).dma_channels@[index as int]) && final(self).clock == clock_after(
                old(self).clock,
                (DMA_CYCLES * (1 + transfer_count(old(self).dma_channels@[index as int]))) as u64,
            ),
            !old(self).dma_channels@[index as int].reverse_transfer && old(self).dma_channels@[index as int].destination
                & 0xFF00 == 0x2100 ==> final(self).dma_channels@ == old(self).dma_channels@.update(
                index as int,
                if old(self).dma_channels@[index as int].hdma_active {
                    old(self).dma_channels@[index as int]
                } else {
                    after_transfer(old(self).dma_channels@[index as int])
                },
            ),
    {
        self.tick(DMA_CYCLES);
        let c0 = self.dma_channels[index];
        let mut channel = c0;
        if channel.hdma_active {
            return;
        }
        let count = channel.hdma_indirect_address.offset;
        let total: u32 = if count == 0 { 0x10000 } else { count as u32 };
        let mut remaining: u32 = total;
        let mut phase: u16 = 0;
        let len = channel.transfer_mode.len();
        let ghost clock0 = self.clock;
        while remaining > 0
            invariant
                self.wf(),
                self.rom.mode == old(self).rom.mode,
                self.rom.data.0@ == old(self).rom.data.0@,
                remaining <= total,
                total as int == transfer_count(c0),
                len == mode_len(c0.transfer_mode),
                phase < len,
                channel == (DmaChannel {
                    source: HardwareAddress {
                        offset: advanced_offset(c0.source.offset, c0.increment_type, total - remaining),
                        ..c0.source
                    },
                    ..c0
                }),
                self.clock == clock_after(clock0, (DMA_CYCLES * (total - remaining)) as u64),
                !c0.reverse_transfer && c0.destination & 0xFF00 == 0x2100 ==> self.dma_channels@ == old(self).dma_channels@,
                c0 == old(self).dma_channels@[index as int],
            decreases remaining,
        {
            self.dma_move_byte(&channel, phase);
            remaining = remaining - 1;
            match channel.increment_type {
                IncrementType::Increment => {
                    channel.source.offset = ((channel.source.offset as u32 + 1) % 0x10000) as u16;
                },
                IncrementType::Decrement => {
                    channel.source.offset = ((channel.source.offset as u32 + 0xFFFF) % 0x10000) as u16;
                },
                IncrementType::Fixed => {},
            }
            phase = (phase + 1) % len;
        }
        channel.hdma_indirect_address.offset = 0;
        self.dma_channels.set(index, channel);
    }

    /// Services a DMA request: each channel whose bit is set in the mask runs in order. When
    /// every selected channel moves bytes from the A bus to $2100-$21FF, each of them ends
    /// with its source advanced by its count and its count 0 (unless HDMA owns it), the
    /// other channels are unchanged, and the clock advances by a setup tick per selected
    /// channel plus 8 cycles per byte.
    #[verifier::rlimit(100)]
    pub fn dma_transfer(&mut self, channel_mask: u8)
        requires
            old(self).wf(),
        ensures
            final(self).wf(),
            final(self).rom.mode == old(self).rom.mode,
            final(self).rom.data.0@ == old(self).rom.data.0@,
            forward_only(old(self).dma_channels@, channel_mask) ==> (forall|i: int| 0 <= i < DMA_CHANNEL_COUNT
                ==> final(self).dma_channels@[i] == serviced(old(self).dma_channels@[i], channel_mask, i)),
            forward_only(old(self).dma_channels@, channel_mask) ==> final(self).clock == clock_after(
                old(self).clock,
                dma_cycles(old(self).dma_channels@, channel_mask, DMA_CHANNEL_COUNT as int) as u64,
            ),
    {
        let mut i: usize = 0;
        while i < DMA_CHANNEL_COUNT
            invariant
                i <= DMA_CHANNEL_COUNT,
                self.wf(),
                self.rom.mode == old(self).rom.mode,
                self.rom.data.0@ == old(self).rom.data.0@,
                forward_only(old(self).dma_channels@, channel_mask) ==> (forall|j: int| 0 <= j < i
                    ==> self.dma_channels@[j] == serviced(old(self).dma_channels@[j], channel_mask, j)),
                forward_only(old(self).dma_channels@, channel_mask) ==> (forall|j: int| i <= j < DMA_CHANNEL_COUNT
                    ==> self.dma_channels@[j] == old(self).dma_channels@[j]),
                forward_only(old(self).dma_channels@, channel_mask) ==> self.clock == clock_after(
                    old(self).clock,
                    dma_cycles(old(self).dma_channels@, channel_mask, i as int) as u64,
                ),
            decreases DMA_CHANNEL_COUNT - i,
        {
            proof {
                lemma_dma_cycles_bound(old(self).dma_channels@, channel_mask, i as int + 1);
                lemma_dma_cycles_bound(old(self).dma_channels@, channel_mask, i as int);
            }
            let ghost before = self.clock;
            if channel_mask & (1u8 << (i as u8)) != 0 {
                assert(selected(channel_mask, i as int));
                self.dma_channel_transfer(i);
                proof {
                    if forward_only(old(self).dma_channels@, channel_mask) {
                        let c = old(self).dma_channels@[i as int];
                        let cost = DMA_CYCLES * (1 + if c.hdma_active { 0 } else { transfer_count(c) });
                        assert(dma_cycles(old(self).dma_channels@, channel_mask, i as int + 1)
                            == dma_cycles(old(self).dma_channels@, channel_mask, i as int) + cost);
                        lemma_clock_after_add(
                            old(self).clock,
                            dma_cycles(old(self).dma_channels@, channel_mask, i as int),
                            cost,
                        );
                    }
                }
            } else {
                assert(!selected(channel_mask, i as int));
            }
            i = i + 1;
        }
    }
}

} // verus!
