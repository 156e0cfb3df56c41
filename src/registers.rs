use vstd::prelude::*;
use crate::bits::{lo, hi, with_lo, with_hi, lower, upper, set_lower, set_upper};
use crate::io_port::IoPort;
use crate::joypad::Joypad;
use crate::ppu::Ppu;

verus! {

pub const CHIP_VERSION: u8 = 0x02;

/// Lines the automatic joypad read stays busy for.
pub const JOYPAD_AUTO_READ_LINES: u8 = 3;

/// Pending-action bits.
pub const ACTION_NMI: u8 = 0x80;
pub const ACTION_IRQ: u8 = 0x40;
pub const ACTION_DMA: u8 = 0x20;

/// When the raster timer raises an IRQ.
#[derive(Copy, Clone, Debug, PartialEq, Eq, Structural)]
pub enum IrqCondition {
    Never,
    MatchRow,
    MatchColumn,
    MatchRowAndColumn,
}

/// The system registers at $4200-$421F: interrupt control and status, the arithmetic unit,
/// raster timer, DMA trigger and automatic joypad read, plus the programmable I/O port.
pub struct HardwareRegs {
    pub io_port: IoPort,
    pub cpu_action: u8,
    pub vblank: bool,
    pub hblank: bool,
    pub nmi_enabled: bool,
    pub nmi_active: bool,
    pub irq_enabled: IrqCondition,
    pub irq_row: u16,
    pub irq_column: u16,
    pub irq_active: bool,
    pub multiplication_lhs: u8,
    pub multiplication_result: u16,
    pub division_lhs: u16,
    pub division_result: u16,
    pub auto_read_enabled: bool,
    pub auto_read_active: u8,
    pub button_state: [u16; 4],
    pub dma_channel_mask: u8,
}

/// The raster condition holds at dot `h` of line `v`.
pub open spec fn timer_matches(c: IrqCondition, row: u16, column: u16, h: u16, v: u16) -> bool {
    match c {
        IrqCondition::Never => false,
        IrqCondition::MatchRow => v == row && h == 0,
        IrqCondition::MatchColumn => h == column,
        IrqCondition::MatchRowAndColumn => v == row && h == column,
    }
}

/// The IRQ condition that bits 4-5 of $4200 select.
pub open spec fn irq_condition(value: u8) -> IrqCondition {
    if value & 0x30 == 0x10 {
        IrqCondition::MatchColumn
    } else if value & 0x30 == 0x20 {
        IrqCondition::MatchRow
    } else if value & 0x30 == 0x30 {
        IrqCondition::MatchRowAndColumn
    } else {
        IrqCondition::Never
    }
}

impl HardwareRegs {
    pub fn new() -> (r: HardwareRegs)
        ensures
            r.cpu_action == 0,
            !r.vblank && !r.hblank,
            !r.nmi_enabled && !r.nmi_active,
            r.irq_enabled == IrqCondition::Never,
            !r.irq_active,
            r.io_port.value == 0xC0 && !r.io_port.triggered,
            r.multiplication_lhs == 0xFF,
            r.division_lhs == 0xFFFF,
            r.dma_channel_mask == 0,
            r.auto_read_active == 0,
    {
        HardwareRegs {
            io_port: IoPort::new(),
            cpu_action: 0,
            vblank: false,
            hblank: false,
            nmi_enabled: false,
            nmi_active: false,
            irq_enabled: IrqCondition::Never,
            irq_row: 0,
            irq_column: 0,
            irq_active: false,
            multiplication_lhs: 0xFF,
            multiplication_result: 0,
            division_lhs: 0xFFFF,
            division_result: 0,
            auto_read_enabled: false,
            auto_read_active: 0,
            button_state: [0, 0, 0, 0],
            dma_channel_mask: 0,
        }
    }

    /// Samples the picture unit after each dot: a change of VBlank sets the NMI flag (and,
    /// at its start, requests an NMI when enabled and starts the joypad auto-read); the
    /// raster timer requests an IRQ once its condition holds; a falling edge on the I/O
    /// port latch copies the beam position into the PPU counters.
    pub fn update(&mut self, ppu: &mut Ppu, joypad: &Joypad)
        requires
            old(ppu).wf(),
        ensures
            final(ppu).wf(),
            final(ppu).position == old(ppu).position,
            final(ppu).vblank == old(ppu).vblank,
            final(ppu).cycles == old(ppu).cycles,
            final(ppu).next_pixel_cycles == old(ppu).next_pixel_cycles,
            final(ppu).vram == old(ppu).vram,
            final(ppu).cgram == old(ppu).cgram,
            final(ppu).oam == old(ppu).oam,
            old(self).io_port.triggered ==> final(ppu).stored,
            final(self).vblank == old(ppu).vblank,
            final(self).hblank == old(ppu).hblank,
            final(self).nmi_active == if old(ppu).vblank != old(self).vblank {
                old(ppu).vblank
            } else {
                old(self).nmi_active
            },
            final(self).irq_active == (old(self).irq_active || timer_matches(
                old(self).irq_enabled,
                old(self).irq_row,
                old(self).irq_column,
                old(ppu).position.h,
                old(ppu).position.v,
            )),
            final(self).cpu_action == old(self).cpu_action | (if old(ppu).vblank && !old(self).vblank
                && old(self).nmi_enabled {
                ACTION_NMI
            } else {
                0u8
            }) | (if !old(self).irq_active && timer_matches(
                old(self).irq_enabled,
                old(self).irq_row,
                old(self).irq_column,
                old(ppu).position.h,
                old(ppu).position.v,
            ) {
                ACTION_IRQ
            } else {
                0u8
            }),
            !final(self).io_port.triggered,
            final(self).io_port.value == old(self).io_port.value,
            final(self).irq_enabled == old(self).irq_enabled,
            final(self).irq_row == old(self).irq_row,
            final(self).irq_column == old(self).irq_column,
            final(self).nmi_enabled == old(self).nmi_enabled,
            final(self).dma_channel_mask == old(self).dma_channel_mask,
            final(self).auto_read_enabled == old(self).auto_read_enabled,
            old(self).cpu_action & ACTION_NMI != 0 ==> final(self).cpu_action & ACTION_NMI != 0,
            old(self).cpu_action & ACTION_IRQ != 0 ==> final(self).cpu_action & ACTION_IRQ != 0,
            old(self).cpu_action & ACTION_DMA != 0 ==> final(self).cpu_action & ACTION_DMA != 0,
            old(ppu).vblank && !old(self).vblank && old(self).auto_read_enabled ==> final(self).button_state@
                == joypad.button_state@ && final(self).auto_read_active == JOYPAD_AUTO_READ_LINES - 1,
            !(old(ppu).vblank && !old(self).vblank && old(self).auto_read_enabled) ==> final(self).button_state
                == old(self).button_state && final(self).auto_read_active == if old(self).auto_read_active > 0 {
                (old(self).auto_read_active - 1) as u8
            } else {
                0u8
            },
    {
        let old_vblank = self.vblank;
        self.vblank = ppu.vblank();
        self.hblank = ppu.hblank();
        let mut nmi_bit: u8 = 0;
        let mut irq_bit: u8 = 0;
        if self.vblank != old_vblank {
            self.nmi_active = self.vblank;
            if self.nmi_active {
                if self.nmi_enabled {
                    nmi_bit = ACTION_NMI;
                }
                if self.auto_read_enabled {
                    self.auto_read_active = JOYPAD_AUTO_READ_LINES;
                    self.button_state = joypad.read_button_state();
                }
            }
        }
        if !self.irq_active {
            let h = ppu.position().h();
            let v = ppu.position().v();
            let matched = match self.irq_enabled {
                IrqCondition::Never => false,
                IrqCondition::MatchRow => v == self.irq_row && h == 0,
                IrqCondition::MatchColumn => h == self.irq_column,
                IrqCondition::MatchRowAndColumn => v == self.irq_row && h == self.irq_column,
            };
            if matched {
                self.irq_active = true;
                irq_bit = ACTION_IRQ;
            }
        }
        let a = self.cpu_action;
        assert(a & 0x80 != 0 ==> (a | nmi_bit | irq_bit) & 0x80 != 0) by (bit_vector);
        assert(a & 0x40 != 0 ==> (a | nmi_bit | irq_bit) & 0x40 != 0) by (bit_vector);
        assert(a & 0x20 != 0 ==> (a | nmi_bit | irq_bit) & 0x20 != 0) by (bit_vector);
        self.cpu_action = self.cpu_action | nmi_bit | irq_bit;
        if self.auto_read_active > 0 {
            self.auto_read_active = self.auto_read_active - 1;
        }
        if self.io_port.triggered() {
            ppu.store_position();
        }
        self.io_port.reset_trigger();
    }

    pub fn cpu_action_ready(&self) -> (r: bool)
        ensures
            r == (self.cpu_action != 0),
    {
        self.cpu_action != 0
    }

    /// Takes a pending NMI request.
    pub fn check_and_reset_nmi(&mut self) -> (r: bool)
        ensures
            r == (old(self).cpu_action & ACTION_NMI != 0),
            *final(self) == (HardwareRegs { cpu_action: old(self).cpu_action & !ACTION_NMI, ..*old(self) }),
    {
        let r = self.cpu_action & ACTION_NMI != 0;
        self.cpu_action = self.cpu_action & !ACTION_NMI;
        r
    }

    /// Takes a pending IRQ request.
    pub fn check_and_reset_irq(&mut self) -> (r: bool)
        ensures
            r == (old(self).cpu_action & ACTION_IRQ != 0),
            *final(self) == (HardwareRegs { cpu_action: old(self).cpu_action & !ACTION_IRQ, ..*old(self) }),
    {
        let r = self.cpu_action & ACTION_IRQ != 0;
        self.cpu_action = self.cpu_action & !ACTION_IRQ;
        r
    }

    /// Takes a pending DMA request with its channel mask.
    pub fn check_and_reset_dma(&mut self) -> (r: Option<u8>)
        ensures
            old(self).cpu_action & ACTION_DMA != 0 ==> r == Some(old(self).dma_channel_mask)
                && *final(self) == (HardwareRegs {
                cpu_action: old(self).cpu_action & !ACTION_DMA,
                dma_channel_mask: 0,
                ..*old(self)
            }),
            old(self).cpu_action & ACTION_DMA == 0 ==> r == None::<u8> && *final(self) == *old(self),
    {
        if self.cpu_action & ACTION_DMA != 0 {
            self.cpu_action = self.cpu_action & !ACTION_DMA;
            let mask = self.dma_channel_mask;
            self.dma_channel_mask = 0;
            Some(mask)
        } else {
            None
        }
    }
}

impl HardwareRegs {
    /// Reads $42xx at `offset`: $10 reports and clears the NMI flag, $11 the IRQ flag, $12
    /// the blanking and auto-read state, $13 the I/O port, $14-$17 the quotient and the
    /// product or remainder, $18-$1F the auto-read joypad words.
    pub fn read(&mut self, offset: usize) -> (r: u8)
        ensures
            offset == 0x10 ==> r == (if old(self).nmi_active { 0x80u8 } else { 0u8 }) | CHIP_VERSION
                && *final(self) == (HardwareRegs { nmi_active: false, ..*old(self) }),
            offset == 0x11 ==> r == (if old(self).irq_active { 0x80u8 } else { 0u8 })
                && *final(self) == (HardwareRegs { irq_active: false, ..*old(self) }),
            offset == 0x12 ==> r == (if old(self).vblank { 0x80u8 } else { 0u8 }) | (if old(self).hblank {
                0x40u8
            } else {
                0u8
            }) | (if old(self).auto_read_active > 0 { 0x01u8 } else { 0u8 }),
            offset == 0x13 ==> r == old(self).io_port.value,
            offset == 0x14 ==> r == lo(old(self).division_result),
            offset == 0x15 ==> r == hi(old(self).division_result),
            offset == 0x16 ==> r == lo(old(self).multiplication_result),
            offset == 0x17 ==> r == hi(old(self).multiplication_result),
            0x18 <= offset < 0x20 ==> r == (if offset % 2 == 0 {
                lo(old(self).button_state@[(offset as int - 0x18) / 2])
            } else {
                hi(old(self).button_state@[(offset as int - 0x18) / 2])
            }),
            offset >= 0x20 || offset < 0x10 ==> r == 0,
            offset != 0x10 && offset != 0x11 ==> *final(self) == *old(self),
    {
        if offset == 0x10 {
            let nmi: u8 = if self.nmi_active { 0x80 } else { 0x00 };
            self.nmi_active = false;
            nmi | CHIP_VERSION
        } else if offset == 0x11 {
            let irq: u8 = if self.irq_active { 0x80 } else { 0x00 };
            self.irq_active = false;
            irq
        } else if offset == 0x12 {
            (if self.vblank { 0x80u8 } else { 0u8 }) | (if self.hblank { 0x40u8 } else { 0u8 }) | (
            if self.auto_read_active > 0 {
                0x01u8
            } else {
                0u8
            })
        } else if offset == 0x13 {
            self.io_port.value()
        } else if offset == 0x14 {
            lower(self.division_result)
        } else if offset == 0x15 {
            upper(self.division_result)
        } else if offset == 0x16 {
            lower(self.multiplication_result)
        } else if offset == 0x17 {
            upper(self.multiplication_result)
        } else if 0x18 <= offset && offset < 0x20 {
            let w = self.button_state[(offset - 0x18) / 2];
            if offset % 2 == 0 {
                lower(w)
            } else {
                upper(w)
            }
        } else {
            0
        }
    }

    /// Writes $42xx at `offset`: $00 interrupt and auto-read enables, $01 the I/O port,
    /// $02/$03 an 8x8 multiplication, $04-$06 a 16/8 division (by zero gives $FFFF and the
    /// dividend as remainder), $07-$0A the raster column and row, $0B starts DMA.
    pub fn write(&mut self, offset: usize, value: u8)
        ensures
            offset == 0x00 ==> *final(self) == (HardwareRegs {
                nmi_enabled: value & 0x80 != 0,
                auto_read_enabled: value & 0x01 != 0,
                irq_enabled: irq_condition(value),
                ..*old(self)
            }),
            offset == 0x01 ==> final(self).io_port.value == value && final(self).io_port.triggered == (old(
                self,
            ).io_port.triggered || (old(self).io_port.value & 0x80 != 0 && value & 0x80 == 0)),
            offset == 0x02 ==> *final(self) == (HardwareRegs { multiplication_lhs: value, ..*old(self) }),
            offset == 0x03 ==> *final(self) == (HardwareRegs {
                multiplication_result: (old(self).multiplication_lhs as int * value as int) as u16,
                ..*old(self)
            }),
            offset == 0x04 ==> *final(self) == (HardwareRegs {
                division_lhs: with_lo(old(self).division_lhs, value),
                ..*old(self)
            }),
            offset == 0x05 ==> *final(self) == (HardwareRegs {
                division_lhs: with_hi(old(self).division_lhs, value),
                ..*old(self)
            }),
            offset == 0x06 && value != 0 ==> *final(self) == (HardwareRegs {
                division_result: (old(self).division_lhs / value as u16) as u16,
                multiplication_result: (old(self).division_lhs % value as u16) as u16,
                ..*old(self)
            }),
            offset == 0x06 && value == 0 ==> *final(self) == (HardwareRegs {
                division_result: 0xFFFF,
                multiplication_result: old(self).division_lhs,
                ..*old(self)
            }),
            offset == 0x07 ==> *final(self) == (HardwareRegs {
                irq_column: with_lo(old(self).irq_column, value),
                ..*old(self)
            }),
            offset == 0x08 ==> *final(self) == (HardwareRegs {
                irq_column: with_hi(old(self).irq_column, value & 0x01),
                ..*old(self)
            }),
            offset == 0x09 ==> *final(self) == (HardwareRegs {
                irq_row: with_lo(old(self).irq_row, value),
                ..*old(self)
            }),
            offset == 0x0A ==> *final(self) == (HardwareRegs {
                irq_row: with_hi(old(self).irq_row, value & 0x01),
                ..*old(self)
            }),
            offset == 0x0B ==> *final(self) == (HardwareRegs {
                dma_channel_mask: value,
                cpu_action: if value != 0 {
                    old(self).cpu_action | ACTION_DMA
                } else {
                    old(self).cpu_action
                },
                ..*old(self)
            }),
            offset > 0x0B ==> *final(self) == *old(self),
            old(self).cpu_action & ACTION_NMI != 0 ==> final(self).cpu_action & ACTION_NMI != 0,
            old(self).cpu_action & ACTION_IRQ != 0 ==> final(self).cpu_action & ACTION_IRQ != 0,
            old(self).cpu_action & ACTION_DMA != 0 ==> final(self).cpu_action & ACTION_DMA != 0,
    {
        let a = self.cpu_action;
        assert(a & 0x80 != 0 ==> (a | 0x20) & 0x80 != 0) by (bit_vector);
        assert(a & 0x40 != 0 ==> (a | 0x20) & 0x40 != 0) by (bit_vector);
        assert((a | 0x20) & 0x20 != 0) by (bit_vector);
        if offset == 0x00 {
            self.nmi_enabled = value & 0x80 != 0;
            self.auto_read_enabled = value & 0x01 != 0;
            let bits = value & 0x30;
            self.irq_enabled = if bits == 0x10 {
                IrqCondition::MatchColumn
            } else if bits == 0x20 {
                IrqCondition::MatchRow
            } else if bits == 0x30 {
                IrqCondition::MatchRowAndColumn
            } else {
                IrqCondition::Never
            };
        } else if offset == 0x01 {
            self.io_port.set_value(value);
        } else if offset == 0x02 {
            self.multiplication_lhs = value;
        } else if offset == 0x03 {
            assert(self.multiplication_lhs as int * value as int <= 255 * 255) by (nonlinear_arith)
                requires
                    self.multiplication_lhs <= 255,
                    value <= 255,
            ;
            self.multiplication_result = (self.multiplication_lhs as u16) * (value as u16);
        } else if offset == 0x04 {
            self.division_lhs = set_lower(self.division_lhs, value);
        } else if offset == 0x05 {
            self.division_lhs = set_upper(self.division_lhs, value);
        } else if offset == 0x06 {
            if value != 0 {
                self.division_result = self.division_lhs / (value as u16);
                self.multiplication_result = self.division_lhs % (value as u16);
            } else {
                self.division_result = 0xFFFF;
                self.multiplication_result = self.division_lhs;
            }
        } else if offset == 0x07 {
            self.irq_column = set_lower(self.irq_column, value);
        } else if offset == 0x08 {
            self.irq_column = set_upper(self.irq_column, value & 0x01);
        } else if offset == 0x09 {
            self.irq_row = set_lower(self.irq_row, value);
        } else if offset == 0x0A {
            self.irq_row = set_upper(self.irq_row, value & 0x01);
        } else if offset == 0x0B {
            self.dma_channel_mask = value;
            if value != 0 {
                self.cpu_action = self.cpu_action | ACTION_DMA;
            }
        }
    }
}

} // verus!
