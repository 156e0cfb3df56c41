use vstd::prelude::*;
use crate::address::{HardwareAddress, in_bank};
use crate::bits::{join, lo, hi, lower, upper, join_bytes};
use crate::hardware::{Hardware, route, storage_value, clock_after};
use crate::register::{CpuRegisters, CpuFlags};

verus! {

/// Master cycles of an internal operation cycle.
pub const IO_CYCLES: u64 = 6;

/// Where the reset vector lies in bank 0.
pub const RESET_VECTOR: u16 = 0xFFFC;

/// A condition the processor cannot go on from.
#[derive(Copy, Clone, Debug, PartialEq, Eq, Structural)]
pub enum CpuError {
    /// ADC or SBC with the decimal flag set: decimal arithmetic is not supported.
    DecimalMode,
    /// A pending hardware request that is neither NMI, IRQ nor DMA.
    UnknownAction,
}

/// Whether the processor executes, waits for an interrupt (WAI) or has stopped (STP).
#[derive(Copy, Clone, Debug, PartialEq, Eq, Structural)]
pub enum RunState {
    Running,
    Waiting,
    Stopped,
}

/// The 65C816 processor with the hardware on its bus.
pub struct Cpu {
    pub hardware: Hardware,
    pub regs: CpuRegisters,
    pub flags: CpuFlags,
    pub run_state: RunState,
}

/// The byte at a bus address, where it is plain storage.
pub open spec fn byte_in(hw: Hardware, a: HardwareAddress) -> Option<u8> {
    storage_value(hw, route(hw.rom.mode, a))
}

/// The little-endian word at a bus address (high byte at the next offset in the bank),
/// where both bytes are plain storage.
pub open spec fn word_in(hw: Hardware, a: HardwareAddress) -> Option<u16> {
    match (byte_in(hw, a), byte_in(hw, in_bank(a, 1))) {
        (Some(l), Some(h)) => Some(join(l, h)),
        _ => None,
    }
}

/// The 24-bit address stored at a bus address (offset word, then bank byte).
pub open spec fn long_in(hw: Hardware, a: HardwareAddress) -> Option<HardwareAddress> {
    match (word_in(hw, a), byte_in(hw, in_bank(a, 2))) {
        (Some(o), Some(b)) => Some(HardwareAddress { bank: b, offset: o }),
        _ => None,
    }
}

/// The immediate operand of the width at the program counter, where it is plain storage.
pub open spec fn immediate_operand(hw: Hardware, r: CpuRegisters, wide: bool) -> Option<u16> {
    if wide {
        word_in(hw, code_addr(r, 0))
    } else {
        match byte_in(hw, code_addr(r, 0)) {
            Some(b) => Some(b as u16),
            None => None,
        }
    }
}

/// The cycles of fetching an immediate operand of the width.
pub open spec fn immediate_clock(hw: Hardware, r: CpuRegisters, wide: bool, c: u64) -> u64 {
    let first = clock_after(c, route(hw.rom.mode, code_addr(r, 0)).cycles);
    if wide { clock_after(first, route(hw.rom.mode, code_addr(r, 1)).cycles) } else { first }
}

/// Byte `k` of the instruction stream after the program counter.
pub open spec fn code_addr(r: CpuRegisters, k: int) -> HardwareAddress {
    HardwareAddress { bank: r.program_bank, offset: ((r.program_counter as int + k) % 0x10000) as u16 }
}

/// The registers with the program counter moved on by `n` within its bank.
pub open spec fn pc_advanced(r: CpuRegisters, n: int) -> CpuRegisters {
    CpuRegisters { program_counter: ((r.program_counter as int + n) % 0x10000) as u16, ..r }
}

/// A bank-0 address.
pub open spec fn zero_bank(offset: int) -> HardwareAddress {
    HardwareAddress { bank: 0, offset: (offset % 0x10000) as u16 }
}

impl Cpu {
    /// The processor invariants: in emulation mode both widths are 8-bit, and with 8-bit
    /// index registers their high bytes are 0.
    pub open spec fn wf(&self) -> bool {
        &&& self.hardware.wf()
        &&& (self.flags.emulation_mode ==> self.flags.memory_size && self.flags.index_size)
        &&& (self.flags.index_size ==> self.regs.index_x < 0x100 && self.regs.index_y < 0x100)
    }

    /// Only the program counter moved on by `n`, and bus storage is unchanged.
    pub open spec fn fetched(&self, old: &Cpu, n: int) -> bool {
        &&& self.wf()
        &&& self.regs == pc_advanced(old.regs, n)
        &&& self.flags == old.flags
        &&& self.run_state == old.run_state
        &&& self.hardware.same_storage(&old.hardware)
    }

    /// Powers on: the program counter comes from the reset vector at $00:FFFC; emulation
    /// mode with 8-bit widths and interrupts disabled; the other registers are 0.
    pub fn new(hardware: Hardware) -> (r: Cpu)
        requires
            hardware.wf(),
        ensures
            r.wf(),
            r.hardware.same_storage(&hardware),
            word_in(hardware, HardwareAddress { bank: 0, offset: RESET_VECTOR }) matches Some(v)
                ==> r.regs.program_counter == v,
            r.regs == (CpuRegisters {
                accumulator: 0,
                index_x: 0,
                index_y: 0,
                data_bank: 0,
                direct_page: 0,
                program_bank: 0,
                program_counter: r.regs.program_counter,
                stack_pointer: 0,
            }),
            r.flags == (CpuFlags {
                negative: false,
                overflow: false,
                memory_size: true,
                index_size: true,
                unused_flag: false,
                break_flag: false,
                decimal_mode: false,
                interrupt_disable: true,
                zero: false,
                carry: false,
                emulation_mode: true,
            }),
            r.run_state == RunState::Running,
    {
        let mut hardware = hardware;
        let program_counter = hardware.read_u16(HardwareAddress::new(0, RESET_VECTOR));
        Cpu {
            hardware,
            regs: CpuRegisters {
                accumulator: 0,
                index_x: 0,
                index_y: 0,
                data_bank: 0,
                direct_page: 0,
                program_bank: 0,
                program_counter,
                stack_pointer: 0,
            },
            flags: CpuFlags {
                negative: false,
                overflow: false,
                memory_size: true,
                index_size: true,
                unused_flag: false,
                break_flag: false,
                decimal_mode: false,
                interrupt_disable: true,
                zero: false,
                carry: false,
                emulation_mode: true,
            },
            run_state: RunState::Running,
        }
    }

    pub fn hardware(&self) -> (r: &Hardware)
        ensures
            *r == self.hardware,
    {
        &self.hardware
    }

    #[verifier::rlimit(100)]
    pub fn hardware_mut(&mut self) -> (r: &mut Hardware)
        ensures
            *r == old(self).hardware,
            final(self).hardware == *final(r),
            final(self).regs == old(self).regs,
            final(self).flags == old(self).flags,
            final(self).run_state == old(self).run_state,
    {
        &mut self.hardware
    }

    pub fn regs(&self) -> (r: &CpuRegisters)
        ensures
            *r == self.regs,
    {
        &self.regs
    }

    #[verifier::rlimit(100)]
    pub fn regs_mut(&mut self) -> (r: &mut CpuRegisters)
        ensures
            *r == old(self).regs,
            final(self).regs == *final(r),
            final(self).hardware == old(self).hardware,
            final(self).flags == old(self).flags,
            final(self).run_state == old(self).run_state,
    {
        &mut self.regs
    }

    pub fn flags(&self) -> (r: &CpuFlags)
        ensures
            *r == self.flags,
    {
        &self.flags
    }

    #[verifier::rlimit(100)]
    pub fn flags_mut(&mut self) -> (r: &mut CpuFlags)
        ensures
            *r == old(self).flags,
            final(self).flags == *final(r),
            final(self).hardware == old(self).hardware,
            final(self).regs == old(self).regs,
            final(self).run_state == old(self).run_state,
    {
        &mut self.flags
    }

    /// Fetches the next instruction byte and moves the program counter on.
    #[verifier::rlimit(100)]
    pub fn read_next_u8(&mut self) -> (r: u8)
        requires
            old(self).wf(),
        ensures
            final(self).fetched(old(self), 1),
            final(self).hardware.clock == clock_after(
                old(self).hardware.clock,
                route(old(self).hardware.rom.mode, code_addr(old(self).regs, 0)).cycles,
            ),
            byte_in(old(self).hardware, code_addr(old(self).regs, 0)) matches Some(v) ==> r == v,
    {
        let address = HardwareAddress::new(self.regs.program_bank, self.regs.program_counter);
        let value = self.hardware.read_u8(address);
        self.regs.program_counter = ((self.regs.program_counter as u32 + 1) % 0x10000) as u16;
        value
    }

    /// Fetches the next instruction word (low byte first).
    #[verifier::rlimit(100)]
    pub fn read_next_u16(&mut self) -> (r: u16)
        requires
            old(self).wf(),
        ensures
            final(self).fetched(old(self), 2),
            word_in(old(self).hardware, code_addr(old(self).regs, 0)) matches Some(v) ==> r == v,
            final(self).hardware.clock == clock_after(
                clock_after(
                    old(self).hardware.clock,
                    route(old(self).hardware.rom.mode, code_addr(old(self).regs, 0)).cycles,
                ),
                route(old(self).hardware.rom.mode, code_addr(old(self).regs, 1)).cycles,
            ),
    {
        let l = self.read_next_u8();
        let h = self.read_next_u8();
        join_bytes(l, h)
    }

    /// Fetches a 24-bit address from the instruction stream (offset word, then bank).
    #[verifier::rlimit(100)]
    pub fn read_next_address(&mut self) -> (r: HardwareAddress)
        requires
            old(self).wf(),
        ensures
            final(self).fetched(old(self), 3),
            word_in(old(self).hardware, code_addr(old(self).regs, 0)) matches Some(v) ==> r.offset == v,
            byte_in(old(self).hardware, code_addr(old(self).regs, 2)) matches Some(b) ==> r.bank == b,
    {
        let offset = self.read_next_u16();
        let bank = self.read_next_u8();
        HardwareAddress::new(bank, offset)
    }

    /// Charges one internal operation cycle.
    #[verifier::rlimit(100)]
    pub fn io_cycle(&mut self)
        requires
            old(self).wf(),
        ensures
            final(self).fetched(old(self), 0),
            final(self).hardware.clock == clock_after(old(self).hardware.clock, IO_CYCLES),
    {
        self.hardware.tick(IO_CYCLES);
    }

    /// Charges the extra cycle of direct-page addressing when D's low byte is not 0.
    #[verifier::rlimit(100)]
    pub fn direct_page_cycle(&mut self)
        requires
            old(self).wf(),
        ensures
            final(self).fetched(old(self), 0),
            final(self).hardware.clock == if lo(old(self).regs.direct_page) != 0 {
                clock_after(old(self).hardware.clock, IO_CYCLES)
            } else {
                old(self).hardware.clock
            },
    {
        if lower(self.regs.direct_page) != 0 {
            self.io_cycle();
        }
    }
}

} // verus!
