use vstd::prelude::*;
use crate::address::{HardwareAddress, in_bank};
use crate::alu::{add_w, fits, step};
use crate::bits::{lo, lower, upper, join_bytes};
use crate::cpu::{Cpu, byte_in, word_in, code_addr, pc_advanced};
use crate::hardware::{Port, route};
use crate::interrupt::Interrupt;
use crate::register::{CpuRegisters, CpuFlags, ProcessorState, p_byte, p_written, narrowed, narrow};
use crate::stack::{push_sp, pull_sp};
use crate::memory_mode::{AbsoluteLong};

verus! {

/// The condition a relative branch tests.
#[derive(Copy, Clone, Debug, PartialEq, Eq, Structural)]
pub enum BranchCondition {
    CarrySet,
    CarryClear,
    Equal,
    NotEqual,
    Minus,
    Plus,
    OverflowSet,
    OverflowClear,
    Always,
}

/// A status flag that a single instruction sets or clears.
#[derive(Copy, Clone, Debug, PartialEq, Eq, Structural)]
pub enum Flag {
    Carry,
    Decimal,
    InterruptDisable,
    Overflow,
}

pub open spec fn taken(c: BranchCondition, f: CpuFlags) -> bool {
    match c {
        BranchCondition::CarrySet => f.carry,
        BranchCondition::CarryClear => !f.carry,
        BranchCondition::Equal => f.zero,
        BranchCondition::NotEqual => !f.zero,
        BranchCondition::Minus => f.negative,
        BranchCondition::Plus => !f.negative,
        BranchCondition::OverflowSet => f.overflow,
        BranchCondition::OverflowClear => !f.overflow,
        BranchCondition::Always => true,
    }
}

/// The program counter plus a signed 8-bit displacement, within the bank.
pub open spec fn branch_target(pc: int, b: u8) -> u16 {
    ((pc + (if b < 128 { b as int } else { b as int - 256 }) + 0x10000) % 0x10000) as u16
}

/// The program counter an interrupt saves: past the signature byte for BRK and COP.
pub open spec fn interrupted_pc<I: Interrupt>(r: CpuRegisters) -> u16 {
    if I::spec_has_signature() {
        ((r.program_counter as int + 1) % 0x10000) as u16
    } else {
        r.program_counter
    }
}

/// The word at a bus address that maps to ROM, which no write changes.
pub open spec fn rom_word(hw: crate::hardware::Hardware, a: HardwareAddress) -> Option<u16> {
    if route(hw.rom.mode, a).port == Port::Rom && route(hw.rom.mode, in_bank(a, 1)).port == Port::Rom {
        word_in(hw, a)
    } else {
        None
    }
}

impl Cpu {
    /// Bxx: reads the displacement; a taken branch moves the program counter and costs an
    /// IO cycle.
    #[verifier::rlimit(100)]
    pub fn branch(&mut self, condition: BranchCondition)
        requires
            old(self).wf(),
        ensures
            final(self).wf(),
            final(self).flags == old(self).flags,
            final(self).run_state == old(self).run_state,
            final(self).regs == (CpuRegisters { program_counter: final(self).regs.program_counter, ..old(self).regs }),
            !taken(condition, old(self).flags) ==> final(self).regs == pc_advanced(old(self).regs, 1)
                && final(self).hardware.clock == crate::hardware::clock_after(
                old(self).hardware.clock,
                route(old(self).hardware.rom.mode, code_addr(old(self).regs, 0)).cycles,
            ),
            taken(condition, old(self).flags) ==> (byte_in(old(self).hardware, code_addr(old(self).regs, 0)) matches Some(b)
                ==> final(self).regs.program_counter == branch_target(old(self).regs.program_counter as int + 1, b))
                && final(self).hardware.clock == crate::hardware::clock_after(
                crate::hardware::clock_after(
                    old(self).hardware.clock,
                    route(old(self).hardware.rom.mode, code_addr(old(self).regs, 0)).cycles,
                ),
                crate::cpu::IO_CYCLES,
            ),
    {
        let b = self.read_next_u8();
        let should_branch = match condition {
            BranchCondition::CarrySet => self.flags.carry,
            BranchCondition::CarryClear => !self.flags.carry,
            BranchCondition::Equal => self.flags.zero,
            BranchCondition::NotEqual => !self.flags.zero,
            BranchCondition::Minus => self.flags.negative,
            BranchCondition::Plus => !self.flags.negative,
            BranchCondition::OverflowSet => self.flags.overflow,
            BranchCondition::OverflowClear => !self.flags.overflow,
            BranchCondition::Always => true,
        };
        if should_branch {
            let ext: u32 = if b >= 128 { 0xFF00 } else { 0 };
            self.regs.program_counter = ((self.regs.program_counter as u32 + b as u32 + ext) % 0x10000) as u16;
            self.io_cycle();
        }
    }

    /// BRL: a 16-bit displacement, always taken.
    #[verifier::rlimit(100)]
    pub fn branch_always_long(&mut self)
        requires
            old(self).wf(),
        ensures
            final(self).wf(),
            final(self).flags == old(self).flags,
            final(self).run_state == old(self).run_state,
            final(self).regs == (CpuRegisters { program_counter: final(self).regs.program_counter, ..old(self).regs }),
            word_in(old(self).hardware, code_addr(old(self).regs, 0)) matches Some(w)
                ==> final(self).regs.program_counter == ((old(self).regs.program_counter as int + 2 + w as int) % 0x10000) as u16,
    {
        let w = self.read_next_u16();
        self.regs.program_counter = ((self.regs.program_counter as u32 + w as u32) % 0x10000) as u16;
        self.io_cycle();
    }

    /// Sets or clears one flag, then an IO cycle.
    #[verifier::rlimit(100)]
    pub fn set_flag(&mut self, flag: Flag, value: bool)
        requires
            old(self).wf(),
        ensures
            final(self).wf(),
            final(self).regs == old(self).regs,
            final(self).run_state == old(self).run_state,
            final(self).flags == match flag {
                Flag::Carry => CpuFlags { carry: value, ..old(self).flags },
                Flag::Decimal => CpuFlags { decimal_mode: value, ..old(self).flags },
                Flag::InterruptDisable => CpuFlags { interrupt_disable: value, ..old(self).flags },
                Flag::Overflow => CpuFlags { overflow: value, ..old(self).flags },
            },
    {
        match flag {
            Flag::Carry => self.flags.carry = value,
            Flag::Decimal => self.flags.decimal_mode = value,
            Flag::InterruptDisable => self.flags.interrupt_disable = value,
            Flag::Overflow => self.flags.overflow = value,
        }
        self.io_cycle();
    }

    /// Writes P, narrowing registers whose width becomes 8-bit.
    #[verifier::rlimit(100)]
    pub fn write_processor_state(&mut self, value: u8)
        requires
            old(self).wf(),
        ensures
            final(self).wf(),
            final(self).flags == p_written(old(self).flags, value),
            final(self).regs == narrowed(old(self).regs, old(self).flags, final(self).flags),
            final(self).hardware == old(self).hardware,
            final(self).run_state == old(self).run_state,
    {
        ProcessorState::set(&mut self.regs, &mut self.flags, value);
    }

    /// REP (`set` false) and SEP (`set` true): clears or sets the P bits of the immediate
    /// mask, then an IO cycle.
    #[verifier::rlimit(100)]
    pub fn change_processor_state(&mut self, set: bool) -> (r: u8)
        requires
            old(self).wf(),
        ensures
            final(self).wf(),
            final(self).run_state == old(self).run_state,
            byte_in(old(self).hardware, code_addr(old(self).regs, 0)) matches Some(b) ==> r == b,
            final(self).flags == p_written(old(self).flags, if set { p_byte(old(self).flags) | r } else { p_byte(old(self).flags) & !r }),
            final(self).regs == narrowed(pc_advanced(old(self).regs, 1), old(self).flags, final(self).flags),
    {
        let mask = self.read_next_u8();
        let p = ProcessorState::get(&self.flags);
        let v = if set { p | mask } else { p & !mask };
        self.write_processor_state(v);
        self.io_cycle();
        mask
    }

    /// XBA: swaps the accumulator's bytes; Z and N follow the 16-bit result.
    #[verifier::rlimit(100)]
    pub fn exchange_accumulators(&mut self)
        requires
            old(self).wf(),
        ensures
            final(self).wf(),
            final(self).run_state == old(self).run_state,
            final(self).regs == (CpuRegisters {
                accumulator: crate::bits::join(crate::bits::hi(old(self).regs.accumulator), lo(old(self).regs.accumulator)),
                ..old(self).regs
            }),
            final(self).flags == crate::instructions::nz(old(self).flags, final(self).regs.accumulator, true),
    {
        let a = self.regs.accumulator;
        let result = join_bytes(upper(a), lower(a));
        self.io_cycle();
        self.regs.accumulator = result;
        self.set_nz(result, true);
    }

    /// XCE: swaps carry and emulation, then an IO cycle. Entering emulation mode makes both
    /// widths 8-bit and clears the high bytes of the index registers.
    #[verifier::rlimit(100)]
    pub fn exchange_carry_and_emulation_bits(&mut self)
        requires
            old(self).wf(),
        ensures
            final(self).wf(),
            final(self).run_state == old(self).run_state,
            final(self).hardware.clock == crate::hardware::clock_after(old(self).hardware.clock, crate::cpu::IO_CYCLES),
            final(self).hardware.same_storage(&old(self).hardware),
            final(self).flags == (CpuFlags {
                carry: old(self).flags.emulation_mode,
                emulation_mode: old(self).flags.carry,
                memory_size: old(self).flags.carry || old(self).flags.memory_size,
                index_size: old(self).flags.carry || old(self).flags.index_size,
                ..old(self).flags
            }),
            final(self).regs == if old(self).flags.carry {
                CpuRegisters {
                    index_x: old(self).regs.index_x % 256,
                    index_y: old(self).regs.index_y % 256,
                    ..old(self).regs
                }
            } else {
                old(self).regs
            },
    {
        let carry = self.flags.carry;
        self.flags.carry = self.flags.emulation_mode;
        self.flags.emulation_mode = carry;
        if carry {
            self.flags.memory_size = true;
            self.flags.index_size = true;
            narrow(&mut self.regs, true, &self.flags);
        }
        self.io_cycle();
    }
}

impl Cpu {
    /// PHA, PHX, PHY (with the width) and PHD (16-bit): an IO cycle, then the push.
    #[verifier::rlimit(100)]
    pub fn push_register(&mut self, reg: crate::operations::Register, wide: bool)
        requires
            old(self).wf(),
            reg == crate::operations::Register::DirectPage ==> wide,
        ensures
            final(self).wf(),
            final(self).run_state == old(self).run_state,
            final(self).flags == old(self).flags,
            final(self).regs == Cpu::with_sp(old(self).regs, push_sp(old(self).regs.stack_pointer, if wide { 2 } else { 1 })),
    {
        let v = self.register_get(reg, wide);
        self.io_cycle();
        if wide {
            self.push_u16(v);
        } else {
            self.push_u8(lower(v));
        }
    }

    /// PHP, PHK and PHB push a byte: P, the program bank or the data bank.
    #[verifier::rlimit(100)]
    pub fn push_byte(&mut self, v: u8)
        requires
            old(self).wf(),
        ensures
            final(self).wf(),
            final(self).run_state == old(self).run_state,
            final(self).flags == old(self).flags,
            final(self).regs == Cpu::with_sp(old(self).regs, push_sp(old(self).regs.stack_pointer, 1)),
    {
        self.io_cycle();
        self.push_u8(v);
    }

    /// PLA, PLX, PLY (with the width) and PLD (16-bit): two IO cycles, the pull, Z and N
    /// from the value. Returns the value pulled.
    #[verifier::rlimit(100)]
    pub fn pull_register(&mut self, reg: crate::operations::Register, wide: bool) -> (r: u16)
        requires
            old(self).wf(),
            reg == crate::operations::Register::DirectPage ==> wide,
            reg == crate::operations::Register::IndexX || reg == crate::operations::Register::IndexY ==> wide
                == old(self).xwide(),
            reg != crate::operations::Register::StackPointer && reg != crate::operations::Register::Zero,
        ensures
            final(self).wf(),
            final(self).run_state == old(self).run_state,
            fits(r, wide),
            wide ==> (word_in(old(self).hardware, crate::cpu::zero_bank(old(self).regs.stack_pointer as int + 1)) matches Some(v)
                ==> r == v),
            !wide ==> (byte_in(old(self).hardware, crate::cpu::zero_bank(old(self).regs.stack_pointer as int + 1)) matches Some(v)
                ==> r == v as u16),
            final(self).flags == crate::instructions::nz(old(self).flags, r, wide),
            final(self).regs == crate::operations::register_written(
                Cpu::with_sp(old(self).regs, pull_sp(old(self).regs.stack_pointer, if wide { 2 } else { 1 })),
                reg,
                r,
                wide,
            ),
    {
        self.io_cycle();
        self.io_cycle();
        let v = if wide {
            self.pull_u16()
        } else {
            self.pull_u8() as u16
        };
        self.set_nz(v, wide);
        self.register_set(reg, v, wide);
        v
    }

    /// PLP: two IO cycles, then P is written from the stack.
    #[verifier::rlimit(100)]
    pub fn pull_processor_state(&mut self) -> (r: u8)
        requires
            old(self).wf(),
        ensures
            final(self).wf(),
            final(self).run_state == old(self).run_state,
            final(self).flags == p_written(old(self).flags, r),
            final(self).regs == narrowed(
                Cpu::with_sp(old(self).regs, pull_sp(old(self).regs.stack_pointer, 1)),
                old(self).flags,
                final(self).flags,
            ),
    {
        self.io_cycle();
        self.io_cycle();
        let v = self.pull_u8();
        self.write_processor_state(v);
        v
    }

    /// PLB: two IO cycles, then the data bank is pulled; Z and N from the byte.
    #[verifier::rlimit(100)]
    pub fn pull_data_bank(&mut self) -> (r: u8)
        requires
            old(self).wf(),
        ensures
            final(self).wf(),
            final(self).run_state == old(self).run_state,
            final(self).flags == crate::instructions::nz(old(self).flags, r as u16, false),
            final(self).regs == (CpuRegisters {
                data_bank: r,
                ..Cpu::with_sp(old(self).regs, pull_sp(old(self).regs.stack_pointer, 1))
            }),
    {
        self.io_cycle();
        self.io_cycle();
        let v = self.pull_u8();
        self.set_nz(v as u16, false);
        self.regs.data_bank = v;
        v
    }

    /// PEA, PEI and PER: pushes the offset of the resolved address; returns it.
    #[verifier::rlimit(100)]
    pub fn push_effective_address(&mut self, mode: crate::accessor::Mode) -> (r: u16)
        requires
            old(self).wf(),
            mode == crate::accessor::Mode::Absolute || mode == crate::accessor::Mode::DirectPageIndirect
                || mode == crate::accessor::Mode::ProgramCounterRelative,
        ensures
            final(self).wf(),
            final(self).run_state == old(self).run_state,
            final(self).flags == old(self).flags,
            final(self).regs == Cpu::with_sp(
                CpuRegisters { program_counter: final(self).regs.program_counter, ..old(self).regs },
                push_sp(old(self).regs.stack_pointer, 2),
            ),
    {
        let a = self.resolve(mode, true);
        let offset = match a {
            crate::accessor::Accessor::Memory(m) => m.offset,
            _ => 0,
        };
        self.push_u16(offset);
        offset
    }

    /// JMP and JML: returns the target; JML also loads the program bank.
    #[verifier::rlimit(100)]
    pub fn jump(&mut self, mode: crate::accessor::Mode, long: bool) -> (r: HardwareAddress)
        requires
            old(self).wf(),
            mode != crate::accessor::Mode::Immediate && mode != crate::accessor::Mode::Accumulator,
        ensures
            final(self).wf(),
            final(self).run_state == old(self).run_state,
            final(self).flags == old(self).flags,
            final(self).regs == (CpuRegisters {
                program_counter: r.offset,
                program_bank: if long { r.bank } else { old(self).regs.program_bank },
                ..old(self).regs
            }),
    {
        let a = self.resolve(mode, true);
        let target = match a {
            crate::accessor::Accessor::Memory(m) => m,
            _ => HardwareAddress::new(0, 0),
        };
        self.regs.program_counter = target.offset;
        if long {
            self.regs.program_bank = target.bank;
        }
        target
    }

    /// JSR: pushes the address of the instruction's last byte and jumps in the bank.
    #[verifier::rlimit(100)]
    pub fn jump_to_subroutine(&mut self, mode: crate::accessor::Mode) -> (r: HardwareAddress)
        requires
            old(self).wf(),
            mode != crate::accessor::Mode::Immediate && mode != crate::accessor::Mode::Accumulator,
        ensures
            final(self).wf(),
            final(self).run_state == old(self).run_state,
            final(self).flags == old(self).flags,
            final(self).regs == (CpuRegisters {
                program_counter: r.offset,
                stack_pointer: push_sp(old(self).regs.stack_pointer, 2),
                ..old(self).regs
            }),
    {
        let a = self.resolve(mode, true);
        let target = match a {
            crate::accessor::Accessor::Memory(m) => m,
            _ => HardwareAddress::new(0, 0),
        };
        let ret = ((self.regs.program_counter as u32 + 0xFFFF) % 0x10000) as u16;
        self.push_u16(ret);
        self.regs.program_counter = target.offset;
        target
    }

    /// JSL: an IO cycle, pushes the program bank and the address of the last byte, then
    /// jumps to the long address.
    #[verifier::rlimit(100)]
    pub fn jump_to_subroutine_long(&mut self) -> (r: HardwareAddress)
        requires
            old(self).wf(),
        ensures
            final(self).wf(),
            final(self).run_state == old(self).run_state,
            final(self).flags == old(self).flags,
            final(self).regs == (CpuRegisters {
                program_counter: r.offset,
                program_bank: r.bank,
                stack_pointer: push_sp(old(self).regs.stack_pointer, 3),
                ..old(self).regs
            }),
            word_in(old(self).hardware, code_addr(old(self).regs, 0)) matches Some(w) ==> r.offset == w,
            byte_in(old(self).hardware, code_addr(old(self).regs, 2)) matches Some(b) ==> r.bank == b,
    {
        let target = AbsoluteLong::resolve(self).0;
        self.io_cycle();
        let bank = self.regs.program_bank;
        self.push_u8(bank);
        let ret = ((self.regs.program_counter as u32 + 0xFFFF) % 0x10000) as u16;
        self.push_u16(ret);
        self.regs.program_bank = target.bank;
        self.regs.program_counter = target.offset;
        target
    }

    /// RTS: pulls the return address and continues after it.
    #[verifier::rlimit(100)]
    pub fn return_from_subroutine(&mut self) -> (r: u16)
        requires
            old(self).wf(),
        ensures
            final(self).wf(),
            word_in(old(self).hardware, crate::cpu::zero_bank(old(self).regs.stack_pointer as int + 1)) matches Some(v)
                ==> r == v,
            final(self).run_state == old(self).run_state,
            final(self).flags == old(self).flags,
            final(self).regs == (CpuRegisters {
                program_counter: ((r as int + 1) % 0x10000) as u16,
                stack_pointer: pull_sp(old(self).regs.stack_pointer, 2),
                ..old(self).regs
            }),
    {
        self.io_cycle();
        self.io_cycle();
        let v = self.pull_u16();
        self.regs.program_counter = ((v as u32 + 1) % 0x10000) as u16;
        self.io_cycle();
        v
    }

    /// RTL: pulls the return address and the program bank.
    #[verifier::rlimit(100)]
    pub fn return_from_subroutine_long(&mut self) -> (r: (u16, u8))
        requires
            old(self).wf(),
        ensures
            final(self).wf(),
            word_in(old(self).hardware, crate::cpu::zero_bank(old(self).regs.stack_pointer as int + 1)) matches Some(v)
                ==> r.0 == v,
            byte_in(old(self).hardware, crate::cpu::zero_bank(old(self).regs.stack_pointer as int + 3)) matches Some(b)
                ==> r.1 == b,
            final(self).run_state == old(self).run_state,
            final(self).flags == old(self).flags,
            final(self).regs == (CpuRegisters {
                program_counter: ((r.0 as int + 1) % 0x10000) as u16,
                program_bank: r.1,
                stack_pointer: pull_sp(old(self).regs.stack_pointer, 3),
                ..old(self).regs
            }),
    {
        self.io_cycle();
        self.io_cycle();
        let v = self.pull_u16();
        self.regs.program_counter = ((v as u32 + 1) % 0x10000) as u16;
        let bank = self.pull_u8();
        self.regs.program_bank = bank;
        (v, bank)
    }

    /// Pulls the program counter and, in native mode, the program bank.
    #[verifier::rlimit(100)]
    fn pull_return_address(&mut self)
        requires
            old(self).wf(),
        ensures
            final(self).wf(),
            final(self).run_state == old(self).run_state,
            final(self).flags == old(self).flags,
            final(self).hardware.same_storage(&old(self).hardware),
            final(self).regs == (CpuRegisters {
                program_counter: final(self).regs.program_counter,
                program_bank: final(self).regs.program_bank,
                stack_pointer: pull_sp(old(self).regs.stack_pointer, if old(self).flags.emulation_mode { 2 } else { 3 }),
                ..old(self).regs
            }),
            word_in(old(self).hardware, crate::cpu::zero_bank(old(self).regs.stack_pointer as int + 1)) matches Some(pc)
                ==> final(self).regs.program_counter == pc,
            old(self).flags.emulation_mode ==> final(self).regs.program_bank == old(self).regs.program_bank,
            !old(self).flags.emulation_mode ==> (byte_in(old(self).hardware, crate::cpu::zero_bank(
                old(self).regs.stack_pointer as int + 3,
            )) matches Some(b) ==> final(self).regs.program_bank == b),
    {
        let pc = self.pull_u16();
        self.regs.program_counter = pc;
        if !self.flags.emulation_mode {
            let bank = self.pull_u8();
            self.regs.program_bank = bank;
        }
    }

    /// RTI: pulls P, the program counter and, in native mode, the program bank.
    #[verifier::rlimit(100)]
    pub fn return_from_interrupt(&mut self)
        requires
            old(self).wf(),
        ensures
            final(self).wf(),
            final(self).run_state == old(self).run_state,
            final(self).flags.emulation_mode == old(self).flags.emulation_mode,
            final(self).regs.stack_pointer == pull_sp(
                old(self).regs.stack_pointer,
                if old(self).flags.emulation_mode { 3 } else { 4 },
            ),
            old(self).flags.emulation_mode ==> final(self).regs.program_bank == old(self).regs.program_bank,
            byte_in(old(self).hardware, crate::cpu::zero_bank(old(self).regs.stack_pointer as int + 1)) matches Some(p)
                ==> final(self).flags == p_written(old(self).flags, p),
            word_in(old(self).hardware, crate::cpu::zero_bank(old(self).regs.stack_pointer as int + 2)) matches Some(pc)
                ==> final(self).regs.program_counter == pc,
            !old(self).flags.emulation_mode ==> (byte_in(old(self).hardware, crate::cpu::zero_bank(
                old(self).regs.stack_pointer as int + 4,
            )) matches Some(b) ==> final(self).regs.program_bank == b),
    {
        self.io_cycle();
        self.io_cycle();
        let p = self.pull_u8();
        self.write_processor_state(p);
        self.pull_return_address();
    }

    /// MVN (`increment`) and MVP: moves one byte from the source bank at X to the
    /// destination bank at Y, steps X and Y, decrements A, and repeats the instruction
    /// until A wraps past zero.
    #[verifier::rlimit(100)]
    pub fn move_block(&mut self, increment: bool) -> (r: (u8, u8))
        requires
            old(self).wf(),
        ensures
            final(self).wf(),
            final(self).run_state == old(self).run_state,
            final(self).flags == old(self).flags,
            final(self).regs == (CpuRegisters {
                accumulator: ((old(self).regs.accumulator as int + 0xFFFF) % 0x10000) as u16,
                index_x: add_w(old(self).regs.index_x, if increment { 1 } else { -1 }, old(self).xwide()),
                index_y: add_w(old(self).regs.index_y, if increment { 1 } else { -1 }, old(self).xwide()),
                program_counter: if old(self).regs.accumulator == 0 {
                    ((old(self).regs.program_counter as int + 2) % 0x10000) as u16
                } else {
                    ((old(self).regs.program_counter as int + 0xFFFF) % 0x10000) as u16
                },
                ..old(self).regs
            }),
            byte_in(old(self).hardware, code_addr(old(self).regs, 0)) matches Some(d) ==> r.0 == d,
            byte_in(old(self).hardware, code_addr(old(self).regs, 1)) matches Some(s) ==> r.1 == s,
            byte_in(old(self).hardware, HardwareAddress { bank: r.1, offset: old(self).regs.index_x }) matches Some(v)
                ==> final(self).hardware.written(
                &old(self).hardware,
                route(old(self).hardware.rom.mode, HardwareAddress { bank: r.0, offset: old(self).regs.index_y }),
                v,
            ),
            final(self).hardware.clock == crate::hardware::clock_after(
                crate::hardware::clock_after(
                    crate::hardware::clock_after(
                        crate::hardware::clock_after(
                            crate::hardware::clock_after(
                                crate::hardware::clock_after(
                                    old(self).hardware.clock,
                                    route(old(self).hardware.rom.mode, code_addr(old(self).regs, 0)).cycles,
                                ),
                                route(old(self).hardware.rom.mode, code_addr(old(self).regs, 1)).cycles,
                            ),
                            route(old(self).hardware.rom.mode, HardwareAddress { bank: r.1, offset: old(self).regs.index_x }).cycles,
                        ),
                        route(old(self).hardware.rom.mode, HardwareAddress { bank: r.0, offset: old(self).regs.index_y }).cycles,
                    ),
                    crate::cpu::IO_CYCLES,
                ),
                crate::cpu::IO_CYCLES,
            ),
    {
        let dst_bank = self.read_next_u8();
        let src_bank = self.read_next_u8();
        let value = self.hardware.read_u8(HardwareAddress::new(src_bank, self.regs.index_x));
        self.hardware.write_u8(HardwareAddress::new(dst_bank, self.regs.index_y), value);
        let wide = !self.flags.index_size;
        self.regs.index_x = step(self.regs.index_x, increment, wide);
        self.regs.index_y = step(self.regs.index_y, increment, wide);
        self.regs.accumulator = ((self.regs.accumulator as u32 + 0xFFFF) % 0x10000) as u16;
        self.io_cycle();
        self.io_cycle();
        if self.regs.accumulator != 0xFFFF {
            self.regs.program_counter = ((self.regs.program_counter as u32 + 0xFFFD) % 0x10000) as u16;
        }
        (dst_bank, src_bank)
    }

    /// Pushes the program bank (native mode, then cleared) and the program counter.
    #[verifier::rlimit(100)]
    fn push_return_address(&mut self)
        requires
            old(self).wf(),
        ensures
            final(self).wf(),
            final(self).run_state == old(self).run_state,
            final(self).flags == old(self).flags,
            final(self).regs == (CpuRegisters {
                stack_pointer: push_sp(old(self).regs.stack_pointer, if old(self).flags.emulation_mode { 2 } else { 3 }),
                program_bank: if old(self).flags.emulation_mode { old(self).regs.program_bank } else { 0 },
                ..old(self).regs
            }),
            final(self).hardware.rom.mode == old(self).hardware.rom.mode,
            final(self).hardware.rom.data.0@ == old(self).hardware.rom.data.0@,
            final(self).hardware.keeps_requests(&old(self).hardware),
            4 <= old(self).regs.stack_pointer < 0x2000 && !old(self).flags.emulation_mode ==> final(self).hardware.wram.data.0@
                == old(self).hardware.wram.data.0@.update(old(self).regs.stack_pointer as int, old(self).regs.program_bank).update(
                old(self).regs.stack_pointer as int - 2,
                lo(old(self).regs.program_counter),
            ).update(old(self).regs.stack_pointer as int - 1, crate::bits::hi(old(self).regs.program_counter)),
            4 <= old(self).regs.stack_pointer < 0x2000 && old(self).flags.emulation_mode ==> final(self).hardware.wram.data.0@
                == old(self).hardware.wram.data.0@.update(
                old(self).regs.stack_pointer as int - 1,
                lo(old(self).regs.program_counter),
            ).update(old(self).regs.stack_pointer as int, crate::bits::hi(old(self).regs.program_counter)),
    {
        let s0 = self.regs.stack_pointer;
        proof {
            if 4 <= s0 < 0x2000 {
                crate::hardware::lemma_low_ram(self.hardware.rom.mode, s0);
                crate::hardware::lemma_low_ram(self.hardware.rom.mode, (s0 - 1) as u16);
                crate::hardware::lemma_low_ram(self.hardware.rom.mode, (s0 - 2) as u16);
            }
        }
        if !self.flags.emulation_mode {
            let bank = self.regs.program_bank;
            self.push_u8(bank);
            self.regs.program_bank = 0;
        }
        let pc = self.regs.program_counter;
        self.push_u16(pc);
    }

    /// Pushes the return address and P, with B as given.
    #[verifier::rlimit(100)]
    fn push_interrupt_frame(&mut self, set_break: bool)
        requires
            old(self).wf(),
        ensures
            final(self).wf(),
            final(self).run_state == old(self).run_state,
            final(self).flags == (CpuFlags { break_flag: set_break, ..old(self).flags }),
            final(self).regs == (CpuRegisters {
                stack_pointer: push_sp(old(self).regs.stack_pointer, if old(self).flags.emulation_mode { 3 } else { 4 }),
                program_bank: if old(self).flags.emulation_mode { old(self).regs.program_bank } else { 0 },
                ..old(self).regs
            }),
            final(self).hardware.rom.mode == old(self).hardware.rom.mode,
            final(self).hardware.rom.data.0@ == old(self).hardware.rom.data.0@,
            final(self).hardware.keeps_requests(&old(self).hardware),
            4 <= old(self).regs.stack_pointer < 0x2000 && !old(self).flags.emulation_mode ==> final(self).hardware.wram.data.0@
                == old(self).hardware.wram.data.0@.update(old(self).regs.stack_pointer as int, old(self).regs.program_bank).update(
                old(self).regs.stack_pointer as int - 2,
                lo(old(self).regs.program_counter),
            ).update(old(self).regs.stack_pointer as int - 1, crate::bits::hi(old(self).regs.program_counter)).update(
                old(self).regs.stack_pointer as int - 3,
                p_byte(CpuFlags { break_flag: set_break, ..old(self).flags }),
            ),
            4 <= old(self).regs.stack_pointer < 0x2000 && old(self).flags.emulation_mode ==> final(self).hardware.wram.data.0@
                == old(self).hardware.wram.data.0@.update(
                old(self).regs.stack_pointer as int - 1,
                lo(old(self).regs.program_counter),
            ).update(old(self).regs.stack_pointer as int, crate::bits::hi(old(self).regs.program_counter)).update(
                old(self).regs.stack_pointer as int - 2,
                p_byte(CpuFlags { break_flag: set_break, ..old(self).flags }),
            ),
    {
        let s0 = self.regs.stack_pointer;
        proof {
            if 4 <= s0 < 0x2000 {
                crate::hardware::lemma_low_ram(self.hardware.rom.mode, (s0 - 2) as u16);
                crate::hardware::lemma_low_ram(self.hardware.rom.mode, (s0 - 3) as u16);
            }
        }
        self.push_return_address();
        self.flags.break_flag = set_break;
        let p = ProcessorState::get(&self.flags);
        self.push_u8(p);
    }

    /// Loads the program counter from an interrupt vector in bank 0.
    #[verifier::rlimit(100)]
    fn load_vector(&mut self, vector: u16)
        requires
            old(self).wf(),
        ensures
            final(self).wf(),
            final(self).run_state == old(self).run_state,
            final(self).flags == old(self).flags,
            final(self).regs == (CpuRegisters { program_counter: final(self).regs.program_counter, ..old(self).regs }),
            rom_word(old(self).hardware, HardwareAddress { bank: 0, offset: vector }) matches Some(v)
                ==> final(self).regs.program_counter == v,
            final(self).hardware.same_storage(&old(self).hardware),
    {
        self.regs.program_counter = self.hardware.read_u16(HardwareAddress::new(0, vector));
    }

    /// Interrupt entry: BRK and COP read their signature byte; two IO cycles; in native
    /// mode the program bank is pushed and cleared; the program counter and P are pushed
    /// (B set for BRK only); the program counter is loaded from the vector; D is cleared
    /// and I set except for NMI.
    #[verifier::rlimit(100)]
    pub fn interrupt<I: Interrupt>(&mut self)
        requires
            old(self).wf(),
        ensures
            final(self).wf(),
            final(self).hardware.keeps_requests(&old(self).hardware),
            4 <= old(self).regs.stack_pointer < 0x2000 && !old(self).flags.emulation_mode ==> final(self).hardware.wram.data.0@[old(
                self,
            ).regs.stack_pointer as int] == old(self).regs.program_bank && final(self).hardware.wram.data.0@[old(
                self,
            ).regs.stack_pointer as int - 1] == crate::bits::hi(interrupted_pc::<I>(old(self).regs))
                && final(self).hardware.wram.data.0@[old(self).regs.stack_pointer as int - 2] == lo(
                interrupted_pc::<I>(old(self).regs),
            ) && final(self).hardware.wram.data.0@[old(self).regs.stack_pointer as int - 3] == p_byte(
                CpuFlags { break_flag: I::spec_set_break(), ..old(self).flags },
            ),
            4 <= old(self).regs.stack_pointer < 0x2000 && old(self).flags.emulation_mode ==> final(self).hardware.wram.data.0@[old(
                self,
            ).regs.stack_pointer as int] == crate::bits::hi(interrupted_pc::<I>(old(self).regs))
                && final(self).hardware.wram.data.0@[old(self).regs.stack_pointer as int - 1] == lo(
                interrupted_pc::<I>(old(self).regs),
            ) && final(self).hardware.wram.data.0@[old(self).regs.stack_pointer as int - 2] == p_byte(
                CpuFlags { break_flag: I::spec_set_break(), ..old(self).flags },
            ),
            final(self).run_state == old(self).run_state,
            final(self).flags == (CpuFlags {
                break_flag: I::spec_set_break(),
                decimal_mode: false,
                interrupt_disable: I::spec_set_interrupt_disable() || old(self).flags.interrupt_disable,
                ..old(self).flags
            }),
            final(self).regs.stack_pointer == push_sp(
                old(self).regs.stack_pointer,
                if old(self).flags.emulation_mode { 3 } else { 4 },
            ),
            final(self).regs.program_bank == if old(self).flags.emulation_mode { old(self).regs.program_bank } else { 0 },
            final(self).regs.accumulator == old(self).regs.accumulator,
            final(self).regs.index_x == old(self).regs.index_x,
            final(self).regs.index_y == old(self).regs.index_y,
            final(self).regs.data_bank == old(self).regs.data_bank,
            final(self).regs.direct_page == old(self).regs.direct_page,
            rom_word(
                old(self).hardware,
                HardwareAddress {
                    bank: 0,
                    offset: if old(self).flags.emulation_mode { I::spec_emulation_vector() } else { I::spec_native_vector() },
                },
            ) matches Some(v) ==> final(self).regs.program_counter == v,
    {
        if I::has_signature() {
            let _signature = self.read_next_u8();
        }
        self.io_cycle();
        self.io_cycle();
        let vector = if self.flags.emulation_mode {
            I::emulation_vector()
        } else {
            I::native_vector()
        };
        self.push_interrupt_frame(I::set_break());
        self.load_vector(vector);
        self.flags.decimal_mode = false;
        if I::set_interrupt_disable() {
            self.flags.interrupt_disable = true;
        }
    }
}

} // verus!
