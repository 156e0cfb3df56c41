use vstd::prelude::*;
use crate::accessor::Mode;
use crate::alu::{fits, add_w, step};
use crate::control::{BranchCondition, Flag, taken, branch_target};
use crate::cpu::{byte_in, code_addr, pc_advanced, immediate_operand, immediate_clock, IO_CYCLES};
use crate::hardware::{Hardware, clock_after, route, forward_only, serviced, dma_cycles};
use crate::dma::DMA_CHANNEL_COUNT;
use crate::memory_mode::{effective_address, operand_length};
use crate::instructions::alu;
use crate::cpu::{Cpu, CpuError, RunState};
use crate::instructions::{AluOp, ModifyOp, nz};
use crate::interrupt::{Break, Coprocessor, Irq, Nmi};
use crate::operations::{IndexOp, Register};
use crate::register::{CpuRegisters, CpuFlags, ProcessorState};
use crate::registers::{ACTION_NMI, ACTION_IRQ, ACTION_DMA};
use crate::stack::push_sp;

verus! {

/// The opcode is an ADC or SBC.
pub open spec fn is_add_or_subtract(opcode: u8) -> bool {
    let low = opcode % 32;
    (opcode / 32 == 3 || opcode / 32 == 7) && (low == 0x01 || low == 0x03 || low == 0x05 || low == 0x07
        || low == 0x09 || low == 0x0D || low == 0x0F || low == 0x11 || low == 0x12 || low == 0x13 || low == 0x15
        || low == 0x17 || low == 0x19 || low == 0x1D || low == 0x1F)
}

/// What an instruction leaves in the flags and the run state, for the opcodes that only
/// set or clear a flag or change the run state.
pub open spec fn simple_effect(opcode: u8, old: Cpu, new: Cpu) -> bool {
    &&& (opcode == 0x18 ==> !new.flags.carry)
    &&& (opcode == 0x38 ==> new.flags.carry)
    &&& (opcode == 0x58 ==> !new.flags.interrupt_disable)
    &&& (opcode == 0x78 ==> new.flags.interrupt_disable)
    &&& (opcode == 0xB8 ==> !new.flags.overflow)
    &&& (opcode == 0xD8 ==> !new.flags.decimal_mode)
    &&& (opcode == 0xF8 ==> new.flags.decimal_mode)
    &&& (opcode == 0xCB ==> new.run_state == RunState::Waiting)
    &&& (opcode == 0xDB ==> new.run_state == RunState::Stopped)
    &&& (opcode == 0xFB ==> new.flags.emulation_mode == old.flags.carry && new.flags.carry
        == old.flags.emulation_mode)
}

/// The accumulator operation of an immediate-operand opcode.
pub open spec fn alu_immediate(opcode: u8) -> Option<AluOp> {
    if opcode == 0x09 {
        Some(AluOp::Or)
    } else if opcode == 0x29 {
        Some(AluOp::And)
    } else if opcode == 0x49 {
        Some(AluOp::Eor)
    } else if opcode == 0x69 {
        Some(AluOp::Adc)
    } else if opcode == 0xE9 {
        Some(AluOp::Sbc)
    } else if opcode == 0xA9 {
        Some(AluOp::Load)
    } else if opcode == 0xC9 {
        Some(AluOp::Compare)
    } else if opcode == 0x89 {
        Some(AluOp::BitImmediate)
    } else {
        None
    }
}

/// The addressing mode that the low five bits of an accumulator-group opcode select.
pub open spec fn group_mode(low: int) -> Option<Mode> {
    if low == 0x01 {
        Some(Mode::DirectPageIndexedXIndirect)
    } else if low == 0x03 {
        Some(Mode::StackRelative)
    } else if low == 0x05 {
        Some(Mode::DirectPage)
    } else if low == 0x07 {
        Some(Mode::DirectPageIndirectLong)
    } else if low == 0x0D {
        Some(Mode::Absolute)
    } else if low == 0x0F {
        Some(Mode::AbsoluteLong)
    } else if low == 0x11 {
        Some(Mode::DirectPageIndirectIndexedY)
    } else if low == 0x12 {
        Some(Mode::DirectPageIndirect)
    } else if low == 0x13 {
        Some(Mode::StackRelativeIndirectIndexedY)
    } else if low == 0x15 {
        Some(Mode::DirectPageIndexedX)
    } else if low == 0x17 {
        Some(Mode::DirectPageIndirectLongIndexedY)
    } else if low == 0x19 {
        Some(Mode::AbsoluteIndexedY)
    } else if low == 0x1D {
        Some(Mode::AbsoluteIndexedX)
    } else if low == 0x1F {
        Some(Mode::AbsoluteLongIndexedX)
    } else {
        None
    }
}

/// ORA, AND, EOR, ADC, LDA, CMP and SBC with a memory operand: the operation and mode.
pub open spec fn alu_memory(opcode: u8) -> Option<(AluOp, Mode)> {
    let high = opcode / 32;
    let op = if high == 0 {
        Some(AluOp::Or)
    } else if high == 1 {
        Some(AluOp::And)
    } else if high == 2 {
        Some(AluOp::Eor)
    } else if high == 3 {
        Some(AluOp::Adc)
    } else if high == 5 {
        Some(AluOp::Load)
    } else if high == 6 {
        Some(AluOp::Compare)
    } else if high == 7 {
        Some(AluOp::Sbc)
    } else {
        None
    };
    match (op, group_mode((opcode % 32) as int)) {
        (Some(o), Some(m)) => Some((o, m)),
        _ => None,
    }
}

/// The operand of the width at a bus address, where it is plain storage.
pub open spec fn operand_at(hw: Hardware, a: crate::address::HardwareAddress, wide: bool) -> Option<u16> {
    if wide {
        crate::cpu::word_in(hw, a)
    } else {
        match byte_in(hw, a) {
            Some(b) => Some(b as u16),
            None => None,
        }
    }
}

/// The machine with the given registers, flags and hardware.
pub open spec fn machine(r: CpuRegisters, f: CpuFlags, hw: Hardware) -> Cpu {
    Cpu { hardware: hw, regs: r, flags: f, run_state: RunState::Running }
}

/// The condition of a relative-branch opcode.
pub open spec fn branch_of(opcode: u8) -> Option<BranchCondition> {
    if opcode == 0x10 {
        Some(BranchCondition::Plus)
    } else if opcode == 0x30 {
        Some(BranchCondition::Minus)
    } else if opcode == 0x50 {
        Some(BranchCondition::OverflowClear)
    } else if opcode == 0x70 {
        Some(BranchCondition::OverflowSet)
    } else if opcode == 0x90 {
        Some(BranchCondition::CarryClear)
    } else if opcode == 0xB0 {
        Some(BranchCondition::CarrySet)
    } else if opcode == 0xD0 {
        Some(BranchCondition::NotEqual)
    } else if opcode == 0xF0 {
        Some(BranchCondition::Equal)
    } else if opcode == 0x80 {
        Some(BranchCondition::Always)
    } else {
        None
    }
}

/// What an opcode does when executed with registers `r`, flags `f`, bus storage as in
/// `hw` and clock `c` (the program counter just past the opcode), for the immediate
/// accumulator operations and the relative branches: registers, flags, program counter
/// and cycles charged.
pub open spec fn executed(opcode: u8, r: CpuRegisters, f: CpuFlags, hw: Hardware, c: u64, new: Cpu) -> bool {
    &&& (alu_immediate(opcode) matches Some(op) ==> (!(f.decimal_mode && (op == AluOp::Adc || op == AluOp::Sbc)) ==> (
    new.regs.program_counter == pc_advanced(r, if !f.memory_size { 2 } else { 1 }).program_counter
        && new.hardware.clock == immediate_clock(hw, r, !f.memory_size, c) && (immediate_operand(
        hw,
        r,
        !f.memory_size,
    ) matches Some(v) ==> (new.regs, new.flags) == alu(
        op,
        CpuRegisters { program_counter: new.regs.program_counter, ..r },
        f,
        v,
        !f.memory_size,
    )))))
    &&& (alu_memory(opcode) matches Some((op, mode)) ==> (!(f.decimal_mode && (op == AluOp::Adc || op == AluOp::Sbc))
        ==> new.regs.program_counter == pc_advanced(r, operand_length(mode)).program_counter && (effective_address(
        mode,
        machine(r, f, hw),
    ) matches Some(a) ==> (operand_at(hw, a, !f.memory_size) matches Some(v) ==> (new.regs, new.flags) == alu(
        op,
        CpuRegisters { program_counter: new.regs.program_counter, ..r },
        f,
        v,
        !f.memory_size,
    )))))
    &&& (branch_of(opcode) matches Some(cond) ==> (new.flags == f && new.regs == (CpuRegisters {
        program_counter: new.regs.program_counter,
        ..r
    }) && (!taken(cond, f) ==> new.regs.program_counter == pc_advanced(r, 1).program_counter
        && new.hardware.clock == clock_after(c, route(hw.rom.mode, code_addr(r, 0)).cycles)) && (taken(cond, f) ==> (
    byte_in(hw, code_addr(r, 0)) matches Some(b) ==> new.regs.program_counter == branch_target(
        r.program_counter as int + 1,
        b,
    )) && new.hardware.clock == clock_after(
        clock_after(c, route(hw.rom.mode, code_addr(r, 0)).cycles),
        IO_CYCLES,
    ))))
}

impl Cpu {
    /// An accumulator operation as one instruction step.
    #[verifier::rlimit(100)]
    fn alu_step(&mut self, op: AluOp, mode: Mode) -> (r: Result<(), CpuError>)
        requires
            old(self).wf(),
            mode != Mode::Accumulator,
        ensures
            final(self).wf(),
            final(self).run_state == old(self).run_state,
            r is Err <==> (op == AluOp::Adc || op == AluOp::Sbc) && old(self).flags.decimal_mode,
            r is Err ==> r == Err::<(), CpuError>(CpuError::DecimalMode),
            mode != Mode::Immediate && !(old(self).flags.decimal_mode && (op == AluOp::Adc || op == AluOp::Sbc)) ==> (
            final(self).regs.program_counter == pc_advanced(old(self).regs, operand_length(mode)).program_counter
                && (effective_address(mode, machine(old(self).regs, old(self).flags, old(self).hardware)) matches Some(a)
                ==> (operand_at(old(self).hardware, a, !old(self).flags.memory_size) matches Some(v)
                ==> (final(self).regs, final(self).flags) == alu(
                op,
                CpuRegisters { program_counter: final(self).regs.program_counter, ..old(self).regs },
                old(self).flags,
                v,
                !old(self).flags.memory_size,
            )))),
            mode == Mode::Immediate && !(old(self).flags.decimal_mode && (op == AluOp::Adc || op == AluOp::Sbc)) ==> (
            final(self).regs.program_counter == pc_advanced(old(self).regs, if !old(self).flags.memory_size { 2 } else { 1 }).program_counter
                && final(self).hardware.clock == immediate_clock(old(self).hardware, old(self).regs, !old(self).flags.memory_size, old(self).hardware.clock)
                && (immediate_operand(old(self).hardware, old(self).regs, !old(self).flags.memory_size) matches Some(v)
                ==> (final(self).regs, final(self).flags) == alu(
                op,
                CpuRegisters { program_counter: final(self).regs.program_counter, ..old(self).regs },
                old(self).flags,
                v,
                !old(self).flags.memory_size,
            ))),
    {
        match self.accumulator_op(op, mode) {
            Ok(_) => Ok(()),
            Err(e) => Err(e),
        }
    }

    /// INX, INY, DEX and DEY with the index width: an IO cycle, Z and N from the result.
    #[verifier::rlimit(100)]
    pub fn step_index(&mut self, reg: Register, up: bool)
        requires
            old(self).wf(),
            reg == Register::IndexX || reg == Register::IndexY,
        ensures
            final(self).wf(),
            final(self).run_state == old(self).run_state,
            reg == Register::IndexX ==> final(self).regs == (CpuRegisters {
                index_x: add_w(old(self).regs.index_x, if up { 1 } else { -1 }, old(self).xwide()),
                ..old(self).regs
            }) && final(self).flags == nz(old(self).flags, final(self).regs.index_x, old(self).xwide()),
            reg == Register::IndexY ==> final(self).regs == (CpuRegisters {
                index_y: add_w(old(self).regs.index_y, if up { 1 } else { -1 }, old(self).xwide()),
                ..old(self).regs
            }) && final(self).flags == nz(old(self).flags, final(self).regs.index_y, old(self).xwide()),
    {
        let wide = !self.flags.index_size;
        let v = if reg == Register::IndexX {
            self.regs.index_x
        } else {
            self.regs.index_y
        };
        let x = step(v, up, wide);
        self.io_cycle();
        if reg == Register::IndexX {
            self.regs.index_x = x;
        } else {
            self.regs.index_y = x;
        }
        self.set_nz(x, wide);
    }

    #[verifier::rlimit(100)]
    fn execute_00_3f(&mut self, opcode: u8) -> (r: Result<(), CpuError>)
        requires
            old(self).wf(),
            0 <= opcode <= 63,
        ensures
            final(self).wf(),
            r is Err <==> old(self).flags.decimal_mode && is_add_or_subtract(opcode),
            r is Err ==> r == Err::<(), CpuError>(CpuError::DecimalMode),
            simple_effect(opcode, *old(self), *final(self)),
            executed(opcode, old(self).regs, old(self).flags, old(self).hardware, old(self).hardware.clock, *final(self)),
    {
        match opcode {
            0x00 => { self.interrupt::<Break>(); Ok(()) },
            0x01 => self.alu_step(AluOp::Or, Mode::DirectPageIndexedXIndirect),
            0x02 => { self.interrupt::<Coprocessor>(); Ok(()) },
            0x03 => self.alu_step(AluOp::Or, Mode::StackRelative),
            0x04 => { self.modify(ModifyOp::Tsb, Mode::DirectPage); Ok(()) },
            0x05 => self.alu_step(AluOp::Or, Mode::DirectPage),
            0x06 => { self.modify(ModifyOp::Asl, Mode::DirectPage); Ok(()) },
            0x07 => self.alu_step(AluOp::Or, Mode::DirectPageIndirectLong),
            0x08 => { let p = ProcessorState::get(&self.flags); self.push_byte(p); Ok(()) },
            0x09 => self.alu_step(AluOp::Or, Mode::Immediate),
            0x0A => { self.modify(ModifyOp::Asl, Mode::Accumulator); Ok(()) },
            0x0B => { self.push_register(Register::DirectPage, true); Ok(()) },
            0x0C => { self.modify(ModifyOp::Tsb, Mode::Absolute); Ok(()) },
            0x0D => self.alu_step(AluOp::Or, Mode::Absolute),
            0x0E => { self.modify(ModifyOp::Asl, Mode::Absolute); Ok(()) },
            0x0F => self.alu_step(AluOp::Or, Mode::AbsoluteLong),
            0x10 => { self.branch(BranchCondition::Plus); Ok(()) },
            0x11 => self.alu_step(AluOp::Or, Mode::DirectPageIndirectIndexedY),
            0x12 => self.alu_step(AluOp::Or, Mode::DirectPageIndirect),
            0x13 => self.alu_step(AluOp::Or, Mode::StackRelativeIndirectIndexedY),
            0x14 => { self.modify(ModifyOp::Trb, Mode::DirectPage); Ok(()) },
            0x15 => self.alu_step(AluOp::Or, Mode::DirectPageIndexedX),
            0x16 => { self.modify(ModifyOp::Asl, Mode::DirectPageIndexedX); Ok(()) },
            0x17 => self.alu_step(AluOp::Or, Mode::DirectPageIndirectLongIndexedY),
            0x18 => { self.set_flag(Flag::Carry, false); Ok(()) },
            0x19 => self.alu_step(AluOp::Or, Mode::AbsoluteIndexedY),
            0x1A => { self.modify(ModifyOp::Inc, Mode::Accumulator); Ok(()) },
            0x1B => { self.transfer(Register::Accumulator, Register::StackPointer, true); Ok(()) },
            0x1C => { self.modify(ModifyOp::Trb, Mode::Absolute); Ok(()) },
            0x1D => self.alu_step(AluOp::Or, Mode::AbsoluteIndexedX),
            0x1E => { self.modify(ModifyOp::Asl, Mode::AbsoluteIndexedX); Ok(()) },
            0x1F => self.alu_step(AluOp::Or, Mode::AbsoluteLongIndexedX),
            0x20 => { self.jump_to_subroutine(Mode::Absolute); Ok(()) },
            0x21 => self.alu_step(AluOp::And, Mode::DirectPageIndexedXIndirect),
            0x22 => { self.jump_to_subroutine_long(); Ok(()) },
            0x23 => self.alu_step(AluOp::And, Mode::StackRelative),
            0x24 => self.alu_step(AluOp::Bit, Mode::DirectPage),
            0x25 => self.alu_step(AluOp::And, Mode::DirectPage),
            0x26 => { self.modify(ModifyOp::Rol, Mode::DirectPage); Ok(()) },
            0x27 => self.alu_step(AluOp::And, Mode::DirectPageIndirectLong),
            0x28 => { self.pull_processor_state(); Ok(()) },
            0x29 => self.alu_step(AluOp::And, Mode::Immediate),
            0x2A => { self.modify(ModifyOp::Rol, Mode::Accumulator); Ok(()) },
            0x2B => { self.pull_register(Register::DirectPage, true); Ok(()) },
            0x2C => self.alu_step(AluOp::Bit, Mode::Absolute),
            0x2D => self.alu_step(AluOp::And, Mode::Absolute),
            0x2E => { self.modify(ModifyOp::Rol, Mode::Absolute); Ok(()) },
            0x2F => self.alu_step(AluOp::And, Mode::AbsoluteLong),
            0x30 => { self.branch(BranchCondition::Minus); Ok(()) },
            0x31 => self.alu_step(AluOp::And, Mode::DirectPageIndirectIndexedY),
            0x32 => self.alu_step(AluOp::And, Mode::DirectPageIndirect),
            0x33 => self.alu_step(AluOp::And, Mode::StackRelativeIndirectIndexedY),
            0x34 => self.alu_step(AluOp::Bit, Mode::DirectPageIndexedX),
            0x35 => self.alu_step(AluOp::And, Mode::DirectPageIndexedX),
            0x36 => { self.modify(ModifyOp::Rol, Mode::DirectPageIndexedX); Ok(()) },
            0x37 => self.alu_step(AluOp::And, Mode::DirectPageIndirectLongIndexedY),
            0x38 => { self.set_flag(Flag::Carry, true); Ok(()) },
            0x39 => self.alu_step(AluOp::And, Mode::AbsoluteIndexedY),
            0x3A => { self.modify(ModifyOp::Dec, Mode::Accumulator); Ok(()) },
            0x3B => { self.transfer(Register::StackPointer, Register::Accumulator, true); Ok(()) },
            0x3C => self.alu_step(AluOp::Bit, Mode::AbsoluteIndexedX),
            0x3D => self.alu_step(AluOp::And, Mode::AbsoluteIndexedX),
            0x3E => { self.modify(ModifyOp::Rol, Mode::AbsoluteIndexedX); Ok(()) },
            0x3F => self.alu_step(AluOp::And, Mode::AbsoluteLongIndexedX),
            _ => Ok(()),
        }
    }

    #[verifier::rlimit(100)]
    fn execute_40_7f(&mut self, opcode: u8) -> (r: Result<(), CpuError>)
        requires
            old(self).wf(),
            64 <= opcode <= 127,
        ensures
            final(self).wf(),
            r is Err <==> old(self).flags.decimal_mode && is_add_or_subtract(opcode),
            r is Err ==> r == Err::<(), CpuError>(CpuError::DecimalMode),
            simple_effect(opcode, *old(self), *final(self)),
            executed(opcode, old(self).regs, old(self).flags, old(self).hardware, old(self).hardware.clock, *final(self)),
    {
        match opcode {
            0x40 => { self.return_from_interrupt(); Ok(()) },
            0x41 => self.alu_step(AluOp::Eor, Mode::DirectPageIndexedXIndirect),
            0x42 => { self.io_cycle(); Ok(()) },
            0x43 => self.alu_step(AluOp::Eor, Mode::StackRelative),
            0x44 => { self.move_block(false); Ok(()) },
            0x45 => self.alu_step(AluOp::Eor, Mode::DirectPage),
            0x46 => { self.modify(ModifyOp::Lsr, Mode::DirectPage); Ok(()) },
            0x47 => self.alu_step(AluOp::Eor, Mode::DirectPageIndirectLong),
            0x48 => { self.push_register(Register::Accumulator, !self.flags.memory_size); Ok(()) },
            0x49 => self.alu_step(AluOp::Eor, Mode::Immediate),
            0x4A => { self.modify(ModifyOp::Lsr, Mode::Accumulator); Ok(()) },
            0x4B => { let b = self.regs.program_bank; self.push_byte(b); Ok(()) },
            0x4C => { self.jump(Mode::Absolute, false); Ok(()) },
            0x4D => self.alu_step(AluOp::Eor, Mode::Absolute),
            0x4E => { self.modify(ModifyOp::Lsr, Mode::Absolute); Ok(()) },
            0x4F => self.alu_step(AluOp::Eor, Mode::AbsoluteLong),
            0x50 => { self.branch(BranchCondition::OverflowClear); Ok(()) },
            0x51 => self.alu_step(AluOp::Eor, Mode::DirectPageIndirectIndexedY),
            0x52 => self.alu_step(AluOp::Eor, Mode::DirectPageIndirect),
            0x53 => self.alu_step(AluOp::Eor, Mode::StackRelativeIndirectIndexedY),
            0x54 => { self.move_block(true); Ok(()) },
            0x55 => self.alu_step(AluOp::Eor, Mode::DirectPageIndexedX),
            0x56 => { self.modify(ModifyOp::Lsr, Mode::DirectPageIndexedX); Ok(()) },
            0x57 => self.alu_step(AluOp::Eor, Mode::DirectPageIndirectLongIndexedY),
            0x58 => { self.set_flag(Flag::InterruptDisable, false); Ok(()) },
            0x59 => self.alu_step(AluOp::Eor, Mode::AbsoluteIndexedY),
            0x5A => { self.push_register(Register::IndexY, !self.flags.index_size); Ok(()) },
            0x5B => { self.transfer(Register::Accumulator, Register::DirectPage, true); Ok(()) },
            0x5C => { self.jump(Mode::AbsoluteLong, true); Ok(()) },
            0x5D => self.alu_step(AluOp::Eor, Mode::AbsoluteIndexedX),
            0x5E => { self.modify(ModifyOp::Lsr, Mode::AbsoluteIndexedX); Ok(()) },
            0x5F => self.alu_step(AluOp::Eor, Mode::AbsoluteLongIndexedX),
            0x60 => { self.return_from_subroutine(); Ok(()) },
            0x61 => self.alu_step(AluOp::Adc, Mode::DirectPageIndexedXIndirect),
            0x62 => { self.push_effective_address(Mode::ProgramCounterRelative); Ok(()) },
            0x63 => self.alu_step(AluOp::Adc, Mode::StackRelative),
            0x64 => { self.store(Register::Zero, Mode::DirectPage, !self.flags.memory_size); Ok(()) },
            0x65 => self.alu_step(AluOp::Adc, Mode::DirectPage),
            0x66 => { self.modify(ModifyOp::Ror, Mode::DirectPage); Ok(()) },
            0x67 => self.alu_step(AluOp::Adc, Mode::DirectPageIndirectLong),
            0x68 => { self.pull_register(Register::Accumulator, !self.flags.memory_size); Ok(()) },
            0x69 => self.alu_step(AluOp::Adc, Mode::Immediate),
            0x6A => { self.modify(ModifyOp::Ror, Mode::Accumulator); Ok(()) },
            0x6B => { self.return_from_subroutine_long(); Ok(()) },
            0x6C => { self.jump(Mode::AbsoluteIndirect, false); Ok(()) },
            0x6D => self.alu_step(AluOp::Adc, Mode::Absolute),
            0x6E => { self.modify(ModifyOp::Ror, Mode::Absolute); Ok(()) },
            0x6F => self.alu_step(AluOp::Adc, Mode::AbsoluteLong),
            0x70 => { self.branch(BranchCondition::OverflowSet); Ok(()) },
            0x71 => self.alu_step(AluOp::Adc, Mode::DirectPageIndirectIndexedY),
            0x72 => self.alu_step(AluOp::Adc, Mode::DirectPageIndirect),
            0x73 => self.alu_step(AluOp::Adc, Mode::StackRelativeIndirectIndexedY),
            0x74 => { self.store(Register::Zero, Mode::DirectPageIndexedX, !self.flags.memory_size); Ok(()) },
            0x75 => self.alu_step(AluOp::Adc, Mode::DirectPageIndexedX),
            0x76 => { self.modify(ModifyOp::Ror, Mode::DirectPageIndexedX); Ok(()) },
            0x77 => self.alu_step(AluOp::Adc, Mode::DirectPageIndirectLongIndexedY),
            0x78 => { self.set_flag(Flag::InterruptDisable, true); Ok(()) },
            0x79 => self.alu_step(AluOp::Adc, Mode::AbsoluteIndexedY),
            0x7A => { self.pull_register(Register::IndexY, !self.flags.index_size); Ok(()) },
            0x7B => { self.transfer(Register::DirectPage, Register::Accumulator, true); Ok(()) },
            0x7C => { self.jump(Mode::AbsoluteIndexedXIndirect, false); Ok(()) },
            0x7D => self.alu_step(AluOp::Adc, Mode::AbsoluteIndexedX),
            0x7E => { self.modify(ModifyOp::Ror, Mode::AbsoluteIndexedX); Ok(()) },
            0x7F => self.alu_step(AluOp::Adc, Mode::AbsoluteLongIndexedX),
            _ => Ok(()),
        }
    }

    #[verifier::rlimit(100)]
    fn execute_80_bf(&mut self, opcode: u8) -> (r: Result<(), CpuError>)
        requires
            old(self).wf(),
            128 <= opcode <= 191,
        ensures
            final(self).wf(),
            r is Err <==> old(self).flags.decimal_mode && is_add_or_subtract(opcode),
            r is Err ==> r == Err::<(), CpuError>(CpuError::DecimalMode),
            simple_effect(opcode, *old(self), *final(self)),
            executed(opcode, old(self).regs, old(self).flags, old(self).hardware, old(self).hardware.clock, *final(self)),
    {
        match opcode {
            0x80 => { self.branch(BranchCondition::Always); Ok(()) },
            0x81 => { self.store(Register::Accumulator, Mode::DirectPageIndexedXIndirect, !self.flags.memory_size); Ok(()) },
            0x82 => { self.branch_always_long(); Ok(()) },
            0x83 => { self.store(Register::Accumulator, Mode::StackRelative, !self.flags.memory_size); Ok(()) },
            0x84 => { self.store(Register::IndexY, Mode::DirectPage, !self.flags.index_size); Ok(()) },
            0x85 => { self.store(Register::Accumulator, Mode::DirectPage, !self.flags.memory_size); Ok(()) },
            0x86 => { self.store(Register::IndexX, Mode::DirectPage, !self.flags.index_size); Ok(()) },
            0x87 => { self.store(Register::Accumulator, Mode::DirectPageIndirectLong, !self.flags.memory_size); Ok(()) },
            0x88 => { self.step_index(Register::IndexY, false); Ok(()) },
            0x89 => self.alu_step(AluOp::BitImmediate, Mode::Immediate),
            0x8A => { self.transfer(Register::IndexX, Register::Accumulator, !self.flags.memory_size); Ok(()) },
            0x8B => { let b = self.regs.data_bank; self.push_byte(b); Ok(()) },
            0x8C => { self.store(Register::IndexY, Mode::Absolute, !self.flags.index_size); Ok(()) },
            0x8D => { self.store(Register::Accumulator, Mode::Absolute, !self.flags.memory_size); Ok(()) },
            0x8E => { self.store(Register::IndexX, Mode::Absolute, !self.flags.index_size); Ok(()) },
            0x8F => { self.store(Register::Accumulator, Mode::AbsoluteLong, !self.flags.memory_size); Ok(()) },
            0x90 => { self.branch(BranchCondition::CarryClear); Ok(()) },
            0x91 => { self.store(Register::Accumulator, Mode::DirectPageIndirectIndexedY, !self.flags.memory_size); Ok(()) },
            0x92 => { self.store(Register::Accumulator, Mode::DirectPageIndirect, !self.flags.memory_size); Ok(()) },
            0x93 => { self.store(Register::Accumulator, Mode::StackRelativeIndirectIndexedY, !self.flags.memory_size); Ok(()) },
            0x94 => { self.store(Register::IndexY, Mode::DirectPageIndexedX, !self.flags.index_size); Ok(()) },
            0x95 => { self.store(Register::Accumulator, Mode::DirectPageIndexedX, !self.flags.memory_size); Ok(()) },
            0x96 => { self.store(Register::IndexX, Mode::DirectPageIndexedY, !self.flags.index_size); Ok(()) },
            0x97 => { self.store(Register::Accumulator, Mode::DirectPageIndirectLongIndexedY, !self.flags.memory_size); Ok(()) },
            0x98 => { self.transfer(Register::IndexY, Register::Accumulator, !self.flags.memory_size); Ok(()) },
            0x99 => { self.store(Register::Accumulator, Mode::AbsoluteIndexedY, !self.flags.memory_size); Ok(()) },
            0x9A => { self.transfer(Register::IndexX, Register::StackPointer, true); Ok(()) },
            0x9B => { self.transfer(Register::IndexX, Register::IndexY, !self.flags.index_size); Ok(()) },
            0x9C => { self.store(Register::Zero, Mode::Absolute, !self.flags.memory_size); Ok(()) },
            0x9D => { self.store(Register::Accumulator, Mode::AbsoluteIndexedX, !self.flags.memory_size); Ok(()) },
            0x9E => { self.store(Register::Zero, Mode::AbsoluteIndexedX, !self.flags.memory_size); Ok(()) },
            0x9F => { self.store(Register::Accumulator, Mode::AbsoluteLongIndexedX, !self.flags.memory_size); Ok(()) },
            0xA0 => { self.index_op(IndexOp::LoadY, Mode::Immediate); Ok(()) },
            0xA1 => self.alu_step(AluOp::Load, Mode::DirectPageIndexedXIndirect),
            0xA2 => { self.index_op(IndexOp::LoadX, Mode::Immediate); Ok(()) },
            0xA3 => self.alu_step(AluOp::Load, Mode::StackRelative),
            0xA4 => { self.index_op(IndexOp::LoadY, Mode::DirectPage); Ok(()) },
            0xA5 => self.alu_step(AluOp::Load, Mode::DirectPage),
            0xA6 => { self.index_op(IndexOp::LoadX, Mode::DirectPage); Ok(()) },
            0xA7 => self.alu_step(AluOp::Load, Mode::DirectPageIndirectLong),
            0xA8 => { self.transfer(Register::Accumulator, Register::IndexY, !self.flags.index_size); Ok(()) },
            0xA9 => self.alu_step(AluOp::Load, Mode::Immediate),
            0xAA => { self.transfer(Register::Accumulator, Register::IndexX, !self.flags.index_size); Ok(()) },
            0xAB => { self.pull_data_bank(); Ok(()) },
            0xAC => { self.index_op(IndexOp::LoadY, Mode::Absolute); Ok(()) },
            0xAD => self.alu_step(AluOp::Load, Mode::Absolute),
            0xAE => { self.index_op(IndexOp::LoadX, Mode::Absolute); Ok(()) },
            0xAF => self.alu_step(AluOp::Load, Mode::AbsoluteLong),
            0xB0 => { self.branch(BranchCondition::CarrySet); Ok(()) },
            0xB1 => self.alu_step(AluOp::Load, Mode::DirectPageIndirectIndexedY),
            0xB2 => self.alu_step(AluOp::Load, Mode::DirectPageIndirect),
            0xB3 => self.alu_step(AluOp::Load, Mode::StackRelativeIndirectIndexedY),
            0xB4 => { self.index_op(IndexOp::LoadY, Mode::DirectPageIndexedX); Ok(()) },
            0xB5 => self.alu_step(AluOp::Load, Mode::DirectPageIndexedX),
            0xB6 => { self.index_op(IndexOp::LoadX, Mode::DirectPageIndexedY); Ok(()) },
            0xB7 => self.alu_step(AluOp::Load, Mode::DirectPageIndirectLongIndexedY),
            0xB8 => { self.set_flag(Flag::Overflow, false); Ok(()) },
            0xB9 => self.alu_step(AluOp::Load, Mode::AbsoluteIndexedY),
            0xBA => { self.transfer(Register::StackPointer, Register::IndexX, !self.flags.index_size); Ok(()) },
            0xBB => { self.transfer(Register::IndexY, Register::IndexX, !self.flags.index_size); Ok(()) },
            0xBC => { self.index_op(IndexOp::LoadY, Mode::AbsoluteIndexedX); Ok(()) },
            0xBD => self.alu_step(AluOp::Load, Mode::AbsoluteIndexedX),
            0xBE => { self.index_op(IndexOp::LoadX, Mode::AbsoluteIndexedY); Ok(()) },
            0xBF => self.alu_step(AluOp::Load, Mode::AbsoluteLongIndexedX),
            _ => Ok(()),
        }
    }

    #[verifier::rlimit(100)]
    fn execute_c0_ff(&mut self, opcode: u8) -> (r: Result<(), CpuError>)
        requires
            old(self).wf(),
            192 <= opcode <= 255,
        ensures
            final(self).wf(),
            r is Err <==> old(self).flags.decimal_mode && is_add_or_subtract(opcode),
            r is Err ==> r == Err::<(), CpuError>(CpuError::DecimalMode),
            simple_effect(opcode, *old(self), *final(self)),
            executed(opcode, old(self).regs, old(self).flags, old(self).hardware, old(self).hardware.clock, *final(self)),
    {
        match opcode {
            0xC0 => { self.index_op(IndexOp::CompareY, Mode::Immediate); Ok(()) },
            0xC1 => self.alu_step(AluOp::Compare, Mode::DirectPageIndexedXIndirect),
            0xC2 => { self.change_processor_state(false); Ok(()) },
            0xC3 => self.alu_step(AluOp::Compare, Mode::StackRelative),
            0xC4 => { self.index_op(IndexOp::CompareY, Mode::DirectPage); Ok(()) },
            0xC5 => self.alu_step(AluOp::Compare, Mode::DirectPage),
            0xC6 => { self.modify(ModifyOp::Dec, Mode::DirectPage); Ok(()) },
            0xC7 => self.alu_step(AluOp::Compare, Mode::DirectPageIndirectLong),
            0xC8 => { self.step_index(Register::IndexY, true); Ok(()) },
            0xC9 => self.alu_step(AluOp::Compare, Mode::Immediate),
            0xCA => { self.step_index(Register::IndexX, false); Ok(()) },
            0xCB => { self.run_state = RunState::Waiting; Ok(()) },
            0xCC => { self.index_op(IndexOp::CompareY, Mode::Absolute); Ok(()) },
            0xCD => self.alu_step(AluOp::Compare, Mode::Absolute),
            0xCE => { self.modify(ModifyOp::Dec, Mode::Absolute); Ok(()) },
            0xCF => self.alu_step(AluOp::Compare, Mode::AbsoluteLong),
            0xD0 => { self.branch(BranchCondition::NotEqual); Ok(()) },
            0xD1 => self.alu_step(AluOp::Compare, Mode::DirectPageIndirectIndexedY),
            0xD2 => self.alu_step(AluOp::Compare, Mode::DirectPageIndirect),
            0xD3 => self.alu_step(AluOp::Compare, Mode::StackRelativeIndirectIndexedY),
            0xD4 => { self.push_effective_address(Mode::DirectPageIndirect); Ok(()) },
            0xD5 => self.alu_step(AluOp::Compare, Mode::DirectPageIndexedX),
            0xD6 => { self.modify(ModifyOp::Dec, Mode::DirectPageIndexedX); Ok(()) },
            0xD7 => self.alu_step(AluOp::Compare, Mode::DirectPageIndirectLongIndexedY),
            0xD8 => { self.set_flag(Flag::Decimal, false); Ok(()) },
            0xD9 => self.alu_step(AluOp::Compare, Mode::AbsoluteIndexedY),
            0xDA => { self.push_register(Register::IndexX, !self.flags.index_size); Ok(()) },
            0xDB => { self.run_state = RunState::Stopped; Ok(()) },
            0xDC => { self.jump(Mode::AbsoluteIndirectLong, true); Ok(()) },
            0xDD => self.alu_step(AluOp::Compare, Mode::AbsoluteIndexedX),
            0xDE => { self.modify(ModifyOp::Dec, Mode::AbsoluteIndexedX); Ok(()) },
            0xDF => self.alu_step(AluOp::Compare, Mode::AbsoluteLongIndexedX),
            0xE0 => { self.index_op(IndexOp::CompareX, Mode::Immediate); Ok(()) },
            0xE1 => self.alu_step(AluOp::Sbc, Mode::DirectPageIndexedXIndirect),
            0xE2 => { self.change_processor_state(true); Ok(()) },
            0xE3 => self.alu_step(AluOp::Sbc, Mode::StackRelative),
            0xE4 => { self.index_op(IndexOp::CompareX, Mode::DirectPage); Ok(()) },
            0xE5 => self.alu_step(AluOp::Sbc, Mode::DirectPage),
            0xE6 => { self.modify(ModifyOp::Inc, Mode::DirectPage); Ok(()) },
            0xE7 => self.alu_step(AluOp::Sbc, Mode::DirectPageIndirectLong),
            0xE8 => { self.step_index(Register::IndexX, true); Ok(()) },
            0xE9 => self.alu_step(AluOp::Sbc, Mode::Immediate),
            0xEA => { self.io_cycle(); Ok(()) },
            0xEB => { self.exchange_accumulators(); Ok(()) },
            0xEC => { self.index_op(IndexOp::CompareX, Mode::Absolute); Ok(()) },
            0xED => self.alu_step(AluOp::Sbc, Mode::Absolute),
            0xEE => { self.modify(ModifyOp::Inc, Mode::Absolute); Ok(()) },
            0xEF => self.alu_step(AluOp::Sbc, Mode::AbsoluteLong),
            0xF0 => { self.branch(BranchCondition::Equal); Ok(()) },
            0xF1 => self.alu_step(AluOp::Sbc, Mode::DirectPageIndirectIndexedY),
            0xF2 => self.alu_step(AluOp::Sbc, Mode::DirectPageIndirect),
            0xF3 => self.alu_step(AluOp::Sbc, Mode::StackRelativeIndirectIndexedY),
            0xF4 => { self.push_effective_address(Mode::Absolute); Ok(()) },
            0xF5 => self.alu_step(AluOp::Sbc, Mode::DirectPageIndexedX),
            0xF6 => { self.modify(ModifyOp::Inc, Mode::DirectPageIndexedX); Ok(()) },
            0xF7 => self.alu_step(AluOp::Sbc, Mode::DirectPageIndirectLongIndexedY),
            0xF8 => { self.set_flag(Flag::Decimal, true); Ok(()) },
            0xF9 => self.alu_step(AluOp::Sbc, Mode::AbsoluteIndexedY),
            0xFA => { self.pull_register(Register::IndexX, !self.flags.index_size); Ok(()) },
            0xFB => { self.exchange_carry_and_emulation_bits(); Ok(()) },
            0xFC => { self.jump_to_subroutine(Mode::AbsoluteIndexedXIndirect); Ok(()) },
            0xFD => self.alu_step(AluOp::Sbc, Mode::AbsoluteIndexedX),
            0xFE => { self.modify(ModifyOp::Inc, Mode::AbsoluteIndexedX); Ok(()) },
            0xFF => self.alu_step(AluOp::Sbc, Mode::AbsoluteLongIndexedX),
            _ => Ok(()),
        }
    }

    /// Executes one instruction whose opcode has been fetched.
    #[verifier::rlimit(100)]
    pub fn execute(&mut self, opcode: u8) -> (r: Result<(), CpuError>)
        requires
            old(self).wf(),
        ensures
            final(self).wf(),
            r is Err <==> old(self).flags.decimal_mode && is_add_or_subtract(opcode),
            r is Err ==> r == Err::<(), CpuError>(CpuError::DecimalMode),
            simple_effect(opcode, *old(self), *final(self)),
            executed(opcode, old(self).regs, old(self).flags, old(self).hardware, old(self).hardware.clock, *final(self)),
    {
        if opcode < 0x40 {
            self.execute_00_3f(opcode)
        } else if opcode < 0x80 {
            self.execute_40_7f(opcode)
        } else if opcode < 0xC0 {
            self.execute_80_bf(opcode)
        } else {
            self.execute_c0_ff(opcode)
        }
    }

    /// Services a pending request: NMI first, then IRQ (held off while I is set), then DMA.
    /// Only the request served is taken; the others stay pending. An NMI or IRQ request ends
    /// a wait. No opcode is fetched.
    #[verifier::rlimit(100)]
    fn service_request(&mut self) -> (r: Result<(), CpuError>)
        requires
            old(self).wf(),
            old(self).hardware.regs.cpu_action != 0,
        ensures
            final(self).wf(),
            r is Err <==> old(self).hardware.regs.cpu_action & ACTION_NMI == 0 && old(self).hardware.regs.cpu_action
                & ACTION_IRQ == 0 && old(self).hardware.regs.cpu_action & ACTION_DMA == 0,
            r is Err ==> r == Err::<(), CpuError>(CpuError::UnknownAction),
            old(self).hardware.regs.cpu_action & ACTION_NMI != 0 ==> final(self).run_state == RunState::Running
                && final(self).flags == (CpuFlags { break_flag: false, decimal_mode: false, ..old(self).flags })
                && final(self).regs.stack_pointer == push_sp(
                old(self).regs.stack_pointer,
                if old(self).flags.emulation_mode { 3 } else { 4 },
            ) && (old(self).hardware.regs.cpu_action & ACTION_IRQ != 0 ==> final(self).hardware.regs.cpu_action
                & ACTION_IRQ != 0) && (old(self).hardware.regs.cpu_action & ACTION_DMA != 0
                ==> final(self).hardware.regs.cpu_action & ACTION_DMA != 0),
            old(self).hardware.regs.cpu_action & ACTION_NMI == 0 && old(self).hardware.regs.cpu_action & ACTION_IRQ != 0
                && !old(self).flags.interrupt_disable ==> final(self).run_state == RunState::Running && final(self).flags == (CpuFlags {
                break_flag: false,
                decimal_mode: false,
                interrupt_disable: true,
                ..old(self).flags
            }) && final(self).regs.stack_pointer == push_sp(
                old(self).regs.stack_pointer,
                if old(self).flags.emulation_mode { 3 } else { 4 },
            ) && (old(self).hardware.regs.cpu_action & ACTION_DMA != 0 ==> final(self).hardware.regs.cpu_action
                & ACTION_DMA != 0),
            old(self).hardware.regs.cpu_action & ACTION_NMI == 0 && old(self).hardware.regs.cpu_action & ACTION_IRQ != 0
                && old(self).flags.interrupt_disable ==> final(self).run_state == RunState::Running
                && final(self).regs == old(self).regs && final(self).flags == old(self).flags
                && final(self).hardware.regs.cpu_action & ACTION_IRQ == 0 && final(self).hardware.clock == clock_after(
                old(self).hardware.clock,
                IO_CYCLES,
            ) && final(self).hardware.wram.data.0@ == old(self).hardware.wram.data.0@
                && final(self).hardware.rom.sram.0@ == old(self).hardware.rom.sram.0@
                && final(self).hardware.dma_channels@ == old(self).hardware.dma_channels@ && (old(
                self,
            ).hardware.regs.cpu_action & ACTION_DMA != 0 ==> final(self).hardware.regs.cpu_action & ACTION_DMA != 0),
            old(self).hardware.regs.cpu_action & ACTION_NMI == 0 && old(self).hardware.regs.cpu_action & ACTION_IRQ == 0
                ==> final(self).regs == old(self).regs && final(self).flags == old(self).flags
                && final(self).run_state == old(self).run_state,
            old(self).hardware.regs.cpu_action & ACTION_NMI == 0 && old(self).hardware.regs.cpu_action & ACTION_IRQ == 0
                && old(self).hardware.regs.cpu_action & ACTION_DMA != 0 && forward_only(
                old(self).hardware.dma_channels@,
                old(self).hardware.regs.dma_channel_mask,
            ) ==> (forall|i: int| 0 <= i < DMA_CHANNEL_COUNT ==> final(self).hardware.dma_channels@[i] == serviced(
                old(self).hardware.dma_channels@[i],
                old(self).hardware.regs.dma_channel_mask,
                i,
            )) && final(self).hardware.clock == clock_after(
                old(self).hardware.clock,
                dma_cycles(
                    old(self).hardware.dma_channels@,
                    old(self).hardware.regs.dma_channel_mask,
                    DMA_CHANNEL_COUNT as int,
                ) as u64,
            ),
    {
        let action = self.hardware.regs.cpu_action;
        assert((action & !0x80u8) & 0x40 == action & 0x40) by (bit_vector);
        assert((action & !0x80u8) & 0x20 == action & 0x20) by (bit_vector);
        assert((action & !0x40u8) & 0x20 == action & 0x20) by (bit_vector);
        assert(forall|x: u8| (x & !0x40u8) & 0x40 == 0) by (bit_vector);
        assert(forall|x: u8| #![trigger (x & !0x40u8)] (x & 0x20 != 0) ==> (x & !0x40u8) & 0x20 != 0) by (bit_vector);
        if action & ACTION_NMI != 0 {
            self.hardware.regs.check_and_reset_nmi();
            self.run_state = RunState::Running;
            self.interrupt::<Nmi>();
        } else if action & ACTION_IRQ != 0 {
            self.run_state = RunState::Running;
            if !self.flags.interrupt_disable {
                self.hardware.regs.check_and_reset_irq();
                self.interrupt::<Irq>();
            } else {
                self.io_cycle();
                self.hardware.regs.check_and_reset_irq();
            }
        } else {
            match self.hardware.regs.check_and_reset_dma() {
                Some(mask) => self.hardware.dma_transfer(mask),
                None => {
                    self.hardware.regs.cpu_action = 0;
                    return Err(CpuError::UnknownAction);
                },
            }
        }
        Ok(())
    }

    /// Fetches the opcode at the program counter and executes it.
    #[verifier::rlimit(100)]
    fn fetch_and_execute(&mut self) -> (r: Result<(), CpuError>)
        requires
            old(self).wf(),
        ensures
            final(self).wf(),
            (byte_in(
                old(self).hardware,
                code_addr(old(self).regs, 0),
            ) matches Some(opcode) ==> (r is Err <==> old(self).flags.decimal_mode && is_add_or_subtract(opcode))
                && simple_effect(opcode, *old(self), *final(self)) && executed(
                opcode,
                pc_advanced(old(self).regs, 1),
                old(self).flags,
                old(self).hardware,
                clock_after(old(self).hardware.clock, route(old(self).hardware.rom.mode, code_addr(old(self).regs, 0)).cycles),
                *final(self),
            )),
    {
        let opcode = self.read_next_u8();
        self.execute(opcode)
    }

    /// One step of the machine: a pending NMI, IRQ (unless I is set) or DMA request is
    /// serviced first, in that order; otherwise the next opcode is fetched and executed. A
    /// stopped processor, a waiting one without a request, and an IRQ held off by I only
    /// let an IO cycle pass.
    #[verifier::rlimit(100)]
    pub fn tick(&mut self) -> (r: Result<(), CpuError>)
        requires
            old(self).wf(),
        ensures
            final(self).wf(),
            old(self).run_state == RunState::Stopped ==> r is Ok && final(self).regs == old(self).regs
                && final(self).flags == old(self).flags && final(self).run_state == RunState::Stopped,
            old(self).run_state != RunState::Stopped && old(self).hardware.regs.cpu_action & ACTION_NMI != 0 ==> r is Ok
                && final(self).run_state == RunState::Running
                && final(self).flags == (CpuFlags { break_flag: false, decimal_mode: false, ..old(self).flags })
                && final(self).regs.stack_pointer == push_sp(
                old(self).regs.stack_pointer,
                if old(self).flags.emulation_mode { 3 } else { 4 },
            ),
            old(self).run_state != RunState::Stopped && old(self).hardware.regs.cpu_action & ACTION_NMI == 0
                && old(self).hardware.regs.cpu_action & ACTION_IRQ != 0 && !old(self).flags.interrupt_disable ==> r is Ok
                && final(self).run_state == RunState::Running && final(self).flags == (CpuFlags {
                break_flag: false,
                decimal_mode: false,
                interrupt_disable: true,
                ..old(self).flags
            }) && final(self).regs.stack_pointer == push_sp(
                old(self).regs.stack_pointer,
                if old(self).flags.emulation_mode { 3 } else { 4 },
            ),
            old(self).run_state != RunState::Stopped && old(self).hardware.regs.cpu_action & ACTION_NMI == 0
                && old(self).hardware.regs.cpu_action & ACTION_IRQ != 0 && old(self).flags.interrupt_disable ==> r is Ok
                && final(self).run_state == RunState::Running && final(self).regs == old(self).regs
                && final(self).flags == old(self).flags,
            old(self).run_state != RunState::Stopped && old(self).hardware.regs.cpu_action != 0 ==> (r is Err <==> old(
                self,
            ).hardware.regs.cpu_action & ACTION_NMI == 0 && old(self).hardware.regs.cpu_action & ACTION_IRQ == 0
                && old(self).hardware.regs.cpu_action & ACTION_DMA == 0),
            old(self).run_state != RunState::Stopped && old(self).hardware.regs.cpu_action & ACTION_NMI == 0
                && old(self).hardware.regs.cpu_action & ACTION_IRQ != 0 && old(self).flags.interrupt_disable
                ==> final(self).hardware.regs.cpu_action & ACTION_IRQ == 0 && final(self).hardware.clock == clock_after(
                old(self).hardware.clock,
                IO_CYCLES,
            ) && final(self).hardware.wram.data.0@ == old(self).hardware.wram.data.0@
                && final(self).hardware.rom.sram.0@ == old(self).hardware.rom.sram.0@
                && final(self).hardware.dma_channels@ == old(self).hardware.dma_channels@,
            old(self).run_state != RunState::Stopped && old(self).hardware.regs.cpu_action & ACTION_NMI != 0 ==> (old(
                self,
            ).hardware.regs.cpu_action & ACTION_IRQ != 0 ==> final(self).hardware.regs.cpu_action & ACTION_IRQ != 0) && (old(
                self,
            ).hardware.regs.cpu_action & ACTION_DMA != 0 ==> final(self).hardware.regs.cpu_action & ACTION_DMA != 0),
            old(self).run_state != RunState::Stopped && old(self).hardware.regs.cpu_action & ACTION_NMI == 0 && old(
                self,
            ).hardware.regs.cpu_action & ACTION_IRQ != 0 ==> (old(self).hardware.regs.cpu_action & ACTION_DMA != 0
                ==> final(self).hardware.regs.cpu_action & ACTION_DMA != 0),
            old(self).run_state != RunState::Stopped && old(self).hardware.regs.cpu_action != 0 && old(
                self,
            ).hardware.regs.cpu_action & ACTION_NMI == 0 && old(self).hardware.regs.cpu_action & ACTION_IRQ == 0
                ==> final(self).regs == old(self).regs && final(self).flags == old(self).flags
                && final(self).run_state == old(self).run_state,
            old(self).run_state != RunState::Stopped && old(self).hardware.regs.cpu_action & ACTION_NMI == 0 && old(
                self,
            ).hardware.regs.cpu_action & ACTION_IRQ == 0 && old(self).hardware.regs.cpu_action & ACTION_DMA != 0
                && forward_only(old(self).hardware.dma_channels@, old(self).hardware.regs.dma_channel_mask) ==> (forall|i: int|
                0 <= i < DMA_CHANNEL_COUNT ==> final(self).hardware.dma_channels@[i] == serviced(
                    old(self).hardware.dma_channels@[i],
                    old(self).hardware.regs.dma_channel_mask,
                    i,
                )) && final(self).hardware.clock == clock_after(
                old(self).hardware.clock,
                dma_cycles(
                    old(self).hardware.dma_channels@,
                    old(self).hardware.regs.dma_channel_mask,
                    DMA_CHANNEL_COUNT as int,
                ) as u64,
            ),
            old(self).run_state == RunState::Running && old(self).hardware.regs.cpu_action == 0 ==> (byte_in(
                old(self).hardware,
                code_addr(old(self).regs, 0),
            ) matches Some(opcode) ==> (r is Err <==> old(self).flags.decimal_mode && is_add_or_subtract(opcode))
                && simple_effect(opcode, *old(self), *final(self)) && executed(
                opcode,
                pc_advanced(old(self).regs, 1),
                old(self).flags,
                old(self).hardware,
                clock_after(old(self).hardware.clock, route(old(self).hardware.rom.mode, code_addr(old(self).regs, 0)).cycles),
                *final(self),
            )),
            old(self).run_state == RunState::Waiting && old(self).hardware.regs.cpu_action == 0 ==> r is Ok
                && final(self).regs == old(self).regs && final(self).flags == old(self).flags
                && final(self).run_state == RunState::Waiting,
    {
        if self.run_state == RunState::Stopped {
            self.io_cycle();
            return Ok(());
        }
        let action = self.hardware.regs.cpu_action;
        assert(action & 0x80 != 0 ==> action != 0) by (bit_vector);
        assert(action & 0x40 != 0 ==> action != 0) by (bit_vector);
        assert(action & 0x20 != 0 ==> action != 0) by (bit_vector);
        if self.hardware.regs.cpu_action_ready() {
            self.service_request()
        } else if self.run_state == RunState::Waiting {
            self.io_cycle();
            Ok(())
        } else {
            self.fetch_and_execute()
        }
    }
}

} // verus!
