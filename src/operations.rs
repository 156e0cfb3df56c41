use vstd::prelude::*;
use crate::accessor::{Accessor, Mode};
use crate::address::HardwareAddress;
use crate::alu::{fits, is_negative, shl, shr, add_w, shift_left, shift_right, step, negative};
use crate::cpu::{Cpu, pc_advanced};
use crate::instructions::{ModifyOp, modified, nz, sub_w, with_acc};
use crate::register::{CpuRegisters, CpuFlags, acc_value, stored, index_stored};

verus! {

/// Loads and compares of the index registers.
#[derive(Copy, Clone, Debug, PartialEq, Eq, Structural)]
pub enum IndexOp {
    LoadX,
    LoadY,
    CompareX,
    CompareY,
}

/// A register as a transfer, push or store operand.
#[derive(Copy, Clone, Debug, PartialEq, Eq, Structural)]
pub enum Register {
    Accumulator,
    IndexX,
    IndexY,
    StackPointer,
    DirectPage,
    Zero,
}

/// An index register as an operand of the width.
pub open spec fn index_value(v: u16, wide: bool) -> u16 {
    if wide { v } else { v % 256 }
}

/// Registers and flags after an index load or compare with operand `v`.
pub open spec fn index_alu(op: IndexOp, r: CpuRegisters, f: CpuFlags, v: u16, wide: bool) -> (CpuRegisters, CpuFlags) {
    match op {
        IndexOp::LoadX => (CpuRegisters { index_x: v, ..r }, nz(f, v, wide)),
        IndexOp::LoadY => (CpuRegisters { index_y: v, ..r }, nz(f, v, wide)),
        IndexOp::CompareX => {
            let x = index_value(r.index_x, wide);
            (r, CpuFlags { carry: v <= x, ..nz(f, sub_w(x, v, wide), wide) })
        },
        IndexOp::CompareY => {
            let y = index_value(r.index_y, wide);
            (r, CpuFlags { carry: v <= y, ..nz(f, sub_w(y, v, wide), wide) })
        },
    }
}

/// A register's value read with the width.
pub open spec fn register_value(r: CpuRegisters, reg: Register, wide: bool) -> u16 {
    match reg {
        Register::Accumulator => acc_value(r, wide),
        Register::IndexX => index_value(r.index_x, wide),
        Register::IndexY => index_value(r.index_y, wide),
        Register::StackPointer => index_value(r.stack_pointer, wide),
        Register::DirectPage => r.direct_page,
        Register::Zero => 0,
    }
}

/// The registers after a value of the width is written to a register.
pub open spec fn register_written(r: CpuRegisters, reg: Register, v: u16, wide: bool) -> CpuRegisters {
    match reg {
        Register::Accumulator => with_acc(r, v, wide),
        Register::IndexX => CpuRegisters { index_x: index_stored(v, wide), ..r },
        Register::IndexY => CpuRegisters { index_y: index_stored(v, wide), ..r },
        Register::StackPointer => CpuRegisters { stack_pointer: stored(r.stack_pointer, v, wide), ..r },
        Register::DirectPage => CpuRegisters { direct_page: v, ..r },
        Register::Zero => r,
    }
}

impl Cpu {
    /// LDX, LDY, CPX and CPY with the index width: returns the operand used.
    #[verifier::rlimit(100)]
    pub fn index_op(&mut self, op: IndexOp, mode: Mode) -> (r: u16)
        requires
            old(self).wf(),
            mode != Mode::Accumulator,
        ensures
            final(self).wf(),
            final(self).run_state == old(self).run_state,
            final(self).hardware.same_storage(&old(self).hardware),
            (final(self).regs, final(self).flags) == index_alu(
                op,
                CpuRegisters { program_counter: final(self).regs.program_counter, ..old(self).regs },
                old(self).flags,
                r,
                old(self).xwide(),
            ),
    {
        let wide = !self.flags.index_size;
        let accessor = self.resolve(mode, wide);
        let v = self.read_operand(accessor, wide);
        self.apply_index(op, v, wide);
        v
    }

    #[verifier::rlimit(100)]
    fn apply_index(&mut self, op: IndexOp, v: u16, wide: bool)
        requires
            old(self).wf(),
            fits(v, wide),
            wide == old(self).xwide(),
        ensures
            final(self).wf(),
            final(self).hardware == old(self).hardware,
            final(self).run_state == old(self).run_state,
            (final(self).regs, final(self).flags) == index_alu(op, old(self).regs, old(self).flags, v, wide),
    {
        match op {
            IndexOp::LoadX => {
                self.regs.index_x = v;
                self.set_nz(v, wide);
            },
            IndexOp::LoadY => {
                self.regs.index_y = v;
                self.set_nz(v, wide);
            },
            IndexOp::CompareX | IndexOp::CompareY => {
                let r = if op == IndexOp::CompareX {
                    self.regs.index_x
                } else {
                    self.regs.index_y
                };
                let x = if wide {
                    r
                } else {
                    r % 256
                };
                let m: u32 = if wide { 0x10000 } else { 0x100 };
                let d = ((x as u32 + m - v as u32) % m) as u16;
                assert(d == sub_w(x, v, wide));
                self.flags = CpuFlags { carry: v <= x, zero: d == 0, negative: negative(d, wide), ..self.flags };
            },
        }
    }

    /// Sets Z and N from a result of the width.
    #[verifier::rlimit(100)]
    pub fn set_nz(&mut self, v: u16, wide: bool)
        ensures
            final(self).flags == nz(old(self).flags, v, wide),
            final(self).regs == old(self).regs,
            final(self).hardware == old(self).hardware,
            final(self).run_state == old(self).run_state,
    {
        self.flags.zero = v == 0;
        self.flags.negative = negative(v, wide);
    }

    /// ASL, LSR, ROL, ROR, INC, DEC, TSB and TRB on the accumulator or memory, with the
    /// width of M: returns the operand and the value written back.
    #[verifier::rlimit(100)]
    pub fn modify(&mut self, op: ModifyOp, mode: Mode) -> (r: (u16, u16, Accessor))
        requires
            old(self).wf(),
            mode != Mode::Immediate,
        ensures
            final(self).wf(),
            final(self).run_state == old(self).run_state,
            (r.1, final(self).flags) == modified(op, r.0, acc_value(old(self).regs, old(self).mwide()), old(self).flags, old(self).mwide()),
            mode == Mode::Accumulator ==> r.0 == acc_value(old(self).regs, old(self).mwide())
                && final(self).regs == with_acc(old(self).regs, r.1, old(self).mwide()),
            mode != Mode::Accumulator ==> final(self).regs == (CpuRegisters {
                program_counter: final(self).regs.program_counter,
                ..old(self).regs
            }),
            mode == Mode::Accumulator <==> r.2 == Accessor::Accumulator,
            mode != Mode::Accumulator ==> final(self).regs == crate::cpu::pc_advanced(
                old(self).regs,
                crate::memory_mode::operand_length(mode),
            ) && (crate::memory_mode::effective_address(mode, *old(self)) matches Some(a) ==> r.2 == Accessor::Memory(a)),
            r.2 matches Accessor::Memory(m) ==> (if old(self).mwide() {
                (crate::cpu::word_in(old(self).hardware, m) matches Some(x) ==> r.0 == x)
                    && final(self).hardware.word_written(&old(self).hardware, m, r.1)
            } else {
                (crate::cpu::byte_in(old(self).hardware, m) matches Some(x) ==> r.0 == x as u16)
                    && final(self).hardware.written(
                    &old(self).hardware,
                    crate::hardware::route(old(self).hardware.rom.mode, m),
                    crate::bits::lo(r.1),
                )
            }),
    {
        let wide = !self.flags.memory_size;
        let accessor = self.resolve(mode, wide);
        let v = self.read_operand(accessor, wide);
        let a = if wide {
            self.regs.accumulator
        } else {
            self.regs.accumulator % 256
        };
        let f0 = self.flags;
        let (x, f) = compute_modify(op, v, a, f0, wide);
        self.io_cycle();
        self.write_operand(accessor, x, wide);
        self.flags = f;
        (v, x, accessor)
    }

    /// STA, STX, STY and STZ: returns the address written and the value stored there.
    pub fn store(&mut self, src: Register, mode: Mode, wide: bool) -> (r: (HardwareAddress, u16))
        requires
            old(self).wf(),
            mode != Mode::Immediate && mode != Mode::Accumulator,
        ensures
            final(self).wf(),
            final(self).run_state == old(self).run_state,
            r.1 == register_value(old(self).regs, src, wide),
            crate::memory_mode::effective_address(mode, *old(self)) matches Some(a) ==> r.0 == a,
            final(self).regs == crate::cpu::pc_advanced(old(self).regs, crate::memory_mode::operand_length(mode)),
            final(self).flags == old(self).flags,
            final(self).regs == (CpuRegisters { program_counter: final(self).regs.program_counter, ..old(self).regs }),
            wide ==> final(self).hardware.word_written(&old(self).hardware, r.0, r.1),
            !wide ==> final(self).hardware.written(
                &old(self).hardware,
                crate::hardware::route(old(self).hardware.rom.mode, r.0),
                crate::bits::lo(r.1),
            ),
    {
        let accessor = self.resolve(mode, wide);
        let v = self.register_get(src, wide);
        let address = match accessor {
            Accessor::Memory(m) => m,
            _ => HardwareAddress::new(0, 0),
        };
        self.write_operand(accessor, v, wide);
        (address, v)
    }

    /// Reads a register with the width.
    pub fn register_get(&self, reg: Register, wide: bool) -> (r: u16)
        ensures
            r == register_value(self.regs, reg, wide),
            reg != Register::DirectPage ==> fits(r, wide),
    {
        match reg {
            Register::Accumulator => if wide { self.regs.accumulator } else { self.regs.accumulator % 256 },
            Register::IndexX => if wide { self.regs.index_x } else { self.regs.index_x % 256 },
            Register::IndexY => if wide { self.regs.index_y } else { self.regs.index_y % 256 },
            Register::StackPointer => if wide { self.regs.stack_pointer } else { self.regs.stack_pointer % 256 },
            Register::DirectPage => self.regs.direct_page,
            Register::Zero => 0,
        }
    }

    /// Writes a register with the width.
    #[verifier::rlimit(100)]
    pub fn register_set(&mut self, reg: Register, v: u16, wide: bool)
        ensures
            final(self).regs == register_written(old(self).regs, reg, v, wide),
            final(self).flags == old(self).flags,
            final(self).hardware == old(self).hardware,
            final(self).run_state == old(self).run_state,
    {
        match reg {
            Register::Accumulator => {
                self.regs.accumulator = if wide { v } else { crate::bits::set_lower(self.regs.accumulator, crate::bits::lower(v)) };
            },
            Register::IndexX => {
                self.regs.index_x = if wide { v } else { v % 256 };
            },
            Register::IndexY => {
                self.regs.index_y = if wide { v } else { v % 256 };
            },
            Register::StackPointer => {
                self.regs.stack_pointer = if wide { v } else { crate::bits::set_lower(self.regs.stack_pointer, crate::bits::lower(v)) };
            },
            Register::DirectPage => {
                self.regs.direct_page = v;
            },
            Register::Zero => {},
        }
    }

    /// Register transfers (TAX, TXS, TCD, ...): an IO cycle, then the copy; Z and N follow
    /// the value except for transfers to S.
    #[verifier::rlimit(100)]
    pub fn transfer(&mut self, src: Register, dst: Register, wide: bool)
        requires
            old(self).wf(),
            dst == Register::IndexX || dst == Register::IndexY ==> wide == old(self).xwide(),
            dst == Register::StackPointer || dst == Register::DirectPage ==> wide,
            src == Register::DirectPage ==> wide,
            dst != Register::Zero,
        ensures
            final(self).wf(),
            final(self).run_state == old(self).run_state,
            final(self).regs == register_written(old(self).regs, dst, register_value(old(self).regs, src, wide), wide),
            final(self).flags == if dst == Register::StackPointer {
                old(self).flags
            } else {
                nz(old(self).flags, register_value(old(self).regs, src, wide), wide)
            },
    {
        let v = self.register_get(src, wide);
        self.io_cycle();
        self.register_set(dst, v, wide);
        if dst != Register::StackPointer {
            self.set_nz(v, wide);
        }
    }
}

/// The new value and flags of a read-modify-write operation.
fn compute_modify(op: ModifyOp, v: u16, a: u16, f: CpuFlags, wide: bool) -> (r: (u16, CpuFlags))
    requires
        fits(v, wide),
    ensures
        r == modified(op, v, a, f, wide),
{
    match op {
        ModifyOp::Asl | ModifyOp::Rol => {
            let (x, c) = shift_left(v, op == ModifyOp::Rol && f.carry, wide);
            (x, CpuFlags { carry: c, zero: x == 0, negative: negative(x, wide), ..f })
        },
        ModifyOp::Lsr | ModifyOp::Ror => {
            let (x, c) = shift_right(v, op == ModifyOp::Ror && f.carry, wide);
            (x, CpuFlags { carry: c, zero: x == 0, negative: negative(x, wide), ..f })
        },
        ModifyOp::Inc | ModifyOp::Dec => {
            let x = step(v, op == ModifyOp::Inc, wide);
            (x, CpuFlags { zero: x == 0, negative: negative(x, wide), ..f })
        },
        ModifyOp::Tsb => (a | v, CpuFlags { zero: a & v == 0, ..f }),
        ModifyOp::Trb => (!a & v, CpuFlags { zero: a & v == 0, ..f }),
    }
}

} // verus!
