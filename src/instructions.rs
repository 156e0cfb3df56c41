use vstd::prelude::*;
use crate::accessor::{Accessor, ImmediateAccessor, Mode};
use crate::address::HardwareAddress;
use crate::alu::{adc, sbc, shl, shr, add_w, fits, is_negative, is_overflow, modulus, add_with_carry,
    subtract_with_carry, shift_left, shift_right, step, negative, overflow_bit};
use crate::bits::{lo, with_lo, lower, set_lower};
use crate::cpu::{Cpu, CpuError, byte_in, word_in};
use crate::memory_mode::{Absolute, AbsoluteIndexedX, AbsoluteIndexedXIndirect, AbsoluteIndexedY, AbsoluteIndirect,
    AbsoluteIndirectLong, AbsoluteLong, AbsoluteLongIndexedX, DirectPage, DirectPageIndexedX,
    DirectPageIndexedXIndirect, DirectPageIndexedY, DirectPageIndirect, DirectPageIndirectIndexedY,
    DirectPageIndirectLong, DirectPageIndirectLongIndexedY, ProgramCounterRelative, StackRelative,
    StackRelativeIndirectIndexedY};
use crate::register::{CpuRegisters, CpuFlags, acc_value, stored, index_stored};

verus! {

/// An operation between the accumulator and an operand.
#[derive(Copy, Clone, Debug, PartialEq, Eq, Structural)]
pub enum AluOp {
    Or,
    And,
    Eor,
    Adc,
    Sbc,
    Load,
    Compare,
    Bit,
    BitImmediate,
}

/// A read-modify-write operation.
#[derive(Copy, Clone, Debug, PartialEq, Eq, Structural)]
pub enum ModifyOp {
    Asl,
    Lsr,
    Rol,
    Ror,
    Inc,
    Dec,
    Tsb,
    Trb,
}

/// Z and N from a result of the width.
pub open spec fn nz(f: CpuFlags, v: u16, wide: bool) -> CpuFlags {
    CpuFlags { zero: v == 0, negative: is_negative(v, wide), ..f }
}

/// The registers with a new accumulator value of the width.
pub open spec fn with_acc(r: CpuRegisters, v: u16, wide: bool) -> CpuRegisters {
    CpuRegisters { accumulator: stored(r.accumulator, v, wide), ..r }
}

/// Subtraction modulo the width, as compares do it.
pub open spec fn sub_w(a: u16, v: u16, wide: bool) -> u16 {
    crate::alu::wrap(a as int - v as int + modulus(wide), wide) as u16
}

/// Registers and flags after an accumulator operation with operand `v` (binary mode).
pub open spec fn alu(op: AluOp, r: CpuRegisters, f: CpuFlags, v: u16, wide: bool) -> (CpuRegisters, CpuFlags) {
    let a = acc_value(r, wide);
    match op {
        AluOp::Or => (with_acc(r, a | v, wide), nz(f, a | v, wide)),
        AluOp::And => (with_acc(r, a & v, wide), nz(f, a & v, wide)),
        AluOp::Eor => (with_acc(r, a ^ v, wide), nz(f, a ^ v, wide)),
        AluOp::Adc => {
            let (x, c, o) = adc(a, v, f.carry, wide);
            (with_acc(r, x, wide), CpuFlags { carry: c, overflow: o, ..nz(f, x, wide) })
        },
        AluOp::Sbc => {
            let (x, c, o) = sbc(a, v, f.carry, wide);
            (with_acc(r, x, wide), CpuFlags { carry: c, overflow: o, ..nz(f, x, wide) })
        },
        AluOp::Load => (with_acc(r, v, wide), nz(f, v, wide)),
        AluOp::Compare => (r, CpuFlags { carry: v <= a, ..nz(f, sub_w(a, v, wide), wide) }),
        AluOp::Bit => (r, CpuFlags {
            negative: is_negative(v, wide),
            overflow: is_overflow(v, wide),
            zero: a & v == 0,
            ..f
        }),
        AluOp::BitImmediate => (r, CpuFlags { zero: a & v == 0, ..f }),
    }
}

/// The new value and flags of a read-modify-write operation on `v`.
pub open spec fn modified(op: ModifyOp, v: u16, a: u16, f: CpuFlags, wide: bool) -> (u16, CpuFlags) {
    match op {
        ModifyOp::Asl => (shl(v, false, wide).0, CpuFlags { carry: shl(v, false, wide).1, ..nz(f, shl(v, false, wide).0, wide) }),
        ModifyOp::Rol => (shl(v, f.carry, wide).0, CpuFlags { carry: shl(v, f.carry, wide).1, ..nz(f, shl(v, f.carry, wide).0, wide) }),
        ModifyOp::Lsr => (shr(v, false, wide).0, CpuFlags { carry: shr(v, false, wide).1, ..nz(f, shr(v, false, wide).0, wide) }),
        ModifyOp::Ror => (shr(v, f.carry, wide).0, CpuFlags { carry: shr(v, f.carry, wide).1, ..nz(f, shr(v, f.carry, wide).0, wide) }),
        ModifyOp::Inc => (add_w(v, 1, wide), nz(f, add_w(v, 1, wide), wide)),
        ModifyOp::Dec => (add_w(v, -1, wide), nz(f, add_w(v, -1, wide), wide)),
        ModifyOp::Tsb => (a | v, CpuFlags { zero: a & v == 0, ..f }),
        ModifyOp::Trb => (!a & v, CpuFlags { zero: a & v == 0, ..f }),
    }
}

impl Cpu {
    /// Width of accumulator and memory operands: 16-bit when M is clear.
    pub open spec fn mwide(&self) -> bool {
        !self.flags.memory_size
    }

    /// Width of index operands: 16-bit when X is clear.
    pub open spec fn xwide(&self) -> bool {
        !self.flags.index_size
    }

    /// Resolves an addressing mode to its operand, reading the operand bytes.
    #[verifier::rlimit(100)]
    pub fn resolve(&mut self, mode: Mode, wide: bool) -> (r: Accessor)
        requires
            old(self).wf(),
        ensures
            final(self).wf(),
            final(self).flags == old(self).flags,
            final(self).run_state == old(self).run_state,
            final(self).regs == (CpuRegisters { program_counter: final(self).regs.program_counter, ..old(self).regs }),
            final(self).hardware.same_storage(&old(self).hardware),
            mode == Mode::Accumulator <==> r == Accessor::Accumulator,
            mode == Mode::Accumulator ==> final(self).regs == old(self).regs,
            mode != Mode::Immediate && mode != Mode::Accumulator ==> final(self).regs == crate::cpu::pc_advanced(
                old(self).regs,
                crate::memory_mode::operand_length(mode),
            ) && (crate::memory_mode::effective_address(mode, *old(self)) matches Some(a) ==> r == Accessor::Memory(a)),
            mode == Mode::Immediate ==> final(self).regs == crate::cpu::pc_advanced(old(self).regs, if wide { 2 } else { 1 })
                && final(self).hardware.clock == crate::cpu::immediate_clock(old(self).hardware, old(self).regs, wide, old(self).hardware.clock)
                && (crate::cpu::immediate_operand(old(self).hardware, old(self).regs, wide) matches Some(v)
                ==> r == Accessor::Immediate(ImmediateAccessor { value: v })),
            mode == Mode::Immediate <==> r is Immediate,
            r matches Accessor::Immediate(i) ==> fits(i.value, wide),
            mode == Mode::Immediate && !wide ==> (byte_in(old(self).hardware, crate::cpu::code_addr(old(self).regs, 0)) matches Some(b)
                ==> r == Accessor::Immediate(ImmediateAccessor { value: b as u16 })),
            mode == Mode::Immediate && wide ==> (word_in(old(self).hardware, crate::cpu::code_addr(old(self).regs, 0)) matches Some(w)
                ==> r == Accessor::Immediate(ImmediateAccessor { value: w })),
    {
        match mode {
            Mode::Immediate => {
                let v = if wide {
                    self.read_next_u16()
                } else {
                    self.read_next_u8() as u16
                };
                Accessor::Immediate(ImmediateAccessor::new(v))
            },
            Mode::Accumulator => Accessor::Accumulator,
            Mode::Absolute => Accessor::Memory(Absolute::resolve(self).0),
            Mode::AbsoluteIndexedX => Accessor::Memory(AbsoluteIndexedX::resolve(self).0),
            Mode::AbsoluteIndexedXIndirect => Accessor::Memory(AbsoluteIndexedXIndirect::resolve(self).0),
            Mode::AbsoluteIndexedY => Accessor::Memory(AbsoluteIndexedY::resolve(self).0),
            Mode::AbsoluteIndirect => Accessor::Memory(AbsoluteIndirect::resolve(self).0),
            Mode::AbsoluteIndirectLong => Accessor::Memory(AbsoluteIndirectLong::resolve(self).0),
            Mode::AbsoluteLong => Accessor::Memory(AbsoluteLong::resolve(self).0),
            Mode::AbsoluteLongIndexedX => Accessor::Memory(AbsoluteLongIndexedX::resolve(self).0),
            Mode::DirectPage => Accessor::Memory(DirectPage::resolve(self).0),
            Mode::DirectPageIndexedX => Accessor::Memory(DirectPageIndexedX::resolve(self).0),
            Mode::DirectPageIndexedXIndirect => Accessor::Memory(DirectPageIndexedXIndirect::resolve(self).0),
            Mode::DirectPageIndexedY => Accessor::Memory(DirectPageIndexedY::resolve(self).0),
            Mode::DirectPageIndirect => Accessor::Memory(DirectPageIndirect::resolve(self).0),
            Mode::DirectPageIndirectIndexedY => Accessor::Memory(DirectPageIndirectIndexedY::resolve(self).0),
            Mode::DirectPageIndirectLong => Accessor::Memory(DirectPageIndirectLong::resolve(self).0),
            Mode::DirectPageIndirectLongIndexedY => Accessor::Memory(DirectPageIndirectLongIndexedY::resolve(self).0),
            Mode::ProgramCounterRelative => Accessor::Memory(ProgramCounterRelative::resolve(self).0),
            Mode::StackRelative => Accessor::Memory(StackRelative::resolve(self).0),
            Mode::StackRelativeIndirectIndexedY => Accessor::Memory(StackRelativeIndirectIndexedY::resolve(self).0),
        }
    }

    /// Reads an operand of the width.
    #[verifier::rlimit(100)]
    pub fn read_operand(&mut self, a: Accessor, wide: bool) -> (r: u16)
        requires
            old(self).wf(),
            a matches Accessor::Immediate(i) ==> fits(i.value, wide),
        ensures
            final(self).fetched(old(self), 0),
            !(a is Memory) ==> final(self).hardware == old(self).hardware,
            fits(r, wide),
            a matches Accessor::Immediate(i) ==> r == i.value,
            a == Accessor::Accumulator ==> r == acc_value(old(self).regs, wide),
            a matches Accessor::Memory(m) ==> (if wide {
                word_in(old(self).hardware, m) matches Some(v) ==> r == v
            } else {
                byte_in(old(self).hardware, m) matches Some(v) ==> r == v as u16
            }),
    {
        match a {
            Accessor::Memory(m) => {
                if wide {
                    self.hardware.read_u16(m)
                } else {
                    self.hardware.read_u8(m) as u16
                }
            },
            Accessor::Immediate(i) => i.value,
            Accessor::Accumulator => {
                if wide {
                    self.regs.accumulator
                } else {
                    self.regs.accumulator % 256
                }
            },
        }
    }

    /// Writes an operand of the width; an 8-bit accumulator write keeps the high byte.
    #[verifier::rlimit(100)]
    pub fn write_operand(&mut self, a: Accessor, v: u16, wide: bool)
        requires
            old(self).wf(),
            !(a is Immediate),
        ensures
            final(self).wf(),
            final(self).flags == old(self).flags,
            final(self).run_state == old(self).run_state,
            a == Accessor::Accumulator ==> final(self).regs == (CpuRegisters {
                accumulator: stored(old(self).regs.accumulator, v, wide),
                ..old(self).regs
            }) && final(self).hardware == old(self).hardware,
            a is Memory ==> final(self).regs == old(self).regs,
            a matches Accessor::Memory(m) ==> (if wide {
                final(self).hardware.word_written(&old(self).hardware, m, v)
            } else {
                final(self).hardware.written(&old(self).hardware, crate::hardware::route(old(self).hardware.rom.mode, m), lo(v))
            }),
    {
        match a {
            Accessor::Memory(m) => {
                if wide {
                    self.hardware.write_u16(m, v);
                } else {
                    self.hardware.write_u8(m, lower(v));
                }
            },
            Accessor::Immediate(_) => {},
            Accessor::Accumulator => {
                if wide {
                    self.regs.accumulator = v;
                } else {
                    self.regs.accumulator = set_lower(self.regs.accumulator, lower(v));
                }
            },
        }
    }

    #[verifier::rlimit(100)]
    fn set_zero_and_negative(&mut self, v: u16, wide: bool)
        ensures
            final(self).flags == nz(old(self).flags, v, wide),
            final(self).regs == old(self).regs,
            final(self).hardware == old(self).hardware,
            final(self).run_state == old(self).run_state,
    {
        self.flags.zero = v == 0;
        self.flags.negative = negative(v, wide);
    }

    #[verifier::rlimit(100)]
    fn set_accumulator(&mut self, v: u16, wide: bool)
        ensures
            final(self).regs == with_acc(old(self).regs, v, wide),
            final(self).flags == old(self).flags,
            final(self).hardware == old(self).hardware,
            final(self).run_state == old(self).run_state,
    {
        if wide {
            self.regs.accumulator = v;
        } else {
            self.regs.accumulator = set_lower(self.regs.accumulator, lower(v));
        }
    }

    #[verifier::rlimit(100)]
    fn apply_logic(&mut self, op: AluOp, v: u16, wide: bool)
        requires
            op == AluOp::Or || op == AluOp::And || op == AluOp::Eor || op == AluOp::Load,
        ensures
            final(self).hardware == old(self).hardware,
            final(self).run_state == old(self).run_state,
            (final(self).regs, final(self).flags) == alu(op, old(self).regs, old(self).flags, v, wide),
    {
        let a = if wide {
            self.regs.accumulator
        } else {
            self.regs.accumulator % 256
        };
        let x = match op {
            AluOp::Or => a | v,
            AluOp::And => a & v,
            AluOp::Eor => a ^ v,
            _ => v,
        };
        self.set_accumulator(x, wide);
        self.set_zero_and_negative(x, wide);
    }

    #[verifier::rlimit(100)]
    fn apply_arithmetic(&mut self, op: AluOp, v: u16, wide: bool)
        requires
            op == AluOp::Adc || op == AluOp::Sbc,
            fits(v, wide),
        ensures
            final(self).hardware == old(self).hardware,
            final(self).run_state == old(self).run_state,
            (final(self).regs, final(self).flags) == alu(op, old(self).regs, old(self).flags, v, wide),
    {
        let a = if wide {
            self.regs.accumulator
        } else {
            self.regs.accumulator % 256
        };
        assert(a == acc_value(self.regs, wide));
        let out = if op == AluOp::Adc {
            add_with_carry(a, v, self.flags.carry, wide)
        } else {
            subtract_with_carry(a, v, self.flags.carry, wide)
        };
        self.commit_arithmetic(out, wide);
    }

    #[verifier::rlimit(100)]
    fn commit_arithmetic(&mut self, out: (u16, bool, bool), wide: bool)
        ensures
            final(self).hardware == old(self).hardware,
            final(self).run_state == old(self).run_state,
            final(self).regs == with_acc(old(self).regs, out.0, wide),
            final(self).flags == (CpuFlags { carry: out.1, overflow: out.2, ..nz(old(self).flags, out.0, wide) }),
    {
        self.set_accumulator(out.0, wide);
        self.set_zero_and_negative(out.0, wide);
        self.flags.carry = out.1;
        self.flags.overflow = out.2;
    }

    #[verifier::rlimit(100)]
    fn apply_test(&mut self, op: AluOp, v: u16, wide: bool)
        requires
            op == AluOp::Compare || op == AluOp::Bit || op == AluOp::BitImmediate,
            fits(v, wide),
        ensures
            final(self).hardware == old(self).hardware,
            final(self).run_state == old(self).run_state,
            (final(self).regs, final(self).flags) == alu(op, old(self).regs, old(self).flags, v, wide),
    {
        let a = if wide {
            self.regs.accumulator
        } else {
            self.regs.accumulator % 256
        };
        if op == AluOp::Compare {
            let m: u32 = if wide { 0x10000 } else { 0x100 };
            let x = ((a as u32 + m - v as u32) % m) as u16;
            self.set_zero_and_negative(x, wide);
            self.flags.carry = v <= a;
        } else if op == AluOp::Bit {
            self.flags.negative = negative(v, wide);
            self.flags.overflow = overflow_bit(v, wide);
            self.flags.zero = a & v == 0;
        } else {
            self.flags.zero = a & v == 0;
        }
    }

    /// Applies an accumulator operation to operand `v`.
    #[verifier::rlimit(100)]
    fn apply_alu(&mut self, op: AluOp, v: u16, wide: bool) -> (r: Result<(), CpuError>)
        requires
            fits(v, wide),
        ensures
            final(self).hardware == old(self).hardware,
            final(self).run_state == old(self).run_state,
            r is Err <==> (op == AluOp::Adc || op == AluOp::Sbc) && old(self).flags.decimal_mode,
            r is Err ==> r == Err::<(), CpuError>(CpuError::DecimalMode) && final(self).flags == old(self).flags
                && final(self).regs == old(self).regs,
            r is Ok ==> (final(self).regs, final(self).flags) == alu(op, old(self).regs, old(self).flags, v, wide),
    {
        match op {
            AluOp::Adc | AluOp::Sbc => {
                if self.flags.decimal_mode {
                    return Err(CpuError::DecimalMode);
                }
                self.apply_arithmetic(op, v, wide);
            },
            AluOp::Compare | AluOp::Bit | AluOp::BitImmediate => self.apply_test(op, v, wide),
            _ => self.apply_logic(op, v, wide),
        }
        Ok(())
    }

    /// ORA, AND, EOR, ADC, SBC, LDA, CMP and BIT: returns the operand used.
    #[verifier::rlimit(100)]
    pub fn accumulator_op(&mut self, op: AluOp, mode: Mode) -> (r: Result<u16, CpuError>)
        requires
            old(self).wf(),
            mode != Mode::Accumulator,
        ensures
            final(self).wf(),
            final(self).run_state == old(self).run_state,
            final(self).hardware.same_storage(&old(self).hardware),
            r is Err <==> (op == AluOp::Adc || op == AluOp::Sbc) && old(self).flags.decimal_mode,
            r is Err ==> r == Err::<u16, CpuError>(CpuError::DecimalMode) && final(self).flags == old(self).flags
                && final(self).regs == (CpuRegisters { program_counter: final(self).regs.program_counter, ..old(self).regs }),
            r matches Ok(v) ==> (final(self).regs, final(self).flags) == alu(
                op,
                CpuRegisters { program_counter: final(self).regs.program_counter, ..old(self).regs },
                old(self).flags,
                v,
                old(self).mwide(),
            ),
            mode != Mode::Immediate ==> final(self).regs.program_counter == crate::cpu::pc_advanced(
                old(self).regs,
                crate::memory_mode::operand_length(mode),
            ).program_counter,
            mode != Mode::Immediate ==> (crate::memory_mode::effective_address(mode, *old(self)) matches Some(a) ==> (
            r matches Ok(v) ==> (if old(self).mwide() {
                word_in(old(self).hardware, a) matches Some(x) ==> v == x
            } else {
                byte_in(old(self).hardware, a) matches Some(x) ==> v == x as u16
            }))),
            mode == Mode::Immediate ==> final(self).regs.program_counter == crate::cpu::pc_advanced(
                old(self).regs,
                if old(self).mwide() { 2 } else { 1 },
            ).program_counter && final(self).hardware.clock == crate::cpu::immediate_clock(
                old(self).hardware,
                old(self).regs,
                old(self).mwide(),
                old(self).hardware.clock,
            ) && (crate::cpu::immediate_operand(old(self).hardware, old(self).regs, old(self).mwide()) matches Some(x)
                ==> (r matches Ok(v) ==> v == x)),
    {
        let wide = !self.flags.memory_size;
        let accessor = self.resolve(mode, wide);
        let v = self.read_operand(accessor, wide);
        match self.apply_alu(op, v, wide) {
            Ok(()) => Ok(v),
            Err(e) => Err(e),
        }
    }
}

} // verus!
