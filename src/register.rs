use vstd::prelude::*;
use crate::bits::{lo, hi, with_lo};

verus! {

/// The processor's registers.
#[derive(Copy, Clone, Debug, PartialEq, Eq, Structural)]
pub struct CpuRegisters {
    pub accumulator: u16,
    pub index_x: u16,
    pub index_y: u16,
    pub data_bank: u8,
    pub direct_page: u16,
    pub program_bank: u8,
    pub program_counter: u16,
    pub stack_pointer: u16,
}

/// The processor's status flags, with the emulation bit.
#[derive(Copy, Clone, Debug, PartialEq, Eq, Structural)]
pub struct CpuFlags {
    pub negative: bool,
    pub overflow: bool,
    pub memory_size: bool,
    pub index_size: bool,
    pub unused_flag: bool,
    pub break_flag: bool,
    pub decimal_mode: bool,
    pub interrupt_disable: bool,
    pub zero: bool,
    pub carry: bool,
    pub emulation_mode: bool,
}

pub open spec fn b8(b: bool, m: u8) -> u8 {
    if b { m } else { 0 }
}

/// The P register as a byte: bits 5 and 4 are U and B in emulation mode, M and X in native mode.
pub open spec fn p_byte(f: CpuFlags) -> u8 {
    b8(f.negative, 0x80) | b8(f.overflow, 0x40) | b8(
        if f.emulation_mode { f.unused_flag } else { f.memory_size },
        0x20,
    ) | b8(if f.emulation_mode { f.break_flag } else { f.index_size }, 0x10) | b8(
        f.decimal_mode,
        0x08,
    ) | b8(f.interrupt_disable, 0x04) | b8(f.zero, 0x02) | b8(f.carry, 0x01)
}

/// The flags after the P register is written with `v`.
pub open spec fn p_written(f: CpuFlags, v: u8) -> CpuFlags {
    CpuFlags {
        negative: v & 0x80 != 0,
        overflow: v & 0x40 != 0,
        decimal_mode: v & 0x08 != 0,
        interrupt_disable: v & 0x04 != 0,
        zero: v & 0x02 != 0,
        carry: v & 0x01 != 0,
        unused_flag: if f.emulation_mode { v & 0x20 != 0 } else { f.unused_flag },
        break_flag: if f.emulation_mode { v & 0x10 != 0 } else { f.break_flag },
        memory_size: if f.emulation_mode { f.memory_size } else { v & 0x20 != 0 },
        index_size: if f.emulation_mode { f.index_size } else { v & 0x10 != 0 },
        emulation_mode: f.emulation_mode,
    }
}

/// The registers after the flags changed from `old` to `new`: an index width that becomes
/// 8-bit clears the high bytes of X and Y, an accumulator width that becomes 8-bit clears
/// the high byte of A.
pub open spec fn narrowed(r: CpuRegisters, old: CpuFlags, new: CpuFlags) -> CpuRegisters {
    let r1 = if new.index_size {
        CpuRegisters { index_x: r.index_x % 256, index_y: r.index_y % 256, ..r }
    } else {
        r
    };
    if new.memory_size && !old.memory_size {
        CpuRegisters { accumulator: r1.accumulator & 0x00FF, ..r1 }
    } else {
        r1
    }
}

/// The accumulator as an operand of the width.
pub open spec fn acc_value(r: CpuRegisters, wide: bool) -> u16 {
    if wide { r.accumulator } else { r.accumulator % 256 }
}

/// A register value after an operand of the width is stored into it; 8-bit stores keep
/// the high byte.
pub open spec fn stored(old: u16, v: u16, wide: bool) -> u16 {
    if wide { v } else { with_lo(old, lo(v)) }
}

/// An index register value after an operand of the width is stored into it.
pub open spec fn index_stored(v: u16, wide: bool) -> u16 {
    if wide { v } else { v % 256 }
}

/// The bit-packed P register.
pub struct ProcessorState;

impl ProcessorState {
    pub fn get(f: &CpuFlags) -> (r: u8)
        ensures
            r == p_byte(*f),
    {
        let m = if f.emulation_mode { f.unused_flag } else { f.memory_size };
        let x = if f.emulation_mode { f.break_flag } else { f.index_size };
        (if f.negative { 0x80u8 } else { 0 }) | (if f.overflow { 0x40u8 } else { 0 }) | (if m {
            0x20u8
        } else {
            0
        }) | (if x { 0x10u8 } else { 0 }) | (if f.decimal_mode { 0x08u8 } else { 0 }) | (
        if f.interrupt_disable {
            0x04u8
        } else {
            0
        }) | (if f.zero { 0x02u8 } else { 0 }) | (if f.carry { 0x01u8 } else { 0 })
    }

    /// Writes every bit of P; a width that becomes 8-bit narrows its registers.
    pub fn set(regs: &mut CpuRegisters, f: &mut CpuFlags, value: u8)
        ensures
            *final(f) == p_written(*old(f), value),
            *final(regs) == narrowed(*old(regs), *old(f), *final(f)),
    {
        let old_m = f.memory_size;
        f.negative = (value & 0x80) != 0;
        f.overflow = (value & 0x40) != 0;
        f.decimal_mode = (value & 0x08) != 0;
        f.interrupt_disable = (value & 0x04) != 0;
        f.zero = (value & 0x02) != 0;
        f.carry = (value & 0x01) != 0;
        if f.emulation_mode {
            f.unused_flag = (value & 0x20) != 0;
            f.break_flag = (value & 0x10) != 0;
        } else {
            f.memory_size = (value & 0x20) != 0;
            f.index_size = (value & 0x10) != 0;
        }
        narrow(regs, old_m, f);
    }
}

/// Clears the high bytes that the widths in `f` leave unused.
pub fn narrow(regs: &mut CpuRegisters, old_memory_size: bool, f: &CpuFlags)
    ensures
        *final(regs) == narrowed(*old(regs), CpuFlags { memory_size: old_memory_size, ..*f }, *f),
{
    if f.index_size {
        regs.index_x = regs.index_x % 256;
        regs.index_y = regs.index_y % 256;
    }
    if f.memory_size && !old_memory_size {
        regs.accumulator = regs.accumulator & 0x00FF;
    }
}

/// Writing P and reading it back gives the byte written, in either mode: bits 5 and 4
/// come back through U and B in emulation mode and through M and X in native mode.
pub proof fn lemma_p_round_trip(f: CpuFlags, v: u8)
    ensures
        p_byte(p_written(f, v)) == v,
        p_written(f, v).emulation_mode == f.emulation_mode,
{
    assert(v == ((if v & 0x80 != 0 { 0x80u8 } else { 0 }) | (if v & 0x40 != 0 { 0x40u8 } else { 0 })
        | (if v & 0x20 != 0 { 0x20u8 } else { 0 }) | (if v & 0x10 != 0 { 0x10u8 } else { 0 }) | (
    if v & 0x08 != 0 {
        0x08u8
    } else {
        0
    }) | (if v & 0x04 != 0 { 0x04u8 } else { 0 }) | (if v & 0x02 != 0 { 0x02u8 } else { 0 }) | (
    if v & 0x01 != 0 {
        0x01u8
    } else {
        0
    }))) by (bit_vector);
}

/// SEP with bit 4 of its mask set, in native mode, makes the index registers 8-bit and
/// leaves their high bytes 0.
pub proof fn lemma_sep_index_narrows(r: CpuRegisters, f: CpuFlags, mask: u8)
    requires
        !f.emulation_mode,
        mask & 0x10 != 0,
    ensures
        p_written(f, p_byte(f) | mask).index_size,
        hi(narrowed(r, f, p_written(f, p_byte(f) | mask)).index_x) == 0,
        hi(narrowed(r, f, p_written(f, p_byte(f) | mask)).index_y) == 0,
{
    let p = p_byte(f);
    assert((p | mask) & 0x10 != 0) by (bit_vector)
        requires
            mask & 0x10 != 0,
    ;
    let x = r.index_x;
    let y = r.index_y;
    assert(((x % 256) >> 8) as u8 == 0 && ((y % 256) >> 8) as u8 == 0) by (bit_vector);
}

} // verus!
