use vstd::prelude::*;
use crate::accessor::Mode;
use crate::address::HardwareAddress;
use crate::bits::lo;
use crate::cpu::{Cpu, word_in, long_in, byte_in, code_addr, zero_bank};

verus! {

// Each addressing mode reads its operand bytes from the instruction stream and resolves to
// an effective address and the address as written in the instruction. Every `resolve`
// leaves all but the program counter and the clock as they were; the effective address is
// stated wherever the bytes it is built from are plain storage.

/// `$nnnn`: data bank, 16-bit operand.
pub struct Absolute;

/// `$nnnn,X`
pub struct AbsoluteIndexedX;

/// `($nnnn,X)`: pointer in the program bank.
pub struct AbsoluteIndexedXIndirect;

/// `$nnnn,Y`
pub struct AbsoluteIndexedY;

/// `($nnnn)`: pointer in bank 0, target in the program bank.
pub struct AbsoluteIndirect;

/// `[$nnnn]`: 24-bit pointer in the program bank.
pub struct AbsoluteIndirectLong;

/// `$nnnnnn`
pub struct AbsoluteLong;

/// `$nnnnnn,X`
pub struct AbsoluteLongIndexedX;

/// `$nn`: bank 0, direct page plus operand.
pub struct DirectPage;

/// `$nn,X`
pub struct DirectPageIndexedX;

/// `($nn,X)`
pub struct DirectPageIndexedXIndirect;

/// `$nn,Y`
pub struct DirectPageIndexedY;

/// `($nn)`: pointer in the direct page, target in the data bank.
pub struct DirectPageIndirect;

/// `($nn),Y`
pub struct DirectPageIndirectIndexedY;

/// `[$nn]`: 24-bit pointer in the direct page.
pub struct DirectPageIndirectLong;

/// `[$nn],Y`
pub struct DirectPageIndirectLongIndexedY;

/// `$nnnn,PC`: the program counter plus a 16-bit displacement, in the data bank.
pub struct ProgramCounterRelative;

/// `$nn,S`
pub struct StackRelative;

/// `($nn,S),Y`
pub struct StackRelativeIndirectIndexedY;

/// Offset arithmetic modulo 64K.
pub open spec fn add16(a: int, b: int) -> u16 {
    ((a + b) % 0x10000) as u16
}

fn wrap_add(a: u16, b: u16) -> (r: u16)
    ensures
        r == add16(a as int, b as int),
{
    ((a as u32 + b as u32) % 0x10000) as u16
}

/// The address an addressing mode resolves to from the state before its operand bytes are
/// read, where every byte it is built from is plain storage.
pub open spec fn effective_address(mode: Mode, c: Cpu) -> Option<HardwareAddress> {
    let hw = c.hardware;
    let r = c.regs;
    let w = word_in(hw, code_addr(r, 0));
    let b = byte_in(hw, code_addr(r, 0));
    match mode {
        Mode::Absolute => match w {
            Some(w) => Some(HardwareAddress { bank: r.data_bank, offset: w }),
            None => None,
        },
        Mode::AbsoluteIndexedX => match w {
            Some(w) => Some(HardwareAddress { bank: r.data_bank, offset: add16(w as int, r.index_x as int) }),
            None => None,
        },
        Mode::AbsoluteIndexedY => match w {
            Some(w) => Some(HardwareAddress { bank: r.data_bank, offset: add16(w as int, r.index_y as int) }),
            None => None,
        },
        Mode::AbsoluteIndexedXIndirect => match w {
            Some(w) => match word_in(hw, HardwareAddress { bank: r.program_bank, offset: add16(w as int, r.index_x as int) }) {
                Some(p) => Some(HardwareAddress { bank: r.program_bank, offset: p }),
                None => None,
            },
            None => None,
        },
        Mode::AbsoluteIndirect => match w {
            Some(w) => match word_in(hw, HardwareAddress { bank: 0, offset: w }) {
                Some(p) => Some(HardwareAddress { bank: r.program_bank, offset: p }),
                None => None,
            },
            None => None,
        },
        Mode::AbsoluteIndirectLong => match w {
            Some(w) => long_in(hw, HardwareAddress { bank: r.program_bank, offset: w }),
            None => None,
        },
        Mode::AbsoluteLong => match (w, byte_in(hw, code_addr(r, 2))) {
            (Some(w), Some(k)) => Some(HardwareAddress { bank: k, offset: w }),
            _ => None,
        },
        Mode::AbsoluteLongIndexedX => match (w, byte_in(hw, code_addr(r, 2))) {
            (Some(w), Some(k)) => Some(HardwareAddress { bank: k, offset: add16(w as int, r.index_x as int) }),
            _ => None,
        },
        Mode::DirectPage => match b {
            Some(b) => Some(dp(c, b, 0)),
            None => None,
        },
        Mode::DirectPageIndexedX => match b {
            Some(b) => Some(dp(c, b, r.index_x)),
            None => None,
        },
        Mode::DirectPageIndexedY => match b {
            Some(b) => Some(dp(c, b, r.index_y)),
            None => None,
        },
        Mode::DirectPageIndexedXIndirect => match b {
            Some(b) => match word_in(hw, dp(c, b, r.index_x)) {
                Some(p) => Some(HardwareAddress { bank: 0, offset: p }),
                None => None,
            },
            None => None,
        },
        Mode::DirectPageIndirect => match b {
            Some(b) => match word_in(hw, dp(c, b, 0)) {
                Some(p) => Some(HardwareAddress { bank: r.data_bank, offset: p }),
                None => None,
            },
            None => None,
        },
        Mode::DirectPageIndirectIndexedY => match b {
            Some(b) => match word_in(hw, dp(c, b, 0)) {
                Some(p) => Some(HardwareAddress { bank: r.data_bank, offset: add16(p as int, r.index_y as int) }),
                None => None,
            },
            None => None,
        },
        Mode::DirectPageIndirectLong => match b {
            Some(b) => long_in(hw, dp(c, b, 0)),
            None => None,
        },
        Mode::DirectPageIndirectLongIndexedY => match b {
            Some(b) => match long_in(hw, dp(c, b, 0)) {
                Some(p) => Some(HardwareAddress { bank: p.bank, offset: add16(p.offset as int, r.index_y as int) }),
                None => None,
            },
            None => None,
        },
        Mode::ProgramCounterRelative => match w {
            Some(w) => Some(HardwareAddress {
                bank: r.data_bank,
                offset: add16(r.program_counter as int + 2, w as int),
            }),
            None => None,
        },
        Mode::StackRelative => match b {
            Some(b) => Some(zero_bank(r.stack_pointer as int + b as int)),
            None => None,
        },
        Mode::StackRelativeIndirectIndexedY => match b {
            Some(b) => match word_in(hw, zero_bank(r.stack_pointer as int + b as int)) {
                Some(p) => Some(HardwareAddress { bank: r.data_bank, offset: add16(p as int, r.index_y as int) }),
                None => None,
            },
            None => None,
        },
        _ => None,
    }
}

/// Operand bytes an addressing mode reads from the instruction stream.
pub open spec fn operand_length(mode: Mode) -> int {
    match mode {
        Mode::Absolute | Mode::AbsoluteIndexedX | Mode::AbsoluteIndexedY | Mode::AbsoluteIndexedXIndirect
        | Mode::AbsoluteIndirect | Mode::AbsoluteIndirectLong | Mode::ProgramCounterRelative => 2,
        Mode::AbsoluteLong | Mode::AbsoluteLongIndexedX => 3,
        Mode::Immediate | Mode::Accumulator => 0,
        _ => 1,
    }
}

impl Absolute {
    #[verifier::rlimit(100)]
    pub fn resolve(cpu: &mut Cpu) -> (r: (HardwareAddress, HardwareAddress))
        requires
            old(cpu).wf(),
        ensures
            final(cpu).fetched(old(cpu), 2),
            word_in(old(cpu).hardware, code_addr(old(cpu).regs, 0)) matches Some(w) ==> r.0 == (HardwareAddress {
                bank: old(cpu).regs.data_bank,
                offset: w,
            }) && r.1 == r.0,
    {
        let bank = cpu.regs.data_bank;
        let immediate = HardwareAddress::new(bank, cpu.read_next_u16());
        (immediate, immediate)
    }
}

impl AbsoluteIndexedX {
    #[verifier::rlimit(100)]
    pub fn resolve(cpu: &mut Cpu) -> (r: (HardwareAddress, HardwareAddress))
        requires
            old(cpu).wf(),
        ensures
            final(cpu).fetched(old(cpu), 2),
            word_in(old(cpu).hardware, code_addr(old(cpu).regs, 0)) matches Some(w) ==> r.0 == (HardwareAddress {
                bank: old(cpu).regs.data_bank,
                offset: add16(w as int, old(cpu).regs.index_x as int),
            }) && r.1 == (HardwareAddress { bank: old(cpu).regs.data_bank, offset: w }),
    {
        let bank = cpu.regs.data_bank;
        let immediate = HardwareAddress::new(bank, cpu.read_next_u16());
        let resolved = HardwareAddress::new(bank, wrap_add(immediate.offset, cpu.regs.index_x));
        (resolved, immediate)
    }
}

impl AbsoluteIndexedY {
    #[verifier::rlimit(100)]
    pub fn resolve(cpu: &mut Cpu) -> (r: (HardwareAddress, HardwareAddress))
        requires
            old(cpu).wf(),
        ensures
            final(cpu).fetched(old(cpu), 2),
            word_in(old(cpu).hardware, code_addr(old(cpu).regs, 0)) matches Some(w) ==> r.0 == (HardwareAddress {
                bank: old(cpu).regs.data_bank,
                offset: add16(w as int, old(cpu).regs.index_y as int),
            }) && r.1 == (HardwareAddress { bank: old(cpu).regs.data_bank, offset: w }),
    {
        let bank = cpu.regs.data_bank;
        let immediate = HardwareAddress::new(bank, cpu.read_next_u16());
        let resolved = HardwareAddress::new(bank, wrap_add(immediate.offset, cpu.regs.index_y));
        (resolved, immediate)
    }
}

impl AbsoluteIndexedXIndirect {
    #[verifier::rlimit(100)]
    pub fn resolve(cpu: &mut Cpu) -> (r: (HardwareAddress, HardwareAddress))
        requires
            old(cpu).wf(),
        ensures
            final(cpu).fetched(old(cpu), 2),
            word_in(old(cpu).hardware, code_addr(old(cpu).regs, 0)) matches Some(w) ==> word_in(
                old(cpu).hardware,
                HardwareAddress { bank: old(cpu).regs.program_bank, offset: add16(w as int, old(cpu).regs.index_x as int) },
            ) matches Some(p) ==> r.0 == (HardwareAddress { bank: old(cpu).regs.program_bank, offset: p }),
    {
        let program_bank = cpu.regs.program_bank;
        let immediate = HardwareAddress::new(program_bank, cpu.read_next_u16());
        let adjusted = HardwareAddress::new(program_bank, wrap_add(immediate.offset, cpu.regs.index_x));
        let resolved_offset = cpu.hardware.read_u16(adjusted);
        (HardwareAddress::new(program_bank, resolved_offset), immediate)
    }
}

impl AbsoluteIndirect {
    #[verifier::rlimit(100)]
    pub fn resolve(cpu: &mut Cpu) -> (r: (HardwareAddress, HardwareAddress))
        requires
            old(cpu).wf(),
        ensures
            final(cpu).fetched(old(cpu), 2),
            word_in(old(cpu).hardware, code_addr(old(cpu).regs, 0)) matches Some(w) ==> word_in(
                old(cpu).hardware,
                HardwareAddress { bank: 0, offset: w },
            ) matches Some(p) ==> r.0 == (HardwareAddress { bank: old(cpu).regs.program_bank, offset: p }),
    {
        let program_bank = cpu.regs.program_bank;
        let immediate = HardwareAddress::new(0, cpu.read_next_u16());
        let resolved_offset = cpu.hardware.read_u16(immediate);
        (HardwareAddress::new(program_bank, resolved_offset), immediate)
    }
}

impl AbsoluteIndirectLong {
    #[verifier::rlimit(100)]
    pub fn resolve(cpu: &mut Cpu) -> (r: (HardwareAddress, HardwareAddress))
        requires
            old(cpu).wf(),
        ensures
            final(cpu).fetched(old(cpu), 2),
            word_in(old(cpu).hardware, code_addr(old(cpu).regs, 0)) matches Some(w) ==> long_in(
                old(cpu).hardware,
                HardwareAddress { bank: old(cpu).regs.program_bank, offset: w },
            ) matches Some(p) ==> r.0 == p,
    {
        let program_bank = cpu.regs.program_bank;
        let immediate = HardwareAddress::new(program_bank, cpu.read_next_u16());
        let resolved = cpu.hardware.read_address(immediate);
        (resolved, immediate)
    }
}

impl AbsoluteLong {
    #[verifier::rlimit(100)]
    pub fn resolve(cpu: &mut Cpu) -> (r: (HardwareAddress, HardwareAddress))
        requires
            old(cpu).wf(),
        ensures
            final(cpu).fetched(old(cpu), 3),
            r.1 == r.0,
            word_in(old(cpu).hardware, code_addr(old(cpu).regs, 0)) matches Some(w) ==> r.0.offset == w,
            byte_in(old(cpu).hardware, code_addr(old(cpu).regs, 2)) matches Some(b) ==> r.0.bank == b,
    {
        let immediate = cpu.read_next_address();
        (immediate, immediate)
    }
}

impl AbsoluteLongIndexedX {
    #[verifier::rlimit(100)]
    pub fn resolve(cpu: &mut Cpu) -> (r: (HardwareAddress, HardwareAddress))
        requires
            old(cpu).wf(),
        ensures
            final(cpu).fetched(old(cpu), 3),
            r.0.bank == r.1.bank,
            r.0.offset == add16(r.1.offset as int, old(cpu).regs.index_x as int),
            word_in(old(cpu).hardware, code_addr(old(cpu).regs, 0)) matches Some(w) ==> r.1.offset == w,
            byte_in(old(cpu).hardware, code_addr(old(cpu).regs, 2)) matches Some(b) ==> r.1.bank == b,
    {
        let immediate = cpu.read_next_address();
        let resolved = HardwareAddress::new(immediate.bank, wrap_add(immediate.offset, cpu.regs.index_x));
        (resolved, immediate)
    }
}

/// The direct-page address of operand byte `b` plus `index`.
pub open spec fn dp(cpu: Cpu, b: u8, index: u16) -> HardwareAddress {
    zero_bank(b as int + cpu.regs.direct_page as int + index as int)
}

impl DirectPage {
    #[verifier::rlimit(100)]
    pub fn resolve(cpu: &mut Cpu) -> (r: (HardwareAddress, HardwareAddress))
        requires
            old(cpu).wf(),
        ensures
            final(cpu).fetched(old(cpu), 1),
            byte_in(old(cpu).hardware, code_addr(old(cpu).regs, 0)) matches Some(b) ==> r.0 == dp(*old(cpu), b, 0)
                && r.1 == (HardwareAddress { bank: 0, offset: b as u16 }),
    {
        let immediate = HardwareAddress::new(0, cpu.read_next_u8() as u16);
        let resolved = HardwareAddress::new(0, wrap_add(immediate.offset, cpu.regs.direct_page));
        cpu.direct_page_cycle();
        (resolved, immediate)
    }
}

impl DirectPageIndexedX {
    #[verifier::rlimit(100)]
    pub fn resolve(cpu: &mut Cpu) -> (r: (HardwareAddress, HardwareAddress))
        requires
            old(cpu).wf(),
        ensures
            final(cpu).fetched(old(cpu), 1),
            byte_in(old(cpu).hardware, code_addr(old(cpu).regs, 0)) matches Some(b) ==> r.0 == dp(
                *old(cpu),
                b,
                old(cpu).regs.index_x,
            ) && r.1 == (HardwareAddress { bank: 0, offset: b as u16 }),
    {
        let immediate = HardwareAddress::new(0, cpu.read_next_u8() as u16);
        let adjusted = wrap_add(wrap_add(immediate.offset, cpu.regs.direct_page), cpu.regs.index_x);
        cpu.direct_page_cycle();
        (HardwareAddress::new(0, adjusted), immediate)
    }
}

impl DirectPageIndexedY {
    #[verifier::rlimit(100)]
    pub fn resolve(cpu: &mut Cpu) -> (r: (HardwareAddress, HardwareAddress))
        requires
            old(cpu).wf(),
        ensures
            final(cpu).fetched(old(cpu), 1),
            byte_in(old(cpu).hardware, code_addr(old(cpu).regs, 0)) matches Some(b) ==> r.0 == dp(
                *old(cpu),
                b,
                old(cpu).regs.index_y,
            ) && r.1 == (HardwareAddress { bank: 0, offset: b as u16 }),
    {
        let immediate = HardwareAddress::new(0, cpu.read_next_u8() as u16);
        let adjusted = wrap_add(wrap_add(immediate.offset, cpu.regs.direct_page), cpu.regs.index_y);
        cpu.direct_page_cycle();
        (HardwareAddress::new(0, adjusted), immediate)
    }
}

impl DirectPageIndexedXIndirect {
    #[verifier::rlimit(100)]
    pub fn resolve(cpu: &mut Cpu) -> (r: (HardwareAddress, HardwareAddress))
        requires
            old(cpu).wf(),
        ensures
            final(cpu).fetched(old(cpu), 1),
            byte_in(old(cpu).hardware, code_addr(old(cpu).regs, 0)) matches Some(b) ==> word_in(
                old(cpu).hardware,
                dp(*old(cpu), b, old(cpu).regs.index_x),
            ) matches Some(p) ==> r.0 == (HardwareAddress { bank: 0, offset: p }),
    {
        let immediate = HardwareAddress::new(0, cpu.read_next_u8() as u16);
        let adjusted = wrap_add(wrap_add(immediate.offset, cpu.regs.direct_page), cpu.regs.index_x);
        let pointer = HardwareAddress::new(0, adjusted);
        assert(byte_in(old(cpu).hardware, code_addr(old(cpu).regs, 0)) matches Some(b) ==> pointer == dp(
            *old(cpu),
            b,
            old(cpu).regs.index_x,
        ));
        cpu.direct_page_cycle();
        let resolved_offset = cpu.hardware.read_u16(pointer);
        (HardwareAddress::new(0, resolved_offset), immediate)
    }
}

impl DirectPageIndirect {
    #[verifier::rlimit(100)]
    pub fn resolve(cpu: &mut Cpu) -> (r: (HardwareAddress, HardwareAddress))
        requires
            old(cpu).wf(),
        ensures
            final(cpu).fetched(old(cpu), 1),
            byte_in(old(cpu).hardware, code_addr(old(cpu).regs, 0)) matches Some(b) ==> word_in(
                old(cpu).hardware,
                dp(*old(cpu), b, 0),
            ) matches Some(p) ==> r.0 == (HardwareAddress { bank: old(cpu).regs.data_bank, offset: p }),
    {
        let immediate = HardwareAddress::new(0, cpu.read_next_u8() as u16);
        let adjusted = wrap_add(immediate.offset, cpu.regs.direct_page);
        cpu.direct_page_cycle();
        let resolved_offset = cpu.hardware.read_u16(HardwareAddress::new(0, adjusted));
        (HardwareAddress::new(cpu.regs.data_bank, resolved_offset), immediate)
    }
}

impl DirectPageIndirectIndexedY {
    #[verifier::rlimit(100)]
    pub fn resolve(cpu: &mut Cpu) -> (r: (HardwareAddress, HardwareAddress))
        requires
            old(cpu).wf(),
        ensures
            final(cpu).fetched(old(cpu), 1),
            byte_in(old(cpu).hardware, code_addr(old(cpu).regs, 0)) matches Some(b) ==> word_in(
                old(cpu).hardware,
                dp(*old(cpu), b, 0),
            ) matches Some(p) ==> r.0 == (HardwareAddress {
                bank: old(cpu).regs.data_bank,
                offset: add16(p as int, old(cpu).regs.index_y as int),
            }),
    {
        let immediate = HardwareAddress::new(0, cpu.read_next_u8() as u16);
        let adjusted = wrap_add(immediate.offset, cpu.regs.direct_page);
        cpu.direct_page_cycle();
        let resolved_offset = cpu.hardware.read_u16(HardwareAddress::new(0, adjusted));
        let indexed = wrap_add(resolved_offset, cpu.regs.index_y);
        (HardwareAddress::new(cpu.regs.data_bank, indexed), immediate)
    }
}

impl DirectPageIndirectLong {
    #[verifier::rlimit(100)]
    pub fn resolve(cpu: &mut Cpu) -> (r: (HardwareAddress, HardwareAddress))
        requires
            old(cpu).wf(),
        ensures
            final(cpu).fetched(old(cpu), 1),
            byte_in(old(cpu).hardware, code_addr(old(cpu).regs, 0)) matches Some(b) ==> long_in(
                old(cpu).hardware,
                dp(*old(cpu), b, 0),
            ) matches Some(p) ==> r.0 == p,
    {
        let immediate = HardwareAddress::new(0, cpu.read_next_u8() as u16);
        let adjusted = wrap_add(immediate.offset, cpu.regs.direct_page);
        cpu.direct_page_cycle();
        let resolved = cpu.hardware.read_address(HardwareAddress::new(0, adjusted));
        (resolved, immediate)
    }
}

impl DirectPageIndirectLongIndexedY {
    #[verifier::rlimit(100)]
    pub fn resolve(cpu: &mut Cpu) -> (r: (HardwareAddress, HardwareAddress))
        requires
            old(cpu).wf(),
        ensures
            final(cpu).fetched(old(cpu), 1),
            byte_in(old(cpu).hardware, code_addr(old(cpu).regs, 0)) matches Some(b) ==> long_in(
                old(cpu).hardware,
                dp(*old(cpu), b, 0),
            ) matches Some(p) ==> r.0 == (HardwareAddress {
                bank: p.bank,
                offset: add16(p.offset as int, old(cpu).regs.index_y as int),
            }),
    {
        let immediate = HardwareAddress::new(0, cpu.read_next_u8() as u16);
        let adjusted = wrap_add(immediate.offset, cpu.regs.direct_page);
        cpu.direct_page_cycle();
        let resolved = cpu.hardware.read_address(HardwareAddress::new(0, adjusted));
        let indexed = wrap_add(resolved.offset, cpu.regs.index_y);
        (HardwareAddress::new(resolved.bank, indexed), immediate)
    }
}

impl ProgramCounterRelative {
    #[verifier::rlimit(100)]
    pub fn resolve(cpu: &mut Cpu) -> (r: (HardwareAddress, HardwareAddress))
        requires
            old(cpu).wf(),
        ensures
            final(cpu).fetched(old(cpu), 2),
            word_in(old(cpu).hardware, code_addr(old(cpu).regs, 0)) matches Some(w) ==> r.0 == (HardwareAddress {
                bank: old(cpu).regs.data_bank,
                offset: add16(old(cpu).regs.program_counter as int + 2, w as int),
            }),
    {
        let bank = cpu.regs.data_bank;
        let immediate = HardwareAddress::new(bank, cpu.read_next_u16());
        let adjusted = wrap_add(cpu.regs.program_counter, immediate.offset);
        (HardwareAddress::new(bank, adjusted), immediate)
    }
}

impl StackRelative {
    #[verifier::rlimit(100)]
    pub fn resolve(cpu: &mut Cpu) -> (r: (HardwareAddress, HardwareAddress))
        requires
            old(cpu).wf(),
        ensures
            final(cpu).fetched(old(cpu), 1),
            byte_in(old(cpu).hardware, code_addr(old(cpu).regs, 0)) matches Some(b) ==> r.0 == zero_bank(
                old(cpu).regs.stack_pointer as int + b as int,
            ),
    {
        let immediate = HardwareAddress::new(0, cpu.read_next_u8() as u16);
        let adjusted = wrap_add(cpu.regs.stack_pointer, immediate.offset);
        (HardwareAddress::new(0, adjusted), immediate)
    }
}

impl StackRelativeIndirectIndexedY {
    #[verifier::rlimit(100)]
    pub fn resolve(cpu: &mut Cpu) -> (r: (HardwareAddress, HardwareAddress))
        requires
            old(cpu).wf(),
        ensures
            final(cpu).fetched(old(cpu), 1),
            byte_in(old(cpu).hardware, code_addr(old(cpu).regs, 0)) matches Some(b) ==> word_in(
                old(cpu).hardware,
                zero_bank(old(cpu).regs.stack_pointer as int + b as int),
            ) matches Some(p) ==> r.0 == (HardwareAddress {
                bank: old(cpu).regs.data_bank,
                offset: add16(p as int, old(cpu).regs.index_y as int),
            }),
    {
        let immediate = HardwareAddress::new(0, cpu.read_next_u8() as u16);
        let adjusted = wrap_add(cpu.regs.stack_pointer, immediate.offset);
        let resolved_offset = cpu.hardware.read_u16(HardwareAddress::new(0, adjusted));
        let indexed = wrap_add(resolved_offset, cpu.regs.index_y);
        (HardwareAddress::new(cpu.regs.data_bank, indexed), immediate)
    }
}

} // verus!
