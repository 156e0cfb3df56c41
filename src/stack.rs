use vstd::prelude::*;
use crate::address::HardwareAddress;
use crate::bits::{join, lo, hi, lower, upper, join_bytes};
use crate::cpu::{Cpu, byte_in, word_in, zero_bank};
use crate::hardware::{Hardware, route, lemma_low_ram};
use crate::address::in_bank;
use crate::bits::lemma_join_bytes;
use crate::register::CpuRegisters;

verus! {

/// The stack pointer after `n` bytes are pushed.
pub open spec fn push_sp(s: u16, n: int) -> u16 {
    ((s as int - n + 0x10000) % 0x10000) as u16
}

/// The stack pointer after `n` bytes are pulled.
pub open spec fn pull_sp(s: u16, n: int) -> u16 {
    ((s as int + n) % 0x10000) as u16
}

/// Pulling as many bytes as were pushed brings the stack pointer back: balanced
/// push/pull pairs, JSR/RTS (2 bytes), JSL/RTL (3 bytes) and BRK/RTI (3 or 4 bytes)
/// leave S unchanged.
pub proof fn lemma_stack_balanced(s: u16, n: int)
    requires
        0 <= n <= 4,
    ensures
        pull_sp(push_sp(s, n), n) == s,
{
}

/// A word pushed onto a stack in work RAM is the word a pull at the new stack pointer
/// reads back, and S returns to where it was.
pub proof fn lemma_push_pull_word(before: Hardware, after: Hardware, s: u16, v: u16)
    requires
        2 <= s < 0x2000,
        before.wram.wf(),
        after.word_written(&before, zero_bank(s as int - 1 + 0x10000), v),
    ensures
        word_in(after, zero_bank(push_sp(s, 2) as int + 1)) == Some(v),
        pull_sp(push_sp(s, 2), 2) == s,
{
    lemma_low_ram(before.rom.mode, (s - 1) as u16);
    lemma_low_ram(before.rom.mode, s);
    lemma_join_bytes(v);
    assert(zero_bank(push_sp(s, 2) as int + 1) == zero_bank(s as int - 1 + 0x10000));
    assert(in_bank(zero_bank(s as int - 1 + 0x10000), 1) == (HardwareAddress { bank: 0, offset: s }));
    assert(after.wram.data.0@[s as int - 1] == lo(v));
    assert(after.wram.data.0@[s as int] == hi(v));
}

/// A byte pushed onto a stack in work RAM is the byte a pull at the new stack pointer reads
/// back.
pub proof fn lemma_push_pull_byte(before: Hardware, after: Hardware, s: u16, v: u8)
    requires
        1 <= s < 0x2000,
        before.wram.wf(),
        after.written(&before, route(before.rom.mode, zero_bank(s as int)), v),
    ensures
        byte_in(after, zero_bank(push_sp(s, 1) as int + 1)) == Some(v),
        pull_sp(push_sp(s, 1), 1) == s,
{
    lemma_low_ram(before.rom.mode, s);
    assert(zero_bank(push_sp(s, 1) as int + 1) == zero_bank(s as int));
    assert(after.wram.data.0@[s as int] == v);
}

/// JSR pushes the address of its last byte and RTS continues one past the word it pulls:
/// the round trip lands on the instruction after the JSR.
pub proof fn lemma_return_address(r: u16)
    ensures
        ((((r as int + 0xFFFF) % 0x10000) as u16) as int + 1) % 0x10000 == r as int,
{
}

impl Cpu {
    /// The registers with the stack pointer replaced.
    pub open spec fn with_sp(r: CpuRegisters, s: u16) -> CpuRegisters {
        CpuRegisters { stack_pointer: s, ..r }
    }

    /// Pushes a byte: S moves down one and the byte goes to $00:(S+1).
    #[verifier::rlimit(100)]
    pub fn push_u8(&mut self, v: u8)
        requires
            old(self).wf(),
        ensures
            final(self).wf(),
            final(self).regs == Cpu::with_sp(old(self).regs, push_sp(old(self).regs.stack_pointer, 1)),
            final(self).flags == old(self).flags,
            final(self).run_state == old(self).run_state,
            final(self).hardware.written(
                &old(self).hardware,
                route(old(self).hardware.rom.mode, zero_bank(old(self).regs.stack_pointer as int)),
                v,
            ),
            final(self).hardware.rom.mode == old(self).hardware.rom.mode,
            final(self).hardware.rom.data.0@ == old(self).hardware.rom.data.0@,
    {
        self.regs.stack_pointer = ((self.regs.stack_pointer as u32 + 0xFFFF) % 0x10000) as u16;
        let address = HardwareAddress::new(0, ((self.regs.stack_pointer as u32 + 1) % 0x10000) as u16);
        self.hardware.write_u8(address, v);
    }

    /// Pushes a word: S moves down two and the word goes to $00:(S+1), low byte first.
    #[verifier::rlimit(100)]
    pub fn push_u16(&mut self, v: u16)
        requires
            old(self).wf(),
        ensures
            final(self).wf(),
            final(self).regs == Cpu::with_sp(old(self).regs, push_sp(old(self).regs.stack_pointer, 2)),
            final(self).flags == old(self).flags,
            final(self).run_state == old(self).run_state,
            final(self).hardware.rom.mode == old(self).hardware.rom.mode,
            final(self).hardware.rom.data.0@ == old(self).hardware.rom.data.0@,
            final(self).hardware.word_written(
                &old(self).hardware,
                zero_bank(old(self).regs.stack_pointer as int - 1 + 0x10000),
                v,
            ),
    {
        self.regs.stack_pointer = ((self.regs.stack_pointer as u32 + 0xFFFE) % 0x10000) as u16;
        assert(zero_bank(self.regs.stack_pointer as int + 1) == zero_bank(old(self).regs.stack_pointer as int - 1 + 0x10000));
        let address = HardwareAddress::new(0, ((self.regs.stack_pointer as u32 + 1) % 0x10000) as u16);
        self.hardware.write_u16(address, v);
    }

    /// Pulls a byte from $00:(S+1) and moves S up one.
    #[verifier::rlimit(100)]
    pub fn pull_u8(&mut self) -> (r: u8)
        requires
            old(self).wf(),
        ensures
            final(self).wf(),
            final(self).regs == Cpu::with_sp(old(self).regs, pull_sp(old(self).regs.stack_pointer, 1)),
            final(self).flags == old(self).flags,
            final(self).run_state == old(self).run_state,
            final(self).hardware.same_storage(&old(self).hardware),
            byte_in(old(self).hardware, zero_bank(old(self).regs.stack_pointer as int + 1)) matches Some(v) ==> r == v,
    {
        let address = HardwareAddress::new(0, ((self.regs.stack_pointer as u32 + 1) % 0x10000) as u16);
        let value = self.hardware.read_u8(address);
        self.regs.stack_pointer = ((self.regs.stack_pointer as u32 + 1) % 0x10000) as u16;
        value
    }

    /// Pulls a word from $00:(S+1) and moves S up two.
    #[verifier::rlimit(100)]
    pub fn pull_u16(&mut self) -> (r: u16)
        requires
            old(self).wf(),
        ensures
            final(self).wf(),
            final(self).regs == Cpu::with_sp(old(self).regs, pull_sp(old(self).regs.stack_pointer, 2)),
            final(self).flags == old(self).flags,
            final(self).run_state == old(self).run_state,
            final(self).hardware.same_storage(&old(self).hardware),
            word_in(old(self).hardware, zero_bank(old(self).regs.stack_pointer as int + 1)) matches Some(v) ==> r == v,
    {
        let address = HardwareAddress::new(0, ((self.regs.stack_pointer as u32 + 1) % 0x10000) as u16);
        let value = self.hardware.read_u16(address);
        self.regs.stack_pointer = ((self.regs.stack_pointer as u32 + 2) % 0x10000) as u16;
        value
    }
}

} // verus!
