use vstd::prelude::*;
use crate::address::HardwareAddress;

verus! {

/// An operand fetched from the instruction stream.
#[derive(Copy, Clone, Debug, PartialEq, Eq, Structural)]
pub struct ImmediateAccessor {
    pub value: u16,
}

impl ImmediateAccessor {
    pub fn new(value: u16) -> (r: ImmediateAccessor)
        ensures
            r.value == value,
    {
        ImmediateAccessor { value }
    }
}

/// Where an instruction's operand lives once its addressing mode is resolved.
#[derive(Copy, Clone, Debug, PartialEq, Eq, Structural)]
pub enum Accessor {
    Memory(HardwareAddress),
    Immediate(ImmediateAccessor),
    Accumulator,
}

/// The addressing mode of an instruction's operand.
#[derive(Copy, Clone, Debug, PartialEq, Eq, Structural)]
pub enum Mode {
    Immediate,
    Accumulator,
    Absolute,
    AbsoluteIndexedX,
    AbsoluteIndexedXIndirect,
    AbsoluteIndexedY,
    AbsoluteIndirect,
    AbsoluteIndirectLong,
    AbsoluteLong,
    AbsoluteLongIndexedX,
    DirectPage,
    DirectPageIndexedX,
    DirectPageIndexedXIndirect,
    DirectPageIndexedY,
    DirectPageIndirect,
    DirectPageIndirectIndexedY,
    DirectPageIndirectLong,
    DirectPageIndirectLongIndexedY,
    ProgramCounterRelative,
    StackRelative,
    StackRelativeIndirectIndexedY,
}

} // verus!
