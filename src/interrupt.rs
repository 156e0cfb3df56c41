use vstd::prelude::*;

verus! {

/// A source of interrupt service and the constants of its entry protocol.
pub trait Interrupt {
    spec fn spec_native_vector() -> u16;

    spec fn spec_emulation_vector() -> u16;

    spec fn spec_has_signature() -> bool;

    spec fn spec_set_break() -> bool;

    spec fn spec_set_interrupt_disable() -> bool;

    fn native_vector() -> (r: u16)
        ensures
            r == Self::spec_native_vector(),
    ;

    fn emulation_vector() -> (r: u16)
        ensures
            r == Self::spec_emulation_vector(),
    ;

    fn has_signature() -> (r: bool)
        ensures
            r == Self::spec_has_signature(),
    ;

    fn set_break() -> (r: bool)
        ensures
            r == Self::spec_set_break(),
    ;

    fn set_interrupt_disable() -> (r: bool)
        ensures
            r == Self::spec_set_interrupt_disable(),
    ;
}

/// The BRK instruction.
pub struct Break;

/// The COP instruction.
pub struct Coprocessor;

/// A maskable hardware interrupt.
pub struct Irq;

/// The non-maskable interrupt raised at the start of vertical blank.
pub struct Nmi;

impl Interrupt for Break {
    open spec fn spec_native_vector() -> u16 {
        0xFFE6
    }

    open spec fn spec_emulation_vector() -> u16 {
        0xFFFE
    }

    open spec fn spec_has_signature() -> bool {
        true
    }

    open spec fn spec_set_break() -> bool {
        true
    }

    open spec fn spec_set_interrupt_disable() -> bool {
        true
    }

    fn native_vector() -> (r: u16) {
        0xFFE6
    }

    fn emulation_vector() -> (r: u16) {
        0xFFFE
    }

    fn has_signature() -> (r: bool) {
        true
    }

    fn set_break() -> (r: bool) {
        true
    }

    fn set_interrupt_disable() -> (r: bool) {
        true
    }
}

impl Interrupt for Coprocessor {
    open spec fn spec_native_vector() -> u16 {
        0xFFE5
    }

    open spec fn spec_emulation_vector() -> u16 {
        0xFFF4
    }

    open spec fn spec_has_signature() -> bool {
        true
    }

    open spec fn spec_set_break() -> bool {
        false
    }

    open spec fn spec_set_interrupt_disable() -> bool {
        true
    }

    fn native_vector() -> (r: u16) {
        0xFFE5
    }

    fn emulation_vector() -> (r: u16) {
        0xFFF4
    }

    fn has_signature() -> (r: bool) {
        true
    }

    fn set_break() -> (r: bool) {
        false
    }

    fn set_interrupt_disable() -> (r: bool) {
        true
    }
}

impl Interrupt for Irq {
    open spec fn spec_native_vector() -> u16 {
        0xFFEE
    }

    open spec fn spec_emulation_vector() -> u16 {
        0xFFFE
    }

    open spec fn spec_has_signature() -> bool {
        false
    }

    open spec fn spec_set_break() -> bool {
        false
    }

    open spec fn spec_set_interrupt_disable() -> bool {
        true
    }

    fn native_vector() -> (r: u16) {
        0xFFEE
    }

    fn emulation_vector() -> (r: u16) {
        0xFFFE
    }

    fn has_signature() -> (r: bool) {
        false
    }

    fn set_break() -> (r: bool) {
        false
    }

    fn set_interrupt_disable() -> (r: bool) {
        true
    }
}

impl Interrupt for Nmi {
    open spec fn spec_native_vector() -> u16 {
        0xFFEA
    }

    open spec fn spec_emulation_vector() -> u16 {
        0xFFFA
    }

    open spec fn spec_has_signature() -> bool {
        false
    }

    open spec fn spec_set_break() -> bool {
        false
    }

    open spec fn spec_set_interrupt_disable() -> bool {
        false
    }

    fn native_vector() -> (r: u16) {
        0xFFEA
    }

    fn emulation_vector() -> (r: u16) {
        0xFFFA
    }

    fn has_signature() -> (r: bool) {
        false
    }

    fn set_break() -> (r: bool) {
        false
    }

    fn set_interrupt_disable() -> (r: bool) {
        false
    }
}

} // verus!
