//! The interrupt enable register: what the controller interrupts for.

use crate::registers::{switch_flag, Register, RegisterEdit};
use vstd::prelude::*;

verus! {

/// Interrupt on time-outs and checksum errors.
pub const INTR_TIMEOUT: u16 = 0x1;

/// Interrupt when a device signals resume.
pub const INTR_RESUME: u16 = 0x2;

/// Interrupt when a transaction that asks for it completes.
pub const INTR_IOC: u16 = 0x4;

/// Interrupt on short packets.
pub const INTR_SP: u16 = 0x8;

/// Enables (1) or disables (0) the interrupt for short packets. Any other value
/// changes nothing.
pub fn short_packet_int(value: u8) -> (edit: Option<RegisterEdit>)
    ensures
        edit == crate::registers::switched(Register::InterruptEnable, INTR_SP, 1, value),
{
    switch_flag(Register::InterruptEnable, INTR_SP, 1, value)
}

/// Enables (1) or disables (0) the interrupt for resume signals. Any other value
/// changes nothing.
pub fn resume_int(value: u8) -> (edit: Option<RegisterEdit>)
    ensures
        edit == crate::registers::switched(Register::InterruptEnable, INTR_RESUME, 1, value),
{
    switch_flag(Register::InterruptEnable, INTR_RESUME, 1, value)
}

/// Enables (1) or disables (0) the interrupt for completed transactions. Any other value
/// changes nothing.
pub fn ioc_int(value: u8) -> (edit: Option<RegisterEdit>)
    ensures
        edit == crate::registers::switched(Register::InterruptEnable, INTR_IOC, 1, value),
{
    switch_flag(Register::InterruptEnable, INTR_IOC, 1, value)
}

/// Enables (1) or disables (0) the interrupt for time-outs and checksum errors. Any other value
/// changes nothing.
pub fn tcrc_int(value: u8) -> (edit: Option<RegisterEdit>)
    ensures
        edit == crate::registers::switched(Register::InterruptEnable, INTR_TIMEOUT, 1, value),
{
    switch_flag(Register::InterruptEnable, INTR_TIMEOUT, 1, value)
}

/// Whether `mask` is one of the four interrupts.
pub open spec fn is_interrupt(mask: u16) -> bool {
    mask == INTR_TIMEOUT || mask == INTR_RESUME || mask == INTR_IOC || mask == INTR_SP
}

/// The four interrupts are independent: enabling or disabling one makes the register read
/// so, and leaves the others as they were.
pub proof fn law_interrupts_are_independent(mask: u16, other: u16, bits: u16, value: u8)
    requires
        is_interrupt(mask),
        is_interrupt(other),
        mask != other,
        value == 0 || value == 1,
    ensures
        crate::registers::switched(Register::InterruptEnable, mask, 1, value) matches Some(edit)
            && {
            let after = edit.change.applied(bits);
            &&& crate::registers::reads_set(Some(after), mask) == (value == 1)
            &&& crate::registers::reads_set(Some(after), other) == crate::registers::reads_set(
                Some(bits),
                other,
            )
        },
{
    assert(mask & other == 0) by (bit_vector)
        requires
            mask == 1 || mask == 2 || mask == 4 || mask == 8,
            other == 1 || other == 2 || other == 4 || other == 8,
            mask != other,
    ;
    crate::registers::law_change_touches_its_flag_only(bits, mask, other);
}

/// What the interrupt functions ask for: each switches its own bit of the interrupt enable
/// register.
pub proof fn law_interrupt_calls(
    value: u8,
    short: Option<RegisterEdit>,
    resumed: Option<RegisterEdit>,
    completed: Option<RegisterEdit>,
    timed_out: Option<RegisterEdit>,
)
    requires
        call_ensures(short_packet_int, (value,), short),
        call_ensures(resume_int, (value,), resumed),
        call_ensures(ioc_int, (value,), completed),
        call_ensures(tcrc_int, (value,), timed_out),
    ensures
        crate::registers::is_switch(short, Register::InterruptEnable, 0x8, 1, value),
        crate::registers::is_switch(resumed, Register::InterruptEnable, 0x2, 1, value),
        crate::registers::is_switch(completed, Register::InterruptEnable, 0x4, 1, value),
        crate::registers::is_switch(timed_out, Register::InterruptEnable, 0x1, 1, value),
{
}

} // verus!
