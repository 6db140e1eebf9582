//! The controller's registers: where they are, and how they are changed.
//!
//! The registers lie in I/O space. This library does not access I/O space: it says which
//! register is to be written with what, and is told what a register read. A reading is
//! `None` where the registers' place is not known yet; a register whose place is not known
//! cannot be written either.

use vstd::prelude::*;

verus! {

/// A register of the controller.
#[derive(Clone, Copy, PartialEq, Eq, Structural, Debug)]
pub enum Register {
    Command,
    Status,
    InterruptEnable,
    FrameNumber,
    FrameBase,
    SofModify,
    Port1,
    Port2,
}

impl Register {
    /// How far behind the controller's base the register lies.
    pub open spec fn offset(self) -> int {
        match self {
            Register::Command => 0x0,
            Register::Status => 0x2,
            Register::InterruptEnable => 0x4,
            Register::FrameNumber => 0x6,
            Register::FrameBase => 0x8,
            Register::SofModify => 0xC,
            Register::Port1 => 0x10,
            Register::Port2 => 0x12,
        }
    }
}

/// A value that a register 16 bits wide is to be written with. All registers are, but for
/// [`Register::FrameBase`].
#[derive(Clone, Copy, PartialEq, Eq, Structural, Debug)]
pub struct RegisterWrite {
    pub register: Register,
    pub value: u16,
}

/// A value that a register 32 bits wide is to be written with.
#[derive(Clone, Copy, PartialEq, Eq, Structural, Debug)]
pub struct WideRegisterWrite {
    pub register: Register,
    pub value: u32,
}

/// A change of some bits.
#[derive(Clone, Copy, PartialEq, Eq, Structural, Debug)]
pub enum BitChange {
    /// The bits of the mask become 1.
    Raise(u16),
    /// The bits of the mask become 0.
    Lower(u16),
}

impl BitChange {
    /// The bits after the change.
    pub open spec fn applied(self, bits: u16) -> u16 {
        match self {
            BitChange::Raise(mask) => bits | mask,
            BitChange::Lower(mask) => bits & !mask,
        }
    }
}

/// A register whose bits are to be changed: it is read, and written back with the change.
#[derive(Clone, Copy, PartialEq, Eq, Structural, Debug)]
pub struct RegisterEdit {
    pub register: Register,
    pub change: BitChange,
}

impl RegisterEdit {
    /// What to write where the register has read `bits`.
    pub fn write_back(self, bits: u16) -> (write: RegisterWrite)
        ensures
            write.register == self.register,
            write.value == self.change.applied(bits),
    {
        let value: u16 = match self.change {
            BitChange::Raise(mask) => bits | mask,
            BitChange::Lower(mask) => bits & !mask,
        };
        RegisterWrite { register: self.register, value }
    }
}

/// What a register that holds `bits` holds after an edit, if there is one.
pub open spec fn edited(edit: Option<RegisterEdit>, bits: u16) -> u16 {
    match edit {
        Some(edit) => edit.change.applied(bits),
        None => bits,
    }
}

/// The edit that a switch of one flag asks for: `on` sets it, 0 clears it, and every other
/// value leaves the register alone.
pub open spec fn switched(
    register: Register,
    mask: u16,
    on: u8,
    value: u8,
) -> Option<RegisterEdit> {
    if value == on {
        Some(RegisterEdit { register, change: BitChange::Raise(mask) })
    } else if value == 0 {
        Some(RegisterEdit { register, change: BitChange::Lower(mask) })
    } else {
        None
    }
}

pub(crate) fn switch_flag(register: Register, mask: u16, on: u8, value: u8) -> (edit: Option<
    RegisterEdit,
>)
    ensures
        edit == switched(register, mask, on, value),
{
    if value == on {
        Some(RegisterEdit { register, change: BitChange::Raise(mask) })
    } else if value == 0 {
        Some(RegisterEdit { register, change: BitChange::Lower(mask) })
    } else {
        None
    }
}

/// Whether a register reads with one of the bits of `mask` set.
pub open spec fn reads_set(reading: Option<u16>, mask: u16) -> bool {
    match reading {
        Some(bits) => bits & mask != 0,
        None => false,
    }
}

pub(crate) fn any_bit_set(reading: Option<u16>, mask: u16) -> (set: bool)
    ensures
        set == reads_set(reading, mask),
{
    match reading {
        Some(bits) => bits & mask != 0,
        None => false,
    }
}

/// Setting a flag makes the register read with it, clearing it without it, and neither
/// touches another flag.
pub proof fn law_change_touches_its_flag_only(bits: u16, mask: u16, other: u16)
    requires
        mask != 0,
        mask & other == 0,
    ensures
        reads_set(Some(BitChange::Raise(mask).applied(bits)), mask),
        !reads_set(Some(BitChange::Lower(mask).applied(bits)), mask),
        reads_set(Some(BitChange::Raise(mask).applied(bits)), other) == reads_set(
            Some(bits),
            other,
        ),
        reads_set(Some(BitChange::Lower(mask).applied(bits)), other) == reads_set(
            Some(bits),
            other,
        ),
{
    assert((bits | mask) & mask != 0 && (bits & !mask) & mask == 0 && (bits | mask) & other == bits
        & other && (bits & !mask) & other == bits & other) by (bit_vector)
        requires
            mask != 0,
            mask & other == 0,
    ;
}

/// A change done twice is the change done once, and the later of two opposite changes of
/// one flag wins.
pub proof fn law_last_change_wins(bits: u16, mask: u16)
    ensures
        BitChange::Raise(mask).applied(BitChange::Raise(mask).applied(bits)) == BitChange::Raise(
            mask,
        ).applied(bits),
        BitChange::Lower(mask).applied(BitChange::Lower(mask).applied(bits)) == BitChange::Lower(
            mask,
        ).applied(bits),
        BitChange::Raise(mask).applied(BitChange::Lower(mask).applied(bits)) == BitChange::Raise(
            mask,
        ).applied(bits),
        BitChange::Lower(mask).applied(BitChange::Raise(mask).applied(bits)) == BitChange::Lower(
            mask,
        ).applied(bits),
{
    assert((bits | mask) | mask == bits | mask && (bits & !mask) & !mask == bits & !mask && (bits
        & !mask) | mask == bits | mask && (bits | mask) & !mask == bits & !mask) by (bit_vector);
}

/// Bit by bit: a bit is 1 after raising exactly if it was 1 or is to be raised, and after
/// lowering exactly if it was 1 and is not to be lowered.
pub proof fn law_change_bit_by_bit(bits: u16, mask: u16, n: u16)
    requires
        n < 16,
    ensures
        (BitChange::Raise(mask).applied(bits) >> n) & 1 == 1 <==> (bits >> n) & 1 == 1 || (mask
            >> n) & 1 == 1,
        (BitChange::Lower(mask).applied(bits) >> n) & 1 == 1 <==> (bits >> n) & 1 == 1 && !((mask
            >> n) & 1 == 1),
{
    assert((((bits | mask) >> n) & 1 == 1 <==> (bits >> n) & 1 == 1 || (mask >> n) & 1 == 1) && (((
    bits & !mask) >> n) & 1 == 1 <==> (bits >> n) & 1 == 1 && !((mask >> n) & 1 == 1)))
        by (bit_vector)
        requires
            n < 16,
    ;
}

/// A switch edits its own register, and does so exactly for its two values. It sets all the
/// bits of its flag with the one and clears them with the other; every other bit, and every
/// bit for any other value, stays as it was.
pub proof fn law_switch_bit_by_bit(
    register: Register,
    mask: u16,
    on: u8,
    value: u8,
    bits: u16,
    n: u16,
)
    requires
        on != 0,
        n < 16,
    ensures
        switched(register, mask, on, value) is Some <==> value == on || value == 0,
        switched(register, mask, on, value) matches Some(edit) ==> edit.register == register,
        ({
            let after = match switched(register, mask, on, value) {
                Some(edit) => edit.change.applied(bits),
                None => bits,
            };
            (after >> n) & 1 == 1 <==> if (mask >> n) & 1 == 1 && value == on {
                true
            } else if (mask >> n) & 1 == 1 && value == 0 {
                false
            } else {
                (bits >> n) & 1 == 1
            }
        }),
{
    law_change_bit_by_bit(bits, mask, n);
}

/// A reading shows a flag of one bit exactly if that bit is 1 in it, and a flag of several
/// bits if one of them is; without a reading nothing is shown.
pub proof fn law_reading_shows_its_bits(bits: u16, mask: u16, n: u16)
    requires
        n < 16,
    ensures
        mask == 1u16 << n ==> (reads_set(Some(bits), mask) <==> (bits >> n) & 1 == 1),
        (bits >> n) & 1 == 1 && (mask >> n) & 1 == 1 ==> reads_set(Some(bits), mask),
        reads_set(Some(bits), mask) ==> bits != 0 && mask != 0,
        !reads_set(Some(bits), !bits),
        !reads_set(None, mask),
{
    assert({
        &&& (mask == 1u16 << n ==> (bits & mask != 0 <==> (bits >> n) & 1 == 1))
        &&& ((bits >> n) & 1 == 1 && (mask >> n) & 1 == 1 ==> bits & mask != 0)
        &&& (bits & mask != 0 ==> bits != 0 && mask != 0)
        &&& bits & !bits == 0
    }) by (bit_vector)
        requires
            n < 16,
    ;
}

/// How far behind the base each register lies, as the controller lays them out.
pub proof fn law_register_layout()
    ensures
        Register::Command.offset() == 0,
        Register::Status.offset() == 2,
        Register::InterruptEnable.offset() == 4,
        Register::FrameNumber.offset() == 6,
        Register::FrameBase.offset() == 8,
        Register::SofModify.offset() == 12,
        Register::Port1.offset() == 16,
        Register::Port2.offset() == 18,
{
}

/// What is written back goes to the register that was read, with the change and nothing else.
pub proof fn law_write_back_is_the_change(edit: RegisterEdit, bits: u16, write: RegisterWrite)
    requires
        call_ensures(RegisterEdit::write_back, (edit, bits), write),
    ensures
        write.register == edit.register,
        edit.change matches BitChange::Raise(mask) ==> write.value == bits | mask,
        edit.change matches BitChange::Lower(mask) ==> write.value == bits & !mask,
{
}

/// Whether an edit is what switching one flag asks for: for the value `on` the bits of `mask`
/// are raised in the register, for 0 they are lowered, and for any other value nothing is
/// edited.
pub open spec fn is_switch(
    edit: Option<RegisterEdit>,
    register: Register,
    mask: u16,
    on: u8,
    value: u8,
) -> bool {
    &&& edit is Some <==> value == on || value == 0
    &&& edit is Some ==> edit->0.register == register
    &&& value == on ==> edit->0.change == BitChange::Raise(mask)
    &&& value == 0 && on != 0 ==> edit->0.change == BitChange::Lower(mask)
}

} // verus!
