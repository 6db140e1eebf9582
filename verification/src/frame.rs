//! The registers that say which frame the controller works on, how long a frame is, and
//! where the frame list lies.

use crate::registers::{Register, WideRegisterWrite};
use vstd::prelude::*;

verus! {

/// The bits of the start-of-frame register that hold the timing value: the low 7.
pub const SOF_TIMING_MASK: u16 = 0x7F;

/// The timing value that the start-of-frame register's reading holds: its low 7 bits. 0
/// where there is no reading.
pub open spec fn sof_timing_of(sofmd: Option<u16>) -> int {
    match sofmd {
        Some(bits) => bits as int % 128,
        None => 0,
    }
}

/// The length of a frame as a timing value, from what the start-of-frame register has read.
/// 64 stands for a frame of 1 ms, the default.
pub fn get_sof_timing(sofmd: Option<u16>) -> (timing: u16)
    ensures
        timing == sof_timing_of(sofmd),
{
    match sofmd {
        Some(bits) => {
            assert(bits & 0x7F == bits % 128) by (bit_vector);
            bits & SOF_TIMING_MASK
        },
        None => 0,
    }
}

/// The frame list's address that the frame base register's reading holds: its low 12 bits
/// do not count. 0 where there is no reading.
pub open spec fn list_base(frbase: Option<u32>) -> int {
    match frbase {
        Some(bits) => bits - bits % 4096,
        None => 0,
    }
}

/// The frame's number that the frame number register's reading holds: its low 10 bits. 0
/// where there is no reading.
pub open spec fn frame_of(frnum: Option<u16>) -> int {
    match frnum {
        Some(bits) => bits as int % 1024,
        None => 0,
    }
}

/// The frame list's address, from what the frame base register has read.
pub fn frame_list_base(frbase: Option<u32>) -> (base: u32)
    ensures
        base == list_base(frbase),
{
    match frbase {
        Some(bits) => {
            assert(bits & 0xFFFF_F000 == bits - bits % 4096) by (bit_vector);
            bits & 0xFFFF_F000
        },
        None => 0,
    }
}

/// The number of the current frame, from what the frame number register has read.
pub fn frame_number(frnum: Option<u16>) -> (number: u16)
    ensures
        number == frame_of(frnum),
{
    match frnum {
        Some(bits) => {
            assert(bits & 0x3FF == bits % 1024) by (bit_vector);
            bits & 0x3FF
        },
        None => 0,
    }
}

/// How far into the frame list the current frame lies, in bytes, from what the frame number
/// register has read: bits 11 to 2 of the address.
pub fn current_index(frnum: Option<u16>) -> (index: u16)
    ensures
        index == 4 * frame_of(frnum),
{
    let number: u16 = frame_number(frnum);
    assert((number & 0x3FF) << 2u32 == 4 * number) by (bit_vector)
        requires
            number < 1024,
    ;
    (number & 0x3FF) << 2u32
}

/// Makes `base` the frame list's address. Its low 12 bits must be 0 for the controller to
/// find the list there.
pub fn assign_frame_list_base(base: u32) -> (write: WideRegisterWrite)
    ensures
        write == (WideRegisterWrite { register: Register::FrameBase, value: base }),
{
    WideRegisterWrite { register: Register::FrameBase, value: base }
}

/// The frame list lies where it was put: a register that holds what was assigned gives the
/// address back, as long as its low 12 bits are 0.
pub proof fn law_assigned_base_reads_back(base: u32)
    requires
        base % 4096 == 0,
    ensures
        list_base(Some(base)) == base,
{
}

/// Different timing values are told apart: a register that holds a timing value and nothing
/// else gives just that value, so 64 is given for the default only.
pub proof fn law_sof_timing_is_exact(timing: u16)
    requires
        timing < 128,
    ensures
        sof_timing_of(Some(timing)) == timing,
{
}

/// Whatever the registers read, the current frame is one of the frame list, and its entry
/// lies within the page at the frame list's address.
pub proof fn law_current_frame_is_in_list(frnum: Option<u16>, frbase: Option<u32>)
    ensures
        0 <= frame_of(frnum) < crate::frame_list::FRAMES,
        list_base(frbase) % 4096 == 0,
        list_base(frbase) <= list_base(frbase) + 4 * frame_of(frnum) < list_base(frbase) + 4096,
{
}

/// The frame list's address is the last page boundary up to what the register reads: at most
/// 4095 less, and a multiple of 4096.
pub proof fn law_list_base_is_page(frbase: u32)
    ensures
        list_base(Some(frbase)) % 4096 == 0,
        list_base(Some(frbase)) <= frbase < list_base(Some(frbase)) + 4096,
        list_base(None) == 0,
{
}

/// The frame's number goes round with what the register reads: it is below 1024, and differs
/// from the reading by full rounds. The next reading gives the next frame, and 0 follows on
/// 1023.
pub proof fn law_frame_number_goes_round(frnum: u16)
    ensures
        0 <= frame_of(Some(frnum)) < 1024,
        (frnum - frame_of(Some(frnum))) % 1024 == 0,
        frnum < u16::MAX ==> frame_of(Some((frnum + 1) as u16)) == (if frame_of(Some(frnum))
            == 1023 {
            0
        } else {
            frame_of(Some(frnum)) + 1
        }),
        frame_of(None) == 0,
{
}

/// The timing value is below 128, and what the register reads above its 7 low bits does not
/// count.
pub proof fn law_sof_timing_is_low_bits(sofmd: u16)
    ensures
        0 <= sof_timing_of(Some(sofmd)) < 128,
        (sofmd - sof_timing_of(Some(sofmd))) % 128 == 0,
        sof_timing_of(None) == 0,
{
}

/// What the frame registers' functions give, for any reading: the timing is its low 7 bits,
/// the frame its low 10, the place in the list four bytes for each frame, and the list's
/// address all but its low 12; without a reading all are 0. The address that is assigned is
/// written as it is.
pub proof fn law_frame_calls(
    short: Option<u16>,
    wide: Option<u32>,
    assigned: u32,
    timing: u16,
    number: u16,
    index: u16,
    base: u32,
    write: WideRegisterWrite,
)
    requires
        call_ensures(get_sof_timing, (short,), timing),
        call_ensures(frame_number, (short,), number),
        call_ensures(current_index, (short,), index),
        call_ensures(frame_list_base, (wide,), base),
        call_ensures(assign_frame_list_base, (assigned,), write),
    ensures
        short is Some ==> timing == short->0 & 0x7F,
        short is Some ==> number == short->0 & 0x3FF,
        wide is Some ==> base == wide->0 & 0xFFFF_F000,
        short is None ==> timing == 0 && number == 0,
        wide is None ==> base == 0,
        index == 4 * number,
        write.register == Register::FrameBase,
        write.value == assigned,
{
    if let Some(bits) = short {
        assert(bits & 0x7F == bits % 128 && bits & 0x3FF == bits % 1024) by (bit_vector);
    }
    if let Some(bits) = wide {
        assert(bits & 0xFFFF_F000 == bits - bits % 4096) by (bit_vector);
    }
}

} // verus!
