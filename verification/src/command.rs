//! The command register: running, stopping and resetting the controller.

use crate::registers::{switch_flag, BitChange, Register, RegisterEdit, RegisterWrite};
use crate::status::if_halted;
use vstd::prelude::*;

verus! {

/// The controller executes the frame list.
pub const CMD_RS: u16 = 0x01;

/// The controller resets itself.
pub const CMD_HCRESET: u16 = 0x02;

/// The controller is in global suspend mode.
pub const CMD_EGSM: u16 = 0x08;

/// The controller signals a global resume.
pub const CMD_FGR: u16 = 0x10;

/// The controller is in debug mode.
pub const CMD_SWDBG: u16 = 0x20;

/// Packets may be 64 bytes long, not just 32.
pub const CMD_MAXP: u16 = 0x80;

/// Runs the controller (1) or stops it (0). Any other value changes nothing.
pub fn run(value: u8) -> (edit: Option<RegisterEdit>)
    ensures
        edit == crate::registers::switched(Register::Command, CMD_RS, 1, value),
{
    switch_flag(Register::Command, CMD_RS, 1, value)
}

/// Enters debug mode (1) or normal mode (0); any other value changes nothing. The status
/// register's reading `sts` must show that the controller is halted.
pub fn mode(value: u8, sts: Option<u16>) -> (result: Result<Option<RegisterEdit>, &'static str>)
    ensures
        result == if crate::status::is_halted(sts) {
            Ok::<Option<RegisterEdit>, &'static str>(
                crate::registers::switched(Register::Command, CMD_SWDBG, 1, value),
            )
        } else {
            Err("The controller is not halted. Fail to change mode")
        },
{
    if if_halted(sts) {
        Ok(switch_flag(Register::Command, CMD_SWDBG, 1, value))
    } else {
        Err("The controller is not halted. Fail to change mode")
    }
}

/// Lets packets be 64 bytes long (1) or 32 bytes long (0); any other value changes
/// nothing. The status register's reading `sts` must show that the controller is halted.
pub fn packet_size(value: u8, sts: Option<u16>) -> (result: Result<
    Option<RegisterEdit>,
    &'static str,
>)
    ensures
        result == if crate::status::is_halted(sts) {
            Ok::<Option<RegisterEdit>, &'static str>(
                crate::registers::switched(Register::Command, CMD_MAXP, 1, value),
            )
        } else {
            Err("The controller is not halted. Fail to change the packet size")
        },
{
    if if_halted(sts) {
        Ok(switch_flag(Register::Command, CMD_MAXP, 1, value))
    } else {
        Err("The controller is not halted. Fail to change the packet size")
    }
}

/// Ends the signalling of a global resume.
pub fn end_global_resume() -> (edit: RegisterEdit)
    ensures
        edit == (RegisterEdit {
            register: Register::Command,
            change: BitChange::Lower(CMD_FGR),
        }),
{
    RegisterEdit { register: Register::Command, change: BitChange::Lower(CMD_FGR) }
}

/// Leaves global suspend mode. The status register's reading `sts` must show that the
/// controller is halted.
pub fn end_global_suspend(sts: Option<u16>) -> (result: Result<RegisterEdit, &'static str>)
    ensures
        result == if crate::status::is_halted(sts) {
            Ok::<RegisterEdit, &'static str>(
                RegisterEdit { register: Register::Command, change: BitChange::Lower(CMD_EGSM) },
            )
        } else {
            Err("The controller is not halted. Fail to quit global suspend mode")
        },
{
    if if_halted(sts) {
        Ok(RegisterEdit { register: Register::Command, change: BitChange::Lower(CMD_EGSM) })
    } else {
        Err("The controller is not halted. Fail to quit global suspend mode")
    }
}

/// Resets the controller.
pub fn reset() -> (write: RegisterWrite)
    ensures
        write == (RegisterWrite { register: Register::Command, value: CMD_HCRESET }),
{
    RegisterWrite { register: Register::Command, value: CMD_HCRESET }
}

/// Running the controller makes the command register read so, stopping it makes it read
/// not so, whatever it read before.
pub proof fn law_run_and_stop(bits: u16)
    ensures
        crate::registers::reads_set(
            Some(
                crate::registers::edited(
                    crate::registers::switched(Register::Command, CMD_RS, 1, 1),
                    bits,
                ),
            ),
            CMD_RS,
        ),
        !crate::registers::reads_set(
            Some(
                crate::registers::edited(
                    crate::registers::switched(Register::Command, CMD_RS, 1, 0),
                    bits,
                ),
            ),
            CMD_RS,
        ),
{
    assert(1u16 & 0 == 0) by (bit_vector);
    crate::registers::law_change_touches_its_flag_only(bits, CMD_RS, 0);
}

/// Only running and stopping changes whether the controller runs: the mode, the packet
/// size, the suspension and the resume signal are changed without it.
pub proof fn law_other_edits_keep_running(value: u8, mask: u16, bits: u16)
    requires
        mask == CMD_SWDBG || mask == CMD_MAXP || mask == CMD_FGR || mask == CMD_EGSM,
    ensures
        crate::registers::reads_set(
            Some(
                crate::registers::edited(
                    crate::registers::switched(Register::Command, mask, 1, value),
                    bits,
                ),
            ),
            CMD_RS,
        ) == crate::registers::reads_set(Some(bits), CMD_RS),
{
    assert(mask & 1 == 0) by (bit_vector)
        requires
            mask == 0x20 || mask == 0x80 || mask == 0x10 || mask == 0x08,
    ;
    crate::registers::law_change_touches_its_flag_only(bits, mask, CMD_RS);
}

/// What each switch of the command register does to it: the named bit follows the value, and
/// all the other bits stay.
pub proof fn law_command_switches(value: u8, bits: u16)
    requires
        value == 0 || value == 1,
    ensures
        ({
            let ran = crate::registers::edited(
                crate::registers::switched(Register::Command, CMD_RS, 1, value),
                bits,
            );
            ran % 2 == value && ran / 2 == bits / 2
        }),
        ({
            let debugged = crate::registers::edited(
                crate::registers::switched(Register::Command, CMD_SWDBG, 1, value),
                bits,
            );
            (debugged / 32) % 2 == value && debugged % 32 == bits % 32 && debugged / 64 == bits / 64
        }),
        ({
            let sized = crate::registers::edited(
                crate::registers::switched(Register::Command, CMD_MAXP, 1, value),
                bits,
            );
            (sized / 128) % 2 == value && sized % 128 == bits % 128 && sized / 256 == bits / 256
        }),
{
    assert({
        &&& (bits | 0x01) % 2 == 1 && (bits | 0x01) / 2 == bits / 2
        &&& (bits & !0x01u16) % 2 == 0 && (bits & !0x01u16) / 2 == bits / 2
        &&& ((bits | 0x20) / 32) % 2 == 1 && (bits | 0x20) % 32 == bits % 32 && (bits | 0x20) / 64
            == bits / 64
        &&& ((bits & !0x20u16) / 32) % 2 == 0 && (bits & !0x20u16) % 32 == bits % 32 && (bits
            & !0x20u16) / 64 == bits / 64
        &&& ((bits | 0x80) / 128) % 2 == 1 && (bits | 0x80) % 128 == bits % 128 && (bits | 0x80)
            / 256 == bits / 256
        &&& ((bits & !0x80u16) / 128) % 2 == 0 && (bits & !0x80u16) % 128 == bits % 128 && (bits
            & !0x80u16) / 256 == bits / 256
    }) by (bit_vector);
}

/// What the command functions ask for: each switches its own bit of the command register, or
/// clears it, or writes the reset bit alone. Mode, packet size and suspension are refused
/// exactly where bit 5 of the status register does not read 1.
pub proof fn law_command_calls(
    value: u8,
    sts: Option<u16>,
    ran: Option<RegisterEdit>,
    moded: Result<Option<RegisterEdit>, &'static str>,
    sized: Result<Option<RegisterEdit>, &'static str>,
    resumed: RegisterEdit,
    awake: Result<RegisterEdit, &'static str>,
    hard: RegisterWrite,
)
    requires
        call_ensures(run, (value,), ran),
        call_ensures(mode, (value, sts), moded),
        call_ensures(packet_size, (value, sts), sized),
        call_ensures(end_global_resume, (), resumed),
        call_ensures(end_global_suspend, (sts,), awake),
        call_ensures(reset, (), hard),
    ensures
        crate::registers::is_switch(ran, Register::Command, 0x01, 1, value),
        moded is Ok <==> sts is Some && sts->0 & 0x20 != 0,
        sized is Ok <==> sts is Some && sts->0 & 0x20 != 0,
        awake is Ok <==> sts is Some && sts->0 & 0x20 != 0,
        moded is Ok ==> crate::registers::is_switch(moded->Ok_0, Register::Command, 0x20, 1, value),
        sized is Ok ==> crate::registers::is_switch(sized->Ok_0, Register::Command, 0x80, 1, value),
        awake is Ok ==> awake->Ok_0.register == Register::Command && awake->Ok_0.change
            == BitChange::Lower(0x08),
        moded is Err ==> moded->Err_0 == "The controller is not halted. Fail to change mode",
        sized is Err ==> sized->Err_0
            == "The controller is not halted. Fail to change the packet size",
        awake is Err ==> awake->Err_0
            == "The controller is not halted. Fail to quit global suspend mode",
        resumed.register == Register::Command,
        resumed.change == BitChange::Lower(0x10),
        hard.register == Register::Command,
        hard.value == 0x02,
{
}

} // verus!
