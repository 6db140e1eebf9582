//! The status register: what the controller reports.

use crate::registers::{any_bit_set, Register, RegisterWrite};
use vstd::prelude::*;

verus! {

/// A transaction that asked for an interrupt has completed.
pub const STS_USBINT: u16 = 0x01;

/// A transaction has ended in an error.
pub const STS_ERROR: u16 = 0x02;

/// A device signals resume.
pub const STS_RD: u16 = 0x04;

/// A serious error has occurred in an access to the host system.
pub const STS_HSE: u16 = 0x08;

/// The controller is halted.
pub const STS_HCH: u16 = 0x20;

/// Whether the status register's reading shows that the controller is halted.
pub open spec fn is_halted(sts: Option<u16>) -> bool {
    crate::registers::reads_set(sts, STS_HCH)
}

/// Whether the status register's reading shows that the controller is halted.
pub fn if_halted(sts: Option<u16>) -> (flag: bool)
    ensures
        flag == is_halted(sts),
{
    any_bit_set(sts, STS_HCH)
}

/// Whether the status register's reading shows that a serious error has occurred in an
/// access to the host system.
pub fn if_process_error(sts: Option<u16>) -> (flag: bool)
    ensures
        flag == crate::registers::reads_set(sts, STS_HSE),
{
    any_bit_set(sts, STS_HSE)
}

/// Whether the status register's reading shows that a device signals resume.
pub fn resume_detect(sts: Option<u16>) -> (flag: bool)
    ensures
        flag == crate::registers::reads_set(sts, STS_RD),
{
    any_bit_set(sts, STS_RD)
}

/// Whether the status register's reading shows that a transaction has ended in an error.
pub fn if_error_int(sts: Option<u16>) -> (flag: bool)
    ensures
        flag == crate::registers::reads_set(sts, STS_ERROR),
{
    any_bit_set(sts, STS_ERROR)
}

/// Whether the status register's reading shows that a transaction that asked for an
/// interrupt has completed.
pub fn if_interrupt(sts: Option<u16>) -> (flag: bool)
    ensures
        flag == crate::registers::reads_set(sts, STS_USBINT),
{
    any_bit_set(sts, STS_USBINT)
}

/// Acknowledges the completion of a transaction: the controller clears the bits that are
/// written as 1.
pub fn ioc_complete() -> (write: RegisterWrite)
    ensures
        write == (RegisterWrite { register: Register::Status, value: STS_USBINT }),
{
    RegisterWrite { register: Register::Status, value: STS_USBINT }
}

/// What an interrupt's handler looks for next. It reads the status register anew for each.
#[derive(Clone, Copy, PartialEq, Eq, Structural, Debug)]
pub enum StatusCheck {
    Completed,
    Halted,
    HostError,
    Resume,
    TransactionError,
}

/// What an interrupt's handler does next.
#[derive(Clone, Copy, PartialEq, Eq, Debug)]
pub enum StatusStep {
    /// Read the status register and make this check.
    Check(StatusCheck),
    /// Write this, and be done without an error.
    Acknowledge(RegisterWrite),
    /// Be done with this error.
    Fail(&'static str),
}

/// The flag that a check looks for.
pub open spec fn checked_flag(check: StatusCheck) -> u16 {
    match check {
        StatusCheck::Completed => STS_USBINT,
        StatusCheck::Halted => STS_HCH,
        StatusCheck::HostError => STS_HSE,
        StatusCheck::Resume => STS_RD,
        StatusCheck::TransactionError => STS_ERROR,
    }
}

/// What is done where the flag is there.
pub open spec fn answer_to_flag(check: StatusCheck) -> StatusStep {
    match check {
        StatusCheck::Completed => StatusStep::Acknowledge(
            RegisterWrite { register: Register::Status, value: STS_USBINT },
        ),
        StatusCheck::Halted => StatusStep::Fail("The Uhci Controller is halted"),
        StatusCheck::HostError => StatusStep::Fail(
            "UHCI has serious error occurs during a host system access",
        ),
        StatusCheck::Resume => StatusStep::Fail(
            "UHCI receives a “RESUME” signal from a USB device",
        ),
        StatusCheck::TransactionError => StatusStep::Fail(
            "completion of a USB transaction results in an error condition",
        ),
    }
}

/// What is done where it is not: the next check is made, and after the last one nothing is
/// left to explain the interrupt.
pub open spec fn otherwise(check: StatusCheck) -> StatusStep {
    match check {
        StatusCheck::Completed => StatusStep::Check(StatusCheck::Halted),
        StatusCheck::Halted => StatusStep::Check(StatusCheck::HostError),
        StatusCheck::HostError => StatusStep::Check(StatusCheck::Resume),
        StatusCheck::Resume => StatusStep::Check(StatusCheck::TransactionError),
        StatusCheck::TransactionError => StatusStep::Fail("Unknown error causing the interrupt"),
    }
}

/// What follows a check for which the status register has read `sts`.
pub open spec fn status_step(check: StatusCheck, sts: Option<u16>) -> StatusStep {
    if crate::registers::reads_set(sts, checked_flag(check)) {
        answer_to_flag(check)
    } else {
        otherwise(check)
    }
}

/// Handles an interrupt, check by check, from [`StatusCheck::Completed`] on: says what
/// follows the check for which the status register has read `sts`.
pub fn int_status_handle(check: StatusCheck, sts: Option<u16>) -> (step: StatusStep)
    ensures
        step == status_step(check, sts),
{
    match check {
        StatusCheck::Completed => {
            if if_interrupt(sts) {
                StatusStep::Acknowledge(ioc_complete())
            } else {
                StatusStep::Check(StatusCheck::Halted)
            }
        },
        StatusCheck::Halted => {
            if if_halted(sts) {
                StatusStep::Fail("The Uhci Controller is halted")
            } else {
                StatusStep::Check(StatusCheck::HostError)
            }
        },
        StatusCheck::HostError => {
            if if_process_error(sts) {
                StatusStep::Fail("UHCI has serious error occurs during a host system access")
            } else {
                StatusStep::Check(StatusCheck::Resume)
            }
        },
        StatusCheck::Resume => {
            if resume_detect(sts) {
                StatusStep::Fail("UHCI receives a “RESUME” signal from a USB device")
            } else {
                StatusStep::Check(StatusCheck::TransactionError)
            }
        },
        StatusCheck::TransactionError => {
            if if_error_int(sts) {
                StatusStep::Fail("completion of a USB transaction results in an error condition")
            } else {
                StatusStep::Fail("Unknown error causing the interrupt")
            }
        },
    }
}

/// How many checks are left, this one among them.
pub open spec fn checks_left(check: StatusCheck) -> nat {
    match check {
        StatusCheck::Completed => 5,
        StatusCheck::Halted => 4,
        StatusCheck::HostError => 3,
        StatusCheck::Resume => 2,
        StatusCheck::TransactionError => 1,
    }
}

/// How handling ends, from `check` on, where the status register reads `readings[at]` first,
/// `readings[at + 1]` next, and so on.
pub open spec fn handled(check: StatusCheck, readings: Seq<Option<u16>>, at: int) -> Result<
    RegisterWrite,
    &'static str,
>
    decreases checks_left(check),
{
    match status_step(check, readings[at]) {
        StatusStep::Check(next) => handled(next, readings, at + 1),
        StatusStep::Acknowledge(write) => Ok(write),
        StatusStep::Fail(message) => Err(message),
    }
}

/// An interrupt is a completed transaction exactly if the first reading shows one; else it
/// is the first of halt, host error, resume and transaction error that its own reading
/// shows; and else it is unexplained.
pub proof fn law_first_cause_wins(readings: Seq<Option<u16>>)
    requires
        readings.len() == 5,
    ensures
        handled(StatusCheck::Completed, readings, 0) == if readings[0] is Some && readings[0]->0
            & 0x01 != 0 {
            Ok(RegisterWrite { register: Register::Status, value: 0x01 })
        } else if readings[1] is Some && readings[1]->0 & 0x20 != 0 {
            Err("The Uhci Controller is halted")
        } else if readings[2] is Some && readings[2]->0 & 0x08 != 0 {
            Err("UHCI has serious error occurs during a host system access")
        } else if readings[3] is Some && readings[3]->0 & 0x04 != 0 {
            Err("UHCI receives a “RESUME” signal from a USB device")
        } else if readings[4] is Some && readings[4]->0 & 0x02 != 0 {
            Err("completion of a USB transaction results in an error condition")
        } else {
            Err::<RegisterWrite, &'static str>("Unknown error causing the interrupt")
        },
{
    reveal_with_fuel(handled, 5);
}

/// The controller is halted exactly if bit 5 of the status register reads 1, whatever the
/// other bits read.
pub proof fn law_halt_is_bit_5(bits: u16)
    ensures
        is_halted(Some(bits)) <==> (bits / 32) % 2 == 1,
        !is_halted(None),
{
    assert(bits & 0x20 != 0 <==> (bits / 32) % 2 == 1) by (bit_vector);
}

/// Each check is followed by an end, or by a check that leaves fewer to be made; only the
/// first can end in success, and only if its reading shows a completion.
pub proof fn law_only_completion_succeeds(check: StatusCheck, sts: Option<u16>)
    ensures
        status_step(check, sts) is Acknowledge <==> check == StatusCheck::Completed && sts is Some
            && sts->0 & 0x01 != 0,
        status_step(check, sts) matches StatusStep::Acknowledge(write) ==> write.register
            == Register::Status && write.value == 0x01,
        status_step(check, sts) matches StatusStep::Check(next) ==> checks_left(next) + 1
            == checks_left(check),
{
}

/// Each question about the status register is answered by one bit of what it read: yes
/// exactly if that bit is 1, and no without a reading.
pub proof fn law_status_questions(
    sts: Option<u16>,
    completed: bool,
    failed: bool,
    resumed: bool,
    host_error: bool,
    halted: bool,
)
    requires
        call_ensures(if_interrupt, (sts,), completed),
        call_ensures(if_error_int, (sts,), failed),
        call_ensures(resume_detect, (sts,), resumed),
        call_ensures(if_process_error, (sts,), host_error),
        call_ensures(if_halted, (sts,), halted),
    ensures
        completed <==> sts is Some && sts->0 & 0x01 != 0,
        failed <==> sts is Some && sts->0 & 0x02 != 0,
        resumed <==> sts is Some && sts->0 & 0x04 != 0,
        host_error <==> sts is Some && sts->0 & 0x08 != 0,
        halted <==> sts is Some && sts->0 & 0x20 != 0,
{
}

/// An interrupt's handler takes the steps of which [`law_first_cause_wins`] says how they end,
/// and a completion is acknowledged by writing 1 to bit 0 of the status register.
pub proof fn law_handler_calls(
    check: StatusCheck,
    sts: Option<u16>,
    step: StatusStep,
    write: RegisterWrite,
)
    requires
        call_ensures(int_status_handle, (check, sts), step),
        call_ensures(ioc_complete, (), write),
    ensures
        step == status_step(check, sts),
        write.register == Register::Status,
        write.value == 0x01,
{
}

} // verus!
