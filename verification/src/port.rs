//! The two root ports: their status and control registers, resetting them, and finding out
//! what is attached to them.

use crate::device::{Controller, HIDType, UsbDevice, USB_FULL_SPEED, USB_LOW_SPEED};
use crate::registers::{any_bit_set, switch_flag, Register, RegisterWrite};
use vstd::prelude::*;

verus! {

/// A device is connected.
pub const PORT_CONNECTION: u16 = 0x0001;

/// The connection has changed. Writing 1 clears the bit.
pub const PORT_CONNECTION_CHANGE: u16 = 0x0002;

/// The port is enabled.
pub const PORT_ENABLE: u16 = 0x0004;

/// The port has been enabled or disabled. Writing 1 clears the bit.
pub const PORT_ENABLE_CHANGE: u16 = 0x0008;

/// A low speed device is attached.
pub const PORT_LSDA: u16 = 0x0100;

/// The port is being reset.
pub const PORT_RESET: u16 = 0x0200;

/// The port is suspended.
pub const PORT_SUSP: u16 = 0x1000;

/// How often a reset port is looked at before it is taken for empty.
pub const RESET_POLLS: u8 = 20;

/// How many turns of an empty loop a port is held in reset.
pub const RESET_SPINS: u32 = 300;

/// What a port that has read `bits` is to be written with to switch one of its flags: `on`
/// sets it, 0 clears it, and for every other value nothing is written.
pub open spec fn port_switched(
    register: Register,
    mask: u16,
    on: u8,
    value: u8,
    bits: Option<u16>,
) -> Option<RegisterWrite> {
    match (crate::registers::switched(register, mask, on, value), bits) {
        (Some(edit), Some(bits)) => Some(
            RegisterWrite { register, value: edit.change.applied(bits) },
        ),
        _ => None,
    }
}

fn switch_port_flag(
    register: Register,
    mask: u16,
    on: u8,
    value: u8,
    bits: Option<u16>,
) -> (write: Option<RegisterWrite>)
    ensures
        write == port_switched(register, mask, on, value, bits),
{
    match (switch_flag(register, mask, on, value), bits) {
        (Some(edit), Some(bits)) => Some(edit.write_back(bits)),
        _ => None,
    }
}

/// Where the reset of a port stands. In each stage the port is read.
#[derive(Clone, Copy, PartialEq, Eq, Structural, Debug)]
pub enum PortReset {
    /// Put the port into reset.
    Begin,
    /// Take the port out of reset.
    Release,
    /// See whether a device is connected. After this, the port is looked at `later` more
    /// times.
    Connection { later: u8 },
    /// No device: see whether the connection has changed.
    ConnectionChange { later: u8 },
    /// No such change either: see whether the port has been enabled or disabled.
    EnableChange { later: u8 },
    /// A device is connected: enable the port.
    Enable,
}

/// How the reset of a port goes on.
#[derive(Clone, Copy, PartialEq, Eq, Structural, Debug)]
pub enum PortResetNext {
    /// Read the port for this stage.
    Go(PortReset),
    /// The reset is complete.
    Complete { attached: bool },
}

/// One step of the reset of a port: what is written, for how long an empty loop turns after
/// that, and how the reset goes on.
#[derive(Clone, Copy, PartialEq, Eq, Structural, Debug)]
pub struct PortResetStep {
    pub write: Option<RegisterWrite>,
    pub spins: u32,
    pub next: PortResetNext,
}

/// What follows when the port has been looked at once: it is looked at again, until it has
/// been looked at often enough.
pub open spec fn next_poll(later: u8) -> PortResetNext {
    if later == 0 {
        PortResetNext::Complete { attached: false }
    } else {
        PortResetNext::Go(PortReset::Connection { later: (later - 1) as u8 })
    }
}

/// What is done in a stage of the reset in which the port has read `bits`.
pub open spec fn port_reset_step(
    register: Register,
    stage: PortReset,
    bits: Option<u16>,
) -> PortResetStep {
    match stage {
        PortReset::Begin => match bits {
            Some(_) => PortResetStep {
                write: port_switched(register, PORT_RESET, 1, 1, bits),
                spins: RESET_SPINS,
                next: PortResetNext::Go(PortReset::Release),
            },
            None => PortResetStep {
                write: None,
                spins: 0,
                next: PortResetNext::Go(
                    PortReset::Connection { later: (RESET_POLLS - 1) as u8 },
                ),
            },
        },
        PortReset::Release => PortResetStep {
            write: port_switched(register, PORT_RESET, 1, 0, bits),
            spins: 0,
            next: PortResetNext::Go(PortReset::Connection { later: (RESET_POLLS - 1) as u8 }),
        },
        PortReset::Connection { later } => PortResetStep {
            write: None,
            spins: 0,
            next: if crate::registers::reads_set(bits, PORT_CONNECTION) {
                PortResetNext::Go(PortReset::Enable)
            } else {
                PortResetNext::Go(PortReset::ConnectionChange { later })
            },
        },
        PortReset::ConnectionChange { later } => if crate::registers::reads_set(
            bits,
            PORT_CONNECTION_CHANGE,
        ) {
            PortResetStep {
                write: Some(RegisterWrite { register, value: PORT_CONNECTION_CHANGE }),
                spins: 0,
                next: next_poll(later),
            }
        } else {
            PortResetStep {
                write: None,
                spins: 0,
                next: PortResetNext::Go(PortReset::EnableChange { later }),
            }
        },
        PortReset::EnableChange { later } => PortResetStep {
            write: if crate::registers::reads_set(bits, PORT_ENABLE_CHANGE) {
                Some(RegisterWrite { register, value: PORT_ENABLE_CHANGE })
            } else {
                None
            },
            spins: 0,
            next: next_poll(later),
        },
        PortReset::Enable => PortResetStep {
            write: port_switched(register, PORT_ENABLE, 1, 1, bits),
            spins: 0,
            next: PortResetNext::Complete { attached: true },
        },
    }
}

fn poll_again(later: u8) -> (next: PortResetNext)
    ensures
        next == next_poll(later),
{
    if later == 0 {
        PortResetNext::Complete { attached: false }
    } else {
        PortResetNext::Go(PortReset::Connection { later: later - 1 })
    }
}

/// What the attached device is asked about next. For each question the port is read anew.
#[derive(Clone, Copy, PartialEq, Eq, Structural, Debug)]
pub enum PortQuestion {
    Connected,
    Enabled,
    Speed,
}

/// What follows a question.
#[derive(Clone, Copy, PartialEq, Eq, Debug)]
pub enum PortAnswer {
    /// Read the port for this question.
    Ask(PortQuestion),
    /// The device, or why there is none to be used.
    Known(Result<UsbDevice, &'static str>),
}

/// A device of which only its port and its speed are known yet.
pub open spec fn fresh_device(port: u8, low_speed: bool) -> UsbDevice {
    UsbDevice {
        port,
        speed: if low_speed {
            USB_LOW_SPEED
        } else {
            USB_FULL_SPEED
        },
        addr: 0,
        maxpacketsize: 0,
        controller: Controller::UCHI,
        device_type: HIDType::Unknown,
        interrupt_endpoint: 0,
        control_endpoint: 0,
        iso_endpoint: 0,
    }
}

fn make_device(port: u8, low_speed: bool) -> (device: UsbDevice)
    ensures
        device == fresh_device(port, low_speed),
{
    let speed: u8 = if low_speed {
        USB_LOW_SPEED
    } else {
        USB_FULL_SPEED
    };
    UsbDevice {
        port,
        speed,
        addr: 0,
        maxpacketsize: 0,
        controller: Controller::UCHI,
        device_type: HIDType::Unknown,
        interrupt_endpoint: 0,
        control_endpoint: 0,
        iso_endpoint: 0,
    }
}

/// What follows a question for which the port has read `bits`.
pub open spec fn port_answer(
    port: u8,
    not_connected: &'static str,
    not_enabled: &'static str,
    question: PortQuestion,
    bits: Option<u16>,
) -> PortAnswer {
    match question {
        PortQuestion::Connected => if crate::registers::reads_set(bits, PORT_CONNECTION) {
            PortAnswer::Ask(PortQuestion::Enabled)
        } else {
            PortAnswer::Known(Err(not_connected))
        },
        PortQuestion::Enabled => if crate::registers::reads_set(bits, PORT_ENABLE) {
            PortAnswer::Ask(PortQuestion::Speed)
        } else {
            PortAnswer::Known(Err(not_enabled))
        },
        PortQuestion::Speed => PortAnswer::Known(
            Ok(fresh_device(port, crate::registers::reads_set(bits, PORT_LSDA))),
        ),
    }
}

/// Whether port 1, which has read `bits`, is suspended.
pub fn if_port1_suspend(bits: Option<u16>) -> (flag: bool)
    ensures
        flag == crate::registers::reads_set(bits, PORT_SUSP),
{
    any_bit_set(bits, PORT_SUSP)
}

/// Suspends (1) or activates (0) port 1. Any other value changes nothing. `bits` is
/// what the port has read.
pub fn port1_suspend(value: u8, bits: Option<u16>) -> (write: Option<RegisterWrite>)
    ensures
        write == port_switched(Register::Port1, PORT_SUSP, 1, value, bits),
{
    switch_port_flag(Register::Port1, PORT_SUSP, 1, value, bits)
}

/// Whether port 1, which has read `bits`, is being reset.
pub fn if_port1_reset(bits: Option<u16>) -> (flag: bool)
    ensures
        flag == crate::registers::reads_set(bits, PORT_RESET),
{
    any_bit_set(bits, PORT_RESET)
}

/// Resets port 1, stage by stage, from [`PortReset::Begin`] on: says what is done in the
/// stage for which the port has read `bits`.
///
/// The port is put into reset and taken out of it again. Then it is looked at up to
/// [`RESET_POLLS`] times: if a device is connected, the port is enabled and the reset is
/// complete; a change of the connection or of the port's being enabled is acknowledged.
pub fn port1_reset(stage: PortReset, bits: Option<u16>) -> (step: PortResetStep)
    ensures
        step == port_reset_step(Register::Port1, stage, bits),
{
    match stage {
        PortReset::Begin => match bits {
            Some(_) => PortResetStep {
                write: switch_port_flag(Register::Port1, PORT_RESET, 1, 1, bits),
                spins: RESET_SPINS,
                next: PortResetNext::Go(PortReset::Release),
            },
            None => PortResetStep {
                write: None,
                spins: 0,
                next: PortResetNext::Go(PortReset::Connection { later: RESET_POLLS - 1 }),
            },
        },
        PortReset::Release => PortResetStep {
            write: switch_port_flag(Register::Port1, PORT_RESET, 1, 0, bits),
            spins: 0,
            next: PortResetNext::Go(PortReset::Connection { later: RESET_POLLS - 1 }),
        },
        PortReset::Connection { later } => {
            let next: PortResetNext = if if_connect_port1(bits) {
                PortResetNext::Go(PortReset::Enable)
            } else {
                PortResetNext::Go(PortReset::ConnectionChange { later })
            };
            PortResetStep { write: None, spins: 0, next }
        },
        PortReset::ConnectionChange { later } => {
            if connect_change_port1(bits) {
                PortResetStep {
                    write: Some(connect_change_clear_port1()),
                    spins: 0,
                    next: poll_again(later),
                }
            } else {
                PortResetStep {
                    write: None,
                    spins: 0,
                    next: PortResetNext::Go(PortReset::EnableChange { later }),
                }
            }
        },
        PortReset::EnableChange { later } => {
            let write: Option<RegisterWrite> = if enable_change_port1(bits) {
                Some(enable_change_clear_port1())
            } else {
                None
            };
            PortResetStep { write, spins: 0, next: poll_again(later) }
        },
        PortReset::Enable => PortResetStep {
            write: port1_enable(1, bits),
            spins: 0,
            next: PortResetNext::Complete { attached: true },
        },
    }
}

/// Whether port 1, which has read `bits`, has a low speed device attached.
pub fn low_speed_attach_port1(bits: Option<u16>) -> (flag: bool)
    ensures
        flag == crate::registers::reads_set(bits, PORT_LSDA),
{
    any_bit_set(bits, PORT_LSDA)
}

/// Whether port 1, which has read `bits`, has been enabled or disabled.
pub fn enable_change_port1(bits: Option<u16>) -> (flag: bool)
    ensures
        flag == crate::registers::reads_set(bits, PORT_ENABLE_CHANGE),
{
    any_bit_set(bits, PORT_ENABLE_CHANGE)
}

/// Acknowledges that port 1 has been enabled or disabled.
pub fn enable_change_clear_port1() -> (write: RegisterWrite)
    ensures
        write == (RegisterWrite { register: Register::Port1, value: PORT_ENABLE_CHANGE }),
{
    RegisterWrite { register: Register::Port1, value: PORT_ENABLE_CHANGE }
}

/// Whether port 1, which has read `bits`, is enabled.
pub fn if_enable_port1(bits: Option<u16>) -> (flag: bool)
    ensures
        flag == crate::registers::reads_set(bits, PORT_ENABLE),
{
    any_bit_set(bits, PORT_ENABLE)
}

/// Enables (1) or disables (0) port 1. Any other value changes nothing. `bits` is
/// what the port has read.
pub fn port1_enable(value: u8, bits: Option<u16>) -> (write: Option<RegisterWrite>)
    ensures
        write == port_switched(Register::Port1, PORT_ENABLE, 1, value, bits),
{
    switch_port_flag(Register::Port1, PORT_ENABLE, 1, value, bits)
}

/// Whether port 1, which has read `bits`, has a changed connection.
pub fn connect_change_port1(bits: Option<u16>) -> (flag: bool)
    ensures
        flag == crate::registers::reads_set(bits, PORT_CONNECTION_CHANGE),
{
    any_bit_set(bits, PORT_CONNECTION_CHANGE)
}

/// Acknowledges that the connection of port 1 has changed.
pub fn connect_change_clear_port1() -> (write: RegisterWrite)
    ensures
        write == (RegisterWrite { register: Register::Port1, value: PORT_CONNECTION_CHANGE }),
{
    RegisterWrite { register: Register::Port1, value: PORT_CONNECTION_CHANGE }
}

/// Whether port 1, which has read `bits`, has a device connected.
pub fn if_connect_port1(bits: Option<u16>) -> (flag: bool)
    ensures
        flag == crate::registers::reads_set(bits, PORT_CONNECTION),
{
    any_bit_set(bits, PORT_CONNECTION)
}

/// Finds out about the device on port 1, question by question, from
/// [`PortQuestion::Connected`] on: says what follows the question for which the port has
/// read `bits`.
pub fn port1_device_init(question: PortQuestion, bits: Option<u16>) -> (answer: PortAnswer)
    ensures
        answer == port_answer(
            1,
            "No device is connected to the port 1",
            "Port 1 is not enabled",
            question,
            bits,
        ),
{
    match question {
        PortQuestion::Connected => {
            if if_connect_port1(bits) {
                PortAnswer::Ask(PortQuestion::Enabled)
            } else {
                PortAnswer::Known(Err("No device is connected to the port 1"))
            }
        },
        PortQuestion::Enabled => {
            if if_enable_port1(bits) {
                PortAnswer::Ask(PortQuestion::Speed)
            } else {
                PortAnswer::Known(Err("Port 1 is not enabled"))
            }
        },
        PortQuestion::Speed => {
            PortAnswer::Known(Ok(make_device(1, low_speed_attach_port1(bits))))
        },
    }
}

/// Whether port 2, which has read `bits`, is suspended.
pub fn if_port2_suspend(bits: Option<u16>) -> (flag: bool)
    ensures
        flag == crate::registers::reads_set(bits, PORT_SUSP),
{
    any_bit_set(bits, PORT_SUSP)
}

/// Suspends (2) or activates (0) port 2. Any other value changes nothing. `bits` is
/// what the port has read.
pub fn port2_suspend(value: u8, bits: Option<u16>) -> (write: Option<RegisterWrite>)
    ensures
        write == port_switched(Register::Port2, PORT_SUSP, 2, value, bits),
{
    switch_port_flag(Register::Port2, PORT_SUSP, 2, value, bits)
}

/// Whether port 2, which has read `bits`, is being reset.
pub fn if_port2_reset(bits: Option<u16>) -> (flag: bool)
    ensures
        flag == crate::registers::reads_set(bits, PORT_RESET),
{
    any_bit_set(bits, PORT_RESET)
}

/// Resets port 2, stage by stage, from [`PortReset::Begin`] on: says what is done in the
/// stage for which the port has read `bits`.
///
/// The port is put into reset and taken out of it again. Then it is looked at up to
/// [`RESET_POLLS`] times: if a device is connected, the port is enabled and the reset is
/// complete; a change of the connection or of the port's being enabled is acknowledged.
pub fn port2_reset(stage: PortReset, bits: Option<u16>) -> (step: PortResetStep)
    ensures
        step == port_reset_step(Register::Port2, stage, bits),
{
    match stage {
        PortReset::Begin => match bits {
            Some(_) => PortResetStep {
                write: switch_port_flag(Register::Port2, PORT_RESET, 1, 1, bits),
                spins: RESET_SPINS,
                next: PortResetNext::Go(PortReset::Release),
            },
            None => PortResetStep {
                write: None,
                spins: 0,
                next: PortResetNext::Go(PortReset::Connection { later: RESET_POLLS - 1 }),
            },
        },
        PortReset::Release => PortResetStep {
            write: switch_port_flag(Register::Port2, PORT_RESET, 1, 0, bits),
            spins: 0,
            next: PortResetNext::Go(PortReset::Connection { later: RESET_POLLS - 1 }),
        },
        PortReset::Connection { later } => {
            let next: PortResetNext = if if_connect_port2(bits) {
                PortResetNext::Go(PortReset::Enable)
            } else {
                PortResetNext::Go(PortReset::ConnectionChange { later })
            };
            PortResetStep { write: None, spins: 0, next }
        },
        PortReset::ConnectionChange { later } => {
            if connect_change_port2(bits) {
                PortResetStep {
                    write: Some(connect_change_clear_port2()),
                    spins: 0,
                    next: poll_again(later),
                }
            } else {
                PortResetStep {
                    write: None,
                    spins: 0,
                    next: PortResetNext::Go(PortReset::EnableChange { later }),
                }
            }
        },
        PortReset::EnableChange { later } => {
            let write: Option<RegisterWrite> = if enable_change_port2(bits) {
                Some(enable_change_clear_port2())
            } else {
                None
            };
            PortResetStep { write, spins: 0, next: poll_again(later) }
        },
        PortReset::Enable => PortResetStep {
            write: port2_enable(2, bits),
            spins: 0,
            next: PortResetNext::Complete { attached: true },
        },
    }
}

/// Whether port 2, which has read `bits`, has a low speed device attached.
pub fn low_speed_attach_port2(bits: Option<u16>) -> (flag: bool)
    ensures
        flag == crate::registers::reads_set(bits, PORT_LSDA),
{
    any_bit_set(bits, PORT_LSDA)
}

/// Whether port 2, which has read `bits`, has been enabled or disabled.
pub fn enable_change_port2(bits: Option<u16>) -> (flag: bool)
    ensures
        flag == crate::registers::reads_set(bits, PORT_ENABLE_CHANGE),
{
    any_bit_set(bits, PORT_ENABLE_CHANGE)
}

/// Acknowledges that port 2 has been enabled or disabled.
pub fn enable_change_clear_port2() -> (write: RegisterWrite)
    ensures
        write == (RegisterWrite { register: Register::Port2, value: PORT_ENABLE_CHANGE }),
{
    RegisterWrite { register: Register::Port2, value: PORT_ENABLE_CHANGE }
}

/// Whether port 2, which has read `bits`, is enabled.
pub fn if_enable_port2(bits: Option<u16>) -> (flag: bool)
    ensures
        flag == crate::registers::reads_set(bits, PORT_ENABLE),
{
    any_bit_set(bits, PORT_ENABLE)
}

/// Enables (2) or disables (0) port 2. Any other value changes nothing. `bits` is
/// what the port has read.
pub fn port2_enable(value: u8, bits: Option<u16>) -> (write: Option<RegisterWrite>)
    ensures
        write == port_switched(Register::Port2, PORT_ENABLE, 2, value, bits),
{
    switch_port_flag(Register::Port2, PORT_ENABLE, 2, value, bits)
}

/// Whether port 2, which has read `bits`, has a changed connection.
pub fn connect_change_port2(bits: Option<u16>) -> (flag: bool)
    ensures
        flag == crate::registers::reads_set(bits, PORT_CONNECTION_CHANGE),
{
    any_bit_set(bits, PORT_CONNECTION_CHANGE)
}

/// Acknowledges that the connection of port 2 has changed.
pub fn connect_change_clear_port2() -> (write: RegisterWrite)
    ensures
        write == (RegisterWrite { register: Register::Port2, value: PORT_CONNECTION_CHANGE }),
{
    RegisterWrite { register: Register::Port2, value: PORT_CONNECTION_CHANGE }
}

/// Whether port 2, which has read `bits`, has a device connected.
pub fn if_connect_port2(bits: Option<u16>) -> (flag: bool)
    ensures
        flag == crate::registers::reads_set(bits, PORT_CONNECTION),
{
    any_bit_set(bits, PORT_CONNECTION)
}

/// Finds out about the device on port 2, question by question, from
/// [`PortQuestion::Connected`] on: says what follows the question for which the port has
/// read `bits`.
pub fn port2_device_init(question: PortQuestion, bits: Option<u16>) -> (answer: PortAnswer)
    ensures
        answer == port_answer(
            2,
            "No device is connected to the port 2",
            "Port 2 is not enabled",
            question,
            bits,
        ),
{
    match question {
        PortQuestion::Connected => {
            if if_connect_port2(bits) {
                PortAnswer::Ask(PortQuestion::Enabled)
            } else {
                PortAnswer::Known(Err("No device is connected to the port 2"))
            }
        },
        PortQuestion::Enabled => {
            if if_enable_port2(bits) {
                PortAnswer::Ask(PortQuestion::Speed)
            } else {
                PortAnswer::Known(Err("Port 2 is not enabled"))
            }
        },
        PortQuestion::Speed => {
            PortAnswer::Known(Ok(make_device(2, low_speed_attach_port2(bits))))
        },
    }
}

/// How many more readings a reset takes at most, the one for this stage among them.
pub open spec fn readings_left(stage: PortReset) -> nat {
    match stage {
        PortReset::Begin => 3 * RESET_POLLS as nat + 2,
        PortReset::Release => 3 * RESET_POLLS as nat + 1,
        PortReset::Connection { later } => 3 * later as nat + 3,
        PortReset::ConnectionChange { later } => 3 * later as nat + 2,
        PortReset::EnableChange { later } => 3 * later as nat + 1,
        PortReset::Enable => 1,
    }
}

/// Every step of a reset brings its end nearer: it takes at most two readings and three for
/// each time that the port is looked at.
pub proof fn law_reset_ends(register: Register, stage: PortReset, bits: Option<u16>)
    ensures
        port_reset_step(register, stage, bits).next matches PortResetNext::Go(next)
            ==> readings_left(next) < readings_left(stage),
        readings_left(PortReset::Begin) == 62,
{
}

/// A whole reset from `stage` on, where the port reads `readings[at]` first,
/// `readings[at + 1]` next, and so on: what is written, and whether a device is attached.
pub open spec fn reset_run(
    register: Register,
    stage: PortReset,
    readings: Seq<Option<u16>>,
    at: int,
) -> (Seq<RegisterWrite>, bool)
    decreases readings_left(stage),
{
    let step = port_reset_step(register, stage, readings[at]);
    let written = match step.write {
        Some(write) => seq![write],
        None => seq![],
    };
    match step.next {
        PortResetNext::Go(next) => {
            let rest = reset_run(register, next, readings, at + 1);
            (written + rest.0, rest.1)
        },
        PortResetNext::Complete { attached } => (written, attached),
    }
}

/// Where a device is connected when the port is looked at for the first time, the port is
/// put into reset, taken out of it and enabled, and nothing else is written.
pub proof fn law_connected_port_is_enabled(
    register: Register,
    readings: Seq<Option<u16>>,
    first: u16,
    second: u16,
    third: u16,
    fourth: u16,
)
    requires
        readings.len() >= 4,
        readings[0] == Some(first),
        readings[1] == Some(second),
        readings[2] == Some(third),
        readings[3] == Some(fourth),
        third & PORT_CONNECTION != 0,
    ensures
        reset_run(register, PortReset::Begin, readings, 0).0 == seq![
            RegisterWrite { register, value: first | PORT_RESET },
            RegisterWrite { register, value: second & !PORT_RESET },
            RegisterWrite { register, value: fourth | PORT_ENABLE },
        ],
        reset_run(register, PortReset::Begin, readings, 0).1,
{
    reveal_with_fuel(reset_run, 4);
}

/// A port is not left in reset: the first thing that is written puts it into reset, and the
/// second takes it out again.
pub proof fn law_reset_is_released(
    register: Register,
    readings: Seq<Option<u16>>,
    first: u16,
    second: u16,
)
    requires
        readings.len() >= 2,
        readings[0] == Some(first),
        readings[1] == Some(second),
    ensures
        ({
            let writes = reset_run(register, PortReset::Begin, readings, 0).0;
            &&& writes.len() >= 2
            &&& crate::registers::reads_set(Some(writes[0].value), PORT_RESET)
            &&& !crate::registers::reads_set(Some(writes[1].value), PORT_RESET)
        }),
{
    reveal_with_fuel(reset_run, 3);
    assert((first | 0x0200) & 0x0200 != 0 && (second & !0x0200u16) & 0x0200 == 0) by (bit_vector);
}

/// Where no reading shows a device, none is found.
pub proof fn law_empty_port_stays_empty(
    register: Register,
    stage: PortReset,
    readings: Seq<Option<u16>>,
    at: int,
)
    requires
        stage != PortReset::Enable,
        0 <= at,
        at + readings_left(stage) <= readings.len(),
        forall|i: int|
            at <= i < readings.len() ==> !crate::registers::reads_set(
                #[trigger] readings[i],
                PORT_CONNECTION,
            ),
    ensures
        !reset_run(register, stage, readings, at).1,
    decreases readings_left(stage),
{
    match port_reset_step(register, stage, readings[at]).next {
        PortResetNext::Go(next) => {
            law_empty_port_stays_empty(register, next, readings, at + 1);
        },
        PortResetNext::Complete { .. } => {},
    }
}

/// A reset writes to its own port only; and where it finds a device, the last thing that it
/// writes enables the port.
pub proof fn law_attached_port_ends_enabled(
    register: Register,
    stage: PortReset,
    readings: Seq<Option<u16>>,
    at: int,
)
    requires
        0 <= at,
        at + readings_left(stage) <= readings.len(),
        forall|i: int| at <= i < readings.len() ==> (#[trigger] readings[i]) is Some,
    ensures
        forall|i: int|
            0 <= i < reset_run(register, stage, readings, at).0.len() ==> (#[trigger] reset_run(
                register,
                stage,
                readings,
                at,
            ).0[i]).register == register,
        reset_run(register, stage, readings, at).1 ==> {
            let writes = reset_run(register, stage, readings, at).0;
            &&& writes.len() > 0
            &&& crate::registers::reads_set(Some(writes.last().value), PORT_ENABLE)
        },
    decreases readings_left(stage),
{
    match port_reset_step(register, stage, readings[at]).next {
        PortResetNext::Go(next) => {
            law_attached_port_ends_enabled(register, next, readings, at + 1);
        },
        PortResetNext::Complete { .. } => {
            let bits = readings[at]->0;
            assert((bits | 0x0004) & 0x0004 != 0) by (bit_vector);
        },
    }
}

/// How finding out about a device ends, from `question` on, where the port reads
/// `readings[at]` first, `readings[at + 1]` next, and so on.
pub open spec fn asked(
    port: u8,
    not_connected: &'static str,
    not_enabled: &'static str,
    question: PortQuestion,
    readings: Seq<Option<u16>>,
    at: int,
) -> Result<UsbDevice, &'static str>
    decreases
            match question {
                PortQuestion::Connected => 2int,
                PortQuestion::Enabled => 1,
                PortQuestion::Speed => 0,
            },
{
    match port_answer(port, not_connected, not_enabled, question, readings[at]) {
        PortAnswer::Ask(next) => asked(port, not_connected, not_enabled, next, readings, at + 1),
        PortAnswer::Known(result) => result,
    }
}

/// A device is found exactly if the first reading shows one and the second shows the port
/// enabled; the third tells its speed.
pub proof fn law_device_is_connected_and_enabled(
    port: u8,
    not_connected: &'static str,
    not_enabled: &'static str,
    readings: Seq<Option<u16>>,
)
    requires
        readings.len() == 3,
    ensures
        asked(port, not_connected, not_enabled, PortQuestion::Connected, readings, 0)
            == if !crate::registers::reads_set(readings[0], PORT_CONNECTION) {
            Err(not_connected)
        } else if !crate::registers::reads_set(readings[1], PORT_ENABLE) {
            Err(not_enabled)
        } else {
            Ok::<UsbDevice, &'static str>(
                fresh_device(port, crate::registers::reads_set(readings[2], PORT_LSDA)),
            )
        },
{
    reveal_with_fuel(asked, 3);
}

/// Switching a port's flag on makes the port read with it, switching it off without it, and
/// neither touches another flag.
pub proof fn law_port_switch_reads_back(
    register: Register,
    mask: u16,
    other: u16,
    on: u8,
    bits: u16,
)
    requires
        mask != 0,
        mask & other == 0,
        on != 0,
    ensures
        port_switched(register, mask, on, on, Some(bits)) matches Some(write) && {
            &&& crate::registers::reads_set(Some(write.value), mask)
            &&& crate::registers::reads_set(Some(write.value), other)
                == crate::registers::reads_set(Some(bits), other)
        },
        port_switched(register, mask, on, 0, Some(bits)) matches Some(write) && {
            &&& !crate::registers::reads_set(Some(write.value), mask)
            &&& crate::registers::reads_set(Some(write.value), other)
                == crate::registers::reads_set(Some(bits), other)
        },
{
    crate::registers::law_change_touches_its_flag_only(bits, mask, other);
}

/// What the port reads each time that it is looked at for a device, in a whole reset from
/// `stage` on.
pub open spec fn looks(
    register: Register,
    stage: PortReset,
    readings: Seq<Option<u16>>,
    at: int,
) -> Seq<Option<u16>>
    decreases readings_left(stage),
{
    let look = if stage is Connection {
        seq![readings[at]]
    } else {
        seq![]
    };
    match port_reset_step(register, stage, readings[at]).next {
        PortResetNext::Go(next) => look + looks(register, next, readings, at + 1),
        PortResetNext::Complete { .. } => look,
    }
}

/// How often the port is looked at, from `stage` on, where no device shows.
pub open spec fn looks_to_make(stage: PortReset) -> nat {
    match stage {
        PortReset::Begin => 20,
        PortReset::Release => 20,
        PortReset::Connection { later } => later as nat + 1,
        PortReset::ConnectionChange { later } => later as nat,
        PortReset::EnableChange { later } => later as nat,
        PortReset::Enable => 0,
    }
}

/// A reset goes on looking, whatever changes it acknowledges on the way. It ends without a
/// device only after all its looks have been made, 20 from the beginning, and each read
/// without one; and it ends with a device exactly if a look shows one, which is then the
/// last.
pub proof fn law_reset_looks_until_device_shows(
    register: Register,
    stage: PortReset,
    readings: Seq<Option<u16>>,
    at: int,
)
    requires
        stage != PortReset::Enable,
    ensures
        ({
            let made = looks(register, stage, readings, at);
            &&& !reset_run(register, stage, readings, at).1 ==> {
                &&& made.len() == looks_to_make(stage)
                &&& forall|i: int|
                    0 <= i < made.len() ==> ((#[trigger] made[i]) is Some ==> made[i]->0 & 0x0001
                        == 0)
            }
            &&& reset_run(register, stage, readings, at).1 ==> {
                &&& 0 < made.len() <= looks_to_make(stage)
                &&& made.last() is Some
                &&& made.last()->0 & 0x0001 != 0
                &&& forall|i: int|
                    0 <= i < made.len() - 1 ==> ((#[trigger] made[i]) is Some ==> made[i]->0
                        & 0x0001 == 0)
            }
        }),
    decreases readings_left(stage),
{
    let made = looks(register, stage, readings, at);
    match port_reset_step(register, stage, readings[at]).next {
        PortResetNext::Go(next) => {
            if next == PortReset::Enable {
                reveal_with_fuel(looks, 2);
                reveal_with_fuel(reset_run, 2);
                assert(made =~= seq![readings[at]]);
            } else {
                law_reset_looks_until_device_shows(register, next, readings, at + 1);
                let rest = looks(register, next, readings, at + 1);
                if stage is Connection {
                    assert(made =~= seq![readings[at]] + rest);
                    assert forall|i: int| 0 < i < made.len() implies made[i] == rest[i - 1] by {}
                } else {
                    assert(made =~= rest);
                }
            }
        },
        PortResetNext::Complete { .. } => {},
    }
}

/// What comes of looking at the port up to `times` times, from the reading `at` on: what is
/// written, and whether a device is attached. A device that shows ends it, and the port is
/// enabled; else a changed connection is acknowledged; else a change of the port's being
/// enabled; and then the port is looked at again.
pub open spec fn looked_at(
    register: Register,
    readings: Seq<Option<u16>>,
    at: int,
    times: nat,
) -> (Seq<RegisterWrite>, bool)
    decreases times,
{
    if times == 0 {
        (seq![], false)
    } else if readings[at] is Some && readings[at]->0 & 0x0001 != 0 {
        match readings[at + 1] {
            Some(bits) => (seq![RegisterWrite { register, value: bits | 0x0004 }], true),
            None => (seq![], true),
        }
    } else if readings[at + 1] is Some && readings[at + 1]->0 & 0x0002 != 0 {
        let rest = looked_at(register, readings, at + 2, (times - 1) as nat);
        (seq![RegisterWrite { register, value: 0x0002 }] + rest.0, rest.1)
    } else if readings[at + 2] is Some && readings[at + 2]->0 & 0x0008 != 0 {
        let rest = looked_at(register, readings, at + 3, (times - 1) as nat);
        (seq![RegisterWrite { register, value: 0x0008 }] + rest.0, rest.1)
    } else {
        looked_at(register, readings, at + 3, (times - 1) as nat)
    }
}

/// A reset that has reached its looks makes them as [`looked_at`] says, one more than are to
/// come later.
pub proof fn law_reset_looks_in_order(
    register: Register,
    later: u8,
    readings: Seq<Option<u16>>,
    at: int,
)
    ensures
        reset_run(register, PortReset::Connection { later }, readings, at) == looked_at(
            register,
            readings,
            at,
            (later + 1) as nat,
        ),
    decreases later,
{
    reveal_with_fuel(reset_run, 4);
    let run = reset_run(register, PortReset::Connection { later }, readings, at);
    let expected = looked_at(register, readings, at, (later + 1) as nat);
    let connected = readings[at] is Some && readings[at]->0 & 0x0001 != 0;
    if !connected && later > 0 {
        if readings[at + 1] is Some && readings[at + 1]->0 & 0x0002 != 0 {
            law_reset_looks_in_order(register, (later - 1) as u8, readings, at + 2);
        } else {
            law_reset_looks_in_order(register, (later - 1) as u8, readings, at + 3);
        }
    }
    if !connected && later == 0 {
        assert(looked_at(register, readings, at + 2, 0) == (Seq::<RegisterWrite>::empty(), false));
        assert(looked_at(register, readings, at + 3, 0) == (Seq::<RegisterWrite>::empty(), false));
    }
    assert(run.0 =~= expected.0);
}

/// A whole reset: the port is put into reset and taken out of it, each time with its other
/// bits as they read, and is then looked at 20 times. A port that cannot be read at first is
/// only looked at.
pub proof fn law_whole_reset(register: Register, readings: Seq<Option<u16>>)
    ensures
        readings[0] matches Some(first) ==> {
            let released = match readings[1] {
                Some(second) => seq![RegisterWrite { register, value: second & !0x0200u16 }],
                None => seq![],
            };
            let rest = looked_at(register, readings, 2, 20);
            reset_run(register, PortReset::Begin, readings, 0) == (
                seq![RegisterWrite { register, value: first | 0x0200 }] + released + rest.0,
                rest.1,
            )
        },
        readings[0] is None ==> reset_run(register, PortReset::Begin, readings, 0) == looked_at(
            register,
            readings,
            1,
            20,
        ),
{
    reveal_with_fuel(reset_run, 3);
    let run = reset_run(register, PortReset::Begin, readings, 0);
    law_reset_looks_in_order(register, 19, readings, 1);
    law_reset_looks_in_order(register, 19, readings, 2);
    match readings[0] {
        Some(first) => {
            let released = match readings[1] {
                Some(second) => seq![RegisterWrite { register, value: second & !0x0200u16 }],
                None => seq![],
            };
            let rest = looked_at(register, readings, 2, 20);
            assert(run.0 =~= seq![RegisterWrite { register, value: first | 0x0200 }] + released
                + rest.0);
        },
        None => {
            assert(run.0 =~= looked_at(register, readings, 1, 20).0);
        },
    }
}

/// A reset waits once: for 300 turns, after it has put the port into reset and before it
/// takes it out again.
pub proof fn law_reset_waits_in_reset(register: Register, stage: PortReset, bits: Option<u16>)
    ensures
        ({
            let step = port_reset_step(register, stage, bits);
            &&& step.spins == 0 || step.spins == 300
            &&& step.spins == 300 <==> stage == PortReset::Begin && bits is Some
            &&& step.spins == 300 ==> step.next == PortResetNext::Go(PortReset::Release)
            &&& step.spins == 300 ==> step.write is Some && step.write->0.value & 0x0200 != 0
        }),
{
    if let Some(read) = bits {
        assert((read | 0x0200) & 0x0200 != 0) by (bit_vector);
    }
}

/// A port is written exactly if it has been read and the value is one of the switch's two.
/// The write goes to that port; it sets all the bits of the flag with the one value and
/// clears them with the other, and leaves every other bit as it read.
pub proof fn law_port_switch_bit_by_bit(
    register: Register,
    mask: u16,
    on: u8,
    value: u8,
    bits: u16,
    n: u16,
)
    requires
        on != 0,
        n < 16,
    ensures
        port_switched(register, mask, on, value, None) is None,
        port_switched(register, mask, on, value, Some(bits)) is Some <==> value == on || value == 0,
        port_switched(register, mask, on, value, Some(bits)) matches Some(write) ==> {
            &&& write.register == register
            &&& (write.value >> n) & 1 == 1 <==> if (mask >> n) & 1 == 1 {
                value == on
            } else {
                (bits >> n) & 1 == 1
            }
        },
{
    crate::registers::law_change_bit_by_bit(bits, mask, n);
}

/// A device that has just been found is on the port that was asked, has the speed that the
/// port shows, belongs to this kind of controller, and has nothing else known of it.
pub proof fn law_fresh_device_knows_port_and_speed(port: u8, low_speed: bool)
    ensures
        fresh_device(port, low_speed).port == port,
        fresh_device(port, low_speed).speed == (if low_speed {
            1int
        } else {
            0
        }),
        fresh_device(port, low_speed).addr == 0,
        fresh_device(port, low_speed).maxpacketsize == 0,
        fresh_device(port, low_speed).controller == Controller::UCHI,
        fresh_device(port, low_speed).device_type == HIDType::Unknown,
        fresh_device(port, low_speed).interrupt_endpoint == 0,
        fresh_device(port, low_speed).control_endpoint == 0,
        fresh_device(port, low_speed).iso_endpoint == 0,
{
}

/// Whatever the three readings: without bit 0 in the first there is no device; without bit 2
/// in the second the port is not enabled; else bit 8 of the third tells the speed.
pub proof fn law_device_shows_in_bits(
    port: u8,
    not_connected: &'static str,
    not_enabled: &'static str,
    readings: Seq<Option<u16>>,
)
    requires
        readings.len() == 3,
    ensures
        ({
            let found = asked(
                port,
                not_connected,
                not_enabled,
                PortQuestion::Connected,
                readings,
                0,
            );
            let connected = readings[0] is Some && readings[0]->0 & 0x0001 != 0;
            let enabled = readings[1] is Some && readings[1]->0 & 0x0004 != 0;
            let low_speed = readings[2] is Some && readings[2]->0 & 0x0100 != 0;
            &&& found is Ok <==> connected && enabled
            &&& !connected ==> found == Err::<UsbDevice, &'static str>(not_connected)
            &&& connected && !enabled ==> found == Err::<UsbDevice, &'static str>(not_enabled)
            &&& found matches Ok(device) ==> device.port == port && (device.speed == 1
                <==> low_speed) && (device.speed == 0 <==> !low_speed)
        }),
{
    reveal_with_fuel(asked, 3);
}

/// Each question about port 1 is answered by one bit of what it read: yes exactly if that
/// bit is 1, and no without a reading.
pub proof fn law_port1_questions(
    bits: Option<u16>,
    connected: bool,
    connection_changed: bool,
    enabled: bool,
    enable_changed: bool,
    low_speed: bool,
    in_reset: bool,
    suspended: bool,
)
    requires
        call_ensures(if_connect_port1, (bits,), connected),
        call_ensures(connect_change_port1, (bits,), connection_changed),
        call_ensures(if_enable_port1, (bits,), enabled),
        call_ensures(enable_change_port1, (bits,), enable_changed),
        call_ensures(low_speed_attach_port1, (bits,), low_speed),
        call_ensures(if_port1_reset, (bits,), in_reset),
        call_ensures(if_port1_suspend, (bits,), suspended),
    ensures
        connected <==> bits is Some && bits->0 & 0x0001 != 0,
        connection_changed <==> bits is Some && bits->0 & 0x0002 != 0,
        enabled <==> bits is Some && bits->0 & 0x0004 != 0,
        enable_changed <==> bits is Some && bits->0 & 0x0008 != 0,
        low_speed <==> bits is Some && bits->0 & 0x0100 != 0,
        in_reset <==> bits is Some && bits->0 & 0x0200 != 0,
        suspended <==> bits is Some && bits->0 & 0x1000 != 0,
{
}

/// What the functions that change port 1 write, and that they write to it: a switch sets its
/// bit for 1, clears it for 0, keeps the others as they read, and writes nothing for any
/// other value or without a reading; a change is acknowledged by writing its bit alone.
pub proof fn law_port1_changes(
    value: u8,
    bits: Option<u16>,
    suspended: Option<RegisterWrite>,
    enabled: Option<RegisterWrite>,
    connection: RegisterWrite,
    enabling: RegisterWrite,
)
    requires
        call_ensures(port1_suspend, (value, bits), suspended),
        call_ensures(port1_enable, (value, bits), enabled),
        call_ensures(connect_change_clear_port1, (), connection),
        call_ensures(enable_change_clear_port1, (), enabling),
    ensures
        suspended is Some <==> bits is Some && (value == 1 || value == 0),
        suspended is Some ==> suspended->0.register == Register::Port1,
        suspended is Some && value == 1 ==> suspended->0.value == bits->0 | 0x1000,
        suspended is Some && value == 0 ==> suspended->0.value == bits->0 & !0x1000u16,
        enabled is Some <==> bits is Some && (value == 1 || value == 0),
        enabled is Some ==> enabled->0.register == Register::Port1,
        enabled is Some && value == 1 ==> enabled->0.value == bits->0 | 0x0004,
        enabled is Some && value == 0 ==> enabled->0.value == bits->0 & !0x0004u16,
        connection.register == Register::Port1,
        connection.value == 0x0002,
        enabling.register == Register::Port1,
        enabling.value == 0x0008,
{
}

/// The reset of port 1 takes the steps of which [`law_whole_reset`] says what they write to
/// the port and how they end; and finding out about its device goes by the questions of
/// which [`law_device_shows_in_bits`] says so.
pub proof fn law_port1_steps(
    stage: PortReset,
    question: PortQuestion,
    bits: Option<u16>,
    step: PortResetStep,
    answer: PortAnswer,
)
    requires
        call_ensures(port1_reset, (stage, bits), step),
        call_ensures(port1_device_init, (question, bits), answer),
    ensures
        step == port_reset_step(Register::Port1, stage, bits),
        answer == port_answer(
            1,
            "No device is connected to the port 1",
            "Port 1 is not enabled",
            question,
            bits,
        ),
{
}

/// Each question about port 2 is answered by one bit of what it read: yes exactly if that
/// bit is 1, and no without a reading.
pub proof fn law_port2_questions(
    bits: Option<u16>,
    connected: bool,
    connection_changed: bool,
    enabled: bool,
    enable_changed: bool,
    low_speed: bool,
    in_reset: bool,
    suspended: bool,
)
    requires
        call_ensures(if_connect_port2, (bits,), connected),
        call_ensures(connect_change_port2, (bits,), connection_changed),
        call_ensures(if_enable_port2, (bits,), enabled),
        call_ensures(enable_change_port2, (bits,), enable_changed),
        call_ensures(low_speed_attach_port2, (bits,), low_speed),
        call_ensures(if_port2_reset, (bits,), in_reset),
        call_ensures(if_port2_suspend, (bits,), suspended),
    ensures
        connected <==> bits is Some && bits->0 & 0x0001 != 0,
        connection_changed <==> bits is Some && bits->0 & 0x0002 != 0,
        enabled <==> bits is Some && bits->0 & 0x0004 != 0,
        enable_changed <==> bits is Some && bits->0 & 0x0008 != 0,
        low_speed <==> bits is Some && bits->0 & 0x0100 != 0,
        in_reset <==> bits is Some && bits->0 & 0x0200 != 0,
        suspended <==> bits is Some && bits->0 & 0x1000 != 0,
{
}

/// What the functions that change port 2 write, and that they write to it: a switch sets its
/// bit for 2, clears it for 0, keeps the others as they read, and writes nothing for any
/// other value or without a reading; a change is acknowledged by writing its bit alone.
pub proof fn law_port2_changes(
    value: u8,
    bits: Option<u16>,
    suspended: Option<RegisterWrite>,
    enabled: Option<RegisterWrite>,
    connection: RegisterWrite,
    enabling: RegisterWrite,
)
    requires
        call_ensures(port2_suspend, (value, bits), suspended),
        call_ensures(port2_enable, (value, bits), enabled),
        call_ensures(connect_change_clear_port2, (), connection),
        call_ensures(enable_change_clear_port2, (), enabling),
    ensures
        suspended is Some <==> bits is Some && (value == 2 || value == 0),
        suspended is Some ==> suspended->0.register == Register::Port2,
        suspended is Some && value == 2 ==> suspended->0.value == bits->0 | 0x1000,
        suspended is Some && value == 0 ==> suspended->0.value == bits->0 & !0x1000u16,
        enabled is Some <==> bits is Some && (value == 2 || value == 0),
        enabled is Some ==> enabled->0.register == Register::Port2,
        enabled is Some && value == 2 ==> enabled->0.value == bits->0 | 0x0004,
        enabled is Some && value == 0 ==> enabled->0.value == bits->0 & !0x0004u16,
        connection.register == Register::Port2,
        connection.value == 0x0002,
        enabling.register == Register::Port2,
        enabling.value == 0x0008,
{
}

/// The reset of port 2 takes the steps of which [`law_whole_reset`] says what they write to
/// the port and how they end; and finding out about its device goes by the questions of
/// which [`law_device_shows_in_bits`] says so.
pub proof fn law_port2_steps(
    stage: PortReset,
    question: PortQuestion,
    bits: Option<u16>,
    step: PortResetStep,
    answer: PortAnswer,
)
    requires
        call_ensures(port2_reset, (stage, bits), step),
        call_ensures(port2_device_init, (question, bits), answer),
    ensures
        step == port_reset_step(Register::Port2, stage, bits),
        answer == port_answer(
            2,
            "No device is connected to the port 2",
            "Port 2 is not enabled",
            question,
            bits,
        ),
{
}

} // verus!
