use usb_uhci::{
    connect_change_clear_port1, connect_change_clear_port2, connect_change_port1,
    connect_change_port2, enable_change_clear_port1, enable_change_clear_port2,
    enable_change_port1, enable_change_port2, if_connect_port1, if_connect_port2,
    if_enable_port1, if_enable_port2, if_port1_reset, if_port1_suspend, if_port2_reset,
    if_port2_suspend, low_speed_attach_port1, low_speed_attach_port2, port1_device_init,
    port1_enable, port1_reset, port1_suspend, port2_device_init, port2_enable, port2_reset,
    port2_suspend, Controller, HIDType, PortAnswer, PortQuestion, PortReset, PortResetNext,
    PortResetStep, Register, RegisterWrite, UsbDevice,
};

fn write(register: Register, value: u16) -> RegisterWrite {
    RegisterWrite { register, value }
}

#[test]
fn port_flags() {
    let tests: [(fn(Option<u16>) -> bool, u16); 12] = [
        (if_port1_suspend, 0x1000),
        (if_port1_reset, 0x0200),
        (low_speed_attach_port1, 0x0100),
        (enable_change_port1, 0x0008),
        (if_enable_port1, 0x0004),
        (connect_change_port1, 0x0002),
        (if_port2_suspend, 0x1000),
        (if_port2_reset, 0x0200),
        (low_speed_attach_port2, 0x0100),
        (enable_change_port2, 0x0008),
        (if_enable_port2, 0x0004),
        (connect_change_port2, 0x0002),
    ];
    for (test, mask) in tests {
        assert!(test(Some(mask)));
        assert!(test(Some(0xFFFF)));
        assert!(!test(Some(!mask)));
        assert!(!test(None));
    }
    assert!(if_connect_port1(Some(1)) && !if_connect_port1(Some(0xFFFE)));
    assert!(if_connect_port2(Some(1)) && !if_connect_port2(Some(0xFFFE)));
    assert!(!if_connect_port1(None) && !if_connect_port2(None));
}

#[test]
fn port_switches() {
    assert_eq!(port1_suspend(1, Some(0x5)), Some(write(Register::Port1, 0x1005)));
    assert_eq!(port1_suspend(0, Some(0x1005)), Some(write(Register::Port1, 0x5)));
    assert_eq!(port1_suspend(2, Some(0x5)), None);
    assert_eq!(port1_suspend(1, None), None);
    assert_eq!(port2_suspend(2, Some(0x5)), Some(write(Register::Port2, 0x1005)));
    assert_eq!(port2_suspend(0, Some(0x1005)), Some(write(Register::Port2, 0x5)));
    assert_eq!(port2_suspend(1, Some(0x5)), None);
    assert_eq!(port2_suspend(2, None), None);
    assert_eq!(port1_enable(1, Some(0x1)), Some(write(Register::Port1, 0x5)));
    assert_eq!(port1_enable(0, Some(0x5)), Some(write(Register::Port1, 0x1)));
    assert_eq!(port1_enable(2, Some(0x5)), None);
    assert_eq!(port1_enable(1, None), None);
    assert_eq!(port2_enable(2, Some(0x1)), Some(write(Register::Port2, 0x5)));
    assert_eq!(port2_enable(0, Some(0x5)), Some(write(Register::Port2, 0x1)));
    assert_eq!(port2_enable(1, Some(0x1)), None);
    assert_eq!(port2_enable(2, None), None);
    assert_eq!(enable_change_clear_port1(), write(Register::Port1, 8));
    assert_eq!(enable_change_clear_port2(), write(Register::Port2, 8));
    assert_eq!(connect_change_clear_port1(), write(Register::Port1, 2));
    assert_eq!(connect_change_clear_port2(), write(Register::Port2, 2));
}

type Step = fn(PortReset, Option<u16>) -> PortResetStep;

/// Resets a port that reads what `port` says of the number of the reading and of the last
/// value written: gives what was written, whether a device is attached, how many readings it
/// took, and how long the empty loop turned.
fn reset_port(
    step: Step,
    port: impl Fn(usize, u16) -> Option<u16>,
) -> (Vec<RegisterWrite>, bool, usize, u32) {
    let mut stage = PortReset::Begin;
    let mut writes: Vec<RegisterWrite> = vec![];
    let mut readings = 0;
    let mut spins = 0;
    loop {
        let last = writes.last().map_or(0, |w| w.value);
        let done = step(stage, port(readings, last));
        readings += 1;
        spins += done.spins;
        writes.extend(done.write);
        match done.next {
            PortResetNext::Go(next) => stage = next,
            PortResetNext::Complete { attached } => return (writes, attached, readings, spins),
        }
    }
}

#[test]
fn reset_of_a_connected_port() {
    for (step, register) in
        [(port1_reset as Step, Register::Port1), (port2_reset as Step, Register::Port2)]
    {
        let (writes, attached, readings, spins) = reset_port(step, |_, last| Some(last | 0x81));
        assert_eq!(
            writes,
            vec![write(register, 0x281), write(register, 0x81), write(register, 0x85)]
        );
        assert!(attached);
        assert_eq!(readings, 4);
        assert_eq!(spins, 300);
    }
}

#[test]
fn reset_of_an_empty_port() {
    for (step, register) in
        [(port1_reset as Step, Register::Port1), (port2_reset as Step, Register::Port2)]
    {
        let (writes, attached, readings, spins) = reset_port(step, |_, _| Some(0x280));
        assert_eq!(writes, vec![write(register, 0x280), write(register, 0x80)]);
        assert!(!attached);
        assert_eq!(readings, 62);
        assert_eq!(spins, 300);
    }
}

#[test]
fn reset_of_a_port_without_a_place() {
    let (writes, attached, readings, spins) = reset_port(port1_reset, |_, _| None);
    assert_eq!(writes, vec![]);
    assert!(!attached);
    assert_eq!(readings, 61);
    assert_eq!(spins, 0);
}

#[test]
fn reset_acknowledges_changes() {
    // The connection changes first, then the port's being enabled, then a device is there.
    let port = |reading: usize, _: u16| {
        Some(match reading {
            0 | 1 => 0x80,
            2 => 0x82,
            3 => 0x82,
            4 | 5 | 6 => 0x88,
            _ => 0x81,
        })
    };
    let (writes, attached, readings, _) = reset_port(port2_reset, port);
    assert_eq!(
        writes,
        vec![
            write(Register::Port2, 0x280),
            write(Register::Port2, 0x80),
            write(Register::Port2, 2),
            write(Register::Port2, 8),
            write(Register::Port2, 0x85),
        ]
    );
    assert!(attached);
    assert_eq!(readings, 9);
}

#[test]
fn reset_gives_up_after_twenty_changes() {
    let (writes, attached, readings, _) = reset_port(port1_reset, |_, _| Some(0x82));
    assert_eq!(writes.len(), 22);
    assert!(!attached);
    assert_eq!(readings, 42);
}

fn ask(
    step: fn(PortQuestion, Option<u16>) -> PortAnswer,
    readings: [Option<u16>; 3],
) -> Result<UsbDevice, &'static str> {
    let mut question = PortQuestion::Connected;
    for bits in readings {
        match step(question, bits) {
            PortAnswer::Ask(next) => question = next,
            PortAnswer::Known(result) => return result,
        }
    }
    panic!("no end");
}

#[test]
fn devices_on_the_ports() {
    let device = UsbDevice {
        port: 1,
        speed: 0,
        addr: 0,
        maxpacketsize: 0,
        controller: Controller::UCHI,
        device_type: HIDType::Unknown,
        interrupt_endpoint: 0,
        control_endpoint: 0,
        iso_endpoint: 0,
    };
    assert_eq!(ask(port1_device_init, [Some(0x5); 3]), Ok(device));
    assert_eq!(ask(port1_device_init, [Some(0x105); 3]), Ok(UsbDevice { speed: 1, ..device }));
    assert_eq!(ask(port1_device_init, [Some(0x1); 3]), Err("Port 1 is not enabled"));
    assert_eq!(
        ask(port1_device_init, [Some(0x104); 3]),
        Err("No device is connected to the port 1")
    );
    assert_eq!(ask(port1_device_init, [None; 3]), Err("No device is connected to the port 1"));
    assert_eq!(ask(port2_device_init, [Some(0x5); 3]), Ok(UsbDevice { port: 2, ..device }));
    assert_eq!(
        ask(port2_device_init, [Some(0x1), Some(0x4), Some(0x100)]),
        Ok(UsbDevice { port: 2, speed: 1, ..device })
    );
    assert_eq!(ask(port2_device_init, [Some(0x1); 3]), Err("Port 2 is not enabled"));
    assert_eq!(
        ask(port2_device_init, [Some(0x4); 3]),
        Err("No device is connected to the port 2")
    );
}
