use usb_uhci::{
    device_register, end_global_resume, end_global_suspend, get_registered_device, if_error_int,
    if_halted, if_interrupt, if_process_error, int_status_handle, ioc_complete, ioc_int, mode,
    packet_size, read_uhci_address, reset, resume_detect, resume_int, run, short_packet_int,
    tcrc_int, BitChange, Controller, HIDType, PciBus, PciDevice, Register, RegisterEdit,
    RegisterWrite, StatusCheck, StatusStep, UhciPorts, UsbDevice,
};

fn edit(register: Register, change: BitChange) -> Option<RegisterEdit> {
    Some(RegisterEdit { register, change })
}

fn pci_device(class: u8, subclass: u8, prof_if: u8, bar: u32) -> PciDevice {
    PciDevice { class, subclass, prof_if, bars: [1, 2, 3, 4, bar, 6] }
}

#[test]
fn run_and_stop() {
    assert_eq!(run(1), edit(Register::Command, BitChange::Raise(1)));
    assert_eq!(run(0), edit(Register::Command, BitChange::Lower(1)));
    assert_eq!(run(2), None);
    let started = run(1).unwrap().write_back(0x00C0);
    assert_eq!(started, RegisterWrite { register: Register::Command, value: 0x00C1 });
    assert_eq!(run(0).unwrap().write_back(started.value).value, 0x00C0);
}

#[test]
fn mode_and_packet_size_need_a_halt() {
    assert_eq!(mode(1, Some(0x20)), Ok(edit(Register::Command, BitChange::Raise(0x20))));
    assert_eq!(mode(0, Some(0x3F)), Ok(edit(Register::Command, BitChange::Lower(0x20))));
    assert_eq!(mode(7, Some(0x20)), Ok(None));
    assert_eq!(mode(1, Some(0xDF)), Err("The controller is not halted. Fail to change mode"));
    assert_eq!(mode(1, None), Err("The controller is not halted. Fail to change mode"));
    assert_eq!(packet_size(1, Some(0x20)), Ok(edit(Register::Command, BitChange::Raise(0x80))));
    assert_eq!(packet_size(0, Some(0x20)), Ok(edit(Register::Command, BitChange::Lower(0x80))));
    assert_eq!(packet_size(3, Some(0x20)), Ok(None));
    assert_eq!(
        packet_size(1, Some(0)),
        Err("The controller is not halted. Fail to change the packet size")
    );
}

#[test]
fn suspend_and_resume() {
    assert_eq!(end_global_resume().write_back(0xFFFF).value, 0xFFEF);
    assert_eq!(end_global_suspend(Some(0x20)).unwrap().write_back(0xFFFF).value, 0xFFF7);
    assert_eq!(
        end_global_suspend(Some(0x10)),
        Err("The controller is not halted. Fail to quit global suspend mode")
    );
    assert_eq!(reset(), RegisterWrite { register: Register::Command, value: 2 });
}

#[test]
fn interrupts_are_switched_one_by_one() {
    let register = Register::InterruptEnable;
    assert_eq!(short_packet_int(1), edit(register, BitChange::Raise(8)));
    assert_eq!(short_packet_int(0), edit(register, BitChange::Lower(8)));
    assert_eq!(short_packet_int(9), None);
    assert_eq!(resume_int(1), edit(register, BitChange::Raise(2)));
    assert_eq!(resume_int(0), edit(register, BitChange::Lower(2)));
    assert_eq!(resume_int(9), None);
    assert_eq!(ioc_int(1), edit(register, BitChange::Raise(4)));
    assert_eq!(ioc_int(0), edit(register, BitChange::Lower(4)));
    assert_eq!(ioc_int(9), None);
    assert_eq!(tcrc_int(1), edit(register, BitChange::Raise(1)));
    assert_eq!(tcrc_int(0), edit(register, BitChange::Lower(1)));
    assert_eq!(tcrc_int(9), None);
    let both = ioc_int(1).unwrap().write_back(short_packet_int(1).unwrap().write_back(0).value);
    assert_eq!(both.value, 0xC);
}

#[test]
fn status_flags() {
    assert!(if_interrupt(Some(0x01)) && !if_interrupt(Some(0xFFFE)) && !if_interrupt(None));
    assert!(if_error_int(Some(0x02)) && !if_error_int(Some(0xFFFD)) && !if_error_int(None));
    assert!(resume_detect(Some(0x04)) && !resume_detect(Some(0xFFFB)) && !resume_detect(None));
    assert!(if_process_error(Some(0x08)) && !if_process_error(Some(0xFFF7)));
    assert!(!if_process_error(None));
    assert!(if_halted(Some(0x20)) && !if_halted(Some(0xFFDF)) && !if_halted(None));
    assert_eq!(ioc_complete(), RegisterWrite { register: Register::Status, value: 1 });
}

fn handle(readings: &[Option<u16>]) -> (Result<RegisterWrite, &'static str>, usize) {
    let mut check = StatusCheck::Completed;
    for (index, sts) in readings.iter().enumerate() {
        match int_status_handle(check, *sts) {
            StatusStep::Check(next) => check = next,
            StatusStep::Acknowledge(write) => return (Ok(write), index + 1),
            StatusStep::Fail(message) => return (Err(message), index + 1),
        }
    }
    panic!("no end");
}

#[test]
fn interrupt_handling() {
    assert_eq!(handle(&[Some(0x3F); 5]), (Ok(ioc_complete()), 1));
    assert_eq!(handle(&[Some(0x3E); 5]), (Err("The Uhci Controller is halted"), 2));
    assert_eq!(
        handle(&[Some(0x1E); 5]),
        (Err("UHCI has serious error occurs during a host system access"), 3)
    );
    assert_eq!(
        handle(&[Some(0x06); 5]),
        (Err("UHCI receives a “RESUME” signal from a USB device"), 4)
    );
    assert_eq!(
        handle(&[Some(0x02); 5]),
        (Err("completion of a USB transaction results in an error condition"), 5)
    );
    assert_eq!(handle(&[Some(0x10); 5]), (Err("Unknown error causing the interrupt"), 5));
    assert_eq!(handle(&[None; 5]), (Err("Unknown error causing the interrupt"), 5));
    // A completion that shows up after the first reading is not acknowledged.
    assert_eq!(
        handle(&[Some(0), Some(0x01), Some(0x01), Some(0x01), Some(0x03)]),
        (Err("completion of a USB transaction results in an error condition"), 5)
    );
}

#[test]
fn the_first_controller_is_found() {
    let buses = vec![
        PciBus { devices: vec![] },
        PciBus {
            devices: vec![
                pci_device(0x0C, 0x03, 0x20, 0x1111),
                pci_device(0x0C, 0x03, 0x00, 0xFFFF_C041),
                pci_device(0x0C, 0x03, 0x00, 0xD000),
            ],
        },
        PciBus { devices: vec![pci_device(0x0C, 0x03, 0x00, 0xE000)] },
    ];
    let mut ports = None;
    assert_eq!(read_uhci_address(Some(&buses), &mut ports), Ok(()));
    let found = UhciPorts {
        command: 0xC040,
        status: 0xC042,
        interrupt_enable: 0xC044,
        frame_number: 0xC046,
        frame_base: 0xC048,
        sof_modify: 0xC04C,
        port1: 0xC050,
        port2: 0xC052,
    };
    assert_eq!(ports, Some(found));
    assert_eq!(found.port(Register::Command), 0xC040);
    assert_eq!(found.port(Register::Status), 0xC042);
    assert_eq!(found.port(Register::InterruptEnable), 0xC044);
    assert_eq!(found.port(Register::FrameNumber), 0xC046);
    assert_eq!(found.port(Register::FrameBase), 0xC048);
    assert_eq!(found.port(Register::SofModify), 0xC04C);
    assert_eq!(found.port(Register::Port1), 0xC050);
    assert_eq!(found.port(Register::Port2), 0xC052);
    assert_eq!(usb_uhci::discovery::find_uhci_base(&buses), Some(0xC040));

    // What is known already stays.
    let others = vec![PciBus { devices: vec![pci_device(0x0C, 0x03, 0x00, 0xFFF0)] }];
    assert_eq!(read_uhci_address(Some(&others), &mut ports), Ok(()));
    assert_eq!(ports, Some(found));
}

#[test]
fn no_controller_is_found() {
    let message = "Cannot find the UCHI controller on PCI bus, Fail to read the base address";
    let mut ports = None;
    assert_eq!(read_uhci_address(None, &mut ports), Err(message));
    let buses = vec![PciBus {
        devices: vec![
            pci_device(0x0D, 0x03, 0x00, 0xC040),
            pci_device(0x0C, 0x04, 0x00, 0xC040),
            pci_device(0x0C, 0x03, 0x10, 0xC040),
        ],
    }];
    assert_eq!(read_uhci_address(Some(&buses), &mut ports), Err(message));
    assert_eq!(ports, None);
    assert_eq!(usb_uhci::discovery::find_uhci_base(&buses), None);
}

#[test]
fn the_highest_base() {
    let buses = vec![PciBus { devices: vec![pci_device(0x0C, 0x03, 0x00, 0xFFE1)] }];
    let mut ports = None;
    assert_eq!(read_uhci_address(Some(&buses), &mut ports), Ok(()));
    assert_eq!(ports.unwrap().port2, 0xFFF2);
}

#[test]
fn devices_are_registered() {
    let device = UsbDevice {
        port: 1,
        speed: 1,
        addr: 3,
        maxpacketsize: 8,
        controller: Controller::UCHI,
        device_type: HIDType::Keyboard,
        interrupt_endpoint: 4,
        control_endpoint: 5,
        iso_endpoint: 6,
    };
    let other = UsbDevice { port: 2, device_type: HIDType::Unknown, ..device };
    let mut pool = [other, other];
    device_register(Some(&mut pool), 1, device);
    assert_eq!(get_registered_device(Some(&pool), 1), Some(device));
    assert_eq!(get_registered_device(Some(&pool), 0), Some(other));
    device_register(None, 7, device);
    assert_eq!(get_registered_device(None, 7), None);
}
