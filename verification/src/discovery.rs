//! Finding the controller on the PCI bus.

use crate::registers::Register;
use vstd::prelude::*;

verus! {

/// What the configuration space of a PCI device says that matters here.
pub struct PciDevice {
    pub class: u8,
    pub subclass: u8,
    pub prof_if: u8,
    pub bars: [u32; 6],
}

/// The devices on one PCI bus.
pub struct PciBus {
    pub devices: Vec<PciDevice>,
}

/// Where the controller's registers lie in I/O space.
#[derive(Clone, Copy, PartialEq, Eq, Structural, Debug)]
pub struct UhciPorts {
    pub command: u16,
    pub status: u16,
    pub interrupt_enable: u16,
    pub frame_number: u16,
    pub frame_base: u16,
    pub sof_modify: u16,
    pub port1: u16,
    pub port2: u16,
}

impl UhciPorts {
    /// The place of a register.
    pub open spec fn place(self, register: Register) -> u16 {
        match register {
            Register::Command => self.command,
            Register::Status => self.status,
            Register::InterruptEnable => self.interrupt_enable,
            Register::FrameNumber => self.frame_number,
            Register::FrameBase => self.frame_base,
            Register::SofModify => self.sof_modify,
            Register::Port1 => self.port1,
            Register::Port2 => self.port2,
        }
    }

    /// Whether every register lies at its offset behind `base`.
    pub open spec fn lie_at(self, base: int) -> bool {
        forall|register: Register| #[trigger] self.place(register) == base + register.offset()
    }

    /// The place of a register.
    pub fn port(&self, register: Register) -> (port: u16)
        ensures
            port == self.place(register),
    {
        match register {
            Register::Command => self.command,
            Register::Status => self.status,
            Register::InterruptEnable => self.interrupt_enable,
            Register::FrameNumber => self.frame_number,
            Register::FrameBase => self.frame_base,
            Register::SofModify => self.sof_modify,
            Register::Port1 => self.port1,
            Register::Port2 => self.port2,
        }
    }
}

/// Whether a device is a USB 1.1 controller with the universal host controller interface:
/// a serial bus controller for USB with this programming interface.
pub open spec fn is_uhci(device: PciDevice) -> bool {
    device.class == 0x0C && device.subclass == 0x03 && device.prof_if == 0x00
}

/// Where a device's registers begin: bits 15 to 4 of its base address register 4.
pub open spec fn register_base(device: PciDevice) -> int {
    device.bars[4] % 0x1_0000 - device.bars[4] % 16
}

/// Whether the device `d` of bus `b` is the first controller, bus by bus.
pub open spec fn is_first_uhci(buses: Seq<PciBus>, b: int, d: int) -> bool {
    &&& 0 <= b < buses.len()
    &&& 0 <= d < buses[b].devices@.len()
    &&& is_uhci(buses[b].devices@[d])
    &&& forall|i: int, j: int|
        0 <= i < b && 0 <= j < buses[i].devices@.len() ==> !is_uhci(
            #[trigger] buses[i].devices@[j],
        )
    &&& forall|j: int| 0 <= j < d ==> !is_uhci(#[trigger] buses[b].devices@[j])
}

/// Whether there is no controller on any bus.
pub open spec fn no_uhci(buses: Seq<PciBus>) -> bool {
    forall|i: int, j: int|
        0 <= i < buses.len() && 0 <= j < buses[i].devices@.len() ==> !is_uhci(
            #[trigger] buses[i].devices@[j],
        )
}

fn find_uhci(buses: &Vec<PciBus>) -> (found: Option<(usize, usize)>)
    ensures
        match found {
            Some((b, d)) => is_first_uhci(buses@, b as int, d as int),
            None => no_uhci(buses@),
        },
{
    let mut b: usize = 0;
    while b < buses.len()
        invariant
            b <= buses.len(),
            forall|i: int, j: int|
                0 <= i < b && 0 <= j < buses@[i].devices@.len() ==> !is_uhci(
                    #[trigger] buses@[i].devices@[j],
                ),
        decreases buses.len() - b,
    {
        let devices: &Vec<PciDevice> = &buses[b].devices;
        let mut d: usize = 0;
        while d < devices.len()
            invariant
                b < buses.len(),
                d <= devices.len(),
                devices@ == buses@[b as int].devices@,
                forall|i: int, j: int|
                    0 <= i < b && 0 <= j < buses@[i].devices@.len() ==> !is_uhci(
                        #[trigger] buses@[i].devices@[j],
                    ),
                forall|j: int| 0 <= j < d ==> !is_uhci(#[trigger] buses@[b as int].devices@[j]),
            decreases devices.len() - d,
        {
            let device: &PciDevice = &devices[d];
            if device.class == 0x0C && device.subclass == 0x03 && device.prof_if == 0x00 {
                return Some((b, d));
            }
            d += 1;
        }
        b += 1;
    }
    None
}

/// Where the registers of the first controller on the buses begin, if there is a
/// controller.
pub fn find_uhci_base(buses: &Vec<PciBus>) -> (base: Option<u16>)
    ensures
        match base {
            Some(base) => exists|b: int, d: int| #[trigger]
                is_first_uhci(buses@, b, d) && base == register_base(buses@[b].devices@[d]),
            None => no_uhci(buses@),
        },
{
    match find_uhci(buses) {
        Some((b, d)) => {
            let bar: u32 = buses[b].devices[d].bars[4];
            assert(bar & 0xFFF0 == bar % 0x1_0000 - bar % 16) by (bit_vector);
            Some((bar & 0xFFF0) as u16)
        },
        None => None,
    }
}

/// The registers of a controller whose base is too high do not fit behind it.
pub const HIGHEST_BASE: u16 = 0xFFED;

/// Finds the controller on the PCI buses and notes where its registers lie, unless that is
/// known already. Where the buses have not been searched yet (`None`), or hold no
/// controller, there is an error and nothing is noted.
pub fn read_uhci_address(buses: Option<&Vec<PciBus>>, ports: &mut Option<UhciPorts>) -> (result:
    Result<(), &'static str>)
    requires
        forall|b: int, d: int|
            buses is Some && *old(ports) is None && #[trigger] is_first_uhci(buses->0@, b, d)
                ==> register_base(buses->0@[b].devices@[d]) <= HIGHEST_BASE,
    ensures
        result is Ok <==> buses is Some && !no_uhci(buses->0@),
        result matches Err(message) ==> {
            &&& message
                == "Cannot find the UCHI controller on PCI bus, Fail to read the base address"
            &&& *final(ports) == *old(ports)
        },
        result is Ok ==> match *old(ports) {
            Some(known) => *final(ports) == Some(known),
            None => exists|b: int, d: int| #[trigger]
                is_first_uhci(buses->0@, b, d) && (*final(ports) matches Some(found)
                    && found.lie_at(register_base(buses->0@[b].devices@[d]))),
        },
{
    if let Some(pci_buses) = buses {
        if let Some(base) = find_uhci_base(pci_buses) {
            if ports.is_none() {
                *ports = Some(
                    UhciPorts {
                        command: base,
                        status: base + 0x2,
                        interrupt_enable: base + 0x4,
                        frame_number: base + 0x6,
                        frame_base: base + 0x8,
                        sof_modify: base + 0xC,
                        port1: base + 0x10,
                        port2: base + 0x12,
                    },
                );
            }
            return Ok(());
        }
    }
    Err("Cannot find the UCHI controller on PCI bus, Fail to read the base address")
}

/// There is at most one first controller.
pub proof fn law_first_uhci_is_unique(buses: Seq<PciBus>, b: int, d: int, i: int, j: int)
    requires
        is_first_uhci(buses, b, d),
        is_first_uhci(buses, i, j),
    ensures
        b == i,
        d == j,
{
    if b < i {
        assert(!is_uhci(buses[b].devices@[d]));
    }
    if i < b {
        assert(!is_uhci(buses[i].devices@[j]));
    }
}

proof fn lemma_first_uhci_exists(buses: Seq<PciBus>, b: int, d: int)
    requires
        0 <= b < buses.len(),
        0 <= d < buses[b].devices@.len(),
        is_uhci(buses[b].devices@[d]),
    ensures
        exists|i: int, j: int| is_first_uhci(buses, i, j),
    decreases b, d,
{
    if !is_first_uhci(buses, b, d) {
        if exists|i: int, j: int|
            0 <= i < b && 0 <= j < buses[i].devices@.len() && is_uhci(
                #[trigger] buses[i].devices@[j],
            ) {
            let (i, j) = choose|i: int, j: int|
                0 <= i < b && 0 <= j < buses[i].devices@.len() && is_uhci(
                    #[trigger] buses[i].devices@[j],
                );
            lemma_first_uhci_exists(buses, i, j);
        } else {
            let j = choose|j: int| 0 <= j < d && is_uhci(#[trigger] buses[b].devices@[j]);
            lemma_first_uhci_exists(buses, b, j);
        }
    }
}

/// There is a first controller exactly if there is a controller.
pub proof fn law_first_uhci_exists(buses: Seq<PciBus>)
    ensures
        no_uhci(buses) <==> forall|b: int, d: int| !is_first_uhci(buses, b, d),
{
    if no_uhci(buses) {
        assert forall|b: int, d: int| !is_first_uhci(buses, b, d) by {
            if is_first_uhci(buses, b, d) {
                assert(is_uhci(buses[b].devices@[d]));
            }
        }
    } else {
        let (b, d) = choose|b: int, d: int|
            0 <= b < buses.len() && 0 <= d < buses[b].devices@.len() && is_uhci(
                #[trigger] buses[b].devices@[d],
            );
        lemma_first_uhci_exists(buses, b, d);
    }
}

/// No two registers lie at the same place.
pub proof fn law_registers_are_apart(ports: UhciPorts, base: int, a: Register, b: Register)
    requires
        ports.lie_at(base),
        a != b,
    ensures
        ports.place(a) != ports.place(b),
{
    assert(ports.place(a) == base + a.offset());
    assert(ports.place(b) == base + b.offset());
}

/// A device is taken for the controller exactly if it has class 0x0C, subclass 0x03 and
/// programming interface 0x00: no other USB controller is, whatever else it says of itself.
pub proof fn law_controller_is_told_by_three_bytes(device: PciDevice)
    ensures
        is_uhci(device) <==> device.class == 12 && device.subclass == 3 && device.prof_if == 0,
{
}

/// The registers begin where base address register 4 says: at a multiple of 16 below 64 KiB,
/// which differs from the low half of that register in its four low bits only. The other
/// base address registers do not matter.
pub proof fn law_base_is_in_bar_4(device: PciDevice, other: PciDevice)
    ensures
        0 <= register_base(device) < 0x1_0000,
        register_base(device) % 16 == 0,
        register_base(device) / 16 == (device.bars@[4] / 16) % 4096,
        device.bars@[4] == other.bars@[4] ==> register_base(device) == register_base(other),
{
    let bar: u32 = device.bars@[4];
    assert((bar % 0x1_0000 - bar % 16) % 16 == 0 && (bar % 0x1_0000 - bar % 16) / 16 == (bar / 16)
        % 4096);
}

/// The first controller is a device with class 0x0C, subclass 0x03 and programming interface
/// 0x00; no device on an earlier bus is one, and no earlier device on its own bus.
pub proof fn law_first_controller_has_none_before(
    buses: Seq<PciBus>,
    b: int,
    d: int,
    i: int,
    j: int,
)
    requires
        is_first_uhci(buses, b, d),
        0 <= i < buses.len(),
        0 <= j < buses[i].devices@.len(),
        i < b || i == b && j < d,
    ensures
        0 <= b < buses.len(),
        0 <= d < buses[b].devices@.len(),
        buses[b].devices@[d].class == 12,
        buses[b].devices@[d].subclass == 3,
        buses[b].devices@[d].prof_if == 0,
        buses[i].devices@[j].class != 12 || buses[i].devices@[j].subclass != 3
            || buses[i].devices@[j].prof_if != 0,
{
    assert(!is_uhci(buses[i].devices@[j]));
}

/// A device is the first controller exactly if it is one and none comes before it.
pub proof fn law_controller_with_none_before_is_first(buses: Seq<PciBus>, b: int, d: int)
    requires
        0 <= b < buses.len(),
        0 <= d < buses[b].devices@.len(),
        buses[b].devices@[d].class == 12,
        buses[b].devices@[d].subclass == 3,
        buses[b].devices@[d].prof_if == 0,
        forall|i: int, j: int|
            0 <= i < buses.len() && 0 <= j < buses[i].devices@.len() && (i < b || i == b && j < d)
                ==> (#[trigger] buses[i].devices@[j]).class != 12
                || buses[i].devices@[j].subclass != 3 || buses[i].devices@[j].prof_if != 0,
    ensures
        is_first_uhci(buses, b, d),
        !no_uhci(buses),
{
    assert(is_uhci(buses[b].devices@[d]));
}

/// There is no controller exactly if no device has class 0x0C, subclass 0x03 and programming
/// interface 0x00: buses that hold other USB controllers only hold none.
pub proof fn law_no_controller_means_no_such_device(buses: Seq<PciBus>)
    ensures
        no_uhci(buses) <==> forall|i: int, j: int|
            0 <= i < buses.len() && 0 <= j < buses[i].devices@.len() ==> {
                let device = #[trigger] buses[i].devices@[j];
                device.class != 12 || device.subclass != 3 || device.prof_if != 0
            },
{
}

/// Where the registers lie, once their base is known.
pub proof fn law_places_behind_base(ports: UhciPorts, base: int)
    ensures
        ports.lie_at(base) <==> {
            &&& ports.command == base
            &&& ports.status == base + 2
            &&& ports.interrupt_enable == base + 4
            &&& ports.frame_number == base + 6
            &&& ports.frame_base == base + 8
            &&& ports.sof_modify == base + 12
            &&& ports.port1 == base + 16
            &&& ports.port2 == base + 18
        },
{
    if ports.lie_at(base) {
        assert(ports.place(Register::Command) == base + Register::Command.offset());
        assert(ports.place(Register::Status) == base + Register::Status.offset());
        assert(ports.place(Register::InterruptEnable) == base
            + Register::InterruptEnable.offset());
        assert(ports.place(Register::FrameNumber) == base + Register::FrameNumber.offset());
        assert(ports.place(Register::FrameBase) == base + Register::FrameBase.offset());
        assert(ports.place(Register::SofModify) == base + Register::SofModify.offset());
        assert(ports.place(Register::Port1) == base + Register::Port1.offset());
        assert(ports.place(Register::Port2) == base + Register::Port2.offset());
    }
}

/// Each register's place is the one noted for it.
pub proof fn law_place_is_the_noted_one(ports: UhciPorts)
    ensures
        ports.place(Register::Command) == ports.command,
        ports.place(Register::Status) == ports.status,
        ports.place(Register::InterruptEnable) == ports.interrupt_enable,
        ports.place(Register::FrameNumber) == ports.frame_number,
        ports.place(Register::FrameBase) == ports.frame_base,
        ports.place(Register::SofModify) == ports.sof_modify,
        ports.place(Register::Port1) == ports.port1,
        ports.place(Register::Port2) == ports.port2,
{
}

/// Whether a device says of itself that it is a USB controller with the universal host
/// controller interface.
pub open spec fn says_uhci(device: PciDevice) -> bool {
    device.class == 12 && device.subclass == 3 && device.prof_if == 0
}

/// A base is found exactly if some device has class 0x0C, subclass 0x03 and programming
/// interface 0x00, and it is that of the first such device: bits 15 to 4 of its base address
/// register 4. Other USB controllers, before or after it, do not matter.
pub proof fn law_base_found_is_of_first_controller(
    buses: Vec<PciBus>,
    base: Option<u16>,
    b: int,
    d: int,
)
    requires
        call_ensures(find_uhci_base, (&buses,), base),
        0 <= b < buses@.len(),
        0 <= d < buses@[b].devices@.len(),
        says_uhci(buses@[b].devices@[d]),
        forall|i: int, j: int|
            0 <= i < buses@.len() && 0 <= j < buses@[i].devices@.len() && (i < b || i == b && j < d)
                ==> !says_uhci(#[trigger] buses@[i].devices@[j]),
    ensures
        base is Some,
        base->0 == buses@[b].devices@[d].bars@[4] & 0xFFF0,
{
    law_controller_with_none_before_is_first(buses@, b, d);
    if let Some(found) = base {
        let (i, j) = choose|i: int, j: int| #[trigger]
            is_first_uhci(buses@, i, j) && found == register_base(buses@[i].devices@[j]);
        law_first_uhci_is_unique(buses@, b, d, i, j);
        let bar: u32 = buses@[b].devices@[d].bars@[4];
        assert(bar & 0xFFF0 == bar % 0x1_0000 - bar % 16) by (bit_vector);
    }
}

/// Where the registers are not known yet, they are noted behind the base of the first device
/// with class 0x0C, subclass 0x03 and programming interface 0x00, each in its place.
pub proof fn law_ports_found_are_of_first_controller(
    buses: Vec<PciBus>,
    ports: &mut Option<UhciPorts>,
    result: Result<(), &'static str>,
    b: int,
    d: int,
)
    requires
        call_requires(read_uhci_address, (Some(&buses), ports)),
        call_ensures(read_uhci_address, (Some(&buses), ports), result),
        *ports is None,
        0 <= b < buses@.len(),
        0 <= d < buses@[b].devices@.len(),
        says_uhci(buses@[b].devices@[d]),
        forall|i: int, j: int|
            0 <= i < buses@.len() && 0 <= j < buses@[i].devices@.len() && (i < b || i == b && j < d)
                ==> !says_uhci(#[trigger] buses@[i].devices@[j]),
    ensures
        result is Ok,
        *final(ports) is Some,
        ({
            let base = buses@[b].devices@[d].bars@[4] & 0xFFF0;
            let found = (*final(ports))->0;
            &&& found.command == base
            &&& found.status == base + 2
            &&& found.interrupt_enable == base + 4
            &&& found.frame_number == base + 6
            &&& found.frame_base == base + 8
            &&& found.sof_modify == base + 12
            &&& found.port1 == base + 16
            &&& found.port2 == base + 18
        }),
{
    law_controller_with_none_before_is_first(buses@, b, d);
    let (i, j) = choose|i: int, j: int| #[trigger]
        is_first_uhci(buses@, i, j) && (*final(ports) matches Some(found) && found.lie_at(
            register_base(buses@[i].devices@[j]),
        ));
    law_first_uhci_is_unique(buses@, b, d, i, j);
    law_places_behind_base((*final(ports))->0, register_base(buses@[b].devices@[d]));
    let bar: u32 = buses@[b].devices@[d].bars@[4];
    assert(bar & 0xFFF0 == bar % 0x1_0000 - bar % 16) by (bit_vector);
}

/// Without a device of class 0x0C, subclass 0x03 and programming interface 0x00 there is an
/// error, whatever other devices there are, no base is found, and nothing is noted. The same
/// goes for buses that have not been searched.
pub proof fn law_no_controller_is_an_error(
    buses: Vec<PciBus>,
    ports: &mut Option<UhciPorts>,
    result: Result<(), &'static str>,
    unsearched: &mut Option<UhciPorts>,
    unsearched_result: Result<(), &'static str>,
    base: Option<u16>,
)
    requires
        forall|i: int, j: int|
            0 <= i < buses@.len() && 0 <= j < buses@[i].devices@.len() ==> !says_uhci(
                #[trigger] buses@[i].devices@[j],
            ),
        call_ensures(read_uhci_address, (Some(&buses), ports), result),
        call_ensures(read_uhci_address, (None, unsearched), unsearched_result),
        call_ensures(find_uhci_base, (&buses,), base),
    ensures
        result is Err,
        *final(ports) == *old(ports),
        unsearched_result is Err,
        *final(unsearched) == *old(unsearched),
        base is None,
{
    law_no_controller_means_no_such_device(buses@);
    law_first_uhci_exists(buses@);
}

/// What is known of the registers' places stays, whatever a further search finds.
pub proof fn law_known_ports_stay(
    buses: Option<&Vec<PciBus>>,
    ports: &mut Option<UhciPorts>,
    result: Result<(), &'static str>,
)
    requires
        call_ensures(read_uhci_address, (buses, ports), result),
        *ports is Some,
    ensures
        *final(ports) == *old(ports),
{
}

/// The place of each register is the one noted for it.
pub proof fn law_port_is_the_noted_one(
    ports: UhciPorts,
    command: u16,
    status: u16,
    interrupt_enable: u16,
    frame_number: u16,
    frame_base: u16,
    sof_modify: u16,
    port1: u16,
    port2: u16,
)
    requires
        call_ensures(UhciPorts::port, (&ports, Register::Command), command),
        call_ensures(UhciPorts::port, (&ports, Register::Status), status),
        call_ensures(UhciPorts::port, (&ports, Register::InterruptEnable), interrupt_enable),
        call_ensures(UhciPorts::port, (&ports, Register::FrameNumber), frame_number),
        call_ensures(UhciPorts::port, (&ports, Register::FrameBase), frame_base),
        call_ensures(UhciPorts::port, (&ports, Register::SofModify), sof_modify),
        call_ensures(UhciPorts::port, (&ports, Register::Port1), port1),
        call_ensures(UhciPorts::port, (&ports, Register::Port2), port2),
    ensures
        ports == (UhciPorts {
            command,
            status,
            interrupt_enable,
            frame_number,
            frame_base,
            sof_modify,
            port1,
            port2,
        }),
{
}

} // verus!
