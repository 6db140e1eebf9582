//! USB devices, and the pool in which the devices on the two ports are registered.

use vstd::prelude::*;

verus! {

pub const USB_FULL_SPEED: u8 = 0x00;

pub const USB_LOW_SPEED: u8 = 0x01;

/// The number of devices that can be registered: one for each port.
pub const MAX_DEVICES: usize = 2;

/// The kind of host controller that a device is attached to.
#[derive(Clone, Copy, PartialEq, Eq, Structural, Debug)]
pub enum Controller {
    UCHI,
    EHCI,
}

/// The kind of human interface that a device is.
#[derive(Clone, Copy, PartialEq, Eq, Structural, Debug)]
pub enum HIDType {
    Keyboard,
    Mouse,
    Unknown,
}

/// A device on one of the ports.
#[derive(Clone, Copy, PartialEq, Eq, Structural, Debug)]
pub struct UsbDevice {
    pub port: u8,
    pub speed: u8,
    pub addr: u8,
    pub maxpacketsize: u32,
    pub controller: Controller,
    pub device_type: HIDType,
    pub interrupt_endpoint: u8,
    pub control_endpoint: u8,
    pub iso_endpoint: u8,
}

/// Registers `device` at `index`, in the place of what was there. Does nothing to a pool
/// that is not set up.
pub fn device_register(
    device_pool: Option<&mut [UsbDevice; MAX_DEVICES]>,
    index: usize,
    device: UsbDevice,
)
    requires
        device_pool is Some ==> index < MAX_DEVICES,
    ensures
        match device_pool {
            Some(pool) => final(pool)@ == pool@.update(index as int, device),
            None => true,
        },
{
    match device_pool {
        Some(pool) => {
            pool[index] = device;
        },
        None => {},
    }
}

/// The device registered at `index`, if the pool is set up.
pub fn get_registered_device(
    device_pool: Option<&[UsbDevice; MAX_DEVICES]>,
    index: usize,
) -> (device: Option<UsbDevice>)
    requires
        device_pool is Some ==> index < MAX_DEVICES,
    ensures
        device == match device_pool {
            Some(pool) => Some(pool@[index as int]),
            None => None,
        },
{
    match device_pool {
        Some(pool) => Some(pool[index]),
        None => None,
    }
}

/// What was registered can be looked up, and nothing else in the pool has changed.
pub proof fn law_registered_device_is_found(
    before: Seq<UsbDevice>,
    index: int,
    device: UsbDevice,
    other: int,
)
    requires
        0 <= index < before.len(),
        0 <= other < before.len(),
        other != index,
    ensures
        before.update(index, device)[index] == device,
        before.update(index, device)[other] == before[other],
{
}

/// A device that is registered is the one that is got from its place, with all that is known
/// of it; the other place still gives what it gave.
pub proof fn law_registered_device_is_got(
    pool: &mut [UsbDevice; MAX_DEVICES],
    index: usize,
    device: UsbDevice,
    other: usize,
    got: Option<UsbDevice>,
    other_before: Option<UsbDevice>,
    other_after: Option<UsbDevice>,
)
    requires
        index < 2,
        other < 2,
        other != index,
        call_ensures(get_registered_device, (Some(&*pool), other), other_before),
        call_ensures(device_register, (Some(pool), index, device), ()),
        call_ensures(get_registered_device, (Some(&*final(pool)), index), got),
        call_ensures(get_registered_device, (Some(&*final(pool)), other), other_after),
    ensures
        got == Some(device),
        other_after == other_before,
{
}

/// What is got is what stands in the pool; without a pool nothing is got.
pub proof fn law_device_is_got_from_pool(
    pool: [UsbDevice; MAX_DEVICES],
    index: usize,
    got: Option<UsbDevice>,
    none: Option<UsbDevice>,
)
    requires
        index < 2,
        call_ensures(get_registered_device, (Some(&pool), index), got),
        call_ensures(get_registered_device, (None, index), none),
    ensures
        got == Some(pool@[index as int]),
        none is None,
{
}

} // verus!
