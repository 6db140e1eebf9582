//! Driver logic for USB 1.1 host controllers that follow the Universal Host Controller
//! Interface.
//!
//! The controller is driven through registers in I/O space and through structures in
//! memory that it reads and writes itself: a list of frames, queue heads and transfer
//! descriptors. The library works on those structures in place, word by word. It does not
//! access I/O space, the PCI bus or the memory manager: its functions are told what was
//! read, and say what is to be written. Where reading and writing alternate, a function
//! says what follows one reading, and the caller goes on until it is told to stop.

pub mod cell;
pub mod command;
pub mod controller;
pub mod device;
pub mod discovery;
pub mod frame;
pub mod frame_list;
pub mod interrupt;
pub mod mapping;
pub mod port;
pub mod qh;
pub mod registers;
pub mod status;
pub mod td;

pub use command::{end_global_resume, end_global_suspend, mode, packet_size, reset, run};
pub use controller::{init, InitAction, InitEvent};
pub use device::{
    device_register, get_registered_device, Controller, HIDType, UsbDevice, MAX_DEVICES,
    USB_FULL_SPEED, USB_LOW_SPEED,
};
pub use discovery::{read_uhci_address, PciBus, PciDevice, UhciPorts};
pub use frame::{
    assign_frame_list_base, current_index, frame_list_base, frame_number, get_sof_timing,
};
pub use frame_list::{
    clean_a_frame, clean_framelist, frame_link_pointer, qh_link_to_framelist,
    td_link_keyboard_framelist, td_link_to_framelist, FRAMES,
};
pub use interrupt::{ioc_int, resume_int, short_packet_int, tcrc_int};
pub use mapping::{
    buffer_pointer_alloc, map_pool, MapAction, MapEvent, MappedFrame, PageFlags,
};
pub use port::{
    connect_change_clear_port1, connect_change_clear_port2, connect_change_port1,
    connect_change_port2, enable_change_clear_port1, enable_change_clear_port2,
    enable_change_port1, enable_change_port2, if_connect_port1, if_connect_port2,
    if_enable_port1, if_enable_port2, if_port1_reset, if_port1_suspend, if_port2_reset,
    if_port2_suspend, low_speed_attach_port1, low_speed_attach_port2, port1_device_init,
    port1_enable, port1_reset, port1_suspend, port2_device_init, port2_enable, port2_reset,
    port2_suspend, PortAnswer, PortQuestion, PortReset, PortResetNext, PortResetStep,
};
pub use qh::{init_qh, qh_alloc, qh_pointers, UhciQH, MAX_QH};
pub use registers::{BitChange, Register, RegisterEdit, RegisterWrite, WideRegisterWrite};
pub use status::{
    if_error_int, if_halted, if_interrupt, if_process_error, int_status_handle, ioc_complete,
    resume_detect, StatusCheck, StatusStep,
};
pub use td::{
    init_td, interrupt_td, td_alloc, td_clean, td_link, td_link_pointer, td_link_vf, td_status,
    td_token, UhciTDRegisters, MAX_TD, TD_CS_ACTIVE, TD_PTR_TERMINATE,
};
