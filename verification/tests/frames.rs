use usb_uhci::{
    assign_frame_list_base, clean_a_frame, clean_framelist, current_index, frame_link_pointer,
    frame_list_base, frame_number, get_sof_timing, qh_link_to_framelist,
    td_link_keyboard_framelist, td_link_to_framelist, Register, WideRegisterWrite, FRAMES,
};
use volatile::Volatile;

fn frame_list(link: u32) -> [Volatile<u32>; FRAMES] {
    std::array::from_fn(|_| Volatile::new(link))
}

#[test]
fn cleaning_the_list_empties_every_frame() {
    let mut list = frame_list(0xABC0);
    clean_framelist(Some(&mut list));
    for frame in list.iter() {
        assert_eq!(frame.read(), 1);
    }
    assert_eq!(frame_link_pointer(Some(&list), 1023), Some(1));
}

#[test]
fn frames_are_given_in_order() {
    let mut list = frame_list(1);
    assert_eq!(qh_link_to_framelist(Some(&mut list), 0x2000), Some(0));
    assert_eq!(td_link_to_framelist(Some(&mut list), 0x3000), Some(1));
    assert_eq!(qh_link_to_framelist(Some(&mut list), 0x4000), Some(2));
    assert_eq!(frame_link_pointer(Some(&list), 0), Some(0x2002));
    assert_eq!(frame_link_pointer(Some(&list), 1), Some(0x3000));
    assert_eq!(frame_link_pointer(Some(&list), 2), Some(0x4002));
    assert_eq!(frame_link_pointer(Some(&list), 3), Some(1));
    clean_a_frame(Some(&mut list), 1);
    assert_eq!(frame_link_pointer(Some(&list), 1), Some(0));
    assert_eq!(td_link_to_framelist(Some(&mut list), 0x5000), Some(1));
    assert_eq!(td_link_to_framelist(Some(&mut list), 0x6000), Some(3));
}

#[test]
fn no_frame_is_left() {
    let mut list = frame_list(0xABC0);
    assert_eq!(qh_link_to_framelist(Some(&mut list), 0x2000), None);
    assert_eq!(td_link_to_framelist(Some(&mut list), 0x2000), None);
    list[1023].write(0xABC1);
    assert_eq!(td_link_to_framelist(Some(&mut list), 0x2000), Some(1023));
    assert_eq!(list[1023].read(), 0x2000);
    assert_eq!(list[1022].read(), 0xABC0);
}

#[test]
fn a_link_that_leads_nowhere_leaves_the_frame_free() {
    let mut list = frame_list(1);
    assert_eq!(td_link_to_framelist(Some(&mut list), 0), Some(0));
    assert_eq!(td_link_to_framelist(Some(&mut list), 0x11), Some(0));
    assert_eq!(td_link_to_framelist(Some(&mut list), 0x20), Some(0));
    assert_eq!(td_link_to_framelist(Some(&mut list), 0x30), Some(1));
}

#[test]
fn keyboard_frames() {
    let mut list = frame_list(1);
    list[20].write(0xABC0);
    list[30].write(0);
    td_link_keyboard_framelist(Some(&mut list), 0x7000);
    for (index, frame) in list.iter().enumerate() {
        let expected = if index == 20 {
            0xABC0
        } else if index % 10 == 0 {
            0x7000
        } else {
            1
        };
        assert_eq!(frame.read(), expected);
    }
    td_link_keyboard_framelist(Some(&mut list), 0x8000);
    assert_eq!(list[0].read(), 0x7000);
    assert_eq!(list[1020].read(), 0x7000);
}

#[test]
fn frame_functions_without_a_list() {
    clean_framelist(None);
    clean_a_frame(None, 5000);
    assert_eq!(qh_link_to_framelist(None, 0x2000), None);
    assert_eq!(td_link_to_framelist(None, 0x2000), None);
    td_link_keyboard_framelist(None, 0x2000);
    assert_eq!(frame_link_pointer(None, 5000), None);
}

#[test]
fn frame_registers() {
    assert_eq!(frame_list_base(Some(0x1234_5FFF)), 0x1234_5000);
    assert_eq!(frame_list_base(None), 0);
    assert_eq!(frame_number(Some(0xFFFF)), 1023);
    assert_eq!(frame_number(Some(0x0405)), 5);
    assert_eq!(frame_number(None), 0);
    assert_eq!(current_index(Some(0xFFFF)), 4092);
    assert_eq!(current_index(Some(0x0405)), 20);
    assert_eq!(current_index(None), 0);
}

#[test]
fn sof_timing() {
    assert_eq!(get_sof_timing(Some(64)), 64);
    assert_eq!(get_sof_timing(Some(80)), 80);
    assert_eq!(get_sof_timing(Some(0)), 0);
    assert_eq!(get_sof_timing(Some(127)), 127);
    assert_eq!(get_sof_timing(Some(128 + 64)), 64);
    assert_eq!(get_sof_timing(Some(0xFFFF)), 0x7F);
    assert_eq!(get_sof_timing(None), 0);
}

#[test]
fn assigned_base_reads_back() {
    let write = assign_frame_list_base(0x00AB_C000);
    assert_eq!(write, WideRegisterWrite { register: Register::FrameBase, value: 0x00AB_C000 });
    assert_eq!(frame_list_base(Some(write.value)), 0x00AB_C000);
}
