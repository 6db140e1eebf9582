use usb_uhci::{
    init_qh, init_td, interrupt_td, qh_alloc, qh_pointers, td_alloc, td_clean, td_link,
    td_link_pointer, td_link_vf, td_status, td_token, UhciQH, UhciTDRegisters, MAX_QH, MAX_TD,
    TD_CS_ACTIVE, TD_PTR_TERMINATE,
};
use volatile::Volatile;

fn td() -> UhciTDRegisters {
    UhciTDRegisters {
        link_pointer: Volatile::new(0),
        control_status: Volatile::new(0),
        token: Volatile::new(0),
        buffer_point: Volatile::new(0),
        active: Volatile::new(0),
        _padding_1: [0; 3],
    }
}

fn td_pool() -> [UhciTDRegisters; MAX_TD] {
    std::array::from_fn(|_| td())
}

fn qh_pool() -> [UhciQH; MAX_QH] {
    std::array::from_fn(|_| UhciQH {
        horizontal_pointer: Volatile::new(0),
        vertical_pointer: Volatile::new(0),
        active: Volatile::new(0),
        _padding_1: 0,
    })
}

#[test]
fn init_writes_every_word() {
    let mut td = td();
    td.active.write(1);
    td.init(0, 0x1230, 0, 5, 3, 1, 0x69, 8, 0x4_5678);
    assert_eq!(td.link_pointer.read(), 0x1230);
    assert_eq!(td.control_status.read(), 0x1880_0000);
    assert_eq!(td.token.read(), (7 << 21) | (1 << 19) | (3 << 15) | (5 << 8) | 0x69);
    assert_eq!(td.token.read(), 0x00E9_8569);
    assert_eq!(td.buffer_point.read(), 0x4_5678);
    assert_eq!(td.active.read(), 1);
    assert_eq!(TD_CS_ACTIVE, 0x80_0000);
}

#[test]
fn init_of_a_low_speed_device() {
    let mut td = td();
    td.init(0, 0x1230, 1, 0, 0, 0, 0x2D, 8, 0);
    assert_eq!(td.control_status.read(), 0x1C80_0000);
    td.init(0, 0x1230, 2, 0, 0, 0, 0x2D, 8, 0);
    assert_eq!(td.control_status.read(), 0x1880_0000);
}

#[test]
fn init_links() {
    let mut td = td();
    td.init(1, 0x1230, 0, 0, 0, 0, 0x2D, 8, 0);
    assert_eq!(td.link_pointer.read(), 0x1232);
    assert_eq!(td.next_pointer(), 0x1230);
    td.init(1, 0, 0, 0, 0, 0, 0x2D, 8, 0);
    assert_eq!(td.link_pointer.read(), TD_PTR_TERMINATE);
    td.init(0, 0, 0, 0, 0, 0, 0x2D, 8, 0);
    assert_eq!(td.link_pointer.read(), 1);
    td.init(2, 0x40, 0, 0, 0, 0, 0x2D, 8, 0);
    assert_eq!(td.link_pointer.read(), 0x40);
}

#[test]
fn init_lengths() {
    let mut td = td();
    td.init(0, 0, 0, 0, 0, 0, 0, 0, 0);
    assert_eq!(td.token.read(), 0);
    td.init(0, 0, 0, 0, 0, 0, 0, 1, 0);
    assert_eq!(td.token.read(), 0);
    td.init(0, 0, 0, 0, 0, 0, 0, 2, 0);
    assert_eq!(td.token.read(), 0x20_0000);
    td.init(0, 0, 0, 0, 0, 0, 0, 2048, 0);
    assert_eq!(td.token.read(), 0xFFE0_0000);
    td.init(0, 0, 0, 0, 0, 0, 0, u32::MAX, 0);
    assert_eq!(td.token.read(), 0xFFC0_0000);
}

#[test]
fn token_fields_read_back() {
    let mut td = td();
    td.init(0, 0, 0, 0x7F, 0xF, 1, 0xE1, 64, 0xABCD_EF01);
    assert_eq!(td.read_address(), 0x7F);
    assert_eq!(td.read_endp(), 0xF);
    assert_eq!(td.read_pid(), (0xE0, 0x1));
    assert_eq!(td.read_buffer_pointer(), 0xABCD_EF01);
    td.init(0, 0, 0, 1, 2, 0, 0x2D, 64, 0);
    assert_eq!(td.read_address(), 1);
    assert_eq!(td.read_endp(), 2);
    assert_eq!(td.read_pid(), (0x20, 0xD));
    td.token.write(0xFFFF_FFFF);
    assert_eq!((td.read_address(), td.read_endp(), td.read_pid()), (127, 15, (0xF0, 0xF)));
}

#[test]
fn next_pointer_drops_the_flags() {
    let mut td = td();
    td.link_pointer.write(0xFFFF_FFFF);
    assert_eq!(td.next_pointer(), 0xFFFF_FFF0);
    td.link_pointer.write(0x7);
    assert_eq!(td.next_pointer(), 0);
}

#[test]
fn td_alloc_takes_the_first_free_one() {
    let mut pool = td_pool();
    assert_eq!(td_alloc(Some(&mut pool), 0x8000), Some((0x8000, 0)));
    assert_eq!(td_alloc(Some(&mut pool), 0x8000), Some((0x8020, 1)));
    assert_eq!(td_alloc(Some(&mut pool), 0x8000), Some((0x8040, 2)));
    assert_eq!(pool[1].active.read(), 1);
    td_clean(Some(&mut pool), 1);
    assert_eq!(pool[1].active.read(), 0);
    assert_eq!(td_alloc(Some(&mut pool), 0x8000), Some((0x8020, 1)));
    assert_eq!(td_alloc(Some(&mut pool), 0x8000), Some((0x8060, 3)));
}

#[test]
fn td_alloc_until_none_is_left() {
    let mut pool = td_pool();
    for index in 0..MAX_TD {
        assert_eq!(td_alloc(Some(&mut pool), 0), Some((index * 32, index)));
    }
    assert_eq!(td_alloc(Some(&mut pool), 0), None);
    td_clean(Some(&mut pool), 63);
    assert_eq!(td_alloc(Some(&mut pool), 0), Some((63 * 32, 63)));
    assert_eq!(td_alloc(Some(&mut pool), 0), None);
}

#[test]
fn td_alloc_at_the_top_of_memory() {
    let mut pool = td_pool();
    let base = usize::MAX - 64 * 32 + 1;
    pool[0].active.write(9);
    assert_eq!(td_alloc(Some(&mut pool), base), Some((base + 32, 1)));
}

#[test]
fn td_functions_without_a_pool() {
    assert_eq!(td_alloc(None, 0), None);
    init_td(None, 1000, 0, 0, 0, 0, 0, 0, 0, 0, 0);
    interrupt_td(None, 1000, 0, 0, 0, 0, 0, 0, 0, 0, 0);
    td_clean(None, 1000);
    td_link(None, 1000, 0, 0);
    td_link_vf(None, 1000, 0, 0);
    assert_eq!(td_link_pointer(None, 1000), None);
    assert_eq!(td_token(None, 1000), None);
    assert_eq!(td_status(None, 1000), None);
}

#[test]
fn pool_descriptors_are_set_up_in_place() {
    let mut pool = td_pool();
    let (_, index) = td_alloc(Some(&mut pool), 0).unwrap();
    let (_, other) = td_alloc(Some(&mut pool), 0).unwrap();
    init_td(Some(&mut pool), other, 0, 0x100, 0, 5, 3, 1, 0x69, 8, 0x200);
    assert_eq!(td_link_pointer(Some(&pool), other), Some(0x100));
    assert_eq!(td_status(Some(&pool), other), Some(0x1880_0000));
    assert_eq!(td_token(Some(&pool), other), Some(0x00E9_8569));
    assert_eq!(pool[other].buffer_point.read(), 0x200);
    assert_eq!(pool[other].active.read(), 1);
    assert_eq!(td_link_pointer(Some(&pool), index), Some(0));
    assert_eq!(td_token(Some(&pool), index), Some(0));

    interrupt_td(Some(&mut pool), index, 1, 0x100, 1, 5, 3, 1, 0x69, 8, 0x200);
    assert_eq!(td_link_pointer(Some(&pool), index), Some(0x102));
    assert_eq!(td_status(Some(&pool), index), Some(0x1D80_0000));
    assert_eq!(td_token(Some(&pool), index), Some(0x00E9_8569));
    assert_eq!(pool[index].active.read(), 1);
}

#[test]
fn cleaning_sets_all_words_to_zero() {
    let mut pool = td_pool();
    for cell in [
        &mut pool[7].link_pointer,
        &mut pool[7].control_status,
        &mut pool[7].token,
        &mut pool[7].buffer_point,
        &mut pool[7].active,
    ] {
        cell.write(0xFFFF_FFFF);
    }
    pool[8].token.write(4);
    td_clean(Some(&mut pool), 7);
    assert_eq!(td_link_pointer(Some(&pool), 7), Some(0));
    assert_eq!(td_status(Some(&pool), 7), Some(0));
    assert_eq!(td_token(Some(&pool), 7), Some(0));
    assert_eq!(pool[7].buffer_point.read(), 0);
    assert_eq!(pool[7].active.read(), 0);
    assert_eq!(td_token(Some(&pool), 8), Some(4));
}

#[test]
fn linking_descriptors() {
    let mut pool = td_pool();
    td_link(Some(&mut pool), 3, 1, 0x5000);
    assert_eq!(td_link_pointer(Some(&pool), 3), Some(0x5002));
    td_link(Some(&mut pool), 3, 0, 0x5000);
    assert_eq!(td_link_pointer(Some(&pool), 3), Some(0x5000));
    td_link(Some(&mut pool), 3, 0, 0);
    assert_eq!(td_link_pointer(Some(&pool), 3), Some(0));
    td_link_vf(Some(&mut pool), 3, 0, 0x5000);
    assert_eq!(td_link_pointer(Some(&pool), 3), Some(0x5004));
    td_link_vf(Some(&mut pool), 3, 1, 0x5000);
    assert_eq!(td_link_pointer(Some(&pool), 3), Some(0x5006));
    assert_eq!(pool[3].next_pointer(), 0x5000);
}

#[test]
fn qh_alloc_takes_the_first_free_one() {
    let mut pool = qh_pool();
    pool[0].active.write(2);
    for index in 1..MAX_QH {
        assert_eq!(qh_alloc(Some(&mut pool), 0x1000), Some((0x1000 + index * 16, index)));
    }
    assert_eq!(qh_alloc(Some(&mut pool), 0x1000), None);
    assert_eq!(pool[0].active.read(), 2);
    assert_eq!(pool[15].active.read(), 1);
}

#[test]
fn queue_heads_are_linked() {
    let mut pool = qh_pool();
    assert_eq!(qh_alloc(Some(&mut pool), 0), Some((0, 0)));
    init_qh(Some(&mut pool), 0, 0x11, 0x22);
    assert_eq!(qh_pointers(Some(&pool), 0), Some((0x22, 0x11)));
    assert_eq!(qh_pointers(Some(&pool), 1), Some((0, 0)));
    assert_eq!(pool[0].active.read(), 1);
    assert_eq!(qh_alloc(Some(&mut pool), 0), Some((16, 1)));
}

#[test]
fn qh_functions_without_a_pool() {
    assert_eq!(qh_alloc(None, 0), None);
    init_qh(None, 1000, 1, 1);
    assert_eq!(qh_pointers(None, 1000), None);
}

#[test]
fn allowed_pids_have_complementary_halves() {
    let mut td = td();
    for pid in [usb_uhci::td::PID_IN, usb_uhci::td::PID_OUT, usb_uhci::td::PID_SETUP] {
        td.init(0, 0, 0, 9, 9, 1, pid, 9, 0);
        let (high, low) = td.read_pid();
        assert_eq!(high / 16 + low, 15);
        assert_eq!((high | low) as u32, pid);
    }
}

#[test]
fn giving_back_undoes_taking() {
    let mut pool = td_pool();
    let (_, index) = td_alloc(Some(&mut pool), 0x4000).unwrap();
    td_clean(Some(&mut pool), index);
    for td in pool.iter() {
        assert_eq!(td.active.read(), 0);
        assert_eq!(td.link_pointer.read(), 0);
    }
    assert_eq!(td_alloc(Some(&mut pool), 0x4000), Some((0x4000, 0)));
}
