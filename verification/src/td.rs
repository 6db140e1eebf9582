//! Transfer descriptors: the words that describe one USB transaction to the controller,
//! and the pool that they are taken from.

use crate::cell::{read_cell, write_cell};
use volatile::Volatile;
use vstd::prelude::*;

verus! {

/// Link pointer: there is nothing behind this one.
pub const TD_PTR_TERMINATE: u32 = 0x1;

/// Link pointer: what follows is a queue head.
pub const TD_PTR_QH: u32 = 0x2;

/// Link pointer: follow the link before going on with the next queue.
pub const TD_PTR_DEPTH: u32 = 0x4;

/// Link pointer: the bits that hold the address of the next structure.
pub const TD_PTR_ADDRESS_MASK: u32 = 0xffff_fff0;

/// Control and status: the transaction is still to be executed.
pub const TD_CS_ACTIVE: u32 = 0x0080_0000;

/// Control and status: interrupt when the transaction completes.
pub const TD_CS_IOC: u32 = 0x0100_0000;

/// Control and status: the device is a low speed device.
pub const TD_CS_LOW_SPEED: u32 = 0x0400_0000;

/// Control and status: three errors are allowed before the transaction is given up.
pub const TD_CS_THREE_ERRORS: u32 = 0x1800_0000;

/// Token: the packet identification.
pub const TD_TOK_PID_MASK: u32 = 0xff;

/// Token: the device address.
pub const TD_TOK_DEVADDR_MASK: u32 = 0x7f00;

pub const TD_TOK_DEVADDR_SHIFT: u32 = 8;

/// Token: the endpoint number.
pub const TD_TOK_ENDP_MASK: u32 = 0x7_8000;

pub const TD_TOK_ENDP_SHIFT: u32 = 15;

/// Token: the data toggle.
pub const TD_TOK_D_SHIFT: u32 = 19;

/// Token: the maximum length.
pub const TD_TOK_MAXLEN_SHIFT: u32 = 21;

/// The number of transfer descriptors in the pool.
pub const MAX_TD: usize = 64;

/// The number of bytes that a transfer descriptor takes up in the pool.
pub const TD_BYTES: usize = 32;

/// A transfer descriptor as it lies in memory.
pub struct UhciTDRegisters {
    pub link_pointer: Volatile<u32>,
    pub control_status: Volatile<u32>,
    pub token: Volatile<u32>,
    pub buffer_point: Volatile<u32>,
    /// Not part of what the controller reads: nonzero while the descriptor is in use.
    pub active: Volatile<u32>,
    pub _padding_1: [u32; 3],
}

/// What a transfer descriptor holds.
pub struct Descriptor {
    pub link_pointer: u32,
    pub control_status: u32,
    pub token: u32,
    pub buffer_point: u32,
    pub active: u32,
    pub padding: [u32; 3],
}

impl View for UhciTDRegisters {
    type V = Descriptor;

    open spec fn view(&self) -> Descriptor {
        Descriptor {
            link_pointer: crate::cell::cell_value(self.link_pointer),
            control_status: crate::cell::cell_value(self.control_status),
            token: crate::cell::cell_value(self.token),
            buffer_point: crate::cell::cell_value(self.buffer_point),
            active: crate::cell::cell_value(self.active),
            padding: self._padding_1,
        }
    }
}

/// What the descriptors of a pool hold.
pub open spec fn descriptors(pool: [UhciTDRegisters; MAX_TD]) -> Seq<Descriptor> {
    pool@.map_values(|td: UhciTDRegisters| td@)
}

/// The link to the structure at `pointer`: a queue head where `type_select` is 1, else a
/// transfer descriptor.
pub open spec fn link_word(type_select: u8, pointer: u32) -> u32 {
    if type_select == 1 {
        pointer | TD_PTR_QH
    } else {
        pointer
    }
}

/// The link of a fresh descriptor: address 0 stands for "nothing behind this one".
pub open spec fn first_link_word(type_select: u8, pointer: u32) -> u32 {
    if pointer == 0 {
        TD_PTR_TERMINATE
    } else {
        link_word(type_select, pointer)
    }
}

/// The control and status word of a transaction that is still to be executed.
pub open spec fn control_word(speed: u8) -> u32 {
    if speed == crate::device::USB_LOW_SPEED {
        TD_CS_THREE_ERRORS | TD_CS_ACTIVE | TD_CS_LOW_SPEED
    } else {
        TD_CS_THREE_ERRORS | TD_CS_ACTIVE
    }
}

/// The maximum length field: one less than the number of bytes, and 0 for no bytes.
pub open spec fn length_field(data_size: u32) -> u32 {
    if data_size == 0 {
        0
    } else {
        (data_size - 1) as u32
    }
}

/// The token word: maximum length, data toggle, endpoint, device address and packet
/// identification, each shifted to its place.
pub open spec fn token_word(add: u32, endp: u32, toggle: u32, pid: u32, data_size: u32) -> u32 {
    (length_field(data_size) << TD_TOK_MAXLEN_SHIFT) | (toggle << TD_TOK_D_SHIFT) | (endp
        << TD_TOK_ENDP_SHIFT) | (add << TD_TOK_DEVADDR_SHIFT) | pid
}

/// A descriptor set up for one transaction; whether it is in use stays as it was.
pub open spec fn prepared(
    before: Descriptor,
    type_select: u8,
    pointer: u32,
    speed: u8,
    add: u32,
    endp: u32,
    toggle: u32,
    pid: u32,
    data_size: u32,
    data_add: u32,
) -> Descriptor {
    Descriptor {
        link_pointer: first_link_word(type_select, pointer),
        control_status: control_word(speed),
        token: token_word(add, endp, toggle, pid, data_size),
        buffer_point: data_add,
        active: before.active,
        padding: before.padding,
    }
}

/// The address in a link word: all but its four low bits.
pub open spec fn link_address(link: u32) -> int {
    link - link % 16
}

/// The endpoint's number in a token word: bits 18 to 15.
pub open spec fn endpoint_field(token: u32) -> int {
    (token as int / 0x8000) % 16
}

/// The device's address in a token word: bits 14 to 8.
pub open spec fn address_field(token: u32) -> int {
    (token as int / 0x100) % 128
}

/// The packet identification in a token word: bits 7 to 0.
pub open spec fn pid_field(token: u32) -> int {
    token as int % 256
}

/// A descriptor whose completion raises an interrupt.
pub open spec fn with_interrupt(td: Descriptor) -> Descriptor {
    Descriptor { control_status: td.control_status | TD_CS_IOC, ..td }
}

/// A descriptor with all its words 0.
pub open spec fn cleaned(td: Descriptor) -> Descriptor {
    Descriptor {
        link_pointer: 0,
        control_status: 0,
        token: 0,
        buffer_point: 0,
        active: 0,
        padding: td.padding,
    }
}

/// A descriptor with another link.
pub open spec fn linked(td: Descriptor, link: u32) -> Descriptor {
    Descriptor { link_pointer: link, ..td }
}

/// What taking a descriptor does: the first one that is not in use is marked as used and
/// handed out; where all are in use, there is none and nothing changes.
pub open spec fn td_taken(
    before: Seq<Descriptor>,
    after: Seq<Descriptor>,
    base: usize,
    taken: Option<(usize, usize)>,
) -> bool {
    match taken {
        Some((address, index)) => {
            &&& index < before.len()
            &&& before[index as int].active == 0
            &&& forall|j: int| 0 <= j < index ==> (#[trigger] before[j]).active != 0
            &&& address == base + index * TD_BYTES
            &&& after == before.update(
                index as int,
                Descriptor { active: 1, ..before[index as int] },
            )
        },
        None => {
            &&& forall|j: int| 0 <= j < before.len() ==> (#[trigger] before[j]).active != 0
            &&& after == before
        },
    }
}

impl UhciTDRegisters {
    /// Sets the descriptor up for one transaction.
    ///
    /// * `type_select`: 1 where the link leads to a queue head, 0 where it leads to a
    ///   transfer descriptor
    /// * `pointer`: the address of the next structure, 0 where there is none
    /// * `speed`: the device's speed
    /// * `add`: the address that the host gave the device
    /// * `endp`: the endpoint's number
    /// * `toggle`: the data toggle, which keeps host and endpoint in step
    /// * `pid`: the packet identification: IN (69h), OUT (E1h) or SETUP (2Dh)
    /// * `data_size`: the largest number of data bytes to be transferred
    /// * `data_add`: the address of the data
    pub fn init(
        &mut self,
        type_select: u8,
        pointer: u32,
        speed: u8,
        add: u32,
        endp: u32,
        toggle: u32,
        pid: u32,
        data_size: u32,
        data_add: u32,
    )
        ensures
            final(self)@ == prepared(
                old(self)@,
                type_select,
                pointer,
                speed,
                add,
                endp,
                toggle,
                pid,
                data_size,
                data_add,
            ),
    {
        let size: u32 = if data_size == 0 {
            data_size
        } else {
            data_size - 1
        };
        let token: u32 = (size << TD_TOK_MAXLEN_SHIFT) | (toggle << TD_TOK_D_SHIFT) | (endp
            << TD_TOK_ENDP_SHIFT) | (add << TD_TOK_DEVADDR_SHIFT) | pid;
        let mut cs: u32 = TD_CS_THREE_ERRORS | TD_CS_ACTIVE;
        if speed == crate::device::USB_LOW_SPEED {
            cs = cs | TD_CS_LOW_SPEED;
        }
        if pointer == 0 {
            write_cell(&mut self.link_pointer, TD_PTR_TERMINATE);
        } else if type_select == 1 {
            write_cell(&mut self.link_pointer, pointer | TD_PTR_QH);
        } else {
            write_cell(&mut self.link_pointer, pointer);
        }
        write_cell(&mut self.control_status, cs);
        write_cell(&mut self.token, token);
        write_cell(&mut self.buffer_point, data_add);
    }

    /// The address of the structure that the link leads to.
    pub fn next_pointer(&self) -> (pointer: usize)
        ensures
            pointer == link_address(self@.link_pointer),
    {
        let link: u32 = read_cell(&self.link_pointer);
        assert(link & 0xffff_fff0 == link - link % 16) by (bit_vector);
        (link & TD_PTR_ADDRESS_MASK) as usize
    }

    /// The address of the data.
    pub fn read_buffer_pointer(&self) -> (pointer: usize)
        ensures
            pointer == self@.buffer_point,
    {
        read_cell(&self.buffer_point) as usize
    }

    /// The endpoint's number.
    pub fn read_endp(&self) -> (num: u8)
        ensures
            num == endpoint_field(self@.token),
    {
        let token: u32 = read_cell(&self.token);
        assert((token & 0x7_8000) >> 15 == (token / 0x8000) % 16) by (bit_vector);
        ((token & TD_TOK_ENDP_MASK) >> TD_TOK_ENDP_SHIFT) as u8
    }

    /// The device's address.
    pub fn read_address(&self) -> (add: u8)
        ensures
            add == address_field(self@.token),
    {
        let token: u32 = read_cell(&self.token);
        assert((token & 0x7f00) >> 8 == (token / 0x100) % 128) by (bit_vector);
        ((token & TD_TOK_DEVADDR_MASK) >> TD_TOK_DEVADDR_SHIFT) as u8
    }

    /// The packet identification: its bits 7 to 4, and its bits 3 to 0, each where they
    /// stand in it.
    pub fn read_pid(&self) -> (halves: (u8, u8))
        ensures
            halves.0 == pid_field(self@.token) - pid_field(self@.token) % 16,
            halves.1 == pid_field(self@.token) % 16,
    {
        let token: u32 = read_cell(&self.token);
        assert(token & 0xff == token % 256) by (bit_vector);
        let pid: u8 = (token & TD_TOK_PID_MASK) as u8;
        assert(pid & 0xF0 == pid - pid % 16 && pid & 0xF == pid % 16) by (bit_vector);
        (pid & 0xF0, pid & 0xF)
    }
}

/// Takes the first free descriptor of the pool and marks it as used. Gives its address
/// and its index; `base` is the address of the pool. There is nothing to take from a pool
/// that is not set up.
pub fn td_alloc(td_pool: Option<&mut [UhciTDRegisters; MAX_TD]>, base: usize) -> (taken: Option<
    (usize, usize),
>)
    requires
        base + MAX_TD * TD_BYTES - 1 <= usize::MAX,
    ensures
        match td_pool {
            Some(pool) => td_taken(descriptors(*pool), descriptors(*final(pool)), base, taken),
            None => taken is None,
        },
{
    match td_pool {
        Some(pool) => {
            let mut index: usize = 0;
            while index < MAX_TD && read_cell(&pool[index].active) != 0
                invariant
                    index <= MAX_TD,
                    forall|j: int| 0 <= j < index ==> (#[trigger] pool@[j])@.active != 0,
                ensures
                    index < MAX_TD ==> pool@[index as int]@.active == 0,
                decreases MAX_TD - index,
            {
                index += 1;
            }
            let ghost before = descriptors(*pool);
            if index < MAX_TD {
                write_cell(&mut pool[index].active, 1);
                proof {
                    let taken = Descriptor { active: 1, ..before[index as int] };
                    assert(descriptors(*pool) =~= before.update(index as int, taken));
                }
                Some((base + index * TD_BYTES, index))
            } else {
                None
            }
        },
        None => None,
    }
}

/// Sets the descriptor at `index` up for one transaction, as [`UhciTDRegisters::init`]
/// does. Does nothing to a pool that is not set up.
pub fn init_td(
    td_pool: Option<&mut [UhciTDRegisters; MAX_TD]>,
    index: usize,
    type_select: u8,
    pointer: u32,
    speed: u8,
    add: u32,
    endp: u32,
    toggle: u32,
    pid: u32,
    data_size: u32,
    data_add: u32,
)
    requires
        td_pool is Some ==> index < MAX_TD,
    ensures
        match td_pool {
            Some(pool) => descriptors(*final(pool)) == descriptors(*pool).update(
                index as int,
                prepared(
                    descriptors(*pool)[index as int],
                    type_select,
                    pointer,
                    speed,
                    add,
                    endp,
                    toggle,
                    pid,
                    data_size,
                    data_add,
                ),
            ),
            None => true,
        },
{
    match td_pool {
        Some(pool) => {
            let ghost before = descriptors(*pool);
            pool[index].init(
                type_select,
                pointer,
                speed,
                add,
                endp,
                toggle,
                pid,
                data_size,
                data_add,
            );
            assert(descriptors(*pool) =~= before.update(index as int, pool@[index as int]@));
        },
        None => {},
    }
}

/// Sets the descriptor at `index` up for one transaction whose completion raises an
/// interrupt. Does nothing to a pool that is not set up.
pub fn interrupt_td(
    td_pool: Option<&mut [UhciTDRegisters; MAX_TD]>,
    index: usize,
    type_select: u8,
    pointer: u32,
    speed: u8,
    add: u32,
    endp: u32,
    toggle: u32,
    pid: u32,
    data_size: u32,
    data_add: u32,
)
    requires
        td_pool is Some ==> index < MAX_TD,
    ensures
        match td_pool {
            Some(pool) => descriptors(*final(pool)) == descriptors(*pool).update(
                index as int,
                with_interrupt(prepared(
                    descriptors(*pool)[index as int],
                    type_select,
                    pointer,
                    speed,
                    add,
                    endp,
                    toggle,
                    pid,
                    data_size,
                    data_add,
                )),
            ),
            None => true,
        },
{
    match td_pool {
        Some(pool) => {
            let ghost before = descriptors(*pool);
            pool[index].init(
                type_select,
                pointer,
                speed,
                add,
                endp,
                toggle,
                pid,
                data_size,
                data_add,
            );
            let status: u32 = read_cell(&pool[index].control_status);
            write_cell(&mut pool[index].control_status, status | TD_CS_IOC);
            assert(descriptors(*pool) =~= before.update(index as int, pool@[index as int]@));
        },
        None => {},
    }
}

/// Gives the descriptor at `index` back: all its words become 0, so it is free again. Does
/// nothing to a pool that is not set up.
pub fn td_clean(td_pool: Option<&mut [UhciTDRegisters; MAX_TD]>, index: usize)
    requires
        td_pool is Some ==> index < MAX_TD,
    ensures
        match td_pool {
            Some(pool) => descriptors(*final(pool)) == descriptors(*pool).update(
                index as int,
                cleaned(descriptors(*pool)[index as int]),
            ),
            None => true,
        },
{
    match td_pool {
        Some(pool) => {
            let ghost before = descriptors(*pool);
            write_cell(&mut pool[index].control_status, 0);
            write_cell(&mut pool[index].token, 0);
            write_cell(&mut pool[index].link_pointer, 0);
            write_cell(&mut pool[index].buffer_point, 0);
            write_cell(&mut pool[index].active, 0);
            assert(descriptors(*pool) =~= before.update(index as int, pool@[index as int]@));
        },
        None => {},
    }
}

/// Links the descriptor at `index` to the structure at `pointer`: a queue head where
/// `type_select` is 1, else a transfer descriptor. Does nothing to a pool that is not set
/// up.
pub fn td_link(
    td_pool: Option<&mut [UhciTDRegisters; MAX_TD]>,
    index: usize,
    type_select: u8,
    pointer: u32,
)
    requires
        td_pool is Some ==> index < MAX_TD,
    ensures
        match td_pool {
            Some(pool) => descriptors(*final(pool)) == descriptors(*pool).update(
                index as int,
                linked(descriptors(*pool)[index as int], link_word(type_select, pointer)),
            ),
            None => true,
        },
{
    match td_pool {
        Some(pool) => {
            let ghost before = descriptors(*pool);
            if type_select == 1 {
                write_cell(&mut pool[index].link_pointer, pointer | TD_PTR_QH);
            } else {
                write_cell(&mut pool[index].link_pointer, pointer);
            }
            assert(descriptors(*pool) =~= before.update(index as int, pool@[index as int]@));
        },
        None => {},
    }
}

/// Links the descriptor at `index` as [`td_link`] does, and has the controller follow this
/// link before it goes on with the next queue.
pub fn td_link_vf(
    td_pool: Option<&mut [UhciTDRegisters; MAX_TD]>,
    index: usize,
    type_select: u8,
    pointer: u32,
)
    requires
        td_pool is Some ==> index < MAX_TD,
    ensures
        match td_pool {
            Some(pool) => descriptors(*final(pool)) == descriptors(*pool).update(
                index as int,
                linked(
                    descriptors(*pool)[index as int],
                    link_word(type_select, pointer | TD_PTR_DEPTH),
                ),
            ),
            None => true,
        },
{
    let vf_pointer: u32 = pointer | TD_PTR_DEPTH;
    td_link(td_pool, index, type_select, vf_pointer)
}

/// The link of the descriptor at `index`, if the pool is set up.
pub fn td_link_pointer(td_pool: Option<&[UhciTDRegisters; MAX_TD]>, index: usize) -> (word:
    Option<u32>)
    requires
        td_pool is Some ==> index < MAX_TD,
    ensures
        word == match td_pool {
            Some(pool) => Some(descriptors(*pool)[index as int].link_pointer),
            None => None,
        },
{
    match td_pool {
        Some(pool) => Some(read_cell(&pool[index].link_pointer)),
        None => None,
    }
}

/// The token of the descriptor at `index`, if the pool is set up.
pub fn td_token(td_pool: Option<&[UhciTDRegisters; MAX_TD]>, index: usize) -> (word: Option<u32>)
    requires
        td_pool is Some ==> index < MAX_TD,
    ensures
        word == match td_pool {
            Some(pool) => Some(descriptors(*pool)[index as int].token),
            None => None,
        },
{
    match td_pool {
        Some(pool) => Some(read_cell(&pool[index].token)),
        None => None,
    }
}

/// The control and status word of the descriptor at `index`, if the pool is set up.
pub fn td_status(td_pool: Option<&[UhciTDRegisters; MAX_TD]>, index: usize) -> (word: Option<u32>)
    requires
        td_pool is Some ==> index < MAX_TD,
    ensures
        word == match td_pool {
            Some(pool) => Some(descriptors(*pool)[index as int].control_status),
            None => None,
        },
{
    match td_pool {
        Some(pool) => Some(read_cell(&pool[index].control_status)),
        None => None,
    }
}

/// The data toggle in a token word: bit 19.
pub open spec fn toggle_field(token: u32) -> int {
    (token as int / 0x8_0000) % 2
}

/// The maximum length in a token word: bits 31 to 21.
pub open spec fn maxlen_field(token: u32) -> int {
    token as int / 0x20_0000
}

/// What a descriptor is set up with can be read back from its token, as long as every
/// value fits into its field.
pub proof fn law_token_reads_back(add: u32, endp: u32, toggle: u32, pid: u32, data_size: u32)
    requires
        add < 128,
        endp < 16,
        toggle < 2,
        pid < 256,
        data_size <= 2048,
    ensures
        address_field(token_word(add, endp, toggle, pid, data_size)) == add,
        endpoint_field(token_word(add, endp, toggle, pid, data_size)) == endp,
        toggle_field(token_word(add, endp, toggle, pid, data_size)) == toggle,
        pid_field(token_word(add, endp, toggle, pid, data_size)) == pid,
        maxlen_field(token_word(add, endp, toggle, pid, data_size)) == length_field(data_size),
        data_size > 0 ==> maxlen_field(token_word(add, endp, toggle, pid, data_size)) + 1
            == data_size,
{
    let size = length_field(data_size);
    let token = token_word(add, endp, toggle, pid, data_size);
    assert(token == (size << 21u32) | (toggle << 19u32) | (endp << 15u32) | (add << 8u32) | pid);
    assert(token % 256 == pid && (token / 0x100) % 128 == add && (token / 0x8000) % 16 == endp && (
    token / 0x8_0000) % 2 == toggle && token / 0x20_0000 == size) by (bit_vector)
        requires
            token == (size << 21u32) | (toggle << 19u32) | (endp << 15u32) | (add << 8u32) | pid,
            add < 128,
            endp < 16,
            toggle < 2,
            pid < 256,
            size < 2048,
    ;
}

/// The packet identification of an IN transaction.
pub const PID_IN: u32 = 0x69;

/// The packet identification of an OUT transaction.
pub const PID_OUT: u32 = 0xE1;

/// The packet identification of a SETUP transaction.
pub const PID_SETUP: u32 = 0x2D;

/// The two halves of every packet identification that is allowed are each other's
/// complement, also when they are read back from a token.
pub proof fn law_pid_halves_are_complements(
    add: u32,
    endp: u32,
    toggle: u32,
    pid: u32,
    data_size: u32,
)
    requires
        add < 128,
        endp < 16,
        toggle < 2,
        pid == PID_IN || pid == PID_OUT || pid == PID_SETUP,
        data_size <= 2048,
    ensures
        pid_field(token_word(add, endp, toggle, pid, data_size)) / 16 + pid_field(
            token_word(add, endp, toggle, pid, data_size),
        ) % 16 == 15,
{
    law_token_reads_back(add, endp, toggle, pid, data_size);
}

/// A transaction is set up as still to be executed, as one of a low speed device exactly if
/// the device is one, and without an interrupt; adding the interrupt changes nothing else.
pub proof fn law_control_word_flags(speed: u8, td: Descriptor)
    requires
        td.control_status == control_word(speed),
    ensures
        td.control_status & TD_CS_ACTIVE != 0,
        td.control_status & TD_CS_LOW_SPEED != 0 <==> speed == crate::device::USB_LOW_SPEED,
        td.control_status & TD_CS_IOC == 0,
        with_interrupt(td).control_status & TD_CS_IOC != 0,
        with_interrupt(td).control_status & !TD_CS_IOC == td.control_status,
{
    let cs = td.control_status;
    let low = speed == crate::device::USB_LOW_SPEED;
    assert({
        &&& cs & 0x0080_0000 != 0
        &&& (cs & 0x0400_0000 != 0 <==> low)
        &&& cs & 0x0100_0000 == 0
        &&& (cs | 0x0100_0000) & 0x0100_0000 != 0
        &&& (cs | 0x0100_0000) & !0x0100_0000u32 == cs
    }) by (bit_vector)
        requires
            low ==> cs == 0x1800_0000u32 | 0x0080_0000 | 0x0400_0000,
            !low ==> cs == 0x1800_0000u32 | 0x0080_0000,
    ;
}

/// A link leads to the address that it was made with, whatever it leads to and in
/// whichever order it is followed, as long as the address leaves the four low bits free.
pub proof fn law_link_reads_back(type_select: u8, pointer: u32)
    requires
        pointer % 16 == 0,
    ensures
        link_address(link_word(type_select, pointer)) == pointer,
        link_address(link_word(type_select, pointer | TD_PTR_DEPTH)) == pointer,
        link_address(first_link_word(type_select, pointer)) == pointer,
        link_word(type_select, pointer) & TD_PTR_QH != 0 <==> type_select == 1,
        link_word(type_select, pointer) & TD_PTR_TERMINATE == 0,
        first_link_word(type_select, pointer) & TD_PTR_TERMINATE != 0 <==> pointer == 0,
{
    assert({
        &&& (pointer | 2) - (pointer | 2) % 16 == pointer
        &&& (pointer | 4) - (pointer | 4) % 16 == pointer
        &&& ((pointer | 4) | 2) - ((pointer | 4) | 2) % 16 == pointer
        &&& (pointer | 2) & 2 != 0
        &&& pointer & 2 == 0
        &&& (pointer | 2) & 1 == 0
        &&& pointer & 1 == 0
        &&& 1u32 & 1 != 0
    }) by (bit_vector)
        requires
            pointer % 16 == 0,
    ;
}

/// The address of a descriptor can be linked to: in a pool whose address leaves the four
/// low bits free, so does the address of every descriptor handed out, and the descriptors
/// of two indices do not overlap.
pub proof fn law_addresses_are_apart(
    before: Seq<Descriptor>,
    after: Seq<Descriptor>,
    base: usize,
    taken: (usize, usize),
    other: int,
)
    requires
        before.len() == MAX_TD,
        base % 16 == 0,
        td_taken(before, after, base, Some(taken)),
        0 <= other < MAX_TD,
        other != taken.1,
    ensures
        taken.0 % 16 == 0,
        base <= taken.0,
        taken.0 + TD_BYTES <= base + MAX_TD * TD_BYTES,
        taken.0 + TD_BYTES <= base + other * TD_BYTES || base + other * TD_BYTES + TD_BYTES
            <= taken.0,
{
}

/// A descriptor that is in use is not handed out, and stays as it is.
pub proof fn law_used_is_not_taken(
    before: Seq<Descriptor>,
    after: Seq<Descriptor>,
    base: usize,
    taken: (usize, usize),
    index: int,
)
    requires
        0 <= index < before.len(),
        before[index].active != 0,
        td_taken(before, after, base, Some(taken)),
    ensures
        taken.1 != index,
        after[index] == before[index],
{
}

/// Two descriptors taken one after the other are two: neither their indices nor their
/// addresses are the same.
pub proof fn law_taken_twice_differs(
    first: Seq<Descriptor>,
    second: Seq<Descriptor>,
    third: Seq<Descriptor>,
    base: usize,
    a: (usize, usize),
    b: (usize, usize),
)
    requires
        td_taken(first, second, base, Some(a)),
        td_taken(second, third, base, Some(b)),
    ensures
        a.1 != b.1,
        a.0 != b.0,
{
}

/// Setting a descriptor up, adding its interrupt or linking it leaves it in use, or free,
/// as it was.
pub proof fn law_setting_up_keeps_use(
    td: Descriptor,
    link: u32,
    type_select: u8,
    pointer: u32,
    speed: u8,
    add: u32,
    endp: u32,
    toggle: u32,
    pid: u32,
    data_size: u32,
    data_add: u32,
)
    ensures
        prepared(
            td,
            type_select,
            pointer,
            speed,
            add,
            endp,
            toggle,
            pid,
            data_size,
            data_add,
        ).active == td.active,
        with_interrupt(td).active == td.active,
        linked(td, link).active == td.active,
{
}

/// After a descriptor has been given back, one can be taken: this one or an earlier one.
pub proof fn law_cleaned_can_be_taken(
    before: Seq<Descriptor>,
    index: int,
    after: Seq<Descriptor>,
    base: usize,
    taken: Option<(usize, usize)>,
)
    requires
        0 <= index < before.len(),
        td_taken(before.update(index, cleaned(before[index])), after, base, taken),
    ensures
        taken matches Some((_, taken_index)) && taken_index <= index,
{
    let cleaned_pool = before.update(index, cleaned(before[index]));
    assert(cleaned_pool[index].active == 0);
}

/// Giving a descriptor back undoes taking it: a pool in which it was blank is as it was.
pub proof fn law_cleaning_undoes_taking(
    before: Seq<Descriptor>,
    after: Seq<Descriptor>,
    base: usize,
    taken: (usize, usize),
)
    requires
        td_taken(before, after, base, Some(taken)),
        before[taken.1 as int] == cleaned(before[taken.1 as int]),
    ensures
        after.update(taken.1 as int, cleaned(after[taken.1 as int])) == before,
{
    assert(after.update(taken.1 as int, cleaned(after[taken.1 as int])) =~= before);
}

/// The number of descriptors that are not in use.
pub open spec fn free_count(tds: Seq<Descriptor>) -> nat
    decreases tds.len(),
{
    if tds.len() == 0 {
        0
    } else {
        free_count(tds.drop_last()) + (if tds.last().active == 0 {
            1nat
        } else {
            0
        })
    }
}

proof fn lemma_free_count_update(tds: Seq<Descriptor>, index: int, td: Descriptor)
    requires
        0 <= index < tds.len(),
    ensures
        free_count(tds.update(index, td)) + (if tds[index].active == 0 {
            1int
        } else {
            0
        }) == free_count(tds) + (if td.active == 0 {
            1int
        } else {
            0
        }),
    decreases tds.len(),
{
    let updated = tds.update(index, td);
    if index == tds.len() - 1 {
        assert(updated.drop_last() =~= tds.drop_last());
    } else {
        lemma_free_count_update(tds.drop_last(), index, td);
        assert(updated.drop_last() =~= tds.drop_last().update(index, td));
    }
}

proof fn lemma_free_count_none(tds: Seq<Descriptor>)
    ensures
        free_count(tds) == 0 <==> forall|j: int|
            0 <= j < tds.len() ==> (#[trigger] tds[j]).active != 0,
    decreases tds.len(),
{
    if tds.len() > 0 {
        let front = tds.drop_last();
        lemma_free_count_none(front);
        assert(forall|j: int| 0 <= j < front.len() ==> front[j] == tds[j]);
        if forall|j: int| 0 <= j < front.len() ==> (#[trigger] front[j]).active != 0 {
            assert forall|j: int| 0 <= j < tds.len() && tds.last().active != 0 implies (
            #[trigger] tds[j]).active != 0 by {
                if j < front.len() {
                    assert(front[j].active != 0);
                }
            }
        } else {
            let j = choose|j: int| 0 <= j < front.len() && (#[trigger] front[j]).active == 0;
            assert(tds[j].active == 0);
        }
    }
}

/// Taking succeeds exactly as long as a descriptor is free, and uses up one of them.
pub proof fn law_taking_counts_down(
    before: Seq<Descriptor>,
    after: Seq<Descriptor>,
    base: usize,
    taken: Option<(usize, usize)>,
)
    requires
        td_taken(before, after, base, taken),
    ensures
        taken is Some <==> free_count(before) > 0,
        taken is Some ==> free_count(after) == free_count(before) - 1,
        taken is None ==> free_count(after) == 0,
{
    lemma_free_count_none(before);
    match taken {
        Some((_, index)) => {
            lemma_free_count_update(
                before,
                index as int,
                Descriptor { active: 1, ..before[index as int] },
            );
        },
        None => {},
    }
}

/// Giving back a descriptor that is in use makes one more free.
pub proof fn law_cleaning_counts_up(before: Seq<Descriptor>, index: int)
    requires
        0 <= index < before.len(),
        before[index].active != 0,
    ensures
        free_count(before.update(index, cleaned(before[index]))) == free_count(before) + 1,
{
    lemma_free_count_update(before, index, cleaned(before[index]));
}

/// What a descriptor holds is what its words hold, each under its own name.
pub proof fn law_descriptor_is_its_words(td: UhciTDRegisters)
    ensures
        td@.link_pointer == crate::cell::cell_value(td.link_pointer),
        td@.control_status == crate::cell::cell_value(td.control_status),
        td@.token == crate::cell::cell_value(td.token),
        td@.buffer_point == crate::cell::cell_value(td.buffer_point),
        td@.active == crate::cell::cell_value(td.active),
        td@.padding == td._padding_1,
{
}

/// The pool's descriptors are its 64 elements, one for one.
pub proof fn law_pool_is_its_descriptors(pool: [UhciTDRegisters; MAX_TD], index: int)
    requires
        0 <= index < 64,
    ensures
        descriptors(pool).len() == 64,
        descriptors(pool)[index] == pool@[index]@,
{
}

/// Whatever the transaction, a descriptor that is set up for it points to the data that it
/// was given, and stays in use, or free, as it was.
pub proof fn law_prepared_points_to_data(
    before: Descriptor,
    type_select: u8,
    pointer: u32,
    speed: u8,
    add: u32,
    endp: u32,
    toggle: u32,
    pid: u32,
    data_size: u32,
    data_add: u32,
)
    ensures
        ({
            let td = prepared(
                before,
                type_select,
                pointer,
                speed,
                add,
                endp,
                toggle,
                pid,
                data_size,
                data_add,
            );
            &&& td.buffer_point == data_add
            &&& td.active == before.active
            &&& td.padding == before.padding
        }),
{
}

/// The link of a descriptor that is set up: only the terminate bit where there is no next
/// structure; else the pointer, in which nothing but the queue head bit is changed, and
/// that bit is set exactly if a queue head follows or the pointer has it.
pub proof fn law_prepared_link(
    before: Descriptor,
    type_select: u8,
    pointer: u32,
    speed: u8,
    add: u32,
    endp: u32,
    toggle: u32,
    pid: u32,
    data_size: u32,
    data_add: u32,
)
    ensures
        ({
            let link = prepared(
                before,
                type_select,
                pointer,
                speed,
                add,
                endp,
                toggle,
                pid,
                data_size,
                data_add,
            ).link_pointer;
            &&& pointer == 0 ==> link == 1
            &&& pointer != 0 ==> link & !2u32 == pointer & !2u32
            &&& pointer != 0 ==> (link & 2 != 0 <==> type_select == 1 || pointer & 2 != 0)
        }),
{
    law_link_keeps_pointer(type_select, pointer);
}

/// A link is the pointer, in which nothing but the queue head bit is changed; that bit is
/// set exactly if a queue head follows or the pointer has it.
pub proof fn law_link_keeps_pointer(type_select: u8, pointer: u32)
    ensures
        link_word(type_select, pointer) & !2u32 == pointer & !2u32,
        link_word(type_select, pointer) & 2 != 0 <==> type_select == 1 || pointer & 2 != 0,
{
    assert((pointer | 2) & !2u32 == pointer & !2u32 && (pointer | 2) & 2 != 0) by (bit_vector);
}

/// The control word of a descriptor that is set up: the transaction is to be executed, three
/// errors are allowed, the low speed bit tells the device's speed, and all the other bits are
/// 0.
pub proof fn law_prepared_control(
    before: Descriptor,
    type_select: u8,
    pointer: u32,
    speed: u8,
    add: u32,
    endp: u32,
    toggle: u32,
    pid: u32,
    data_size: u32,
    data_add: u32,
)
    ensures
        ({
            let cs = prepared(
                before,
                type_select,
                pointer,
                speed,
                add,
                endp,
                toggle,
                pid,
                data_size,
                data_add,
            ).control_status;
            &&& (cs / 0x0080_0000) % 2 == 1
            &&& (cs / 0x0400_0000) % 2 == (if speed == 1 {
                1int
            } else {
                0
            })
            &&& (cs / 0x0800_0000) % 4 == 3
            &&& cs % 0x0080_0000 == 0
            &&& (cs / 0x0100_0000) % 4 == 0
            &&& cs / 0x2000_0000 == 0
        }),
{
    assert(0x1800_0000u32 | 0x0080_0000 == 0x1880_0000) by (bit_vector);
    assert(0x1800_0000u32 | 0x0080_0000 | 0x0400_0000 == 0x1C80_0000) by (bit_vector);
}

/// The token of a descriptor that is set up, bit by bit: a bit is 1 exactly if one of the
/// values has it 1 at its place, counted from bit 0 for the packet identification, 8 for the
/// address, 15 for the endpoint, 19 for the toggle and 21 for the length less one.
pub proof fn law_prepared_token_bit_by_bit(
    before: Descriptor,
    type_select: u8,
    pointer: u32,
    speed: u8,
    add: u32,
    endp: u32,
    toggle: u32,
    pid: u32,
    data_size: u32,
    data_add: u32,
    n: u32,
)
    requires
        n < 32,
    ensures
        ({
            let token = prepared(
                before,
                type_select,
                pointer,
                speed,
                add,
                endp,
                toggle,
                pid,
                data_size,
                data_add,
            ).token;
            let size = if data_size == 0 {
                0u32
            } else {
                (data_size - 1) as u32
            };
            (token >> n) & 1 == 1 <==> {
                ||| (pid >> n) & 1 == 1
                ||| n >= 8 && (add >> ((n - 8) as u32)) & 1 == 1
                ||| n >= 15 && (endp >> ((n - 15) as u32)) & 1 == 1
                ||| n >= 19 && (toggle >> ((n - 19) as u32)) & 1 == 1
                ||| n >= 21 && (size >> ((n - 21) as u32)) & 1 == 1
            }
        }),
{
    let size = length_field(data_size);
    let token = token_word(add, endp, toggle, pid, data_size);
    assert((token >> n) & 1 == 1 <==> {
        ||| (pid >> n) & 1 == 1
        ||| n >= 8 && (add >> ((n - 8) as u32)) & 1 == 1
        ||| n >= 15 && (endp >> ((n - 15) as u32)) & 1 == 1
        ||| n >= 19 && (toggle >> ((n - 19) as u32)) & 1 == 1
        ||| n >= 21 && (size >> ((n - 21) as u32)) & 1 == 1
    }) by (bit_vector)
        requires
            n < 32,
            token == (size << 21u32) | (toggle << 19u32) | (endp << 15u32) | (add << 8u32) | pid,
    ;
}

/// What stood in a descriptor before does not matter: set up for the same transaction, two
/// descriptors hold the same link, control word, token and data address.
pub proof fn law_preparing_forgets(
    before: Descriptor,
    type_select: u8,
    pointer: u32,
    speed: u8,
    add: u32,
    endp: u32,
    toggle: u32,
    pid: u32,
    data_size: u32,
    data_add: u32,
    other: Descriptor,
)
    ensures
        ({
            let a = prepared(
                before,
                type_select,
                pointer,
                speed,
                add,
                endp,
                toggle,
                pid,
                data_size,
                data_add,
            );
            let b = prepared(
                other,
                type_select,
                pointer,
                speed,
                add,
                endp,
                toggle,
                pid,
                data_size,
                data_add,
            );
            &&& a.link_pointer == b.link_pointer
            &&& a.control_status == b.control_status
            &&& a.token == b.token
            &&& a.buffer_point == b.buffer_point
        }),
{
}

/// A descriptor whose completion raises an interrupt has that bit set in its control word,
/// and is in everything else the descriptor without it: the other bits of the control word,
/// the link, the token, the data address and its use.
pub proof fn law_interrupt_is_one_bit(td: Descriptor)
    ensures
        with_interrupt(td).link_pointer == td.link_pointer,
        with_interrupt(td).token == td.token,
        with_interrupt(td).buffer_point == td.buffer_point,
        with_interrupt(td).active == td.active,
        with_interrupt(td).padding == td.padding,
        with_interrupt(td).control_status & 0x0100_0000 != 0,
        with_interrupt(td).control_status & !0x0100_0000u32 == td.control_status & !0x0100_0000u32,
{
    let cs = td.control_status;
    assert((cs | 0x0100_0000) & 0x0100_0000 != 0 && (cs | 0x0100_0000) & !0x0100_0000u32 == cs
        & !0x0100_0000u32) by (bit_vector);
}

/// A transaction with an interrupt transfers the data that it was given, whatever it is.
pub proof fn law_interrupt_points_to_data(
    before: Descriptor,
    type_select: u8,
    pointer: u32,
    speed: u8,
    add: u32,
    endp: u32,
    toggle: u32,
    pid: u32,
    data_size: u32,
    data_add: u32,
)
    ensures
        with_interrupt(
            prepared(
                before,
                type_select,
                pointer,
                speed,
                add,
                endp,
                toggle,
                pid,
                data_size,
                data_add,
            ),
        ).buffer_point == data_add,
{
}

/// Linking replaces a descriptor's link, whatever it was, and nothing else. So a descriptor
/// that ended its queue no longer does: linked to an address that leaves the four low bits
/// free, its terminate bit is clear and its link leads to that address.
pub proof fn law_linking_replaces_link(td: Descriptor, link: u32, type_select: u8, pointer: u32)
    ensures
        linked(td, link).link_pointer == link,
        linked(td, link).control_status == td.control_status,
        linked(td, link).token == td.token,
        linked(td, link).buffer_point == td.buffer_point,
        linked(td, link).active == td.active,
        linked(td, link).padding == td.padding,
        pointer % 16 == 0 ==> {
            let next = linked(td, link_word(type_select, pointer)).link_pointer;
            let deep = linked(td, link_word(type_select, pointer | TD_PTR_DEPTH)).link_pointer;
            &&& next % 2 == 0
            &&& next - next % 16 == pointer
            &&& deep % 2 == 0
            &&& deep - deep % 16 == pointer
            &&& (deep / 4) % 2 == 1
            &&& (next / 4) % 2 == 0
        },
{
    if pointer % 16 == 0 {
        assert({
            &&& (pointer | 2) % 2 == 0 && (pointer | 2) - (pointer | 2) % 16 == pointer
            &&& (pointer | 4) % 2 == 0 && (pointer | 4) - (pointer | 4) % 16 == pointer
            &&& ((pointer | 4) | 2) % 2 == 0 && ((pointer | 4) | 2) - ((pointer | 4) | 2) % 16
                == pointer
            &&& ((pointer | 4) / 4) % 2 == 1 && (((pointer | 4) | 2) / 4) % 2 == 1
            &&& (pointer / 4) % 2 == 0 && ((pointer | 2) / 4) % 2 == 0
        }) by (bit_vector)
            requires
                pointer % 16 == 0,
        ;
    }
}

/// Giving a descriptor back leaves no word of it behind.
pub proof fn law_cleaned_is_blank(td: Descriptor)
    ensures
        cleaned(td).link_pointer == 0,
        cleaned(td).control_status == 0,
        cleaned(td).token == 0,
        cleaned(td).buffer_point == 0,
        cleaned(td).active == 0,
        cleaned(td).padding == td.padding,
{
}

/// A descriptor is taken exactly if one has 0 in its use word: the first such, which then has
/// 1 there and is otherwise as it was. Its address is 32 bytes behind the pool's for each
/// descriptor before it. Every other descriptor, and the size of the pool, stays.
pub proof fn law_first_unused_is_taken(
    before: Seq<Descriptor>,
    after: Seq<Descriptor>,
    base: usize,
    taken: Option<(usize, usize)>,
    other: int,
)
    requires
        td_taken(before, after, base, taken),
        0 <= other < before.len(),
    ensures
        after.len() == before.len(),
        taken is None ==> before[other].active != 0 && after[other] == before[other],
        taken matches Some((address, index)) ==> {
            &&& index < before.len()
            &&& address == base + 32 * index
            &&& before[index as int].active == 0
            &&& after[index as int].active == 1
            &&& after[index as int].link_pointer == before[index as int].link_pointer
            &&& after[index as int].control_status == before[index as int].control_status
            &&& after[index as int].token == before[index as int].token
            &&& after[index as int].buffer_point == before[index as int].buffer_point
            &&& after[index as int].padding == before[index as int].padding
            &&& other < index ==> before[other].active != 0
            &&& other != index ==> after[other] == before[other]
        },
{
}

/// The getters' fields, bit by bit, whatever the token holds: the endpoint is its bits 15 to
/// 18, the address its bits 8 to 14, the packet identification its bits 0 to 7. The address
/// in a link is all of it but the four low bits.
pub proof fn law_fields_are_bits(token: u32)
    ensures
        endpoint_field(token) == (token >> 15u32) & 0xF,
        address_field(token) == (token >> 8u32) & 0x7F,
        pid_field(token) == token & 0xFF,
        link_address(token) == token & 0xFFFF_FFF0,
{
    assert((token >> 15u32) & 0xF == (token / 0x8000) % 16 && (token >> 8u32) & 0x7F == (token
        / 0x100) % 128 && token & 0xFF == token % 256 && token & 0xFFFF_FFF0 == token - token
        % 16) by (bit_vector);
}

/// Whether the token of a transaction has bit `n` set: one of the values has it at its place,
/// counted from bit 0 for the packet identification, 8 for the address, 15 for the endpoint,
/// 19 for the toggle and 21 for the length less one.
pub open spec fn token_bit(
    add: u32,
    endp: u32,
    toggle: u32,
    pid: u32,
    data_size: u32,
    n: u32,
) -> bool {
    let size = if data_size == 0 {
        0u32
    } else {
        (data_size - 1) as u32
    };
    ||| (pid >> n) & 1 == 1
    ||| n >= 8 && (add >> ((n - 8) as u32)) & 1 == 1
    ||| n >= 15 && (endp >> ((n - 15) as u32)) & 1 == 1
    ||| n >= 19 && (toggle >> ((n - 19) as u32)) & 1 == 1
    ||| n >= 21 && (size >> ((n - 21) as u32)) & 1 == 1
}

proof fn lemma_control_values()
    ensures
        0x1800_0000u32 | 0x0080_0000 == 0x1880_0000,
        0x1800_0000u32 | 0x0080_0000 | 0x0400_0000 == 0x1C80_0000,
        0x1880_0000u32 | 0x0100_0000 == 0x1980_0000,
        0x1C80_0000u32 | 0x0100_0000 == 0x1D80_0000,
{
    assert(0x1800_0000u32 | 0x0080_0000 == 0x1880_0000 && 0x1800_0000u32 | 0x0080_0000
        | 0x0400_0000 == 0x1C80_0000 && 0x1880_0000u32 | 0x0100_0000 == 0x1980_0000
        && 0x1C80_0000u32 | 0x0100_0000 == 0x1D80_0000) by (bit_vector);
}

/// After [`UhciTDRegisters::init`] the words in memory are the transaction's, whatever they
/// were: the link, the control word, the token bit by bit, and the address of the data.
pub proof fn law_init_writes_the_transaction(
    td: &mut UhciTDRegisters,
    type_select: u8,
    pointer: u32,
    speed: u8,
    add: u32,
    endp: u32,
    toggle: u32,
    pid: u32,
    data_size: u32,
    data_add: u32,
    n: u32,
)
    requires
        n < 32,
        call_ensures(
            UhciTDRegisters::init,
            (
                td,
                type_select,
                pointer,
                speed,
                add,
                endp,
                toggle,
                pid,
                data_size,
                data_add,
            ),
            (),
        ),
    ensures
        ({
            &&& crate::cell::cell_value(final(td).buffer_point) == data_add
            &&& crate::cell::cell_value(final(td).active) == crate::cell::cell_value(old(td).active)
            &&& final(td)._padding_1 == old(td)._padding_1
            &&& pointer == 0 ==> crate::cell::cell_value(final(td).link_pointer) == 1
            &&& pointer != 0 && type_select == 1
                ==> crate::cell::cell_value(final(td).link_pointer) == pointer | 2
            &&& pointer != 0 && type_select != 1
                ==> crate::cell::cell_value(final(td).link_pointer) == pointer
            &&& speed == 1 ==> crate::cell::cell_value(final(td).control_status) == 0x1c800000
            &&& speed != 1 ==> crate::cell::cell_value(final(td).control_status) == 0x18800000
            &&& (crate::cell::cell_value(final(td).token) >> n) & 1 == 1
                <==> token_bit(add, endp, toggle, pid, data_size, n)
        }),
{
    lemma_control_values();
    law_prepared_token_bit_by_bit(
        td@,
        type_select,
        pointer,
        speed,
        add,
        endp,
        toggle,
        pid,
        data_size,
        data_add,
        n,
    );
}

/// After [`init_td`] the words of the descriptor at `index` are the transaction's, and every other
/// descriptor of the pool is as it was.
pub proof fn law_init_td_writes_one_descriptor(
    pool: &mut [UhciTDRegisters; MAX_TD],
    index: usize,
    type_select: u8,
    pointer: u32,
    speed: u8,
    add: u32,
    endp: u32,
    toggle: u32,
    pid: u32,
    data_size: u32,
    data_add: u32,
    n: u32,
    other: int,
)
    requires
        n < 32,
        index < 64,
        0 <= other < 64,
        call_ensures(
            init_td,
            (
                Some(pool),
                index,
                type_select,
                pointer,
                speed,
                add,
                endp,
                toggle,
                pid,
                data_size,
                data_add,
            ),
            (),
        ),
    ensures
        ({
            &&& crate::cell::cell_value(final(pool)@[index as int].buffer_point) == data_add
            &&& crate::cell::cell_value(final(pool)@[index as int].active)
                == crate::cell::cell_value(old(pool)@[index as int].active)
            &&& final(pool)@[index as int]._padding_1 == old(pool)@[index as int]._padding_1
            &&& pointer == 0
                ==> crate::cell::cell_value(final(pool)@[index as int].link_pointer) == 1
            &&& pointer != 0 && type_select == 1
                ==> crate::cell::cell_value(final(pool)@[index as int].link_pointer) == pointer | 2
            &&& pointer != 0 && type_select != 1
                ==> crate::cell::cell_value(final(pool)@[index as int].link_pointer) == pointer
            &&& speed == 1
                ==> crate::cell::cell_value(final(pool)@[index as int].control_status) == 0x1c800000
            &&& speed != 1
                ==> crate::cell::cell_value(final(pool)@[index as int].control_status) == 0x18800000
            &&& (crate::cell::cell_value(final(pool)@[index as int].token) >> n) & 1 == 1
                <==> token_bit(add, endp, toggle, pid, data_size, n)
            &&& other != index ==> final(pool)@[other]@ == old(pool)@[other]@
        }),
{
    lemma_control_values();
    law_prepared_token_bit_by_bit(
        pool@[index as int]@,
        type_select,
        pointer,
        speed,
        add,
        endp,
        toggle,
        pid,
        data_size,
        data_add,
        n,
    );
    assert(descriptors(*final(pool))[index as int] == final(pool)@[index as int]@);
    assert(descriptors(*final(pool))[other] == final(pool)@[other]@);
    assert(descriptors(*pool)[other] == pool@[other]@);
}

/// After [`interrupt_td`] the transaction raises an interrupt on completion, and is otherwise as
/// without it: the other words of the descriptor at `index`, the address of the
/// data among them, are the transaction's, and every other descriptor of the pool is as it was.
pub proof fn law_interrupt_td_writes_one_descriptor(
    pool: &mut [UhciTDRegisters; MAX_TD],
    index: usize,
    type_select: u8,
    pointer: u32,
    speed: u8,
    add: u32,
    endp: u32,
    toggle: u32,
    pid: u32,
    data_size: u32,
    data_add: u32,
    n: u32,
    other: int,
)
    requires
        n < 32,
        index < 64,
        0 <= other < 64,
        call_ensures(
            interrupt_td,
            (
                Some(pool),
                index,
                type_select,
                pointer,
                speed,
                add,
                endp,
                toggle,
                pid,
                data_size,
                data_add,
            ),
            (),
        ),
    ensures
        ({
            &&& crate::cell::cell_value(final(pool)@[index as int].buffer_point) == data_add
            &&& crate::cell::cell_value(final(pool)@[index as int].active)
                == crate::cell::cell_value(old(pool)@[index as int].active)
            &&& final(pool)@[index as int]._padding_1 == old(pool)@[index as int]._padding_1
            &&& pointer == 0
                ==> crate::cell::cell_value(final(pool)@[index as int].link_pointer) == 1
            &&& pointer != 0 && type_select == 1
                ==> crate::cell::cell_value(final(pool)@[index as int].link_pointer) == pointer | 2
            &&& pointer != 0 && type_select != 1
                ==> crate::cell::cell_value(final(pool)@[index as int].link_pointer) == pointer
            &&& speed == 1
                ==> crate::cell::cell_value(final(pool)@[index as int].control_status) == 0x1d800000
            &&& speed != 1
                ==> crate::cell::cell_value(final(pool)@[index as int].control_status) == 0x19800000
            &&& (crate::cell::cell_value(final(pool)@[index as int].token) >> n) & 1 == 1
                <==> token_bit(add, endp, toggle, pid, data_size, n)
            &&& other != index ==> final(pool)@[other]@ == old(pool)@[other]@
        }),
{
    lemma_control_values();
    law_prepared_token_bit_by_bit(
        pool@[index as int]@,
        type_select,
        pointer,
        speed,
        add,
        endp,
        toggle,
        pid,
        data_size,
        data_add,
        n,
    );
    assert(descriptors(*final(pool))[index as int] == final(pool)@[index as int]@);
    assert(descriptors(*final(pool))[other] == final(pool)@[other]@);
    assert(descriptors(*pool)[other] == pool@[other]@);
}

/// After [`td_clean`] every word of the descriptor at `index` is 0, and every other descriptor
/// of the pool is as it was.
pub proof fn law_td_clean_blanks_one_descriptor(
    pool: &mut [UhciTDRegisters; MAX_TD],
    index: usize,
    other: int,
)
    requires
        index < 64,
        0 <= other < 64,
        call_ensures(td_clean, (Some(pool), index), ()),
    ensures
        ({
            &&& crate::cell::cell_value(final(pool)@[index as int].link_pointer) == 0
            &&& crate::cell::cell_value(final(pool)@[index as int].control_status) == 0
            &&& crate::cell::cell_value(final(pool)@[index as int].token) == 0
            &&& crate::cell::cell_value(final(pool)@[index as int].buffer_point) == 0
            &&& crate::cell::cell_value(final(pool)@[index as int].active) == 0
            &&& final(pool)@[index as int]._padding_1 == old(pool)@[index as int]._padding_1
            &&& other != index ==> final(pool)@[other]@ == old(pool)@[other]@
        }),
{
    assert(descriptors(*final(pool))[index as int] == final(pool)@[index as int]@);
    assert(descriptors(*final(pool))[other] == final(pool)@[other]@);
    assert(descriptors(*pool)[other] == pool@[other]@);
}

/// After [`td_link`] the link of the descriptor at `index` is the pointer, with the queue head
/// bit where a queue head follows, whatever the link was. Its other words, and every
/// other descriptor of the pool, are as they were.
pub proof fn law_td_link_replaces_one_link(
    pool: &mut [UhciTDRegisters; MAX_TD],
    index: usize,
    type_select: u8,
    pointer: u32,
    other: int,
)
    requires
        index < 64,
        0 <= other < 64,
        call_ensures(td_link, (Some(pool), index, type_select, pointer), ()),
    ensures
        ({
            &&& type_select == 1
                ==> crate::cell::cell_value(final(pool)@[index as int].link_pointer)
                == pointer | 2
            &&& type_select != 1
                ==> crate::cell::cell_value(final(pool)@[index as int].link_pointer)
                == pointer
            &&& crate::cell::cell_value(final(pool)@[index as int].control_status)
                == crate::cell::cell_value(old(pool)@[index as int].control_status)
            &&& crate::cell::cell_value(final(pool)@[index as int].token)
                == crate::cell::cell_value(old(pool)@[index as int].token)
            &&& crate::cell::cell_value(final(pool)@[index as int].buffer_point)
                == crate::cell::cell_value(old(pool)@[index as int].buffer_point)
            &&& crate::cell::cell_value(final(pool)@[index as int].active)
                == crate::cell::cell_value(old(pool)@[index as int].active)
            &&& final(pool)@[index as int]._padding_1 == old(pool)@[index as int]._padding_1
            &&& other != index ==> final(pool)@[other]@ == old(pool)@[other]@
        }),
{
    assert(descriptors(*final(pool))[index as int] == final(pool)@[index as int]@);
    assert(descriptors(*final(pool))[other] == final(pool)@[other]@);
    assert(descriptors(*pool)[other] == pool@[other]@);
}

/// After [`td_link_vf`] the link of the descriptor at `index` is as after [`td_link`], with the
/// depth bit besides. Its other words, and every
/// other descriptor of the pool, are as they were.
pub proof fn law_td_link_vf_replaces_one_link(
    pool: &mut [UhciTDRegisters; MAX_TD],
    index: usize,
    type_select: u8,
    pointer: u32,
    other: int,
)
    requires
        index < 64,
        0 <= other < 64,
        call_ensures(td_link_vf, (Some(pool), index, type_select, pointer), ()),
    ensures
        ({
            &&& type_select == 1
                ==> crate::cell::cell_value(final(pool)@[index as int].link_pointer)
                == (pointer | 4) | 2
            &&& type_select != 1
                ==> crate::cell::cell_value(final(pool)@[index as int].link_pointer)
                == pointer | 4
            &&& crate::cell::cell_value(final(pool)@[index as int].control_status)
                == crate::cell::cell_value(old(pool)@[index as int].control_status)
            &&& crate::cell::cell_value(final(pool)@[index as int].token)
                == crate::cell::cell_value(old(pool)@[index as int].token)
            &&& crate::cell::cell_value(final(pool)@[index as int].buffer_point)
                == crate::cell::cell_value(old(pool)@[index as int].buffer_point)
            &&& crate::cell::cell_value(final(pool)@[index as int].active)
                == crate::cell::cell_value(old(pool)@[index as int].active)
            &&& final(pool)@[index as int]._padding_1 == old(pool)@[index as int]._padding_1
            &&& other != index ==> final(pool)@[other]@ == old(pool)@[other]@
        }),
{
    assert(descriptors(*final(pool))[index as int] == final(pool)@[index as int]@);
    assert(descriptors(*final(pool))[other] == final(pool)@[other]@);
    assert(descriptors(*pool)[other] == pool@[other]@);
}

/// A link that has been made is read back, and leads to the address that it was made with, as
/// long as that leaves the four low bits free: whatever the descriptor held before.
pub proof fn law_link_made_is_link_followed(
    pool: &mut [UhciTDRegisters; MAX_TD],
    index: usize,
    type_select: u8,
    pointer: u32,
    word: Option<u32>,
    next: usize,
)
    requires
        index < 64,
        pointer % 16 == 0,
        call_ensures(td_link, (Some(pool), index, type_select, pointer), ()),
        call_ensures(td_link_pointer, (Some(&*final(pool)), index), word),
        call_ensures(UhciTDRegisters::next_pointer, (&final(pool)@[index as int],), next),
    ensures
        word is Some,
        word->0 % 2 == 0,
        word->0 - word->0 % 16 == pointer,
        next == pointer,
{
    law_td_link_replaces_one_link(pool, index, type_select, pointer, index as int);
    assert((pointer | 2) % 2 == 0 && (pointer | 2) - (pointer | 2) % 16 == pointer)
        by (bit_vector)
        requires
            pointer % 16 == 0,
    ;
    assert(descriptors(*final(pool))[index as int] == final(pool)@[index as int]@);
}

/// [`td_alloc`] takes the first descriptor whose use word is 0, sets that word to 1 and changes
/// nothing else; it fails exactly if no use word is 0. The address is 32 bytes behind the
/// pool's for each descriptor before it.
pub proof fn law_td_alloc_takes_first_unused(
    pool: &mut [UhciTDRegisters; MAX_TD],
    base: usize,
    taken: Option<(usize, usize)>,
    other: int,
)
    requires
        base + 2047 <= usize::MAX,
        0 <= other < 64,
        call_ensures(td_alloc, (Some(pool), base), taken),
    ensures
        taken is None
            ==> crate::cell::cell_value(old(pool)@[other].active) != 0 && final(pool)@[other]@
            == old(pool)@[other]@,
        taken matches Some((address, index)) ==> {
            &&& index < 64
            &&& address == base + 32 * index
            &&& crate::cell::cell_value(old(pool)@[index as int].active) == 0
            &&& crate::cell::cell_value(final(pool)@[index as int].active) == 1
            &&& crate::cell::cell_value(final(pool)@[index as int].link_pointer)
                == crate::cell::cell_value(old(pool)@[index as int].link_pointer)
            &&& crate::cell::cell_value(final(pool)@[index as int].control_status)
                == crate::cell::cell_value(old(pool)@[index as int].control_status)
            &&& crate::cell::cell_value(final(pool)@[index as int].token)
                == crate::cell::cell_value(old(pool)@[index as int].token)
            &&& crate::cell::cell_value(final(pool)@[index as int].buffer_point)
                == crate::cell::cell_value(old(pool)@[index as int].buffer_point)
            &&& other < index ==> crate::cell::cell_value(old(pool)@[other].active) != 0
            &&& other != index ==> final(pool)@[other]@ == old(pool)@[other]@
        },
{
    let before = descriptors(*pool);
    let after = descriptors(*final(pool));
    law_first_unused_is_taken(before, after, base, taken, other);
    assert(before[other] == pool@[other]@ && after[other] == final(pool)@[other]@);
    if let Some((address, index)) = taken {
        assert(before[index as int] == pool@[index as int]@);
        assert(after[index as int] == final(pool)@[index as int]@);
    }
}

/// What is read of a descriptor in the pool is the word of that name.
pub proof fn law_pool_words_are_read(
    pool: [UhciTDRegisters; MAX_TD],
    index: usize,
    link: Option<u32>,
    token: Option<u32>,
    status: Option<u32>,
)
    requires
        index < 64,
        call_ensures(td_link_pointer, (Some(&pool), index), link),
        call_ensures(td_token, (Some(&pool), index), token),
        call_ensures(td_status, (Some(&pool), index), status),
    ensures
        link == Some(crate::cell::cell_value(pool@[index as int].link_pointer)),
        token == Some(crate::cell::cell_value(pool@[index as int].token)),
        status == Some(crate::cell::cell_value(pool@[index as int].control_status)),
{
}

/// Without a pool nothing is read and nothing is taken, whatever the index.
pub proof fn law_no_pool_gives_nothing(
    index: usize,
    base: usize,
    link: Option<u32>,
    token: Option<u32>,
    status: Option<u32>,
    taken: Option<(usize, usize)>,
)
    requires
        base + 2047 <= usize::MAX,
        call_ensures(td_link_pointer, (None, index), link),
        call_ensures(td_token, (None, index), token),
        call_ensures(td_status, (None, index), status),
        call_ensures(td_alloc, (None, base), taken),
    ensures
        link is None,
        token is None,
        status is None,
        taken is None,
{
}

/// What is read of a descriptor, whatever its words hold: the endpoint, the address and the
/// packet identification are bits of its token, the halves of the latter where they stand in
/// it; the next structure is its link without the four low bits; and the data is where its
/// buffer word says.
pub proof fn law_descriptor_is_read(
    td: UhciTDRegisters,
    endp: u8,
    add: u8,
    halves: (u8, u8),
    next: usize,
    data: usize,
)
    requires
        call_ensures(UhciTDRegisters::read_endp, (&td,), endp),
        call_ensures(UhciTDRegisters::read_address, (&td,), add),
        call_ensures(UhciTDRegisters::read_pid, (&td,), halves),
        call_ensures(UhciTDRegisters::next_pointer, (&td,), next),
        call_ensures(UhciTDRegisters::read_buffer_pointer, (&td,), data),
    ensures
        endp == (crate::cell::cell_value(td.token) >> 15u32) & 0xF,
        add == (crate::cell::cell_value(td.token) >> 8u32) & 0x7F,
        halves.0 == crate::cell::cell_value(td.token) & 0xF0,
        halves.1 == crate::cell::cell_value(td.token) & 0x0F,
        next == crate::cell::cell_value(td.link_pointer) & 0xFFFF_FFF0,
        data == crate::cell::cell_value(td.buffer_point),
{
    law_fields_are_bits(td@.token);
    law_fields_are_bits(td@.link_pointer);
    let token = td@.token;
    assert(token & 0xF0 == token % 256 - token % 16 && token & 0x0F == token % 16)
        by (bit_vector);
}

} // verus!
