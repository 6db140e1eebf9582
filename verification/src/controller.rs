//! Bringing the controller up.

use crate::command::run;
use crate::interrupt::{ioc_int, short_packet_int};
use crate::port::{if_connect_port1, if_connect_port2};
use crate::registers::RegisterEdit;
use vstd::prelude::*;

verus! {

/// What has just happened.
#[derive(Clone, Copy, PartialEq, Eq, Debug)]
pub enum InitEvent {
    Begun,
    /// The PCI buses have been searched for the controller.
    Searched(Result<(), &'static str>),
    Stopped,
    ShortPacketsEnabled,
    CompletionsEnabled,
    Port1Reset,
    /// Port 1 has been read.
    Port1Read(Option<u16>),
    Port1Enabled,
    Port2Reset,
    /// Port 2 has been read.
    Port2Read(Option<u16>),
    /// `port2_enable` has been called. With the value that it is called with here it writes
    /// nothing: where port 2 is enabled, `port2_reset` has done that.
    Port2Enabled,
    /// The frame base register has been read.
    FrameBaseRead(Option<u32>),
    FrameListMapped(Result<(), &'static str>),
    QhPoolMapped(Result<(), &'static str>),
    TdPoolMapped(Result<(), &'static str>),
    DevicePoolMapped(Result<(), &'static str>),
    BufferMapped(Result<(), &'static str>),
    FrameListCleaned,
    Started,
}

/// What is to be done next.
#[derive(Clone, Copy, PartialEq, Eq, Debug)]
pub enum InitAction {
    /// Search the PCI buses for the controller, as `read_uhci_address` does.
    Search,
    /// Stop the controller by this edit.
    Stop(Option<RegisterEdit>),
    /// Enable the interrupt for short packets by this edit.
    EnableShortPackets(Option<RegisterEdit>),
    /// Enable the interrupt for completed transactions by this edit.
    EnableCompletions(Option<RegisterEdit>),
    /// Reset port 1, as `port1_reset` says.
    ResetPort1,
    ReadPort1,
    /// Call `port1_enable` with this value.
    EnablePort1(u8),
    /// Reset port 2, as `port2_reset` says.
    ResetPort2,
    ReadPort2,
    /// Call `port2_enable` with this value. It is 1 here, for which `port2_enable` reads the
    /// port and writes nothing, since its value for enabling is 2. Where `port2_reset`
    /// saw a device, it has enabled the port.
    EnablePort2(u8),
    ReadFrameBase,
    /// Map the frame list at this physical address, and keep it unless there is one.
    MapFrameList(usize),
    /// Map the pool of queue heads, and keep it unless there is one.
    MapQhPool,
    /// Map the pool of transfer descriptors, and keep it unless there is one.
    MapTdPool,
    /// Map the pool of devices, and keep it unless there is one.
    MapDevicePool,
    /// Map the data buffer, and keep it unless there is one.
    MapBuffer,
    /// Empty the frame list, as `clean_framelist` does.
    CleanFrameList,
    /// Start the controller by this edit.
    Start(Option<RegisterEdit>),
    /// Be done with this result.
    Finish(Result<(), &'static str>),
}

/// What is done after a mapping: `next`, unless the mapping has failed.
pub open spec fn if_mapped(mapped: Result<(), &'static str>, next: InitAction) -> InitAction {
    match mapped {
        Ok(_) => next,
        Err(message) => InitAction::Finish(Err(message)),
    }
}

/// What follows an event.
pub open spec fn init_step(event: InitEvent) -> InitAction {
    match event {
        InitEvent::Begun => InitAction::Search,
        InitEvent::Searched(Ok(_)) => InitAction::Stop(
            crate::registers::switched(
                crate::registers::Register::Command,
                crate::command::CMD_RS,
                1,
                0,
            ),
        ),
        InitEvent::Searched(Err(_)) => InitAction::Finish(Ok(())),
        InitEvent::Stopped => InitAction::EnableShortPackets(
            crate::registers::switched(
                crate::registers::Register::InterruptEnable,
                crate::interrupt::INTR_SP,
                1,
                1,
            ),
        ),
        InitEvent::ShortPacketsEnabled => InitAction::EnableCompletions(
            crate::registers::switched(
                crate::registers::Register::InterruptEnable,
                crate::interrupt::INTR_IOC,
                1,
                1,
            ),
        ),
        InitEvent::CompletionsEnabled => InitAction::ResetPort1,
        InitEvent::Port1Reset => InitAction::ReadPort1,
        InitEvent::Port1Read(bits) => if crate::registers::reads_set(
            bits,
            crate::port::PORT_CONNECTION,
        ) {
            InitAction::EnablePort1(1)
        } else {
            InitAction::ResetPort2
        },
        InitEvent::Port1Enabled => InitAction::ResetPort2,
        InitEvent::Port2Reset => InitAction::ReadPort2,
        InitEvent::Port2Read(bits) => if crate::registers::reads_set(
            bits,
            crate::port::PORT_CONNECTION,
        ) {
            InitAction::EnablePort2(1)
        } else {
            InitAction::ReadFrameBase
        },
        InitEvent::Port2Enabled => InitAction::ReadFrameBase,
        InitEvent::FrameBaseRead(base) => InitAction::MapFrameList(
            match base {
                Some(base) => base as usize,
                None => 0,
            },
        ),
        InitEvent::FrameListMapped(mapped) => if_mapped(mapped, InitAction::MapQhPool),
        InitEvent::QhPoolMapped(mapped) => if_mapped(mapped, InitAction::MapTdPool),
        InitEvent::TdPoolMapped(mapped) => if_mapped(mapped, InitAction::MapDevicePool),
        InitEvent::DevicePoolMapped(mapped) => if_mapped(mapped, InitAction::MapBuffer),
        InitEvent::BufferMapped(mapped) => if_mapped(mapped, InitAction::CleanFrameList),
        InitEvent::FrameListCleaned => InitAction::Start(
            crate::registers::switched(
                crate::registers::Register::Command,
                crate::command::CMD_RS,
                1,
                1,
            ),
        ),
        InitEvent::Started => InitAction::Finish(Ok(())),
    }
}

fn unless_failed(mapped: Result<(), &'static str>, next: InitAction) -> (action: InitAction)
    ensures
        action == if_mapped(mapped, next),
{
    match mapped {
        Ok(_) => next,
        Err(message) => InitAction::Finish(Err(message)),
    }
}

/// Brings the controller up, step by step, from [`InitEvent::Begun`] on: says what follows
/// `event`. Where there is no controller, there is nothing to do and no error. Port 2 is
/// enabled by its reset alone: the value that `port2_enable` gets here writes nothing.
pub fn init(event: InitEvent) -> (action: InitAction)
    ensures
        action == init_step(event),
{
    match event {
        InitEvent::Begun => InitAction::Search,
        InitEvent::Searched(Ok(_)) => InitAction::Stop(run(0)),
        InitEvent::Searched(Err(_)) => InitAction::Finish(Ok(())),
        InitEvent::Stopped => InitAction::EnableShortPackets(short_packet_int(1)),
        InitEvent::ShortPacketsEnabled => InitAction::EnableCompletions(ioc_int(1)),
        InitEvent::CompletionsEnabled => InitAction::ResetPort1,
        InitEvent::Port1Reset => InitAction::ReadPort1,
        InitEvent::Port1Read(bits) => {
            if if_connect_port1(bits) {
                InitAction::EnablePort1(1)
            } else {
                InitAction::ResetPort2
            }
        },
        InitEvent::Port1Enabled => InitAction::ResetPort2,
        InitEvent::Port2Reset => InitAction::ReadPort2,
        InitEvent::Port2Read(bits) => {
            if if_connect_port2(bits) {
                InitAction::EnablePort2(1)
            } else {
                InitAction::ReadFrameBase
            }
        },
        InitEvent::Port2Enabled => InitAction::ReadFrameBase,
        InitEvent::FrameBaseRead(base) => {
            let base_add: u32 = match base {
                Some(base) => base,
                None => 0,
            };
            InitAction::MapFrameList(base_add as usize)
        },
        InitEvent::FrameListMapped(mapped) => unless_failed(mapped, InitAction::MapQhPool),
        InitEvent::QhPoolMapped(mapped) => unless_failed(mapped, InitAction::MapTdPool),
        InitEvent::TdPoolMapped(mapped) => unless_failed(mapped, InitAction::MapDevicePool),
        InitEvent::DevicePoolMapped(mapped) => unless_failed(mapped, InitAction::MapBuffer),
        InitEvent::BufferMapped(mapped) => unless_failed(mapped, InitAction::CleanFrameList),
        InitEvent::FrameListCleaned => InitAction::Start(run(1)),
        InitEvent::Started => InitAction::Finish(Ok(())),
    }
}

/// Whether an event can be what came of an action.
pub open spec fn comes_of(event: InitEvent, action: InitAction) -> bool {
    match action {
        InitAction::Search => event is Searched,
        InitAction::Stop(_) => event is Stopped,
        InitAction::EnableShortPackets(_) => event is ShortPacketsEnabled,
        InitAction::EnableCompletions(_) => event is CompletionsEnabled,
        InitAction::ResetPort1 => event is Port1Reset,
        InitAction::ReadPort1 => event is Port1Read,
        InitAction::EnablePort1(_) => event is Port1Enabled,
        InitAction::ResetPort2 => event is Port2Reset,
        InitAction::ReadPort2 => event is Port2Read,
        InitAction::EnablePort2(_) => event is Port2Enabled,
        InitAction::ReadFrameBase => event is FrameBaseRead,
        InitAction::MapFrameList(_) => event is FrameListMapped,
        InitAction::MapQhPool => event is QhPoolMapped,
        InitAction::MapTdPool => event is TdPoolMapped,
        InitAction::MapDevicePool => event is DevicePoolMapped,
        InitAction::MapBuffer => event is BufferMapped,
        InitAction::CleanFrameList => event is FrameListCleaned,
        InitAction::Start(_) => event is Started,
        InitAction::Finish(_) => false,
    }
}

/// Whether the event behind event `k` is what came of the action that followed event `k`.
pub open spec fn goes_on(events: Seq<InitEvent>, k: int) -> bool {
    comes_of(events[k + 1], init_step(events[k]))
}

/// Whether these are the events, in their order, of bringing the controller up: each comes
/// of the action that followed the one before.
pub open spec fn is_run(events: Seq<InitEvent>) -> bool {
    &&& events.len() > 0
    &&& events[0] is Begun
    &&& forall|k: int|
        0 <= k < events.len() - 1 ==> #[trigger] goes_on(events, k)
}

/// How many events there are at most after this one.
pub open spec fn events_left(event: InitEvent) -> int {
    match event {
        InitEvent::Begun => 18,
        InitEvent::Searched(_) => 17,
        InitEvent::Stopped => 16,
        InitEvent::ShortPacketsEnabled => 15,
        InitEvent::CompletionsEnabled => 14,
        InitEvent::Port1Reset => 13,
        InitEvent::Port1Read(_) => 12,
        InitEvent::Port1Enabled => 11,
        InitEvent::Port2Reset => 10,
        InitEvent::Port2Read(_) => 9,
        InitEvent::Port2Enabled => 8,
        InitEvent::FrameBaseRead(_) => 7,
        InitEvent::FrameListMapped(_) => 6,
        InitEvent::QhPoolMapped(_) => 5,
        InitEvent::TdPoolMapped(_) => 4,
        InitEvent::DevicePoolMapped(_) => 3,
        InitEvent::BufferMapped(_) => 2,
        InitEvent::FrameListCleaned => 1,
        InitEvent::Started => 0,
    }
}

proof fn lemma_events_count_down(events: Seq<InitEvent>, k: int)
    requires
        is_run(events),
        0 <= k < events.len(),
    ensures
        events_left(events[k]) <= 18 - k,
    decreases k,
{
    if k > 0 {
        lemma_events_count_down(events, k - 1);
        assert(goes_on(events, k - 1));
    }
}

/// Bringing the controller up ends: there are at most 19 events.
pub proof fn law_init_ends(events: Seq<InitEvent>)
    requires
        is_run(events),
    ensures
        events.len() <= 19,
{
    let last = events.len() - 1;
    lemma_events_count_down(events, last);
}

/// The controller is started only when everything that it works on is there: the frame
/// list, both pools, the devices and the buffer have been mapped, and the frame list has
/// been emptied. Before that it was found, and stopped.
pub proof fn law_started_on_mapped_memory(events: Seq<InitEvent>, k: int)
    requires
        is_run(events),
        0 <= k < events.len(),
        init_step(events[k]) is Start,
    ensures
        k >= 6,
        events[k] is FrameListCleaned,
        events[k - 1] matches InitEvent::BufferMapped(Ok(_)),
        events[k - 2] matches InitEvent::DevicePoolMapped(Ok(_)),
        events[k - 3] matches InitEvent::TdPoolMapped(Ok(_)),
        events[k - 4] matches InitEvent::QhPoolMapped(Ok(_)),
        events[k - 5] matches InitEvent::FrameListMapped(Ok(_)),
        events[k - 6] is FrameBaseRead,
        events[1] matches InitEvent::Searched(Ok(_)),
        events[2] is Stopped,
{
    assert(goes_on(events, k - 1));
    assert(goes_on(events, k - 2));
    assert(goes_on(events, k - 3));
    assert(goes_on(events, k - 4));
    assert(goes_on(events, k - 5));
    assert(goes_on(events, k - 6));
    assert(goes_on(events, 0));
    assert(goes_on(events, 1));
}

/// An error is that of the mapping that failed, and then the controller has not been
/// started.
pub proof fn law_error_means_not_started(
    events: Seq<InitEvent>,
    message: &'static str,
    k: int,
)
    requires
        is_run(events),
        init_step(events.last()) == InitAction::Finish(Err(message)),
        0 <= k < events.len(),
    ensures
        events.last() == InitEvent::FrameListMapped(Err(message)) || events.last()
            == InitEvent::QhPoolMapped(Err(message)) || events.last() == InitEvent::TdPoolMapped(
            Err(message),
        ) || events.last() == InitEvent::DevicePoolMapped(Err(message)) || events.last()
            == InitEvent::BufferMapped(Err(message)),
        !(init_step(events[k]) is Start),
{
    if init_step(events[k]) is Start {
        let last = events.len() - 1;
        if k < last {
            assert(goes_on(events, k));
            assert(events[k + 1] is Started);
            if k + 1 < last {
                assert(goes_on(events, k + 1));
            }
        }
    }
}

/// Success means that there is no controller, and nothing has been done, or that the
/// controller has been started last.
pub proof fn law_success_means_started_or_absent(events: Seq<InitEvent>)
    requires
        is_run(events),
        init_step(events.last()) == InitAction::Finish(Ok(())),
    ensures
        events.last() is Started || events.len() == 2 && events[1] matches InitEvent::Searched(
            Err(_),
        ),
{
    if events.last() is Searched {
        let last = events.len() - 1;
        lemma_events_count_down(events, last);
        assert(goes_on(events, 0));
        if last > 1 {
            assert(goes_on(events, last - 1));
            lemma_events_count_down(events, last - 1);
        }
    }
}

/// What comes of the actions of bringing a controller up.
pub struct Surroundings {
    pub search: Result<(), &'static str>,
    pub port1: Option<u16>,
    pub port2: Option<u16>,
    pub frame_base: Option<u32>,
    pub frame_list: Result<(), &'static str>,
    pub qh_pool: Result<(), &'static str>,
    pub td_pool: Result<(), &'static str>,
    pub device_pool: Result<(), &'static str>,
    pub buffer: Result<(), &'static str>,
}

/// The event that comes of an action there, if one does.
pub open spec fn outcome_of(action: InitAction, there: Surroundings) -> Option<InitEvent> {
    match action {
        InitAction::Search => Some(InitEvent::Searched(there.search)),
        InitAction::Stop(_) => Some(InitEvent::Stopped),
        InitAction::EnableShortPackets(_) => Some(InitEvent::ShortPacketsEnabled),
        InitAction::EnableCompletions(_) => Some(InitEvent::CompletionsEnabled),
        InitAction::ResetPort1 => Some(InitEvent::Port1Reset),
        InitAction::ReadPort1 => Some(InitEvent::Port1Read(there.port1)),
        InitAction::EnablePort1(_) => Some(InitEvent::Port1Enabled),
        InitAction::ResetPort2 => Some(InitEvent::Port2Reset),
        InitAction::ReadPort2 => Some(InitEvent::Port2Read(there.port2)),
        InitAction::EnablePort2(_) => Some(InitEvent::Port2Enabled),
        InitAction::ReadFrameBase => Some(InitEvent::FrameBaseRead(there.frame_base)),
        InitAction::MapFrameList(_) => Some(InitEvent::FrameListMapped(there.frame_list)),
        InitAction::MapQhPool => Some(InitEvent::QhPoolMapped(there.qh_pool)),
        InitAction::MapTdPool => Some(InitEvent::TdPoolMapped(there.td_pool)),
        InitAction::MapDevicePool => Some(InitEvent::DevicePoolMapped(there.device_pool)),
        InitAction::MapBuffer => Some(InitEvent::BufferMapped(there.buffer)),
        InitAction::CleanFrameList => Some(InitEvent::FrameListCleaned),
        InitAction::Start(_) => Some(InitEvent::Started),
        InitAction::Finish(_) => None,
    }
}

/// All that is done there, from what follows `event` on.
pub open spec fn done_after(event: InitEvent, there: Surroundings) -> Seq<InitAction>
    decreases events_left(event),
{
    let action = init_step(event);
    seq![action] + match outcome_of(action, there) {
        Some(next) => done_after(next, there),
        None => seq![],
    }
}

/// The edit that sets or clears the bits of `mask` in a register.
pub open spec fn edit_of(
    register: crate::registers::Register,
    mask: u16,
    on: bool,
) -> Option<RegisterEdit> {
    Some(
        RegisterEdit {
            register,
            change: if on {
                crate::registers::BitChange::Raise(mask)
            } else {
                crate::registers::BitChange::Lower(mask)
            },
        },
    )
}

/// What is done with the memory, in order: the frame list is mapped where the register says,
/// then both pools, the devices and the buffer; the list is emptied and the controller
/// started. The first mapping that fails is reported, and nothing is done after it.
pub open spec fn memory_plan(there: Surroundings) -> Seq<InitAction> {
    let base = match there.frame_base {
        Some(base) => base as usize,
        None => 0,
    };
    let start = seq![
        InitAction::CleanFrameList,
        InitAction::Start(edit_of(crate::registers::Register::Command, 0x0001, true)),
        InitAction::Finish(Ok(())),
    ];
    seq![InitAction::MapFrameList(base)] + match there.frame_list {
        Err(message) => seq![InitAction::Finish(Err(message))],
        Ok(_) => seq![InitAction::MapQhPool] + match there.qh_pool {
            Err(message) => seq![InitAction::Finish(Err(message))],
            Ok(_) => seq![InitAction::MapTdPool] + match there.td_pool {
                Err(message) => seq![InitAction::Finish(Err(message))],
                Ok(_) => seq![InitAction::MapDevicePool] + match there.device_pool {
                    Err(message) => seq![InitAction::Finish(Err(message))],
                    Ok(_) => seq![InitAction::MapBuffer] + match there.buffer {
                        Err(message) => seq![InitAction::Finish(Err(message))],
                        Ok(_) => start,
                    },
                },
            },
        },
    }
}

/// What is done with a port: it is reset and read, and where it reads with bit 0 set, its
/// enabling function is called with 1.
pub open spec fn port_plan(
    reset: InitAction,
    read: InitAction,
    enable: InitAction,
    bits: Option<u16>,
) -> Seq<InitAction> {
    seq![reset, read] + if bits is Some && bits->0 & 0x0001 != 0 {
        seq![enable]
    } else {
        seq![]
    }
}

/// All that is done to bring a controller up, in order, whatever comes of it: without a
/// controller nothing but the search. With one, it is stopped, the interrupts for short
/// packets and for completed transactions are enabled, both ports are reset and read, and
/// the memory is mapped.
pub proof fn law_whole_bring_up(there: Surroundings)
    ensures
        there.search is Err ==> done_after(InitEvent::Begun, there) == seq![
            InitAction::Search,
            InitAction::Finish(Ok(())),
        ],
        there.search is Ok ==> done_after(InitEvent::Begun, there) == seq![
            InitAction::Search,
            InitAction::Stop(edit_of(crate::registers::Register::Command, 0x0001, false)),
            InitAction::EnableShortPackets(
                edit_of(crate::registers::Register::InterruptEnable, 0x0008, true),
            ),
            InitAction::EnableCompletions(
                edit_of(crate::registers::Register::InterruptEnable, 0x0004, true),
            ),
        ] + port_plan(
            InitAction::ResetPort1,
            InitAction::ReadPort1,
            InitAction::EnablePort1(1),
            there.port1,
        ) + port_plan(
            InitAction::ResetPort2,
            InitAction::ReadPort2,
            InitAction::EnablePort2(1),
            there.port2,
        ) + seq![InitAction::ReadFrameBase] + memory_plan(there),
{
    if there.search is Err {
        reveal_with_fuel(done_after, 2);
        assert(done_after(InitEvent::Begun, there) =~= seq![
            InitAction::Search,
            InitAction::Finish(Ok(())),
        ]);
    } else {
        lemma_memory_plan(there);
        lemma_port2_plan(there);
        lemma_port1_plan(there);
        let stopped = done_after(InitEvent::Stopped, there);
        let searched = done_after(InitEvent::Searched(there.search), there);
        let all = done_after(InitEvent::Begun, there);
        let short = done_after(InitEvent::ShortPacketsEnabled, there);
        let complete = done_after(InitEvent::CompletionsEnabled, there);
        assert(short =~= seq![
            InitAction::EnableCompletions(
                edit_of(crate::registers::Register::InterruptEnable, 0x0004, true),
            ),
        ] + complete);
        assert(stopped =~= seq![
            InitAction::EnableShortPackets(
                edit_of(crate::registers::Register::InterruptEnable, 0x0008, true),
            ),
        ] + short);
        assert(searched =~= seq![
            InitAction::Stop(edit_of(crate::registers::Register::Command, 0x0001, false)),
        ] + stopped);
        assert(all =~= seq![InitAction::Search] + searched);
        let first = seq![
            InitAction::Search,
            InitAction::Stop(edit_of(crate::registers::Register::Command, 0x0001, false)),
            InitAction::EnableShortPackets(
                edit_of(crate::registers::Register::InterruptEnable, 0x0008, true),
            ),
            InitAction::EnableCompletions(
                edit_of(crate::registers::Register::InterruptEnable, 0x0004, true),
            ),
        ];
        assert(all =~= first + complete);
        let port1 = port_plan(
            InitAction::ResetPort1,
            InitAction::ReadPort1,
            InitAction::EnablePort1(1),
            there.port1,
        );
        let port2 = port_plan(
            InitAction::ResetPort2,
            InitAction::ReadPort2,
            InitAction::EnablePort2(1),
            there.port2,
        );
        let rest = memory_plan(there);
        let base = seq![InitAction::ReadFrameBase];
        assert(first + (port1 + (port2 + (base + rest))) =~= first + port1 + port2 + base + rest);
    }
}

proof fn lemma_port1_plan(there: Surroundings)
    ensures
        done_after(InitEvent::CompletionsEnabled, there) == port_plan(
            InitAction::ResetPort1,
            InitAction::ReadPort1,
            InitAction::EnablePort1(1),
            there.port1,
        ) + (seq![InitAction::ResetPort2] + done_after(InitEvent::Port2Reset, there)),
{
    let reset = done_after(InitEvent::CompletionsEnabled, there);
    let read = done_after(InitEvent::Port1Reset, there);
    let known = done_after(InitEvent::Port1Read(there.port1), there);
    let enabled = done_after(InitEvent::Port1Enabled, there);
    let rest = done_after(InitEvent::Port2Reset, there);
    assert(reset =~= seq![InitAction::ResetPort1] + read);
    assert(read =~= seq![InitAction::ReadPort1] + known);
    assert(enabled =~= seq![InitAction::ResetPort2] + rest);
    if there.port1 is Some && there.port1->0 & 0x0001 != 0 {
        assert(known =~= seq![InitAction::EnablePort1(1)] + enabled);
    } else {
        assert(known =~= enabled);
    }
    assert(reset =~= port_plan(
        InitAction::ResetPort1,
        InitAction::ReadPort1,
        InitAction::EnablePort1(1),
        there.port1,
    ) + enabled);
}

proof fn lemma_port2_plan(there: Surroundings)
    ensures
        seq![InitAction::ResetPort2] + done_after(InitEvent::Port2Reset, there) == port_plan(
            InitAction::ResetPort2,
            InitAction::ReadPort2,
            InitAction::EnablePort2(1),
            there.port2,
        ) + (seq![InitAction::ReadFrameBase] + done_after(
            InitEvent::FrameBaseRead(there.frame_base),
            there,
        )),
{
    let read = done_after(InitEvent::Port2Reset, there);
    let known = done_after(InitEvent::Port2Read(there.port2), there);
    let enabled = done_after(InitEvent::Port2Enabled, there);
    let rest = done_after(InitEvent::FrameBaseRead(there.frame_base), there);
    assert(read =~= seq![InitAction::ReadPort2] + known);
    assert(enabled =~= seq![InitAction::ReadFrameBase] + rest);
    if there.port2 is Some && there.port2->0 & 0x0001 != 0 {
        assert(known =~= seq![InitAction::EnablePort2(1)] + enabled);
    } else {
        assert(known =~= enabled);
    }
    assert(seq![InitAction::ResetPort2] + read =~= port_plan(
        InitAction::ResetPort2,
        InitAction::ReadPort2,
        InitAction::EnablePort2(1),
        there.port2,
    ) + enabled);
}

proof fn lemma_memory_plan(there: Surroundings)
    ensures
        done_after(InitEvent::FrameBaseRead(there.frame_base), there) == memory_plan(there),
{
    let cleaned = done_after(InitEvent::FrameListCleaned, there);
    let started = done_after(InitEvent::Started, there);
    let start = seq![
        InitAction::CleanFrameList,
        InitAction::Start(edit_of(crate::registers::Register::Command, 0x0001, true)),
        InitAction::Finish(Ok(())),
    ];
    assert(started =~= seq![InitAction::Finish(Ok(()))]);
    assert(seq![InitAction::CleanFrameList] + cleaned =~= start);
    let buffer = done_after(InitEvent::BufferMapped(there.buffer), there);
    if let Err(message) = there.buffer {
        assert(buffer =~= seq![InitAction::Finish(Err(message))]);
    }
    let device_pool = done_after(InitEvent::DevicePoolMapped(there.device_pool), there);
    if let Err(message) = there.device_pool {
        assert(device_pool =~= seq![InitAction::Finish(Err(message))]);
    }
    let td_pool = done_after(InitEvent::TdPoolMapped(there.td_pool), there);
    if let Err(message) = there.td_pool {
        assert(td_pool =~= seq![InitAction::Finish(Err(message))]);
    }
    let qh_pool = done_after(InitEvent::QhPoolMapped(there.qh_pool), there);
    if let Err(message) = there.qh_pool {
        assert(qh_pool =~= seq![InitAction::Finish(Err(message))]);
    }
    let frame_list = done_after(InitEvent::FrameListMapped(there.frame_list), there);
    if let Err(message) = there.frame_list {
        assert(frame_list =~= seq![InitAction::Finish(Err(message))]);
    }
}

/// Bringing the controller up takes the steps of which [`law_whole_bring_up`] says what they
/// are in all.
pub proof fn law_bring_up_calls(event: InitEvent, action: InitAction)
    requires
        call_ensures(init, (event,), action),
    ensures
        action == init_step(event),
{
}

} // verus!
