use usb_uhci::{
    buffer_pointer_alloc, init, map_pool, BitChange, InitAction, InitEvent, MapAction, MapEvent,
    MappedFrame, PageFlags, Register, RegisterEdit,
};

/// Brings a controller up: `answer` says what came of an action.
fn bring_up(answer: impl Fn(InitAction) -> InitEvent) -> Vec<InitAction> {
    let mut event = InitEvent::Begun;
    let mut actions = vec![];
    loop {
        let action = init(event);
        actions.push(action);
        if let InitAction::Finish(_) = action {
            return actions;
        }
        event = answer(action);
    }
}

fn all_well(action: InitAction) -> InitEvent {
    match action {
        InitAction::Search => InitEvent::Searched(Ok(())),
        InitAction::Stop(_) => InitEvent::Stopped,
        InitAction::EnableShortPackets(_) => InitEvent::ShortPacketsEnabled,
        InitAction::EnableCompletions(_) => InitEvent::CompletionsEnabled,
        InitAction::ResetPort1 => InitEvent::Port1Reset,
        InitAction::ReadPort1 => InitEvent::Port1Read(Some(1)),
        InitAction::EnablePort1(_) => InitEvent::Port1Enabled,
        InitAction::ResetPort2 => InitEvent::Port2Reset,
        InitAction::ReadPort2 => InitEvent::Port2Read(Some(1)),
        InitAction::EnablePort2(_) => InitEvent::Port2Enabled,
        InitAction::ReadFrameBase => InitEvent::FrameBaseRead(Some(0x1234_5678)),
        InitAction::MapFrameList(_) => InitEvent::FrameListMapped(Ok(())),
        InitAction::MapQhPool => InitEvent::QhPoolMapped(Ok(())),
        InitAction::MapTdPool => InitEvent::TdPoolMapped(Ok(())),
        InitAction::MapDevicePool => InitEvent::DevicePoolMapped(Ok(())),
        InitAction::MapBuffer => InitEvent::BufferMapped(Ok(())),
        InitAction::CleanFrameList => InitEvent::FrameListCleaned,
        InitAction::Start(_) => InitEvent::Started,
        InitAction::Finish(_) => panic!("nothing comes of this"),
    }
}

fn edit(register: Register, change: BitChange) -> Option<RegisterEdit> {
    Some(RegisterEdit { register, change })
}

#[test]
fn everything_goes_well() {
    assert_eq!(
        bring_up(all_well),
        vec![
            InitAction::Search,
            InitAction::Stop(edit(Register::Command, BitChange::Lower(1))),
            InitAction::EnableShortPackets(edit(Register::InterruptEnable, BitChange::Raise(8))),
            InitAction::EnableCompletions(edit(Register::InterruptEnable, BitChange::Raise(4))),
            InitAction::ResetPort1,
            InitAction::ReadPort1,
            InitAction::EnablePort1(1),
            InitAction::ResetPort2,
            InitAction::ReadPort2,
            InitAction::EnablePort2(1),
            InitAction::ReadFrameBase,
            InitAction::MapFrameList(0x1234_5678),
            InitAction::MapQhPool,
            InitAction::MapTdPool,
            InitAction::MapDevicePool,
            InitAction::MapBuffer,
            InitAction::CleanFrameList,
            InitAction::Start(edit(Register::Command, BitChange::Raise(1))),
            InitAction::Finish(Ok(())),
        ]
    );
}

#[test]
fn nothing_is_connected() {
    let actions = bring_up(|action| match action {
        InitAction::ReadPort1 => InitEvent::Port1Read(Some(0xFFFE)),
        InitAction::ReadPort2 => InitEvent::Port2Read(None),
        InitAction::ReadFrameBase => InitEvent::FrameBaseRead(None),
        other => all_well(other),
    });
    assert_eq!(actions.len(), 17);
    assert!(actions.contains(&InitAction::MapFrameList(0)));
    assert!(!actions.contains(&InitAction::EnablePort1(1)));
    assert!(!actions.contains(&InitAction::EnablePort2(1)));
    assert_eq!(actions[16], InitAction::Finish(Ok(())));
}

#[test]
fn there_is_no_controller() {
    let actions = bring_up(|_| InitEvent::Searched(Err("none")));
    assert_eq!(actions, vec![InitAction::Search, InitAction::Finish(Ok(()))]);
}

#[test]
fn a_mapping_fails() {
    for (failing, failure, length) in [
        (InitAction::MapFrameList(0x1234_5678), InitEvent::FrameListMapped(Err("no")), 13),
        (InitAction::MapQhPool, InitEvent::QhPoolMapped(Err("no")), 14),
        (InitAction::MapTdPool, InitEvent::TdPoolMapped(Err("no")), 15),
        (InitAction::MapDevicePool, InitEvent::DevicePoolMapped(Err("no")), 16),
        (InitAction::MapBuffer, InitEvent::BufferMapped(Err("no")), 17),
    ] {
        let actions =
            bring_up(|action| if action == failing { failure } else { all_well(action) });
        assert_eq!(actions.len(), length);
        assert_eq!(actions[length - 1], InitAction::Finish(Err("no")));
        assert!(!actions.iter().any(|action| matches!(action, InitAction::Start(_))));
    }
}

const FLAGS: PageFlags =
    PageFlags { present: true, writable: true, no_cache: true, no_execute: true };

#[test]
fn mapping_a_given_frame() {
    let map = |event| usb_uhci::mapping::map(0x8123, event);
    assert_eq!(map(MapEvent::Begun), MapAction::AllocatePages(1));
    assert_eq!(map(MapEvent::PagesAllocated(true)), MapAction::SeekAllocator);
    assert_eq!(
        map(MapEvent::PagesAllocated(false)),
        MapAction::Finish(Err("out of virtual address space for EHCI Capability Registers)!"))
    );
    assert_eq!(
        map(MapEvent::AllocatorSought(true)),
        MapAction::MapPages { frame: MappedFrame::Containing(0x8123), flags: FLAGS }
    );
    assert_eq!(
        map(MapEvent::AllocatorSought(false)),
        MapAction::Finish(Err("EHCI::init(): couldn't get FRAME_ALLOCATOR"))
    );
    assert_eq!(map(MapEvent::Mapped(Ok(()))), MapAction::Finish(Ok(())));
    assert_eq!(map(MapEvent::Mapped(Err("full"))), MapAction::Finish(Err("full")));
}

#[test]
fn mapping_a_new_frame() {
    assert_eq!(map_pool(MapEvent::Begun), MapAction::AllocateFrame);
    assert_eq!(map_pool(MapEvent::FrameAllocated), MapAction::AllocatePages(1));
    assert_eq!(map_pool(MapEvent::PagesAllocated(true)), MapAction::SeekAllocator);
    assert_eq!(
        map_pool(MapEvent::PagesAllocated(false)),
        MapAction::Finish(Err("out of virtual address space for EHCI Capability Registers)!"))
    );
    assert_eq!(
        map_pool(MapEvent::AllocatorSought(true)),
        MapAction::MapPages { frame: MappedFrame::Allocated, flags: FLAGS }
    );
    assert_eq!(
        map_pool(MapEvent::AllocatorSought(false)),
        MapAction::Finish(Err("EHCI::init(): couldn't get FRAME_ALLOCATOR"))
    );
    assert_eq!(map_pool(MapEvent::Mapped(Err("full"))), MapAction::Finish(Err("full")));
}

#[test]
fn buffer_pointers_wrap_once() {
    assert_eq!(buffer_pointer_alloc(true, 0), Some(0));
    assert_eq!(buffer_pointer_alloc(true, 4095), Some(4095));
    assert_eq!(buffer_pointer_alloc(true, 4096), Some(0));
    assert_eq!(buffer_pointer_alloc(true, 8191), Some(4095));
    assert_eq!(buffer_pointer_alloc(true, 8192), Some(4096));
    assert_eq!(buffer_pointer_alloc(true, usize::MAX), Some(usize::MAX - 4096));
    assert_eq!(buffer_pointer_alloc(false, 0), None);
}
