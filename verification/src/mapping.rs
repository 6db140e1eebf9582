//! Getting at physical memory: the order in which a page is mapped, and what is reported
//! when that fails. Allocating and mapping itself is up to the memory manager.

use vstd::prelude::*;

verus! {

/// The size of the data buffer: one page.
pub const BUFFER_BYTES: usize = 4096;

/// How a page is mapped.
#[derive(Clone, Copy, PartialEq, Eq, Structural, Debug)]
pub struct PageFlags {
    pub present: bool,
    pub writable: bool,
    pub no_cache: bool,
    pub no_execute: bool,
}

/// Which frame of physical memory is mapped.
#[derive(Clone, Copy, PartialEq, Eq, Structural, Debug)]
pub enum MappedFrame {
    /// The frame that has just been allocated.
    Allocated,
    /// The frame that contains this physical address.
    Containing(usize),
}

/// What has just happened.
#[derive(Clone, Copy, PartialEq, Eq, Debug)]
pub enum MapEvent {
    Begun,
    FrameAllocated,
    /// Virtual pages have been asked for; this says whether there were any.
    PagesAllocated(bool),
    /// The frame allocator has been looked for; this says whether there is one.
    AllocatorSought(bool),
    /// The pages have been mapped, or could not be.
    Mapped(Result<(), &'static str>),
}

/// What is to be done next.
#[derive(Clone, Copy, PartialEq, Eq, Debug)]
pub enum MapAction {
    /// Allocate a frame of physical memory.
    AllocateFrame,
    /// Allocate this many virtual pages.
    AllocatePages(usize),
    /// Look for the frame allocator.
    SeekAllocator,
    /// Map the pages to this one frame.
    MapPages { frame: MappedFrame, flags: PageFlags },
    /// Report success or this error.
    Finish(Result<(), &'static str>),
}

/// What the controller shares is present, writable, not cached and not executed.
pub open spec fn device_flags() -> PageFlags {
    PageFlags { present: true, writable: true, no_cache: true, no_execute: true }
}

/// What follows once it is settled which frame is mapped.
pub open spec fn map_step(frame: MappedFrame, event: MapEvent) -> MapAction {
    match event {
        MapEvent::Begun | MapEvent::FrameAllocated => MapAction::AllocatePages(1),
        MapEvent::PagesAllocated(true) => MapAction::SeekAllocator,
        MapEvent::PagesAllocated(false) => MapAction::Finish(
            Err("out of virtual address space for EHCI Capability Registers)!"),
        ),
        MapEvent::AllocatorSought(true) => MapAction::MapPages { frame, flags: device_flags() },
        MapEvent::AllocatorSought(false) => MapAction::Finish(
            Err("EHCI::init(): couldn't get FRAME_ALLOCATOR"),
        ),
        MapEvent::Mapped(result) => MapAction::Finish(result),
    }
}

fn map_one_frame(frame: MappedFrame, event: MapEvent) -> (action: MapAction)
    ensures
        action == map_step(frame, event),
{
    match event {
        MapEvent::Begun => MapAction::AllocatePages(1),
        MapEvent::FrameAllocated => MapAction::AllocatePages(1),
        MapEvent::PagesAllocated(there) => {
            if there {
                MapAction::SeekAllocator
            } else {
                MapAction::Finish(
                    Err("out of virtual address space for EHCI Capability Registers)!"),
                )
            }
        },
        MapEvent::AllocatorSought(there) => {
            if there {
                MapAction::MapPages {
                    frame,
                    flags: PageFlags {
                        present: true,
                        writable: true,
                        no_cache: true,
                        no_execute: true,
                    },
                }
            } else {
                MapAction::Finish(Err("EHCI::init(): couldn't get FRAME_ALLOCATOR"))
            }
        },
        MapEvent::Mapped(result) => MapAction::Finish(result),
    }
}

/// Maps the frame that contains `phys_addr`, step by step, from [`MapEvent::Begun`] on: says
/// what follows `event`. No frame is allocated for this.
pub fn map(phys_addr: usize, event: MapEvent) -> (action: MapAction)
    ensures
        action == map_step(MappedFrame::Containing(phys_addr), event),
{
    map_one_frame(MappedFrame::Containing(phys_addr), event)
}

/// Allocates a frame and maps it, step by step, from [`MapEvent::Begun`] on: says what
/// follows `event`.
pub fn map_pool(event: MapEvent) -> (action: MapAction)
    ensures
        action == if event is Begun {
            MapAction::AllocateFrame
        } else {
            map_step(MappedFrame::Allocated, event)
        },
{
    match event {
        MapEvent::Begun => MapAction::AllocateFrame,
        other => map_one_frame(MappedFrame::Allocated, other),
    }
}

/// The place in the buffer for an offset: one behind the end of the buffer's page counts
/// from its beginning again.
pub open spec fn buffer_place(offset: int) -> int {
    if offset >= BUFFER_BYTES {
        offset - BUFFER_BYTES
    } else {
        offset
    }
}

/// Where in the data buffer the pointer for `offset` points to: an offset behind the end of
/// the buffer's page counts from its beginning again. There is none where the buffer is not
/// set up. Whether the buffer reaches that far is for the memory manager to say.
pub fn buffer_pointer_alloc(set_up: bool, offset: usize) -> (place: Option<usize>)
    ensures
        place is Some <==> set_up,
        place matches Some(place) ==> place == buffer_place(offset as int),
{
    if set_up {
        if offset >= BUFFER_BYTES {
            Some(offset - BUFFER_BYTES)
        } else {
            Some(offset)
        }
    } else {
        None
    }
}

/// How mapping ends after `event`, where `pages` says whether there are pages, `allocator`
/// whether there is a frame allocator, and `mapped` whether the pages can be mapped.
pub open spec fn map_outcome(
    frame: MappedFrame,
    event: MapEvent,
    pages: bool,
    allocator: bool,
    mapped: Result<(), &'static str>,
) -> Result<(), &'static str>
    decreases
            match event {
                MapEvent::Begun => 3int,
                MapEvent::FrameAllocated => 3,
                MapEvent::PagesAllocated(_) => 2,
                MapEvent::AllocatorSought(_) => 1,
                MapEvent::Mapped(_) => 0,
            },
{
    match map_step(frame, event) {
        MapAction::AllocatePages(_) => map_outcome(
            frame,
            MapEvent::PagesAllocated(pages),
            pages,
            allocator,
            mapped,
        ),
        MapAction::SeekAllocator => map_outcome(
            frame,
            MapEvent::AllocatorSought(allocator),
            pages,
            allocator,
            mapped,
        ),
        MapAction::MapPages { .. } => map_outcome(
            frame,
            MapEvent::Mapped(mapped),
            pages,
            allocator,
            mapped,
        ),
        MapAction::Finish(result) => result,
        MapAction::AllocateFrame => arbitrary(),
    }
}

/// Mapping succeeds exactly if there are pages and a frame allocator and the pages can be
/// mapped; else the first of these failures is reported.
pub proof fn law_first_failure_is_reported(
    frame: MappedFrame,
    pages: bool,
    allocator: bool,
    mapped: Result<(), &'static str>,
)
    ensures
        map_outcome(frame, MapEvent::Begun, pages, allocator, mapped) == if !pages {
            Err("out of virtual address space for EHCI Capability Registers)!")
        } else if !allocator {
            Err("EHCI::init(): couldn't get FRAME_ALLOCATOR")
        } else {
            mapped
        },
        map_outcome(frame, MapEvent::FrameAllocated, pages, allocator, mapped) == map_outcome(
            frame,
            MapEvent::Begun,
            pages,
            allocator,
            mapped,
        ),
{
    reveal_with_fuel(map_outcome, 4);
}

/// Every offset into two pages' worth of data leads into the buffer's page, and both pages
/// lead to the same places.
pub proof fn law_buffer_wraps_once(offset: int)
    requires
        0 <= offset < BUFFER_BYTES,
    ensures
        buffer_place(offset) == offset,
        buffer_place(offset + BUFFER_BYTES) == offset,
{
}

/// Mapping asks for one page, and maps it to the frame that it is for: present, writable, not
/// cached and not executed. It does so only when the allocator has been found.
pub proof fn law_one_device_page_is_mapped(frame: MappedFrame, event: MapEvent)
    ensures
        map_step(frame, event) matches MapAction::AllocatePages(count) ==> count == 1,
        map_step(frame, event) matches MapAction::MapPages { frame: mapped, flags } ==> {
            &&& event == MapEvent::AllocatorSought(true)
            &&& mapped == frame
            &&& flags.present
            &&& flags.writable
            &&& flags.no_cache
            &&& flags.no_execute
        },
        map_step(frame, event) is SeekAllocator ==> event == MapEvent::PagesAllocated(true),
        !(map_step(frame, event) is AllocateFrame),
        map_step(frame, event) is AllocatePages <==> event is Begun || event is FrameAllocated,
        event matches MapEvent::Mapped(result) ==> map_step(frame, event) == MapAction::Finish(
            result,
        ),
{
}

/// An offset below the buffer's size is its own place; any other lies behind its place by
/// just that size.
pub proof fn law_buffer_place_is_offset_or_page_less(offset: int)
    ensures
        0 <= offset < 4096 ==> buffer_place(offset) == offset,
        4096 <= offset ==> buffer_place(offset) + 4096 == offset,
{
}

/// Mapping a given frame, and a new one, takes the same steps, of which
/// [`law_first_failure_is_reported`] says how they end; but for a new one the frame is
/// allocated first. The place in the buffer is what [`law_buffer_place_is_offset_or_page_less`]
/// says, if the buffer is set up.
pub proof fn law_mapping_calls(
    phys_addr: usize,
    event: MapEvent,
    given: MapAction,
    new: MapAction,
    set_up: bool,
    offset: usize,
    place: Option<usize>,
)
    requires
        call_ensures(map, (phys_addr, event), given),
        call_ensures(map_pool, (event,), new),
        call_ensures(buffer_pointer_alloc, (set_up, offset), place),
    ensures
        given == map_step(MappedFrame::Containing(phys_addr), event),
        event is Begun ==> new == MapAction::AllocateFrame,
        !(event is Begun) ==> new == map_step(MappedFrame::Allocated, event),
        place is Some <==> set_up,
        place is Some && offset < 4096 ==> place->0 == offset,
        place is Some && offset >= 4096 ==> place->0 + 4096 == offset,
{
}

} // verus!
