//! The frame list: for each of 1024 frames the link to what the controller is to do in it.

use crate::cell::{read_cell, write_cell};
use crate::td::TD_PTR_QH;
use volatile::Volatile;
use vstd::prelude::*;

verus! {

/// The number of frames in the list.
pub const FRAMES: usize = 1024;

/// A link that leads nowhere.
pub const EMPTY_FRAME: u32 = 1;

/// A keyboard is asked for its keys in every tenth frame.
pub const KEYBOARD_PERIOD: usize = 10;

/// The number of frames in which a keyboard is asked.
pub const KEYBOARD_FRAMES: usize = 103;

/// What the frames of a list hold.
pub open spec fn frame_links(frame_list: [Volatile<u32>; FRAMES]) -> Seq<u32> {
    frame_list@.map_values(|cell: Volatile<u32>| crate::cell::cell_value(cell))
}

/// Whether a frame may be given to somebody: it holds nothing, or a link that leads
/// nowhere.
pub open spec fn is_free(link: u32) -> bool {
    link == 0 || link % 2 == 1
}

/// What giving a frame away does: the first free frame gets the link; where no frame is
/// free, there is none and nothing changes.
pub open spec fn frame_linked(
    before: Seq<u32>,
    after: Seq<u32>,
    link: u32,
    frame: Option<usize>,
) -> bool {
    match frame {
        Some(index) => {
            &&& index < before.len()
            &&& is_free(before[index as int])
            &&& forall|j: int| 0 <= j < index ==> !is_free(#[trigger] before[j])
            &&& after == before.update(index as int, link)
        },
        None => {
            &&& forall|j: int| 0 <= j < before.len() ==> !is_free(#[trigger] before[j])
            &&& after == before
        },
    }
}

/// Whether a keyboard is asked in the frame at `index`.
pub open spec fn is_keyboard_frame(index: int) -> bool {
    index % KEYBOARD_PERIOD as int == 0
}

/// Empties every frame of the list. Does nothing to a list that is not set up.
pub fn clean_framelist(frame_list: Option<&mut [Volatile<u32>; FRAMES]>)
    ensures
        match frame_list {
            Some(list) => frame_links(*final(list)) == Seq::new(
                FRAMES as nat,
                |i: int| EMPTY_FRAME,
            ),
            None => true,
        },
{
    match frame_list {
        Some(list) => {
            clean_frames(list);
        },
        None => {},
    }
}

fn clean_frames(list: &mut [Volatile<u32>; FRAMES])
    ensures
        frame_links(*final(list)) == Seq::new(FRAMES as nat, |i: int| EMPTY_FRAME),
{
    let mut index: usize = 0;
    while index < FRAMES
        invariant
            index <= FRAMES,
            forall|j: int| 0 <= j < index ==> #[trigger] frame_links(*list)[j] == EMPTY_FRAME,
        decreases FRAMES - index,
    {
        let ghost links = frame_links(*list);
        write_cell(&mut list[index], EMPTY_FRAME);
        assert(frame_links(*list) =~= links.update(index as int, EMPTY_FRAME));
        index += 1;
    }
    assert(frame_links(*list) =~= Seq::new(FRAMES as nat, |i: int| EMPTY_FRAME));
}

/// Sets the frame at `index` to 0. Does nothing to a list that is not set up.
pub fn clean_a_frame(frame_list: Option<&mut [Volatile<u32>; FRAMES]>, index: usize)
    requires
        frame_list is Some ==> index < FRAMES,
    ensures
        match frame_list {
            Some(list) => frame_links(*final(list)) == frame_links(*list).update(index as int, 0),
            None => true,
        },
{
    match frame_list {
        Some(list) => {
            let ghost before = frame_links(*list);
            write_cell(&mut list[index], 0);
            assert(frame_links(*list) =~= before.update(index as int, 0));
        },
        None => {},
    }
}

/// The index of the first free frame, or [`FRAMES`] where no frame is free.
fn first_free_frame(list: &[Volatile<u32>; FRAMES]) -> (index: usize)
    ensures
        index <= FRAMES,
        index < FRAMES ==> is_free(frame_links(*list)[index as int]),
        forall|j: int| 0 <= j < index ==> !is_free(#[trigger] frame_links(*list)[j]),
{
    let mut index: usize = 0;
    while index < FRAMES
        invariant
            index <= FRAMES,
            forall|j: int| 0 <= j < index ==> !is_free(#[trigger] frame_links(*list)[j]),
        decreases FRAMES - index,
    {
        if frame_is_free(&list[index]) {
            return index;
        }
        index += 1;
    }
    index
}

fn frame_is_free(frame: &Volatile<u32>) -> (free: bool)
    ensures
        free == is_free(crate::cell::cell_value(*frame)),
{
    proof {
        let link = crate::cell::cell_value(*frame);
        assert(link & 0x1 == 0x1 <==> link % 2 == 1) by (bit_vector);
    }
    read_cell(frame) == 0 || read_cell(frame) & 0x1 == 0x1
}

/// Gives the first free frame to the queue head at `pointer`, and says which frame that is.
/// There is no frame in a list that is not set up.
pub fn qh_link_to_framelist(
    frame_list: Option<&mut [Volatile<u32>; FRAMES]>,
    pointer: u32,
) -> (frame: Option<usize>)
    ensures
        match frame_list {
            Some(list) => frame_linked(
                frame_links(*list),
                frame_links(*final(list)),
                pointer | TD_PTR_QH,
                frame,
            ),
            None => frame is None,
        },
{
    match frame_list {
        Some(list) => link_first_free(list, pointer | TD_PTR_QH),
        None => None,
    }
}

/// Gives the first free frame to the transfer descriptor at `pointer`, and says which frame
/// that is. There is no frame in a list that is not set up.
pub fn td_link_to_framelist(
    frame_list: Option<&mut [Volatile<u32>; FRAMES]>,
    pointer: u32,
) -> (frame: Option<usize>)
    ensures
        match frame_list {
            Some(list) => frame_linked(
                frame_links(*list),
                frame_links(*final(list)),
                pointer,
                frame,
            ),
            None => frame is None,
        },
{
    match frame_list {
        Some(list) => link_first_free(list, pointer),
        None => None,
    }
}

fn link_first_free(list: &mut [Volatile<u32>; FRAMES], link: u32) -> (frame: Option<usize>)
    ensures
        frame_linked(frame_links(*old(list)), frame_links(*final(list)), link, frame),
{
    let index: usize = first_free_frame(list);
    let ghost before = frame_links(*list);
    if index < FRAMES {
        write_cell(&mut list[index], link);
        assert(frame_links(*list) =~= before.update(index as int, link));
        Some(index)
    } else {
        None
    }
}

/// Gives those of the keyboard frames that are free to the transfer descriptor at `pointer`.
/// Does nothing to a list that is not set up.
pub fn td_link_keyboard_framelist(frame_list: Option<&mut [Volatile<u32>; FRAMES]>, pointer: u32)
    ensures
        match frame_list {
            Some(list) => frame_links(*final(list)) == with_keyboard(frame_links(*list), pointer),
            None => true,
        },
{
    match frame_list {
        Some(list) => {
            link_keyboard_frames(list, pointer);
        },
        None => {},
    }
}

/// A list in which the free ones among the keyboard frames hold `link`.
pub open spec fn with_keyboard(before: Seq<u32>, link: u32) -> Seq<u32> {
    Seq::new(
        before.len(),
        |i: int|
            if is_keyboard_frame(i) && is_free(before[i]) {
                link
            } else {
                before[i]
            },
    )
}

fn link_keyboard_frames(list: &mut [Volatile<u32>; FRAMES], pointer: u32)
    ensures
        frame_links(*final(list)) == with_keyboard(frame_links(*old(list)), pointer),
{
    let ghost before = frame_links(*list);
    let mut x: usize = 0;
    while x < KEYBOARD_FRAMES
        invariant
            x <= KEYBOARD_FRAMES,
            forall|j: int|
                0 <= j < KEYBOARD_PERIOD * x && j < FRAMES ==> #[trigger] frame_links(*list)[j]
                    == with_keyboard(before, pointer)[j],
            forall|j: int|
                KEYBOARD_PERIOD * x <= j < FRAMES ==> #[trigger] frame_links(*list)[j] == before[j],
            before.len() == FRAMES,
        decreases KEYBOARD_FRAMES - x,
    {
        let index: usize = KEYBOARD_PERIOD * x;
        let ghost links = frame_links(*list);
        if frame_is_free(&list[index]) {
            write_cell(&mut list[index], pointer);
            assert(frame_links(*list) =~= links.update(index as int, pointer));
        }
        assert forall|j: int| 0 <= j < KEYBOARD_PERIOD * (x + 1) && j < FRAMES implies
            #[trigger] frame_links(*list)[j] == with_keyboard(before, pointer)[j] by {
            assert(links[index as int] == before[index as int]);
            if index <= j {
                assert(is_keyboard_frame(j) <==> j == index);
                assert(links[j] == before[j]);
            }
        }
        x += 1;
    }
    assert(frame_links(*list) =~= with_keyboard(before, pointer));
}

/// The link in the frame at `index`, if the list is set up.
pub fn frame_link_pointer(frame_list: Option<&[Volatile<u32>; FRAMES]>, index: usize) -> (link:
    Option<u32>)
    requires
        frame_list is Some ==> index < FRAMES,
    ensures
        link == match frame_list {
            Some(list) => Some(frame_links(*list)[index as int]),
            None => None,
        },
{
    match frame_list {
        Some(list) => Some(read_cell(&list[index])),
        None => None,
    }
}

/// The link that was given a frame stands in it, and every other frame stays as it was.
pub proof fn law_linking_changes_one_frame(
    before: Seq<u32>,
    after: Seq<u32>,
    link: u32,
    frame: usize,
    other: int,
)
    requires
        frame_linked(before, after, link, Some(frame)),
        0 <= other < before.len(),
        other != frame,
    ensures
        after[frame as int] == link,
        after[other] == before[other],
{
}

/// A frame that somebody has is not given away.
pub proof fn law_occupied_frame_is_kept(
    before: Seq<u32>,
    after: Seq<u32>,
    link: u32,
    frame: Option<usize>,
    index: int,
)
    requires
        frame_linked(before, after, link, frame),
        0 <= index < before.len(),
        !is_free(before[index]),
    ensures
        frame matches Some(given) ==> given != index,
        after[index] == before[index],
{
}

/// Two frames given away one after the other are two, as long as the first link leads
/// somewhere.
pub proof fn law_linked_twice_differs(
    first: Seq<u32>,
    second: Seq<u32>,
    third: Seq<u32>,
    link_a: u32,
    link_b: u32,
    a: usize,
    b: usize,
)
    requires
        frame_linked(first, second, link_a, Some(a)),
        frame_linked(second, third, link_b, Some(b)),
        !is_free(link_a),
    ensures
        a < b,
        third[a as int] == link_a,
        third[b as int] == link_b,
{
    assert(second[a as int] == link_a);
    if b < a {
        assert(!is_free(first[b as int]));
    }
}

/// The link to a queue head leads somewhere, as long as its address is even.
pub proof fn law_queue_head_link_is_occupied(pointer: u32)
    requires
        pointer % 2 == 0,
    ensures
        !is_free(pointer | TD_PTR_QH),
{
    assert((pointer | 2) != 0 && (pointer | 2) % 2 == 0) by (bit_vector)
        requires
            pointer % 2 == 0,
    ;
}

/// In a list that has just been emptied every frame is free, and the first one is given
/// away first.
pub proof fn law_empty_list_gives_first_frame(after: Seq<u32>, link: u32, frame: Option<usize>)
    requires
        frame_linked(Seq::new(FRAMES as nat, |i: int| EMPTY_FRAME), after, link, frame),
    ensures
        frame == Some(0usize),
{
    let empty = Seq::new(FRAMES as nat, |i: int| EMPTY_FRAME);
    assert(is_free(empty[0]));
}

/// After a frame has been cleaned, one can be given away: this one or an earlier one.
pub proof fn law_cleaned_frame_can_be_linked(
    before: Seq<u32>,
    index: int,
    after: Seq<u32>,
    link: u32,
    frame: Option<usize>,
)
    requires
        0 <= index < before.len(),
        frame_linked(before.update(index, 0), after, link, frame),
    ensures
        frame matches Some(given) && given <= index,
{
    assert(is_free(before.update(index, 0)[index]));
}

/// Giving the keyboard its frames takes no frame from anybody, touches no frame but the
/// keyboard's, and a second time changes nothing more.
pub proof fn law_keyboard_takes_free_frames(before: Seq<u32>, link: u32, index: int)
    requires
        0 <= index < before.len(),
    ensures
        !is_free(before[index]) ==> with_keyboard(before, link)[index] == before[index],
        !is_keyboard_frame(index) ==> with_keyboard(before, link)[index] == before[index],
        is_keyboard_frame(index) && is_free(before[index]) ==> with_keyboard(before, link)[index]
            == link,
        with_keyboard(with_keyboard(before, link), link) == with_keyboard(before, link),
{
    assert(with_keyboard(with_keyboard(before, link), link) =~= with_keyboard(before, link));
}

/// A link leaves its frame free exactly if it is 0 or has its lowest bit set.
pub proof fn law_free_is_empty_or_terminated(link: u32)
    ensures
        is_free(link) <==> link == 0 || link & 1 == 1,
{
    assert(link & 1 == 1 <==> link % 2 == 1) by (bit_vector);
}

/// A frame is given exactly if there is one that is 0 or has its lowest bit set; it is the
/// first such frame, the link then stands in it as it is, and every other frame, as well as
/// the list's length, stays.
pub proof fn law_first_free_frame_gets_the_link(
    before: Seq<u32>,
    after: Seq<u32>,
    link: u32,
    frame: Option<usize>,
    other: int,
)
    requires
        frame_linked(before, after, link, frame),
        0 <= other < before.len(),
    ensures
        after.len() == before.len(),
        frame is None ==> before[other] != 0 && before[other] % 2 == 0 && after[other]
            == before[other],
        frame matches Some(given) ==> {
            &&& given < before.len()
            &&& before[given as int] == 0 || before[given as int] % 2 == 1
            &&& after[given as int] == link
            &&& other < given ==> before[other] != 0 && before[other] % 2 == 0
            &&& other != given ==> after[other] == before[other]
        },
{
    assert(is_free(before[other]) || !is_free(before[other]));
}

/// The keyboard's frames are those whose index is a multiple of ten. After the keyboard has
/// got its frames, each of them that was 0 or had its lowest bit set holds the link as it
/// is, and every other frame, as well as the list's length, is as it was.
pub proof fn law_keyboard_gets_every_tenth_frame(before: Seq<u32>, link: u32, index: int)
    requires
        0 <= index < before.len(),
    ensures
        with_keyboard(before, link).len() == before.len(),
        with_keyboard(before, link)[index] == (if index % 10 == 0 && (before[index] == 0
            || before[index] % 2 == 1) {
            link
        } else {
            before[index]
        }),
{
}

/// The words of the list are the frames, one for one.
pub proof fn law_frames_are_the_words(frame_list: [Volatile<u32>; FRAMES], index: int)
    requires
        0 <= index < 1024,
    ensures
        frame_links(frame_list).len() == 1024,
        frame_links(frame_list)[index] == crate::cell::cell_value(frame_list@[index]),
{
}

/// After [`clean_framelist`] every word of the list is 1.
pub proof fn law_cleaned_list_is_empty(list: &mut [Volatile<u32>; FRAMES], index: int)
    requires
        0 <= index < 1024,
        call_ensures(clean_framelist, (Some(list),), ()),
    ensures
        crate::cell::cell_value(final(list)@[index]) == 1,
{
    assert(frame_links(*final(list))[index] == crate::cell::cell_value(final(list)@[index]));
}

/// After [`clean_a_frame`] the word of that frame is 0, and every other is as it was.
pub proof fn law_cleaned_frame_is_zero(
    list: &mut [Volatile<u32>; FRAMES],
    index: usize,
    other: int,
)
    requires
        index < 1024,
        0 <= other < 1024,
        call_ensures(clean_a_frame, (Some(list), index), ()),
    ensures
        crate::cell::cell_value(final(list)@[index as int]) == 0,
        other != index ==> crate::cell::cell_value(final(list)@[other]) == crate::cell::cell_value(
            old(list)@[other],
        ),
{
    assert(frame_links(*final(list))[index as int] == crate::cell::cell_value(
        final(list)@[index as int],
    ));
    assert(frame_links(*final(list))[other] == crate::cell::cell_value(final(list)@[other]));
    assert(frame_links(*list)[other] == crate::cell::cell_value(list@[other]));
}

/// [`qh_link_to_framelist`] puts the pointer with the queue head bit into the first frame that
/// is 0 or has its lowest bit set, and changes no other; it fails exactly if there is no such
/// frame.
/// What [`frame_link_pointer`] then reads of the frame is that link.
pub proof fn law_qh_link_to_framelist_takes_first_free(
    list: &mut [Volatile<u32>; FRAMES],
    pointer: u32,
    frame: Option<usize>,
    read: Option<u32>,
    other: int,
)
    requires
        0 <= other < 1024,
        call_ensures(qh_link_to_framelist, (Some(list), pointer), frame),
        frame matches Some(given) ==> call_ensures(
            frame_link_pointer,
            (Some(&*final(list)), given),
            read,
        ),
    ensures
        frame is None ==> {
            &&& crate::cell::cell_value(old(list)@[other]) != 0
            &&& crate::cell::cell_value(old(list)@[other]) % 2 == 0
            &&& crate::cell::cell_value(final(list)@[other])
                == crate::cell::cell_value(old(list)@[other])
        },
        frame matches Some(given) ==> {
            &&& given < 1024
            &&& crate::cell::cell_value(old(list)@[given as int]) == 0 || crate::cell::cell_value(
                old(list)@[given as int],
            ) % 2 == 1
            &&& crate::cell::cell_value(final(list)@[given as int]) == pointer | 2
            &&& read == Some(pointer | 2)
            &&& other < given
                ==> crate::cell::cell_value(old(list)@[other]) != 0 && crate::cell::cell_value(
                old(list)@[other],
            ) % 2 == 0
            &&& other != given ==> crate::cell::cell_value(final(list)@[other])
                == crate::cell::cell_value(old(list)@[other])
        },
{
    let before = frame_links(*list);
    let after = frame_links(*final(list));
    law_first_free_frame_gets_the_link(before, after, pointer | 2, frame, other);
    assert(before[other] == crate::cell::cell_value(list@[other]));
    assert(after[other] == crate::cell::cell_value(final(list)@[other]));
    if let Some(given) = frame {
        assert(before[given as int] == crate::cell::cell_value(list@[given as int]));
        assert(after[given as int] == crate::cell::cell_value(final(list)@[given as int]));
    }
}

/// [`td_link_to_framelist`] puts the pointer as it is into the first frame that is 0 or
/// has its lowest bit set, and changes no other; it fails exactly if there is no such frame.
/// What [`frame_link_pointer`] then reads of the frame is that link.
pub proof fn law_td_link_to_framelist_takes_first_free(
    list: &mut [Volatile<u32>; FRAMES],
    pointer: u32,
    frame: Option<usize>,
    read: Option<u32>,
    other: int,
)
    requires
        0 <= other < 1024,
        call_ensures(td_link_to_framelist, (Some(list), pointer), frame),
        frame matches Some(given) ==> call_ensures(
            frame_link_pointer,
            (Some(&*final(list)), given),
            read,
        ),
    ensures
        frame is None ==> {
            &&& crate::cell::cell_value(old(list)@[other]) != 0
            &&& crate::cell::cell_value(old(list)@[other]) % 2 == 0
            &&& crate::cell::cell_value(final(list)@[other])
                == crate::cell::cell_value(old(list)@[other])
        },
        frame matches Some(given) ==> {
            &&& given < 1024
            &&& crate::cell::cell_value(old(list)@[given as int]) == 0 || crate::cell::cell_value(
                old(list)@[given as int],
            ) % 2 == 1
            &&& crate::cell::cell_value(final(list)@[given as int]) == pointer
            &&& read == Some(pointer)
            &&& other < given
                ==> crate::cell::cell_value(old(list)@[other]) != 0 && crate::cell::cell_value(
                old(list)@[other],
            ) % 2 == 0
            &&& other != given ==> crate::cell::cell_value(final(list)@[other])
                == crate::cell::cell_value(old(list)@[other])
        },
{
    let before = frame_links(*list);
    let after = frame_links(*final(list));
    law_first_free_frame_gets_the_link(before, after, pointer, frame, other);
    assert(before[other] == crate::cell::cell_value(list@[other]));
    assert(after[other] == crate::cell::cell_value(final(list)@[other]));
    if let Some(given) = frame {
        assert(before[given as int] == crate::cell::cell_value(list@[given as int]));
        assert(after[given as int] == crate::cell::cell_value(final(list)@[given as int]));
    }
}

/// [`td_link_keyboard_framelist`] puts the pointer into every tenth frame, from the first on,
/// that is 0 or has its lowest bit set, and changes no other.
pub proof fn law_keyboard_call_fills_free_tenths(
    list: &mut [Volatile<u32>; FRAMES],
    pointer: u32,
    index: int,
)
    requires
        0 <= index < 1024,
        call_ensures(td_link_keyboard_framelist, (Some(list), pointer), ()),
    ensures
        crate::cell::cell_value(final(list)@[index]) == (if index % 10 == 0 && (
        crate::cell::cell_value(old(list)@[index]) == 0
            || crate::cell::cell_value(old(list)@[index]) % 2 == 1) {
            pointer
        } else {
            crate::cell::cell_value(old(list)@[index])
        }),
{
    assert(frame_links(*list)[index] == crate::cell::cell_value(list@[index]));
    assert(frame_links(*final(list))[index] == crate::cell::cell_value(final(list)@[index]));
}

/// What is read of a frame is its word; without a list nothing is read and no frame is given.
pub proof fn law_frame_is_read(
    list: [Volatile<u32>; FRAMES],
    index: usize,
    pointer: u32,
    link: Option<u32>,
    none: Option<u32>,
    qh_frame: Option<usize>,
    td_frame: Option<usize>,
)
    requires
        index < 1024,
        call_ensures(frame_link_pointer, (Some(&list), index), link),
        call_ensures(frame_link_pointer, (None, index), none),
        call_ensures(qh_link_to_framelist, (None, pointer), qh_frame),
        call_ensures(td_link_to_framelist, (None, pointer), td_frame),
    ensures
        link == Some(crate::cell::cell_value(list@[index as int])),
        none is None,
        qh_frame is None,
        td_frame is None,
{
}

} // verus!
