//! Queue heads: the words that chain queues of transfer descriptors, and the pool that they
//! are taken from.

use crate::cell::{read_cell, write_cell};
use volatile::Volatile;
use vstd::prelude::*;

verus! {

/// The number of queue heads in the pool.
pub const MAX_QH: usize = 16;

/// The number of bytes that a queue head takes up in the pool.
pub const QH_BYTES: usize = 16;

/// A queue head as it lies in memory.
pub struct UhciQH {
    pub horizontal_pointer: Volatile<u32>,
    pub vertical_pointer: Volatile<u32>,
    /// Not part of what the controller reads: nonzero while the queue head is in use.
    pub active: Volatile<u32>,
    pub _padding_1: u32,
}

/// What a queue head holds.
pub struct QueueHead {
    /// The link to the next queue head.
    pub horizontal_pointer: u32,
    /// The link to the first element of this queue.
    pub vertical_pointer: u32,
    pub active: u32,
    pub padding: u32,
}

impl View for UhciQH {
    type V = QueueHead;

    open spec fn view(&self) -> QueueHead {
        QueueHead {
            horizontal_pointer: crate::cell::cell_value(self.horizontal_pointer),
            vertical_pointer: crate::cell::cell_value(self.vertical_pointer),
            active: crate::cell::cell_value(self.active),
            padding: self._padding_1,
        }
    }
}

/// What the queue heads of a pool hold.
pub open spec fn queue_heads(pool: [UhciQH; MAX_QH]) -> Seq<QueueHead> {
    pool@.map_values(|qh: UhciQH| qh@)
}

/// What taking a queue head does: the first one that is not in use is marked as used and
/// handed out; where all are in use, there is none and nothing changes.
pub open spec fn qh_taken(
    before: Seq<QueueHead>,
    after: Seq<QueueHead>,
    base: usize,
    taken: Option<(usize, usize)>,
) -> bool {
    match taken {
        Some((address, index)) => {
            &&& index < before.len()
            &&& before[index as int].active == 0
            &&& forall|j: int| 0 <= j < index ==> (#[trigger] before[j]).active != 0
            &&& address == base + index * QH_BYTES
            &&& after == before.update(
                index as int,
                QueueHead { active: 1, ..before[index as int] },
            )
        },
        None => {
            &&& forall|j: int| 0 <= j < before.len() ==> (#[trigger] before[j]).active != 0
            &&& after == before
        },
    }
}

/// A queue head with other links.
pub open spec fn chained(qh: QueueHead, horizontal: u32, vertical: u32) -> QueueHead {
    QueueHead { horizontal_pointer: horizontal, vertical_pointer: vertical, ..qh }
}

/// The vertical and the horizontal link of the queue head at `index`, in this order, if the
/// pool is set up.
pub fn qh_pointers(qh_pool: Option<&[UhciQH; MAX_QH]>, index: usize) -> (links: Option<(u32, u32)>)
    requires
        qh_pool is Some ==> index < MAX_QH,
    ensures
        links == match qh_pool {
            Some(pool) => Some(
                (
                    queue_heads(*pool)[index as int].vertical_pointer,
                    queue_heads(*pool)[index as int].horizontal_pointer,
                ),
            ),
            None => None,
        },
{
    match qh_pool {
        Some(pool) => {
            let v_pointer: u32 = read_cell(&pool[index].vertical_pointer);
            let h_pointer: u32 = read_cell(&pool[index].horizontal_pointer);
            Some((v_pointer, h_pointer))
        },
        None => None,
    }
}

/// Takes the first free queue head of the pool and marks it as used. Gives its physical
/// address and its index; `base` is the physical address of the pool. There is nothing to
/// take from a pool that is not set up.
pub fn qh_alloc(qh_pool: Option<&mut [UhciQH; MAX_QH]>, base: usize) -> (taken: Option<
    (usize, usize),
>)
    requires
        base + MAX_QH * QH_BYTES - 1 <= usize::MAX,
    ensures
        match qh_pool {
            Some(pool) => qh_taken(queue_heads(*pool), queue_heads(*final(pool)), base, taken),
            None => taken is None,
        },
{
    match qh_pool {
        Some(pool) => {
            let mut index: usize = 0;
            while index < MAX_QH && read_cell(&pool[index].active) != 0
                invariant
                    index <= MAX_QH,
                    forall|j: int| 0 <= j < index ==> (#[trigger] pool@[j])@.active != 0,
                ensures
                    index < MAX_QH ==> pool@[index as int]@.active == 0,
                decreases MAX_QH - index,
            {
                index += 1;
            }
            let ghost before = queue_heads(*pool);
            if index < MAX_QH {
                write_cell(&mut pool[index].active, 1);
                proof {
                    let taken = QueueHead { active: 1, ..before[index as int] };
                    assert(queue_heads(*pool) =~= before.update(index as int, taken));
                }
                Some((base + index * QH_BYTES, index))
            } else {
                None
            }
        },
        None => None,
    }
}

/// Sets both links of the queue head at `index`. Does nothing to a pool that is not set up.
pub fn init_qh(
    qh_pool: Option<&mut [UhciQH; MAX_QH]>,
    index: usize,
    horizontal_pointer: u32,
    element_pointer: u32,
)
    requires
        qh_pool is Some ==> index < MAX_QH,
    ensures
        match qh_pool {
            Some(pool) => queue_heads(*final(pool)) == queue_heads(*pool).update(
                index as int,
                chained(queue_heads(*pool)[index as int], horizontal_pointer, element_pointer),
            ),
            None => true,
        },
{
    match qh_pool {
        Some(pool) => {
            let ghost before = queue_heads(*pool);
            write_cell(&mut pool[index].horizontal_pointer, horizontal_pointer);
            write_cell(&mut pool[index].vertical_pointer, element_pointer);
            assert(queue_heads(*pool) =~= before.update(index as int, pool@[index as int]@));
        },
        None => {},
    }
}

/// The address of a queue head can be linked to: in a pool whose address leaves the four
/// low bits free, so does the address of every queue head handed out, and the queue heads
/// of two indices do not overlap.
pub proof fn law_addresses_are_apart(
    before: Seq<QueueHead>,
    after: Seq<QueueHead>,
    base: usize,
    taken: (usize, usize),
    other: int,
)
    requires
        before.len() == MAX_QH,
        base % 16 == 0,
        qh_taken(before, after, base, Some(taken)),
        0 <= other < MAX_QH,
        other != taken.1,
    ensures
        taken.0 % 16 == 0,
        base <= taken.0,
        taken.0 + QH_BYTES <= base + MAX_QH * QH_BYTES,
        taken.0 + QH_BYTES <= base + other * QH_BYTES || base + other * QH_BYTES + QH_BYTES
            <= taken.0,
{
}

/// A queue head that is in use is not handed out, and stays as it is.
pub proof fn law_used_is_not_taken(
    before: Seq<QueueHead>,
    after: Seq<QueueHead>,
    base: usize,
    taken: (usize, usize),
    index: int,
)
    requires
        0 <= index < before.len(),
        before[index].active != 0,
        qh_taken(before, after, base, Some(taken)),
    ensures
        taken.1 != index,
        after[index] == before[index],
{
}

/// Two queue heads taken one after the other are two: neither their indices nor their
/// addresses are the same.
pub proof fn law_taken_twice_differs(
    first: Seq<QueueHead>,
    second: Seq<QueueHead>,
    third: Seq<QueueHead>,
    base: usize,
    a: (usize, usize),
    b: (usize, usize),
)
    requires
        qh_taken(first, second, base, Some(a)),
        qh_taken(second, third, base, Some(b)),
    ensures
        a.1 != b.1,
        a.0 != b.0,
{
}

/// Setting the links of a queue head leaves it in use, or free, as it was.
pub proof fn law_chaining_keeps_use(qh: QueueHead, horizontal: u32, vertical: u32)
    ensures
        chained(qh, horizontal, vertical).active == qh.active,
{
}

/// The number of queue heads that are not in use.
pub open spec fn free_count(qhs: Seq<QueueHead>) -> nat
    decreases qhs.len(),
{
    if qhs.len() == 0 {
        0
    } else {
        free_count(qhs.drop_last()) + (if qhs.last().active == 0 {
            1nat
        } else {
            0
        })
    }
}

proof fn lemma_free_count_use(qhs: Seq<QueueHead>, index: int, qh: QueueHead)
    requires
        0 <= index < qhs.len(),
        qhs[index].active == 0,
        qh.active != 0,
    ensures
        free_count(qhs.update(index, qh)) == free_count(qhs) - 1,
    decreases qhs.len(),
{
    let updated = qhs.update(index, qh);
    if index == qhs.len() - 1 {
        assert(updated.drop_last() =~= qhs.drop_last());
    } else {
        lemma_free_count_use(qhs.drop_last(), index, qh);
        assert(updated.drop_last() =~= qhs.drop_last().update(index, qh));
    }
}

proof fn lemma_free_count_none(qhs: Seq<QueueHead>)
    requires
        forall|j: int| 0 <= j < qhs.len() ==> (#[trigger] qhs[j]).active != 0,
    ensures
        free_count(qhs) == 0,
    decreases qhs.len(),
{
    if qhs.len() > 0 {
        assert(qhs.last().active != 0);
        assert forall|j: int| 0 <= j < qhs.drop_last().len() implies (
        #[trigger] qhs.drop_last()[j]).active != 0 by {
            assert(qhs[j].active != 0);
        }
        lemma_free_count_none(qhs.drop_last());
    }
}

/// Taking succeeds exactly as long as a queue head is free, and uses up one of them.
pub proof fn law_taking_counts_down(
    before: Seq<QueueHead>,
    after: Seq<QueueHead>,
    base: usize,
    taken: Option<(usize, usize)>,
)
    requires
        qh_taken(before, after, base, taken),
    ensures
        taken is Some <==> free_count(before) > 0,
        taken is Some ==> free_count(after) == free_count(before) - 1,
        taken is None ==> free_count(after) == 0,
{
    match taken {
        Some((_, index)) => {
            let used = QueueHead { active: 1, ..before[index as int] };
            lemma_free_count_use(before, index as int, used);
        },
        None => {
            lemma_free_count_none(before);
        },
    }
}

/// What a queue head holds is what its words hold, each under its own name.
pub proof fn law_queue_head_is_its_words(qh: UhciQH)
    ensures
        qh@.horizontal_pointer == crate::cell::cell_value(qh.horizontal_pointer),
        qh@.vertical_pointer == crate::cell::cell_value(qh.vertical_pointer),
        qh@.active == crate::cell::cell_value(qh.active),
        qh@.padding == qh._padding_1,
{
}

/// The pool's queue heads are its 16 elements, one for one.
pub proof fn law_pool_is_its_queue_heads(pool: [UhciQH; MAX_QH], index: int)
    requires
        0 <= index < 16,
    ensures
        queue_heads(pool).len() == 16,
        queue_heads(pool)[index] == pool@[index]@,
{
}

/// Setting the links of a queue head replaces both, whatever they were, and nothing else.
pub proof fn law_chaining_replaces_links(qh: QueueHead, horizontal: u32, vertical: u32)
    ensures
        chained(qh, horizontal, vertical).horizontal_pointer == horizontal,
        chained(qh, horizontal, vertical).vertical_pointer == vertical,
        chained(qh, horizontal, vertical).active == qh.active,
        chained(qh, horizontal, vertical).padding == qh.padding,
{
}

/// A queue head is taken exactly if one has 0 in its use word: the first such, which then has
/// 1 there and is otherwise as it was. Its address is 16 bytes behind the pool's for each
/// queue head before it. Every other queue head, and the size of the pool, stays.
pub proof fn law_first_unused_is_taken(
    before: Seq<QueueHead>,
    after: Seq<QueueHead>,
    base: usize,
    taken: Option<(usize, usize)>,
    other: int,
)
    requires
        qh_taken(before, after, base, taken),
        0 <= other < before.len(),
    ensures
        after.len() == before.len(),
        taken is None ==> before[other].active != 0 && after[other] == before[other],
        taken matches Some((address, index)) ==> {
            &&& index < before.len()
            &&& address == base + 16 * index
            &&& before[index as int].active == 0
            &&& after[index as int].active == 1
            &&& after[index as int].horizontal_pointer == before[index as int].horizontal_pointer
            &&& after[index as int].vertical_pointer == before[index as int].vertical_pointer
            &&& after[index as int].padding == before[index as int].padding
            &&& other < index ==> before[other].active != 0
            &&& other != index ==> after[other] == before[other]
        },
{
}

/// [`qh_alloc`] takes the first queue head whose use word is 0, sets that word to 1 and changes
/// nothing else; it fails exactly if no use word is 0. The address is 16 bytes behind the
/// pool's for each queue head before it.
pub proof fn law_qh_alloc_takes_first_unused(
    pool: &mut [UhciQH; MAX_QH],
    base: usize,
    taken: Option<(usize, usize)>,
    other: int,
)
    requires
        base + 255 <= usize::MAX,
        0 <= other < 16,
        call_ensures(qh_alloc, (Some(pool), base), taken),
    ensures
        taken is None
            ==> crate::cell::cell_value(old(pool)@[other].active) != 0 && final(pool)@[other]@
            == old(pool)@[other]@,
        taken matches Some((address, index)) ==> {
            &&& index < 16
            &&& address == base + 16 * index
            &&& crate::cell::cell_value(old(pool)@[index as int].active) == 0
            &&& crate::cell::cell_value(final(pool)@[index as int].active) == 1
            &&& crate::cell::cell_value(final(pool)@[index as int].horizontal_pointer)
                == crate::cell::cell_value(old(pool)@[index as int].horizontal_pointer)
            &&& crate::cell::cell_value(final(pool)@[index as int].vertical_pointer)
                == crate::cell::cell_value(old(pool)@[index as int].vertical_pointer)
            &&& other < index ==> crate::cell::cell_value(old(pool)@[other].active) != 0
            &&& other != index ==> final(pool)@[other]@ == old(pool)@[other]@
        },
{
    let before = queue_heads(*pool);
    let after = queue_heads(*final(pool));
    law_first_unused_is_taken(before, after, base, taken, other);
    assert(before[other] == pool@[other]@ && after[other] == final(pool)@[other]@);
    if let Some((address, index)) = taken {
        assert(before[index as int] == pool@[index as int]@);
        assert(after[index as int] == final(pool)@[index as int]@);
    }
}

/// The links that [`init_qh`] sets are those that [`qh_pointers`] reads, the vertical one
/// first, whatever they were. The use word, and every other queue head, stays as it was.
pub proof fn law_links_set_are_links_read(
    pool: &mut [UhciQH; MAX_QH],
    index: usize,
    horizontal: u32,
    vertical: u32,
    links: Option<(u32, u32)>,
    other: int,
)
    requires
        index < 16,
        0 <= other < 16,
        call_ensures(init_qh, (Some(pool), index, horizontal, vertical), ()),
        call_ensures(qh_pointers, (Some(&*final(pool)), index), links),
    ensures
        links == Some((vertical, horizontal)),
        crate::cell::cell_value(final(pool)@[index as int].horizontal_pointer) == horizontal,
        crate::cell::cell_value(final(pool)@[index as int].vertical_pointer) == vertical,
        crate::cell::cell_value(final(pool)@[index as int].active)
            == crate::cell::cell_value(old(pool)@[index as int].active),
        other != index ==> final(pool)@[other]@ == old(pool)@[other]@,
{
    assert(queue_heads(*final(pool))[index as int] == final(pool)@[index as int]@);
    assert(queue_heads(*final(pool))[other] == final(pool)@[other]@);
    assert(queue_heads(*pool)[other] == pool@[other]@);
    assert(queue_heads(*pool)[index as int] == pool@[index as int]@);
}

/// What is read of a queue head is its words; without a pool nothing is read, and nothing is
/// taken.
pub proof fn law_queue_head_is_read(
    pool: [UhciQH; MAX_QH],
    index: usize,
    base: usize,
    links: Option<(u32, u32)>,
    none: Option<(u32, u32)>,
    taken: Option<(usize, usize)>,
)
    requires
        index < 16,
        base + 255 <= usize::MAX,
        call_ensures(qh_pointers, (Some(&pool), index), links),
        call_ensures(qh_pointers, (None, index), none),
        call_ensures(qh_alloc, (None, base), taken),
    ensures
        links == Some(
            (
                crate::cell::cell_value(pool@[index as int].vertical_pointer),
                crate::cell::cell_value(pool@[index as int].horizontal_pointer),
            ),
        ),
        none is None,
        taken is None,
{
}

} // verus!
