//! The queue of held direction keys.
//!
//! The queue has four slots. Slot 0 holds the direction that was pressed last
//! among those still held, the slots behind it hold the older ones in the order
//! of their presses, newest first, and the slots behind those are vacant. The
//! direction in slot 0 is the one the player walks in; when its key is
//! released, the one pressed before it takes over.

use std::collections::VecDeque;
use vstd::prelude::*;
use crate::direction::Direction;

verus! {

/// Number of slots of the queue, one for each direction.
pub const QUEUE_CAPACITY: usize = 4;

/// Whether some slot holds `tag`.
pub open spec fn holds(slots: Seq<Option<Direction>>, tag: Direction) -> bool {
    slots.contains(Some(tag))
}

/// No direction occupies two slots.
pub open spec fn no_duplicate_tags(slots: Seq<Option<Direction>>) -> bool {
    forall|i: int, j: int| 0 <= i < j < slots.len() && slots[i] is Some ==> slots[i] != slots[j]
}

/// No held direction stands behind a vacant slot.
pub open spec fn vacant_slots_trail(slots: Seq<Option<Direction>>) -> bool {
    forall|i: int, j: int| 0 <= i < j < slots.len() && slots[i] is None ==> slots[j] is None
}

/// What holds of the slots of every queue.
pub open spec fn queue_wf(slots: Seq<Option<Direction>>) -> bool {
    &&& slots.len() == QUEUE_CAPACITY
    &&& no_duplicate_tags(slots)
    &&& vacant_slots_trail(slots)
}

/// The slots of a queue in which nothing is held.
pub open spec fn vacant_queue() -> Seq<Option<Direction>> {
    Seq::new(QUEUE_CAPACITY as nat, |i: int| None::<Direction>)
}

/// The slots after a press of `tag`: unchanged where `tag` is held already,
/// else `tag` enters at the front and the last slot is dropped.
pub open spec fn pressed(slots: Seq<Option<Direction>>, tag: Direction) -> Seq<Option<Direction>> {
    if holds(slots, tag) {
        slots
    } else {
        seq![Some(tag)] + slots.drop_last()
    }
}

/// The slots after a release of `tag`: unchanged where `tag` is not held, else
/// `tag` leaves, the slots behind it move up by one, and a vacant slot enters
/// at the back.
pub open spec fn released(slots: Seq<Option<Direction>>, tag: Direction) -> Seq<Option<Direction>> {
    if holds(slots, tag) {
        slots.remove_value(Some(tag)).push(None)
    } else {
        slots
    }
}

/// A change to the queue: a key went down, or a key went up.
pub enum QueueOp {
    Press(Direction),
    Release(Direction),
}

/// The slots after `op`.
pub open spec fn applied(slots: Seq<Option<Direction>>, op: QueueOp) -> Seq<Option<Direction>> {
    match op {
        QueueOp::Press(tag) => pressed(slots, tag),
        QueueOp::Release(tag) => released(slots, tag),
    }
}

/// The slots after all of `ops`, first to last.
pub open spec fn applied_all(slots: Seq<Option<Direction>>, ops: Seq<QueueOp>) -> Seq<
    Option<Direction>,
>
    decreases ops.len(),
{
    if ops.len() == 0 {
        slots
    } else {
        applied(applied_all(slots, ops.drop_last()), ops.last())
    }
}

/// Whether `slot` holds `tag`.
fn slot_holds(slot: Option<Direction>, tag: Direction) -> (b: bool)
    ensures
        b == (slot == Some(tag)),
{
    match slot {
        Some(held) => held == tag,
        None => false,
    }
}

/// The directions whose keys are down, newest first.
#[derive(Debug)]
pub struct InputQueue {
    slots: VecDeque<Option<Direction>>,
}

impl View for InputQueue {
    type V = Seq<Option<Direction>>;

    closed spec fn view(&self) -> Seq<Option<Direction>> {
        self.slots@
    }
}

impl InputQueue {
    /// The queue has its four slots, holds no direction twice, and has its
    /// vacant slots at the back.
    pub open spec fn wf(&self) -> bool {
        queue_wf(self@)
    }

    /// Makes the queue in which nothing is held.
    pub fn new() -> (queue: InputQueue)
        ensures
            queue@ == vacant_queue(),
            queue.wf(),
    {
        let mut slots: VecDeque<Option<Direction>> = VecDeque::new();
        while slots.len() < QUEUE_CAPACITY
            invariant
                slots@.len() <= QUEUE_CAPACITY,
                forall|i: int| 0 <= i < slots@.len() ==> slots@[i] is None,
            decreases QUEUE_CAPACITY - slots@.len(),
        {
            slots.push_back(None);
        }
        assert(slots@ =~= vacant_queue());
        InputQueue { slots }
    }

    /// Finds the first slot that holds `tag`.
    pub fn position(&self, tag: Direction) -> (found: Option<usize>)
        ensures
            found is Some <==> holds(self@, tag),
            found matches Some(i) ==> {
                &&& i < self@.len()
                &&& self@[i as int] == Some(tag)
                &&& self@.index_of_first(Some(tag)) == Some(i as int)
                &&& forall|j: int| 0 <= j < i ==> self@[j] != Some(tag)
            },
    {
        let mut i: usize = 0;
        while i < self.slots.len()
            invariant
                i <= self.slots@.len(),
                forall|j: int| 0 <= j < i ==> self.slots@[j] != Some(tag),
            decreases self.slots@.len() - i,
        {
            if slot_holds(self.slots[i], tag) {
                proof {
                    self@.index_of_first_ensures(Some(tag));
                }
                return Some(i);
            }
            i += 1;
        }
        None
    }

    /// Tells whether `tag` is held.
    pub fn contains(&self, tag: Direction) -> (b: bool)
        ensures
            b == holds(self@, tag),
    {
        self.position(tag).is_some()
    }

    /// Records that the key of `tag` went down. Where `tag` is held already
    /// nothing changes; else `tag` takes slot 0 and every other held direction
    /// moves back by one slot.
    pub fn press(&mut self, tag: Direction)
        requires
            old(self).wf(),
        ensures
            final(self)@ == pressed(old(self)@, tag),
            final(self).wf(),
            holds(old(self)@, tag) ==> final(self)@ == old(self)@,
            !holds(old(self)@, tag) ==> final(self)@[0] == Some(tag),
    {
        if !self.contains(tag) {
            self.slots.push_front(Some(tag));
            self.slots.pop_back();
            assert(self.slots@ =~= seq![Some(tag)] + old(self)@.drop_last());
        }
        proof {
            lemma_press_keeps_queue_valid(old(self)@, tag);
        }
    }

    /// Records that the key of `tag` went up. Where `tag` is not held nothing
    /// changes; else `tag` leaves the queue and the directions behind it move
    /// up by one slot.
    pub fn release(&mut self, tag: Direction)
        requires
            old(self).wf(),
        ensures
            final(self)@ == released(old(self)@, tag),
            final(self).wf(),
            !holds(old(self)@, tag) ==> final(self)@ == old(self)@,
            !holds(final(self)@, tag),
            forall|at: int|
                0 <= at < old(self)@.len() && old(self)@[at] == Some(tag)
                    ==> final(self)@ == old(self)@.remove(at).push(None),
    {
        match self.position(tag) {
            Some(i) => {
                self.slots.remove(i);
                self.slots.push_back(None);
            },
            None => {},
        }
        proof {
            lemma_release_keeps_queue_valid(old(self)@, tag);
            lemma_release_holds(old(self)@, tag, tag);
            assert forall|at: int| 0 <= at < old(self)@.len() && old(self)@[at] == Some(tag)
                implies self@ == old(self)@.remove(at).push(None) by {
                lemma_released_at(old(self)@, tag, at);
            }
        }
    }

    /// The direction to walk in: the one in slot 0, or `None` where nothing is
    /// held.
    pub fn active_direction(&self) -> (active: Option<Direction>)
        requires
            self.wf(),
        ensures
            active == self@[0],
            active is None <==> forall|tag: Direction| !holds(self@, tag),
    {
        proof {
            lemma_vacant_front_means_nothing_held(self@);
        }
        self.slots[0]
    }

    /// The four slots, front first.
    pub fn slots(&self) -> (all: Vec<Option<Direction>>)
        ensures
            all@ == self@,
    {
        let mut all: Vec<Option<Direction>> = Vec::new();
        let mut i: usize = 0;
        while i < self.slots.len()
            invariant
                i <= self.slots@.len(),
                all@ == self.slots@.subrange(0, i as int),
            decreases self.slots@.len() - i,
        {
            all.push(self.slots[i]);
            assert(all@ =~= self.slots@.subrange(0, i + 1));
            i += 1;
        }
        assert(all@ =~= self.slots@);
        all
    }
}

/// A press turns a valid queue into a valid queue.
pub proof fn lemma_press_keeps_queue_valid(slots: Seq<Option<Direction>>, tag: Direction)
    requires
        queue_wf(slots),
    ensures
        queue_wf(pressed(slots, tag)),
{
    if !holds(slots, tag) {
        let after = pressed(slots, tag);
        assert(after[0] == Some(tag));
        assert forall|j: int| 1 <= j < after.len() implies #[trigger] after[j] == slots[j - 1] by {}
        assert forall|i: int, j: int| 0 <= i < j < after.len() && after[i] is Some implies after[i]
            != after[j] by {
            assert(slots.contains(slots[j - 1]));
        }
    }
}

/// A held direction stands in one slot only, so a release of it takes it
/// from that slot.
pub proof fn lemma_released_at(slots: Seq<Option<Direction>>, tag: Direction, at: int)
    requires
        no_duplicate_tags(slots),
        0 <= at < slots.len(),
        slots[at] == Some(tag),
    ensures
        released(slots, tag) == slots.remove(at).push(None),
{
    slots.index_of_first_ensures(Some(tag));
    let first = slots.index_of_first(Some(tag)).unwrap();
    if first < at {
        assert(slots[first] != slots[at]);
    }
}

/// A release turns a valid queue into a valid queue.
pub proof fn lemma_release_keeps_queue_valid(slots: Seq<Option<Direction>>, tag: Direction)
    requires
        queue_wf(slots),
    ensures
        queue_wf(released(slots, tag)),
{
    if holds(slots, tag) {
        slots.index_of_first_ensures(Some(tag));
        let at = slots.index_of_first(Some(tag)).unwrap();
        let after = released(slots, tag);
        assert(after.len() == QUEUE_CAPACITY);
        assert(after[3] is None);
        assert forall|j: int| 0 <= j < 3 implies #[trigger] after[j] == (if j < at {
            slots[j]
        } else {
            slots[j + 1]
        }) by {}
    }
}

/// Whatever presses and releases a queue goes through, in whatever order, it
/// keeps its four slots and holds no direction twice; and its vacant slots
/// stay at the back.
pub proof fn lemma_queue_stays_valid(slots: Seq<Option<Direction>>, ops: Seq<QueueOp>)
    requires
        queue_wf(slots),
    ensures
        queue_wf(applied_all(slots, ops)),
        applied_all(slots, ops).len() == QUEUE_CAPACITY,
        no_duplicate_tags(applied_all(slots, ops)),
    decreases ops.len(),
{
    if ops.len() > 0 {
        lemma_queue_stays_valid(slots, ops.drop_last());
        let before = applied_all(slots, ops.drop_last());
        match ops.last() {
            QueueOp::Press(tag) => lemma_press_keeps_queue_valid(before, tag),
            QueueOp::Release(tag) => lemma_release_keeps_queue_valid(before, tag),
        }
    }
}

/// The queue in which nothing is held is valid, and so is every queue that
/// presses and releases lead to from it.
pub proof fn lemma_reachable_queue_is_valid(ops: Seq<QueueOp>)
    ensures
        queue_wf(vacant_queue()),
        queue_wf(applied_all(vacant_queue(), ops)),
{
    lemma_queue_stays_valid(vacant_queue(), ops);
}

/// A press of a held direction changes nothing, so a second press of the
/// same direction changes nothing after the first.
pub proof fn lemma_press_is_idempotent(slots: Seq<Option<Direction>>, tag: Direction)
    ensures
        holds(slots, tag) ==> pressed(slots, tag) == slots,
        pressed(pressed(slots, tag), tag) == pressed(slots, tag),
{
    if !holds(slots, tag) {
        assert(pressed(slots, tag)[0] == Some(tag));
    }
}

/// A release of a direction that is not held changes nothing, so a second
/// release of the same direction changes nothing after the first.
pub proof fn lemma_release_is_idempotent(slots: Seq<Option<Direction>>, tag: Direction)
    requires
        queue_wf(slots),
    ensures
        !holds(slots, tag) ==> released(slots, tag) == slots,
        released(released(slots, tag), tag) == released(slots, tag),
{
    lemma_release_holds(slots, tag, tag);
}

/// The newest press wins, and its release gives the walk back: where `tag`
/// is not held, a press puts it in slot 0, and a release right after it
/// restores the queue as it was.
pub proof fn lemma_release_undoes_press(slots: Seq<Option<Direction>>, tag: Direction)
    requires
        queue_wf(slots),
        !holds(slots, tag),
    ensures
        pressed(slots, tag)[0] == Some(tag),
        released(pressed(slots, tag), tag) == slots,
{
    let after = pressed(slots, tag);
    assert(after[0] == Some(tag));
    after.index_of_first_ensures(Some(tag));
    assert(after.index_of_first(Some(tag)) == Some(0int));
    if slots[3] is Some {
        lemma_full_queue_holds_every_direction(slots, tag);
    }
    assert(released(after, tag) =~= slots);
}

/// After a press of `tag`, the held directions are those held before and
/// `tag`: a press never pushes a held direction out of the queue.
pub proof fn lemma_press_holds(slots: Seq<Option<Direction>>, tag: Direction, other: Direction)
    requires
        queue_wf(slots),
    ensures
        holds(pressed(slots, tag), other) <==> other == tag || holds(slots, other),
{
    if !holds(slots, tag) {
        let after = pressed(slots, tag);
        if slots[3] is Some {
            lemma_full_queue_holds_every_direction(slots, tag);
        }
        assert(after[0] == Some(tag));
        assert forall|j: int| 1 <= j < after.len() implies #[trigger] after[j] == slots[j - 1] by {}
        if holds(slots, other) {
            let k = choose|k: int| 0 <= k < slots.len() && slots[k] == Some(other);
            assert(after[k + 1] == Some(other));
        }
        if holds(after, other) && other != tag {
            let k = choose|k: int| 0 <= k < after.len() && after[k] == Some(other);
            assert(slots[k - 1] == Some(other));
        }
    }
}

/// After a release of `tag`, the held directions are those held before but
/// `tag`.
pub proof fn lemma_release_holds(slots: Seq<Option<Direction>>, tag: Direction, other: Direction)
    requires
        queue_wf(slots),
    ensures
        holds(released(slots, tag), other) <==> other != tag && holds(slots, other),
{
    if holds(slots, tag) {
        slots.index_of_first_ensures(Some(tag));
        let at = slots.index_of_first(Some(tag)).unwrap();
        let after = released(slots, tag);
        assert(after[3] is None);
        assert forall|j: int| 0 <= j < 3 implies #[trigger] after[j] == (if j < at {
            slots[j]
        } else {
            slots[j + 1]
        }) by {}
        if holds(after, other) {
            let k = choose|k: int| 0 <= k < after.len() && after[k] == Some(other);
            assert(k < 3);
            assert(after[k] == (if k < at { slots[k] } else { slots[k + 1] }));
        }
        if other != tag && holds(slots, other) {
            let k = choose|k: int| 0 <= k < slots.len() && slots[k] == Some(other);
            assert(k != at);
            if k < at {
                assert(after[k] == Some(other));
            } else {
                assert(after[k - 1] == Some(other));
            }
        }
    }
}

/// A queue without a vacant slot holds every direction.
pub proof fn lemma_full_queue_holds_every_direction(slots: Seq<Option<Direction>>, tag: Direction)
    requires
        queue_wf(slots),
        slots[3] is Some,
    ensures
        holds(slots, tag),
{
    assert(slots[0] is Some && slots[1] is Some && slots[2] is Some);
    assert(slots[0] != slots[1] && slots[0] != slots[2] && slots[0] != slots[3]);
    assert(slots[1] != slots[2] && slots[1] != slots[3] && slots[2] != slots[3]);
    assert(slots[0] == Some(tag) || slots[1] == Some(tag) || slots[2] == Some(tag) || slots[3]
        == Some(tag));
}

/// Where slot 0 is vacant, nothing is held.
pub proof fn lemma_vacant_front_means_nothing_held(slots: Seq<Option<Direction>>)
    requires
        queue_wf(slots),
    ensures
        slots[0] is None <==> forall|tag: Direction| !holds(slots, tag),
{
    if slots[0] is Some {
        let tag = slots[0]->0;
        assert(slots[0] == Some(tag));
        assert(holds(slots, tag));
    }
}

} // verus!
