//! A slot map: items live densely packed in a vector, and each is reached through
//! a handle that stays valid until the item is removed.
//!
//! Removing an item moves the last item into the gap, so the data stay dense.
//! The handle of a removed item is free and is handed out again by a later `add`;
//! free handles form a list, newest first.

use crate::utils::handles::Handle;
use crate::utils::handles::HandleType;
use crate::utils::slot_maps::slots::Slot;
use vstd::prelude::*;

verus! {

/// `Vec::capacity`: the number of items that the vector can hold without
/// allocating again, which is at least the number it holds.
#[verifier::external_body]
fn vec_capacity<T>(vec: &Vec<T>) -> (capacity: usize)
    ensures
        capacity >= vec@.len(),
{
    vec.capacity()
}

/// `core::slice::IterMut`: an iterator over the items of a slice that hands each
/// out for changing. Nothing of it is seen from here.
#[verifier::external_type_specification]
#[verifier::external_body]
#[verifier::reject_recursive_types(Item)]
pub struct ExIterMut<'a, Item: 'a>(core::slice::IterMut<'a, Item>);

/// `<[T]>::iter_mut`: an iterator that hands out each item of the slice for
/// changing it in place. Whatever is done through it, the slice keeps its length.
#[verifier::external_body]
fn slice_iter_mut<'a, T>(slice: &'a mut [T]) -> (iter: core::slice::IterMut<'a, T>)
    ensures
        final(slice)@.len() == old(slice)@.len(),
{
    slice.iter_mut()
}

/// The index that `value` stands for.
fn to_index<K: HandleType>(value: K) -> (index: usize)
    requires
        value.index() <= usize::MAX,
    ensures
        index == value.index(),
{
    match value.to_usize() {
        Some(index) => index,
        None => vstd::pervasive::unreached(),
    }
}

/// The value of type `K` that stands for `index`.
fn to_key<K: HandleType>(index: usize) -> (value: K)
    requires
        index <= K::max_index(),
    ensures
        value.index() == index,
{
    match K::from_usize(index) {
        Some(value) => value,
        None => vstd::pervasive::unreached(),
    }
}

/// Whether slot `s` points at an item that points back at it. `index` and
/// `reverse` are what the slots hold, `count` is the number of items.
pub open spec fn slot_is_live(index: Seq<int>, reverse: Seq<int>, count: int, s: int) -> bool {
    &&& 0 <= s < index.len()
    &&& 0 <= index[s] < count
    &&& reverse[index[s]] == s
}

/// The slots are sound: every item has exactly one slot, the free slots form the
/// list `free` without repetition, and every slot is one or the other.
pub open spec fn slots_are_sound(
    index: Seq<int>,
    reverse: Seq<int>,
    count: int,
    free: Seq<int>,
) -> bool {
    &&& reverse.len() == index.len()
    &&& index.len() == count + free.len()
    &&& 0 <= count
    &&& forall|d: int|
        0 <= d < count ==> 0 <= #[trigger] reverse[d] < index.len() && index[reverse[d]] == d
    &&& forall|i: int|
        0 <= i < free.len() ==> 0 <= #[trigger] free[i] < index.len() && !slot_is_live(
            index,
            reverse,
            count,
            free[i],
        )
    &&& forall|i: int, j: int| 0 <= i < j < free.len() ==> #[trigger] free[i] != #[trigger] free[j]
    &&& forall|i: int| 0 <= i < free.len() - 1 ==> index[#[trigger] free[i]] == free[i + 1]
}

/// Giving the first free slot to a new last item keeps the slots sound, makes
/// that slot live, and leaves every other slot as it was.
proof fn lemma_reuse_slot(index: Seq<int>, reverse: Seq<int>, count: int, free: Seq<int>)
    requires
        slots_are_sound(index, reverse, count, free),
        free.len() > 0,
    ensures
        ({
            let slot = free[0];
            let index_after = index.update(slot, count);
            let reverse_after = reverse.update(count, slot);
            &&& count < index.len()
            &&& slots_are_sound(index_after, reverse_after, count + 1, free.skip(1))
            &&& !slot_is_live(index, reverse, count, slot)
            &&& slot_is_live(index_after, reverse_after, count + 1, slot)
            &&& forall|s: int|
                s != slot ==> slot_is_live(index_after, reverse_after, count + 1, s)
                    == slot_is_live(index, reverse, count, s)
            &&& free.len() == 1 || index[slot] == free[1]
        }),
{
    let slot = free[0];
    let index_after = index.update(slot, count);
    let reverse_after = reverse.update(count, slot);
    let free_after = free.skip(1);
    assert(!slot_is_live(index, reverse, count, free[0]));
    assert forall|d: int| 0 <= d < count + 1 implies 0 <= #[trigger] reverse_after[d]
        < index_after.len() && index_after[reverse_after[d]] == d by {
        if d < count {
            assert(index[reverse[d]] == d);
        }
    }
    assert forall|i: int| 0 <= i < free_after.len() implies 0 <= #[trigger] free_after[i]
        < index_after.len()
            && !slot_is_live(index_after, reverse_after, count + 1, free_after[i]) by {
        assert(free_after[i] == free[i + 1]);
        assert(!slot_is_live(index, reverse, count, free[i + 1]));
        assert(free[0] != free[i + 1]);
    }
    assert forall|i: int, j: int| 0 <= i < j < free_after.len() implies #[trigger] free_after[i]
        != #[trigger] free_after[j] by {
        assert(free[i + 1] != free[j + 1]);
    }
    assert forall|i: int| 0 <= i < free_after.len() - 1 implies index_after[#[trigger] free_after[i]]
        == free_after[i + 1] by {
        assert(free_after[i] == free[i + 1]);
        assert(index[free[i + 1]] == free[i + 2]);
        assert(free[0] != free[i + 1]);
    }
    assert forall|s: int| s != slot implies slot_is_live(index_after, reverse_after, count + 1, s)
        == slot_is_live(index, reverse, count, s) by {
        if 0 <= s < index.len() && 0 <= index[s] < count {
            assert(index[reverse[index[s]]] == index[s]);
        }
    }
    if free.len() > 1 {
        assert(index[free[0]] == free[1]);
    }
}

/// Appending a slot for a new last item, where no slot is free, keeps the slots
/// sound, makes the new slot live, and leaves every other slot as it was.
proof fn lemma_append_slot(index: Seq<int>, reverse: Seq<int>, count: int, free: Seq<int>)
    requires
        slots_are_sound(index, reverse, count, free),
        free.len() == 0,
    ensures
        ({
            let index_after = index.push(count);
            let reverse_after = reverse.push(count);
            &&& count == index.len()
            &&& slots_are_sound(index_after, reverse_after, count + 1, free)
            &&& slot_is_live(index_after, reverse_after, count + 1, count)
            &&& forall|s: int|
                s != count ==> slot_is_live(index_after, reverse_after, count + 1, s)
                    == slot_is_live(index, reverse, count, s)
        }),
{
    let index_after = index.push(count);
    let reverse_after = reverse.push(count);
    assert forall|d: int| 0 <= d < count + 1 implies 0 <= #[trigger] reverse_after[d]
        < index_after.len() && index_after[reverse_after[d]] == d by {
        if d < count {
            assert(index[reverse[d]] == d);
        }
    }
    assert forall|s: int| s != count implies slot_is_live(index_after, reverse_after, count + 1, s)
        == slot_is_live(index, reverse, count, s) by {
        if 0 <= s < index.len() && 0 <= index[s] < count {
            assert(index[reverse[index[s]]] == index[s]);
        }
    }
}

/// Taking the item of a live slot out, moving the last item into the gap and
/// putting the slot at the front of the free list keeps the slots sound, makes
/// that slot free, and leaves every other slot live or free as it was.
proof fn lemma_release_slot(
    index: Seq<int>,
    reverse: Seq<int>,
    count: int,
    free: Seq<int>,
    slot: int,
    next: int,
)
    requires
        slots_are_sound(index, reverse, count, free),
        slot_is_live(index, reverse, count, slot),
        free.len() > 0 ==> next == free[0],
    ensures
        ({
            let gap = index[slot];
            let moved = reverse[count - 1];
            let index_after = index.update(moved, gap).update(slot, next);
            let reverse_after = reverse.update(gap, moved);
            &&& 0 <= moved < index.len()
            &&& index[moved] == count - 1
            &&& (moved == slot) == (gap == count - 1)
            &&& slots_are_sound(index_after, reverse_after, count - 1, seq![slot] + free)
            &&& !slot_is_live(index_after, reverse_after, count - 1, slot)
            &&& forall|s: int|
                s != slot ==> slot_is_live(index_after, reverse_after, count - 1, s)
                    == slot_is_live(index, reverse, count, s)
            &&& forall|s: int|
                s != slot && slot_is_live(index, reverse, count, s)
                    ==> index_after[s] == (if index[s]
                    == count - 1 {
                    gap
                } else {
                    index[s]
                })
        }),
{
    let gap = index[slot];
    let last = count - 1;
    let moved = reverse[last];
    let index_after = index.update(moved, gap).update(slot, next);
    let reverse_after = reverse.update(gap, moved);
    let free_after = seq![slot] + free;
    assert(index[reverse[last]] == last);
    assert(index[reverse[gap]] == gap);
    assert forall|d: int| 0 <= d < count - 1 implies 0 <= #[trigger] reverse_after[d]
        < index_after.len() && index_after[reverse_after[d]] == d by {
        assert(index[reverse[d]] == d);
    }
    assert forall|s: int| s != slot implies slot_is_live(index_after, reverse_after, count - 1, s)
        == slot_is_live(index, reverse, count, s) by {
        if 0 <= s < index.len() && 0 <= index[s] < count {
            assert(index[reverse[index[s]]] == index[s]);
        }
    }
    assert(!slot_is_live(index_after, reverse_after, count - 1, slot)) by {
        if 0 <= next < count - 1 {
            assert(index[reverse[next]] == next);
        }
    }
    assert forall|i: int| 0 <= i < free_after.len() implies 0 <= #[trigger] free_after[i]
        < index_after.len()
            && !slot_is_live(index_after, reverse_after, count - 1, free_after[i]) by {
        if i > 0 {
            assert(free_after[i] == free[i - 1]);
            assert(!slot_is_live(index, reverse, count, free[i - 1]));
        }
    }
    assert forall|i: int, j: int| 0 <= i < j < free_after.len() implies #[trigger] free_after[i]
        != #[trigger] free_after[j] by {
        assert(free_after[j] == free[j - 1]);
        assert(!slot_is_live(index, reverse, count, free[j - 1]));
        if i > 0 {
            assert(free_after[i] == free[i - 1]);
        }
    }
    assert forall|i: int| 0 <= i < free_after.len() - 1 implies index_after[#[trigger] free_after[i]]
        == free_after[i + 1] by {
        assert(free_after[i + 1] == free[i]);
        if i > 0 {
            assert(free_after[i] == free[i - 1]);
            assert(!slot_is_live(index, reverse, count, free[i - 1]));
            assert(index[free[i - 1]] == free[i]);
        }
    }
}

/// The slots of the first `n` items.
pub open spec fn owners(reverse: Seq<int>, n: int) -> Set<nat>
    decreases n,
{
    if n <= 0 {
        Set::empty()
    } else {
        owners(reverse, n - 1).insert(reverse[n - 1] as nat)
    }
}

/// Sound slots give the first `n` items `n` different slots, and those are live.
proof fn lemma_owners(index: Seq<int>, reverse: Seq<int>, count: int, free: Seq<int>, n: int)
    requires
        slots_are_sound(index, reverse, count, free),
        0 <= n <= count,
    ensures
        owners(reverse, n).finite(),
        owners(reverse, n).len() == n,
        forall|key: nat| #[trigger]
            owners(reverse, n).contains(key) <==> slot_is_live(index, reverse, count, key as int)
                && index[key as int] < n,
    decreases n,
{
    if n > 0 {
        lemma_owners(index, reverse, count, free, n - 1);
        let slot = reverse[n - 1] as nat;
        assert(index[reverse[n - 1]] == n - 1);
        assert(!owners(reverse, n - 1).contains(slot));
        assert forall|key: nat| #[trigger]
            owners(reverse, n).contains(key) <==> slot_is_live(index, reverse, count, key as int)
                && index[key as int] < n by {
            if key == slot {
            } else if slot_is_live(index, reverse, count, key as int) && index[key as int] == n - 1 {
                assert(reverse[index[key as int]] == key);
            }
        }
    }
}

/// Dense storage of `T` behind handles of index type `K`.
pub struct SlotMap<T, K = u32> where K: HandleType {
    slots: Vec<Slot<K>>,
    data: Vec<T>,
    free_list_head: Option<K>,
    free_list_tail: Option<K>,
    free: Ghost<Seq<int>>,
}

impl<T, K> SlotMap<T, K> where K: HandleType {
    /// The items, densely packed, in the order in which `data` gives them.
    pub closed spec fn spec_data(&self) -> Seq<T> {
        self.data@
    }

    /// Number of slots: handles `0` up to this number have been handed out at
    /// some time.
    pub closed spec fn slot_count(&self) -> nat {
        self.slots@.len()
    }

    /// Number of handles that are free for reuse.
    pub closed spec fn free_count(&self) -> nat {
        self.free@.len()
    }

    /// What the slots hold in `index`, slot by slot.
    pub closed spec fn index_of_slots(&self) -> Seq<int> {
        self.slots@.map_values(|slot: Slot<K>| slot.index.index() as int)
    }

    /// What the slots hold in `reverse_slot`, slot by slot.
    pub closed spec fn reverse_of_slots(&self) -> Seq<int> {
        self.slots@.map_values(|slot: Slot<K>| slot.reverse_slot.index() as int)
    }

    /// Position in the dense data that the slot of `key` points at.
    pub open spec fn position(&self, key: nat) -> int {
        self.index_of_slots()[key as int]
    }

    /// The handle that the item at `position` belongs to.
    pub open spec fn key_at(&self, position: int) -> nat {
        self.reverse_of_slots()[position] as nat
    }

    /// Whether `key` is the handle of an item of the map.
    pub open spec fn contains(&self, key: nat) -> bool {
        slot_is_live(
            self.index_of_slots(),
            self.reverse_of_slots(),
            self.spec_data().len() as int,
            key as int,
        )
    }

    /// The representation is sound: every item has exactly one handle, the free
    /// handles form the free list, and every slot is one or the other.
    pub closed spec fn wf(&self) -> bool {
        &&& slots_are_sound(
            self.index_of_slots(),
            self.reverse_of_slots(),
            self.data@.len() as int,
            self.free@,
        )
        &&& self.slots@.len() == self.slots.len()
        &&& self.slots@.len() <= K::max_index() + 1
        &&& match self.free_list_head {
            Some(head) => self.free@.len() > 0 && head.index() == self.free@[0],
            None => self.free@.len() == 0,
        }
        &&& match self.free_list_tail {
            Some(tail) => self.free@.len() > 0 && tail.index() == self.free@.last(),
            None => self.free@.len() == 0,
        }
    }

    /// Whether `add` has a handle to give: a free one, or a new one that the
    /// index type can still hold.
    pub closed spec fn has_room(&self) -> bool {
        self.free@.len() > 0 || self.slots@.len() <= K::max_index()
    }

    /// The number of the handle that the next `add` gives out: the handle that
    /// was freed last, or a new one where none is free.
    pub closed spec fn next_key(&self) -> nat {
        if self.free@.len() > 0 {
            self.free@[0] as nat
        } else {
            self.slots@.len()
        }
    }

    /// What a sound map guarantees of handles and positions: they pair up.
    pub proof fn lemma_handles_and_positions(&self)
        requires
            self.wf(),
        ensures
            self.slot_count() == self.spec_data().len() + self.free_count(),
            self.slot_count() <= K::max_index() + 1,
            self.free_count() > 0 ==> self.has_room(),
            self.slot_count() <= K::max_index() ==> self.has_room(),
            self.has_room() == (self.spec_data().len() <= K::max_index()),
            forall|key: nat| #[trigger]
                self.contains(key) ==> key < self.slot_count() && 0 <= self.position(key)
                    < self.spec_data().len() && self.key_at(self.position(key)) == key,
            forall|d: int|
                0 <= d < self.spec_data().len() ==> self.contains(#[trigger] self.key_at(d))
                    && self.position(self.key_at(d)) == d,
    {
    }

    /// A sound map has as many handles as items.
    pub proof fn lemma_len_counts_handles(&self)
        requires
            self.wf(),
        ensures
            self@.dom().finite(),
            self@.dom().len() == self.spec_data().len(),
    {
        let count = self.data@.len() as int;
        lemma_owners(self.index_of_slots(), self.reverse_of_slots(), count, self.free@, count);
        assert(self@.dom() =~= owners(self.reverse_of_slots(), count));
    }

    /// An empty map.
    pub fn new() -> (map: SlotMap<T, K>)
        ensures
            map.wf(),
            map.spec_data() == Seq::<T>::empty(),
            map.slot_count() == 0,
            forall|key: nat| !map.contains(key),
    {
        SlotMap {
            slots: Vec::new(),
            data: Vec::new(),
            free_list_head: None,
            free_list_tail: None,
            free: Ghost(Seq::empty()),
        }
    }

    /// An empty map with room for `capacity` items.
    pub fn with_capacity(capacity: usize) -> (map: SlotMap<T, K>)
        ensures
            map.wf(),
            map.spec_data() == Seq::<T>::empty(),
            map.slot_count() == 0,
            forall|key: nat| !map.contains(key),
    {
        SlotMap {
            slots: Vec::with_capacity(capacity),
            data: Vec::with_capacity(capacity),
            free_list_head: None,
            free_list_tail: None,
            free: Ghost(Seq::empty()),
        }
    }

    /// Erases all contents; every handle that was handed out is void.
    pub fn clear(&mut self)
        ensures
            final(self).wf(),
            final(self).spec_data() == Seq::<T>::empty(),
            final(self).slot_count() == 0,
            forall|key: nat| !final(self).contains(key),
    {
        self.slots.clear();
        self.data.clear();
        self.free_list_head = None;
        self.free_list_tail = None;
        self.free = Ghost(Seq::empty());
    }

    /// Number of items.
    pub fn len(&self) -> (len: usize)
        ensures
            len == self.spec_data().len(),
    {
        return self.data.len();
    }

    /// Number of items that the map can hold without allocating again.
    pub fn capacity(&self) -> (capacity: usize)
        ensures
            capacity >= self.spec_data().len(),
    {
        return vec_capacity(&self.data);
    }

    /// The items, densely packed.
    pub fn data(&self) -> (data: &[T])
        ensures
            data@ == self.spec_data(),
    {
        self.data.as_slice()
    }

    /// Everything about the map but the items themselves: the slots and the free
    /// list.
    pub closed spec fn shape(&self) -> (Seq<Slot<K>>, Seq<int>, Option<K>, Option<K>) {
        (self.slots@, self.free@, self.free_list_head, self.free_list_tail)
    }

    /// Two maps of the same shape that hold equally many items have the same
    /// handles at the same positions.
    pub proof fn lemma_same_shape(&self, other: &Self)
        requires
            self.wf(),
            self.shape() == other.shape(),
            self.spec_data().len() == other.spec_data().len(),
        ensures
            other.wf(),
            other.slot_count() == self.slot_count(),
            other.free_count() == self.free_count(),
            other.has_room() == self.has_room(),
            forall|key: nat| #[trigger] other.contains(key) == self.contains(key),
            forall|key: nat| #[trigger] other.position(key) == self.position(key),
            forall|d: int| #[trigger] other.key_at(d) == self.key_at(d),
    {
    }

    /// The items, densely packed, for changing them in place. The slots and the
    /// free list stay as they are, so which item belongs to which handle does not
    /// change (see `lemma_same_shape`).
    pub fn data_mut(&mut self) -> (data: &mut [T])
        ensures
            data@ == old(self).spec_data(),
            final(data)@ == final(self).spec_data(),
            final(self).shape() == old(self).shape(),
    {
        self.data.as_mut_slice()
    }

    /// Iterates over the items in the order of `data`, for changing them in
    /// place. The slots and the free list stay as they are, and so does the
    /// number of items.
    pub fn iter_mut(&mut self) -> (iter: core::slice::IterMut<'_, T>)
        ensures
            final(self).shape() == old(self).shape(),
            final(self).spec_data().len() == old(self).spec_data().len(),
    {
        return slice_iter_mut(self.data.as_mut_slice());
    }

    /// Whether `add` has no handle left to give.
    pub fn is_full(&self) -> (full: bool)
        requires
            self.wf(),
        ensures
            full == !self.has_room(),
    {
        match self.free_list_head {
            Some(_) => false,
            None => K::from_usize(self.slots.len()).is_none(),
        }
    }

    /// The handle that the next `add` gives out, if it has one to give.
    pub fn next_handle(&self) -> (handle: Option<Handle<T, K>>)
        requires
            self.wf(),
        ensures
            handle.is_some() == self.has_room(),
            handle matches Some(next) ==> next.value.index() == self.next_key(),
    {
        match self.free_list_head {
            Some(head) => Some(Handle::new(head)),
            None => match K::from_usize(self.slots.len()) {
                Some(key) => Some(Handle::new(key)),
                None => None,
            },
        }
    }

    /// Whether `key` is the handle of an item of the map.
    pub fn validate_key(&self, key: Handle<T, K>) -> (valid: bool)
        requires
            self.wf(),
        ensures
            valid == self.contains(key.value.index()),
    {
        let slot_number = match key.value.to_usize() {
            Some(slot_number) => slot_number,
            None => {
                return false;
            },
        };
        if slot_number >= self.slots.len() {
            return false;
        }
        let position = match self.slots[slot_number].index.to_usize() {
            Some(position) => position,
            None => {
                return false;
            },
        };
        if position >= self.data.len() {
            return false;
        }
        match self.slots[position].reverse_slot.to_usize() {
            Some(owner) => owner == slot_number,
            None => false,
        }
    }

    /// Adds `item` at the end of the dense data and returns its handle: the
    /// handle that was freed last if there is one, else a new one.
    pub fn add(&mut self, item: T) -> (handle: Handle<T, K>)
        requires
            old(self).wf(),
            old(self).has_room(),
        ensures
            final(self).wf(),
            handle.value.index() == old(self).next_key(),
            !old(self).contains(handle.value.index()),
            final(self).contains(handle.value.index()),
            final(self).position(handle.value.index()) == old(self).spec_data().len(),
            final(self).spec_data() == old(self).spec_data().push(item),
            forall|key: nat|
                key != handle.value.index()
                    ==> #[trigger] final(self).contains(key) == old(self).contains(key),
            forall|key: nat|
                old(self).contains(key)
                    ==> #[trigger] final(self).position(key) == old(self).position(key),
            final(self)@ == old(self)@.insert(handle.value.index(), item),
    {
        let index_in_data = self.data.len();
        let ghost index_before = self.index_of_slots();
        let ghost reverse_before = self.reverse_of_slots();
        proof {
            if self.free@.len() > 0 {
                lemma_reuse_slot(index_before, reverse_before, index_in_data as int, self.free@);
            } else {
                lemma_append_slot(index_before, reverse_before, index_in_data as int, self.free@);
            }
        }
        self.data.push(item);
        let handle = match self.free_list_head {
            Some(index_in_slots) => {
                let slot_number = to_index(index_in_slots);
                let next = self.slots[slot_number].index;
                let last_free = match self.free_list_tail {
                    Some(tail) => to_index(tail),
                    None => slot_number,
                };
                if last_free == slot_number {
                    self.free_list_tail = None;
                    self.free_list_head = None;
                } else {
                    self.free_list_head = Some(next);
                }
                let companion = self.slots[slot_number].reverse_slot;
                self.slots.set(
                    slot_number,
                    Slot { index: to_key(index_in_data), reverse_slot: companion },
                );
                let index = self.slots[index_in_data].index;
                self.slots.set(index_in_data, Slot { index, reverse_slot: index_in_slots });
                proof {
                    self.free@ = self.free@.skip(1);
                    assert(self.index_of_slots() =~= index_before.update(
                        slot_number as int,
                        index_in_data as int,
                    ));
                    assert(self.reverse_of_slots() =~= reverse_before.update(
                        index_in_data as int,
                        slot_number as int,
                    ));
                }
                Handle::new(index_in_slots)
            },
            None => {
                let index_in_slots = self.slots.len();
                let key: K = to_key(index_in_slots);
                self.slots.push(Slot { index: to_key(index_in_data), reverse_slot: key });
                proof {
                    assert(self.index_of_slots() =~= index_before.push(index_in_data as int));
                    assert(self.reverse_of_slots() =~= reverse_before.push(index_in_data as int));
                }
                Handle::new(key)
            },
        };
        proof {
            assert(self@ =~= old(self)@.insert(handle.value.index(), item));
        }
        handle
    }

    /// The item of `key`, if `key` is the handle of an item of the map.
    pub fn get(&self, key: Handle<T, K>) -> (item: Option<&T>)
        requires
            self.wf(),
        ensures
            match item {
                Some(item) => self.contains(key.value.index()) && *item
                    == self.spec_data()[self.position(key.value.index())],
                None => !self.contains(key.value.index()),
            },
    {
        if !self.validate_key(key) {
            return None;
        }
        let slot_number = to_index(key.value);
        let position = to_index(self.slots[slot_number].index);
        Some(&self.data[position])
    }

    /// The item of `key` for changing it in place, if `key` is the handle of an
    /// item of the map. The slots and the free list stay as they are.
    pub fn get_mut(&mut self, key: Handle<T, K>) -> (item: Option<&mut T>)
        requires
            old(self).wf(),
        ensures
            final(self).shape() == old(self).shape(),
            match item {
                Some(item) => {
                    let position = old(self).position(key.value.index());
                    &&& old(self).contains(key.value.index())
                    &&& *item == old(self).spec_data()[position]
                    &&& final(self).spec_data() == old(self).spec_data().update(
                        position,
                        *final(item),
                    )
                },
                None => !old(self).contains(key.value.index())
                    && final(self).spec_data() == old(self).spec_data(),
            },
    {
        if !self.validate_key(key) {
            return None;
        }
        let slot_number = to_index(key.value);
        let position = to_index(self.slots[slot_number].index);
        Some(&mut self.data[position])
    }

    /// Removes the item of `key` and returns it, if `key` is the handle of an
    /// item of the map; the last item of the dense data takes its place. The
    /// handle becomes the first that `add` hands out again.
    pub fn remove(&mut self, key: Handle<T, K>) -> (removed: Option<T>)
        requires
            old(self).wf(),
        ensures
            final(self).wf(),
            match removed {
                Some(item) => {
                    let gap = old(self).position(key.value.index());
                    &&& old(self).contains(key.value.index())
                    &&& item == old(self).spec_data()[gap]
                    &&& !final(self).contains(key.value.index())
                    &&& final(self).spec_data() == old(self).spec_data().update(
                        gap,
                        old(self).spec_data().last(),
                    ).drop_last()
                    &&& forall|other: nat|
                        other != key.value.index() ==> #[trigger] final(self).contains(other)
                            == old(self).contains(other)
                    &&& forall|other: nat|
                        other != key.value.index() && old(self).contains(other)
                            ==> #[trigger] final(self).position(other) == (if old(self).position(
                            other,
                        ) == old(self).spec_data().len() - 1 {
                            gap
                        } else {
                            old(self).position(other)
                        })
                    &&& final(self)@ == old(self)@.remove(key.value.index())
                    &&& final(self).has_room()
                },
                None => !old(self).contains(key.value.index()) && final(self).shape() == old(self).shape()
                    && final(self).spec_data() == old(self).spec_data(),
            },
    {
        if !self.validate_key(key) {
            return None;
        }
        let ghost index_before = self.index_of_slots();
        let ghost reverse_before = self.reverse_of_slots();
        let slot_number = to_index(key.value);
        let gap_key = self.slots[slot_number].index;
        let gap = to_index(gap_key);
        let last = self.data.len() - 1;
        let next = match self.free_list_head {
            Some(list_head) => list_head,
            None => K::zero(),
        };
        proof {
            lemma_release_slot(
                index_before,
                reverse_before,
                self.data@.len() as int,
                self.free@,
                slot_number as int,
                next.index() as int,
            );
        }
        let moved_key = self.slots[last].reverse_slot;
        let moved_slot = to_index(moved_key);
        let item = self.data.swap_remove(gap);
        if gap != last {
            let companion = self.slots[moved_slot].reverse_slot;
            self.slots.set(moved_slot, Slot { index: gap_key, reverse_slot: companion });
            let index = self.slots[gap].index;
            self.slots.set(gap, Slot { index, reverse_slot: moved_key });
        }
        let companion = self.slots[slot_number].reverse_slot;
        self.slots.set(slot_number, Slot { index: next, reverse_slot: companion });
        if self.free_list_head.is_none() {
            self.free_list_tail = Some(key.value);
        }
        self.free_list_head = Some(key.value);
        proof {
            self.free@ = seq![slot_number as int] + self.free@;
            assert(self.index_of_slots() =~= index_before.update(moved_slot as int, gap as int).update(
                slot_number as int,
                next.index() as int,
            ));
            assert(self.reverse_of_slots() =~= reverse_before.update(gap as int, moved_slot as int));
            assert(self@ =~= old(self)@.remove(key.value.index()));
        }
        Some(item)
    }

    /// The handles of the items, in the order of `data`.
    pub fn iter_keys(&self) -> (keys: Vec<Handle<T, K>>)
        requires
            self.wf(),
        ensures
            keys@.len() == self.spec_data().len(),
            forall|d: int| 0 <= d < keys@.len()
                ==> (#[trigger] keys@[d]).value.index() == self.key_at(d),
    {
        let mut keys: Vec<Handle<T, K>> = Vec::new();
        let count = self.data.len();
        let mut current_index: usize = 0;
        while current_index < count
            invariant
                self.wf(),
                count == self.data@.len(),
                current_index <= count,
                keys@.len() == current_index,
                forall|d: int|
                    0 <= d < current_index
                        ==> (#[trigger] keys@[d]).value.index() == self.key_at(d),
            decreases count - current_index,
        {
            keys.push(Handle::new(self.slots[current_index].reverse_slot));
            current_index += 1;
        }
        keys
    }

    /// The items with their handles, in the order of `data`.
    pub fn iter_key_values(&self) -> (pairs: Vec<(Handle<T, K>, &T)>)
        requires
            self.wf(),
        ensures
            pairs@.len() == self.spec_data().len(),
            forall|d: int|
                0 <= d < pairs@.len() ==> (#[trigger] pairs@[d]).0.value.index() == self.key_at(d)
                    && *pairs@[d].1 == self.spec_data()[d],
    {
        let mut pairs: Vec<(Handle<T, K>, &T)> = Vec::new();
        let count = self.data.len();
        let mut current_index: usize = 0;
        while current_index < count
            invariant
                self.wf(),
                count == self.data@.len(),
                current_index <= count,
                pairs@.len() == current_index,
                forall|d: int|
                    0 <= d < current_index ==> (#[trigger] pairs@[d]).0.value.index()
                        == self.key_at(d) && *pairs@[d].1 == self.data@[d],
            decreases count - current_index,
        {
            let key = Handle::new(self.slots[current_index].reverse_slot);
            pairs.push((key, &self.data[current_index]));
            current_index += 1;
        }
        pairs
    }

    /// Iterates over the items in the order of `data`.
    pub fn iter(&self) -> (iter: core::slice::Iter<'_, T>)
        ensures
            vstd::std_specs::slice::into_iter_elts(iter) == self.spec_data(),
    {
        let slice = self.data.as_slice();
        let iter = slice.iter();
        proof {
            vstd::std_specs::slice::axiom_spec_slice_iter(slice);
            assert(vstd::std_specs::slice::into_iter_elts(iter) =~= slice@);
        }
        return iter;
    }
}

impl<T, K> Clone for SlotMap<T, K> where T: Clone, K: HandleType {
    /// A map of the same shape whose items are clones of the items of this one.
    fn clone(&self) -> (copy: Self)
        ensures
            copy.shape() == self.shape(),
            copy.spec_data().len() == self.spec_data().len(),
            forall|d: int|
                0 <= d < self.spec_data().len() ==> cloned::<T>(
                    #[trigger] self.spec_data()[d],
                    copy.spec_data()[d],
                ),
    {
        let mut slots: Vec<Slot<K>> = Vec::with_capacity(self.slots.len());
        let count = self.slots.len();
        let mut s: usize = 0;
        while s < count
            invariant
                s <= count,
                count == self.slots@.len(),
                slots@.len() == s,
                forall|i: int| 0 <= i < s ==> slots@[i] == self.slots@[i],
            decreases count - s,
        {
            slots.push(self.slots[s]);
            s += 1;
        }
        assert(slots@ =~= self.slots@);
        return Self {
            slots,
            data: self.data.clone(),
            free_list_head: self.free_list_head,
            free_list_tail: self.free_list_tail,
            free: Ghost(self.free@),
        };
    }
}

impl<T, K> Default for SlotMap<T, K> where K: HandleType {
    fn default() -> (map: Self)
        ensures
            map.wf(),
            map.spec_data() == Seq::<T>::empty(),
            map.slot_count() == 0,
            forall|key: nat| !map.contains(key),
    {
        SlotMap {
            slots: Vec::new(),
            data: Vec::new(),
            free_list_head: None,
            free_list_tail: None,
            free: Ghost(Seq::empty()),
        }
    }
}

impl<T, K> View for SlotMap<T, K> where K: HandleType {
    type V = Map<nat, T>;

    /// The items by the number of their handle.
    open spec fn view(&self) -> Map<nat, T> {
        Map::new(|key: nat| self.contains(key), |key: nat| self.spec_data()[self.position(key)])
    }
}

} // verus!
