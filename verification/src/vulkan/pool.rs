//! Bounded pools of output images, each in the hands of at most one import.

use vstd::prelude::*;

use crate::vulkan::types::Nv12ImportStrategy;

verus! {

/// What an output slot has to match to be used again.
pub trait OutputKey: Copy {
    /// Tests that two slots are interchangeable.
    fn same_output(&self, other: &Self) -> (same: bool)
        ensures
            same == (*self == *other),
    ;
}

/// The shape of a biplanar output.
#[derive(Clone, Copy, Debug, PartialEq, Eq)]
pub struct Nv12OutputKey {
    pub dimensions: (u32, u32),
    pub strategy: Nv12ImportStrategy,
}

impl OutputKey for Nv12OutputKey {
    fn same_output(&self, other: &Self) -> (same: bool) {
        self.dimensions.0 == other.dimensions.0 && self.dimensions.1 == other.dimensions.1
            && self.strategy == other.strategy
    }
}

/// The shape of a packed output.
#[derive(Clone, Copy, Debug, PartialEq, Eq)]
pub struct PackedOutputKey {
    pub dimensions: (u32, u32),
}

impl OutputKey for PackedOutputKey {
    fn same_output(&self, other: &Self) -> (same: bool) {
        self.dimensions.0 == other.dimensions.0 && self.dimensions.1 == other.dimensions.1
    }
}

/// An output with its resources `R`. A slot that is in use belongs to its import; a slot that is
/// idle lies in its place in the pool.
#[derive(Debug)]
pub struct OutputSlot<K, R> {
    /// The number of the slot's place.
    pub ticket: u64,
    pub key: K,
    pub resources: R,
    /// Some import has been submitted into the slot, so that its images have contents.
    pub initialized: bool,
}

/// The place of a slot. It is empty while the slot is in use.
#[derive(Debug)]
pub struct SlotPlace<K, R> {
    pub ticket: u64,
    pub key: K,
    pub idle: Option<OutputSlot<K, R>>,
}

impl<K, R> SlotPlace<K, R> {
    /// The place while its slot is in use.
    pub open spec fn emptied(self) -> SlotPlace<K, R> {
        SlotPlace { idle: None, ..self }
    }

    /// The place with its slot back.
    pub open spec fn filled(self, slot: OutputSlot<K, R>) -> SlotPlace<K, R> {
        SlotPlace { idle: Some(slot), ..self }
    }
}

/// A pool of at most `max_slots` outputs.
#[derive(Debug)]
pub struct OutputPool<K, R> {
    pub places: Vec<SlotPlace<K, R>>,
    pub max_slots: usize,
    pub next_ticket: u64,
}

/// The pool of biplanar outputs.
pub type Nv12OutputPool<R> = OutputPool<Nv12OutputKey, R>;

/// The pool of packed outputs.
pub type PackedOutputPool<R> = OutputPool<PackedOutputKey, R>;

/// What the pool grants to a request for an output.
#[derive(Debug)]
pub enum SlotClaim<K, R> {
    /// An idle slot of the right shape.
    Reuse(OutputSlot<K, R>),
    /// There is room for a new slot. Where another slot had to go for it, its resources are left to
    /// destroy.
    Create { dropped: Option<R> },
}

/// The first place at or behind `from` with an idle slot of the right shape.
pub open spec fn matching_place<K, R>(places: Seq<SlotPlace<K, R>>, key: K, from: int) -> Option<
    int,
>
    decreases places.len() - from,
{
    if from < 0 || from >= places.len() {
        None
    } else if places[from].key == key && places[from].idle is Some {
        Some(from)
    } else {
        matching_place(places, key, from + 1)
    }
}

/// The first place at or behind `from` with an idle slot.
pub open spec fn idle_place<K, R>(places: Seq<SlotPlace<K, R>>, from: int) -> Option<int>
    decreases places.len() - from,
{
    if from < 0 || from >= places.len() {
        None
    } else if places[from].idle is Some {
        Some(from)
    } else {
        idle_place(places, from + 1)
    }
}

/// The first place at or behind `from` with this number.
pub open spec fn place_of<K, R>(places: Seq<SlotPlace<K, R>>, ticket: u64, from: int) -> Option<int>
    decreases places.len() - from,
{
    if from < 0 || from >= places.len() {
        None
    } else if places[from].ticket == ticket {
        Some(from)
    } else {
        place_of(places, ticket, from + 1)
    }
}

/// How many of the first `count` places are empty.
pub open spec fn slots_in_use<K, R>(places: Seq<SlotPlace<K, R>>, count: int) -> nat
    decreases count,
{
    if count <= 0 || count > places.len() {
        0
    } else {
        slots_in_use(places, count - 1) + (if places[count - 1].idle is None {
            1nat
        } else {
            0
        })
    }
}

/// The places without the one at `index`, whose position the last place takes.
pub open spec fn without_place<K, R>(places: Seq<SlotPlace<K, R>>, index: int) -> Seq<
    SlotPlace<K, R>,
> {
    places.update(index, places.last()).drop_last()
}

/// No two places have the same number.
pub open spec fn tickets_differ<K, R>(places: Seq<SlotPlace<K, R>>) -> bool {
    forall|left: int, right: int|
        0 <= left < right < places.len() ==> (#[trigger] places[left]).ticket != (
        #[trigger] places[right]).ticket
}

/// Idle slots lie in their own places.
pub open spec fn slots_are_in_place<K, R>(places: Seq<SlotPlace<K, R>>) -> bool {
    forall|index: int|
        0 <= index < places.len() ==> match (#[trigger] places[index]).idle {
            Some(slot) => slot.ticket == places[index].ticket && slot.key == places[index].key,
            None => true,
        }
}

proof fn lemma_matching_place<K, R>(places: Seq<SlotPlace<K, R>>, key: K, from: int)
    requires
        0 <= from,
    ensures
        match matching_place(places, key, from) {
            Some(index) => from <= index < places.len() && places[index].key == key
                && places[index].idle is Some,
            None => true,
        },
    decreases places.len() - from,
{
    if from < places.len() && !(places[from].key == key && places[from].idle is Some) {
        lemma_matching_place(places, key, from + 1);
    }
}

/// A slot that was handed out is not handed out again before it is back in its place, whatever is
/// asked for.
pub proof fn a_slot_in_use_is_not_handed_out_again<K, R>(
    places: Seq<SlotPlace<K, R>>,
    key: K,
    other: K,
)
    requires
        tickets_differ(places),
        matching_place(places, key, 0) is Some,
    ensures
        ({
            let claimed = matching_place(places, key, 0).unwrap();
            let after = places.update(claimed, places[claimed].emptied());
            matching_place(after, other, 0) matches Some(index) ==> after[index].ticket
                != places[claimed].ticket
        }),
{
    let claimed = matching_place(places, key, 0).unwrap();
    let after = places.update(claimed, places[claimed].emptied());
    lemma_matching_place(places, key, 0);
    lemma_matching_place(after, other, 0);
}

proof fn lemma_place_of<K, R>(places: Seq<SlotPlace<K, R>>, index: int, from: int)
    requires
        tickets_differ(places),
        0 <= from <= index < places.len(),
    ensures
        place_of(places, places[index].ticket, from) == Some(index),
    decreases index - from,
{
    if from < index {
        lemma_place_of(places, index, from + 1);
    }
}

/// Giving a slot back undoes its claim.
pub proof fn release_undoes_the_claim<K, R>(places: Seq<SlotPlace<K, R>>, key: K)
    requires
        tickets_differ(places),
        slots_are_in_place(places),
        matching_place(places, key, 0) is Some,
    ensures
        ({
            let index = matching_place(places, key, 0).unwrap();
            let slot = places[index].idle.unwrap();
            let claimed = places.update(index, places[index].emptied());
            after_slot_release(claimed, slot) == places && orphan_of(claimed, slot) is None
        }),
{
    lemma_matching_place(places, key, 0);
    let index = matching_place(places, key, 0).unwrap();
    let slot = places[index].idle.unwrap();
    let claimed = places.update(index, places[index].emptied());
    lemma_place_of(claimed, index, 0);
    assert(after_slot_release(claimed, slot) =~= places);
}

/// A new slot has a place, so that it stays in the pool when its import gives it back.
pub proof fn a_new_slot_has_its_place<K, R>(
    places: Seq<SlotPlace<K, R>>,
    slot: OutputSlot<K, R>,
)
    requires
        tickets_differ(places),
        forall|index: int|
            0 <= index < places.len() ==> (#[trigger] places[index]).ticket < slot.ticket,
    ensures
        ({
            let place = SlotPlace { ticket: slot.ticket, key: slot.key, idle: None };
            let occupied = places.push(place);
            after_slot_release(occupied, slot) == places.push(place.filled(slot)) && orphan_of(
                occupied,
                slot,
            ) is None
        }),
{
    let place = SlotPlace { ticket: slot.ticket, key: slot.key, idle: None };
    let occupied = places.push(place);
    lemma_place_of(occupied, places.len() as int, 0);
    assert(after_slot_release(occupied, slot) =~= places.push(place.filled(slot)));
}

impl<K: OutputKey, R> OutputPool<K, R> {
    /// The pool is within its bound, and each slot has a place of its own.
    pub open spec fn well_formed(self) -> bool {
        &&& self.places.len() <= self.max_slots
        &&& tickets_differ(self.places@)
        &&& slots_are_in_place(self.places@)
        &&& forall|index: int|
            0 <= index < self.places.len() ==> (#[trigger] self.places@[index]).ticket
                < self.next_ticket
    }

    /// An empty pool.
    pub fn new(max_slots: usize) -> (pool: OutputPool<K, R>)
        ensures
            pool.well_formed(),
            pool.places@ == Seq::<SlotPlace<K, R>>::empty(),
            pool.max_slots == max_slots,
            pool.next_ticket == 0,
    {
        OutputPool { places: Vec::new(), max_slots, next_ticket: 0 }
    }

    fn find_matching(&self, key: &K) -> (found: Option<usize>)
        ensures
            match found {
                Some(index) => index < self.places.len() && self.places@[index as int].idle is Some
                    && self.places@[index as int].key == *key && matching_place(
                    self.places@,
                    *key,
                    0,
                ) == Some(index as int),
                None => matching_place(self.places@, *key, 0) is None,
            },
    {
        let mut index: usize = 0;
        while index < self.places.len()
            invariant
                index <= self.places.len(),
                matching_place(self.places@, *key, 0) == matching_place(
                    self.places@,
                    *key,
                    index as int,
                ),
            decreases self.places.len() - index,
        {
            if self.places[index].key.same_output(key) && self.places[index].idle.is_some() {
                return Some(index);
            }
            index += 1;
        }
        None
    }

    fn find_idle(&self) -> (found: Option<usize>)
        ensures
            match found {
                Some(index) => index < self.places.len() && self.places@[index as int].idle is Some
                    && idle_place(self.places@, 0) == Some(index as int),
                None => idle_place(self.places@, 0) is None,
            },
    {
        let mut index: usize = 0;
        while index < self.places.len()
            invariant
                index <= self.places.len(),
                idle_place(self.places@, 0) == idle_place(self.places@, index as int),
            decreases self.places.len() - index,
        {
            if self.places[index].idle.is_some() {
                return Some(index);
            }
            index += 1;
        }
        None
    }

    fn find_ticket(&self, ticket: u64) -> (found: Option<usize>)
        ensures
            match found {
                Some(index) => index < self.places.len() && self.places@[index as int].ticket
                    == ticket && place_of(self.places@, ticket, 0) == Some(index as int),
                None => place_of(self.places@, ticket, 0) is None,
            },
    {
        let mut index: usize = 0;
        while index < self.places.len()
            invariant
                index <= self.places.len(),
                place_of(self.places@, ticket, 0) == place_of(self.places@, ticket, index as int),
            decreases self.places.len() - index,
        {
            if self.places[index].ticket == ticket {
                return Some(index);
            }
            index += 1;
        }
        None
    }

    /// Asks for an output: the first idle slot of the right shape, else room for a new one. A full
    /// pool makes room by dropping its first idle slot; where every slot is in use it grants
    /// nothing.
    pub fn claim(&mut self, key: &K) -> (claim: Option<SlotClaim<K, R>>)
        requires
            old(self).well_formed(),
        ensures
            final(self).well_formed(),
            final(self).max_slots == old(self).max_slots,
            final(self).next_ticket == old(self).next_ticket,
            match matching_place(old(self).places@, *key, 0) {
                Some(index) => {
                    &&& claim == Some(
                        SlotClaim::Reuse(old(self).places@[index].idle.unwrap()),
                    )
                    &&& final(self).places@ == old(self).places@.update(
                        index,
                        old(self).places@[index].emptied(),
                    )
                },
                None => if old(self).places.len() < old(self).max_slots {
                    &&& claim == Some(SlotClaim::<K, R>::Create { dropped: None })
                    &&& final(self).places@ == old(self).places@
                } else {
                    match idle_place(old(self).places@, 0) {
                        Some(index) => {
                            &&& claim == Some(
                                SlotClaim::<K, R>::Create {
                                    dropped: Some(old(self).places@[index].idle.unwrap().resources),
                                },
                            )
                            &&& final(self).places@ == without_place(old(self).places@, index)
                        },
                        None => claim is None && final(self).places@ == old(self).places@,
                    }
                },
            },
            claim matches Some(SlotClaim::Create { .. }) ==> final(self).places.len()
                < final(self).max_slots,
    {
        match self.find_matching(key) {
            Some(index) => {
                let slot = self.places[index].idle.take();
                assert(self.places@ =~= old(self).places@.update(
                    index as int,
                    old(self).places@[index as int].emptied(),
                ));
                match slot {
                    Some(slot) => Some(SlotClaim::Reuse(slot)),
                    None => None,
                }
            },
            None => {
                if self.places.len() < self.max_slots {
                    return Some(SlotClaim::Create { dropped: None });
                }
                match self.find_idle() {
                    Some(index) => {
                        let place = self.places.swap_remove(index);
                        assert(self.places@ =~= without_place(old(self).places@, index as int));
                        let dropped = match place.idle {
                            Some(slot) => Some(slot.resources),
                            None => None,
                        };
                        Some(SlotClaim::Create { dropped })
                    },
                    None => None,
                }
            },
        }
    }

    /// Makes a place for a new slot, which is then in use.
    pub fn occupy(&mut self, key: K, resources: R) -> (slot: OutputSlot<K, R>)
        requires
            old(self).well_formed(),
            old(self).places.len() < old(self).max_slots,
            old(self).next_ticket < u64::MAX,
        ensures
            final(self).well_formed(),
            final(self).max_slots == old(self).max_slots,
            final(self).next_ticket == old(self).next_ticket + 1,
            slot == (OutputSlot {
                ticket: old(self).next_ticket,
                key,
                resources,
                initialized: false,
            }),
            final(self).places@ == old(self).places@.push(
                SlotPlace { ticket: old(self).next_ticket, key, idle: None },
            ),
    {
        let ticket: u64 = self.next_ticket;
        self.next_ticket = ticket + 1;
        self.places.push(SlotPlace { ticket, key, idle: None });
        OutputSlot { ticket, key, resources, initialized: false }
    }

    /// Takes a slot back from its import. Where it has no empty place of its shape in this pool, its
    /// resources are left to destroy.
    pub fn release(&mut self, slot: OutputSlot<K, R>) -> (orphan: Option<R>)
        requires
            old(self).well_formed(),
        ensures
            final(self).well_formed(),
            final(self).max_slots == old(self).max_slots,
            final(self).next_ticket == old(self).next_ticket,
            final(self).places@ == after_slot_release(old(self).places@, slot),
            orphan == orphan_of(old(self).places@, slot),
    {
        match self.find_ticket(slot.ticket) {
            Some(index) => {
                if self.places[index].key.same_output(&slot.key) && self.places[index].idle.is_none() {
                    let ghost given = slot;
                    self.places[index].idle = Some(slot);
                    assert(self.places@ =~= after_slot_release(old(self).places@, given));
                    None
                } else {
                    Some(slot.resources)
                }
            },
            None => Some(slot.resources),
        }
    }

    /// How many slots are in use.
    pub fn active_outputs(&self) -> (count: usize)
        ensures
            count == slots_in_use(self.places@, self.places.len() as int),
    {
        let mut count: usize = 0;
        let mut index: usize = 0;
        while index < self.places.len()
            invariant
                count <= index <= self.places.len(),
                count == slots_in_use(self.places@, index as int),
            decreases self.places.len() - index,
        {
            if self.places[index].idle.is_none() {
                count += 1;
            }
            index += 1;
        }
        count
    }
}

/// There is an empty place for the slot.
pub open spec fn has_place<K, R>(places: Seq<SlotPlace<K, R>>, slot: OutputSlot<K, R>) -> bool {
    match place_of(places, slot.ticket, 0) {
        Some(index) => places[index].key == slot.key && places[index].idle is None,
        None => false,
    }
}

/// The resources of a slot that has no place.
pub open spec fn orphan_of<K, R>(places: Seq<SlotPlace<K, R>>, slot: OutputSlot<K, R>) -> Option<R> {
    if has_place(places, slot) {
        None
    } else {
        Some(slot.resources)
    }
}

/// The places after a slot has been given back.
pub open spec fn after_slot_release<K, R>(
    places: Seq<SlotPlace<K, R>>,
    slot: OutputSlot<K, R>,
) -> Seq<SlotPlace<K, R>> {
    if has_place(places, slot) {
        let index = place_of(places, slot.ticket, 0).unwrap();
        places.update(index, places[index].filled(slot))
    } else {
        places
    }
}

} // verus!
