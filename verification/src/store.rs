//! A store of records keyed by address.
//!
//! The store offers four operations: create a record at a free address, read
//! the record at an address, replace it, and destroy it. Creating a record at
//! an occupied address fails; nothing else keeps records unique.

use vstd::prelude::*;
use crate::key::Address;

verus! {

/// One occupied address and the record that lives there.
struct Slot<T> {
    address: Address,
    record: T,
}

/// Records of one kind, at most one per address.
///
/// A method that changes the store takes the slots out, changes them and
/// puts them back, so that the store never holds an address twice, not even
/// while the method runs.
pub struct RecordStore<T: View> {
    slots: Vec<Slot<T>>,
}

impl<T: View> View for RecordStore<T> {
    type V = Map<Address, T::V>;

    /// The records by address.
    closed spec fn view(&self) -> Map<Address, T::V> {
        Self::records(self.slots@)
    }
}

impl<T: View> RecordStore<T> {
    /// Whether some slot holds the address.
    spec fn held(slots: Seq<Slot<T>>, a: Address) -> bool {
        exists|i: int| 0 <= i < slots.len() && (#[trigger] slots[i]).address == a
    }

    /// A slot that holds the address, where there is one.
    spec fn slot_of(slots: Seq<Slot<T>>, a: Address) -> int {
        choose|i: int| 0 <= i < slots.len() && (#[trigger] slots[i]).address == a
    }

    /// The records that the slots hold, by address.
    spec fn records(slots: Seq<Slot<T>>) -> Map<Address, T::V> {
        Map::new(
            |a: Address| Self::held(slots, a),
            |a: Address| slots[Self::slot_of(slots, a)].record@,
        )
    }

    /// No address is held by two slots.
    spec fn no_duplicates(slots: Seq<Slot<T>>) -> bool {
        forall|i: int, j: int|
            0 <= i < j < slots.len() ==> (#[trigger] slots[i]).address != (#[trigger] slots[j]).address
    }

    #[verifier::type_invariant]
    spec fn well_formed(&self) -> bool {
        Self::no_duplicates(self.slots@)
    }

    /// Without duplicates, the slot at `i` is the one found for its address.
    proof fn lemma_slot_found(slots: Seq<Slot<T>>, i: int)
        requires
            Self::no_duplicates(slots),
            0 <= i < slots.len(),
        ensures
            Self::held(slots, slots[i].address),
            Self::slot_of(slots, slots[i].address) == i,
            Self::records(slots).contains_key(slots[i].address),
            Self::records(slots)[slots[i].address] == slots[i].record@,
    {
        let a = slots[i].address;
        assert(Self::held(slots, a));
        let j = Self::slot_of(slots, a);
        if j != i {
            assert(slots[j].address == slots[i].address);
        }
    }

    /// A store without records.
    pub fn new() -> (store: Self)
        ensures
            store@ == Map::<Address, T::V>::empty(),
    {
        let store = RecordStore { slots: Vec::new() };
        assert(store@ =~= Map::<Address, T::V>::empty());
        store
    }

    /// The slot that holds the address, if any.
    fn find(&self, address: &Address) -> (found: Option<usize>)
        ensures
            match found {
                Some(i) => i < self.slots@.len() && self.slots@[i as int].address == *address
                    && self@.contains_key(*address) && self@[*address] == self.slots@[i as int].record@,
                None => !self@.contains_key(*address),
            },
    {
        let mut i: usize = 0;
        while i < self.slots.len()
            invariant
                i <= self.slots@.len(),
                forall|j: int| 0 <= j < i ==> (#[trigger] self.slots@[j]).address != *address,
            decreases self.slots@.len() - i,
        {
            if self.slots[i].address == *address {
                proof {
                    use_type_invariant(self);
                    Self::lemma_slot_found(self.slots@, i as int);
                }
                return Some(i);
            }
            i += 1;
        }
        None
    }

    /// Whether a record lives at the address.
    pub fn contains(&self, address: &Address) -> (occupied: bool)
        ensures
            occupied == self@.contains_key(*address),
    {
        self.find(address).is_some()
    }

    /// The record at the address, if one lives there.
    pub fn read(&self, address: &Address) -> (record: Option<&T>)
        ensures
            match record {
                Some(r) => self@.contains_key(*address) && r@ == self@[*address],
                None => !self@.contains_key(*address),
            },
    {
        match self.find(address) {
            Some(i) => Some(&self.slots[i].record),
            None => None,
        }
    }

    /// Puts a record at a free address. At an occupied address nothing
    /// changes and the answer is `false`.
    pub fn create(&mut self, address: Address, record: T) -> (created: bool)
        ensures
            created == !old(self)@.contains_key(address),
            created ==> final(self)@ == old(self)@.insert(address, record@),
            !created ==> final(self)@ == old(self)@,
    {
        match self.find(&address) {
            Some(_) => false,
            None => {
                proof {
                    use_type_invariant(&*self);
                }
                let ghost before = self.slots@;
                let mut slots: Vec<Slot<T>> = Vec::new();
                core::mem::swap(&mut self.slots, &mut slots);
                slots.push(Slot { address, record });
                proof {
                    let after = slots@;
                    assert(Self::no_duplicates(after));
                    Self::lemma_slot_found(after, before.len() as int);
                    assert forall|a: Address| #[trigger] Self::held(after, a) <==> (a == address
                        || Self::held(before, a)) by {
                        if Self::held(before, a) {
                            let i = Self::slot_of(before, a);
                            assert(after[i].address == a);
                        }
                    }
                    assert forall|a: Address| Self::held(before, a) implies Self::records(after)[a]
                        == Self::records(before)[a] by {
                        let i = Self::slot_of(before, a);
                        assert(after[i] == before[i]);
                        Self::lemma_slot_found(after, i);
                    }
                    assert(Self::records(after) =~= Self::records(before).insert(address, record@));
                }
                self.slots = slots;
                true
            },
        }
    }

    /// Replaces the record at an occupied address. At a free address nothing
    /// changes and the answer is `false`.
    pub fn update(&mut self, address: &Address, record: T) -> (updated: bool)
        ensures
            updated == old(self)@.contains_key(*address),
            updated ==> final(self)@ == old(self)@.insert(*address, record@),
            !updated ==> final(self)@ == old(self)@,
    {
        match self.find(address) {
            None => false,
            Some(i) => {
                proof {
                    use_type_invariant(&*self);
                }
                let ghost before = self.slots@;
                let mut slots: Vec<Slot<T>> = Vec::new();
                core::mem::swap(&mut self.slots, &mut slots);
                slots.set(i, Slot { address: *address, record });
                proof {
                    let after = slots@;
                    assert(Self::no_duplicates(after)) by {
                        assert forall|x: int, y: int| 0 <= x < y < after.len() implies (
                        #[trigger] after[x]).address != (#[trigger] after[y]).address by {
                            assert(after[x].address == before[x].address);
                            assert(after[y].address == before[y].address);
                        }
                    }
                    Self::lemma_slot_found(after, i as int);
                    assert forall|a: Address| #[trigger] Self::held(after, a) <==> Self::held(
                        before,
                        a,
                    ) by {
                        if Self::held(before, a) {
                            let k = Self::slot_of(before, a);
                            assert(after[k].address == a);
                        }
                        if Self::held(after, a) {
                            let k = Self::slot_of(after, a);
                            assert(before[k].address == a);
                        }
                    }
                    assert forall|a: Address| Self::held(before, a) && a != *address implies Self::records(
                        after,
                    )[a] == Self::records(before)[a] by {
                        let k = Self::slot_of(before, a);
                        assert(after[k] == before[k]);
                        Self::lemma_slot_found(after, k);
                    }
                    assert(Self::records(after) =~= Self::records(before).insert(*address, record@));
                }
                self.slots = slots;
                true
            },
        }
    }

    /// Removes the record at the address and hands it out. At a free address
    /// nothing changes and nothing is handed out.
    pub fn destroy(&mut self, address: &Address) -> (removed: Option<T>)
        ensures
            match removed {
                Some(r) => old(self)@.contains_key(*address) && r@ == old(self)@[*address]
                    && final(self)@ == old(self)@.remove(*address),
                None => !old(self)@.contains_key(*address) && final(self)@ == old(self)@,
            },
    {
        match self.find(address) {
            None => None,
            Some(i) => {
                proof {
                    use_type_invariant(&*self);
                }
                let ghost before = self.slots@;
                let mut slots: Vec<Slot<T>> = Vec::new();
                core::mem::swap(&mut self.slots, &mut slots);
                let slot = slots.remove(i);
                proof {
                    let after = slots@;
                    assert(after == before.remove(i as int));
                    assert(Self::no_duplicates(after)) by {
                        assert forall|x: int, y: int| 0 <= x < y < after.len() implies (
                        #[trigger] after[x]).address != (#[trigger] after[y]).address by {
                            let bx = if x < i { x } else { x + 1 };
                            let by = if y < i { y } else { y + 1 };
                            assert(after[x] == before[bx]);
                            assert(after[y] == before[by]);
                        }
                    }
                    assert forall|a: Address| #[trigger] Self::held(after, a) <==> (Self::held(
                        before,
                        a,
                    ) && a != *address) by {
                        if Self::held(before, a) && a != *address {
                            let k = Self::slot_of(before, a);
                            let ak = if k < i { k } else { k - 1 };
                            assert(after[ak] == before[k]);
                        }
                        if Self::held(after, a) {
                            let k = Self::slot_of(after, a);
                            let bk = if k < i { k } else { k + 1 };
                            assert(after[k] == before[bk]);
                            assert(before[bk].address == a);
                            if a == *address {
                                assert(before[bk].address == before[i as int].address);
                            }
                        }
                    }
                    assert forall|a: Address| Self::held(after, a) implies Self::records(after)[a]
                        == Self::records(before)[a] by {
                        let k = Self::slot_of(after, a);
                        let bk = if k < i { k } else { k + 1 };
                        assert(after[k] == before[bk]);
                        Self::lemma_slot_found(before, bk);
                    }
                    assert(Self::records(after) =~= Self::records(before).remove(*address));
                }
                self.slots = slots;
                Some(slot.record)
            },
        }
    }
}

} // verus!
