//! A small map kept in a vector: what the typed stores are built on.

use vstd::prelude::*;

verus! {

/// A key that can be compared at run time, and whose comparison says what
/// equality says.
pub trait StoreKey: Copy {
    /// Tells whether two keys are the same key.
    fn same(&self, other: &Self) -> (same: bool)
        ensures
            same == (*self == *other),
    ;
}

/// One key with the value stored under it.
pub struct Slot<K, T> {
    pub key: K,
    pub value: T,
}

/// A map from keys to values. Each key is held at most once; storing under
/// a key that is present replaces the value.
pub struct KeyedStore<K, T> {
    slots: Vec<Slot<K, T>>,
}

/// Whether some slot of `slots` holds `key`.
spec fn holds<K, T>(slots: Seq<Slot<K, T>>, key: K) -> bool {
    exists|i: int| 0 <= i < slots.len() && (#[trigger] slots[i]).key == key
}

/// A slot of `slots` that holds `key`, where there is one.
spec fn slot_of<K, T>(slots: Seq<Slot<K, T>>, key: K) -> int {
    choose|i: int| 0 <= i < slots.len() && (#[trigger] slots[i]).key == key
}

/// No key is held by two slots.
spec fn distinct<K, T>(slots: Seq<Slot<K, T>>) -> bool {
    forall|i: int, j: int|
        0 <= i < slots.len() && 0 <= j < slots.len() && i != j
            ==> (#[trigger] slots[i]).key != (#[trigger] slots[j]).key
}

/// The map that a sequence of slots stands for.
spec fn as_map<K, T>(slots: Seq<Slot<K, T>>) -> Map<K, T> {
    Map::new(|key: K| holds(slots, key), |key: K| slots[slot_of(slots, key)].value)
}

/// With distinct keys, the map holds each slot's value under that slot's key.
proof fn lemma_slot_in_map<K, T>(slots: Seq<Slot<K, T>>, i: int)
    requires
        distinct(slots),
        0 <= i < slots.len(),
    ensures
        as_map(slots).dom().contains(slots[i].key),
        as_map(slots)[slots[i].key] == slots[i].value,
{
    let key = slots[i].key;
    assert(holds(slots, key));
    let j = slot_of(slots, key);
    assert(0 <= j < slots.len() && slots[j].key == key);
    assert(j == i);
}

/// Appending a slot with a new key stores its value under that key.
proof fn lemma_push_is_insert<K, T>(slots: Seq<Slot<K, T>>, slot: Slot<K, T>)
    requires
        distinct(slots),
        !holds(slots, slot.key),
    ensures
        distinct(slots.push(slot)),
        as_map(slots.push(slot)) == as_map(slots).insert(slot.key, slot.value),
{
    let grown = slots.push(slot);
    assert forall|i: int, j: int|
        0 <= i < grown.len() && 0 <= j < grown.len() && i != j implies (#[trigger] grown[i]).key
        != (#[trigger] grown[j]).key by {
        if i < slots.len() && j < slots.len() {
            assert(grown[i] == slots[i] && grown[j] == slots[j]);
        } else if i < slots.len() {
            assert(grown[i] == slots[i]);
        } else {
            assert(grown[j] == slots[j]);
        }
    }
    assert forall|key: K| holds(grown, key) <==> (key == slot.key || holds(slots, key)) by {
        if holds(grown, key) {
            let i = slot_of(grown, key);
            if i < slots.len() {
                assert(slots[i].key == key);
            }
        }
        if holds(slots, key) {
            let i = slot_of(slots, key);
            assert(grown[i].key == key);
        }
        if key == slot.key {
            assert(grown[slots.len() as int].key == key);
        }
    }
    assert forall|key: K| holds(grown, key) implies #[trigger] as_map(grown)[key] == as_map(
        slots,
    ).insert(slot.key, slot.value)[key] by {
        if key == slot.key {
            assert(grown[slots.len() as int] == slot);
            lemma_slot_in_map(grown, slots.len() as int);
        } else {
            let i = slot_of(slots, key);
            assert(grown[i] == slots[i]);
            lemma_slot_in_map(grown, i);
            lemma_slot_in_map(slots, i);
        }
    }
    assert(as_map(grown) =~= as_map(slots).insert(slot.key, slot.value));
}

/// Replacing the value of a slot stores the new value under that slot's key.
proof fn lemma_update_is_insert<K, T>(slots: Seq<Slot<K, T>>, i: int, value: T)
    requires
        distinct(slots),
        0 <= i < slots.len(),
    ensures
        distinct(slots.update(i, Slot { key: slots[i].key, value })),
        as_map(slots.update(i, Slot { key: slots[i].key, value })) == as_map(slots).insert(
            slots[i].key,
            value,
        ),
{
    let key0 = slots[i].key;
    let changed = slots.update(i, Slot { key: key0, value });
    assert forall|a: int| 0 <= a < slots.len() implies (#[trigger] changed[a]).key
        == slots[a].key by {}
    assert(distinct(changed)) by {
        assert forall|a: int, b: int|
            0 <= a < changed.len() && 0 <= b < changed.len() && a != b implies (
        #[trigger] changed[a]).key != (#[trigger] changed[b]).key by {
            assert(slots[a].key != slots[b].key);
        }
    }
    assert forall|key: K| holds(changed, key) <==> holds(slots, key) by {
        if holds(changed, key) {
            let a = slot_of(changed, key);
            assert(slots[a].key == key);
        }
        if holds(slots, key) {
            let a = slot_of(slots, key);
            assert(changed[a].key == key);
        }
    }
    assert(holds(slots, key0));
    assert forall|key: K| holds(changed, key) implies #[trigger] as_map(changed)[key] == as_map(
        slots,
    ).insert(key0, value)[key] by {
        let a = slot_of(slots, key);
        lemma_slot_in_map(changed, a);
        lemma_slot_in_map(slots, a);
        if key == key0 {
            assert(a == i);
        } else {
            assert(a != i);
            assert(changed[a] == slots[a]);
        }
    }
    assert(as_map(changed) =~= as_map(slots).insert(key0, value));
}

/// Taking a slot out removes its key from the map.
proof fn lemma_remove_is_remove<K, T>(slots: Seq<Slot<K, T>>, i: int)
    requires
        distinct(slots),
        0 <= i < slots.len(),
    ensures
        distinct(slots.remove(i)),
        as_map(slots.remove(i)) == as_map(slots).remove(slots[i].key),
{
    let key0 = slots[i].key;
    let rest = slots.remove(i);
    assert forall|a: int| 0 <= a < rest.len() implies #[trigger] rest[a] == slots[if a < i {
        a
    } else {
        a + 1
    }] by {}
    assert(distinct(rest)) by {
        assert forall|a: int, b: int|
            0 <= a < rest.len() && 0 <= b < rest.len() && a != b implies (#[trigger] rest[a]).key
            != (#[trigger] rest[b]).key by {
            let a0 = if a < i { a } else { a + 1 };
            let b0 = if b < i { b } else { b + 1 };
            assert(rest[a] == slots[a0] && rest[b] == slots[b0]);
            assert(slots[a0].key != slots[b0].key);
        }
    }
    assert forall|key: K| holds(rest, key) <==> (key != key0 && holds(slots, key)) by {
        if holds(rest, key) {
            let a = slot_of(rest, key);
            let a0 = if a < i { a } else { a + 1 };
            assert(rest[a] == slots[a0]);
            assert(slots[a0].key == key);
            assert(a0 != i);
            assert(slots[a0].key != slots[i].key);
        }
        if key != key0 && holds(slots, key) {
            let a0 = slot_of(slots, key);
            assert(a0 != i);
            let a = if a0 < i { a0 } else { a0 - 1 };
            assert(rest[a] == slots[a0]);
            assert(rest[a].key == key);
        }
    }
    assert forall|key: K| holds(rest, key) implies #[trigger] as_map(rest)[key] == as_map(
        slots,
    ).remove(key0)[key] by {
        let a0 = slot_of(slots, key);
        assert(a0 != i);
        let a = if a0 < i { a0 } else { a0 - 1 };
        assert(rest[a] == slots[a0]);
        lemma_slot_in_map(rest, a);
        lemma_slot_in_map(slots, a0);
    }
    assert(as_map(rest) =~= as_map(slots).remove(key0));
}

impl<K, T> View for KeyedStore<K, T> {
    type V = Map<K, T>;

    /// The keys that are held, each with its value.
    closed spec fn view(&self) -> Map<K, T> {
        as_map(self.slots@)
    }
}

impl<K: StoreKey, T: Copy> KeyedStore<K, T> {
    /// The store is in order: no key is held twice.
    pub closed spec fn wf(&self) -> bool {
        distinct(self.slots@)
    }

    /// A store that holds nothing.
    pub fn new() -> (store: Self)
        ensures
            store.wf(),
            store@ == Map::<K, T>::empty(),
    {
        let store = KeyedStore { slots: Vec::new() };
        assert(store@ =~= Map::<K, T>::empty());
        store
    }

    /// Finds the slot that holds `key`.
    fn position(&self, key: &K) -> (found: Option<usize>)
        requires
            self.wf(),
        ensures
            match found {
                Some(i) => i < self.slots@.len() && self.slots@[i as int].key == *key,
                None => !holds(self.slots@, *key),
            },
    {
        let mut i: usize = 0;
        while i < self.slots.len()
            invariant
                i <= self.slots@.len(),
                forall|j: int| 0 <= j < i ==> (#[trigger] self.slots@[j]).key != *key,
            decreases self.slots@.len() - i,
        {
            if self.slots[i].key.same(key) {
                return Some(i);
            }
            i += 1;
        }
        None
    }

    /// The value stored under `key`, if there is one.
    pub fn get(&self, key: &K) -> (value: Option<T>)
        requires
            self.wf(),
        ensures
            value == (if self@.dom().contains(*key) {
                Some(self@[*key])
            } else {
                None
            }),
    {
        match self.position(key) {
            Some(i) => {
                proof {
                    lemma_slot_in_map(self.slots@, i as int);
                }
                Some(self.slots[i].value)
            },
            None => None,
        }
    }

    /// Stores `value` under `key`, in place of what was stored there.
    pub fn insert(&mut self, key: K, value: T)
        requires
            old(self).wf(),
        ensures
            final(self).wf(),
            final(self)@ == old(self)@.insert(key, value),
    {
        match self.position(&key) {
            Some(i) => {
                proof {
                    lemma_update_is_insert(self.slots@, i as int, value);
                }
                self.slots.set(i, Slot { key, value });
            },
            None => {
                proof {
                    lemma_push_is_insert(self.slots@, Slot { key, value });
                }
                self.slots.push(Slot { key, value });
            },
        }
    }

    /// Takes out what is stored under `key`, if anything is.
    pub fn remove(&mut self, key: &K)
        requires
            old(self).wf(),
        ensures
            final(self).wf(),
            final(self)@ == old(self)@.remove(*key),
    {
        match self.position(key) {
            Some(i) => {
                proof {
                    lemma_remove_is_remove(self.slots@, i as int);
                }
                self.slots.remove(i);
            },
            None => {
                assert(self@ =~= self@.remove(*key));
            },
        }
    }
}

} // verus!
