use vstd::prelude::*;

verus! {

/// A stable identifier handed out by [`Arena::insert`]: the slot index and
/// the generation the slot had when the value was stored.  A key resolves
/// only while that very value is still live; removing it bumps the slot's
/// generation, so the key can never again resolve — not even to a later
/// occupant of the same slot.
#[derive(Clone, Copy, Debug, PartialEq, Eq)]
pub struct ArenaKey {
    pub index: usize,
    pub generation: u64,
}

/// Keyed storage with stable identifiers: an arena of slots with generation
/// counters.  Vacant slots are recycled through a free list; a recycled slot
/// carries a higher generation than it had before, which is what keeps stale
/// keys from resolving.
///
/// Iteration (`slot_count` / `entry_at`, and the view [`Arena::live`]) runs
/// in slot-index order.  While nothing has been removed this equals
/// insertion order.
pub struct Arena<T> {
    gens: Vec<u64>,
    vals: Vec<Option<T>>,
    free: Vec<usize>,
}

impl<T> Arena<T> {
    /// The slots, in index order: `Some` where a value is live.
    pub closed spec fn slots(&self) -> Seq<Option<T>> {
        self.vals@
    }

    /// The generation counter of each slot, in index order.
    pub closed spec fn gens(&self) -> Seq<u64> {
        self.gens@
    }

    /// Whether `k` currently resolves to a live value.
    pub open spec fn valid(&self, k: ArenaKey) -> bool {
        &&& k.index < self.slots().len()
        &&& self.gens()[k.index as int] == k.generation
        &&& self.slots()[k.index as int] is Some
    }

    /// The value `k` resolves to.
    pub open spec fn value_at(&self, k: ArenaKey) -> T
        recommends
            self.valid(k),
    {
        self.slots()[k.index as int]->Some_0
    }

    /// Whether `k` has been left behind by its slot: the slot's generation
    /// has moved past it, so `k` can never resolve again.
    pub open spec fn retired(&self, k: ArenaKey) -> bool {
        k.index < self.slots().len() && self.gens()[k.index as int] > k.generation
    }

    /// The live values in slot-index order.
    pub open spec fn live(&self) -> Seq<T> {
        self.slots().filter_map(|o: Option<T>| o)
    }

    /// Internal consistency of the free list and the generation counters.
    pub closed spec fn wf(&self) -> bool {
        &&& self.gens@.len() == self.vals@.len()
        &&& forall|j: int|
            0 <= j < self.free@.len() ==> (#[trigger] self.free@[j]) < self.vals@.len()
                && self.vals@[self.free@[j] as int] is None
                && self.gens@[self.free@[j] as int] < u64::MAX
        &&& forall|j1: int, j2: int|
            0 <= j1 < j2 < self.free@.len() ==> self.free@[j1] != self.free@[j2]
        &&& forall|i: int|
            0 <= i < self.vals@.len() && (#[trigger] self.vals@[i]) is Some ==> self.gens@[i]
                < u64::MAX
    }

    /// Creates an empty arena.
    pub fn new() -> (a: Arena<T>)
        ensures
            a.wf(),
            a.slots() =~= Seq::<Option<T>>::empty(),
            a.live() =~= Seq::<T>::empty(),
    {
        let a = Arena { gens: Vec::new(), vals: Vec::new(), free: Vec::new() };
        proof {
            reveal(Seq::filter_map);
        }
        a
    }

    /// Stores `value` and returns a fresh key for it.  Every other key means
    /// exactly what it meant before.
    pub fn insert(&mut self, value: T) -> (k: ArenaKey)
        requires
            old(self).wf(),
            old(self).slots().len() < usize::MAX,
        ensures
            final(self).wf(),
            !old(self).valid(k),
            final(self).valid(k),
            final(self).value_at(k) == value,
            old(self).slots().len() <= final(self).slots().len() <= old(self).slots().len() + 1,
            k.index < final(self).slots().len(),
            final(self).slots() =~= if k.index < old(self).slots().len() {
                old(self).slots().update(k.index as int, Some(value))
            } else {
                old(self).slots().push(Some(value))
            },
            forall|i: int|
                0 <= i < old(self).gens().len() ==> final(self).gens()[i] == old(self).gens()[i],
            final(self).gens().len() == final(self).slots().len(),
            forall|k2: ArenaKey|
                k2 != k ==> (#[trigger] final(self).valid(k2)) == old(self).valid(k2),
            forall|k2: ArenaKey|
                k2 != k && old(self).valid(k2) ==> #[trigger] final(self).value_at(k2) == old(self).value_at(k2),
            forall|k2: ArenaKey| old(self).retired(k2) ==> #[trigger] final(self).retired(k2),
    {
        match self.free.pop() {
            Some(idx) => {
                let generation = self.gens[idx];
                self.vals[idx] = Some(value);
                ArenaKey { index: idx, generation }
            },
            None => {
                let idx = self.vals.len();
                self.vals.push(Some(value));
                self.gens.push(0);
                ArenaKey { index: idx, generation: 0 }
            },
        }
    }

    /// Removes the value `k` resolves to, if any.  Returns `None`, changing
    /// nothing, when `k` is stale or unknown; on success `k` is retired and
    /// will never resolve again.
    pub fn remove(&mut self, k: ArenaKey) -> (r: Option<T>)
        requires
            old(self).wf(),
        ensures
            final(self).wf(),
            old(self).valid(k) ==> r == Some(old(self).value_at(k)) && final(self).retired(k)
                && final(self).slots() =~= old(self).slots().update(k.index as int, None),
            !old(self).valid(k) ==> r is None && *final(self) == *old(self),
            !final(self).valid(k),
            final(self).slots().len() == old(self).slots().len(),
            forall|i: int|
                0 <= i < old(self).slots().len() && i != k.index as int ==> final(self).slots()[i]
                    == old(self).slots()[i] && final(self).gens()[i] == old(self).gens()[i],
            forall|k2: ArenaKey|
                k2 != k ==> (#[trigger] final(self).valid(k2)) == old(self).valid(k2),
            forall|k2: ArenaKey|
                k2 != k && old(self).valid(k2) ==> #[trigger] final(self).value_at(k2) == old(self).value_at(k2),
            forall|k2: ArenaKey| old(self).retired(k2) ==> #[trigger] final(self).retired(k2),
    {
        if k.index < self.vals.len() && self.gens[k.index] == k.generation
            && self.vals[k.index].is_some() {
            let slot = &mut self.vals[k.index];
            let r = slot.take();
            let generation = self.gens[k.index];
            self.gens[k.index] = generation + 1;
            if generation + 1 < u64::MAX {
                self.free.push(k.index);
            }
            r
        } else {
            None
        }
    }

    /// Looks the key up, returning a reference to the live value it names.
    pub fn get(&self, k: ArenaKey) -> (r: Option<&T>)
        requires
            self.wf(),
        ensures
            self.valid(k) ==> (r matches Some(v) && *v == self.value_at(k)),
            !self.valid(k) ==> r is None,
    {
        if k.index < self.vals.len() && self.gens[k.index] == k.generation {
            self.vals[k.index].as_ref()
        } else {
            None
        }
    }

    /// Looks the key up for mutation.  The arena afterwards holds, under the
    /// same key, whatever the caller wrote through the returned reference;
    /// everything else is untouched.
    pub fn get_mut(&mut self, k: ArenaKey) -> (r: Option<&mut T>)
        requires
            old(self).wf(),
        ensures
            final(self).wf(),
            old(self).valid(k) ==> (r matches Some(m) && *m == old(self).value_at(k) && final(self).slots() =~= old(self).slots().update(k.index as int, Some(*final(m)))),
            !old(self).valid(k) ==> r is None && *final(self) == *old(self),
            final(self).gens() == old(self).gens(),
            final(self).slots().len() == old(self).slots().len(),
            forall|i: int|
                0 <= i < old(self).slots().len() && i != k.index as int ==> final(self).slots()[i]
                    == old(self).slots()[i],
            forall|k2: ArenaKey| (#[trigger] final(self).valid(k2)) == old(self).valid(k2),
            forall|k2: ArenaKey| old(self).retired(k2) ==> #[trigger] final(self).retired(k2),
    {
        if k.index < self.vals.len() && self.gens[k.index] == k.generation
            && self.vals[k.index].is_some() {
            let slot = &mut self.vals[k.index];
            match slot {
                Some(m) => Some(m),
                None => vstd::pervasive::unreached(),
            }
        } else {
            None
        }
    }

    /// A retired key never resolves: once a slot's generation has moved
    /// past a key, no later occupant of the slot answers to it.
    pub proof fn lemma_retired_never_valid(&self, k: ArenaKey)
        requires
            self.retired(k),
        ensures
            !self.valid(k),
    {
    }

    /// Whether `k` currently resolves.
    pub fn contains(&self, k: ArenaKey) -> (b: bool)
        requires
            self.wf(),
        ensures
            b == self.valid(k),
    {
        k.index < self.vals.len() && self.gens[k.index] == k.generation
            && self.vals[k.index].is_some()
    }

    /// Number of slots ever allocated; the bound for [`Arena::entry_at`].
    pub fn slot_count(&self) -> (n: usize)
        ensures
            n == self.slots().len(),
    {
        self.vals.len()
    }

    /// The occupant of slot `i`, if it is live.  Walking the slots from `0`
    /// to `slot_count()` visits the live values in slot-index order.
    pub fn entry_at(&self, i: usize) -> (r: Option<&T>)
        requires
            i < self.slots().len(),
        ensures
            self.slots()[i as int] matches Some(v) ==> (r matches Some(rv) && *rv == v),
            self.slots()[i as int] is None ==> r is None,
    {
        self.vals[i].as_ref()
    }
}

impl<T: Copy> Arena<T> {
    /// Copies the live values out, in slot-index order.
    pub fn live_values(&self) -> (r: Vec<T>)
        ensures
            r@ =~= self.live(),
    {
        let mut r: Vec<T> = Vec::new();
        proof {
            assert(self.slots().take(0).filter_map(|o: Option<T>| o) =~= Seq::<T>::empty());
        }
        for i in 0..self.vals.len()
            invariant
                r@ =~= self.slots().take(i as int).filter_map(|o: Option<T>| o),
        {
            proof {
                self.slots().lemma_filter_map_take_succ(|o: Option<T>| o, i as int);
            }
            match &self.vals[i] {
                Some(v) => {
                    r.push(*v);
                },
                None => {},
            }
        }
        proof {
            assert(self.slots().take(self.slots().len() as int) =~= self.slots());
        }
        r
    }
}

} // verus!
