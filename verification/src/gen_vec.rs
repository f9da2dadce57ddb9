//! Collection for handles with automatic invalidation.
//!
//! Values return a handle upon insertion. Once the value has been removed,
//! every handle to it is invalid for good: looking it up gives `None`, also
//! after the slot has been handed out again.
//!
//! The first generic argument, `K`, ties handles to one kind of collection.
//! The second, `V`, is the value stored.

use std::marker::PhantomData;
use vstd::prelude::*;
use vstd::std_specs::cmp::PartialEqSpecImpl;

verus! {

/// What identifies a handle: the slot it points at and the generation of the
/// slot at the time the handle was issued.
pub struct Key {
    pub index: nat,
    pub generation: nat,
}

/// Model of one storage slot.
pub struct Slot<V> {
    pub generation: nat,
    pub value: Option<V>,
}

/// Model of the collection: the slots in index order, and the stack of
/// indices that the next insertions reuse, top last.
#[verifier::ext_equal]
pub struct Arena<V> {
    pub slots: Seq<Slot<V>>,
    pub free: Seq<nat>,
}

/// The last generation a slot can reach. A slot that reaches it is retired:
/// it is never handed out again.
pub open spec fn last_generation() -> nat {
    u32::MAX as nat
}

impl<V> Arena<V> {
    pub open spec fn empty() -> Self {
        Arena { slots: Seq::empty(), free: Seq::empty() }
    }

    /// `key` refers to a value that is stored right now.
    pub open spec fn live(self, key: Key) -> bool {
        &&& key.index < self.slots.len()
        &&& self.slots[key.index as int].generation == key.generation
        &&& self.slots[key.index as int].value is Some
    }

    /// `key` was issued once and its value has been removed since.
    pub open spec fn stale(self, key: Key) -> bool {
        &&& key.index < self.slots.len()
        &&& key.generation < self.slots[key.index as int].generation
    }

    /// `key` has been handed out by some insertion up to now.
    pub open spec fn issued(self, key: Key) -> bool {
        self.live(key) || self.stale(key)
    }

    pub open spec fn get(self, key: Key) -> Option<V> {
        if self.live(key) {
            self.slots[key.index as int].value
        } else {
            None
        }
    }

    /// The key that the next insertion hands out.
    pub open spec fn next_key(self) -> Key {
        if self.free.len() > 0 {
            Key {
                index: self.free.last(),
                generation: self.slots[self.free.last() as int].generation,
            }
        } else {
            Key { index: self.slots.len(), generation: 0 }
        }
    }

    pub open spec fn insert(self, value: V) -> Self {
        let key = self.next_key();
        let cell = Slot { generation: key.generation, value: Some(value) };
        if self.free.len() > 0 {
            Arena { slots: self.slots.update(key.index as int, cell), free: self.free.drop_last() }
        } else {
            Arena { slots: self.slots.push(cell), free: self.free }
        }
    }

    /// Writes `value` over the value that `key` refers to.
    pub open spec fn replace(self, key: Key, value: V) -> Self {
        if self.live(key) {
            let cell = Slot { generation: key.generation, value: Some(value) };
            Arena { slots: self.slots.update(key.index as int, cell), free: self.free }
        } else {
            self
        }
    }

    pub open spec fn remove(self, key: Key) -> Self {
        if self.live(key) {
            let generation = key.generation + 1;
            let cell = Slot { generation: generation as nat, value: None };
            Arena {
                slots: self.slots.update(key.index as int, cell),
                free: if generation < last_generation() {
                    self.free.push(key.index)
                } else {
                    self.free
                },
            }
        } else {
            self
        }
    }

    /// What an empty collection holds after the values have been inserted in
    /// order: one slot for each, nothing freed.
    pub open spec fn filled(values: Seq<V>) -> Self
        decreases values.len(),
    {
        if values.len() == 0 {
            Self::empty()
        } else {
            Self::filled(values.drop_last()).insert(values.last())
        }
    }

    /// A slot waits for reuse: it is empty and not retired.
    pub open spec fn vacant(self, index: int) -> bool {
        &&& 0 <= index < self.slots.len()
        &&& self.slots[index].value is None
        &&& self.slots[index].generation < last_generation()
    }

    /// The free list holds exactly the vacant slots, each once, and a cell
    /// that holds a value can still be removed without running out of
    /// generations.
    pub open spec fn well_formed(self) -> bool {
        &&& self.free.no_duplicates()
        &&& forall|i: int| 0 <= i < self.free.len() ==> self.vacant(#[trigger] self.free[i] as int)
        &&& forall|i: int| #[trigger] self.vacant(i) ==> self.free.contains(i as nat)
        &&& forall|i: int|
            0 <= i < self.slots.len() ==> (#[trigger] self.slots[i]).generation
                <= last_generation()
        &&& forall|i: int|
            0 <= i < self.slots.len() && (#[trigger] self.slots[i]).value is Some
                ==> self.slots[i].generation < last_generation()
    }
}

/// The values that the slots hold, in index order.
pub open spec fn stored<V>(slots: Seq<Slot<V>>) -> Seq<V>
    decreases slots.len(),
{
    if slots.len() == 0 {
        Seq::empty()
    } else {
        match slots.last().value {
            Some(value) => stored(slots.drop_last()).push(value),
            None => stored(slots.drop_last()),
        }
    }
}

/// One change made to a collection.
pub enum Step<V> {
    Insert(V),
    Replace(Key, V),
    Remove(Key),
}

impl<V> Step<V> {
    /// The step takes away or writes over the value that `key` refers to.
    pub open spec fn touches(self, key: Key) -> bool {
        match self {
            Step::Insert(_) => false,
            Step::Replace(target, _) => target == key,
            Step::Remove(target) => target == key,
        }
    }
}

impl<V> Arena<V> {
    pub open spec fn step(self, step: Step<V>) -> Self {
        match step {
            Step::Insert(value) => self.insert(value),
            Step::Replace(key, value) => self.replace(key, value),
            Step::Remove(key) => self.remove(key),
        }
    }

    /// The collection after the steps, made in order.
    pub open spec fn run(self, steps: Seq<Step<V>>) -> Self
        decreases steps.len(),
    {
        if steps.len() == 0 {
            self
        } else {
            self.run(steps.drop_last()).step(steps.last())
        }
    }
}

/// Handle to a value inserted into a [`GenVec`].
pub struct Handle<K> {
    index: usize,
    generation: u32,
    phantom: PhantomData<K>,
}

impl<K> View for Handle<K> {
    type V = Key;

    closed spec fn view(&self) -> Key {
        Key { index: self.index as nat, generation: self.generation as nat }
    }
}

impl<K> Handle<K> {
    /// Two handles with the same key are the same handle.
    pub proof fn lemma_view_injective(self, other: Self)
        ensures
            (self@ == other@) <==> (self == other),
    {
    }
}

impl<K> Clone for Handle<K> {
    fn clone(&self) -> (copy: Self)
        ensures
            copy == *self,
    {
        Self { phantom: PhantomData, index: self.index, generation: self.generation }
    }
}

impl<K> Copy for Handle<K> {

}

impl<K> PartialEq for Handle<K> {
    fn eq(&self, other: &Self) -> (equal: bool) {
        self.index == other.index && self.generation == other.generation
    }
}

impl<K> PartialEqSpecImpl for Handle<K> {
    open spec fn obeys_eq_spec() -> bool {
        true
    }

    open spec fn eq_spec(&self, other: &Self) -> bool {
        self@ == other@
    }
}

impl<K> Eq for Handle<K> {

}

/// `Vec::from` on an array: the vector holds the items of the array, in the
/// array's order.
#[verifier::external_body]
fn array_into_vec<V, const N: usize>(values: [V; N]) -> (items: Vec<V>)
    ensures
        items@ == values@,
{
    Vec::from(values)
}

/// Storage for values that invalidates handles to them once the values are
/// removed.
///
/// `K` makes handles fit only a `GenVec` with the same `K`. `V` is the value
/// stored in the collection.
pub struct GenVec<K, V> {
    values: Vec<Value<V>>,
    free: Vec<usize>,
    phantom: PhantomData<K>,
}

struct Value<V> {
    value: Option<V>,
    generation: u32,
}

impl<V> View for Value<V> {
    type V = Slot<V>;

    closed spec fn view(&self) -> Slot<V> {
        Slot { generation: self.generation as nat, value: self.value }
    }
}

impl<K, V> View for GenVec<K, V> {
    type V = Arena<V>;

    closed spec fn view(&self) -> Arena<V> {
        Arena {
            slots: Seq::new(self.values@.len(), |i: int| self.values@[i]@),
            free: Seq::new(self.free@.len(), |i: int| self.free@[i] as nat),
        }
    }
}

impl<K, V> GenVec<K, V> {
    /// The invariant of the collection: that of its model.
    pub open spec fn well_formed(&self) -> bool {
        self@.well_formed()
    }

    /// Constructor.
    #[must_use]
    pub fn new() -> (storage: Self)
        ensures
            storage.well_formed(),
            storage@ == Arena::<V>::empty(),
    {
        let storage = Self { values: Vec::new(), free: Vec::new(), phantom: PhantomData };
        assert(storage@.slots =~= Seq::empty());
        assert(storage@.free =~= Seq::empty());
        storage
    }

    /// Constructs the empty `GenVec` and reserves storage for `capacity` values
    /// and as many freed indices. The capacity changes nothing that it holds.
    #[must_use]
    pub fn with_capacity(capacity: usize) -> (storage: Self)
        ensures
            storage.well_formed(),
            storage@ == Arena::<V>::empty(),
    {
        let storage = Self {
            values: Vec::with_capacity(capacity),
            free: Vec::with_capacity(capacity),
            phantom: PhantomData,
        };
        assert(storage@.slots =~= Seq::empty());
        assert(storage@.free =~= Seq::empty());
        storage
    }

    /// Constructs the `GenVec` and inserts the passed values.
    ///
    /// Besides the `GenVec`, this returns the handles to the passed values,
    /// in the order in which they were passed.
    #[must_use]
    pub fn with_values<const N: usize>(values: [V; N]) -> (made: ([Handle<K>; N], Self))
        ensures
            made.1.well_formed(),
            made.1@ == Arena::<V>::filled(values@),
            made.1@.free.len() == 0,
            made.1@.slots == Seq::new(
                values@.len(),
                |i: int| Slot { generation: 0, value: Some(values@[i]) },
            ),
            forall|i: int|
                0 <= i < N ==> (#[trigger] made.0@[i])@ == (Key { index: i as nat, generation: 0 }),
    {
        let mut storage = Self::with_capacity(N);
        let first = Handle { index: 0, generation: 0, phantom: PhantomData };
        let mut handles: [Handle<K>; N] = [first;N];
        let items = array_into_vec(values);
        let mut at: usize = 0;
        for value in it: items
            invariant
                it.seq() == values@,
                values@.len() == N,
                at == it.index(),
                storage.well_formed(),
                storage@ == Arena::<V>::filled(values@.take(at as int)),
                forall|i: int|
                    0 <= i < at ==> (#[trigger] handles@[i])@ == (Key {
                        index: i as nat,
                        generation: 0,
                    }),
        {
            proof {
                assert(values@.take(at + 1).drop_last() =~= values@.take(at as int));
                assert(values@.take(at + 1).last() == value);
            }
            proof {
                lemma_filled(values@.take(at as int));
            }
            let handle = storage.insert(value);
            handles[at] = handle;
            at = at + 1;
        }
        proof {
            assert(values@.take(at as int) =~= values@);
            lemma_filled(values@);
        }
        (handles, storage)
    }

    /// Takes the collection apart and returns the values it holds, in the
    /// order of their slots. Every handle to it is void afterwards.
    #[must_use]
    pub fn into_values(self) -> (values: Vec<V>)
        ensures
            values@ == stored(self@.slots),
    {
        let ghost slots = self@.slots;
        let count = self.values.len();
        assert(slots.len() == count);
        let mut values: Vec<V> = Vec::with_capacity(count);
        let mut at: usize = 0;
        for slot in it: self.values
            invariant
                at == it.index(),
                it.seq().len() == slots.len(),
                slots.len() <= usize::MAX,
                forall|i: int| 0 <= i < slots.len() ==> (#[trigger] it.seq()[i])@ == slots[i],
                values@ == stored(slots.take(at as int)),
        {
            proof {
                assert(slots.take(at + 1).drop_last() =~= slots.take(at as int));
                assert(slots.take(at + 1).last() == slot@);
            }
            if let Some(value) = slot.value {
                values.push(value);
            }
            at = at + 1;
        }
        proof {
            assert(slots.take(at as int) =~= slots);
        }
        values
    }

    /// Gets the immutable reference to the value associated with the handle,
    /// or `None` where the handle is not valid.
    #[must_use]
    pub fn get(&self, handle: Handle<K>) -> (found: Option<&V>)
        ensures
            found.is_some() == self@.live(handle@),
            found matches Some(value) ==> self@.get(handle@) == Some(*value),
    {
        if handle.index < self.values.len() {
            let slot = &self.values[handle.index];
            if slot.generation == handle.generation {
                slot.value.as_ref()
            } else {
                None
            }
        } else {
            None
        }
    }

    /// Gets the mutable reference to the value associated with the handle, or
    /// `None` where the handle is not valid. What is written through the
    /// reference replaces the value; the handle stays valid.
    #[must_use]
    pub fn get_mut(&mut self, handle: Handle<K>) -> (found: Option<&mut V>)
        requires
            old(self).well_formed(),
        ensures
            final(self).well_formed(),
            found.is_some() == old(self)@.live(handle@),
            match found {
                Some(value) => old(self)@.get(handle@) == Some(*value) && final(self)@ == old(
                    self,
                )@.replace(handle@, *final(value)),
                None => final(self)@ == old(self)@,
            },
    {
        proof {
            assert forall|value: V| #[trigger]
                old(self)@.replace(handle@, value).well_formed() by {
                lemma_replace_well_formed(old(self)@, handle@, value);
            }
        }
        self.value_mut(handle)
    }

    fn value_mut(&mut self, handle: Handle<K>) -> (found: Option<&mut V>)
        ensures
            found.is_some() == old(self)@.live(handle@),
            match found {
                Some(value) => old(self)@.get(handle@) == Some(*value) && final(self)@ =~= old(
                    self,
                )@.replace(handle@, *final(value)),
                None => final(self)@ =~= old(self)@,
            },
    {
        if handle.index < self.values.len() {
            if self.values[handle.index].generation == handle.generation {
                let slot = &mut self.values[handle.index];
                slot.value.as_mut()
            } else {
                None
            }
        } else {
            None
        }
    }

    /// Inserts a new value into the collection and returns a handle to it. A
    /// freed slot is reused before the storage grows.
    pub fn insert(&mut self, value: V) -> (handle: Handle<K>)
        requires
            old(self).well_formed(),
        ensures
            final(self).well_formed(),
            final(self)@ == old(self)@.insert(value),
            handle@ == old(self)@.next_key(),
    {
        if let Some(index) = self.free.pop() {
            assert(old(self)@.vacant(old(self)@.free[old(self)@.free.len() - 1] as int));
            let generation = self.values[index].generation;
            self.values[index].value = Some(value);
            proof {
                assert(self@.slots =~= old(self)@.insert(value).slots);
                assert(self@.free =~= old(self)@.insert(value).free);
                lemma_insert_well_formed(old(self)@, value);
            }
            Handle { index, generation, phantom: PhantomData }
        } else {
            let index = self.values.len();
            let generation: u32 = 0;
            self.values.push(Value { value: Some(value), generation });
            proof {
                assert(self@.slots =~= old(self)@.insert(value).slots);
                assert(self@.free =~= old(self)@.insert(value).free);
                lemma_insert_well_formed(old(self)@, value);
            }
            Handle { index, generation, phantom: PhantomData }
        }
    }

    /// Removes the value associated with the handle from the collection and
    /// returns it. A handle that is not valid removes nothing.
    pub fn remove(&mut self, handle: Handle<K>) -> (removed: Option<V>)
        requires
            old(self).well_formed(),
        ensures
            final(self).well_formed(),
            final(self)@ == old(self)@.remove(handle@),
            removed == old(self)@.get(handle@),
    {
        if handle.index >= self.values.len() {
            return None;
        }
        if self.values[handle.index].generation != handle.generation {
            return None;
        }
        if self.values[handle.index].value.is_none() {
            return None;
        }
        let removed = self.values[handle.index].value.take();
        let generation: u32 = self.values[handle.index].generation + 1;
        self.values[handle.index].generation = generation;
        if generation < u32::MAX {
            self.free.push(handle.index);
        }
        proof {
            assert(self@.slots =~= old(self)@.remove(handle@).slots);
            assert(self@.free =~= old(self)@.remove(handle@).free);
            lemma_remove_well_formed(old(self)@, handle@);
        }
        removed
    }
}

impl<K, V> Default for GenVec<K, V> {
    fn default() -> (storage: Self)
        ensures
            storage.well_formed(),
            storage@ == Arena::<V>::empty(),
    {
        Self::new()
    }
}

/// Writing over a stored value keeps the invariant.
pub proof fn lemma_replace_well_formed<V>(arena: Arena<V>, key: Key, value: V)
    requires
        arena.well_formed(),
    ensures
        arena.replace(key, value).well_formed(),
{
    let after = arena.replace(key, value);
    if arena.live(key) {
        assert forall|i: int| #[trigger] after.vacant(i) implies after.free.contains(i as nat) by {
            assert(arena.vacant(i));
        }
        assert forall|i: int| 0 <= i < after.free.len() implies after.vacant(
            #[trigger] after.free[i] as int,
        ) by {
            assert(arena.vacant(arena.free[i] as int));
        }
    }
}

/// Filling an empty collection uses one fresh slot for each value, and frees
/// none.
pub proof fn lemma_filled<V>(values: Seq<V>)
    ensures
        Arena::<V>::filled(values).free.len() == 0,
        Arena::<V>::filled(values).slots == Seq::new(
            values.len(),
            |i: int| Slot { generation: 0, value: Some(values[i]) },
        ),
    decreases values.len(),
{
    if values.len() > 0 {
        lemma_filled(values.drop_last());
        assert(Arena::<V>::filled(values).slots =~= Seq::new(
            values.len(),
            |i: int| Slot { generation: 0, value: Some(values[i]) },
        ));
    } else {
        assert(Arena::<V>::filled(values).slots =~= Seq::new(
            values.len(),
            |i: int| Slot { generation: 0, value: Some(values[i]) },
        ));
    }
}

/// Insertion keeps the invariant.
pub proof fn lemma_insert_well_formed<V>(arena: Arena<V>, value: V)
    requires
        arena.well_formed(),
    ensures
        arena.insert(value).well_formed(),
{
    let after = arena.insert(value);
    if arena.free.len() > 0 {
        let top = arena.free.last();
        assert(arena.vacant(arena.free[arena.free.len() - 1] as int));
        assert forall|i: int| #[trigger] after.vacant(i) implies after.free.contains(i as nat) by {
            assert(arena.vacant(i));
            let j = choose|j: int| 0 <= j < arena.free.len() && arena.free[j] == i as nat;
            assert(j != arena.free.len() - 1);
            assert(after.free[j] == i as nat);
        }
        assert forall|i: int| 0 <= i < after.free.len() implies after.vacant(
            #[trigger] after.free[i] as int,
        ) by {
            assert(arena.vacant(arena.free[i] as int));
        }
    } else {
        assert forall|i: int| #[trigger] after.vacant(i) implies after.free.contains(i as nat) by {
            assert(arena.vacant(i));
        }
    }
}

/// Removal keeps the invariant.
pub proof fn lemma_remove_well_formed<V>(arena: Arena<V>, key: Key)
    requires
        arena.well_formed(),
    ensures
        arena.remove(key).well_formed(),
{
    let after = arena.remove(key);
    if arena.live(key) {
        let generation = key.generation + 1;
        assert(!arena.free.contains(key.index)) by {
            if arena.free.contains(key.index) {
                let j = choose|j: int| 0 <= j < arena.free.len() && arena.free[j] == key.index;
                assert(arena.vacant(arena.free[j] as int));
            }
        }
        assert forall|i: int| 0 <= i < after.free.len() implies after.vacant(
            #[trigger] after.free[i] as int,
        ) by {
            if i < arena.free.len() {
                assert(arena.vacant(arena.free[i] as int));
            }
        }
        assert forall|i: int| #[trigger] after.vacant(i) implies after.free.contains(i as nat) by {
            if i == key.index as int {
                assert(after.free[after.free.len() - 1] == key.index);
            } else {
                assert(arena.vacant(i));
                let j = choose|j: int| 0 <= j < arena.free.len() && arena.free[j] == i as nat;
                assert(after.free[j] == i as nat);
            }
        }
        if generation < last_generation() {
            assert(after.free.no_duplicates()) by {
                assert forall|i: int, j: int|
                    0 <= i < after.free.len() && 0 <= j < after.free.len() && i != j implies after.free[i]
                    != after.free[j] by {
                    if i < arena.free.len() {
                        assert(arena.free.contains(arena.free[i]));
                    }
                    if j < arena.free.len() {
                        assert(arena.free.contains(arena.free[j]));
                    }
                }
            }
        }
    }
}

/// Every step keeps the invariant, and so does every sequence of steps.
pub proof fn law_run_well_formed<V>(arena: Arena<V>, steps: Seq<Step<V>>)
    requires
        arena.well_formed(),
    ensures
        arena.run(steps).well_formed(),
    decreases steps.len(),
{
    if steps.len() > 0 {
        law_run_well_formed(arena, steps.drop_last());
        let before = arena.run(steps.drop_last());
        match steps.last() {
            Step::Insert(value) => lemma_insert_well_formed(before, value),
            Step::Replace(key, value) => lemma_replace_well_formed(before, key, value),
            Step::Remove(key) => lemma_remove_well_formed(before, key),
        }
    }
}

/// The handle that an insertion returns was never handed out before, refers
/// to the inserted value, and leaves every other handle as it was.
pub proof fn law_insert_issues_fresh_key<V>(arena: Arena<V>, value: V, other: Key)
    requires
        arena.well_formed(),
    ensures
        !arena.issued(arena.next_key()),
        arena.insert(value).get(arena.next_key()) == Some(value),
        other != arena.next_key() ==> arena.insert(value).get(other) == arena.get(other),
        arena.stale(other) ==> arena.insert(value).stale(other),
{
    if arena.free.len() > 0 {
        assert(arena.vacant(arena.free[arena.free.len() - 1] as int));
    }
}

/// Removing the value behind a valid handle makes the handle stale, and
/// leaves every other handle as it was.
pub proof fn law_remove_makes_stale<V>(arena: Arena<V>, key: Key, other: Key)
    requires
        arena.well_formed(),
        arena.live(key),
    ensures
        arena.remove(key).stale(key),
        arena.remove(key).get(key) is None,
        other != key ==> arena.remove(key).get(other) == arena.get(other),
{
}

/// A handle refers to the value it was inserted with for as long as no step
/// removes or replaces that value.
pub proof fn law_valid_until_removed<V>(arena: Arena<V>, key: Key, steps: Seq<Step<V>>)
    requires
        arena.well_formed(),
        arena.live(key),
        forall|i: int| 0 <= i < steps.len() ==> !(#[trigger] steps[i]).touches(key),
    ensures
        arena.run(steps).live(key),
        arena.run(steps).get(key) == arena.get(key),
    decreases steps.len(),
{
    if steps.len() > 0 {
        let earlier = steps.drop_last();
        assert forall|i: int| 0 <= i < earlier.len() implies !(#[trigger] earlier[i]).touches(
            key,
        ) by {
            assert(earlier[i] == steps[i]);
        }
        law_valid_until_removed(arena, key, earlier);
        law_run_well_formed(arena, earlier);
        let before = arena.run(earlier);
        assert(!steps[steps.len() - 1].touches(key));
        match steps.last() {
            Step::Insert(value) => {
                law_insert_issues_fresh_key(before, value, key);
            },
            Step::Replace(target, value) => {},
            Step::Remove(target) => {},
        }
    }
}

/// A stale handle stays stale whatever is done to the collection: looking it
/// up gives `None` for good, also after its slot has been handed out again.
pub proof fn law_stale_forever<V>(arena: Arena<V>, key: Key, steps: Seq<Step<V>>)
    requires
        arena.well_formed(),
        arena.stale(key),
    ensures
        arena.run(steps).stale(key),
        arena.run(steps).get(key) is None,
    decreases steps.len(),
{
    if steps.len() > 0 {
        law_stale_forever(arena, key, steps.drop_last());
        law_run_well_formed(arena, steps.drop_last());
        let before = arena.run(steps.drop_last());
        match steps.last() {
            Step::Insert(value) => {
                law_insert_issues_fresh_key(before, value, key);
            },
            Step::Replace(target, value) => {},
            Step::Remove(target) => {},
        }
    }
}

/// Once the value behind a handle has been removed, no later step makes the
/// handle valid again.
pub proof fn law_removed_never_returns<V>(arena: Arena<V>, key: Key, steps: Seq<Step<V>>)
    requires
        arena.well_formed(),
        arena.live(key),
    ensures
        arena.remove(key).run(steps).get(key) is None,
{
    lemma_remove_well_formed(arena, key);
    law_stale_forever(arena.remove(key), key, steps);
}

} // verus!
