//! Bounded stores of reported items and the queue of pending logs.

use crate::data::{Configuration, Dependency, Integration};
use crate::worker::LogIdentifier;
use vstd::prelude::*;

verus! {

/// An item that a store can hold.
pub trait StoreItem: Sized {
    /// Whether the two items report the same thing.
    spec fn same(&self, other: &Self) -> bool;

    /// An item reports the same thing as itself.
    proof fn same_as_itself(&self)
        ensures
            self.same(self),
    ;

    fn is_same(&self, other: &Self) -> (same: bool)
        ensures
            same == self.same(other),
    ;

    fn duplicate(&self) -> (copy: Self)
        ensures
            copy == *self,
    ;
}

/// What a store holds: its items, oldest first, how many of the oldest were
/// reported already, and the number of items that it keeps at most.
#[verifier::ext_equal]
pub struct StoreModel<T> {
    pub items: Seq<T>,
    pub flushed: nat,
    pub max_items: nat,
}

impl<T: StoreItem> StoreModel<T> {
    /// The bound holds, the flushed items are among those held, and no item is
    /// held twice.
    pub open spec fn wf(self) -> bool {
        &&& self.flushed <= self.items.len() <= self.max_items
        &&& forall|i: int, j: int|
            #![trigger self.items[i], self.items[j]]
            0 <= i < j < self.items.len() ==> !self.items[i].same(&self.items[j])
    }

    /// Whether the store holds an item that is the same as `item`.
    pub open spec fn holds(self, item: T) -> bool {
        exists|i: int| 0 <= i < self.items.len() && #[trigger] self.items[i].same(&item)
    }

    /// The items that are still to be reported, oldest first.
    pub open spec fn unflushed(self) -> Seq<T> {
        self.items.skip(self.flushed as int)
    }

    /// The store with `item` as its newest item. An item that it holds already
    /// changes nothing; when the store is full, its oldest item makes room.
    pub open spec fn insert(self, item: T) -> StoreModel<T> {
        if self.max_items == 0 || self.holds(item) {
            self
        } else if self.items.len() < self.max_items {
            StoreModel { items: self.items.push(item), ..self }
        } else {
            StoreModel {
                items: self.items.skip(1).push(item),
                flushed: if self.flushed > 0 {
                    (self.flushed - 1) as nat
                } else {
                    0
                },
                ..self
            }
        }
    }

    /// The store with every item to be reported again.
    pub open spec fn unflush_stored(self) -> StoreModel<T> {
        StoreModel { flushed: 0, ..self }
    }

    /// The store after its `count` oldest unreported items were reported.
    pub open spec fn removed_flushed(self, count: nat) -> StoreModel<T> {
        StoreModel {
            flushed: if self.flushed + count <= self.items.len() {
                self.flushed + count
            } else {
                self.items.len()
            },
            ..self
        }
    }
}

/// Items to report. At most a fixed number of them is kept, none of them twice;
/// the store knows which ones are still to be reported.
#[derive(Debug)]
pub struct Store<T> {
    items: Vec<T>,
    flushed: usize,
    max_items: usize,
}

impl<T: StoreItem> View for Store<T> {
    type V = StoreModel<T>;

    closed spec fn view(&self) -> StoreModel<T> {
        StoreModel {
            items: self.items@,
            flushed: self.flushed as nat,
            max_items: self.max_items as nat,
        }
    }
}

impl<T: StoreItem> Store<T> {
    /// An empty store that keeps at most `max_items` items.
    pub fn new(max_items: usize) -> (store: Self)
        ensures
            store@.wf(),
            store@ == (StoreModel::<T> {
                items: Seq::empty(),
                flushed: 0,
                max_items: max_items as nat,
            }),
    {
        Store { items: Vec::new(), flushed: 0, max_items }
    }

    fn contains(&self, item: &T) -> (found: bool)
        ensures
            found == self@.holds(*item),
    {
        let mut i: usize = 0;
        while i < self.items.len()
            invariant
                i <= self.items.len(),
                forall|j: int| 0 <= j < i ==> !#[trigger] self@.items[j].same(item),
            decreases self.items.len() - i,
        {
            if self.items[i].is_same(item) {
                assert(self@.items[i as int].same(item));
                return true;
            }
            i += 1;
        }
        false
    }

    pub fn insert(&mut self, item: T)
        requires
            old(self)@.wf(),
        ensures
            final(self)@.wf(),
            final(self)@ == old(self)@.insert(item),
    {
        if self.max_items == 0 || self.contains(&item) {
            return ;
        }
        if self.items.len() == self.max_items {
            self.items.remove(0);
            assert(self.items@ =~= old(self).items@.skip(1));
            if self.flushed > 0 {
                self.flushed -= 1;
            }
        }
        self.items.push(item);
        assert(forall|i: int|
            0 <= i < self.items@.len() - 1 ==> #[trigger] self.items@[i] == (if old(
                self,
            ).items@.len() < self.max_items {
                old(self)@.items[i]
            } else {
                old(self)@.items[i + 1]
            }));
    }

    /// Makes every item one to report again.
    pub fn unflush_stored(&mut self)
        requires
            old(self)@.wf(),
        ensures
            final(self)@.wf(),
            final(self)@ == old(self)@.unflush_stored(),
    {
        self.flushed = 0;
    }

    /// Takes the `count` oldest unreported items as reported.
    pub fn removed_flushed(&mut self, count: usize)
        requires
            old(self)@.wf(),
        ensures
            final(self)@.wf(),
            final(self)@ == old(self)@.removed_flushed(count as nat),
    {
        if count <= self.items.len() - self.flushed {
            self.flushed += count;
        } else {
            self.flushed = self.items.len();
        }
    }

    /// Whether anything is still to be reported.
    pub fn flush_not_empty(&self) -> (pending: bool)
        requires
            self@.wf(),
        ensures
            pending == (self@.unflushed().len() > 0),
    {
        self.flushed < self.items.len()
    }

    /// Copies of the items that are still to be reported, oldest first.
    pub fn unflushed(&self) -> (pending: Vec<T>)
        requires
            self@.wf(),
        ensures
            pending@ == self@.unflushed(),
    {
        let mut pending: Vec<T> = Vec::new();
        let mut i: usize = self.flushed;
        while i < self.items.len()
            invariant
                self.flushed <= i <= self.items.len(),
                pending@ == self.items@.subrange(self.flushed as int, i as int),
            decreases self.items.len() - i,
        {
            pending.push(self.items[i].duplicate());
            i += 1;
        }
        assert(pending@ =~= self@.unflushed());
        pending
    }

    /// The number of items held.
    pub fn len_stored(&self) -> (len: usize)
        ensures
            len == self@.items.len(),
    {
        self.items.len()
    }
}

/// Inserting an item that the store holds already changes nothing; one that it
/// did not hold is held afterwards and is still to be reported.
pub proof fn inserted_item_is_held<T: StoreItem>(store: StoreModel<T>, item: T)
    requires
        store.wf(),
        store.max_items > 0,
    ensures
        store.insert(item).holds(item),
        store.insert(item).insert(item) == store.insert(item),
        !store.holds(item) ==> store.insert(item).unflushed().len() > 0 && store.insert(
            item,
        ).unflushed().last() == item,
{
    if !store.holds(item) {
        item.same_as_itself();
        let items = store.insert(item).items;
        assert(items[items.len() - 1].same(&item));
    }
}

/// A store never keeps more than its number of items, and drops none while there
/// is room: an item leaves only when a new one comes to a full store, and then it
/// is the oldest one.
pub proof fn store_keeps_its_bound<T: StoreItem>(store: StoreModel<T>, item: T)
    requires
        store.wf(),
    ensures
        store.insert(item).wf(),
        store.insert(item).max_items == store.max_items,
        store.insert(item).items.len() <= store.max_items,
        store.items.len() < store.max_items && !store.holds(item) ==> store.insert(item).items
            == store.items.push(item),
        store.items.len() == store.max_items && store.max_items > 0 && !store.holds(item)
            ==> store.insert(item).items == store.items.skip(1).push(item),
{
    let after = store.insert(item);
    if after != store {
        assert forall|i: int, j: int|
            #![trigger after.items[i], after.items[j]]
            0 <= i < j < after.items.len() implies !after.items[i].same(&after.items[j]) by {
            let shift = if store.items.len() < store.max_items {
                0int
            } else {
                1int
            };
            assert(after.items[i] == store.items[i + shift]);
            if j < after.items.len() - 1 {
                assert(after.items[j] == store.items[j + shift]);
            }
        }
    }
}

/// What was reported is not pending any more, and nothing else changes; once
/// unflushed, every item is pending again.
pub proof fn reported_items_are_not_pending<T: StoreItem>(store: StoreModel<T>, count: nat)
    requires
        store.wf(),
        count <= store.unflushed().len(),
    ensures
        store.removed_flushed(count).wf(),
        store.removed_flushed(count).unflushed() == store.unflushed().skip(count as int),
        store.removed_flushed(count).items == store.items,
        store.removed_flushed(count).unflush_stored().unflushed() == store.items,
{
    assert(store.removed_flushed(count).unflushed() =~= store.unflushed().skip(count as int));
    assert(store.removed_flushed(count).unflush_stored().unflushed() =~= store.items);
}

/// Whether two optional texts read the same.
pub open spec fn same_text(a: Option<String>, b: Option<String>) -> bool {
    match (a, b) {
        (None, None) => true,
        (Some(x), Some(y)) => x@ == y@,
        _ => false,
    }
}

fn is_same_text(a: &Option<String>, b: &Option<String>) -> (same: bool)
    ensures
        same == same_text(*a, *b),
{
    match (a, b) {
        (None, None) => true,
        (Some(x), Some(y)) => *x == *y,
        _ => false,
    }
}

fn is_same_flag(a: Option<bool>, b: Option<bool>) -> (same: bool)
    ensures
        same == (a == b),
{
    match (a, b) {
        (None, None) => true,
        (Some(x), Some(y)) => x == y,
        _ => false,
    }
}

impl StoreItem for Dependency {
    open spec fn same(&self, other: &Self) -> bool {
        self.name@ == other.name@ && same_text(self.version, other.version)
    }

    proof fn same_as_itself(&self) {
    }

    fn is_same(&self, other: &Self) -> bool {
        self.name == other.name && is_same_text(&self.version, &other.version)
    }

    fn duplicate(&self) -> Self {
        Dependency { name: self.name.clone(), version: self.version.clone() }
    }
}

impl StoreItem for Integration {
    open spec fn same(&self, other: &Self) -> bool {
        &&& self.name@ == other.name@
        &&& self.enabled == other.enabled
        &&& same_text(self.version, other.version)
        &&& self.compatible == other.compatible
        &&& self.auto_enabled == other.auto_enabled
    }

    proof fn same_as_itself(&self) {
    }

    fn is_same(&self, other: &Self) -> bool {
        self.name == other.name && self.enabled == other.enabled && is_same_text(
            &self.version,
            &other.version,
        ) && is_same_flag(self.compatible, other.compatible) && is_same_flag(
            self.auto_enabled,
            other.auto_enabled,
        )
    }

    fn duplicate(&self) -> Self {
        Integration {
            name: self.name.clone(),
            enabled: self.enabled,
            version: self.version.clone(),
            compatible: self.compatible,
            auto_enabled: self.auto_enabled,
        }
    }
}

impl StoreItem for Configuration {
    open spec fn same(&self, other: &Self) -> bool {
        self.name@ == other.name@ && self.value@ == other.value@
    }

    proof fn same_as_itself(&self) {
    }

    fn is_same(&self, other: &Self) -> bool {
        self.name == other.name && self.value == other.value
    }

    fn duplicate(&self) -> Self {
        Configuration { name: self.name.clone(), value: self.value.clone() }
    }
}

/// Whether one of `entries` has the key `key`.
pub open spec fn has_key<V>(entries: Seq<(LogIdentifier, V)>, key: LogIdentifier) -> bool {
    exists|i: int| 0 <= i < entries.len() && #[trigger] entries[i].0 == key
}

/// The place of the entry that has the key `key`.
pub open spec fn key_index<V>(entries: Seq<(LogIdentifier, V)>, key: LogIdentifier) -> int {
    choose|i: int| 0 <= i < entries.len() && #[trigger] entries[i].0 == key
}

/// No two of `entries` have the same key.
pub open spec fn keys_unique<V>(entries: Seq<(LogIdentifier, V)>) -> bool {
    forall|i: int, j: int|
        #![trigger entries[i], entries[j]]
        0 <= i < j < entries.len() ==> entries[i].0 != entries[j].0
}

/// `entries` with `value` under `key`: in the place that the key has, or at
/// the end where it has none.
pub open spec fn put<V>(entries: Seq<(LogIdentifier, V)>, key: LogIdentifier, value: V) -> Seq<
    (LogIdentifier, V),
> {
    if has_key(entries, key) {
        entries.update(key_index(entries, key), (key, value))
    } else {
        entries.push((key, value))
    }
}

/// A first-in first-out queue whose entries are also found by their keys.
#[derive(Debug)]
pub struct QueueMap<V> {
    entries: Vec<(LogIdentifier, V)>,
}

impl<V> View for QueueMap<V> {
    type V = Seq<(LogIdentifier, V)>;

    closed spec fn view(&self) -> Seq<(LogIdentifier, V)> {
        self.entries@
    }
}

impl<V> QueueMap<V> {
    pub fn new() -> (queue: Self)
        ensures
            queue@ == Seq::<(LogIdentifier, V)>::empty(),
            keys_unique(queue@),
    {
        QueueMap { entries: Vec::new() }
    }

    pub fn len(&self) -> (len: usize)
        ensures
            len == self@.len(),
    {
        self.entries.len()
    }

    /// The entry at `idx`, counted from the front.
    pub fn get_idx(&self, idx: usize) -> (entry: &(LogIdentifier, V))
        requires
            idx < self@.len(),
        ensures
            *entry == self@[idx as int],
    {
        &self.entries[idx]
    }

    fn position(&self, key: LogIdentifier) -> (found: Option<usize>)
        requires
            keys_unique(self@),
        ensures
            found is Some <==> has_key(self@, key),
            found matches Some(i) ==> i < self@.len() && i == key_index(self@, key)
                && self@[i as int].0 == key,
    {
        let mut i: usize = 0;
        while i < self.entries.len()
            invariant
                i <= self.entries.len(),
                forall|j: int| 0 <= j < i ==> #[trigger] self@[j].0 != key,
                keys_unique(self@),
            decreases self.entries.len() - i,
        {
            if self.entries[i].0 == key {
                assert(self@[i as int].0 == key);
                return Some(i);
            }
            i += 1;
        }
        None
    }

    /// The value under `key`, if there is one.
    pub fn get(&self, key: LogIdentifier) -> (value: Option<&V>)
        requires
            keys_unique(self@),
        ensures
            value is Some <==> has_key(self@, key),
            value matches Some(value) ==> *value == self@[key_index(self@, key)].1,
    {
        match self.position(key) {
            Some(i) => Some(&self.entries[i].1),
            None => None,
        }
    }

    /// The value under `key`; where there is none, `default` is put there first,
    /// at the end of the queue.
    pub fn get_mut_or_insert(&mut self, key: LogIdentifier, default: V) -> (value: &mut V)
        requires
            keys_unique(old(self)@),
        ensures
            *value == (if has_key(old(self)@, key) {
                old(self)@[key_index(old(self)@, key)].1
            } else {
                default
            }),
            final(self)@ == put(old(self)@, key, *final(value)),
            keys_unique(final(self)@),
    {
        match self.position(key) {
            Some(i) => &mut self.entries[i].1,
            None => {
                let last: usize = self.entries.len();
                self.entries.push((key, default));
                &mut self.entries[last].1
            },
        }
    }

    /// Takes the oldest entry out of the queue.
    pub fn pop_front(&mut self) -> (entry: Option<(LogIdentifier, V)>)
        requires
            keys_unique(old(self)@),
        ensures
            keys_unique(final(self)@),
            old(self)@.len() == 0 ==> entry is None && final(self)@ == old(self)@,
            old(self)@.len() > 0 ==> entry == Some(old(self)@[0]) && final(self)@ == old(
                self,
            )@.skip(1),
    {
        if self.entries.len() == 0 {
            return None;
        }
        let entry = self.entries.remove(0);
        assert(self.entries@ =~= old(self)@.skip(1));
        assert(forall|i: int|
            0 <= i < self.entries@.len() ==> #[trigger] self.entries@[i] == old(self)@[i + 1]);
        Some(entry)
    }
}

/// Taking an item in: an item that is stored already, or a store with no room at
/// all, leaves everything as it was. Otherwise the item is stored last, as it
/// came, and is pending; the others keep their order, and the oldest one alone
/// leaves, just if the store was full. What was reported stays reported, and what
/// was pending stays pending unless it is the one that leaves.
pub proof fn inserting_stores_the_item_last<T: StoreItem>(store: StoreModel<T>, item: T)
    requires
        store.flushed <= store.items.len() <= store.max_items,
    ensures
        ({
            let after = store.insert(item);
            let stored = exists|i: int|
                0 <= i < store.items.len() && #[trigger] store.items[i].same(&item);
            let full = store.items.len() == store.max_items;
            let gone = if full {
                1int
            } else {
                0int
            };
            &&& after.max_items == store.max_items
            &&& stored || store.max_items == 0 ==> after == store
            &&& !stored && store.max_items > 0 ==> {
                &&& after.items.len() == store.items.len() + 1 - gone
                &&& after.items[after.items.len() - 1] == item
                &&& forall|i: int|
                    0 <= i < after.items.len() - 1 ==> #[trigger] after.items[i] == store.items[i
                        + gone]
                &&& full && store.flushed > 0 ==> after.flushed == store.flushed - 1
                &&& full && store.flushed == 0 ==> after.flushed == 0
                &&& !full ==> after.flushed == store.flushed
            }
        }),
{
}

/// The pending items are those behind the reported ones, as they are stored.
pub proof fn pending_items_are_the_unreported_ones<T: StoreItem>(store: StoreModel<T>)
    requires
        store.flushed <= store.items.len(),
    ensures
        store.unflushed().len() == store.items.len() - store.flushed,
        forall|i: int|
            0 <= i < store.unflushed().len() ==> #[trigger] store.unflushed()[i]
                == store.items[store.flushed + i],
{
}

/// Reporting counts pending items off from the oldest, at most all of them, and
/// unflushing takes all of that back. Neither drops or moves an item.
pub proof fn reporting_only_counts<T: StoreItem>(store: StoreModel<T>, count: nat)
    ensures
        store.removed_flushed(count).items == store.items,
        store.removed_flushed(count).max_items == store.max_items,
        store.flushed + count <= store.items.len() ==> store.removed_flushed(count).flushed
            == store.flushed + count,
        store.flushed + count > store.items.len() ==> store.removed_flushed(count).flushed
            == store.items.len(),
        store.unflush_stored().items == store.items,
        store.unflush_stored().max_items == store.max_items,
        store.unflush_stored().flushed == 0,
{
}

/// A valid store is within its bound and holds nothing twice.
pub proof fn a_valid_store_holds_nothing_twice<T: StoreItem>(store: StoreModel<T>, i: int, j: int)
    ensures
        store.wf() ==> store.flushed <= store.items.len() <= store.max_items,
        store.wf() && 0 <= i < j < store.items.len() ==> !store.items[i].same(&store.items[j]),
{
}

/// Items report the same thing just if they agree in every field.
pub proof fn items_are_told_apart_by_every_field(
    d: (Dependency, Dependency),
    i: (Integration, Integration),
    c: (Configuration, Configuration),
)
    ensures
        d.0.same(&d.1) <==> d.0.name@ == d.1.name@ && (d.0.version is None <==> d.1.version
            is None) && (d.0.version is Some && d.1.version is Some ==> d.0.version->0@
            == d.1.version->0@),
        i.0.same(&i.1) <==> i.0.name@ == i.1.name@ && i.0.enabled == i.1.enabled && (
        i.0.version is None <==> i.1.version is None) && (i.0.version is Some && i.1.version
            is Some ==> i.0.version->0@ == i.1.version->0@) && i.0.compatible == i.1.compatible
            && i.0.auto_enabled == i.1.auto_enabled,
        c.0.same(&c.1) <==> c.0.name@ == c.1.name@ && c.0.value@ == c.1.value@,
{
}

/// Putting a value under a key replaces the value in the place of the key, if the
/// key has one, and goes to the end otherwise. Every other entry stays in its place.
pub proof fn putting_changes_one_entry<V>(
    entries: Seq<(LogIdentifier, V)>,
    key: LogIdentifier,
    value: V,
    at: int,
)
    ensures
        (forall|i: int| 0 <= i < entries.len() ==> #[trigger] entries[i].0 != key) ==> {
            &&& !has_key(entries, key)
            &&& put(entries, key, value).len() == entries.len() + 1
            &&& put(entries, key, value)[entries.len() as int] == (key, value)
            &&& forall|i: int|
                0 <= i < entries.len() ==> #[trigger] put(entries, key, value)[i] == entries[i]
        },
        0 <= at < entries.len() && entries[at].0 == key && (forall|i: int|
            0 <= i < entries.len() && i != at ==> #[trigger] entries[i].0 != key) ==> {
            &&& has_key(entries, key)
            &&& key_index(entries, key) == at
            &&& put(entries, key, value).len() == entries.len()
            &&& put(entries, key, value)[at] == (key, value)
            &&& forall|i: int|
                0 <= i < entries.len() && i != at ==> #[trigger] put(entries, key, value)[i]
                    == entries[i]
        },
{
    if has_key(entries, key) {
        assert(entries[key_index(entries, key)].0 == key);
    }
    if 0 <= at < entries.len() && entries[at].0 == key {
        assert(has_key(entries, key));
    }
}

} // verus!
