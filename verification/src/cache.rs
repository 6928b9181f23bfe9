//! Renderer-bound resource caches that create each resource once, keep it
//! until the renderer is invalidated, and leave their contents untouched when
//! a creation fails.

use vstd::prelude::*;
use vstd::laws_eq::obeys_concrete_eq;
use vstd::std_specs::cmp::PartialEqSpec;
use crate::storage::{vec_capacity, vec_try_reserve_exact};

verus! {

/// Why a cache could not hold a new resource.
#[derive(Debug, PartialEq, Eq)]
pub enum CacheError<E> {
    /// The cache already holds `limit` entries.
    Limit {
        /// The entry cap.
        limit: usize,
    },
    /// Room for one more entry could not be reserved.
    Allocation {
        /// Bytes of the entry that could not be reserved.
        requested_bytes: usize,
    },
    /// Creating the resource failed.
    Create(E),
}

/// Index of the first entry stored under `key`, if any.
pub open spec fn first_index_of<K, V>(entries: Seq<(K, V)>, key: K) -> Option<int> {
    if exists|k: int| 0 <= k < entries.len() && (#[trigger] entries[k]).0 == key {
        Some(
            choose|k: int|
                0 <= k < entries.len() && (#[trigger] entries[k]).0 == key && forall|j: int|
                    0 <= j < k ==> (#[trigger] entries[j]).0 != key,
        )
    } else {
        None
    }
}

/// Whether some entry is stored under `key`.
pub open spec fn holds_key<K, V>(entries: Seq<(K, V)>, key: K) -> bool {
    exists|k: int| 0 <= k < entries.len() && (#[trigger] entries[k]).0 == key
}

/// No key is stored twice.
pub open spec fn keys_unique<K, V>(entries: Seq<(K, V)>) -> bool {
    forall|i: int, j: int|
        0 <= i < entries.len() && 0 <= j < entries.len() && i != j ==> (#[trigger] entries[i]).0
            != (#[trigger] entries[j]).0
}

/// `value` is the resource first stored under `key`.
pub open spec fn first_resource<K, V>(entries: Seq<(K, V)>, key: K, value: V) -> bool {
    exists|k: int|
        0 <= k < entries.len() && (#[trigger] entries[k]).0 == key && entries[k].1 == value
            && forall|j: int| 0 <= j < k ==> (#[trigger] entries[j]).0 != key
}

/// Law (read after create): once a resource is created under an absent key,
/// looking that key up finds exactly that resource, and every other key
/// still finds what it found before.
pub proof fn created_resource_is_found<K, V>(entries: Seq<(K, V)>, key: K, value: V, other: K, found: V)
    requires
        !holds_key(entries, key),
    ensures
        holds_key(entries.push((key, value)), key),
        first_resource(entries.push((key, value)), key, value),
        other != key ==> (first_resource(entries.push((key, value)), other, found)
            <==> first_resource(entries, other, found)),
{
    let after = entries.push((key, value));
    assert(after[entries.len() as int] == (key, value));
    assert forall|j: int| 0 <= j < entries.len() implies (#[trigger] after[j]).0 != key by {
        assert(after[j] == entries[j]);
    }
    if other != key {
        if first_resource(after, other, found) {
            let k = choose|k: int|
                0 <= k < after.len() && (#[trigger] after[k]).0 == other && after[k].1 == found
                    && forall|j: int| 0 <= j < k ==> (#[trigger] after[j]).0 != other;
            assert(k < entries.len());
            assert(entries[k] == after[k]);
            assert forall|j: int| 0 <= j < k implies (#[trigger] entries[j]).0 != other by {
                assert(after[j] == entries[j]);
            }
        }
        if first_resource(entries, other, found) {
            let k = choose|k: int|
                0 <= k < entries.len() && (#[trigger] entries[k]).0 == other && entries[k].1
                    == found && forall|j: int| 0 <= j < k ==> (#[trigger] entries[j]).0 != other;
            assert(after[k] == entries[k]);
            assert forall|j: int| 0 <= j < k implies (#[trigger] after[j]).0 != other by {
                assert(after[j] == entries[j]);
            }
        }
    }
}

/// Resources created once per key, in creation order.
pub struct ResourceCache<K, V> {
    entries: Vec<(K, V)>,
}

impl<K: Copy + PartialEq, V> ResourceCache<K, V> {
    /// The cached entries, oldest first.
    pub closed spec fn spec_entries(&self) -> Seq<(K, V)> {
        self.entries@
    }

    /// Creates an empty cache that owns no allocation.
    pub fn new() -> (cache: Self)
        ensures
            cache.spec_entries() == Seq::<(K, V)>::empty(),
    {
        Self { entries: Vec::new() }
    }

    /// Number of cached resources.
    pub fn len(&self) -> (len: usize)
        ensures
            len == self.spec_entries().len(),
    {
        self.entries.len()
    }

    /// Number of entries the cache can hold without reallocating; at least
    /// its length.
    pub fn capacity(&self) -> (capacity: usize)
        ensures
            capacity >= self.spec_entries().len(),
    {
        vec_capacity(&self.entries)
    }

    /// The resource stored under `key`.
    pub fn get(&self, key: K) -> (found: Option<&V>)
        ensures
            obeys_concrete_eq::<K>() ==> (found is Some <==> holds_key(self.spec_entries(), key)),
            obeys_concrete_eq::<K>() ==> (found is Some ==> first_resource(
                self.spec_entries(),
                key,
                *found->0,
            )),
    {
        proof {
            reveal(obeys_concrete_eq);
        }
        let mut index: usize = 0;
        while index < self.entries.len()
            invariant
                index <= self.entries@.len(),
                obeys_concrete_eq::<K>() ==> forall|j: int|
                    0 <= j < index ==> (#[trigger] self.entries@[j]).0 != key,
            decreases self.entries@.len() - index,
        {
            let entry = &self.entries[index];
            let same = entry.0 == key;
            proof {
                reveal(obeys_concrete_eq);
                if obeys_concrete_eq::<K>() {
                    assert(same == (entry.0 == key)) by {
                        assert(entry.0.eq_spec(&key) <==> entry.0 == key);
                    }
                }
            }
            if same {
                proof {
                    assert(self.spec_entries()[index as int] == *entry);
                }
                return Some(&entry.1);
            }
            index += 1;
        }
        None
    }

    /// Drops every cached resource, keeping the entry storage.
    pub fn clear(&mut self)
        ensures
            final(self).spec_entries() == Seq::<(K, V)>::empty(),
    {
        self.entries.clear();
    }

    /// Makes sure a resource is cached under `key`, creating it with `create`
    /// only when it is absent, the cache holds fewer than `limit` entries and
    /// one more entry can be reserved. On any error the cache is unchanged.
    pub fn ensure<E, F: FnOnce() -> Result<V, E>>(&mut self, key: K, limit: usize, create: F) -> (result:
        Result<(), CacheError<E>>)
        requires
            create.requires(()),
        ensures
            obeys_concrete_eq::<K>() && holds_key(old(self).spec_entries(), key) ==> result is Ok
                && final(self).spec_entries() == old(self).spec_entries(),
            obeys_concrete_eq::<K>() && !holds_key(old(self).spec_entries(), key)
                && old(self).spec_entries().len() >= limit ==> result == Err::<(), CacheError<E>>(
                CacheError::Limit { limit },
            ) && final(self).spec_entries() == old(self).spec_entries(),
            obeys_concrete_eq::<K>() && !holds_key(old(self).spec_entries(), key)
                && old(self).spec_entries().len() < limit ==> match result {
                Ok(()) => exists|value: V|
                    create.ensures((), Ok::<V, E>(value)) && final(self).spec_entries()
                        == old(self).spec_entries().push((key, value)),
                Err(CacheError::Limit { .. }) => false,
                Err(CacheError::Allocation { requested_bytes }) => requested_bytes
                    == vstd::layout::size_of::<(K, V)>() && final(self).spec_entries() == old(self).spec_entries(),
                Err(CacheError::Create(error)) => create.ensures((), Err::<V, E>(error))
                    && final(self).spec_entries() == old(self).spec_entries(),
            },
            final(self).spec_entries() == old(self).spec_entries() || (result is Ok
                && old(self).spec_entries().len() < limit && exists|value: V|
                create.ensures((), Ok::<V, E>(value)) && final(self).spec_entries()
                == old(self).spec_entries().push((key, value))),
    {
        if self.get(key).is_some() {
            return Ok(());
        }
        if self.entries.len() >= limit {
            return Err(CacheError::Limit { limit });
        }
        if !vec_try_reserve_exact(&mut self.entries, 1) {
            return Err(CacheError::Allocation { requested_bytes: core::mem::size_of::<(K, V)>() });
        }
        match create() {
            Ok(resource) => {
                self.entries.push((key, resource));
                Ok(())
            },
            Err(error) => Err(CacheError::Create(error)),
        }
    }

    /// While keys compare as they are, no key is cached twice.
    pub proof fn ensure_keeps_keys_unique(
        before: Seq<(K, V)>,
        after: Seq<(K, V)>,
        key: K,
        value: V,
    )
        requires
            keys_unique(before),
            !holds_key(before, key),
            after == before.push((key, value)),
        ensures
            keys_unique(after),
    {
        assert forall|i: int, j: int|
            0 <= i < after.len() && 0 <= j < after.len() && i != j implies (#[trigger] after[i]).0
            != (#[trigger] after[j]).0 by {
            if i == before.len() as int {
                assert(after[j] == before[j]);
            } else if j == before.len() as int {
                assert(after[i] == before[i]);
            } else {
                assert(after[i] == before[i] && after[j] == before[j]);
            }
        }
    }
}

/// Whether `entry` holds a target created for `descriptor`.
pub open spec fn holds_descriptor<D, T>(entry: Option<(D, T)>, descriptor: D) -> bool {
    match entry {
        Some((held, _)) => held == descriptor,
        None => false,
    }
}

/// One renderer-bound target, recreated only when its descriptor changes.
pub struct TargetCache<D, T> {
    entry: Option<(D, T)>,
}

impl<D: Copy + PartialEq, T> TargetCache<D, T> {
    /// The cached descriptor and target, if any.
    pub closed spec fn spec_entry(&self) -> Option<(D, T)> {
        self.entry
    }

    /// Creates an empty cache.
    pub fn new() -> (cache: Self)
        ensures
            cache.spec_entry() is None,
    {
        Self { entry: None }
    }

    /// Releases the cached target.
    pub fn clear(&mut self)
        ensures
            final(self).spec_entry() is None,
    {
        self.entry = None;
    }

    /// The cached target, if any.
    pub fn get(&self) -> (target: Option<&T>)
        ensures
            target is Some <==> self.spec_entry() is Some,
            target is Some ==> (match self.spec_entry() {
                Some((_, held)) => *target->0 == held,
                None => false,
            }),
    {
        match &self.entry {
            Some(entry) => Some(&entry.1),
            None => None,
        }
    }

    /// Whether the cached target was created for `descriptor`.
    pub fn matches(&self, descriptor: D) -> (matched: bool)
        ensures
            obeys_concrete_eq::<D>() ==> matched == holds_descriptor(self.spec_entry(), descriptor),
            self.spec_entry() is None ==> !matched,
    {
        proof {
            reveal(obeys_concrete_eq);
        }
        match &self.entry {
            Some(entry) => {
                let same = entry.0 == descriptor;
                proof {
                    if obeys_concrete_eq::<D>() {
                        assert(entry.0.eq_spec(&descriptor) <==> entry.0 == descriptor);
                    }
                }
                same
            },
            None => false,
        }
    }

    /// Keeps a target created for `descriptor`. A different or missing target
    /// is released before `create` runs, so a failed creation leaves the
    /// cache empty.
    pub fn ensure<E, F: FnOnce() -> Result<T, E>>(&mut self, descriptor: D, create: F) -> (result:
        Result<(), E>)
        requires
            create.requires(()),
        ensures
            obeys_concrete_eq::<D>() && holds_descriptor(old(self).spec_entry(), descriptor)
                ==> result is Ok && final(self).spec_entry() == old(self).spec_entry(),
            obeys_concrete_eq::<D>() && !holds_descriptor(old(self).spec_entry(), descriptor)
                ==> match result {
                Ok(()) => exists|target: T|
                    create.ensures((), Ok::<T, E>(target)) && final(self).spec_entry() == Some(
                        (descriptor, target),
                    ),
                Err(error) => create.ensures((), Err::<T, E>(error)) && final(self).spec_entry() is None,
            },
    {
        if self.matches(descriptor) {
            return Ok(());
        }
        self.clear();
        match create() {
            Ok(target) => {
                self.entry = Some((descriptor, target));
                Ok(())
            },
            Err(error) => Err(error),
        }
    }
}

} // verus!
