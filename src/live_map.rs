//! The map from live address to allocation record.
//!
//! It is a `hashbrown::HashMap` whose own storage comes straight from the
//! system allocator, so growing the map never re-enters the tracer.
use crate::call::Call;
use crate::text::text_of;
use vstd::prelude::*;

verus! {

/// Metadata for one live allocation.
#[derive(Debug, Clone)]
pub struct AllocationRecord {
    /// Requested size in bytes (for a moving reallocation, the new size).
    pub size: usize,
    /// Address handed out by the allocator; also the record's key.
    pub ptr: usize,
    /// Call stack at allocation time, innermost frame first.
    pub stack: Vec<Call>,
}

/// Live allocations keyed by address.
#[verifier::external_body]
pub struct LiveMap {
    map: hashbrown::HashMap<usize, AllocationRecord, hashbrown::hash_map::DefaultHashBuilder, std::alloc::System>,
}

/// The records a live map holds, by address.
pub uninterp spec fn live_entries(m: LiveMap) -> Map<usize, AllocationRecord>;

/// Two optional texts hold the same characters.
pub open spec fn same_text(a: Option<crate::text::BoundedText>, b: Option<crate::text::BoundedText>) -> bool {
    match (a, b) {
        (None, None) => true,
        (Some(x), Some(y)) => text_of(x) == text_of(y),
        _ => false,
    }
}

/// `c` carries the same data as frame `f`.
pub open spec fn same_call(c: Call, f: Call) -> bool {
    &&& same_text(c.name, f.name)
    &&& same_text(c.filename, f.filename)
    &&& c.line == f.line
    &&& c.col == f.col
    &&& c.addr == f.addr
}

/// `c` carries the same data as `r`, frame by frame: what a clone of a
/// record holds.
pub open spec fn same_record(c: AllocationRecord, r: AllocationRecord) -> bool {
    &&& c.size == r.size
    &&& c.ptr == r.ptr
    &&& c.stack@.len() == r.stack@.len()
    &&& forall|i: int| 0 <= i < r.stack@.len() ==> same_call(#[trigger] c.stack@[i], r.stack@[i])
}

/// `c` holds a copy of each record of `m`, under the same addresses.
pub open spec fn copy_of(c: Map<usize, AllocationRecord>, m: Map<usize, AllocationRecord>) -> bool {
    &&& c.dom() == m.dom()
    &&& forall|k: usize| #[trigger] m.contains_key(k) ==> same_record(c[k], m[k])
}

impl LiveMap {
    /// Relies on hashbrown::HashMap::with_hasher_in: a new map is empty.
    #[verifier::external_body]
    pub fn new() -> (r: LiveMap)
        ensures
            live_entries(r).dom() == Set::<usize>::empty(),
    {
        LiveMap { map: hashbrown::HashMap::with_hasher_in(Default::default(), std::alloc::System) }
    }

    /// Relies on hashbrown::HashMap::insert: the key maps to the new value
    /// afterwards, replacing any earlier one; the result says whether there
    /// was one.
    #[verifier::external_body]
    pub(crate) fn insert(&mut self, k: usize, v: AllocationRecord) -> (r: bool)
        ensures
            live_entries(*final(self)) == live_entries(*old(self)).insert(k, v),
            r == live_entries(*old(self)).contains_key(k),
    {
        self.map.insert(k, v).is_some()
    }

    /// Relies on hashbrown::HashMap::remove: the key is absent afterwards;
    /// the result says whether it was present.
    #[verifier::external_body]
    pub(crate) fn remove(&mut self, k: usize) -> (r: bool)
        ensures
            live_entries(*final(self)) == live_entries(*old(self)).remove(k),
            r == live_entries(*old(self)).contains_key(k),
    {
        self.map.remove(&k).is_some()
    }

    /// Relies on hashbrown::HashMap::clone: the copy holds a clone of every
    /// entry under the same key; records and frames are cloned field by
    /// field (derived `Clone`), and a heapless string clone holds the same
    /// characters.
    #[verifier::external_body]
    pub(crate) fn copy(&self) -> (r: LiveMap)
        ensures
            copy_of(live_entries(r), live_entries(*self)),
    {
        LiveMap { map: self.map.clone() }
    }

    /// Relies on hashbrown::HashMap::len: the number of entries.
    #[verifier::external_body]
    pub fn len(&self) -> (r: usize)
        ensures
            r == live_entries(*self).len(),
    {
        self.map.len()
    }

    /// Relies on hashbrown::HashMap::get: the record under `k`, if any.
    #[verifier::external_body]
    pub fn get(&self, k: usize) -> (r: Option<&AllocationRecord>)
        ensures
            r matches Some(v) ==> live_entries(*self).contains_key(k) && *v == live_entries(*self)[k],
            r is None ==> !live_entries(*self).contains_key(k),
    {
        self.map.get(&k)
    }

    /// Relies on hashbrown::HashMap::keys: every key once, in an order that
    /// depends on the hasher's seed.
    #[verifier::external_body]
    pub fn addresses(&self) -> (r: Vec<usize>)
        ensures
            r@.no_duplicates(),
            r@.to_set() == live_entries(*self).dom(),
    {
        self.map.keys().copied().collect()
    }

    /// Whether a record is held under `k`.
    pub fn contains_key(&self, k: usize) -> (r: bool)
        ensures
            r == live_entries(*self).contains_key(k),
    {
        self.get(k).is_some()
    }
}

} // verus!
