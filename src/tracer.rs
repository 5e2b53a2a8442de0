//! The leak tracer: an enabled flag and the live map, driven by the
//! allocator hook.
//!
//! Each hook operation is handed the address the real allocator produced
//! (zero when it failed) and hands the same address back, so the tracer
//! never changes what a caller sees; recording is a pure side effect.
use crate::call::Call;
use crate::capture::capture_stack;
use crate::history::{steps_as, HookEvent};
use crate::live_map::{copy_of, live_entries, AllocationRecord, LiveMap};
use vstd::prelude::*;

verus! {

/// The tracer's state: the live map and the enabled flag.
pub struct LeakTracerInner {
    allocates: LiveMap,
    enabled: bool,
}

impl LeakTracerInner {
    /// Records held, by address.
    pub closed spec fn entries(&self) -> Map<usize, AllocationRecord> {
        live_entries(self.allocates)
    }

    /// Whether tracking is on.
    pub closed spec fn is_on(&self) -> bool {
        self.enabled
    }
}

impl Default for LeakTracerInner {
    /// An empty map, with tracking enabled.
    fn default() -> (r: LeakTracerInner)
        ensures
            r.entries().dom() == Set::<usize>::empty(),
            r.is_on(),
    {
        LeakTracerInner { allocates: LiveMap::new(), enabled: true }
    }
}

/// A tracer whose captured stacks keep at most `STACK_SIZE` frames.
pub struct LeakTracer<const STACK_SIZE: usize>(LeakTracerInner);

/// A tracer keeping ten frames per allocation.
pub type LeakTracerDefault = LeakTracer<10>;

/// `rec` is a record of an allocation of `size` bytes at `ptr`, whose stack
/// keeps at most `depth` frames.
pub open spec fn fresh_record(rec: AllocationRecord, ptr: usize, size: usize, depth: usize) -> bool {
    &&& rec.ptr == ptr
    &&& rec.size == size
    &&& rec.stack@.len() <= depth
}

/// `after` is `before` with one new record of `size` bytes at `ptr`.
pub open spec fn records_added(
    after: Map<usize, AllocationRecord>,
    before: Map<usize, AllocationRecord>,
    ptr: usize,
    size: usize,
    depth: usize,
) -> bool {
    &&& after.dom() == before.dom().insert(ptr)
    &&& fresh_record(after[ptr], ptr, size, depth)
    &&& forall|k: usize|
        #![trigger after[k]]
        #![trigger before.contains_key(k)]
        k != ptr && before.contains_key(k) ==> after[k] == before[k]
}

/// Every record in `m` keeps at most `depth` frames.
pub open spec fn stacks_within(m: Map<usize, AllocationRecord>, depth: usize) -> bool {
    forall|a: usize| #[trigger] m.contains_key(a) ==> m[a].stack@.len() <= depth
}

/// `m` is a well-formed registry: finitely many records, each stored under
/// its own address, none keeping more than `depth` frames.
pub open spec fn registry_wf(m: Map<usize, AllocationRecord>, depth: usize) -> bool {
    &&& m.dom().finite()
    &&& forall|a: usize| #[trigger] m.contains_key(a) ==> m[a].ptr == a
    &&& stacks_within(m, depth)
}

impl<const STACK_SIZE: usize> LeakTracer<STACK_SIZE> {
    /// Finitely many records, each under its own address, none keeping
    /// more than `STACK_SIZE` frames. `new` establishes it and every
    /// operation keeps it.
    pub open spec fn wf(&self) -> bool {
        registry_wf(self.entries(), STACK_SIZE)
    }


    /// Records of the allocations currently tracked, by address.
    pub closed spec fn entries(&self) -> Map<usize, AllocationRecord> {
        self.0.entries()
    }

    /// Whether tracking is on.
    pub closed spec fn is_on(&self) -> bool {
        self.0.is_on()
    }

    /// A tracer with nothing recorded and tracking enabled.
    pub fn new() -> (r: Self)
        ensures
            r.entries().dom() == Set::<usize>::empty(),
            r.is_on(),
            r.wf(),
    {
        LeakTracer(LeakTracerInner::default())
    }

    /// Stops recording; what is recorded stays.
    pub fn disable(&mut self)
        requires
            old(self).wf(),
        ensures
            final(self).wf(),
            !final(self).is_on(),
            final(self).entries() == old(self).entries(),
            steps_as(*old(self), *final(self), HookEvent::Disable),
    {
        self.0.enabled = false;
    }

    /// Resumes recording; nothing is recorded retroactively.
    pub fn enable(&mut self)
        requires
            old(self).wf(),
        ensures
            final(self).wf(),
            final(self).is_on(),
            final(self).entries() == old(self).entries(),
            steps_as(*old(self), *final(self), HookEvent::Enable),
    {
        self.0.enabled = true;
    }

    /// Whether tracking is on.
    pub fn is_enabled(&self) -> (r: bool)
        ensures
            r == self.is_on(),
    {
        self.0.enabled
    }

    /// A copy of every record currently held. Tracking is off while the
    /// copy is made and is then put back as it was; the records themselves
    /// are left untouched.
    pub fn get_leaks(&mut self) -> (r: LiveMap)
        requires
            old(self).wf(),
        ensures
            final(self).wf(),
            copy_of(live_entries(r), old(self).entries()),
            final(self).entries() == old(self).entries(),
            final(self).is_on() == old(self).is_on(),
            registry_wf(live_entries(r), STACK_SIZE),
    {
        let cur = self.0.enabled;
        self.0.enabled = false;
        let out = self.0.allocates.copy();
        self.0.enabled = cur;
        out
    }

    /// Accounts for an allocation of `size` bytes that the real allocator
    /// answered with `ptr` (zero on failure), and returns `ptr` unchanged.
    /// With tracking on and a successful allocation, a record with a fresh
    /// stack capture is stored under `ptr`; otherwise nothing changes.
    pub fn alloc_accounting(&mut self, size: usize, ptr: usize) -> (r: usize)
        requires
            old(self).wf(),
        ensures
            final(self).wf(),
            r == ptr,
            final(self).is_on() == old(self).is_on(),
            old(self).is_on() && ptr != 0 ==> records_added(
                final(self).entries(),
                old(self).entries(),
                ptr,
                size,
                STACK_SIZE,
            ),
            !(old(self).is_on() && ptr != 0) ==> final(self).entries() == old(self).entries(),
            steps_as(*old(self), *final(self), (HookEvent::Alloc { ptr, size })),
    {
        if !self.0.enabled || ptr == 0 {
            return ptr;
        }
        let stack = capture_stack(STACK_SIZE);
        self.record_allocation(size, ptr, stack)
    }

    /// Like `alloc_accounting`, with the call stack already captured: with
    /// tracking on and a successful allocation, the record of `size`, `ptr`
    /// and `stack` is stored under `ptr`; otherwise nothing changes. Lets a
    /// caller walk the stack before taking any lock around the tracer.
    pub fn record_allocation(&mut self, size: usize, ptr: usize, stack: Vec<Call>) -> (r: usize)
        requires
            old(self).wf(),
            stack@.len() <= STACK_SIZE,
        ensures
            final(self).wf(),
            r == ptr,
            final(self).is_on() == old(self).is_on(),
            old(self).is_on() && ptr != 0 ==> final(self).entries() == old(self).entries().insert(
                ptr,
                (AllocationRecord { size, ptr, stack }),
            ),
            !(old(self).is_on() && ptr != 0) ==> final(self).entries() == old(self).entries(),
            steps_as(*old(self), *final(self), (HookEvent::Alloc { ptr, size })),
    {
        if !self.0.enabled || ptr == 0 {
            return ptr;
        }
        let record = AllocationRecord { size, ptr, stack };
        let _ = self.0.allocates.insert(ptr, record);
        ptr
    }

    /// Like `realloc_accounting`, with the call stack already captured: a
    /// move releases `old_ptr` and records `new_ptr` with `stack`; a resize
    /// in place or a failure changes nothing.
    pub fn record_reallocation(&mut self, old_ptr: usize, new_ptr: usize, new_size: usize, stack: Vec<Call>) -> (r: usize)
        requires
            old(self).wf(),
            stack@.len() <= STACK_SIZE,
        ensures
            final(self).wf(),
            r == new_ptr,
            final(self).is_on() == old(self).is_on(),
            old(self).is_on() && new_ptr != 0 && new_ptr != old_ptr ==> final(self).entries()
                == old(self).entries().remove(old_ptr).insert(
                new_ptr,
                (AllocationRecord { size: new_size, ptr: new_ptr, stack }),
            ),
            !(old(self).is_on() && new_ptr != 0 && new_ptr != old_ptr) ==> final(self).entries()
                == old(self).entries(),
            steps_as(*old(self), *final(self), (HookEvent::Realloc { old_ptr, new_ptr, new_size })),
    {
        if new_ptr != 0 && new_ptr != old_ptr {
            self.dealloc_accounting(old_ptr);
            self.record_allocation(new_size, new_ptr, stack);
        }
        new_ptr
    }

    /// Accounts for the release of `ptr`: with tracking on, its record (if
    /// any) is dropped; otherwise nothing changes.
    pub fn dealloc_accounting(&mut self, ptr: usize)
        requires
            old(self).wf(),
        ensures
            final(self).wf(),
            final(self).is_on() == old(self).is_on(),
            old(self).is_on() ==> final(self).entries() == old(self).entries().remove(ptr),
            !old(self).is_on() ==> final(self).entries() == old(self).entries(),
            steps_as(*old(self), *final(self), (HookEvent::Dealloc { ptr })),
    {
        if !self.0.enabled {
            return;
        }
        let _ = self.0.allocates.remove(ptr);
    }

    /// Accounts for a reallocation of `old_ptr` to `new_size` bytes that the
    /// real allocator answered with `new_ptr` (zero on failure), and returns
    /// `new_ptr` unchanged. A move is a release of `old_ptr` followed by an
    /// allocation at `new_ptr`; a resize in place or a failure changes
    /// nothing, so the size recorded for an address resized in place is the
    /// size it was first allocated with.
    pub fn realloc_accounting(&mut self, old_ptr: usize, new_ptr: usize, new_size: usize) -> (r: usize)
        requires
            old(self).wf(),
        ensures
            final(self).wf(),
            r == new_ptr,
            final(self).is_on() == old(self).is_on(),
            old(self).is_on() && new_ptr != 0 && new_ptr != old_ptr ==> records_added(
                final(self).entries(),
                old(self).entries().remove(old_ptr),
                new_ptr,
                new_size,
                STACK_SIZE,
            ),
            !(old(self).is_on() && new_ptr != 0 && new_ptr != old_ptr) ==> final(self).entries()
                == old(self).entries(),
            steps_as(*old(self), *final(self), (HookEvent::Realloc { old_ptr, new_ptr, new_size })),
    {
        if new_ptr != 0 && new_ptr != old_ptr {
            self.dealloc_accounting(old_ptr);
            self.alloc_accounting(new_size, new_ptr);
        }
        new_ptr
    }
}

} // verus!
