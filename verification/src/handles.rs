//! The scoped-handle table: borrow-limited native objects exposed to script
//! code for the lifetime of one callback invocation.
//!
//! The per-frame UI context is borrow-scoped in the host library, so scripts
//! never hold it directly.  Instead each callback invocation opens a scope in
//! this table and hands the script a [`Handle`]: a slot index paired with a
//! generation drawn from a strictly increasing counter.  Closing the scope
//! invalidates the handle; a later access through it is a deterministic
//! scope-escape error, never stale data, and no two scopes ever share a
//! handle, so a handle from one frame is useless in every other frame.

use vstd::prelude::*;

use crate::errors::BindingError;

verus! {

/// A script-visible reference to one scoped native object.  The generation
/// ties the handle to the single scope that issued it.
#[derive(Clone, Copy, PartialEq, Eq, Structural, Debug)]
pub struct Handle {
    pub slot: usize,
    pub generation: u64,
}

struct SlotRec {
    generation: u64,
    live: bool,
    mut_held: bool,
}

/// The table of currently registered scoped objects.
pub struct HandleTable {
    slots: Vec<SlotRec>,
    next_generation: u64,
}

impl HandleTable {
    /// Well-formedness: generations already handed out lie strictly below
    /// the counter, and an exclusive borrow is only ever held on a live slot.
    pub closed spec fn wf(&self) -> bool {
        &&& self.next_generation >= 1
        &&& forall|i: int|
            0 <= i < self.slots@.len() ==> {
                &&& (#[trigger] self.slots@[i]).generation < self.next_generation
                &&& (self.slots@[i].mut_held ==> self.slots@[i].live)
            }
    }

    /// The generation the next scope will receive; every handle issued so
    /// far lies strictly below it.
    pub closed spec fn generation_bound(&self) -> u64 {
        self.next_generation
    }

    /// True while `h` may be used: its slot is live and still in the
    /// generation that issued `h`.
    pub closed spec fn is_valid(&self, h: Handle) -> bool {
        &&& h.slot < self.slots@.len()
        &&& self.slots@[h.slot as int].live
        &&& self.slots@[h.slot as int].generation == h.generation
    }

    /// True while the exclusive borrow of the object behind `h` is held.
    pub closed spec fn is_mut_held(&self, h: Handle) -> bool {
        self.is_valid(h) && self.slots@[h.slot as int].mut_held
    }

    /// What `access` returns for `h` on this table.
    pub open spec fn access_spec(&self, h: Handle) -> Result<(), BindingError> {
        if self.is_valid(h) {
            Ok(())
        } else {
            Err(BindingError::ScopeEscape)
        }
    }

    /// An empty table: no handle is valid against it.
    pub fn new() -> (t: HandleTable)
        ensures
            t.wf(),
            t.generation_bound() == 1,
            forall|h: Handle| !t.is_valid(h),
    {
        HandleTable { slots: Vec::new(), next_generation: 1 }
    }

    /// True once the generation counter is exhausted, so that a caller can
    /// test `open_scope`'s machine-limit precondition before opening.
    pub fn at_generation_limit(&self) -> (r: bool)
        ensures
            r <==> self.generation_bound() == u64::MAX,
    {
        self.next_generation == u64::MAX
    }

    /// Opens a scope: registers one scoped object and returns the handle
    /// under which script code may address it.  The handle was not valid
    /// before this call, carries the current generation bound, and every
    /// other handle keeps its validity and borrow state.
    pub fn open_scope(&mut self) -> (h: Handle)
        requires
            old(self).wf(),
            old(self).generation_bound() < u64::MAX,
        ensures
            final(self).wf(),
            final(self).is_valid(h),
            !old(self).is_valid(h),
            !final(self).is_mut_held(h),
            h.generation == old(self).generation_bound(),
            final(self).generation_bound() == old(self).generation_bound() + 1,
            forall|g: Handle|
                g != h ==> #[trigger] final(self).is_valid(g) == old(self).is_valid(g),
            forall|g: Handle|
                g != h ==> #[trigger] final(self).is_mut_held(g) == old(self).is_mut_held(g),
    {
        let generation = self.next_generation;
        self.next_generation = self.next_generation + 1;
        let mut slot: usize = 0;
        let n = self.slots.len();
        while slot < n && self.slots[slot].live
            invariant
                n == self.slots@.len(),
                slot <= n,
                forall|i: int| 0 <= i < slot ==> (#[trigger] self.slots@[i]).live,
            decreases n - slot,
        {
            slot = slot + 1;
        }
        if slot < n {
            self.slots.set(slot, SlotRec { generation, live: true, mut_held: false });
        } else {
            self.slots.push(SlotRec { generation, live: true, mut_held: false });
        }
        Handle { slot, generation }
    }

    /// Closes the scope that issued `h`: the handle is deregistered and from
    /// now on every access through it is a scope escape.  All other handles
    /// are untouched, and no generation is ever reused.
    pub fn close_scope(&mut self, h: Handle)
        requires
            old(self).wf(),
            old(self).is_valid(h),
        ensures
            final(self).wf(),
            !final(self).is_valid(h),
            final(self).generation_bound() == old(self).generation_bound(),
            forall|g: Handle|
                g != h ==> #[trigger] final(self).is_valid(g) == old(self).is_valid(g),
            forall|g: Handle|
                g != h ==> #[trigger] final(self).is_mut_held(g) == old(self).is_mut_held(g),
    {
        let generation = self.slots[h.slot].generation;
        self.slots.set(h.slot, SlotRec { generation, live: false, mut_held: false });
    }

    /// Checks that `h` may still be used.  Succeeds exactly while the scope
    /// that issued `h` is open; afterwards it reports a scope escape rather
    /// than touching stale state.
    pub fn access(&self, h: Handle) -> (r: Result<(), BindingError>)
        ensures
            r == self.access_spec(h),
    {
        if h.slot < self.slots.len() && self.slots[h.slot].live
            && self.slots[h.slot].generation == h.generation {
            Ok(())
        } else {
            Err(BindingError::ScopeEscape)
        }
    }

    /// Takes the exclusive borrow of the object behind `h` for the duration
    /// of one mutating native call.  Fails with a scope escape on a handle
    /// whose scope is gone, and with an exclusive-access violation while the
    /// borrow is already held elsewhere; on failure the table is unchanged.
    pub fn begin_mut(&mut self, h: Handle) -> (r: Result<(), BindingError>)
        requires
            old(self).wf(),
        ensures
            final(self).wf(),
            r is Ok <==> old(self).is_valid(h) && !old(self).is_mut_held(h),
            !old(self).is_valid(h) ==> r == Err::<(), BindingError>(BindingError::ScopeEscape),
            old(self).is_valid(h) && old(self).is_mut_held(h) ==> r == Err::<(), BindingError>(
                BindingError::ExclusiveAccessViolation,
            ),
            r is Err ==> *final(self) == *old(self),
            r is Ok ==> final(self).is_mut_held(h),
            final(self).generation_bound() == old(self).generation_bound(),
            forall|g: Handle| #[trigger] final(self).is_valid(g) == old(self).is_valid(g),
            forall|g: Handle|
                g != h ==> #[trigger] final(self).is_mut_held(g) == old(self).is_mut_held(g),
    {
        if !(h.slot < self.slots.len() && self.slots[h.slot].live
            && self.slots[h.slot].generation == h.generation) {
            Err(BindingError::ScopeEscape)
        } else if self.slots[h.slot].mut_held {
            Err(BindingError::ExclusiveAccessViolation)
        } else {
            let generation = self.slots[h.slot].generation;
            self.slots.set(h.slot, SlotRec { generation, live: true, mut_held: true });
            Ok(())
        }
    }

    /// Releases the exclusive borrow taken by `begin_mut` once the mutating
    /// native call has returned.
    pub fn end_mut(&mut self, h: Handle)
        requires
            old(self).wf(),
            old(self).is_mut_held(h),
        ensures
            final(self).wf(),
            !final(self).is_mut_held(h),
            final(self).generation_bound() == old(self).generation_bound(),
            forall|g: Handle| #[trigger] final(self).is_valid(g) == old(self).is_valid(g),
            forall|g: Handle|
                g != h ==> #[trigger] final(self).is_mut_held(g) == old(self).is_mut_held(g),
    {
        let generation = self.slots[h.slot].generation;
        self.slots.set(h.slot, SlotRec { generation, live: true, mut_held: false });
    }
}

/// A handle whose scope has closed is provably unusable: every access
/// through it yields a scope escape, never stale data.
pub proof fn lemma_scope_escape(t: HandleTable, h: Handle)
    requires
        !t.is_valid(h),
    ensures
        t.access_spec(h) == Err::<(), BindingError>(BindingError::ScopeEscape),
{
}

/// Handles of different scopes are never interchangeable: a handle issued
/// before the current generation bound can never equal one issued at or
/// after it, so no scope ever re-issues an earlier scope's handle.
pub proof fn lemma_scopes_partitioned(h1: Handle, h2: Handle)
    requires
        h1.generation < h2.generation,
    ensures
        h1 != h2,
{
}

} // verus!
