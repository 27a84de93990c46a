use crate::error::XrError;
use vstd::prelude::*;

verus! {

/// A table that binds opaque handles to the objects of one category. A handle is a number
/// other than zero. Handles are given out in increasing order and never a second time, so a
/// handle that was destroyed names nothing ever after.
pub struct HandleRegistry<T> {
    slots: Vec<Option<T>>,
}

impl<T> HandleRegistry<T> {
    /// The live objects, by handle.
    pub closed spec fn view(&self) -> Map<u64, T> {
        Map::new(
            |h: u64| 1 <= h <= self.slots@.len() && self.slots@[h as int - 1] is Some,
            |h: u64| self.slots@[h as int - 1]->0,
        )
    }

    /// How many handles the table has given out so far: the handles `1` to `issued()`.
    pub closed spec fn issued(&self) -> nat {
        self.slots@.len()
    }

    /// Whether `h` was given out once and has been destroyed since.
    pub open spec fn retired(&self, h: u64) -> bool {
        1 <= h <= self.issued() && !self@.contains_key(h)
    }

    /// Every live handle was given out: it is not zero and not above `issued()`.
    pub proof fn lemma_live_handles_were_issued(&self, h: u64)
        requires
            self@.contains_key(h),
        ensures
            1 <= h <= self.issued(),
    {
    }

    /// Zero is never a live handle.
    pub proof fn lemma_zero_is_invalid(&self)
        ensures
            !self@.contains_key(0),
    {
    }

    /// What `create` does to a table, as a relation between the table before and after.
    pub open spec fn created(before: &Self, after: &Self, handle: u64, object: T) -> bool {
        &&& handle == before.issued() + 1
        &&& after.issued() == handle
        &&& after@ == before@.insert(handle, object)
    }

    /// What a successful `destroy` does to a table, as a relation between the table before
    /// and after.
    pub open spec fn destroyed(before: &Self, after: &Self, handle: u64) -> bool {
        &&& before@.contains_key(handle)
        &&& after.issued() == before.issued()
        &&& after@ == before@.remove(handle)
    }

    /// What a change to the object of one live handle does to a table.
    pub open spec fn changed(before: &Self, after: &Self, handle: u64) -> bool {
        &&& before@.contains_key(handle)
        &&& after.issued() == before.issued()
        &&& after@ == before@.insert(handle, after@[handle])
    }

    /// A handle that was destroyed names nothing: it is retired at once.
    pub proof fn lemma_destroyed_is_invalid(before: &Self, after: &Self, handle: u64)
        requires
            Self::destroyed(before, after, handle),
        ensures
            !after@.contains_key(handle),
            after.retired(handle),
    {
        before.lemma_live_handles_were_issued(handle);
    }

    /// A retired handle stays retired whatever is done to the table next: no object that is
    /// created later gets it, and no other step brings it back.
    pub proof fn lemma_retired_forever(
        before: &Self,
        after: &Self,
        retired: u64,
        handle: u64,
        object: T,
    )
        requires
            before.retired(retired),
            Self::created(before, after, handle, object) || Self::destroyed(before, after, handle)
                || Self::changed(before, after, handle) || (after@ == before@ && after.issued()
                == before.issued()),
        ensures
            after.retired(retired),
    {
    }

    /// Destroying one handle changes nothing for any other: what was live stays live with the
    /// same object, and what was not live stays so.
    pub proof fn lemma_destroy_leaves_others(before: &Self, after: &Self, handle: u64, other: u64)
        requires
            Self::destroyed(before, after, handle),
            other != handle,
        ensures
            after@.contains_key(other) == before@.contains_key(other),
            before@.contains_key(other) ==> after@[other] == before@[other],
    {
    }

    /// Two objects that are created one after the other get two handles that are not zero
    /// and differ, and both objects are live afterwards.
    pub proof fn lemma_created_handles_differ(
        before: &Self,
        between: &Self,
        after: &Self,
        first: u64,
        second: u64,
        a: T,
        b: T,
    )
        requires
            Self::created(before, between, first, a),
            Self::created(between, after, second, b),
        ensures
            first != 0,
            second != 0,
            first != second,
            after@.contains_key(first) && after@[first] == a,
            after@.contains_key(second) && after@[second] == b,
    {
    }

    /// Creating an object changes nothing for the handles that were live, and the new handle
    /// is none of them.
    pub proof fn lemma_create_leaves_others(
        before: &Self,
        after: &Self,
        handle: u64,
        object: T,
        other: u64,
    )
        requires
            Self::created(before, after, handle, object),
            before@.contains_key(other),
        ensures
            other != handle,
            after@.contains_key(other),
            after@[other] == before@[other],
    {
        before.lemma_live_handles_were_issued(other);
    }

    /// An empty table, which has given out no handle.
    pub fn new() -> (registry: Self)
        ensures
            registry@.dom() == Set::<u64>::empty(),
            registry.issued() == 0,
    {
        HandleRegistry { slots: Vec::new() }
    }

    /// Whether the table can give out another handle.
    pub fn has_room(&self) -> (yes: bool)
        ensures
            yes == (self.issued() < u64::MAX),
    {
        (self.slots.len() as u64) < u64::MAX
    }

    /// Binds `object` to a fresh handle: the one after the last that was given out.
    pub fn create(&mut self, object: T) -> (handle: u64)
        requires
            old(self).issued() < u64::MAX,
        ensures
            handle == old(self).issued() + 1,
            final(self).issued() == handle,
            !old(self)@.contains_key(handle),
            final(self)@ == old(self)@.insert(handle, object),
    {
        self.slots.push(Some(object));
        let handle: u64 = self.slots.len() as u64;
        handle
    }

    /// Whether `handle` names a live object.
    pub fn contains(&self, handle: u64) -> (live: bool)
        ensures
            live == self@.contains_key(handle),
    {
        if handle == 0 || handle > self.slots.len() as u64 {
            return false;
        }
        let index: usize = (handle - 1) as usize;
        self.slots[index].is_some()
    }

    /// The object that `handle` names. Zero, a handle that was never given out and one that
    /// was destroyed are refused with `HandleInvalid`.
    pub fn resolve(&self, handle: u64) -> (found: Result<&T, XrError>)
        ensures
            match found {
                Ok(object) => self@.contains_key(handle) && *object == self@[handle],
                Err(e) => e == XrError::HandleInvalid && !self@.contains_key(handle),
            },
    {
        if handle == 0 || handle > self.slots.len() as u64 {
            return Err(XrError::HandleInvalid);
        }
        let index: usize = (handle - 1) as usize;
        match &self.slots[index] {
            Some(object) => Ok(object),
            None => Err(XrError::HandleInvalid),
        }
    }

    /// The object that `handle` names, for changing it in place. What the caller leaves in it
    /// is what the table holds for `handle` afterwards; nothing else in the table changes.
    /// Zero, a handle that was never given out and one that was destroyed are refused with
    /// `HandleInvalid`.
    pub fn resolve_mut(&mut self, handle: u64) -> (found: Result<&mut T, XrError>)
        ensures
            final(self).issued() == old(self).issued(),
            match found {
                Ok(object) => old(self)@.contains_key(handle) && *object == old(self)@[handle]
                    && final(self)@ == old(self)@.insert(handle, *final(object)),
                Err(e) => e == XrError::HandleInvalid && !old(self)@.contains_key(handle)
                    && final(self)@ == old(self)@,
            },
    {
        if handle == 0 || handle > self.slots.len() as u64 {
            return Err(XrError::HandleInvalid);
        }
        let index: usize = (handle - 1) as usize;
        match &mut self.slots[index] {
            Some(object) => Ok(object),
            None => Err(XrError::HandleInvalid),
        }
    }

    /// Removes the binding of `handle` and hands the object back. No other binding changes,
    /// and no handle is given out again. Zero, a handle that was never given out and one
    /// that was destroyed are refused with `HandleInvalid`, and the table stays as it was.
    pub fn destroy(&mut self, handle: u64) -> (removed: Result<T, XrError>)
        ensures
            final(self).issued() == old(self).issued(),
            match removed {
                Ok(object) => old(self)@.contains_key(handle) && object == old(self)@[handle]
                    && final(self)@ == old(self)@.remove(handle),
                Err(e) => e == XrError::HandleInvalid && !old(self)@.contains_key(handle)
                    && final(self)@ == old(self)@,
            },
    {
        if handle == 0 || handle > self.slots.len() as u64 {
            return Err(XrError::HandleInvalid);
        }
        let index: usize = (handle - 1) as usize;
        let mut taken: Option<T> = None;
        core::mem::swap(&mut self.slots[index], &mut taken);
        match taken {
            Some(object) => Ok(object),
            None => Err(XrError::HandleInvalid),
        }
    }
}

} // verus!
