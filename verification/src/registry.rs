//! The opaque handle registry.
//!
//! Inside a native callback only the native widget handle is available, and
//! the owning wrapper object must be recovered from it.  Each toolkit offers
//! a different side channel for that (a user-data slot, an instance variable,
//! a dynamic property); this registry models them all as one explicit table
//! from the opaque native handle to the owner's key.  A wrapper attaches its
//! key when the native widget is set up and detaches it before the widget is
//! destroyed; between a detach and the next attach, recovery finds nothing
//! and every native event against that handle must be ignored.

use vstd::prelude::*;
use crate::seq_util::{lemma_remove_first_where_is_remove, remove_first_where};

verus! {

/// What looking a handle up in the table yields: the wrapper key of the
/// first entry carrying the handle, if any.
pub open spec fn reg_lookup(es: Seq<(u64, usize)>, handle: u64) -> Option<usize>
    decreases es.len(),
{
    if es.len() == 0 {
        None
    } else if es[0].0 == handle {
        Some(es[0].1)
    } else {
        reg_lookup(es.drop_first(), handle)
    }
}

/// Well-formedness of the table: no handle occurs twice.
pub open spec fn reg_wf(es: Seq<(u64, usize)>) -> bool {
    forall|i: int, j: int| 0 <= i < j < es.len() ==> es[i].0 != es[j].0
}

/// The predicate picking out the entries that carry the given handle.
pub open spec fn handle_pred(handle: u64) -> spec_fn((u64, usize)) -> bool {
    |e: (u64, usize)| e.0 == handle
}

/// The table after a detach: the entry carrying the handle is gone; a handle
/// that was never attached leaves the table as it is.
pub open spec fn detach_step(es: Seq<(u64, usize)>, handle: u64) -> Seq<(u64, usize)> {
    if exists|i: int| 0 <= i < es.len() && es[i].0 == handle {
        remove_first_where(es, handle_pred(handle))
    } else {
        es
    }
}

/// The table after an attach: any stale entry for the handle is dropped and
/// the handle now carries the given wrapper key.
pub open spec fn attach_step(es: Seq<(u64, usize)>, handle: u64, wrapper: usize) -> Seq<
    (u64, usize),
> {
    detach_step(es, handle).push((handle, wrapper))
}

/// A handle that appears in no entry looks up to nothing.
pub proof fn lemma_lookup_absent(es: Seq<(u64, usize)>, handle: u64)
    requires
        forall|j: int| 0 <= j < es.len() ==> es[j].0 != handle,
    ensures
        reg_lookup(es, handle) is None,
    decreases es.len(),
{
    if es.len() > 0 {
        lemma_lookup_absent(es.drop_first(), handle);
    }
}

/// A handle looks up to the wrapper key of its first entry.
pub proof fn lemma_lookup_found(es: Seq<(u64, usize)>, handle: u64, i: int)
    requires
        0 <= i < es.len(),
        es[i].0 == handle,
        forall|j: int| 0 <= j < i ==> es[j].0 != handle,
    ensures
        reg_lookup(es, handle) == Some(es[i].1),
    decreases i,
{
    if i > 0 {
        assert(es.drop_first()[i - 1] == es[i]);
        lemma_lookup_found(es.drop_first(), handle, i - 1);
    }
}

/// Appending an entry for one handle does not change what another handle
/// looks up to.
pub proof fn lemma_lookup_push_other(es: Seq<(u64, usize)>, entry: (u64, usize), handle: u64)
    requires
        entry.0 != handle,
    ensures
        reg_lookup(es.push(entry), handle) == reg_lookup(es, handle),
    decreases es.len(),
{
    if es.len() == 0 {
        assert(es.push(entry).drop_first() =~= es);
    } else {
        assert(es.push(entry).drop_first() =~= es.drop_first().push(entry));
        lemma_lookup_push_other(es.drop_first(), entry, handle);
    }
}

/// Removing one entry does not change what a handle not stored there looks
/// up to.
pub proof fn lemma_lookup_remove_other(es: Seq<(u64, usize)>, i: int, handle: u64)
    requires
        0 <= i < es.len(),
        es[i].0 != handle,
    ensures
        reg_lookup(es.remove(i), handle) == reg_lookup(es, handle),
    decreases i,
{
    if i == 0 {
        assert(es.remove(0) =~= es.drop_first());
    } else {
        assert(es.remove(i).drop_first() =~= es.drop_first().remove(i - 1));
        assert(es.remove(i)[0] == es[0]);
        lemma_lookup_remove_other(es.drop_first(), i - 1, handle);
    }
}

/// The registry mapping each attached native handle to the key of the
/// wrapper object that owns the widget behind the handle.
pub struct HandleRegistry {
    entries: Vec<(u64, usize)>,
}

impl View for HandleRegistry {
    type V = Seq<(u64, usize)>;

    closed spec fn view(&self) -> Seq<(u64, usize)> {
        self.entries@
    }
}

impl HandleRegistry {
    /// Well-formedness: no handle is registered twice.
    pub open spec fn wf(self) -> bool {
        reg_wf(self@)
    }

    /// An empty registry: no handle recovers anything.
    pub fn new() -> (r: HandleRegistry)
        ensures
            r.wf(),
            r@ == Seq::<(u64, usize)>::empty(),
    {
        HandleRegistry { entries: Vec::new() }
    }

    /// Finds the position of the handle's entry, if it has one.
    fn position_of(&self, handle: u64) -> (r: Option<usize>)
        ensures
            match r {
                Some(i) => i < self@.len() && self@[i as int].0 == handle && (forall|j: int|
                    0 <= j < i ==> self@[j].0 != handle),
                None => forall|j: int| 0 <= j < self@.len() ==> self@[j].0 != handle,
            },
    {
        let n = self.entries.len();
        let mut i: usize = 0;
        while i < n
            invariant
                n == self@.len(),
                i <= n,
                forall|j: int| 0 <= j < i ==> self@[j].0 != handle,
            decreases n - i,
        {
            if self.entries[i].0 == handle {
                return Some(i);
            }
            i = i + 1;
        }
        None
    }

    /// Stores the wrapper key under the native handle.  Attaching a handle
    /// that is already attached replaces its entry; no other handle's entry
    /// is touched.
    pub fn attach(&mut self, handle: u64, wrapper: usize)
        requires
            old(self).wf(),
        ensures
            final(self).wf(),
            final(self)@ == attach_step(old(self)@, handle, wrapper),
            reg_lookup(final(self)@, handle) == Some(wrapper),
            forall|h: u64| h != handle ==> reg_lookup(final(self)@, h) == reg_lookup(
                old(self)@,
                h,
            ),
    {
        self.detach(handle);
        let ghost detached = self@;
        self.entries.push((handle, wrapper));
        proof {
            lemma_lookup_absent(detached, handle);
            lemma_lookup_push_fresh(detached, handle, wrapper);
            assert forall|h: u64| h != handle implies reg_lookup(self@, h) == reg_lookup(
                old(self)@,
                h,
            ) by {
                lemma_lookup_push_other(detached, (handle, wrapper), h);
            }
        }
    }

    /// Recovers the wrapper key attached to the handle, or nothing when the
    /// handle was never attached or has been detached since.
    pub fn recover(&self, handle: u64) -> (r: Option<usize>)
        ensures
            r == reg_lookup(self@, handle),
    {
        match self.position_of(handle) {
            Some(i) => {
                proof {
                    lemma_lookup_found(self@, handle, i as int);
                }
                Some(self.entries[i].1)
            },
            None => {
                proof {
                    lemma_lookup_absent(self@, handle);
                }
                None
            },
        }
    }

    /// Clears the handle's entry, so that recovery finds nothing until the
    /// handle is attached again.  A handle without an entry is left alone.
    pub fn detach(&mut self, handle: u64)
        requires
            old(self).wf(),
        ensures
            final(self).wf(),
            final(self)@ == detach_step(old(self)@, handle),
            forall|j: int| 0 <= j < final(self)@.len() ==> final(self)@[j].0 != handle,
            reg_lookup(final(self)@, handle) is None,
            forall|h: u64| h != handle ==> reg_lookup(final(self)@, h) == reg_lookup(
                old(self)@,
                h,
            ),
    {
        match self.position_of(handle) {
            Some(i) => {
                self.entries.remove(i);
                proof {
                    assert(old(self)@[i as int].0 == handle);
                    assert(exists|k: int|
                        0 <= k < old(self)@.len() && old(self)@[k].0 == handle);
                    assert(handle_pred(handle)(old(self)@[i as int]));
                    lemma_remove_first_where_is_remove(
                        old(self)@,
                        handle_pred(handle),
                        i as int,
                    );
                    lemma_lookup_absent(self@, handle);
                    assert forall|h: u64| h != handle implies reg_lookup(self@, h) == reg_lookup(
                        old(self)@,
                        h,
                    ) by {
                        lemma_lookup_remove_other(old(self)@, i as int, h);
                    }
                }
            },
            None => {
                proof {
                    lemma_lookup_absent(self@, handle);
                }
            },
        }
    }
}

/// Appending an entry for a handle that appears nowhere makes the handle
/// look up to the new wrapper key.
pub proof fn lemma_lookup_push_fresh(es: Seq<(u64, usize)>, handle: u64, wrapper: usize)
    requires
        forall|j: int| 0 <= j < es.len() ==> es[j].0 != handle,
    ensures
        reg_lookup(es.push((handle, wrapper)), handle) == Some(wrapper),
{
    lemma_lookup_found(es.push((handle, wrapper)), handle, es.len() as int);
}

/// Registration bookkeeping for a shared native resource, such as a window
/// class that must be registered with the toolkit once per process: the
/// resource is registered when the first instance arrives and released when
/// the last one goes.
pub struct ClassRegistration {
    count: u64,
}

impl ClassRegistration {
    /// How many instances currently hold the shared resource.
    pub closed spec fn count(self) -> u64 {
        self.count
    }

    /// No instance yet; the shared resource is not registered.
    pub fn new() -> (r: ClassRegistration)
        ensures
            r.count() == 0,
    {
        ClassRegistration { count: 0 }
    }

    /// Notes one more instance; the caller must register the shared
    /// resource exactly when this reports the first instance.
    pub fn acquire(&mut self) -> (first: bool)
        requires
            old(self).count() < u64::MAX,
        ensures
            final(self).count() == old(self).count() + 1,
            first == (old(self).count() == 0),
    {
        let first = self.count == 0;
        self.count = self.count + 1;
        first
    }

    /// Notes one instance gone; the caller must release the shared
    /// resource exactly when this reports the last instance.  Every
    /// release matches an earlier acquire.
    pub fn release(&mut self) -> (last: bool)
        requires
            old(self).count() > 0,
        ensures
            final(self).count() == old(self).count() - 1,
            last == (final(self).count() == 0),
    {
        self.count = self.count - 1;
        self.count == 0
    }
}

} // verus!
