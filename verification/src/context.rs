//! Owning handles for native format contexts, and the allocation
//! registry that accounts for every live native allocation.
//!
//! A handle stands for exclusive ownership of one native context: it
//! is created only at the end of a successful open sequence, and its
//! teardown releases that one allocation exactly once (`close` takes
//! the handle by value, so it cannot run twice). The registry is the
//! leak detector: every allocation registers a fresh identifier, every
//! teardown removes it, and the multiset of live identifiers says
//! precisely what is still allocated.

use vstd::prelude::*;
use vstd::multiset::Multiset;

verus! {

/// Accounts for the native contexts currently allocated, each under a
/// fresh identifier.
pub struct ContextRegistry {
    live: Vec<u64>,
    next_id: u64,
}

impl ContextRegistry {
    /// The identifiers of the contexts that are still allocated.
    pub closed spec fn live_ids(self) -> Multiset<u64> {
        self.live@.to_multiset()
    }

    /// How many identifiers have been handed out so far; the next
    /// allocation gets exactly this identifier.
    pub closed spec fn issued(self) -> u64 {
        self.next_id
    }

    /// Identifiers are handed out in increasing order, so every live
    /// identifier lies below the count of issued ones.
    pub closed spec fn wf(self) -> bool {
        forall|i: int| 0 <= i < self.live@.len() ==> self.live@[i] < self.next_id
    }

    /// A registry with nothing allocated.
    pub fn new() -> (r: Self)
        ensures
            r.wf(),
            r.issued() == 0,
            r.live_ids() == Multiset::<u64>::empty(),
    {
        let r = ContextRegistry { live: Vec::new(), next_id: 0 };
        proof {
            broadcast use vstd::seq_lib::group_to_multiset_ensures;

            vstd::multiset::lemma_multiset_empty_len(r.live@.to_multiset());
        }
        r
    }

    /// How many identifiers have been handed out so far; lets a caller
    /// test the headroom that `allocate` asks for.
    pub fn issued_count(&self) -> (n: u64)
        ensures
            n == self.issued(),
    {
        self.next_id
    }

    /// How many contexts are currently allocated.
    pub fn live_count(&self) -> (n: usize)
        ensures
            n == self.live_ids().len(),
    {
        proof {
            broadcast use vstd::seq_lib::group_to_multiset_ensures;

        }
        self.live.len()
    }

    /// Whether the context with identifier `id` is still allocated.
    pub fn is_live(&self, id: u64) -> (r: bool)
        ensures
            r == (self.live_ids().count(id) > 0),
    {
        let n = self.live.len();
        let mut i: usize = 0;
        while i < n
            invariant
                n == self.live@.len(),
                0 <= i <= n,
                forall|j: int| 0 <= j < i ==> self.live@[j] != id,
            decreases n - i,
        {
            if self.live[i] == id {
                proof {
                    broadcast use vstd::seq_lib::group_to_multiset_ensures;

                    assert(self.live@.contains(id));
                    assert(self.live@.to_multiset().count(id) > 0);
                }
                return true;
            }
            i += 1;
        }
        proof {
            broadcast use vstd::seq_lib::group_to_multiset_ensures;

            assert(!self.live@.contains(id));
            assert(self.live@.to_multiset().count(id) == 0);
        }
        false
    }

    /// Record one new allocation and hand out its fresh identifier:
    /// one that no live context carries.
    pub fn allocate(&mut self) -> (id: u64)
        requires
            old(self).wf(),
            old(self).issued() < u64::MAX,
        ensures
            final(self).wf(),
            final(self).issued() == old(self).issued() + 1,
            id == old(self).issued(),
            old(self).live_ids().count(id) == 0,
            final(self).live_ids() == old(self).live_ids().insert(id),
            final(self).live_ids().count(id) > 0,
    {
        proof {
            broadcast use vstd::seq_lib::group_to_multiset_ensures;
            broadcast use vstd::multiset::group_multiset_axioms;

            assert(!old(self).live@.contains(self.next_id));
        }
        let id = self.next_id;
        self.live.push(id);
        self.next_id = self.next_id + 1;
        proof {
            broadcast use vstd::seq_lib::group_to_multiset_ensures;
            broadcast use vstd::multiset::group_multiset_axioms;

            assert(self.live@ == old(self).live@.push(id));
            assert(self.live_ids() =~= old(self).live_ids().insert(id));
        }
        id
    }

    /// Record the teardown of the context with identifier `id`: it
    /// alone leaves the live multiset, everything else stays.
    pub fn release(&mut self, id: u64)
        requires
            old(self).wf(),
            old(self).live_ids().count(id) > 0,
        ensures
            final(self).wf(),
            final(self).issued() == old(self).issued(),
            final(self).live_ids() == old(self).live_ids().remove(id),
    {
        proof {
            broadcast use vstd::seq_lib::group_to_multiset_ensures;

            assert(old(self).live@.contains(id));
        }
        let n = self.live.len();
        let mut i: usize = 0;
        while i < n
            invariant
                *self == *old(self),
                old(self).wf(),
                n == self.live@.len(),
                0 <= i <= n,
                self.live@.contains(id),
                forall|j: int| 0 <= j < i ==> self.live@[j] != id,
            decreases n - i,
        {
            if self.live[i] == id {
                self.live.remove(i);
                proof {
                    broadcast use vstd::seq_lib::group_to_multiset_ensures;

                    old(self).live@.remove_ensures(i as int);
                    assert(self.live_ids() =~= old(self).live_ids().remove(id));
                    assert forall|k: int| 0 <= k < self.live@.len() implies self.live@[k]
                        < self.next_id by {
                        if k < i {
                            assert(self.live@[k] == old(self).live@[k]);
                        } else {
                            assert(self.live@[k] == old(self).live@[k + 1]);
                        }
                    }
                }
                return;
            }
            i += 1;
        }
        proof {
            assert(false);
        }
    }
}

/// Exclusive ownership of one open native input (demuxer) context.
#[derive(Debug)]
pub struct Input {
    id: u64,
}

/// Exclusive ownership of one open native output (muxer) context.
#[derive(Debug)]
pub struct Output {
    id: u64,
}

/// An open context of either direction; the two are never convertible
/// into one another.
#[derive(Debug)]
pub enum Context {
    Input(Input),
    Output(Output),
}

impl Input {
    /// The registry identifier of the context this handle owns.
    pub closed spec fn spec_id(self) -> u64 {
        self.id
    }

    /// The registry identifier of the context this handle owns.
    pub fn id(&self) -> (r: u64)
        ensures
            r == self.spec_id(),
    {
        self.id
    }

    pub(crate) fn wrap(id: u64) -> (h: Self)
        ensures
            h.spec_id() == id,
    {
        Input { id }
    }

    /// Tear the context down. Consumes the handle, so the matching
    /// native release runs exactly once; only this handle's own
    /// allocation leaves the registry.
    pub fn close(self, registry: &mut ContextRegistry)
        requires
            old(registry).wf(),
            old(registry).live_ids().count(self.spec_id()) > 0,
        ensures
            final(registry).wf(),
            final(registry).live_ids() == old(registry).live_ids().remove(self.spec_id()),
    {
        registry.release(self.id);
    }
}

impl Output {
    /// The registry identifier of the context this handle owns.
    pub closed spec fn spec_id(self) -> u64 {
        self.id
    }

    /// The registry identifier of the context this handle owns.
    pub fn id(&self) -> (r: u64)
        ensures
            r == self.spec_id(),
    {
        self.id
    }

    pub(crate) fn wrap(id: u64) -> (h: Self)
        ensures
            h.spec_id() == id,
    {
        Output { id }
    }

    /// Tear the context down. Consumes the handle, so the matching
    /// native release runs exactly once; only this handle's own
    /// allocation leaves the registry.
    pub fn close(self, registry: &mut ContextRegistry)
        requires
            old(registry).wf(),
            old(registry).live_ids().count(self.spec_id()) > 0,
        ensures
            final(registry).wf(),
            final(registry).live_ids() == old(registry).live_ids().remove(self.spec_id()),
    {
        registry.release(self.id);
    }
}

impl Context {
    /// The registry identifier of the context this handle owns.
    pub open spec fn spec_id(self) -> u64 {
        match self {
            Context::Input(h) => h.spec_id(),
            Context::Output(h) => h.spec_id(),
        }
    }

    /// The registry identifier of the context this handle owns.
    pub fn id(&self) -> (r: u64)
        ensures
            r == self.spec_id(),
    {
        match self {
            Context::Input(h) => h.id(),
            Context::Output(h) => h.id(),
        }
    }

    /// Tear down whichever context this is, exactly once.
    pub fn close(self, registry: &mut ContextRegistry)
        requires
            old(registry).wf(),
            old(registry).live_ids().count(self.spec_id()) > 0,
        ensures
            final(registry).wf(),
            final(registry).live_ids() == old(registry).live_ids().remove(self.spec_id()),
    {
        match self {
            Context::Input(h) => h.close(registry),
            Context::Output(h) => h.close(registry),
        }
    }
}

/// Independent teardown: two live contexts can be torn down in either
/// order, and the set of surviving allocations is the same — neither
/// teardown touches the other's allocation.
pub proof fn lemma_teardown_order_independent(live: Multiset<u64>, a: u64, b: u64)
    ensures
        live.remove(a).remove(b) == live.remove(b).remove(a),
{
    broadcast use vstd::multiset::group_multiset_axioms;

    assert(live.remove(a).remove(b) =~= live.remove(b).remove(a));
}

} // verus!
