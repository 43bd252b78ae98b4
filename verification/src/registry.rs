//! The type registry.
//!
//! Each concrete type admitted into erased storage is registered exactly
//! once, during program initialization, before any value of the type is
//! erased; afterwards the registry is read-only.  Registration is
//! idempotent: registering an already-known type identifier leaves the
//! registry unchanged.  The registry also issues the identity tokens that
//! closures are constructed with, so that distinct construction sites get
//! distinct tokens.

use vstd::prelude::*;

verus! {

broadcast use vstd::set::group_set_axioms, vstd::prelude::Seq::lemma_push_to_set_commute;

/// The registry: the set of registered type identifiers, and the next
/// closure identity token to hand out.
pub struct TypeRegistry {
    ids: Vec<u64>,
    next_token: u64,
}

impl TypeRegistry {
    /// The set of registered type identifiers.
    pub closed spec fn registered(&self) -> Set<u64> {
        self.ids@.to_set()
    }

    /// The next identity token to be issued.
    pub closed spec fn token_counter(&self) -> u64 {
        self.next_token
    }

    /// The registry's invariant: no type identifier is recorded twice.
    pub closed spec fn wf(&self) -> bool {
        forall|i: int, j: int|
            0 <= i < j < self.ids@.len() ==> self.ids@[i] != self.ids@[j]
    }

    /// An empty registry.
    pub fn new() -> (r: TypeRegistry)
        ensures
            r.wf(),
            r.registered() == Set::<u64>::empty(),
            r.token_counter() == 0,
    {
        let r = TypeRegistry { ids: Vec::new(), next_token: 0 };
        proof {
            assert(r.ids@.to_set() =~= Set::<u64>::empty());
        }
        r
    }

    /// Whether a type identifier has been registered.
    pub fn is_registered(&self, id: u64) -> (r: bool)
        ensures
            r == self.registered().contains(id),
    {
        let mut i: usize = 0;
        while i < self.ids.len()
            invariant
                i <= self.ids@.len(),
                forall|j: int| 0 <= j < i ==> self.ids@[j] != id,
            decreases self.ids@.len() - i,
        {
            if self.ids[i] == id {
                proof {
                    assert(self.ids@.contains(id));
                }
                return true;
            }
            i = i + 1;
        }
        proof {
            assert(!self.ids@.contains(id));
        }
        false
    }

    /// Register a type identifier.  Idempotent: the registered set ends
    /// with the identifier in it, and registering it again changes
    /// nothing.
    pub fn register(&mut self, id: u64)
        requires
            old(self).wf(),
        ensures
            final(self).wf(),
            final(self).registered() == old(self).registered().insert(id),
            final(self).token_counter() == old(self).token_counter(),
    {
        if !self.is_registered(id) {
            self.ids.push(id);
            proof {
                assert(self.ids@ == old(self).ids@.push(id));
                assert(self.ids@.to_set() =~= old(self).ids@.to_set().insert(id));
            }
        } else {
            proof {
                assert(self.ids@.to_set().contains(id));
                assert(self.ids@.to_set() =~= old(self).ids@.to_set().insert(id));
            }
        }
    }

    /// Issue a fresh closure identity token: tokens come out strictly
    /// increasing, so two construction sites never share one.
    pub fn fresh_token(&mut self) -> (t: u64)
        requires
            old(self).wf(),
            old(self).token_counter() < u64::MAX,
        ensures
            final(self).wf(),
            t == old(self).token_counter(),
            final(self).token_counter() == old(self).token_counter() + 1,
            final(self).registered() == old(self).registered(),
    {
        let t = self.next_token;
        self.next_token = self.next_token + 1;
        t
    }
}

} // verus!
