//! The watch registry: the association from an opaque watch handle, assigned
//! by the notification facility when a watch is created, to the path it
//! watches.
//!
//! The registry has exactly one writer (the enumerator, during setup) and one
//! reader (the event loop, during decoding); resolving a handle is total and
//! never fails — a handle absent from the registry resolves to the empty
//! string, so a stale or foreign handle cannot stop the loop.

use vstd::prelude::*;
use std::collections::HashMap;

verus! {

broadcast use vstd::std_specs::hash::group_hash_axioms;

pub struct WatchRegistry {
    entries: HashMap<u64, String>,
}

impl WatchRegistry {
    /// The registry as a map from handle to watched path.
    pub closed spec fn view(&self) -> Map<u64, Seq<char>> {
        Map::new(
            |h: u64| self.entries@.contains_key(h),
            |h: u64| self.entries@[h]@,
        )
    }

    pub fn new() -> (r: WatchRegistry)
        ensures
            r@ == Map::<u64, Seq<char>>::empty(),
    {
        let r = WatchRegistry { entries: HashMap::new() };
        proof {
            assert(r@ =~= Map::<u64, Seq<char>>::empty());
        }
        r
    }

    /// Insert the entry for a freshly created watch.
    pub fn register(&mut self, handle: u64, path: String)
        ensures
            final(self)@ == old(self)@.insert(handle, path@),
    {
        self.entries.insert(handle, path);
        proof {
            assert(self@ =~= old(self)@.insert(handle, path@));
        }
    }

    /// Resolve a handle to its watched path; total, returning the empty
    /// string for a handle that no registration produced.
    pub fn resolve(&self, handle: u64) -> (r: String)
        ensures
            r@ == resolve_spec(self@, handle),
    {
        match self.entries.get(&handle) {
            Some(p) => p.clone(),
            None => String::new(),
        }
    }

    pub fn len(&self) -> (r: usize)
        ensures
            r == self@.dom().len(),
    {
        proof {
            assert(self@.dom() =~= self.entries@.dom());
        }
        self.entries.len()
    }

    pub fn contains(&self, handle: u64) -> (r: bool)
        ensures
            r == self@.contains_key(handle),
    {
        self.entries.contains_key(&handle)
    }
}

/// What decoding sees for a handle: the registered path, or the empty string
/// when the handle is unknown.
pub open spec fn resolve_spec(reg: Map<u64, Seq<char>>, handle: u64) -> Seq<char> {
    if reg.contains_key(handle) {
        reg[handle]
    } else {
        Seq::empty()
    }
}

} // verus!
