//! The port allocator: host ports for containers exposing a dev server,
//! drawn monotonically from a reserved range and looked up by sandbox id.
//! Ports of live allocations are pairwise distinct.

use vstd::prelude::*;
use crate::registry::{
    lemma_map_of_index, lemma_map_of_key_consistent, Keyed, Registry,
};
use crate::text;

verus! {

/// One allocation: a sandbox id bound to a host port.
pub struct PortEntry {
    pub sandbox_id: String,
    pub port: u16,
}

impl Keyed for PortEntry {
    open spec fn key(&self) -> Seq<char> {
        self.sandbox_id@
    }

    fn key_matches(&self, k: &str) -> (b: bool) {
        text::str_eq(self.sandbox_id.as_str(), k)
    }
}

pub struct PortAllocator {
    next_port: u16,
    entries: Registry<PortEntry>,
}

impl PortAllocator {
    /// The live allocations, by sandbox id.
    pub closed spec fn allocations(&self) -> Map<Seq<char>, PortEntry> {
        self.entries.to_map()
    }

    /// The cursor: every live port lies below it.
    pub closed spec fn spec_next_port(&self) -> u16 {
        self.next_port
    }

    /// The port bound to a sandbox, if any.
    pub open spec fn spec_port_of(&self, id: Seq<char>) -> Option<u16> {
        if self.allocations().dom().contains(id) {
            Some(self.allocations()[id].port)
        } else {
            None
        }
    }

    /// Ids are unique, every port lies below the cursor, and ports are
    /// pairwise distinct across live allocations.
    pub closed spec fn wf(&self) -> bool {
        &&& self.entries.wf()
        &&& forall|k: Seq<char>|
            #[trigger] self.allocations().dom().contains(k) ==> self.allocations()[k].port
                < self.next_port
        &&& forall|k1: Seq<char>, k2: Seq<char>|
            self.allocations().dom().contains(k1) && self.allocations().dom().contains(k2)
                && k1 != k2 ==> #[trigger] self.allocations()[k1].port
                != #[trigger] self.allocations()[k2].port
    }

    /// An empty allocator whose cursor starts at `start_port`.
    pub fn new(start_port: u16) -> (r: Self)
        ensures
            r.wf(),
            r.allocations() =~= Map::<Seq<char>, PortEntry>::empty(),
            r.spec_next_port() == start_port,
    {
        PortAllocator { next_port: start_port, entries: Registry::new() }
    }

    /// Looks a sandbox's port up.
    pub fn get_port(&self, sandbox_id: &str) -> (r: Option<u16>)
        requires
            self.wf(),
        ensures
            r == self.spec_port_of(sandbox_id@),
    {
        match self.entries.get(sandbox_id) {
            Some(e) => Some(e.port),
            None => None,
        }
    }

    /// The cursor's current value.
    pub fn next_port_value(&self) -> (p: u16)
        ensures
            p == self.spec_next_port(),
    {
        self.next_port
    }

    /// Binds a port to `sandbox_id`: the existing one if the id is already
    /// bound, else the cursor port. `None` only with the range exhausted.
    pub fn allocate(&mut self, sandbox_id: String) -> (r: Option<u16>)
        requires
            old(self).wf(),
        ensures
            final(self).wf(),
            match r {
                Some(p) => if old(self).allocations().dom().contains(sandbox_id@) {
                    *final(self) == *old(self) && Some(p) == old(self).spec_port_of(
                        sandbox_id@,
                    )
                } else {
                    p == old(self).spec_next_port() && old(self).spec_next_port() < u16::MAX
                        && final(self).spec_next_port() == old(self).spec_next_port() + 1
                        && final(self).allocations().dom() =~= old(
                        self,
                    ).allocations().dom().insert(sandbox_id@) && final(self).spec_port_of(
                        sandbox_id@,
                    ) == Some(p) && (forall|k: Seq<char>|
                        #[trigger] old(self).allocations().dom().contains(k) && k
                            != sandbox_id@ ==> final(self).allocations()[k] == old(
                            self,
                        ).allocations()[k])
                },
                None => !old(self).allocations().dom().contains(sandbox_id@) && old(
                    self,
                ).spec_next_port() == u16::MAX && *final(self) == *old(self),
            },
    {
        match self.entries.index_of_key(sandbox_id.as_str()) {
            Some(i) => {
                proof {
                    lemma_map_of_index(self.entries.elems(), i as int);
                    lemma_map_of_key_consistent(self.entries.elems(), sandbox_id@);
                }
                Some(self.entries.at(i).port)
            },
            None => {
                if self.next_port == u16::MAX {
                    return None;
                }
                let p = self.next_port;
                self.next_port = p + 1;
                self.entries.insert_fresh(PortEntry { sandbox_id, port: p });
                Some(p)
            },
        }
    }

    /// Releases the binding of `sandbox_id`, if any.
    pub fn deallocate(&mut self, sandbox_id: &str)
        requires
            old(self).wf(),
        ensures
            final(self).wf(),
            final(self).allocations() =~= old(self).allocations().remove(sandbox_id@),
            final(self).spec_port_of(sandbox_id@) is None,
            final(self).spec_next_port() == old(self).spec_next_port(),
            forall|k: Seq<char>|
                k != sandbox_id@ ==> final(self).spec_port_of(k) == old(self).spec_port_of(
                    k,
                ),
    {
        let _ = self.entries.remove_key(sandbox_id);
    }

    /// Two live sandboxes never share a dev-server port.
    pub proof fn lemma_ports_unique(&self, a: Seq<char>, b: Seq<char>)
        requires
            self.wf(),
            self.allocations().dom().contains(a),
            self.allocations().dom().contains(b),
            a != b,
        ensures
            self.spec_port_of(a) != self.spec_port_of(b),
    {
    }
}

} // verus!
