use vstd::prelude::*;

use std::collections::HashMap;

verus! {

broadcast use vstd::std_specs::hash::group_hash_axioms;

/// The ARP cache: IPv4 address (host order) to MAC address, learned from
/// received packets.
pub struct ArpTable {
    pub entries: HashMap<u32, [u8; 6]>,
}

impl ArpTable {
    /// A hash map keyed by an integer needs nothing more.
    pub open spec fn wf(&self) -> bool {
        true
    }

    /// The MAC address cached for `ip`.
    pub open spec fn spec_get(&self, ip: u32) -> Option<[u8; 6]> {
        if self.entries@.contains_key(ip) {
            Some(self.entries@[ip])
        } else {
            None
        }
    }

    /// An empty cache.
    pub fn new() -> (r: Self)
        ensures
            r.wf(),
            forall|ip: u32| r.spec_get(ip) is None,
    {
        ArpTable { entries: HashMap::new() }
    }

    /// The MAC address cached for `ip`.
    pub fn get(&self, ip: u32) -> (r: Option<[u8; 6]>)
        requires
            self.wf(),
        ensures
            r == self.spec_get(ip),
    {
        match self.entries.get(&ip) {
            Some(m) => Some(*m),
            None => None,
        }
    }

    /// Caches `mac` for `ip`, replacing what was cached for it.
    pub fn insert(&mut self, ip: u32, mac: [u8; 6])
        requires
            old(self).wf(),
        ensures
            final(self).wf(),
            forall|k: u32| #[trigger]
                final(self).spec_get(k) == if k == ip {
                    Some(mac)
                } else {
                    old(self).spec_get(k)
                },
    {
        self.entries.insert(ip, mac);
    }
}

} // verus!
