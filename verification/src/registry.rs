//! The process registry: the in-memory mapping from service name to the
//! process id this system itself spawned.
//!
//! At most one tracked pid per service is held at any time. The registry is
//! process-wide state only; nothing is persisted, because pids are not
//! durable identifiers across restarts.

use vstd::prelude::*;
use crate::text::str_eq;

verus! {

/// Looks `name` up in an association sequence; the first match wins.
pub open spec fn lookup(entries: Seq<(Seq<char>, u32)>, name: Seq<char>) -> Option<u32>
    decreases entries.len(),
{
    if entries.len() == 0 {
        None
    } else if entries.first().0 == name {
        Some(entries.first().1)
    } else {
        lookup(entries.drop_first(), name)
    }
}

/// Pairwise distinct keys.
spec fn unique_keys(entries: Seq<(Seq<char>, u32)>) -> bool {
    forall|i: int, j: int| 0 <= i < j < entries.len() ==> entries[i].0 != entries[j].0
}

proof fn lemma_lookup_skip(entries: Seq<(Seq<char>, u32)>, name: Seq<char>, i: int)
    requires
        0 <= i < entries.len(),
        entries[i].0 != name,
    ensures
        lookup(entries.skip(i), name) == lookup(entries.skip(i + 1), name),
{
    assert(entries.skip(i).first() == entries[i]);
    assert(entries.skip(i).drop_first() =~= entries.skip(i + 1));
}

proof fn lemma_lookup_found(entries: Seq<(Seq<char>, u32)>, name: Seq<char>, i: int)
    requires
        0 <= i < entries.len(),
        entries[i].0 == name,
    ensures
        lookup(entries.skip(i), name) == Some(entries[i].1),
{
    assert(entries.skip(i).first() == entries[i]);
}

proof fn lemma_lookup_prefix_none(entries: Seq<(Seq<char>, u32)>, name: Seq<char>, i: int)
    requires
        0 <= i <= entries.len(),
        forall|j: int| 0 <= j < i ==> entries[j].0 != name,
    ensures
        lookup(entries, name) == lookup(entries.skip(i), name),
    decreases i,
{
    if i > 0 {
        lemma_lookup_prefix_none(entries, name, i - 1);
        lemma_lookup_skip(entries, name, i - 1);
    } else {
        assert(entries.skip(0) =~= entries);
    }
}

proof fn lemma_lookup_push(entries: Seq<(Seq<char>, u32)>, name: Seq<char>, e: (Seq<char>, u32))
    ensures
        lookup(entries.push(e), name) == if lookup(entries, name) is Some {
            lookup(entries, name)
        } else if e.0 == name {
            Some(e.1)
        } else {
            None
        },
    decreases entries.len(),
{
    if entries.len() == 0 {
        assert(entries.push(e).first() == e);
        assert(entries.push(e).drop_first() =~= Seq::<(Seq<char>, u32)>::empty());
    } else {
        assert(entries.push(e).first() == entries.first());
        assert(entries.push(e).drop_first() =~= entries.drop_first().push(e));
        lemma_lookup_push(entries.drop_first(), name, e);
    }
}

proof fn lemma_lookup_remove(entries: Seq<(Seq<char>, u32)>, name: Seq<char>, i: int, k: Seq<char>)
    requires
        unique_keys(entries),
        0 <= i < entries.len(),
        entries[i].0 == name,
        k != name,
    ensures
        lookup(entries.remove(i), k) == lookup(entries, k),
    decreases i,
{
    if i == 0 {
        assert(entries.remove(0) =~= entries.drop_first());
    } else {
        assert(entries.remove(i).first() == entries.first());
        assert(entries.remove(i).drop_first() =~= entries.drop_first().remove(i - 1));
        lemma_lookup_remove(entries.drop_first(), name, i - 1, k);
    }
}

proof fn lemma_lookup_remove_gone(entries: Seq<(Seq<char>, u32)>, name: Seq<char>, i: int)
    requires
        unique_keys(entries),
        0 <= i < entries.len(),
        entries[i].0 == name,
    ensures
        lookup(entries.remove(i), name) == None::<u32>,
    decreases entries.len(),
{
    if i == 0 {
        assert(entries.remove(0) =~= entries.drop_first());
        lemma_lookup_absent(entries.drop_first(), name);
    } else {
        assert(entries.remove(i).first() == entries.first());
        assert(entries.remove(i).drop_first() =~= entries.drop_first().remove(i - 1));
        lemma_lookup_remove_gone(entries.drop_first(), name, i - 1);
    }
}

proof fn lemma_lookup_absent(entries: Seq<(Seq<char>, u32)>, name: Seq<char>)
    requires
        forall|j: int| 0 <= j < entries.len() ==> entries[j].0 != name,
    ensures
        lookup(entries, name) == None::<u32>,
    decreases entries.len(),
{
    if entries.len() > 0 {
        lemma_lookup_absent(entries.drop_first(), name);
    }
}

/// Shared application state: the pids of the services this process spawned.
pub struct AppState {
    pids: Vec<(String, u32)>,
}

impl AppState {
    /// The tracked (service name, pid) pairs, in insertion order.
    pub closed spec fn entries(self) -> Seq<(Seq<char>, u32)> {
        self.pids@.map_values(|p: (String, u32)| (p.0@, p.1))
    }

    /// The pid tracked for `name`, if any.
    pub open spec fn spec_get(self, name: Seq<char>) -> Option<u32> {
        lookup(self.entries(), name)
    }

    /// Whether some pid is tracked for `name`.
    pub open spec fn tracks(self, name: Seq<char>) -> bool {
        self.spec_get(name) is Some
    }

    /// At most one entry per service name.
    pub closed spec fn wf(self) -> bool {
        unique_keys(self.entries())
    }

    /// An empty registry.
    pub fn new() -> (r: Self)
        ensures
            r.wf(),
            r.entries() == Seq::<(Seq<char>, u32)>::empty(),
            forall|k: Seq<char>| #[trigger] r.spec_get(k) is None,
    {
        let r = AppState { pids: Vec::new() };
        assert(r.entries() =~= Seq::<(Seq<char>, u32)>::empty());
        r
    }

    /// The index of the entry for `service`, if one exists.
    fn index_of(&self, service: &str) -> (r: Option<usize>)
        ensures
            match r {
                Some(i) => i < self.entries().len() && self.entries()[i as int].0 == service@
                    && self.spec_get(service@) == Some(self.entries()[i as int].1) && forall|j: int|
                    0 <= j < i ==> self.entries()[j].0 != service@,
                None => self.spec_get(service@) is None,
            },
    {
        let mut i: usize = 0;
        while i < self.pids.len()
            invariant
                i <= self.entries().len(),
                self.entries().len() == self.pids@.len(),
                forall|j: int| 0 <= j < i ==> self.entries()[j].0 != service@,
            decreases self.pids@.len() - i,
        {
            if str_eq(self.pids[i].0.as_str(), service) {
                proof {
                    lemma_lookup_prefix_none(self.entries(), service@, i as int);
                    lemma_lookup_found(self.entries(), service@, i as int);
                }
                return Some(i);
            }
            i += 1;
        }
        proof {
            lemma_lookup_absent(self.entries(), service@);
        }
        None
    }

    /// Records `pid` as the tracked process for `service`, replacing any
    /// earlier entry for the same service.
    pub fn register_pid(&mut self, service: String, pid: u32)
        requires
            old(self).wf(),
        ensures
            final(self).wf(),
            final(self).spec_get(service@) == Some(pid),
            forall|k: Seq<char>| k != service@ ==> #[trigger] final(self).spec_get(k) == old(
                self,
            ).spec_get(k),
    {
        proof {
            let _ = self.entries();
        }
        let ghost pre = self.entries();
        match self.index_of(service.as_str()) {
            Some(i) => {
                self.pids.remove(i);
                proof {
                    assert(self.entries() =~= pre.remove(i as int));
                    lemma_lookup_remove_gone(pre, service@, i as int);
                    assert forall|k: Seq<char>| k != service@ implies #[trigger] lookup(
                        self.entries(),
                        k,
                    ) == lookup(pre, k) by {
                        lemma_lookup_remove(pre, service@, i as int, k);
                    }
                }
            },
            None => {},
        }
        let ghost mid = self.entries();
        proof {
            assert(unique_keys(mid));
            assert(lookup(mid, service@) is None);
        }
        self.pids.push((service, pid));
        proof {
            assert(self.entries() =~= mid.push((service@, pid)));
            lemma_lookup_push(mid, service@, (service@, pid));
            assert forall|k: Seq<char>| k != service@ implies #[trigger] lookup(self.entries(), k)
                == lookup(mid, k) by {
                lemma_lookup_push(mid, k, (service@, pid));
            }
            assert forall|i: int, j: int|
                0 <= i < j < self.entries().len() implies self.entries()[i].0
                != self.entries()[j].0 by {
                if j == self.entries().len() - 1 {
                    if self.entries()[i].0 == service@ {
                        lemma_lookup_prefix_absent(mid, service@, i);
                    }
                }
            }
        }
    }

    /// The pid tracked for `service`, if any.
    pub fn get_pid(&self, service: &str) -> (r: Option<u32>)
        ensures
            r == self.spec_get(service@),
    {
        match self.index_of(service) {
            Some(i) => Some(self.pids[i].1),
            None => None,
        }
    }

    /// Drops the entry for `service`, returning the pid it held.
    pub fn remove_pid(&mut self, service: &str) -> (r: Option<u32>)
        requires
            old(self).wf(),
        ensures
            final(self).wf(),
            r == old(self).spec_get(service@),
            final(self).spec_get(service@) is None,
            forall|k: Seq<char>| k != service@ ==> #[trigger] final(self).spec_get(k) == old(
                self,
            ).spec_get(k),
    {
        let ghost pre = self.entries();
        match self.index_of(service) {
            Some(i) => {
                let (_, pid) = self.pids.remove(i);
                proof {
                    assert(self.entries() =~= pre.remove(i as int));
                    lemma_lookup_remove_gone(pre, service@, i as int);
                    assert forall|k: Seq<char>| k != service@ implies #[trigger] lookup(
                        self.entries(),
                        k,
                    ) == lookup(pre, k) by {
                        lemma_lookup_remove(pre, service@, i as int, k);
                    }
                }
                Some(pid)
            },
            None => None,
        }
    }

    /// A snapshot copy of all tracked (service, pid) pairs.
    pub fn get_all_pids(&self) -> (r: Vec<(String, u32)>)
        ensures
            r@.len() == self.entries().len(),
            forall|j: int|
                0 <= j < r@.len() ==> (#[trigger] r@[j]).0@ == self.entries()[j].0 && r@[j].1
                    == self.entries()[j].1,
    {
        let mut r: Vec<(String, u32)> = Vec::new();
        let mut i: usize = 0;
        while i < self.pids.len()
            invariant
                i <= self.pids@.len(),
                self.entries().len() == self.pids@.len(),
                r@.len() == i,
                forall|j: int|
                    0 <= j < i ==> (#[trigger] r@[j]).0@ == self.entries()[j].0 && r@[j].1
                        == self.entries()[j].1,
            decreases self.pids@.len() - i,
        {
            let name = self.pids[i].0.clone();
            let pid = self.pids[i].1;
            r.push((name, pid));
            i += 1;
        }
        r
    }
}

proof fn lemma_lookup_prefix_absent(entries: Seq<(Seq<char>, u32)>, name: Seq<char>, i: int)
    requires
        lookup(entries, name) is None,
        0 <= i < entries.len(),
    ensures
        entries[i].0 != name,
    decreases i,
{
    if i > 0 {
        lemma_lookup_prefix_absent(entries.drop_first(), name, i - 1);
    }
}

} // verus!
