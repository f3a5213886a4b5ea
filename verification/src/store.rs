use vstd::prelude::*;
use crate::iface::{
    merged_v4, merged_v6, Iface, IfaceV, Ipv4AddrInfo, Ipv4AddrInfoV, Ipv4Info, Ipv6AddrInfo,
    Ipv6AddrInfoV, Ipv6Info,
};

verus! {

/// Well-formedness of a snapshot: within one query cycle a name identifies
/// exactly one record and an index identifies exactly one name.
pub open spec fn store_wf(s: Seq<IfaceV>) -> bool {
    forall|i: int, j: int|
        0 <= i < j < s.len() ==> s[i].name != s[j].name && s[i].index != s[j].index
}

/// Position of the first record at or after `i` whose index is `idx`, or -1.
pub open spec fn resolve_from(s: Seq<IfaceV>, idx: u32, i: int) -> int
    decreases s.len() - i,
{
    if i < 0 || i >= s.len() {
        -1
    } else if s[i].index == idx {
        i
    } else {
        resolve_from(s, idx, i + 1)
    }
}

/// Position of the first record whose index is `idx`, or -1 when no record
/// has been merged for that index yet.
pub open spec fn resolve_index(s: Seq<IfaceV>, idx: u32) -> int {
    resolve_from(s, idx, 0)
}

proof fn lemma_resolve_from_spec(s: Seq<IfaceV>, idx: u32, i: int)
    requires
        0 <= i <= s.len(),
    ensures
        resolve_from(s, idx, i) == -1 ==> forall|k: int| i <= k < s.len() ==> s[k].index != idx,
        resolve_from(s, idx, i) != -1 ==> i <= resolve_from(s, idx, i) < s.len() && s[resolve_from(
            s,
            idx,
            i,
        )].index == idx && forall|k: int| i <= k < resolve_from(s, idx, i) ==> s[k].index != idx,
    decreases s.len() - i,
{
    if i < s.len() && s[i].index != idx {
        lemma_resolve_from_spec(s, idx, i + 1);
    }
}

/// What `resolve_index` finds: -1 exactly when no record carries the index,
/// otherwise the position of the first record that does.
pub proof fn lemma_resolve_index_spec(s: Seq<IfaceV>, idx: u32)
    ensures
        resolve_index(s, idx) == -1 ==> forall|k: int| 0 <= k < s.len() ==> s[k].index != idx,
        resolve_index(s, idx) != -1 ==> 0 <= resolve_index(s, idx) < s.len() && s[resolve_index(
            s,
            idx,
        )].index == idx && forall|k: int| 0 <= k < resolve_index(s, idx) ==> s[k].index != idx,
{
    lemma_resolve_from_spec(s, idx, 0);
}

/// The interface record store: the shared target of all merges during one
/// query cycle, keyed by name. Kept as a sequence of records with unique
/// names and unique indexes (see `store_wf`).
#[derive(Debug, Clone)]
pub struct IfaceStore {
    pub(crate) entries: Vec<Iface>,
}

impl View for IfaceStore {
    type V = Seq<IfaceV>;

    closed spec fn view(&self) -> Seq<IfaceV> {
        self.entries@.map_values(|e: Iface| e@)
    }
}

impl IfaceStore {
    /// An empty snapshot, created at the start of a query cycle.
    pub fn new() -> (r: IfaceStore)
        ensures
            r@ == Seq::<IfaceV>::empty(),
            store_wf(r@),
    {
        let store = IfaceStore { entries: Vec::new() };
        proof {
            assert(store@ =~= Seq::<IfaceV>::empty());
        }
        store
    }

    /// Number of interface records merged so far.
    pub fn len(&self) -> (r: usize)
        ensures
            r == self@.len(),
    {
        self.entries.len()
    }

    /// Adds a new interface record. The record is refused (and the store left
    /// unchanged) when its name or its index is already present, so that the
    /// store's uniqueness invariant is preserved.
    pub fn insert(&mut self, iface: Iface) -> (r: bool)
        ensures
            r == !(exists|k: int|
                0 <= k < old(self)@.len() && (old(self)@[k].name == iface@.name || old(
                    self,
                )@[k].index == iface@.index)),
            r ==> final(self)@ == old(self)@.push(iface@),
            !r ==> final(self)@ == old(self)@,
            store_wf(old(self)@) ==> store_wf(final(self)@),
    {
        let n = self.entries.len();
        let mut i: usize = 0;
        while i < n
            invariant
                i <= n,
                n == self@.len(),
                self@ == old(self)@,
                forall|k: int|
                    0 <= k < i ==> self@[k].name != iface@.name && self@[k].index != iface@.index,
            decreases n - i,
        {
            let e = &self.entries[i];
            proof {
                assert(e@ == self@[i as int]);
            }
            if e.name.eq(&iface.name) || e.index == iface.index {
                return false;
            }
            i = i + 1;
        }
        self.entries.push(iface);
        proof {
            assert(self@ =~= old(self)@.push(iface@));
            if store_wf(old(self)@) {
                let s2 = self@;
                assert forall|a: int, b: int|
                    0 <= a < b < s2.len() implies s2[a].name != s2[b].name && s2[a].index
                    != s2[b].index by {
                    if b == old(self)@.len() {
                        assert(s2[a] == old(self)@[a]);
                    }
                }
            }
        }
        true
    }

    /// Looks a record up by its name, the externally visible key.
    pub fn get(&self, name: &String) -> (r: Option<&Iface>)
        ensures
            match r {
                Some(e) => e@.name == name@ && exists|k: int|
                    0 <= k < self@.len() && self@[k] == e@,
                None => forall|k: int| 0 <= k < self@.len() ==> self@[k].name != name@,
            },
    {
        let n = self.entries.len();
        let mut i: usize = 0;
        while i < n
            invariant
                i <= n,
                n == self@.len(),
                forall|k: int| 0 <= k < i ==> self@[k].name != name@,
            decreases n - i,
        {
            let e = &self.entries[i];
            proof {
                assert(e@ == self@[i as int]);
            }
            if e.name.eq(name) {
                return Some(e);
            }
            i = i + 1;
        }
        None
    }

    /// Position of the first record whose index matches, if any.
    pub(crate) fn position_of_index(&self, iface_index: u32) -> (r: Option<usize>)
        ensures
            match r {
                Some(j) => j as int == resolve_index(self@, iface_index) && (j as int)
                    < self@.len(),
                None => resolve_index(self@, iface_index) == -1,
            },
    {
        let n = self.entries.len();
        let mut i: usize = 0;
        while i < n
            invariant
                i <= n,
                n == self@.len(),
                resolve_from(self@, iface_index, 0) == resolve_from(self@, iface_index, i as int),
            decreases n - i,
        {
            let e = &self.entries[i];
            proof {
                assert(e@ == self@[i as int]);
            }
            if e.index == iface_index {
                return Some(i);
            }
            i = i + 1;
        }
        None
    }

    /// Whether the record at position `j` has an empty name.
    pub(crate) fn name_empty_at(&self, j: usize) -> (r: bool)
        requires
            j < self@.len(),
        ensures
            r == (self@[j as int].name.len() == 0),
    {
        proof {
            assert(self.entries[j as int]@ == self@[j as int]);
        }
        self.entries[j].name.as_str().is_empty()
    }

    /// Appends one IPv4 fragment to the record at position `j` by the
    /// copy-extend merge step: read that one slot, build the new record,
    /// write it back, touching nothing else.
    pub(crate) fn append_ipv4_at(&mut self, j: usize, addr: Ipv4AddrInfo)
        requires
            j < old(self)@.len(),
        ensures
            final(self)@ == old(self)@.update(j as int, merged_v4(old(self)@[j as int], addr@)),
    {
        let ghost pre = self@;
        let e = self.entries.remove(j);
        proof {
            assert(e@ == pre[j as int]);
        }
        let Iface { name, index, state, iface_type, ipv4, ipv6 } = e;
        let mut addresses = match ipv4 {
            Some(info) => info.addresses,
            None => Vec::new(),
        };
        addresses.push(addr);
        let new_iface = Iface { name, index, state, iface_type, ipv4: Some(Ipv4Info { addresses }), ipv6 };
        proof {
            assert(new_iface@.ipv4 == merged_v4(pre[j as int], addr@).ipv4) by {
                match pre[j as int].ipv4 {
                    Some(s) => {
                        assert(addresses@.map_values(|a: Ipv4AddrInfo| a@) =~= s.push(addr@));
                    },
                    None => {
                        assert(addresses@.map_values(|a: Ipv4AddrInfo| a@) =~= Seq::<
                            Ipv4AddrInfoV,
                        >::empty().push(addr@));
                    },
                }
            }
            assert(new_iface@ == merged_v4(pre[j as int], addr@));
        }
        self.entries.insert(j, new_iface);
        proof {
            assert(self.entries@ =~= old(self).entries@.update(j as int, new_iface));
            assert(self@ =~= pre.update(j as int, merged_v4(pre[j as int], addr@)));
        }
    }

    /// Appends one IPv6 fragment to the record at position `j` by the same
    /// copy-extend merge step.
    pub(crate) fn append_ipv6_at(&mut self, j: usize, addr: Ipv6AddrInfo)
        requires
            j < old(self)@.len(),
        ensures
            final(self)@ == old(self)@.update(j as int, merged_v6(old(self)@[j as int], addr@)),
    {
        let ghost pre = self@;
        let e = self.entries.remove(j);
        proof {
            assert(e@ == pre[j as int]);
        }
        let Iface { name, index, state, iface_type, ipv4, ipv6 } = e;
        let mut addresses = match ipv6 {
            Some(info) => info.addresses,
            None => Vec::new(),
        };
        addresses.push(addr);
        let new_iface = Iface { name, index, state, iface_type, ipv4, ipv6: Some(Ipv6Info { addresses }) };
        proof {
            assert(new_iface@.ipv6 == merged_v6(pre[j as int], addr@).ipv6) by {
                match pre[j as int].ipv6 {
                    Some(s) => {
                        assert(addresses@.map_values(|a: Ipv6AddrInfo| a@) =~= s.push(addr@));
                    },
                    None => {
                        assert(addresses@.map_values(|a: Ipv6AddrInfo| a@) =~= Seq::<
                            Ipv6AddrInfoV,
                        >::empty().push(addr@));
                    },
                }
            }
            assert(new_iface@ == merged_v6(pre[j as int], addr@));
        }
        self.entries.insert(j, new_iface);
        proof {
            assert(self.entries@ =~= old(self).entries@.update(j as int, new_iface));
            assert(self@ =~= pre.update(j as int, merged_v6(pre[j as int], addr@)));
        }
    }
}

/// Index resolver: the display name of the interface whose stored index is
/// `iface_index`, or the empty string when no merged record has that index
/// yet (an address message that arrives before its owning link message
/// therefore resolves to nothing and its fragment is dropped).
pub fn get_iface_name_by_index(iface_states: &IfaceStore, iface_index: u32) -> (r: String)
    ensures
        resolve_index(iface_states@, iface_index) == -1 ==> r@ == Seq::<char>::empty(),
        resolve_index(iface_states@, iface_index) != -1 ==> r@ == iface_states@[resolve_index(
            iface_states@,
            iface_index,
        )].name,
{
    let n = iface_states.entries.len();
    let mut i: usize = 0;
    while i < n
        invariant
            i <= n,
            n == iface_states@.len(),
            resolve_from(iface_states@, iface_index, 0) == resolve_from(
                iface_states@,
                iface_index,
                i as int,
            ),
        decreases n - i,
    {
        let e = &iface_states.entries[i];
        proof {
            assert(e@ == iface_states@[i as int]);
        }
        if e.index == iface_index {
            return e.name.clone();
        }
        i = i + 1;
    }
    String::new()
}

} // verus!
