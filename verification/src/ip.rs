use vstd::prelude::*;
use crate::cache_info::{left_time_to_string, lifetime_str, parse_cache_info};
use crate::error::{ErrorKind, NisporError};
use crate::iface::{ipv4_seq_of, ipv6_seq_of, merged_v4, merged_v6, IfaceV, Ipv4AddrInfo, Ipv4AddrInfoV, Ipv6AddrInfo, Ipv6AddrInfoV};
use crate::ip_str::{ipv4_bytes_to_string, ipv4_str, ipv6_bytes_to_string, ipv6_str};
use crate::msg::{AddressFamily, AddressMessage, AddressMessageV, AddressNla, AddressNlaV};
use crate::reader::u32_le_at;
use crate::store::{resolve_from, resolve_index, store_wf, IfaceStore};

verus! {

/// How one address message affected the store. `UnknownFamilySkipped` is the
/// one outcome for which the caller owes exactly one warning diagnostic; the
/// other non-merging outcomes are silent by design.
#[derive(Debug, Clone, Copy, PartialEq, Eq, Structural)]
pub enum FillOutcome {
    /// The decoded fragment was appended to its interface's record.
    Merged,
    /// No interface merged so far carries the message's index (the owning
    /// link message has not arrived), so the fragment was dropped silently.
    AddressDropped,
    /// The family tag is neither IPv4 nor IPv6; the message was skipped.
    UnknownFamilySkipped,
}

/// Well-formedness of one attribute of an IPv4 address message: every
/// interpreted payload has its fixed wire width.
pub open spec fn nla_v4_wf(n: AddressNlaV) -> bool {
    match n {
        AddressNlaV::Local(b) => b.len() == 4,
        AddressNlaV::Address(b) => b.len() == 4,
        AddressNlaV::CacheInfo(b) => b.len() == 16,
        AddressNlaV::Other => true,
    }
}

/// Well-formedness of a whole IPv4 address message.
pub open spec fn msg_v4_wf(m: AddressMessageV) -> bool {
    forall|k: int| 0 <= k < m.nlas.len() ==> nla_v4_wf(m.nlas[k])
}

/// Well-formedness of one attribute of an IPv6 address message. A `Local`
/// attribute is not interpreted for this family, so its width is free.
pub open spec fn nla_v6_wf(n: AddressNlaV) -> bool {
    match n {
        AddressNlaV::Local(_) => true,
        AddressNlaV::Address(b) => b.len() == 16,
        AddressNlaV::CacheInfo(b) => b.len() == 16,
        AddressNlaV::Other => true,
    }
}

/// Well-formedness of a whole IPv6 address message.
pub open spec fn msg_v6_wf(m: AddressMessageV) -> bool {
    forall|k: int| 0 <= k < m.nlas.len() ==> nla_v6_wf(m.nlas[k])
}

/// Running state of one pass over an IPv4 attribute list. The string fields
/// start empty and the peer absent; each interpreted attribute overwrites its
/// field, so a repeated attribute leaves the last occurrence in force.
pub ghost struct ScanV4 {
    pub address: Seq<char>,
    pub peer: Option<Seq<char>>,
    pub preferred_lft: Seq<char>,
    pub valid_lft: Seq<char>,
}

/// The empty scan state.
pub open spec fn scan_v4_init() -> ScanV4 {
    ScanV4 {
        address: Seq::empty(),
        peer: None,
        preferred_lft: Seq::empty(),
        valid_lft: Seq::empty(),
    }
}

/// Effect of one IPv4 attribute on the scan state: a local-address attribute
/// supplies the primary address, an address attribute supplies the peer, a
/// cache-info attribute supplies both rendered lifetimes.
pub open spec fn scan_v4_step(st: ScanV4, n: AddressNlaV) -> ScanV4 {
    match n {
        AddressNlaV::Local(b) => ScanV4 {
            address: ipv4_str(b),
            peer: st.peer,
            preferred_lft: st.preferred_lft,
            valid_lft: st.valid_lft,
        },
        AddressNlaV::Address(b) => ScanV4 {
            address: st.address,
            peer: Some(ipv4_str(b)),
            preferred_lft: st.preferred_lft,
            valid_lft: st.valid_lft,
        },
        AddressNlaV::CacheInfo(b) => ScanV4 {
            address: st.address,
            peer: st.peer,
            preferred_lft: lifetime_str(u32_le_at(b, 0)),
            valid_lft: lifetime_str(u32_le_at(b, 4)),
        },
        AddressNlaV::Other => st,
    }
}

/// The scan state after one pass over a whole IPv4 attribute list.
pub open spec fn scan_v4(nlas: Seq<AddressNlaV>) -> ScanV4
    decreases nlas.len(),
{
    if nlas.len() == 0 {
        scan_v4_init()
    } else {
        scan_v4_step(scan_v4(nlas.drop_last()), nlas.last())
    }
}

/// The IPv4 address record an address message decodes to. The peer field is
/// present exactly when a peer attribute was reported and its value differs
/// from the primary address: with no reported peer there is nothing to carry,
/// and a peer equal to the primary is redundant and is omitted, so callers
/// cannot distinguish "peer explicitly equal" from "no peer".
pub open spec fn extract_v4(m: AddressMessageV) -> Ipv4AddrInfoV {
    let st = scan_v4(m.nlas);
    Ipv4AddrInfoV {
        address: st.address,
        prefix_len: m.prefix_len,
        peer: match st.peer {
            Some(p) => if p == st.address {
                None
            } else {
                Some(p)
            },
            None => None,
        },
        preferred_lft: st.preferred_lft,
        valid_lft: st.valid_lft,
    }
}

/// Running state of one pass over an IPv6 attribute list.
pub ghost struct ScanV6 {
    pub address: Seq<char>,
    pub preferred_lft: Seq<char>,
    pub valid_lft: Seq<char>,
}

/// The empty IPv6 scan state.
pub open spec fn scan_v6_init() -> ScanV6 {
    ScanV6 { address: Seq::empty(), preferred_lft: Seq::empty(), valid_lft: Seq::empty() }
}

/// Effect of one IPv6 attribute on the scan state: for this family only the
/// address attribute carries the primary address, and no peer is tracked.
pub open spec fn scan_v6_step(st: ScanV6, n: AddressNlaV) -> ScanV6 {
    match n {
        AddressNlaV::Address(b) => ScanV6 {
            address: ipv6_str(b),
            preferred_lft: st.preferred_lft,
            valid_lft: st.valid_lft,
        },
        AddressNlaV::CacheInfo(b) => ScanV6 {
            address: st.address,
            preferred_lft: lifetime_str(u32_le_at(b, 0)),
            valid_lft: lifetime_str(u32_le_at(b, 4)),
        },
        _ => st,
    }
}

/// The scan state after one pass over a whole IPv6 attribute list.
pub open spec fn scan_v6(nlas: Seq<AddressNlaV>) -> ScanV6
    decreases nlas.len(),
{
    if nlas.len() == 0 {
        scan_v6_init()
    } else {
        scan_v6_step(scan_v6(nlas.drop_last()), nlas.last())
    }
}

/// The IPv6 address record an address message decodes to.
pub open spec fn extract_v6(m: AddressMessageV) -> Ipv6AddrInfoV {
    let st = scan_v6(m.nlas);
    Ipv6AddrInfoV {
        address: st.address,
        prefix_len: m.prefix_len,
        preferred_lft: st.preferred_lft,
        valid_lft: st.valid_lft,
    }
}

/// What processing an IPv4 address message does to the store: a malformed
/// message leaves it unchanged and reports a bug-class error; a message whose
/// index resolves to no named interface leaves it unchanged and is dropped;
/// otherwise exactly the resolved record gains the decoded fragment.
pub open spec fn fill_v4_post(
    pre: Seq<IfaceV>,
    post: Seq<IfaceV>,
    m: AddressMessageV,
    r: Result<FillOutcome, NisporError>,
) -> bool {
    if !msg_v4_wf(m) {
        &&& post == pre
        &&& r matches Err(e) && e.kind == ErrorKind::Bug
    } else {
        let j = resolve_index(pre, m.index);
        if j == -1 || pre[j].name.len() == 0 {
            &&& post == pre
            &&& r == Ok::<FillOutcome, NisporError>(FillOutcome::AddressDropped)
        } else {
            &&& post == pre.update(j, merged_v4(pre[j], extract_v4(m)))
            &&& r == Ok::<FillOutcome, NisporError>(FillOutcome::Merged)
        }
    }
}

/// The IPv6 counterpart of `fill_v4_post`.
pub open spec fn fill_v6_post(
    pre: Seq<IfaceV>,
    post: Seq<IfaceV>,
    m: AddressMessageV,
    r: Result<FillOutcome, NisporError>,
) -> bool {
    if !msg_v6_wf(m) {
        &&& post == pre
        &&& r matches Err(e) && e.kind == ErrorKind::Bug
    } else {
        let j = resolve_index(pre, m.index);
        if j == -1 || pre[j].name.len() == 0 {
            &&& post == pre
            &&& r == Ok::<FillOutcome, NisporError>(FillOutcome::AddressDropped)
        } else {
            &&& post == pre.update(j, merged_v6(pre[j], extract_v6(m)))
            &&& r == Ok::<FillOutcome, NisporError>(FillOutcome::Merged)
        }
    }
}

/// Decodes an IPv4 address message into its owning interface index and one
/// fully populated address record. Any interpreted attribute with a payload
/// of the wrong wire width is a bug-class error for this one message.
pub fn parse_ipv4_nlas(nl_msg: &AddressMessage) -> (r: Result<(u32, Ipv4AddrInfo), NisporError>)
    ensures
        msg_v4_wf(nl_msg@) ==> (r matches Ok(p) && p.0 == nl_msg@.index && p.1@ == extract_v4(
            nl_msg@,
        )),
        !msg_v4_wf(nl_msg@) ==> (r matches Err(e) && e.kind == ErrorKind::Bug),
{
    let ghost m = nl_msg@;
    let mut address = String::new();
    let mut peer: Option<String> = None;
    let mut preferred_lft = String::new();
    let mut valid_lft = String::new();
    let n = nl_msg.nlas.len();
    let mut i: usize = 0;
    while i < n
        invariant
            i <= n,
            m == nl_msg@,
            n == m.nlas.len(),
            forall|k: int| 0 <= k < i ==> nla_v4_wf(m.nlas[k]),
            address@ == scan_v4(m.nlas.subrange(0, i as int)).address,
            match peer {
                Some(p) => scan_v4(m.nlas.subrange(0, i as int)).peer == Some(p@),
                None => scan_v4(m.nlas.subrange(0, i as int)).peer is None,
            },
            preferred_lft@ == scan_v4(m.nlas.subrange(0, i as int)).preferred_lft,
            valid_lft@ == scan_v4(m.nlas.subrange(0, i as int)).valid_lft,
        decreases n - i,
    {
        let nla = &nl_msg.nlas[i];
        proof {
            assert(nla@ == m.nlas[i as int]);
        }
        match nla {
            AddressNla::Local(b) => {
                match ipv4_bytes_to_string(b.as_slice()) {
                    Ok(s) => {
                        address = s;
                    },
                    Err(e) => {
                        proof {
                            assert(!nla_v4_wf(m.nlas[i as int]));
                        }
                        return Err(e);
                    },
                }
            },
            AddressNla::Address(b) => {
                match ipv4_bytes_to_string(b.as_slice()) {
                    Ok(s) => {
                        peer = Some(s);
                    },
                    Err(e) => {
                        proof {
                            assert(!nla_v4_wf(m.nlas[i as int]));
                        }
                        return Err(e);
                    },
                }
            },
            AddressNla::CacheInfo(b) => {
                match parse_cache_info(b.as_slice()) {
                    Ok(c) => {
                        preferred_lft = left_time_to_string(c.ifa_prefered);
                        valid_lft = left_time_to_string(c.ifa_valid);
                    },
                    Err(e) => {
                        proof {
                            assert(!nla_v4_wf(m.nlas[i as int]));
                        }
                        return Err(e);
                    },
                }
            },
            AddressNla::Other => {},
        }
        proof {
            let pre = m.nlas.subrange(0, i as int);
            let post = m.nlas.subrange(0, i as int + 1);
            assert(post.drop_last() =~= pre);
            assert(post.last() == m.nlas[i as int]);
            assert(scan_v4(post) == scan_v4_step(scan_v4(pre), m.nlas[i as int]));
        }
        i = i + 1;
    }
    proof {
        assert(m.nlas.subrange(0, n as int) =~= m.nlas);
    }
    let peer = match peer {
        Some(p) => {
            if p.eq(&address) {
                None
            } else {
                Some(p)
            }
        },
        None => None,
    };
    let addr = Ipv4AddrInfo {
        address,
        prefix_len: nl_msg.prefix_len,
        peer,
        preferred_lft,
        valid_lft,
    };
    proof {
        assert(addr@ == extract_v4(m));
    }
    Ok((nl_msg.index, addr))
}

/// Decodes an IPv6 address message into its owning interface index and one
/// address record. For this family the address attribute is the primary
/// value and no peer is reported.
pub fn parse_ipv6_nlas(nl_msg: &AddressMessage) -> (r: Result<(u32, Ipv6AddrInfo), NisporError>)
    ensures
        msg_v6_wf(nl_msg@) ==> (r matches Ok(p) && p.0 == nl_msg@.index && p.1@ == extract_v6(
            nl_msg@,
        )),
        !msg_v6_wf(nl_msg@) ==> (r matches Err(e) && e.kind == ErrorKind::Bug),
{
    let ghost m = nl_msg@;
    let mut address = String::new();
    let mut preferred_lft = String::new();
    let mut valid_lft = String::new();
    let n = nl_msg.nlas.len();
    let mut i: usize = 0;
    while i < n
        invariant
            i <= n,
            m == nl_msg@,
            n == m.nlas.len(),
            forall|k: int| 0 <= k < i ==> nla_v6_wf(m.nlas[k]),
            address@ == scan_v6(m.nlas.subrange(0, i as int)).address,
            preferred_lft@ == scan_v6(m.nlas.subrange(0, i as int)).preferred_lft,
            valid_lft@ == scan_v6(m.nlas.subrange(0, i as int)).valid_lft,
        decreases n - i,
    {
        let nla = &nl_msg.nlas[i];
        proof {
            assert(nla@ == m.nlas[i as int]);
        }
        match nla {
            AddressNla::Address(b) => {
                match ipv6_bytes_to_string(b.as_slice()) {
                    Ok(s) => {
                        address = s;
                    },
                    Err(e) => {
                        proof {
                            assert(!nla_v6_wf(m.nlas[i as int]));
                        }
                        return Err(e);
                    },
                }
            },
            AddressNla::CacheInfo(b) => {
                match parse_cache_info(b.as_slice()) {
                    Ok(c) => {
                        preferred_lft = left_time_to_string(c.ifa_prefered);
                        valid_lft = left_time_to_string(c.ifa_valid);
                    },
                    Err(e) => {
                        proof {
                            assert(!nla_v6_wf(m.nlas[i as int]));
                        }
                        return Err(e);
                    },
                }
            },
            _ => {},
        }
        proof {
            let pre = m.nlas.subrange(0, i as int);
            let post = m.nlas.subrange(0, i as int + 1);
            assert(post.drop_last() =~= pre);
            assert(post.last() == m.nlas[i as int]);
            assert(scan_v6(post) == scan_v6_step(scan_v6(pre), m.nlas[i as int]));
        }
        i = i + 1;
    }
    proof {
        assert(m.nlas.subrange(0, n as int) =~= m.nlas);
    }
    let addr = Ipv6AddrInfo {
        address,
        prefix_len: nl_msg.prefix_len,
        preferred_lft,
        valid_lft,
    };
    proof {
        assert(addr@ == extract_v6(m));
    }
    Ok((nl_msg.index, addr))
}

/// Address-family dispatcher and state merger: classifies one address
/// message, decodes it with the extractor of its family, resolves the owning
/// interface by index, and appends the fragment to that interface's address
/// sequence of the same family, leaving every other record and field as it
/// was. An unknown family or an unresolved index leaves the store unchanged;
/// a malformed message reports a bug-class error for this one message only.
pub fn fill_ip_addr(iface_states: &mut IfaceStore, nl_msg: &AddressMessage) -> (r: Result<
    FillOutcome,
    NisporError,
>)
    requires
        store_wf(old(iface_states)@),
    ensures
        store_wf(final(iface_states)@),
        match nl_msg@.family {
            AddressFamily::Ipv4 => fill_v4_post(old(iface_states)@, final(iface_states)@, nl_msg@, r),
            AddressFamily::Ipv6 => fill_v6_post(old(iface_states)@, final(iface_states)@, nl_msg@, r),
            AddressFamily::Other(_) => final(iface_states)@ == old(iface_states)@ && r == Ok::<
                FillOutcome,
                NisporError,
            >(FillOutcome::UnknownFamilySkipped),
        },
{
    let ghost pre = iface_states@;
    match nl_msg.family {
        AddressFamily::Ipv4 => {
            let (iface_index, addr) = match parse_ipv4_nlas(nl_msg) {
                Ok(p) => p,
                Err(e) => {
                    return Err(e);
                },
            };
            match iface_states.position_of_index(iface_index) {
                None => Ok(FillOutcome::AddressDropped),
                Some(j) => {
                    if iface_states.name_empty_at(j) {
                        return Ok(FillOutcome::AddressDropped);
                    }
                    iface_states.append_ipv4_at(j, addr);
                    proof {
                        lemma_update_same_keys_wf(
                            pre,
                            j as int,
                            merged_v4(pre[j as int], extract_v4(nl_msg@)),
                        );
                    }
                    Ok(FillOutcome::Merged)
                },
            }
        },
        AddressFamily::Ipv6 => {
            let (iface_index, addr) = match parse_ipv6_nlas(nl_msg) {
                Ok(p) => p,
                Err(e) => {
                    return Err(e);
                },
            };
            match iface_states.position_of_index(iface_index) {
                None => Ok(FillOutcome::AddressDropped),
                Some(j) => {
                    if iface_states.name_empty_at(j) {
                        return Ok(FillOutcome::AddressDropped);
                    }
                    iface_states.append_ipv6_at(j, addr);
                    proof {
                        lemma_update_same_keys_wf(
                            pre,
                            j as int,
                            merged_v6(pre[j as int], extract_v6(nl_msg@)),
                        );
                    }
                    Ok(FillOutcome::Merged)
                },
            }
        },
        AddressFamily::Other(_) => Ok(FillOutcome::UnknownFamilySkipped),
    }
}

/// Position of the first local-address attribute at or after `i`, or -1.
pub open spec fn first_local_from(nlas: Seq<AddressNlaV>, i: int) -> int
    decreases nlas.len() - i,
{
    if i < 0 || i >= nlas.len() {
        -1
    } else if nlas[i] matches AddressNlaV::Local(_) {
        i
    } else {
        first_local_from(nlas, i + 1)
    }
}

/// Position of the first address attribute at or after `i`, or -1.
pub open spec fn first_address_from(nlas: Seq<AddressNlaV>, i: int) -> int
    decreases nlas.len() - i,
{
    if i < 0 || i >= nlas.len() {
        -1
    } else if nlas[i] matches AddressNlaV::Address(_) {
        i
    } else {
        first_address_from(nlas, i + 1)
    }
}

/// The primary address string of one address message, without touching any
/// store: for IPv4 the first local-address attribute, for IPv6 the first
/// address attribute, rendered canonically. A message with no such attribute
/// or with an unknown family yields the empty string; a malformed payload in
/// that attribute is a bug-class error.
pub fn get_ip_addr(nl_addr_msg: &AddressMessage) -> (r: Result<String, NisporError>)
    ensures
        ({
            let m = nl_addr_msg@;
            match m.family {
                AddressFamily::Ipv4 => {
                    let j = first_local_from(m.nlas, 0);
                    &&& j == -1 ==> (r matches Ok(s) && s@ == Seq::<char>::empty())
                    &&& j != -1 ==> (m.nlas[j] matches AddressNlaV::Local(b) ==> (if b.len() == 4 {
                        r matches Ok(s) && s@ == ipv4_str(b)
                    } else {
                        r matches Err(e) && e.kind == ErrorKind::Bug
                    }))
                },
                AddressFamily::Ipv6 => {
                    let j = first_address_from(m.nlas, 0);
                    &&& j == -1 ==> (r matches Ok(s) && s@ == Seq::<char>::empty())
                    &&& j != -1 ==> (m.nlas[j] matches AddressNlaV::Address(b) ==> (if b.len()
                        == 16 {
                        r matches Ok(s) && s@ == ipv6_str(b)
                    } else {
                        r matches Err(e) && e.kind == ErrorKind::Bug
                    }))
                },
                AddressFamily::Other(_) => r matches Ok(s) && s@ == Seq::<char>::empty(),
            }
        }),
{
    let ghost m = nl_addr_msg@;
    let n = nl_addr_msg.nlas.len();
    match nl_addr_msg.family {
        AddressFamily::Ipv4 => {
            let mut i: usize = 0;
            while i < n
                invariant
                    i <= n,
                    m == nl_addr_msg@,
                    m.family is Ipv4,
                    n == m.nlas.len(),
                    first_local_from(m.nlas, 0) == first_local_from(m.nlas, i as int),
                decreases n - i,
            {
                let nla = &nl_addr_msg.nlas[i];
                proof {
                    assert(nla@ == m.nlas[i as int]);
                }
                if let AddressNla::Local(b) = nla {
                    proof {
                        assert(m.nlas[i as int] == AddressNlaV::Local(b@));
                        assert(first_local_from(m.nlas, i as int) == i as int);
                        assert(first_local_from(m.nlas, 0) == i as int);
                    }
                    return ipv4_bytes_to_string(b.as_slice());
                }
                i = i + 1;
            }
            Ok(String::new())
        },
        AddressFamily::Ipv6 => {
            let mut i: usize = 0;
            while i < n
                invariant
                    i <= n,
                    m == nl_addr_msg@,
                    m.family is Ipv6,
                    n == m.nlas.len(),
                    first_address_from(m.nlas, 0) == first_address_from(m.nlas, i as int),
                decreases n - i,
            {
                let nla = &nl_addr_msg.nlas[i];
                proof {
                    assert(nla@ == m.nlas[i as int]);
                }
                if let AddressNla::Address(b) = nla {
                    proof {
                        assert(m.nlas[i as int] == AddressNlaV::Address(b@));
                        assert(first_address_from(m.nlas, i as int) == i as int);
                        assert(first_address_from(m.nlas, 0) == i as int);
                    }
                    return ipv6_bytes_to_string(b.as_slice());
                }
                i = i + 1;
            }
            Ok(String::new())
        },
        AddressFamily::Other(_) => Ok(String::new()),
    }
}

/// The prefix length of an address message, which the kernel stores in the
/// message header for every family.
pub fn get_ip_prefix_len(nl_addr_msg: &AddressMessage) -> (r: u8)
    ensures
        r == nl_addr_msg@.prefix_len,
{
    nl_addr_msg.prefix_len
}

/// Law: peer suppression. An IPv4 message that reports no peer attribute
/// decodes to a record with no peer; one whose reported peer equals the
/// primary address also decodes to a record with no peer, so the two cases
/// are indistinguishable; one whose reported peer differs decodes to a record
/// whose peer is exactly the reported value.
pub proof fn lemma_peer_suppression(m: AddressMessageV)
    ensures
        scan_v4(m.nlas).peer is None ==> extract_v4(m).peer is None,
        scan_v4(m.nlas).peer == Some(scan_v4(m.nlas).address) ==> extract_v4(m).peer is None,
        (scan_v4(m.nlas).peer matches Some(p) && p != scan_v4(m.nlas).address) ==> extract_v4(
            m,
        ).peer == scan_v4(m.nlas).peer,
{
}

/// Merging a record with an unchanged index does not change which position
/// any index resolves to.
pub proof fn lemma_resolve_unchanged_by_merge(s: Seq<IfaceV>, j: int, e2: IfaceV, idx: u32)
    requires
        0 <= j < s.len(),
        e2.index == s[j].index,
    ensures
        resolve_index(s.update(j, e2), idx) == resolve_index(s, idx),
{
    lemma_resolve_from_unchanged(s, j, e2, idx, 0);
}

proof fn lemma_resolve_from_unchanged(s: Seq<IfaceV>, j: int, e2: IfaceV, idx: u32, i: int)
    requires
        0 <= j < s.len(),
        e2.index == s[j].index,
    ensures
        resolve_from(s.update(j, e2), idx, i) == resolve_from(s, idx, i),
    decreases s.len() - i,
{
    if !(i < 0 || i >= s.len()) && s[i].index != idx {
        lemma_resolve_from_unchanged(s, j, e2, idx, i + 1);
    }
}

/// Law: merging two IPv4 fragments for the same interface appends both, in
/// arrival order, to that interface's IPv4 address sequence, and leaves the
/// record's other fields, its IPv6 addresses, and every other interface's
/// record untouched.
pub proof fn lemma_merge_two_v4(s: Seq<IfaceV>, j: int, a1: Ipv4AddrInfoV, a2: Ipv4AddrInfoV)
    requires
        0 <= j < s.len(),
    ensures
        ({
            let s1 = s.update(j, merged_v4(s[j], a1));
            let s2 = s1.update(j, merged_v4(s1[j], a2));
            &&& s2.len() == s.len()
            &&& s2[j].ipv4 == Some(ipv4_seq_of(s[j]) + seq![a1, a2])
            &&& s2[j].ipv6 == s[j].ipv6
            &&& s2[j].name == s[j].name
            &&& s2[j].index == s[j].index
            &&& s2[j].state == s[j].state
            &&& s2[j].iface_type == s[j].iface_type
            &&& forall|k: int| 0 <= k < s.len() && k != j ==> s2[k] == s[k]
        }),
{
    let s1 = s.update(j, merged_v4(s[j], a1));
    let s2 = s1.update(j, merged_v4(s1[j], a2));
    assert(ipv4_seq_of(s[j]).push(a1).push(a2) =~= ipv4_seq_of(s[j]) + seq![a1, a2]);
}

/// Law: the IPv6 counterpart of `lemma_merge_two_v4`.
pub proof fn lemma_merge_two_v6(s: Seq<IfaceV>, j: int, a1: Ipv6AddrInfoV, a2: Ipv6AddrInfoV)
    requires
        0 <= j < s.len(),
    ensures
        ({
            let s1 = s.update(j, merged_v6(s[j], a1));
            let s2 = s1.update(j, merged_v6(s1[j], a2));
            &&& s2.len() == s.len()
            &&& s2[j].ipv6 == Some(ipv6_seq_of(s[j]) + seq![a1, a2])
            &&& s2[j].ipv4 == s[j].ipv4
            &&& s2[j].name == s[j].name
            &&& s2[j].index == s[j].index
            &&& s2[j].state == s[j].state
            &&& s2[j].iface_type == s[j].iface_type
            &&& forall|k: int| 0 <= k < s.len() && k != j ==> s2[k] == s[k]
        }),
{
    let s1 = s.update(j, merged_v6(s[j], a1));
    let s2 = s1.update(j, merged_v6(s1[j], a2));
    assert(ipv6_seq_of(s[j]).push(a1).push(a2) =~= ipv6_seq_of(s[j]) + seq![a1, a2]);
}

/// An update that keeps a record's name and index preserves the store's
/// uniqueness invariant.
proof fn lemma_update_same_keys_wf(s: Seq<IfaceV>, j: int, e2: IfaceV)
    requires
        store_wf(s),
        0 <= j < s.len(),
        e2.name == s[j].name,
        e2.index == s[j].index,
    ensures
        store_wf(s.update(j, e2)),
{
    let s2 = s.update(j, e2);
    assert forall|a: int, b: int|
        0 <= a < b < s2.len() implies s2[a].name != s2[b].name && s2[a].index != s2[b].index by {
        assert(s[a].name != s[b].name && s[a].index != s[b].index);
    }
}

} // verus!
