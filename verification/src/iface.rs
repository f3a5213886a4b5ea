use vstd::prelude::*;

verus! {

/// Operational state of an interface, as reported by a link message.
#[derive(Debug, Clone, Copy, PartialEq, Eq, Structural)]
pub enum IfaceState {
    Up,
    Down,
    Unknown,
}

/// Interface kind tag. Kernel-defined values this library does not model
/// fall into `Unknown`, which fails safe instead of silently mismatching.
#[derive(Debug, Clone, Copy, PartialEq, Eq, Structural)]
pub enum IfaceType {
    Ethernet,
    Bond,
    Bridge,
    Vlan,
    Vrf,
    Vxlan,
    Veth,
    Unknown,
}

/// Abstract value of an IPv4 address record.
pub ghost struct Ipv4AddrInfoV {
    pub address: Seq<char>,
    pub prefix_len: u8,
    pub peer: Option<Seq<char>>,
    pub preferred_lft: Seq<char>,
    pub valid_lft: Seq<char>,
}

/// One IPv4 address attached to an interface. `peer` is present only when
/// the reported peer differs from the primary address; the lifetimes are the
/// rendered "forever" / "<N>sec" forms.
#[derive(Debug, Clone)]
pub struct Ipv4AddrInfo {
    pub address: String,
    pub prefix_len: u8,
    pub peer: Option<String>,
    pub preferred_lft: String,
    pub valid_lft: String,
}

impl View for Ipv4AddrInfo {
    type V = Ipv4AddrInfoV;

    open spec fn view(&self) -> Ipv4AddrInfoV {
        Ipv4AddrInfoV {
            address: self.address@,
            prefix_len: self.prefix_len,
            peer: match self.peer {
                Some(p) => Some(p@),
                None => None,
            },
            preferred_lft: self.preferred_lft@,
            valid_lft: self.valid_lft@,
        }
    }
}

/// Abstract value of an IPv6 address record.
pub ghost struct Ipv6AddrInfoV {
    pub address: Seq<char>,
    pub prefix_len: u8,
    pub preferred_lft: Seq<char>,
    pub valid_lft: Seq<char>,
}

/// One IPv6 address attached to an interface.
#[derive(Debug, Clone)]
pub struct Ipv6AddrInfo {
    pub address: String,
    pub prefix_len: u8,
    pub preferred_lft: String,
    pub valid_lft: String,
}

impl View for Ipv6AddrInfo {
    type V = Ipv6AddrInfoV;

    open spec fn view(&self) -> Ipv6AddrInfoV {
        Ipv6AddrInfoV {
            address: self.address@,
            prefix_len: self.prefix_len,
            preferred_lft: self.preferred_lft@,
            valid_lft: self.valid_lft@,
        }
    }
}

/// The IPv4 address records of one interface, in discovery order.
#[derive(Debug, Clone)]
pub struct Ipv4Info {
    pub addresses: Vec<Ipv4AddrInfo>,
}

impl View for Ipv4Info {
    type V = Seq<Ipv4AddrInfoV>;

    open spec fn view(&self) -> Seq<Ipv4AddrInfoV> {
        self.addresses@.map_values(|a: Ipv4AddrInfo| a@)
    }
}

/// The IPv6 address records of one interface, in discovery order.
#[derive(Debug, Clone)]
pub struct Ipv6Info {
    pub addresses: Vec<Ipv6AddrInfo>,
}

impl View for Ipv6Info {
    type V = Seq<Ipv6AddrInfoV>;

    open spec fn view(&self) -> Seq<Ipv6AddrInfoV> {
        self.addresses@.map_values(|a: Ipv6AddrInfo| a@)
    }
}

/// Abstract value of an interface record.
pub ghost struct IfaceV {
    pub name: Seq<char>,
    pub index: u32,
    pub state: IfaceState,
    pub iface_type: IfaceType,
    pub ipv4: Option<Seq<Ipv4AddrInfoV>>,
    pub ipv6: Option<Seq<Ipv6AddrInfoV>>,
}

/// One interface record: the per-name unit of the snapshot. `name` is the
/// externally visible key; `index` is the kernel's numeric handle, used to
/// correlate address messages to their owning interface.
#[derive(Debug, Clone)]
pub struct Iface {
    pub name: String,
    pub index: u32,
    pub state: IfaceState,
    pub iface_type: IfaceType,
    pub ipv4: Option<Ipv4Info>,
    pub ipv6: Option<Ipv6Info>,
}

/// The IPv4 address sequence of a record; empty when none was merged yet.
pub open spec fn ipv4_seq_of(e: IfaceV) -> Seq<Ipv4AddrInfoV> {
    match e.ipv4 {
        Some(s) => s,
        None => Seq::empty(),
    }
}

/// The IPv6 address sequence of a record; empty when none was merged yet.
pub open spec fn ipv6_seq_of(e: IfaceV) -> Seq<Ipv6AddrInfoV> {
    match e.ipv6 {
        Some(s) => s,
        None => Seq::empty(),
    }
}

/// A record with one IPv4 fragment appended, every other field untouched.
pub open spec fn merged_v4(e: IfaceV, a: Ipv4AddrInfoV) -> IfaceV {
    IfaceV {
        name: e.name,
        index: e.index,
        state: e.state,
        iface_type: e.iface_type,
        ipv4: Some(ipv4_seq_of(e).push(a)),
        ipv6: e.ipv6,
    }
}

/// A record with one IPv6 fragment appended, every other field untouched.
pub open spec fn merged_v6(e: IfaceV, a: Ipv6AddrInfoV) -> IfaceV {
    IfaceV {
        name: e.name,
        index: e.index,
        state: e.state,
        iface_type: e.iface_type,
        ipv4: e.ipv4,
        ipv6: Some(ipv6_seq_of(e).push(a)),
    }
}

impl View for Iface {
    type V = IfaceV;

    open spec fn view(&self) -> IfaceV {
        IfaceV {
            name: self.name@,
            index: self.index,
            state: self.state,
            iface_type: self.iface_type,
            ipv4: match self.ipv4 {
                Some(info) => Some(info@),
                None => None,
            },
            ipv6: match self.ipv6 {
                Some(info) => Some(info@),
                None => None,
            },
        }
    }
}

} // verus!
