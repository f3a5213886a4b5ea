use vstd::prelude::*;

verus! {

/// The kernel's numeric tag for IPv4 address semantics.
pub const AF_INET: u8 = 2;

/// The kernel's numeric tag for IPv6 address semantics.
pub const AF_INET6: u8 = 10;

/// Address family of a message, as a closed enumeration: any kernel-defined
/// value other than the two known ones lands in `Other`, which downstream
/// logic skips with a diagnostic instead of silently mismatching.
#[derive(Debug, Clone, Copy, PartialEq, Eq, Structural)]
pub enum AddressFamily {
    Ipv4,
    Ipv6,
    Other(u8),
}

/// Classification of a raw family tag.
pub open spec fn spec_family_of(family: u8) -> AddressFamily {
    if family == AF_INET {
        AddressFamily::Ipv4
    } else if family == AF_INET6 {
        AddressFamily::Ipv6
    } else {
        AddressFamily::Other(family)
    }
}

/// Classifies a raw family tag into the closed `AddressFamily` enumeration.
pub fn family_of(family: u8) -> (r: AddressFamily)
    ensures
        r == spec_family_of(family),
{
    if family == AF_INET {
        AddressFamily::Ipv4
    } else if family == AF_INET6 {
        AddressFamily::Ipv6
    } else {
        AddressFamily::Other(family)
    }
}

/// Abstract value of one attribute.
pub ghost enum AddressNlaV {
    Local(Seq<u8>),
    Address(Seq<u8>),
    CacheInfo(Seq<u8>),
    Other,
}

/// One attribute (NLA) of an address message: a tagged raw payload. Tags this
/// library does not interpret are carried as `Other` and ignored.
#[derive(Debug, Clone)]
pub enum AddressNla {
    Local(Vec<u8>),
    Address(Vec<u8>),
    CacheInfo(Vec<u8>),
    Other,
}

impl View for AddressNla {
    type V = AddressNlaV;

    open spec fn view(&self) -> AddressNlaV {
        match self {
            AddressNla::Local(b) => AddressNlaV::Local(b@),
            AddressNla::Address(b) => AddressNlaV::Address(b@),
            AddressNla::CacheInfo(b) => AddressNlaV::CacheInfo(b@),
            AddressNla::Other => AddressNlaV::Other,
        }
    }
}

/// Abstract value of an address message.
pub ghost struct AddressMessageV {
    pub family: AddressFamily,
    pub index: u32,
    pub prefix_len: u8,
    pub nlas: Seq<AddressNlaV>,
}

/// One kernel address message, reduced to the fields this library reads: the
/// header's family tag, owning interface index and prefix length, plus the
/// attribute list in wire order.
#[derive(Debug, Clone)]
pub struct AddressMessage {
    pub family: AddressFamily,
    pub index: u32,
    pub prefix_len: u8,
    pub nlas: Vec<AddressNla>,
}

impl View for AddressMessage {
    type V = AddressMessageV;

    open spec fn view(&self) -> AddressMessageV {
        AddressMessageV {
            family: self.family,
            index: self.index,
            prefix_len: self.prefix_len,
            nlas: self.nlas@.map_values(|n: AddressNla| n@),
        }
    }
}

} // verus!
