use vstd::prelude::*;
use vstd::string::StringExecFns;
use crate::error::{ErrorKind, NisporError};
use crate::num_str::{dec_str, push_dec};
use crate::reader::{read_u32, u32_le_at};

verus! {

/// The two lifetime fields of a kernel `ifa_cacheinfo` record, before
/// formatting. The record's trailing timestamp fields are not interpreted.
#[derive(Debug, Clone, Copy, PartialEq, Eq, Structural)]
pub struct IfaCacheInfo {
    pub ifa_prefered: u32,
    pub ifa_valid: u32,
}

/// The textual rendering of a remaining lifetime: the all-ones sentinel means
/// "no expiry" and renders as "forever"; any other value renders as "<N>sec".
pub open spec fn lifetime_str(t: u32) -> Seq<char> {
    if t == u32::MAX {
        "forever"@
    } else {
        dec_str(t as nat) + "sec"@
    }
}

/// Decodes a cache-info attribute payload. The payload must be exactly 16
/// bytes (two lifetime fields, two timestamp fields); any other length is a
/// bug-class error for this one fragment, never a panic.
pub fn parse_cache_info(cache_info_raw: &[u8]) -> (r: Result<IfaCacheInfo, NisporError>)
    ensures
        cache_info_raw@.len() == 16 ==> (r matches Ok(c) && c.ifa_prefered == u32_le_at(
            cache_info_raw@,
            0,
        ) && c.ifa_valid == u32_le_at(cache_info_raw@, 4)),
        cache_info_raw@.len() != 16 ==> (r matches Err(e) && e.kind == ErrorKind::Bug),
{
    if cache_info_raw.len() != 16 {
        return Err(NisporError::bug("invalid ifa_cacheinfo length, expected 16 bytes"));
    }
    let prefered = match read_u32(cache_info_raw, 0) {
        Ok(v) => v,
        Err(e) => {
            return Err(e);
        },
    };
    let valid = match read_u32(cache_info_raw, 4) {
        Ok(v) => v,
        Err(e) => {
            return Err(e);
        },
    };
    Ok(IfaCacheInfo { ifa_prefered: prefered, ifa_valid: valid })
}

/// Renders a remaining-lifetime value: "forever" for the kernel's no-expiry
/// sentinel, "<N>sec" otherwise.
pub fn left_time_to_string(left_time: u32) -> (r: String)
    ensures
        r@ == lifetime_str(left_time),
{
    if left_time == u32::MAX {
        String::from_str("forever")
    } else {
        let mut s = String::new();
        push_dec(left_time, &mut s);
        s.append("sec");
        proof {
            assert(s@ =~= lifetime_str(left_time));
        }
        s
    }
}

/// Law: decoding a valid 16-byte cache-info buffer and then formatting is
/// deterministic. The preferred lifetime is the first 32-bit field and the
/// valid lifetime the second; the all-ones value renders as "forever" and any
/// other value `N` renders as "<N>sec".
pub proof fn lemma_lifetime_render(b: Seq<u8>)
    requires
        b.len() == 16,
    ensures
        u32_le_at(b, 0) == u32::MAX ==> lifetime_str(u32_le_at(b, 0)) == "forever"@,
        u32_le_at(b, 0) != u32::MAX ==> lifetime_str(u32_le_at(b, 0)) == dec_str(
            u32_le_at(b, 0) as nat,
        ) + "sec"@,
        u32_le_at(b, 4) == u32::MAX ==> lifetime_str(u32_le_at(b, 4)) == "forever"@,
        u32_le_at(b, 4) != u32::MAX ==> lifetime_str(u32_le_at(b, 4)) == dec_str(
            u32_le_at(b, 4) as nat,
        ) + "sec"@,
{
}

} // verus!
