use vstd::prelude::*;
use crate::error::{ErrorKind, NisporError};

verus! {

/// The 32-bit value stored at byte offset `i` of `b`, least significant byte
/// first. Attribute payloads originate from the local kernel, so fields are
/// read in the host's byte order, which is little-endian on every platform
/// this library targets.
pub open spec fn u32_le_at(b: Seq<u8>, i: int) -> u32
    recommends
        0 <= i,
        i + 4 <= b.len(),
{
    (b[i] as int + b[i + 1] as int * 0x100 + b[i + 2] as int * 0x10000 + b[i + 3] as int
        * 0x1000000) as u32
}

/// Bounded field reader: extracts the 32-bit field at `offset`, or reports a
/// bug-class error when the buffer is too short. Never reads outside `buf`.
pub fn read_u32(buf: &[u8], offset: usize) -> (r: Result<u32, NisporError>)
    ensures
        offset + 4 <= buf@.len() ==> (r matches Ok(v) && v == u32_le_at(buf@, offset as int)),
        offset + 4 > buf@.len() ==> (r matches Err(e) && e.kind == ErrorKind::Bug),
{
    if buf.len() >= 4 && offset <= buf.len() - 4 {
        let b0 = buf[offset];
        let b1 = buf[offset + 1];
        let b2 = buf[offset + 2];
        let b3 = buf[offset + 3];
        let v: u32 = (b0 as u32) + (b1 as u32) * 0x100 + (b2 as u32) * 0x10000 + (b3 as u32)
            * 0x1000000;
        Ok(v)
    } else {
        Err(NisporError::bug("field read out of buffer bounds"))
    }
}

} // verus!
