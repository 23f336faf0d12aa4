//! Little-endian integer fields on byte buffers: appending writers and
//! offset-based readers, pinned to vstd's byte-encoding specifications.

use vstd::bytes::{
    spec_u32_from_le_bytes, spec_u32_to_le_bytes, spec_u64_from_le_bytes, spec_u64_to_le_bytes,
    u32_from_le_bytes, u32_to_le_bytes, u64_from_le_bytes, u64_to_le_bytes,
};
use vstd::prelude::*;
use vstd::slice::slice_subrange;

verus! {

/// Appends every byte of `bytes` to `out`, in order.
pub(crate) fn append_bytes(out: &mut Vec<u8>, bytes: &Vec<u8>)
    ensures
        final(out)@ == old(out)@ + bytes@,
{
    let mut i: usize = 0;
    while i < bytes.len()
        invariant
            i <= bytes@.len(),
            out@ == old(out)@ + bytes@.subrange(0, i as int),
        decreases bytes@.len() - i,
    {
        out.push(bytes[i]);
        proof {
            assert(old(out)@ + bytes@.subrange(0, i + 1) =~= (old(out)@ + bytes@.subrange(
                0,
                i as int,
            )).push(bytes@[i as int]));
        }
        i = i + 1;
    }
    proof {
        assert(bytes@.subrange(0, bytes@.len() as int) =~= bytes@);
    }
}

/// Appends one byte.
pub(crate) fn write_u8(out: &mut Vec<u8>, x: u8)
    ensures
        final(out)@ == old(out)@ + seq![x],
{
    out.push(x);
    proof {
        assert(old(out)@ + seq![x] =~= old(out)@.push(x));
    }
}

/// Appends the four little-endian bytes of `x`.
pub(crate) fn write_u32_le(out: &mut Vec<u8>, x: u32)
    ensures
        final(out)@ == old(out)@ + spec_u32_to_le_bytes(x),
{
    let bytes = u32_to_le_bytes(x);
    append_bytes(out, &bytes);
}

/// Appends the eight little-endian bytes of `x`.
pub(crate) fn write_u64_le(out: &mut Vec<u8>, x: u64)
    ensures
        final(out)@ == old(out)@ + spec_u64_to_le_bytes(x),
{
    let bytes = u64_to_le_bytes(x);
    append_bytes(out, &bytes);
}

/// Reads the little-endian u32 at `offset`.
pub(crate) fn read_u32_le(buf: &[u8], offset: usize) -> (x: u32)
    requires
        offset + 4 <= buf@.len(),
    ensures
        x == spec_u32_from_le_bytes(buf@.subrange(offset as int, offset as int + 4)),
{
    let _n: usize = buf.len();
    u32_from_le_bytes(slice_subrange(buf, offset, offset + 4))
}

/// Reads the little-endian u64 at `offset`.
pub(crate) fn read_u64_le(buf: &[u8], offset: usize) -> (x: u64)
    requires
        offset + 8 <= buf@.len(),
    ensures
        x == spec_u64_from_le_bytes(buf@.subrange(offset as int, offset as int + 8)),
{
    let _n: usize = buf.len();
    u64_from_le_bytes(slice_subrange(buf, offset, offset + 8))
}

} // verus!
