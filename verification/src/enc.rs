use vstd::prelude::*;

verus! {

/// Little-endian encoding of a 32-bit integer.
pub open spec fn u32_le(v: u32) -> Seq<u8> {
    seq![
        (v % 256) as u8,
        ((v / 256) % 256) as u8,
        ((v / 65536) % 256) as u8,
        ((v / 16777216) % 256) as u8,
    ]
}

/// Little-endian encoding of a 64-bit integer.
pub open spec fn u64_le(v: u64) -> Seq<u8> {
    seq![
        (v % 256) as u8,
        ((v / 256) % 256) as u8,
        ((v / 65536) % 256) as u8,
        ((v / 16777216) % 256) as u8,
        ((v / 4294967296) % 256) as u8,
        ((v / 1099511627776) % 256) as u8,
        ((v / 281474976710656) % 256) as u8,
        ((v / 72057594037927936) % 256) as u8,
    ]
}

/// Appends the little-endian encoding of `v`.
pub fn push_u32_le(dst: &mut Vec<u8>, v: u32)
    ensures
        final(dst)@ == old(dst)@ + u32_le(v),
{
    dst.push((v % 256) as u8);
    dst.push(((v / 256) % 256) as u8);
    dst.push(((v / 65536) % 256) as u8);
    dst.push(((v / 16777216) % 256) as u8);
    assert(dst@ =~= old(dst)@ + u32_le(v));
}

/// Appends the little-endian encoding of `v`.
pub fn push_u64_le(dst: &mut Vec<u8>, v: u64)
    ensures
        final(dst)@ == old(dst)@ + u64_le(v),
{
    dst.push((v % 256) as u8);
    dst.push(((v / 256) % 256) as u8);
    dst.push(((v / 65536) % 256) as u8);
    dst.push(((v / 16777216) % 256) as u8);
    dst.push(((v / 4294967296) % 256) as u8);
    dst.push(((v / 1099511627776) % 256) as u8);
    dst.push(((v / 281474976710656) % 256) as u8);
    dst.push(((v / 72057594037927936) % 256) as u8);
    assert(dst@ =~= old(dst)@ + u64_le(v));
}

} // verus!
