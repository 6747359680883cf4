//! Primitive big-endian byte output.
//!
//! Every box serializes itself by appending bytes to a `Vec<u8>`; these are
//! the primitives they share. Each exec function appends exactly the byte
//! sequence that its spec-level counterpart describes.

use vstd::prelude::*;

verus! {

/// Big-endian encoding of a 16-bit value: two bytes, most significant first.
pub open spec fn spec_u16_be(x: u16) -> Seq<u8> {
    seq![(x >> 8) as u8, x as u8]
}

/// Big-endian encoding of a 32-bit value: four bytes, most significant first.
pub open spec fn spec_u32_be(x: u32) -> Seq<u8> {
    seq![(x >> 24) as u8, (x >> 16) as u8, (x >> 8) as u8, x as u8]
}

/// Big-endian encoding of a 64-bit value: eight bytes, most significant first.
pub open spec fn spec_u64_be(x: u64) -> Seq<u8> {
    seq![
        (x >> 56) as u8,
        (x >> 48) as u8,
        (x >> 40) as u8,
        (x >> 32) as u8,
        (x >> 24) as u8,
        (x >> 16) as u8,
        (x >> 8) as u8,
        x as u8,
    ]
}

/// The byte tail of a full-box header: one version byte and three flag bytes.
pub open spec fn spec_version_flags(version: u8, flags: u32) -> Seq<u8> {
    seq![version, (flags >> 16) as u8, (flags >> 8) as u8, flags as u8]
}

pub fn push_u8(out: &mut Vec<u8>, x: u8)
    ensures
        final(out)@ == old(out)@ + seq![x],
{
    out.push(x);
    assert(out@ =~= old(out)@ + seq![x]);
}

pub fn push_u16(out: &mut Vec<u8>, x: u16)
    ensures
        final(out)@ == old(out)@ + spec_u16_be(x),
{
    out.push((x >> 8) as u8);
    out.push(x as u8);
    assert(out@ =~= old(out)@ + spec_u16_be(x));
}

pub fn push_u32(out: &mut Vec<u8>, x: u32)
    ensures
        final(out)@ == old(out)@ + spec_u32_be(x),
{
    out.push((x >> 24) as u8);
    out.push((x >> 16) as u8);
    out.push((x >> 8) as u8);
    out.push(x as u8);
    assert(out@ =~= old(out)@ + spec_u32_be(x));
}

pub fn push_u64(out: &mut Vec<u8>, x: u64)
    ensures
        final(out)@ == old(out)@ + spec_u64_be(x),
{
    out.push((x >> 56) as u8);
    out.push((x >> 48) as u8);
    out.push((x >> 40) as u8);
    out.push((x >> 32) as u8);
    out.push((x >> 24) as u8);
    out.push((x >> 16) as u8);
    out.push((x >> 8) as u8);
    out.push(x as u8);
    assert(out@ =~= old(out)@ + spec_u64_be(x));
}

/// Appends a whole byte slice.
pub fn push_bytes(out: &mut Vec<u8>, s: &[u8])
    ensures
        final(out)@ == old(out)@ + s@,
{
    let n = s.len();
    let mut i: usize = 0;
    while i < n
        invariant
            n == s@.len(),
            i <= n,
            out@ == old(out)@ + s@.subrange(0, i as int),
        decreases n - i,
    {
        out.push(s[i]);
        i = i + 1;
        assert(out@ =~= old(out)@ + s@.subrange(0, i as int));
    }
    assert(out@ =~= old(out)@ + s@);
}

/// Basic box header: 32-bit total size followed by the four-byte type tag.
pub fn push_box_header(out: &mut Vec<u8>, size: u32, typ: [u8; 4])
    ensures
        final(out)@ == old(out)@ + spec_u32_be(size) + typ@,
{
    push_u32(out, size);
    push_bytes(out, typ.as_slice());
}

/// Full box header: basic header plus a version byte and 24-bit flags.
pub fn push_full_box_header(out: &mut Vec<u8>, size: u32, typ: [u8; 4], version: u8, flags: u32)
    ensures
        final(out)@ == old(out)@ + spec_u32_be(size) + typ@ + spec_version_flags(version, flags),
{
    push_u32(out, size);
    push_bytes(out, typ.as_slice());
    out.push(version);
    out.push((flags >> 16) as u8);
    out.push((flags >> 8) as u8);
    out.push(flags as u8);
    assert(out@ =~= old(out)@ + spec_u32_be(size) + typ@ + spec_version_flags(version, flags));
}

} // verus!
