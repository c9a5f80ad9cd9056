//! Little-endian integers as they travel on the bus.
use vstd::prelude::*;

verus! {

/// The value of two bytes read as a little-endian integer.
pub open spec fn le_u16_value(b: Seq<u8>) -> int {
    b[0] + 256 * b[1]
}

/// The value of four bytes read as a little-endian integer.
pub open spec fn le_u32_value(b: Seq<u8>) -> int {
    b[0] + 256 * b[1] + 65536 * b[2] + 16777216 * b[3]
}

/// The four bytes of `v`, least significant first.
pub open spec fn u32_le_bytes(v: u32) -> Seq<u8> {
    seq![
        (v % 256) as u8,
        ((v / 256) % 256) as u8,
        ((v / 65536) % 256) as u8,
        (v / 16777216) as u8,
    ]
}

/// The little-endian bytes of each value, one value after the other.
pub open spec fn u32s_le_bytes(vs: Seq<u32>) -> Seq<u8>
    decreases vs.len(),
{
    if vs.len() == 0 {
        Seq::empty()
    } else {
        u32s_le_bytes(vs.drop_last()) + u32_le_bytes(vs.last())
    }
}

/// Reads two bytes as a little-endian `u16`.
pub fn u16_from_le(b: &[u8]) -> (v: u16)
    requires
        b@.len() == 2,
    ensures
        v == le_u16_value(b@),
{
    let lo: u16 = b[0] as u16;
    let hi: u16 = b[1] as u16;
    lo + hi * 256
}

/// Reads four bytes as a little-endian `u32`.
pub fn u32_from_le(b: &[u8]) -> (v: u32)
    requires
        b@.len() == 4,
    ensures
        v == le_u32_value(b@),
{
    let b0: u32 = b[0] as u32;
    let b1: u32 = b[1] as u32;
    let b2: u32 = b[2] as u32;
    let b3: u32 = b[3] as u32;
    b0 + b1 * 256 + b2 * 65536 + b3 * 16777216
}

/// Appends the four little-endian bytes of `v`.
pub fn push_u32_le(out: &mut Vec<u8>, v: u32)
    ensures
        final(out)@ == old(out)@ + u32_le_bytes(v),
{
    out.push((v % 256) as u8);
    out.push(((v / 256) % 256) as u8);
    out.push(((v / 65536) % 256) as u8);
    out.push((v / 16777216) as u8);
    assert(final(out)@ =~= old(out)@ + u32_le_bytes(v));
}

/// The little-endian bytes of every value, in order.
pub fn u32s_to_le(vs: &[u32]) -> (out: Vec<u8>)
    ensures
        out@ == u32s_le_bytes(vs@),
{
    let mut out: Vec<u8> = Vec::new();
    let mut i: usize = 0;
    while i < vs.len()
        invariant
            i <= vs@.len(),
            out@ == u32s_le_bytes(vs@.take(i as int)),
        decreases vs@.len() - i,
    {
        assert(vs@.take(i as int + 1).drop_last() =~= vs@.take(i as int));
        push_u32_le(&mut out, vs[i]);
        i = i + 1;
    }
    assert(vs@.take(i as int) =~= vs@);
    out
}

/// Reading back the bytes that `u32_le_bytes` gives yields the value again.
pub proof fn lemma_u32_le_roundtrip(v: u32)
    ensures
        u32_le_bytes(v).len() == 4,
        le_u32_value(u32_le_bytes(v)) == v,
{
    let b = u32_le_bytes(v);
    assert(b[0] == v % 256);
    assert(b[1] == (v / 256) % 256);
    assert(b[2] == (v / 65536) % 256);
    assert(b[3] == v / 16777216);
    assert(v % 256 + 256 * ((v / 256) % 256) + 65536 * ((v / 65536) % 256) + 16777216 * (v
        / 16777216) == v) by (nonlinear_arith);
}

/// `u32s_le_bytes` gives four bytes per value.
pub proof fn lemma_u32s_le_len(vs: Seq<u32>)
    ensures
        u32s_le_bytes(vs).len() == 4 * vs.len(),
    decreases vs.len(),
{
    if vs.len() > 0 {
        lemma_u32s_le_len(vs.drop_last());
    }
}

/// The `i`-th group of four bytes of `u32s_le_bytes(vs)` reads back as `vs[i]`.
pub proof fn law_u32s_le_readback(vs: Seq<u32>, i: int)
    requires
        0 <= i < vs.len(),
    ensures
        u32s_le_bytes(vs).len() == 4 * vs.len(),
        u32s_le_bytes(vs).subrange(4 * i, 4 * i + 4) == u32_le_bytes(vs[i]),
        le_u32_value(u32s_le_bytes(vs).subrange(4 * i, 4 * i + 4)) == vs[i],
    decreases vs.len(),
{
    lemma_u32s_le_len(vs);
    lemma_u32_le_roundtrip(vs[i]);
    let init = vs.drop_last();
    lemma_u32s_le_len(init);
    if i == vs.len() - 1 {
        assert(u32s_le_bytes(vs).subrange(4 * i, 4 * i + 4) =~= u32_le_bytes(vs[i]));
    } else {
        law_u32s_le_readback(init, i);
        assert(u32s_le_bytes(vs).subrange(4 * i, 4 * i + 4) =~= u32s_le_bytes(init).subrange(
            4 * i,
            4 * i + 4,
        ));
    }
}

} // verus!
