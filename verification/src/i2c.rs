//! Framing of the block transfers on the I2C bus.
use vstd::prelude::*;

verus! {

/// The bytes of a block write: the register, the number of data bytes, then
/// the data.
pub open spec fn write_frame(reg: u8, data: Seq<u8>) -> Seq<u8> {
    seq![reg, data.len() as u8] + data
}

/// Frames a block write of at most 255 bytes.
pub fn block_write_frame(reg: u8, data: &[u8]) -> (r: Vec<u8>)
    requires
        data@.len() <= 255,
    ensures
        r@ == write_frame(reg, data@),
        r@.len() == data@.len() + 2,
        r@[0] == reg,
        r@[1] as int == data@.len(),
        r@.subrange(2, r@.len() as int) == data@,
{
    let mut buf: Vec<u8> = Vec::new();
    buf.push(reg);
    buf.push(data.len() as u8);
    let mut i: usize = 0;
    while i < data.len()
        invariant
            i <= data@.len(),
            data@.len() <= 255,
            buf@ == seq![reg, data@.len() as u8] + data@.take(i as int),
        decreases data@.len() - i,
    {
        buf.push(data[i]);
        i = i + 1;
        assert(buf@ =~= seq![reg, data@.len() as u8] + data@.take(i as int));
    }
    assert(data@.take(i as int) =~= data@);
    assert(buf@.subrange(2, buf@.len() as int) =~= data@);
    buf
}

/// A block write frame is the register, then the number of data bytes, then
/// the data unchanged.
pub proof fn law_write_frame_layout(reg: u8, data: Seq<u8>)
    requires
        data.len() <= 255,
    ensures
        write_frame(reg, data).len() == data.len() + 2,
        write_frame(reg, data)[0] == reg,
        write_frame(reg, data)[1] as int == data.len(),
        write_frame(reg, data).subrange(2, data.len() as int + 2) == data,
{
    assert(write_frame(reg, data).subrange(2, data.len() as int + 2) =~= data);
}

/// The data of a block read: the controller answers with a count byte
/// followed by the data; the count byte is skipped.
pub fn block_read_payload(raw: &[u8], len: usize) -> (r: Vec<u8>)
    requires
        raw@.len() == len + 1,
    ensures
        r@ == raw@.subrange(1, len + 1),
{
    let mut out: Vec<u8> = Vec::new();
    let mut i: usize = 1;
    while i <= len
        invariant
            1 <= i <= len + 1,
            raw@.len() == len + 1,
            out@ == raw@.subrange(1, i as int),
        decreases len + 1 - i,
    {
        out.push(raw[i]);
        i = i + 1;
        assert(out@ =~= raw@.subrange(1, i as int));
    }
    out
}

} // verus!
