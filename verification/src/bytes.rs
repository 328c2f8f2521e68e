use vstd::prelude::*;

verus! {

/// The value of four bytes read as a little-endian 32-bit integer.
pub open spec fn le32(b: Seq<u8>) -> u32
    recommends
        b.len() == 4,
{
    (b[0] as u32) | ((b[1] as u32) << 8) | ((b[2] as u32) << 16) | ((b[3] as u32) << 24)
}

/// The value of eight bytes read as a little-endian 64-bit integer.
pub open spec fn le64(b: Seq<u8>) -> u64
    recommends
        b.len() == 8,
{
    (b[0] as u64) | ((b[1] as u64) << 8) | ((b[2] as u64) << 16) | ((b[3] as u64) << 24)
        | ((b[4] as u64) << 32) | ((b[5] as u64) << 40) | ((b[6] as u64) << 48)
        | ((b[7] as u64) << 56)
}

/// Reads the little-endian 32-bit value stored at `off` in `buf`.
pub fn read_le32(buf: &[u8], off: usize) -> (r: u32)
    requires
        off + 4 <= buf@.len(),
    ensures
        r == le32(buf@.subrange(off as int, off as int + 4)),
{
    let b0 = buf[off];
    let b1 = buf[off + 1];
    let b2 = buf[off + 2];
    let b3 = buf[off + 3];
    proof {
        let s = buf@.subrange(off as int, off as int + 4);
        assert(s[0] == b0 && s[1] == b1 && s[2] == b2 && s[3] == b3);
    }
    (b0 as u32) | ((b1 as u32) << 8) | ((b2 as u32) << 16) | ((b3 as u32) << 24)
}

/// Reads the little-endian 64-bit value stored at `off` in `buf`.
pub fn read_le64(buf: &[u8], off: usize) -> (r: u64)
    requires
        off + 8 <= buf@.len(),
    ensures
        r == le64(buf@.subrange(off as int, off as int + 8)),
{
    let b0 = buf[off];
    let b1 = buf[off + 1];
    let b2 = buf[off + 2];
    let b3 = buf[off + 3];
    let b4 = buf[off + 4];
    let b5 = buf[off + 5];
    let b6 = buf[off + 6];
    let b7 = buf[off + 7];
    proof {
        let s = buf@.subrange(off as int, off as int + 8);
        assert(s[0] == b0 && s[1] == b1 && s[2] == b2 && s[3] == b3);
        assert(s[4] == b4 && s[5] == b5 && s[6] == b6 && s[7] == b7);
    }
    (b0 as u64) | ((b1 as u64) << 8) | ((b2 as u64) << 16) | ((b3 as u64) << 24)
        | ((b4 as u64) << 32) | ((b5 as u64) << 40) | ((b6 as u64) << 48) | ((b7 as u64) << 56)
}

/// Stores `v` at `off` in `buf` as four little-endian bytes; every byte
/// outside that window keeps its old value.
pub fn write_le32(buf: &mut Vec<u8>, off: usize, v: u32)
    requires
        off + 4 <= old(buf)@.len(),
    ensures
        final(buf)@.len() == old(buf)@.len(),
        le32(final(buf)@.subrange(off as int, off as int + 4)) == v,
        forall|i: int|
            0 <= i < final(buf)@.len() && !(off <= i < off + 4) ==> final(buf)@[i] == old(
                buf,
            )@[i],
{
    // the length, read as a machine word, bounds the offsets written below
    let _n = buf.len();
    let b0 = #[verifier::truncate] ((v & 0xff) as u8);
    let b1 = #[verifier::truncate] (((v >> 8) & 0xff) as u8);
    let b2 = #[verifier::truncate] (((v >> 16) & 0xff) as u8);
    let b3 = #[verifier::truncate] (((v >> 24) & 0xff) as u8);
    buf[off] = b0;
    buf[off + 1] = b1;
    buf[off + 2] = b2;
    buf[off + 3] = b3;
    proof {
        let s = buf@.subrange(off as int, off as int + 4);
        assert(s[0] == b0 && s[1] == b1 && s[2] == b2 && s[3] == b3);
        assert(((v & 0xff) as u8 as u32) | (((v >> 8) & 0xff) as u8 as u32) << 8
            | (((v >> 16) & 0xff) as u8 as u32) << 16 | (((v >> 24) & 0xff) as u8 as u32) << 24
            == v) by (bit_vector);
    }
}

/// Stores `v` at `off` in `buf` as eight little-endian bytes; every byte
/// outside that window keeps its old value.
pub fn write_le64(buf: &mut Vec<u8>, off: usize, v: u64)
    requires
        off + 8 <= old(buf)@.len(),
    ensures
        final(buf)@.len() == old(buf)@.len(),
        le64(final(buf)@.subrange(off as int, off as int + 8)) == v,
        forall|i: int|
            0 <= i < final(buf)@.len() && !(off <= i < off + 8) ==> final(buf)@[i] == old(
                buf,
            )@[i],
{
    // the length, read as a machine word, bounds the offsets written below
    let _n = buf.len();
    let b0 = #[verifier::truncate] ((v & 0xff) as u8);
    let b1 = #[verifier::truncate] (((v >> 8) & 0xff) as u8);
    let b2 = #[verifier::truncate] (((v >> 16) & 0xff) as u8);
    let b3 = #[verifier::truncate] (((v >> 24) & 0xff) as u8);
    let b4 = #[verifier::truncate] (((v >> 32) & 0xff) as u8);
    let b5 = #[verifier::truncate] (((v >> 40) & 0xff) as u8);
    let b6 = #[verifier::truncate] (((v >> 48) & 0xff) as u8);
    let b7 = #[verifier::truncate] (((v >> 56) & 0xff) as u8);
    buf[off] = b0;
    buf[off + 1] = b1;
    buf[off + 2] = b2;
    buf[off + 3] = b3;
    buf[off + 4] = b4;
    buf[off + 5] = b5;
    buf[off + 6] = b6;
    buf[off + 7] = b7;
    proof {
        let s = buf@.subrange(off as int, off as int + 8);
        assert(s[0] == b0 && s[1] == b1 && s[2] == b2 && s[3] == b3);
        assert(s[4] == b4 && s[5] == b5 && s[6] == b6 && s[7] == b7);
        assert(((v & 0xff) as u8 as u64) | (((v >> 8) & 0xff) as u8 as u64) << 8
            | (((v >> 16) & 0xff) as u8 as u64) << 16 | (((v >> 24) & 0xff) as u8 as u64) << 24
            | (((v >> 32) & 0xff) as u8 as u64) << 32 | (((v >> 40) & 0xff) as u8 as u64) << 40
            | (((v >> 48) & 0xff) as u8 as u64) << 48 | (((v >> 56) & 0xff) as u8 as u64) << 56
            == v) by (bit_vector);
    }
}

} // verus!
