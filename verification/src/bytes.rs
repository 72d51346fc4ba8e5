use vstd::prelude::*;

verus! {

/// The little-endian byte image of a 64-bit value.
pub open spec fn u64_le_bytes(x: u64) -> Seq<u8> {
    seq![
        (x & 0xff) as u8,
        ((x >> 8) & 0xff) as u8,
        ((x >> 16) & 0xff) as u8,
        ((x >> 24) & 0xff) as u8,
        ((x >> 32) & 0xff) as u8,
        ((x >> 40) & 0xff) as u8,
        ((x >> 48) & 0xff) as u8,
        ((x >> 56) & 0xff) as u8,
    ]
}

/// The little-endian byte image of a 128-bit value.
pub open spec fn u128_le_bytes(x: u128) -> Seq<u8> {
    seq![
        (x & 0xff) as u8,
        ((x >> 8) & 0xff) as u8,
        ((x >> 16) & 0xff) as u8,
        ((x >> 24) & 0xff) as u8,
        ((x >> 32) & 0xff) as u8,
        ((x >> 40) & 0xff) as u8,
        ((x >> 48) & 0xff) as u8,
        ((x >> 56) & 0xff) as u8,
        ((x >> 64) & 0xff) as u8,
        ((x >> 72) & 0xff) as u8,
        ((x >> 80) & 0xff) as u8,
        ((x >> 88) & 0xff) as u8,
        ((x >> 96) & 0xff) as u8,
        ((x >> 104) & 0xff) as u8,
        ((x >> 112) & 0xff) as u8,
        ((x >> 120) & 0xff) as u8,
    ]
}

/// The single byte that stands for a boolean in the forwarded payload.
pub open spec fn bool_byte(b: bool) -> u8 {
    if b { 1 } else { 0 }
}

/// The 32-bit value read little-endian from the first four bytes of `b`.
pub open spec fn u32_from_le(b: Seq<u8>) -> u32
    recommends
        b.len() >= 4,
{
    (b[0] as u32) | ((b[1] as u32) << 8) | ((b[2] as u32) << 16) | ((b[3] as u32) << 24)
}

/// The signed 32-bit value read little-endian from the first four bytes of `b`.
pub open spec fn i32_from_le(b: Seq<u8>) -> i32
    recommends
        b.len() >= 4,
{
    u32_from_le(b) as i32
}

/// The 64-bit value read little-endian from the first eight bytes of `b`.
pub open spec fn u64_from_le(b: Seq<u8>) -> u64
    recommends
        b.len() >= 8,
{
    (b[0] as u64) | ((b[1] as u64) << 8) | ((b[2] as u64) << 16) | ((b[3] as u64) << 24)
        | ((b[4] as u64) << 32) | ((b[5] as u64) << 40) | ((b[6] as u64) << 48)
        | ((b[7] as u64) << 56)
}

/// Appends the little-endian image of `x` to `v`.
pub fn push_u64_le(v: &mut Vec<u8>, x: u64)
    ensures
        final(v)@ == old(v)@ + u64_le_bytes(x),
{
    v.push((x & 0xff) as u8);
    v.push(((x >> 8) & 0xff) as u8);
    v.push(((x >> 16) & 0xff) as u8);
    v.push(((x >> 24) & 0xff) as u8);
    v.push(((x >> 32) & 0xff) as u8);
    v.push(((x >> 40) & 0xff) as u8);
    v.push(((x >> 48) & 0xff) as u8);
    v.push(((x >> 56) & 0xff) as u8);
    assert(v@ =~= old(v)@ + u64_le_bytes(x));
}

/// Appends the little-endian image of `x` to `v`.
pub fn push_u128_le(v: &mut Vec<u8>, x: u128)
    ensures
        final(v)@ == old(v)@ + u128_le_bytes(x),
{
    v.push((x & 0xff) as u8);
    v.push(((x >> 8) & 0xff) as u8);
    v.push(((x >> 16) & 0xff) as u8);
    v.push(((x >> 24) & 0xff) as u8);
    v.push(((x >> 32) & 0xff) as u8);
    v.push(((x >> 40) & 0xff) as u8);
    v.push(((x >> 48) & 0xff) as u8);
    v.push(((x >> 56) & 0xff) as u8);
    v.push(((x >> 64) & 0xff) as u8);
    v.push(((x >> 72) & 0xff) as u8);
    v.push(((x >> 80) & 0xff) as u8);
    v.push(((x >> 88) & 0xff) as u8);
    v.push(((x >> 96) & 0xff) as u8);
    v.push(((x >> 104) & 0xff) as u8);
    v.push(((x >> 112) & 0xff) as u8);
    v.push(((x >> 120) & 0xff) as u8);
    assert(v@ =~= old(v)@ + u128_le_bytes(x));
}

/// Reads the signed 32-bit value stored little-endian at `off`.
pub fn read_i32_le(data: &Vec<u8>, off: usize) -> (r: i32)
    requires
        off + 4 <= data@.len(),
    ensures
        r == i32_from_le(data@.subrange(off as int, off as int + 4)),
{
    let _total: usize = data.len();
    let b0 = data[off];
    let b1 = data[off + 1];
    let b2 = data[off + 2];
    let b3 = data[off + 3];
    let n: u32 = (b0 as u32) | ((b1 as u32) << 8) | ((b2 as u32) << 16) | ((b3 as u32) << 24);
    proof {
        let s = data@.subrange(off as int, off as int + 4);
        assert(s[0] == b0 && s[1] == b1 && s[2] == b2 && s[3] == b3);
    }
    #[verifier::truncate] (n as i32)
}

/// Reads the 64-bit value stored little-endian at `off`.
pub fn read_u64_le(data: &Vec<u8>, off: usize) -> (r: u64)
    requires
        off + 8 <= data@.len(),
    ensures
        r == u64_from_le(data@.subrange(off as int, off as int + 8)),
{
    let _total: usize = data.len();
    let b0 = data[off];
    let b1 = data[off + 1];
    let b2 = data[off + 2];
    let b3 = data[off + 3];
    let b4 = data[off + 4];
    let b5 = data[off + 5];
    let b6 = data[off + 6];
    let b7 = data[off + 7];
    let n: u64 = (b0 as u64) | ((b1 as u64) << 8) | ((b2 as u64) << 16) | ((b3 as u64) << 24)
        | ((b4 as u64) << 32) | ((b5 as u64) << 40) | ((b6 as u64) << 48) | ((b7 as u64) << 56);
    proof {
        let s = data@.subrange(off as int, off as int + 8);
        assert(s[0] == b0 && s[1] == b1 && s[2] == b2 && s[3] == b3);
        assert(s[4] == b4 && s[5] == b5 && s[6] == b6 && s[7] == b7);
    }
    n
}

/// A value is pinned down by its little-endian image: equal images mean
/// equal 64-bit values.
pub proof fn lemma_u64_le_bytes_injective(x: u64, y: u64)
    requires
        u64_le_bytes(x) == u64_le_bytes(y),
    ensures
        x == y,
{
    assert(u64_le_bytes(x)[0] == u64_le_bytes(y)[0]);
    assert(u64_le_bytes(x)[1] == u64_le_bytes(y)[1]);
    assert(u64_le_bytes(x)[2] == u64_le_bytes(y)[2]);
    assert(u64_le_bytes(x)[3] == u64_le_bytes(y)[3]);
    assert(u64_le_bytes(x)[4] == u64_le_bytes(y)[4]);
    assert(u64_le_bytes(x)[5] == u64_le_bytes(y)[5]);
    assert(u64_le_bytes(x)[6] == u64_le_bytes(y)[6]);
    assert(u64_le_bytes(x)[7] == u64_le_bytes(y)[7]);
    assert(x == y) by (bit_vector)
        requires
            (x & 0xff) as u8 == (y & 0xff) as u8,
            ((x >> 8) & 0xff) as u8 == ((y >> 8) & 0xff) as u8,
            ((x >> 16) & 0xff) as u8 == ((y >> 16) & 0xff) as u8,
            ((x >> 24) & 0xff) as u8 == ((y >> 24) & 0xff) as u8,
            ((x >> 32) & 0xff) as u8 == ((y >> 32) & 0xff) as u8,
            ((x >> 40) & 0xff) as u8 == ((y >> 40) & 0xff) as u8,
            ((x >> 48) & 0xff) as u8 == ((y >> 48) & 0xff) as u8,
            ((x >> 56) & 0xff) as u8 == ((y >> 56) & 0xff) as u8,
    ;
}

/// A value is pinned down by its little-endian image: equal images mean
/// equal 128-bit values.
pub proof fn lemma_u128_le_bytes_injective(x: u128, y: u128)
    requires
        u128_le_bytes(x) == u128_le_bytes(y),
    ensures
        x == y,
{
    assert(u128_le_bytes(x)[0] == u128_le_bytes(y)[0]);
    assert(u128_le_bytes(x)[1] == u128_le_bytes(y)[1]);
    assert(u128_le_bytes(x)[2] == u128_le_bytes(y)[2]);
    assert(u128_le_bytes(x)[3] == u128_le_bytes(y)[3]);
    assert(u128_le_bytes(x)[4] == u128_le_bytes(y)[4]);
    assert(u128_le_bytes(x)[5] == u128_le_bytes(y)[5]);
    assert(u128_le_bytes(x)[6] == u128_le_bytes(y)[6]);
    assert(u128_le_bytes(x)[7] == u128_le_bytes(y)[7]);
    assert(u128_le_bytes(x)[8] == u128_le_bytes(y)[8]);
    assert(u128_le_bytes(x)[9] == u128_le_bytes(y)[9]);
    assert(u128_le_bytes(x)[10] == u128_le_bytes(y)[10]);
    assert(u128_le_bytes(x)[11] == u128_le_bytes(y)[11]);
    assert(u128_le_bytes(x)[12] == u128_le_bytes(y)[12]);
    assert(u128_le_bytes(x)[13] == u128_le_bytes(y)[13]);
    assert(u128_le_bytes(x)[14] == u128_le_bytes(y)[14]);
    assert(u128_le_bytes(x)[15] == u128_le_bytes(y)[15]);
    assert(x == y) by (bit_vector)
        requires
            (x & 0xff) as u8 == (y & 0xff) as u8,
            ((x >> 8) & 0xff) as u8 == ((y >> 8) & 0xff) as u8,
            ((x >> 16) & 0xff) as u8 == ((y >> 16) & 0xff) as u8,
            ((x >> 24) & 0xff) as u8 == ((y >> 24) & 0xff) as u8,
            ((x >> 32) & 0xff) as u8 == ((y >> 32) & 0xff) as u8,
            ((x >> 40) & 0xff) as u8 == ((y >> 40) & 0xff) as u8,
            ((x >> 48) & 0xff) as u8 == ((y >> 48) & 0xff) as u8,
            ((x >> 56) & 0xff) as u8 == ((y >> 56) & 0xff) as u8,
            ((x >> 64) & 0xff) as u8 == ((y >> 64) & 0xff) as u8,
            ((x >> 72) & 0xff) as u8 == ((y >> 72) & 0xff) as u8,
            ((x >> 80) & 0xff) as u8 == ((y >> 80) & 0xff) as u8,
            ((x >> 88) & 0xff) as u8 == ((y >> 88) & 0xff) as u8,
            ((x >> 96) & 0xff) as u8 == ((y >> 96) & 0xff) as u8,
            ((x >> 104) & 0xff) as u8 == ((y >> 104) & 0xff) as u8,
            ((x >> 112) & 0xff) as u8 == ((y >> 112) & 0xff) as u8,
            ((x >> 120) & 0xff) as u8 == ((y >> 120) & 0xff) as u8,
    ;
}

} // verus!
