use vstd::prelude::*;

verus! {

/// Little-endian byte encoding of a `u16`: low byte first.
pub open spec fn u16_le(x: u16) -> Seq<u8> {
    seq![(x & 0xff) as u8, ((x >> 8) & 0xff) as u8]
}

/// Little-endian byte encoding of a `u64`: low byte first.
pub open spec fn u64_le(x: u64) -> Seq<u8> {
    seq![
        (x & 0xff) as u8,
        ((x >> 8) & 0xff) as u8,
        ((x >> 16) & 0xff) as u8,
        ((x >> 24) & 0xff) as u8,
        ((x >> 32) & 0xff) as u8,
        ((x >> 40) & 0xff) as u8,
        ((x >> 48) & 0xff) as u8,
        ((x >> 56) & 0xff) as u8,
    ]
}

/// The two's-complement reading of a signed 64-bit integer as a `u64`.
pub open spec fn as_twos_complement(x: i64) -> u64 {
    if x >= 0 {
        x as u64
    } else {
        (x + 0x1_0000_0000_0000_0000) as u64
    }
}

/// Little-endian byte encoding of an `i64`: the bytes of its two's complement.
pub open spec fn i64_le(x: i64) -> Seq<u8> {
    u64_le(as_twos_complement(x))
}

pub fn u16_to_le(x: u16) -> (r: Vec<u8>)
    ensures
        r@ == u16_le(x),
{
    let mut v: Vec<u8> = Vec::new();
    assert(x & 0xff < 256) by (bit_vector);
    assert((x >> 8) & 0xff < 256) by (bit_vector);
    v.push((x & 0xff) as u8);
    v.push(((x >> 8) & 0xff) as u8);
    proof {
        assert(v@ =~= u16_le(x));
    }
    v
}

pub fn u64_to_le(x: u64) -> (r: Vec<u8>)
    ensures
        r@ == u64_le(x),
{
    let mut v: Vec<u8> = Vec::new();
    assert(x & 0xff < 256) by (bit_vector);
    assert((x >> 8) & 0xff < 256) by (bit_vector);
    assert((x >> 16) & 0xff < 256) by (bit_vector);
    assert((x >> 24) & 0xff < 256) by (bit_vector);
    assert((x >> 32) & 0xff < 256) by (bit_vector);
    assert((x >> 40) & 0xff < 256) by (bit_vector);
    assert((x >> 48) & 0xff < 256) by (bit_vector);
    assert((x >> 56) & 0xff < 256) by (bit_vector);
    v.push((x & 0xff) as u8);
    v.push(((x >> 8) & 0xff) as u8);
    v.push(((x >> 16) & 0xff) as u8);
    v.push(((x >> 24) & 0xff) as u8);
    v.push(((x >> 32) & 0xff) as u8);
    v.push(((x >> 40) & 0xff) as u8);
    v.push(((x >> 48) & 0xff) as u8);
    v.push(((x >> 56) & 0xff) as u8);
    proof {
        assert(v@ =~= u64_le(x));
    }
    v
}

pub fn i64_to_le(x: i64) -> (r: Vec<u8>)
    ensures
        r@ == i64_le(x),
{
    let ux: u64 = if x >= 0 {
        x as u64
    } else {
        // two's complement of a negative value: 2^64 + x, computed without
        // leaving the range of either type
        u64::MAX - ((-(x + 1)) as u64)
    };
    proof {
        assert(ux == as_twos_complement(x));
    }
    u64_to_le(ux)
}

/// Append every byte of a fixed-size array to `v`.
pub fn push_array<const N: usize>(v: &mut Vec<u8>, a: &[u8; N])
    ensures
        final(v)@ == old(v)@ + a@,
{
    let mut i: usize = 0;
    while i < N
        invariant
            i <= N,
            v@ == old(v)@ + a@.subrange(0, i as int),
        decreases N - i,
    {
        v.push(a[i]);
        i = i + 1;
    }
    proof {
        assert(a@.subrange(0, N as int) =~= a@);
    }
}

/// Append every byte of `s` to `v`.
pub fn push_bytes(v: &mut Vec<u8>, s: &Vec<u8>)
    ensures
        final(v)@ == old(v)@ + s@,
{
    let mut i: usize = 0;
    while i < s.len()
        invariant
            i <= s@.len(),
            v@ == old(v)@ + s@.subrange(0, i as int),
        decreases s@.len() - i,
    {
        v.push(s[i]);
        i = i + 1;
    }
    proof {
        assert(s@.subrange(0, s@.len() as int) =~= s@);
    }
}

} // verus!
