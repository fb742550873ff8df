use vstd::prelude::*;

verus! {

/// Value of four big-endian bytes, read as an unsigned 32-bit integer.
pub open spec fn be_u32(s: Seq<u8>) -> int
    recommends
        s.len() >= 4,
{
    s[0] * 0x100_0000 + s[1] * 0x1_0000 + s[2] * 0x100 + s[3]
}

/// Value of eight big-endian bytes, read as an unsigned 64-bit integer.
pub open spec fn be_u64(s: Seq<u8>) -> int
    recommends
        s.len() >= 8,
{
    s[0] * 0x100_0000_0000_0000 + s[1] * 0x1_0000_0000_0000 + s[2] * 0x100_0000_0000 + s[3]
        * 0x1_0000_0000 + s[4] * 0x100_0000 + s[5] * 0x1_0000 + s[6] * 0x100 + s[7]
}

/// The signed 32-bit value whose two's-complement bit pattern is `n`.
pub open spec fn to_signed_32(n: int) -> int
    recommends
        0 <= n < 0x1_0000_0000,
{
    if n < 0x8000_0000 {
        n
    } else {
        n - 0x1_0000_0000
    }
}

/// The signed 64-bit value whose two's-complement bit pattern is `n`.
pub open spec fn to_signed_64(n: int) -> int
    recommends
        0 <= n < 0x1_0000_0000_0000_0000,
{
    if n < 0x8000_0000_0000_0000 {
        n
    } else {
        n - 0x1_0000_0000_0000_0000
    }
}

/// Value of four big-endian bytes, read as a signed 32-bit integer.
pub open spec fn be_i32(s: Seq<u8>) -> int
    recommends
        s.len() >= 4,
{
    to_signed_32(be_u32(s))
}

/// Value of eight big-endian bytes, read as a signed 64-bit integer.
pub open spec fn be_i64(s: Seq<u8>) -> int
    recommends
        s.len() >= 8,
{
    to_signed_64(be_u64(s))
}

/// Read the first four bytes of `v` as a big-endian unsigned integer.
pub fn read_be_u32(v: &Vec<u8>) -> (r: u32)
    requires
        v@.len() >= 4,
    ensures
        r == be_u32(v@),
{
    let b0: u32 = v[0] as u32;
    let b1: u32 = v[1] as u32;
    let b2: u32 = v[2] as u32;
    let b3: u32 = v[3] as u32;
    b0 * 0x100_0000 + b1 * 0x1_0000 + b2 * 0x100 + b3
}

/// Read the first eight bytes of `v` as a big-endian unsigned integer.
pub fn read_be_u64(v: &Vec<u8>) -> (r: u64)
    requires
        v@.len() >= 8,
    ensures
        r == be_u64(v@),
{
    let b0: u64 = v[0] as u64;
    let b1: u64 = v[1] as u64;
    let b2: u64 = v[2] as u64;
    let b3: u64 = v[3] as u64;
    let b4: u64 = v[4] as u64;
    let b5: u64 = v[5] as u64;
    let b6: u64 = v[6] as u64;
    let b7: u64 = v[7] as u64;
    b0 * 0x100_0000_0000_0000 + b1 * 0x1_0000_0000_0000 + b2 * 0x100_0000_0000 + b3 * 0x1_0000_0000
        + b4 * 0x100_0000 + b5 * 0x1_0000 + b6 * 0x100 + b7
}

/// Reinterpret an unsigned 32-bit value as the signed value with the same
/// two's-complement bit pattern.
pub fn u32_as_i32(v: u32) -> (r: i32)
    ensures
        r == to_signed_32(v as int),
{
    if v < 0x8000_0000 {
        v as i32
    } else {
        ((v - 0x8000_0000) as i32) + i32::MIN
    }
}

/// Reinterpret an unsigned 64-bit value as the signed value with the same
/// two's-complement bit pattern.
pub fn u64_as_i64(v: u64) -> (r: i64)
    ensures
        r == to_signed_64(v as int),
{
    if v < 0x8000_0000_0000_0000 {
        v as i64
    } else {
        ((v - 0x8000_0000_0000_0000) as i64) + i64::MIN
    }
}

/// Read the first four bytes of `v` as a big-endian signed integer.
pub fn read_be_i32(v: &Vec<u8>) -> (r: i32)
    requires
        v@.len() >= 4,
    ensures
        r == be_i32(v@),
{
    u32_as_i32(read_be_u32(v))
}

/// Read the first eight bytes of `v` as a big-endian signed integer.
pub fn read_be_i64(v: &Vec<u8>) -> (r: i64)
    requires
        v@.len() >= 8,
    ensures
        r == be_i64(v@),
{
    u64_as_i64(read_be_u64(v))
}

/// Copy of `v` without its first `n` bytes.
pub fn skip_front(v: &Vec<u8>, n: usize) -> (r: Vec<u8>)
    requires
        n <= v@.len(),
    ensures
        r@ == v@.skip(n as int),
{
    let mut r: Vec<u8> = Vec::new();
    let mut i: usize = n;
    while i < v.len()
        invariant
            n <= i <= v@.len(),
            r@ == v@.subrange(n as int, i as int),
        decreases v@.len() - i,
    {
        r.push(v[i]);
        i = i + 1;
    }
    assert(v@.subrange(n as int, v@.len() as int) =~= v@.skip(n as int));
    r
}

/// Copy of the first `n` bytes of `v`.
pub fn take_front(v: &Vec<u8>, n: usize) -> (r: Vec<u8>)
    requires
        n <= v@.len(),
    ensures
        r@ == v@.take(n as int),
{
    let mut r: Vec<u8> = Vec::new();
    let mut i: usize = 0;
    while i < n
        invariant
            i <= n <= v@.len(),
            r@ == v@.subrange(0, i as int),
        decreases n - i,
    {
        r.push(v[i]);
        i = i + 1;
    }
    assert(v@.subrange(0, n as int) =~= v@.take(n as int));
    r
}

} // verus!
