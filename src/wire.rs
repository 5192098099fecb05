//! Little-endian primitives of the wire format: reading fixed-width integers
//! out of a byte buffer, and the inverse byte encodings used to state
//! round-trip properties.
use vstd::prelude::*;

verus! {

/// The `u16` stored little-endian at `b[i..i + 2]`.
pub open spec fn le_u16(b: Seq<u8>, i: int) -> u16 {
    (b[i] as int + 0x100 * (b[i + 1] as int)) as u16
}

/// The `u32` stored little-endian at `b[i..i + 4]`.
pub open spec fn le_u32(b: Seq<u8>, i: int) -> u32 {
    (b[i] as int + 0x100 * (b[i + 1] as int) + 0x1_0000 * (b[i + 2] as int) + 0x100_0000 * (
    b[i + 3] as int)) as u32
}

/// The `u64` stored little-endian at `b[i..i + 8]`.
pub open spec fn le_u64(b: Seq<u8>, i: int) -> u64 {
    (le_u32(b, i) as int + 0x1_0000_0000 * (le_u32(b, i + 4) as int)) as u64
}

/// The two bytes of `x`, least significant first.
pub open spec fn u16_le_bytes(x: u16) -> Seq<u8> {
    seq![(x % 0x100) as u8, (x / 0x100) as u8]
}

/// The four bytes of `x`, least significant first.
pub open spec fn u32_le_bytes(x: u32) -> Seq<u8> {
    seq![
        (x % 0x100) as u8,
        (x / 0x100 % 0x100) as u8,
        (x / 0x1_0000 % 0x100) as u8,
        (x / 0x100_0000) as u8,
    ]
}

/// The eight bytes of `x`, least significant first.
pub open spec fn u64_le_bytes(x: u64) -> Seq<u8> {
    u32_le_bytes((x % 0x1_0000_0000) as u32) + u32_le_bytes((x / 0x1_0000_0000) as u32)
}

pub fn read_u8(b: &[u8], i: usize) -> (r: u8)
    requires
        i < b.len(),
    ensures
        r == b@[i as int],
{
    b[i]
}

pub fn read_i8(b: &[u8], i: usize) -> (r: i8)
    requires
        i < b.len(),
    ensures
        r == b@[i as int] as i8,
{
    b[i] as i8
}

pub fn read_char(b: &[u8], i: usize) -> (r: char)
    requires
        i < b.len(),
    ensures
        r == b@[i as int] as char,
{
    b[i] as char
}

pub fn read_u16(b: &[u8], i: usize) -> (r: u16)
    requires
        i + 2 <= b.len(),
    ensures
        r == le_u16(b@, i as int),
{
    b[i] as u16 + (b[i + 1] as u16) * 0x100
}

pub fn read_u32(b: &[u8], i: usize) -> (r: u32)
    requires
        i + 4 <= b.len(),
    ensures
        r == le_u32(b@, i as int),
{
    b[i] as u32 + (b[i + 1] as u32) * 0x100 + (b[i + 2] as u32) * 0x1_0000 + (b[i + 3] as u32)
        * 0x100_0000
}

pub fn read_u64(b: &[u8], i: usize) -> (r: u64)
    requires
        i + 8 <= b.len(),
    ensures
        r == le_u64(b@, i as int),
{
    let lo: u32 = read_u32(b, i);
    let hi: u32 = read_u32(b, i + 4);
    lo as u64 + (hi as u64) * 0x1_0000_0000
}

/// A run of `n` single-byte characters starting at `b[i]`.
pub fn read_chars(b: &[u8], i: usize, n: usize) -> (r: Vec<char>)
    requires
        i + n <= b.len(),
    ensures
        r@.len() == n,
        forall|k: int| 0 <= k < n ==> #[trigger] r@[k] == b@[i + k] as char,
{
    let mut r: Vec<char> = Vec::new();
    let mut k: usize = 0;
    while k < n
        invariant
            k <= n,
            i + n <= b.len(),
            r@.len() == k,
            forall|j: int| 0 <= j < k ==> #[trigger] r@[j] == b@[i + j] as char,
        decreases n - k,
    {
        r.push(b[i + k] as char);
        k = k + 1;
    }
    r
}

/// Bytes of `b` from `off` that equal `q + p` split into `q` and then `p`.
pub proof fn lemma_split_at(b: Seq<u8>, off: int, q: Seq<u8>, p: Seq<u8>)
    requires
        0 <= off,
        off + q.len() + p.len() <= b.len(),
        b.subrange(off, off + q.len() + p.len()) == q + p,
    ensures
        b.subrange(off, off + q.len()) == q,
        b.subrange(off + q.len(), off + q.len() + p.len()) == p,
{
    let whole = b.subrange(off, off + q.len() + p.len());
    assert forall|j: int| 0 <= j < q.len() implies #[trigger] b.subrange(off, off + q.len())[j]
        == q[j] by {
        assert(whole[j] == (q + p)[j]);
    }
    assert forall|j: int| 0 <= j < p.len() implies #[trigger] b.subrange(
        off + q.len(),
        off + q.len() + p.len(),
    )[j] == p[j] by {
        assert(whole[q.len() + j] == (q + p)[q.len() + j]);
    }
    assert(b.subrange(off, off + q.len()) =~= q);
    assert(b.subrange(off + q.len(), off + q.len() + p.len()) =~= p);
}

/// A byte equal to the encoding of `x` reads back as `x`.
pub proof fn lemma_u8_at(b: Seq<u8>, i: int, x: u8)
    requires
        0 <= i,
        i + 1 <= b.len(),
        b.subrange(i, i + 1) == seq![x],
    ensures
        b[i] == x,
{
    assert(b.subrange(i, i + 1)[0] == b[i]);
}

/// A byte equal to the encoding of `x` reads back as `x`.
pub proof fn lemma_i8_at(b: Seq<u8>, i: int, x: i8)
    requires
        0 <= i,
        i + 1 <= b.len(),
        b.subrange(i, i + 1) == seq![x as u8],
    ensures
        b[i] as i8 == x,
{
    assert(b.subrange(i, i + 1)[0] == b[i]);
    lemma_i8_byte(x);
}

/// Bytes equal to the encoding of `x` read back as `x`.
pub proof fn lemma_u16_at(b: Seq<u8>, i: int, x: u16)
    requires
        0 <= i,
        i + 2 <= b.len(),
        b.subrange(i, i + 2) == u16_le_bytes(x),
    ensures
        le_u16(b, i) == x,
{
    lemma_u16_le_bytes(x);
    let s = b.subrange(i, i + 2);
    assert(s[0] == b[i] && s[1] == b[i + 1]);
}

/// Bytes equal to the encoding of `x` read back as `x`.
pub proof fn lemma_u32_at(b: Seq<u8>, i: int, x: u32)
    requires
        0 <= i,
        i + 4 <= b.len(),
        b.subrange(i, i + 4) == u32_le_bytes(x),
    ensures
        le_u32(b, i) == x,
{
    lemma_u32_le_bytes(x);
    let s = b.subrange(i, i + 4);
    assert(s[0] == b[i] && s[1] == b[i + 1] && s[2] == b[i + 2] && s[3] == b[i + 3]);
}

/// Bytes equal to the encoding of `x` read back as `x`.
pub proof fn lemma_u64_at(b: Seq<u8>, i: int, x: u64)
    requires
        0 <= i,
        i + 8 <= b.len(),
        b.subrange(i, i + 8) == u64_le_bytes(x),
    ensures
        le_u64(b, i) == x,
{
    lemma_u64_le_bytes(x);
    let s = b.subrange(i, i + 8);
    assert(s[0] == b[i] && s[1] == b[i + 1] && s[2] == b[i + 2] && s[3] == b[i + 3]);
    assert(s[4] == b[i + 4] && s[5] == b[i + 5] && s[6] == b[i + 6] && s[7] == b[i + 7]);
}

/// The encoding of `x` has two bytes and reads back as `x`.
pub proof fn lemma_u16_le_bytes(x: u16)
    ensures
        u16_le_bytes(x).len() == 2,
        le_u16(u16_le_bytes(x), 0) == x,
{
}

/// The encoding of `x` has four bytes and reads back as `x`.
pub proof fn lemma_u32_le_bytes(x: u32)
    ensures
        u32_le_bytes(x).len() == 4,
        le_u32(u32_le_bytes(x), 0) == x,
{
}

/// The encoding of `x` has eight bytes and reads back as `x`.
pub proof fn lemma_u64_le_bytes(x: u64)
    ensures
        u64_le_bytes(x).len() == 8,
        le_u64(u64_le_bytes(x), 0) == x,
{
    let lo = (x % 0x1_0000_0000) as u32;
    let hi = (x / 0x1_0000_0000) as u32;
    lemma_u32_le_bytes(lo);
    lemma_u32_le_bytes(hi);
    let s = u64_le_bytes(x);
    assert(le_u32(s, 0) == le_u32(u32_le_bytes(lo), 0));
    assert(le_u32(s, 4) == le_u32(u32_le_bytes(hi), 0));
}

/// A signed byte survives the trip through its unsigned bit pattern.
pub proof fn lemma_i8_byte(x: i8)
    ensures
        (x as u8) as i8 == x,
{
    assert((x as u8) as i8 == x) by (bit_vector);
}

/// A character below 256 survives the trip through one byte.
pub proof fn lemma_char_byte(c: char)
    requires
        (c as u32) < 0x100,
    ensures
        (c as u8) as char == c,
{
}

} // verus!
