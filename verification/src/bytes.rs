//! Reading fixed-width integers and fixed-size arrays out of byte strings.
//!
//! Every structure of the console's formats is a run of little-endian or
//! big-endian fields at fixed offsets. The spec functions here say what
//! number a run of bytes stands for; the executable readers compute it
//! after the caller has shown that the run lies inside the buffer.

use vstd::prelude::*;
use vstd::slice::slice_subrange;

verus! {

/// The 16-bit number stored little-endian at `at`.
pub open spec fn u16_le_at(s: Seq<u8>, at: int) -> u16 {
    (s[at] as int + s[at + 1] as int * 0x100) as u16
}

/// The 16-bit number stored big-endian at `at`.
pub open spec fn u16_be_at(s: Seq<u8>, at: int) -> u16 {
    (s[at] as int * 0x100 + s[at + 1] as int) as u16
}

/// The 32-bit number stored little-endian at `at`.
pub open spec fn u32_le_at(s: Seq<u8>, at: int) -> u32 {
    (s[at] as int + s[at + 1] as int * 0x100 + s[at + 2] as int * 0x1_0000 + s[at + 3] as int
        * 0x100_0000) as u32
}

/// The 32-bit number stored big-endian at `at`.
pub open spec fn u32_be_at(s: Seq<u8>, at: int) -> u32 {
    (s[at] as int * 0x100_0000 + s[at + 1] as int * 0x1_0000 + s[at + 2] as int * 0x100 + s[at
        + 3] as int) as u32
}

/// The 64-bit number stored little-endian at `at`.
pub open spec fn u64_le_at(s: Seq<u8>, at: int) -> u64 {
    (u32_le_at(s, at) as int + u32_le_at(s, at + 4) as int * 0x1_0000_0000) as u64
}

/// The 64-bit number stored big-endian at `at`.
pub open spec fn u64_be_at(s: Seq<u8>, at: int) -> u64 {
    (u32_be_at(s, at) as int * 0x1_0000_0000 + u32_be_at(s, at + 4) as int) as u64
}

/// Whether the `len` bytes from `at` on lie inside a string of `total` bytes.
pub open spec fn in_bounds(at: int, len: int, total: int) -> bool {
    0 <= at && 0 <= len && at + len <= total
}

/// Reads the 16-bit number stored little-endian at `at`.
pub fn read_u16_le(b: &[u8], at: usize) -> (r: u16)
    requires
        in_bounds(at as int, 2, b.len() as int),
    ensures
        r == u16_le_at(b@, at as int),
{
    let lo: u16 = b[at] as u16;
    let hi: u16 = b[at + 1] as u16;
    lo + hi * 0x100
}

/// Reads the 16-bit number stored big-endian at `at`.
pub fn read_u16_be(b: &[u8], at: usize) -> (r: u16)
    requires
        in_bounds(at as int, 2, b.len() as int),
    ensures
        r == u16_be_at(b@, at as int),
{
    let hi: u16 = b[at] as u16;
    let lo: u16 = b[at + 1] as u16;
    hi * 0x100 + lo
}

/// Reads the 32-bit number stored little-endian at `at`.
pub fn read_u32_le(b: &[u8], at: usize) -> (r: u32)
    requires
        in_bounds(at as int, 4, b.len() as int),
    ensures
        r == u32_le_at(b@, at as int),
{
    let b0: u32 = b[at] as u32;
    let b1: u32 = b[at + 1] as u32;
    let b2: u32 = b[at + 2] as u32;
    let b3: u32 = b[at + 3] as u32;
    b0 + b1 * 0x100 + b2 * 0x1_0000 + b3 * 0x100_0000
}

/// Reads the 32-bit number stored big-endian at `at`.
pub fn read_u32_be(b: &[u8], at: usize) -> (r: u32)
    requires
        in_bounds(at as int, 4, b.len() as int),
    ensures
        r == u32_be_at(b@, at as int),
{
    let b0: u32 = b[at] as u32;
    let b1: u32 = b[at + 1] as u32;
    let b2: u32 = b[at + 2] as u32;
    let b3: u32 = b[at + 3] as u32;
    b0 * 0x100_0000 + b1 * 0x1_0000 + b2 * 0x100 + b3
}

/// Reads the 64-bit number stored little-endian at `at`.
pub fn read_u64_le(b: &[u8], at: usize) -> (r: u64)
    requires
        in_bounds(at as int, 8, b.len() as int),
    ensures
        r == u64_le_at(b@, at as int),
{
    let lo: u64 = read_u32_le(b, at) as u64;
    let hi: u64 = read_u32_le(b, at + 4) as u64;
    lo + hi * 0x1_0000_0000
}

/// Reads the 64-bit number stored big-endian at `at`.
pub fn read_u64_be(b: &[u8], at: usize) -> (r: u64)
    requires
        in_bounds(at as int, 8, b.len() as int),
    ensures
        r == u64_be_at(b@, at as int),
{
    let hi: u64 = read_u32_be(b, at) as u64;
    let lo: u64 = read_u32_be(b, at + 4) as u64;
    hi * 0x1_0000_0000 + lo
}

/// Copies the `N` bytes from `at` on into an array.
pub fn read_array<const N: usize>(b: &[u8], at: usize) -> (r: [u8; N])
    requires
        in_bounds(at as int, N as int, b.len() as int),
    ensures
        r@ == b@.subrange(at as int, at + N),
{
    let mut out = [0u8; N];
    let mut i: usize = 0;
    while i < N
        invariant
            i <= N,
            at + N <= b.len(),
            out@.len() == N,
            forall|k: int| 0 <= k < i ==> out@[k] == b@[at + k],
        decreases N - i,
    {
        out[i] = b[at + i];
        i = i + 1;
    }
    assert(out@ =~= b@.subrange(at as int, at + N));
    out
}

/// The part of `b` that starts at `at` and is `len` bytes long.
pub fn window<'a>(b: &'a [u8], at: usize, len: usize) -> (r: &'a [u8])
    requires
        in_bounds(at as int, len as int, b.len() as int),
    ensures
        r@ == b@.subrange(at as int, at + len),
{
    slice_subrange(b, at, at + len)
}

/// Whether every byte of `b` is zero.
pub fn all_zero(b: &[u8]) -> (r: bool)
    ensures
        r == (forall|k: int| 0 <= k < b@.len() ==> b@[k] == 0),
{
    let mut i: usize = 0;
    while i < b.len()
        invariant
            i <= b@.len(),
            forall|k: int| 0 <= k < i ==> b@[k] == 0,
        decreases b@.len() - i,
    {
        if b[i] != 0 {
            return false;
        }
        i = i + 1;
    }
    true
}

/// Whether two byte strings hold the same bytes.
pub fn same_bytes(a: &[u8], b: &[u8]) -> (r: bool)
    ensures
        r == (a@ == b@),
{
    if a.len() != b.len() {
        return false;
    }
    let mut i: usize = 0;
    while i < a.len()
        invariant
            i <= a@.len(),
            a@.len() == b@.len(),
            forall|k: int| 0 <= k < i ==> a@[k] == b@[k],
        decreases a@.len() - i,
    {
        if a[i] != b[i] {
            return false;
        }
        i = i + 1;
    }
    assert(a@ =~= b@);
    true
}


/// The 128-bit number that sixteen bytes store big-endian.
pub open spec fn u128_be(s: Seq<u8>) -> u128 {
    (u64_be_at(s, 0) as int * 0x1_0000_0000_0000_0000 + u64_be_at(s, 8) as int) as u128
}

/// The eight bytes that store `x` big-endian.
pub open spec fn u64_be_bytes(x: u64) -> Seq<u8> {
    seq![
        (x / 0x100_0000_0000_0000 % 0x100) as u8,
        (x / 0x1_0000_0000_0000 % 0x100) as u8,
        (x / 0x100_0000_0000 % 0x100) as u8,
        (x / 0x1_0000_0000 % 0x100) as u8,
        (x / 0x100_0000 % 0x100) as u8,
        (x / 0x1_0000 % 0x100) as u8,
        (x / 0x100 % 0x100) as u8,
        (x % 0x100) as u8,
    ]
}

/// The sixteen bytes that store `x` big-endian.
pub open spec fn u128_be_bytes(x: u128) -> Seq<u8> {
    u64_be_bytes((x / 0x1_0000_0000_0000_0000) as u64) + u64_be_bytes(
        (x % 0x1_0000_0000_0000_0000) as u64,
    )
}

/// Reads the 128-bit number that the sixteen bytes store big-endian.
pub fn read_u128_be(b: &[u8; 16]) -> (r: u128)
    ensures
        r == u128_be(b@),
{
    let s = b.as_slice();
    let hi: u128 = read_u64_be(s, 0) as u128;
    let lo: u128 = read_u64_be(s, 8) as u128;
    hi * 0x1_0000_0000_0000_0000 + lo
}

/// Stores `x` big-endian into the eight bytes of `out` from `at` on.
fn put_u64_be(out: &mut [u8; 16], at: usize, x: u64)
    requires
        at + 8 <= 16,
    ensures
        final(out)@ == old(out)@.take(at as int) + u64_be_bytes(x) + old(out)@.skip(at + 8),
{
    out[at] = (x / 0x100_0000_0000_0000 % 0x100) as u8;
    out[at + 1] = (x / 0x1_0000_0000_0000 % 0x100) as u8;
    out[at + 2] = (x / 0x100_0000_0000 % 0x100) as u8;
    out[at + 3] = (x / 0x1_0000_0000 % 0x100) as u8;
    out[at + 4] = (x / 0x100_0000 % 0x100) as u8;
    out[at + 5] = (x / 0x1_0000 % 0x100) as u8;
    out[at + 6] = (x / 0x100 % 0x100) as u8;
    out[at + 7] = (x % 0x100) as u8;
    assert(out@ =~= old(out)@.take(at as int) + u64_be_bytes(x) + old(out)@.skip(at + 8));
}

/// The sixteen bytes that store `x` big-endian.
pub fn write_u128_be(x: u128) -> (r: [u8; 16])
    ensures
        r@ == u128_be_bytes(x),
{
    let mut out = [0u8; 16];
    put_u64_be(&mut out, 0, (x / 0x1_0000_0000_0000_0000) as u64);
    put_u64_be(&mut out, 8, (x % 0x1_0000_0000_0000_0000) as u64);
    assert(out@ =~= u128_be_bytes(x));
    out
}

/// The eight bytes that store `x` big-endian.
pub fn write_u64_be(x: u64) -> (r: [u8; 8])
    ensures
        r@ == u64_be_bytes(x),
{
    let mut out = [0u8; 8];
    out[0] = (x / 0x100_0000_0000_0000 % 0x100) as u8;
    out[1] = (x / 0x1_0000_0000_0000 % 0x100) as u8;
    out[2] = (x / 0x100_0000_0000 % 0x100) as u8;
    out[3] = (x / 0x1_0000_0000 % 0x100) as u8;
    out[4] = (x / 0x100_0000 % 0x100) as u8;
    out[5] = (x / 0x1_0000 % 0x100) as u8;
    out[6] = (x / 0x100 % 0x100) as u8;
    out[7] = (x % 0x100) as u8;
    assert(out@ =~= u64_be_bytes(x));
    out
}


/// The four bytes that store `x` little-endian.
pub open spec fn u32_le_bytes(x: u32) -> Seq<u8> {
    seq![
        (x % 0x100) as u8,
        (x / 0x100 % 0x100) as u8,
        (x / 0x1_0000 % 0x100) as u8,
        (x / 0x100_0000 % 0x100) as u8,
    ]
}

/// The two bytes that store `x` little-endian.
pub open spec fn u16_le_bytes(x: u16) -> Seq<u8> {
    seq![(x % 0x100) as u8, (x / 0x100 % 0x100) as u8]
}

/// `n` zero bytes.
pub open spec fn zeros(n: int) -> Seq<u8> {
    Seq::new(n as nat, |i: int| 0u8)
}

/// Appends `x`, little-endian.
pub fn push_u32_le(out: &mut Vec<u8>, x: u32)
    ensures
        final(out)@ == old(out)@ + u32_le_bytes(x),
{
    out.push((x % 0x100) as u8);
    out.push((x / 0x100 % 0x100) as u8);
    out.push((x / 0x1_0000 % 0x100) as u8);
    out.push((x / 0x100_0000 % 0x100) as u8);
    assert(out@ =~= old(out)@ + u32_le_bytes(x));
}

/// Appends `x`, little-endian.
pub fn push_u16_le(out: &mut Vec<u8>, x: u16)
    ensures
        final(out)@ == old(out)@ + u16_le_bytes(x),
{
    out.push((x % 0x100) as u8);
    out.push((x / 0x100 % 0x100) as u8);
    assert(out@ =~= old(out)@ + u16_le_bytes(x));
}

/// Appends `n` zero bytes.
pub fn push_zeros(out: &mut Vec<u8>, n: usize)
    ensures
        final(out)@ == old(out)@ + zeros(n as int),
{
    let mut i: usize = 0;
    assert(out@ =~= old(out)@ + zeros(0));
    while i < n
        invariant
            i <= n,
            out@ == old(out)@ + zeros(i as int),
        decreases n - i,
    {
        out.push(0);
        i = i + 1;
        assert(out@ =~= old(out)@ + zeros(i as int));
    }
}

/// Appends the bytes of `more`.
pub fn push_bytes(out: &mut Vec<u8>, more: &[u8])
    ensures
        final(out)@ == old(out)@ + more@,
{
    let mut i: usize = 0;
    assert(out@ =~= old(out)@ + more@.take(0));
    while i < more.len()
        invariant
            i <= more.len(),
            out@ == old(out)@ + more@.take(i as int),
        decreases more.len() - i,
    {
        out.push(more[i]);
        i = i + 1;
        assert(out@ =~= old(out)@ + more@.take(i as int));
    }
    assert(more@.take(more@.len() as int) =~= more@);
}

/// The first `n` of the 16-bit numbers `units`, each stored little-endian,
/// one after another.
pub open spec fn u16s_le_bytes(units: Seq<u16>, n: int) -> Seq<u8>
    decreases n,
{
    if n <= 0 {
        Seq::empty()
    } else {
        u16s_le_bytes(units, n - 1) + u16_le_bytes(units[n - 1])
    }
}

/// Appends the numbers of `units`, each little-endian.
pub fn push_u16s_le(out: &mut Vec<u8>, units: &[u16])
    ensures
        final(out)@ == old(out)@ + u16s_le_bytes(units@, units@.len() as int),
{
    let mut i: usize = 0;
    assert(out@ =~= old(out)@ + u16s_le_bytes(units@, 0));
    while i < units.len()
        invariant
            i <= units.len(),
            out@ == old(out)@ + u16s_le_bytes(units@, i as int),
        decreases units.len() - i,
    {
        let ghost before = out@;
        push_u16_le(out, units[i]);
        i = i + 1;
        assert(out@ =~= old(out)@ + u16s_le_bytes(units@, i as int));
    }
}

/// Reads `N` 16-bit numbers, each little-endian, from `at` on.
pub fn read_u16_array<const N: usize>(b: &[u8], at: usize) -> (r: [u16; N])
    requires
        at + 2 * N <= b.len(),
    ensures
        forall|k: int| 0 <= k < N ==> r@[k] == u16_le_at(b@, at + 2 * k),
{
    let mut out = [0u16; N];
    let mut i: usize = 0;
    while i < N
        invariant
            i <= N,
            at + 2 * N <= b.len(),
            out@.len() == N,
            forall|k: int| 0 <= k < i ==> out@[k] == u16_le_at(b@, at + 2 * k),
        decreases N - i,
    {
        out[i] = read_u16_le(b, at + 2 * i);
        i = i + 1;
    }
    out
}


/// Numbers of sixteen bits take two bytes each.
pub proof fn lemma_u16s_le_len(units: Seq<u16>, n: int)
    requires
        0 <= n,
    ensures
        u16s_le_bytes(units, n).len() == 2 * n,
    decreases n,
{
    if n > 0 {
        lemma_u16s_le_len(units, n - 1);
    }
}


/// A 64-bit number stored big-endian reads back as itself.
pub proof fn lemma_u64_be_round_trip(x: u64)
    ensures
        u64_be_bytes(x).len() == 8,
        u64_be_at(u64_be_bytes(x), 0) == x,
{
    let s = u64_be_bytes(x);
    let b0 = x / 0x100_0000_0000_0000 % 0x100;
    let b1 = x / 0x1_0000_0000_0000 % 0x100;
    let b2 = x / 0x100_0000_0000 % 0x100;
    let b3 = x / 0x1_0000_0000 % 0x100;
    let b4 = x / 0x100_0000 % 0x100;
    let b5 = x / 0x1_0000 % 0x100;
    let b6 = x / 0x100 % 0x100;
    let b7 = x % 0x100;
    assert(s[0] == b0 as u8 && s[1] == b1 as u8 && s[2] == b2 as u8 && s[3] == b3 as u8);
    assert(s[4] == b4 as u8 && s[5] == b5 as u8 && s[6] == b6 as u8 && s[7] == b7 as u8);
    assert(b0 * 0x100_0000_0000_0000 + b1 * 0x1_0000_0000_0000 + b2 * 0x100_0000_0000 + b3
        * 0x1_0000_0000 + b4 * 0x100_0000 + b5 * 0x1_0000 + b6 * 0x100 + b7 == x) by (bit_vector)
        requires
            b0 == x / 0x100_0000_0000_0000 % 0x100,
            b1 == x / 0x1_0000_0000_0000 % 0x100,
            b2 == x / 0x100_0000_0000 % 0x100,
            b3 == x / 0x1_0000_0000 % 0x100,
            b4 == x / 0x100_0000 % 0x100,
            b5 == x / 0x1_0000 % 0x100,
            b6 == x / 0x100 % 0x100,
            b7 == x % 0x100,
    ;
}

/// A 128-bit number stored big-endian reads back as itself.
pub proof fn lemma_u128_be_round_trip(x: u128)
    ensures
        u128_be_bytes(x).len() == 16,
        u128_be(u128_be_bytes(x)) == x,
{
    let hi = (x / 0x1_0000_0000_0000_0000) as u64;
    let lo = (x % 0x1_0000_0000_0000_0000) as u64;
    lemma_u64_be_round_trip(hi);
    lemma_u64_be_round_trip(lo);
    let s = u128_be_bytes(x);
    assert(s =~= u64_be_bytes(hi) + u64_be_bytes(lo));
    assert forall|i: int| 0 <= i < 8 implies s[i] == u64_be_bytes(hi)[i] && s[8 + i]
        == u64_be_bytes(lo)[i] by {}
    assert(u64_be_at(s, 0) == hi);
    assert(u64_be_at(s, 8) == lo);
}

} // verus!
