//! Little-endian integers inside byte buffers.

use byteorder::{ByteOrder, LittleEndian};
use vstd::prelude::*;
use vstd::slice::slice_subrange;

verus! {

/// The unsigned 16-bit value whose little-endian bytes are `b0`, `b1`.
pub open spec fn u16_le(b0: u8, b1: u8) -> u16 {
    (b0 as int + 256 * (b1 as int)) as u16
}

/// The signed 16-bit value whose little-endian two's complement bytes are
/// `b0`, `b1`.
pub open spec fn i16_le(b0: u8, b1: u8) -> i16 {
    let v = b0 as int + 256 * (b1 as int);
    if v < 32768 {
        v as i16
    } else {
        (v - 65536) as i16
    }
}

/// The unsigned 32-bit value whose little-endian bytes are `b0` .. `b3`.
pub open spec fn u32_le(b0: u8, b1: u8, b2: u8, b3: u8) -> u32 {
    (b0 as int + 256 * (b1 as int) + 65536 * (b2 as int) + 16777216 * (b3 as int)) as u32
}

/// The `u16` stored at byte offset `at` of `s`.
pub open spec fn u16_at(s: Seq<u8>, at: int) -> u16
    recommends
        0 <= at,
        at + 2 <= s.len(),
{
    u16_le(s[at], s[at + 1])
}

/// The `i16` stored at byte offset `at` of `s`.
pub open spec fn i16_at(s: Seq<u8>, at: int) -> i16
    recommends
        0 <= at,
        at + 2 <= s.len(),
{
    i16_le(s[at], s[at + 1])
}

/// The `u32` stored at byte offset `at` of `s`.
pub open spec fn u32_at(s: Seq<u8>, at: int) -> u32
    recommends
        0 <= at,
        at + 4 <= s.len(),
{
    u32_le(s[at], s[at + 1], s[at + 2], s[at + 3])
}

/// The low byte of the two's complement form of `v`.
pub open spec fn i16_low(v: i16) -> u8 {
    ((if v < 0 { v + 65536 } else { v as int }) % 256) as u8
}

/// The high byte of the two's complement form of `v`.
pub open spec fn i16_high(v: i16) -> u8 {
    ((if v < 0 { v + 65536 } else { v as int }) / 256) as u8
}

/// The `n` values of type `i16` stored `stride` bytes apart, the first at
/// byte offset `at` of `s`.
pub open spec fn i16s_at(s: Seq<u8>, at: int, stride: int, n: nat) -> Seq<i16> {
    Seq::new(n, |k: int| i16_at(s, at + stride * k))
}

/// The `n` pairs of `i16` values stored one after another from byte offset
/// `at` of `s`, four bytes to a pair.
pub open spec fn i16_pairs_at(s: Seq<u8>, at: int, n: nat) -> Seq<(i16, i16)> {
    Seq::new(n, |k: int| (i16_at(s, at + 4 * k), i16_at(s, at + 4 * k + 2)))
}

/// `LittleEndian::read_u16` of byteorder: the value of the first two bytes of
/// `buf`, low byte first.  It panics on a shorter buffer, hence the
/// precondition.
#[verifier::external_body]
fn read_u16(buf: &[u8]) -> (r: u16)
    requires
        buf@.len() >= 2,
    ensures
        r == u16_le(buf@[0], buf@[1]),
{
    LittleEndian::read_u16(buf)
}

/// `LittleEndian::read_i16` of byteorder: `read_u16` reinterpreted as two's
/// complement.  It panics on a buffer shorter than two bytes.
#[verifier::external_body]
fn read_i16(buf: &[u8]) -> (r: i16)
    requires
        buf@.len() >= 2,
    ensures
        r == i16_le(buf@[0], buf@[1]),
{
    LittleEndian::read_i16(buf)
}

/// `LittleEndian::read_u32` of byteorder: the value of the first four bytes
/// of `buf`, low byte first.  It panics on a shorter buffer.
#[verifier::external_body]
fn read_u32(buf: &[u8]) -> (r: u32)
    requires
        buf@.len() >= 4,
    ensures
        r == u32_le(buf@[0], buf@[1], buf@[2], buf@[3]),
{
    LittleEndian::read_u32(buf)
}

/// `LittleEndian::write_i16` of byteorder, on a buffer of exactly two bytes:
/// it stores the two's complement form of `v`, low byte first.
#[verifier::external_body]
fn write_i16(v: i16) -> (r: [u8; 2])
    ensures
        r@ == seq![i16_low(v), i16_high(v)],
{
    let mut buf = [0u8; 2];
    LittleEndian::write_i16(&mut buf, v);
    buf
}

/// Reads the little-endian `u16` at byte offset `at`.
pub(crate) fn get_u16(data: &[u8], at: usize) -> (r: u16)
    requires
        at + 2 <= data@.len(),
    ensures
        r == u16_at(data@, at as int),
{
    let _len: usize = data.len();
    read_u16(slice_subrange(data, at, at + 2))
}

/// Reads the little-endian `i16` at byte offset `at`.
pub(crate) fn get_i16(data: &[u8], at: usize) -> (r: i16)
    requires
        at + 2 <= data@.len(),
    ensures
        r == i16_at(data@, at as int),
{
    let _len: usize = data.len();
    read_i16(slice_subrange(data, at, at + 2))
}

/// Reads the little-endian `u32` at byte offset `at`.
pub(crate) fn get_u32(data: &[u8], at: usize) -> (r: u32)
    requires
        at + 4 <= data@.len(),
    ensures
        r == u32_at(data@, at as int),
{
    let _len: usize = data.len();
    read_u32(slice_subrange(data, at, at + 4))
}

/// Copies the `N` bytes that start at offset `at`.
pub(crate) fn get_bytes<const N: usize>(data: &[u8], at: usize) -> (r: [u8; N])
    requires
        at + N <= data@.len(),
    ensures
        r@ == data@.subrange(at as int, at + N),
{
    let _len: usize = data.len();
    let mut out = [0u8; N];
    let mut i: usize = 0;
    while i < N
        invariant
            i <= N,
            at + N <= data@.len(),
            data@.len() <= usize::MAX,
            forall|k: int| 0 <= k < i ==> out@[k] == data@[at + k],
        decreases N - i,
    {
        out[i] = data[at + i];
        i += 1;
    }
    assert(out@ =~= data@.subrange(at as int, at + N));
    out
}

/// Reads `N` little-endian `i16` values, `stride` bytes apart, the first at
/// offset `at`.
pub(crate) fn get_i16s<const N: usize>(data: &[u8], at: usize, stride: usize) -> (r: [i16; N])
    requires
        N > 0 ==> at + stride * (N - 1) + 2 <= data@.len(),
    ensures
        r@ == i16s_at(data@, at as int, stride as int, N as nat),
{
    let _len: usize = data.len();
    let mut out = [0i16; N];
    let mut i: usize = 0;
    while i < N
        invariant
            i <= N,
            N > 0 ==> at + stride * (N - 1) + 2 <= data@.len(),
            data@.len() <= usize::MAX,
            forall|k: int| 0 <= k < i ==> out@[k] == i16_at(data@, at + stride * k),
        decreases N - i,
    {
        assert(stride * i <= stride * (N - 1)) by (nonlinear_arith)
            requires
                i <= N - 1,
                stride >= 0,
        ;
        out[i] = get_i16(data, at + stride * i);
        i += 1;
    }
    assert(out@ =~= i16s_at(data@, at as int, stride as int, N as nat));
    out
}

/// Reads `N` pairs of little-endian `i16` values that stand one after
/// another from offset `at`.
pub(crate) fn get_i16_pairs<const N: usize>(data: &[u8], at: usize) -> (r: [(i16, i16); N])
    requires
        at + 4 * N <= data@.len(),
    ensures
        r@ == i16_pairs_at(data@, at as int, N as nat),
{
    let _len: usize = data.len();
    let mut out = [(0i16, 0i16); N];
    let mut i: usize = 0;
    while i < N
        invariant
            i <= N,
            at + 4 * N <= data@.len(),
            data@.len() <= usize::MAX,
            forall|k: int|
                0 <= k < i ==> out@[k] == (
                    i16_at(data@, at + 4 * k),
                    i16_at(data@, at + 4 * k + 2),
                ),
        decreases N - i,
    {
        let first = get_i16(data, at + 4 * i);
        let second = get_i16(data, at + 4 * i + 2);
        out[i] = (first, second);
        i += 1;
    }
    assert(out@ =~= i16_pairs_at(data@, at as int, N as nat));
    out
}

/// Overwrites the two bytes at offset `at` with the little-endian form of
/// `v`, and nothing else.
pub(crate) fn put_i16(data: &mut Vec<u8>, at: usize, v: i16)
    requires
        at + 2 <= old(data)@.len(),
    ensures
        final(data)@ == old(data)@.update(at as int, i16_low(v)).update(at + 1, i16_high(v)),
{
    let _len: usize = data.len();
    let bytes = write_i16(v);
    data.set(at, bytes[0]);
    data.set(at + 1, bytes[1]);
}

/// Reading back what `put_i16` stored gives the value that was stored, for
/// every `i16`.
pub proof fn lemma_i16_round_trip(v: i16)
    ensures
        i16_le(i16_low(v), i16_high(v)) == v,
{
}

/// Two bytes are the little-endian form of exactly one `i16`.
pub proof fn lemma_i16_bytes_unique(b0: u8, b1: u8)
    ensures
        i16_low(i16_le(b0, b1)) == b0,
        i16_high(i16_le(b0, b1)) == b1,
{
}

} // verus!
