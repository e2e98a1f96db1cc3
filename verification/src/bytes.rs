//! Reading integers and zero-terminated text out of raw bytes.

use crate::search::{is_least, least, lemma_least_absent, lemma_least_found};
use byteorder::{ByteOrder, LittleEndian};
use vstd::prelude::*;
use vstd::slice::slice_subrange;
use vstd::string::StringSliceAdditionalSpecFns;
use vstd::utf8::valid_utf8;

verus! {

/// The number that `bytes` spell with the least significant byte first.
pub open spec fn le_value(bytes: Seq<u8>) -> nat
    decreases bytes.len(),
{
    if bytes.len() == 0 {
        0
    } else {
        bytes[0] as nat + 256 * le_value(bytes.skip(1))
    }
}

/// The little-endian number in the `width` bytes of `mem` from `offset` on,
/// if they all lie inside `mem`.
pub open spec fn le_at(mem: Seq<u8>, offset: int, width: int) -> Option<nat> {
    if 0 <= offset && offset + width <= mem.len() {
        Some(le_value(mem.subrange(offset, offset + width)))
    } else {
        None
    }
}

/// Holds at `i` when the byte `i` places after `start` is zero.
pub open spec fn zero_from(mem: Seq<u8>, start: int) -> spec_fn(int) -> bool {
    |i: int| mem[start + i] == 0
}

/// The number of bytes from `start` up to the first zero byte, if `start`
/// lies inside `mem` or at its end and a zero byte follows.
pub open spec fn terminator(mem: Seq<u8>, start: int) -> Option<int> {
    if 0 <= start <= mem.len() {
        least(mem.len() - start, zero_from(mem, start))
    } else {
        None
    }
}

/// `ByteOrder::read_u64` of byteorder for `LittleEndian`: the first eight
/// bytes of `buf` read as a little-endian number. It panics on a shorter
/// slice, which the precondition rules out.
#[verifier::external_body]
fn read_u64_le(buf: &[u8]) -> (v: u64)
    requires
        buf@.len() >= 8,
    ensures
        v == le_value(buf@.subrange(0, 8)),
{
    LittleEndian::read_u64(buf)
}

/// `ByteOrder::read_u32` of byteorder for `LittleEndian`: the first four
/// bytes of `buf` read as a little-endian number. It panics on a shorter
/// slice, which the precondition rules out.
#[verifier::external_body]
fn read_u32_le(buf: &[u8]) -> (v: u32)
    requires
        buf@.len() >= 4,
    ensures
        v == le_value(buf@.subrange(0, 4)),
{
    LittleEndian::read_u32(buf)
}

/// `ByteOrder::read_u16` of byteorder for `LittleEndian`: the first two bytes
/// of `buf` read as a little-endian number. It panics on a shorter slice,
/// which the precondition rules out.
#[verifier::external_body]
fn read_u16_le(buf: &[u8]) -> (v: u16)
    requires
        buf@.len() >= 2,
    ensures
        v == le_value(buf@.subrange(0, 2)),
{
    LittleEndian::read_u16(buf)
}

/// `memchr` returns the index of the first byte equal to `needle`, and `None`
/// exactly when no byte of `haystack` equals it.
pub assume_specification[ memchr::memchr ](needle: u8, haystack: &[u8]) -> (r: Option<usize>)
    ensures
        match r {
            Some(i) => i < haystack@.len() && haystack@[i as int] == needle && forall|j: int|
                0 <= j < i ==> haystack@[j] != needle,
            None => forall|j: int| 0 <= j < haystack@.len() ==> haystack@[j] != needle,
        },
;

/// `std::str::from_utf8`: the bytes as text when they are well-formed UTF-8,
/// and nothing otherwise.
#[verifier::external_body]
pub(crate) fn str_from_utf8(bytes: &[u8]) -> (r: Option<&str>)
    ensures
        r.is_some() == valid_utf8(bytes@),
        r matches Some(s) ==> s.spec_bytes() == bytes@,
{
    std::str::from_utf8(bytes).ok()
}

/// Reads the eight-byte little-endian number at `offset`.
pub fn read_u64_at(mem: &[u8], offset: usize) -> (r: Option<u64>)
    ensures
        match le_at(mem@, offset as int, 8) {
            Some(v) => r matches Some(x) && x == v,
            None => r is None,
        },
{
    if offset > mem.len() || mem.len() - offset < 8 {
        return None;
    }
    let field = slice_subrange(mem, offset, offset + 8);
    assert(field@.subrange(0, 8) =~= field@);
    Some(read_u64_le(field))
}

/// Reads the four-byte little-endian number at `offset`.
pub fn read_u32_at(mem: &[u8], offset: usize) -> (r: Option<u32>)
    ensures
        match le_at(mem@, offset as int, 4) {
            Some(v) => r matches Some(x) && x == v,
            None => r is None,
        },
{
    if offset > mem.len() || mem.len() - offset < 4 {
        return None;
    }
    let field = slice_subrange(mem, offset, offset + 4);
    assert(field@.subrange(0, 4) =~= field@);
    Some(read_u32_le(field))
}

/// Reads the two-byte little-endian number at `offset`.
pub fn read_u16_at(mem: &[u8], offset: usize) -> (r: Option<u16>)
    ensures
        match le_at(mem@, offset as int, 2) {
            Some(v) => r matches Some(x) && x == v,
            None => r is None,
        },
{
    if offset > mem.len() || mem.len() - offset < 2 {
        return None;
    }
    let field = slice_subrange(mem, offset, offset + 2);
    assert(field@.subrange(0, 2) =~= field@);
    Some(read_u16_le(field))
}

/// Scans from `start` for the first zero byte and gives its distance from
/// `start`.
pub fn find_terminator(mem: &[u8], start: usize) -> (r: Option<usize>)
    ensures
        match terminator(mem@, start as int) {
            Some(n) => r matches Some(x) && x == n,
            None => r is None,
        },
{
    if start > mem.len() {
        return None;
    }
    let tail = slice_subrange(mem, start, mem.len());
    let found = memchr::memchr(0u8, tail);
    proof {
        let p = zero_from(mem@, start as int);
        let n = mem@.len() - start;
        match found {
            Some(i) => {
                assert forall|j: int| 0 <= j < i implies !#[trigger] p(j) by {
                    assert(tail@[j] == mem@[start + j]);
                }
                assert(tail@[i as int] == mem@[start + i]);
                assert(is_least(n, p, i as int));
                lemma_least_found(n, p, i as int);
            },
            None => {
                assert forall|j: int| 0 <= j < n implies !#[trigger] p(j) by {
                    assert(tail@[j] == mem@[start + j]);
                }
                lemma_least_absent(n, p);
            },
        }
    }
    found
}

/// Whether two runs of bytes are the same.
pub fn bytes_eq(a: &[u8], b: &[u8]) -> (r: bool)
    ensures
        r == (a@ == b@),
{
    if a.len() != b.len() {
        return false;
    }
    let mut i: usize = 0;
    while i < a.len()
        invariant
            i <= a@.len(),
            a@.len() == b@.len(),
            forall|k: int| 0 <= k < i ==> a@[k] == b@[k],
        decreases a@.len() - i,
    {
        if a[i] != b[i] {
            return false;
        }
        i = i + 1;
    }
    assert(a@ =~= b@);
    true
}

} // verus!
