//! Zero-terminated text inside a buffer, named by where it lies.

use crate::bytes::{find_terminator, str_from_utf8, terminator, zero_from};
use crate::search::lemma_least_sound;
use vstd::prelude::*;
use vstd::slice::slice_subrange;
use vstd::string::StringSliceAdditionalSpecFns;
use vstd::utf8::valid_utf8;

verus! {

/// A run of text inside a buffer: where it starts and how many bytes it has,
/// its terminating zero byte not counted.
///
/// The value holds no address. It means something only together with the
/// buffer it was read from, and is read through that buffer.
#[derive(Debug, Copy, Clone, PartialEq, Eq, Structural)]
pub struct RStr {
    pub start: usize,
    pub len: usize,
}

impl RStr {
    /// The bytes of the text in `mem`.
    pub open spec fn bytes_in(self, mem: Seq<u8>) -> Seq<u8> {
        mem.subrange(self.start as int, self.start + self.len)
    }

    /// The text lies inside `mem` with a zero byte right behind it and none
    /// within it, and is well-formed UTF-8.
    pub open spec fn valid_in(self, mem: Seq<u8>) -> bool {
        &&& self.start + self.len < mem.len()
        &&& mem[self.start + self.len] == 0
        &&& forall|i: int| self.start <= i < self.start + self.len ==> mem[i] != 0
        &&& valid_utf8(self.bytes_in(mem))
    }

    /// The text that starts at `start` in `mem`: it runs up to the first zero
    /// byte, and is there only if such a byte follows and the bytes before it
    /// are well-formed UTF-8.
    pub open spec fn at(mem: Seq<u8>, start: int) -> Option<RStr> {
        match terminator(mem, start) {
            Some(len) => {
                if valid_utf8(mem.subrange(start, start + len)) {
                    Some(RStr { start: start as usize, len: len as usize })
                } else {
                    None
                }
            },
            None => None,
        }
    }

    /// What `at` finds is valid in the buffer it was found in, and starts
    /// where the search started.
    pub proof fn lemma_at_valid(mem: Seq<u8>, start: int)
        requires
            mem.len() <= usize::MAX,
        ensures
            RStr::at(mem, start) matches Some(s) ==> s.start == start && s.valid_in(mem),
    {
        if let Some(s) = RStr::at(mem, start) {
            let p = zero_from(mem, start);
            let n = mem.len() - start;
            lemma_least_sound(n, p);
            let len = terminator(mem, start).unwrap();
            assert forall|i: int| start <= i < start + len implies mem[i] != 0 by {
                assert(!p(i - start));
            }
        }
    }

    /// Reads the text that starts at `start` in `mem`.
    pub fn read(mem: &[u8], start: usize) -> (r: Option<RStr>)
        ensures
            r == RStr::at(mem@, start as int),
    {
        let len = match find_terminator(mem, start) {
            Some(len) => len,
            None => {
                return None;
            },
        };
        proof {
            lemma_least_sound(mem@.len() - start, zero_from(mem@, start as int));
            assert(mem.len() == mem@.len());
        }
        let span = slice_subrange(mem, start, start + len);
        match str_from_utf8(span) {
            Some(_) => Some(RStr { start, len }),
            None => None,
        }
    }

    /// The bytes of the text in `mem`, if they lie inside it.
    pub fn as_bytes<'a>(&self, mem: &'a [u8]) -> (r: Option<&'a [u8]>)
        ensures
            r.is_some() == (self.start + self.len <= mem@.len()),
            r matches Some(b) ==> b@ == self.bytes_in(mem@),
    {
        if self.start > mem.len() || self.len > mem.len() - self.start {
            None
        } else {
            Some(slice_subrange(mem, self.start, self.start + self.len))
        }
    }

    /// The text in `mem`, if its bytes lie inside it and are well-formed
    /// UTF-8.
    pub fn as_str<'a>(&self, mem: &'a [u8]) -> (r: Option<&'a str>)
        ensures
            r.is_some() == (self.start + self.len <= mem@.len() && valid_utf8(
                self.bytes_in(mem@),
            )),
            r matches Some(s) ==> s.spec_bytes() == self.bytes_in(mem@),
    {
        match self.as_bytes(mem) {
            Some(bytes) => str_from_utf8(bytes),
            None => None,
        }
    }
}

impl RStr {
    /// The text at the start of `data`, with `data` itself as the buffer:
    /// there where `data` holds a zero byte, up to the first one.
    pub fn from_str(data: &str) -> (r: Option<RStr>)
        ensures
            r == RStr::at(data.spec_bytes(), 0),
    {
        RStr::read(data.as_bytes(), 0)
    }
}

} // verus!
