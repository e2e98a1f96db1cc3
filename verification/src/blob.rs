//! The buffer that owns the bytes of one image.

use vstd::arithmetic::power2::is_pow2;
use vstd::prelude::*;
use vstd::slice::slice_subrange;

verus! {

/// Why a buffer could not be made.
#[derive(Debug, Copy, Clone, PartialEq, Eq, Structural)]
pub enum BlobError {
    /// The granularity is no power of two, or the rounded size does not fit.
    Layout,
    /// The memory could not be had.
    Alloc,
}

/// An owned run of bytes, placed in its allocation where the next multiple of
/// the granularity lies.
///
/// The bytes are zero at first and keep their number for the buffer's life.
/// The allocation is given back when the buffer is dropped.
pub struct Blob {
    storage: Vec<u8>,
    start: usize,
    len: usize,
    granularity: usize,
}

/// Whether `size` bytes can be laid out at a multiple of `granularity`:
/// the granularity is a power of two, and the size with the slack for
/// rounding stays within `isize::MAX`.
pub open spec fn layout_ok(size: usize, granularity: usize) -> bool {
    is_pow2(granularity as int) && size + granularity - 1 <= isize::MAX
}

/// `n` zero bytes.
pub open spec fn zeros(n: nat) -> Seq<u8> {
    Seq::new(n, |i: int| 0u8)
}

/// `dst` with `src` laid over it from `offset` on.
pub open spec fn overlay(dst: Seq<u8>, offset: int, src: Seq<u8>) -> Seq<u8>
    recommends
        0 <= offset,
        offset + src.len() <= dst.len(),
{
    Seq::new(
        dst.len(),
        |i: int|
            if offset <= i < offset + src.len() {
                src[i - offset]
            } else {
                dst[i]
            },
    )
}

/// The distance from the first byte of `storage` to the next address that is a
/// multiple of `align`, as `pointer::align_offset` of std reports it. The
/// answer depends on where the allocator put the bytes, so nothing is claimed
/// of it.
#[verifier::external_body]
fn align_padding(storage: &Vec<u8>, align: usize) -> usize
    requires
        is_pow2(align as int),
{
    storage.as_ptr().align_offset(align)
}

fn is_power_of_two(n: usize) -> (r: bool)
    ensures
        r == is_pow2(n as int),
{
    if n == 0 {
        proof {
            reveal(is_pow2);
        }
        return false;
    }
    let mut m: usize = n;
    while m % 2 == 0
        invariant
            m > 0,
            is_pow2(m as int) == is_pow2(n as int),
        decreases m,
    {
        proof {
            reveal(is_pow2);
        }
        m = m / 2;
    }
    proof {
        reveal(is_pow2);
    }
    m == 1
}

impl View for Blob {
    type V = Seq<u8>;

    closed spec fn view(&self) -> Seq<u8> {
        self.storage@.subrange(self.start as int, self.start + self.len)
    }
}

impl Blob {
    #[verifier::type_invariant]
    spec fn inv(self) -> bool {
        self.start + self.len <= self.storage@.len()
    }

    /// The granularity the buffer was made with.
    pub closed spec fn spec_granularity(&self) -> usize {
        self.granularity
    }

    /// Makes a buffer of `size` zero bytes aligned to `granularity`.
    ///
    /// A layout that cannot be is always refused with `Layout`. With a sound
    /// layout the only failure left is `Alloc`: the allocator has not enough
    /// memory, or no aligned place is found in what it gave.
    pub fn new_zeroed(size: usize, granularity: usize) -> (r: Result<Blob, BlobError>)
        ensures
            !layout_ok(size, granularity) ==> r matches Err(BlobError::Layout),
            layout_ok(size, granularity) ==> match r {
                Ok(b) => b@ == zeros(size as nat) && b.spec_granularity() == granularity,
                Err(e) => e == BlobError::Alloc,
            },
    {
        if !is_power_of_two(granularity) {
            return Err(BlobError::Layout);
        }
        proof {
            reveal(is_pow2);
        }
        let slack: usize = granularity - 1;
        let most: usize = isize::MAX as usize;
        if slack > most || size > most - slack {
            return Err(BlobError::Layout);
        }
        let total: usize = size + slack;
        let mut storage: Vec<u8> = Vec::new();
        if storage.try_reserve(total).is_err() {
            return Err(BlobError::Alloc);
        }
        storage.resize(total, 0u8);
        let start = align_padding(&storage, granularity);
        Blob::carve(storage, start, size, granularity)
    }

    /// Takes the `size` bytes of `storage` from `start` on as a buffer, which
    /// fails only where they do not all lie inside `storage`.
    fn carve(storage: Vec<u8>, start: usize, size: usize, granularity: usize) -> (r: Result<
        Blob,
        BlobError,
    >)
        ensures
            match r {
                Ok(b) => start + size <= storage@.len() && b@ == storage@.subrange(
                    start as int,
                    start + size,
                ) && b.spec_granularity() == granularity,
                Err(e) => start + size > storage@.len() && e == BlobError::Alloc,
            },
    {
        if start > storage.len() || size > storage.len() - start {
            Err(BlobError::Alloc)
        } else {
            Ok(Blob { storage, start, len: size, granularity })
        }
    }

    /// The number of bytes.
    pub fn len(&self) -> (n: usize)
        ensures
            n == self@.len(),
    {
        proof {
            use_type_invariant(self);
        }
        self.len
    }

    /// The granularity the buffer was made with.
    pub fn granularity(&self) -> (g: usize)
        ensures
            g == self.spec_granularity(),
    {
        self.granularity
    }

    /// The bytes, for reading.
    pub fn as_slice(&self) -> (s: &[u8])
        ensures
            s@ == self@,
    {
        proof {
            use_type_invariant(self);
            assert(self.storage.len() == self.storage@.len());
        }
        slice_subrange(self.storage.as_slice(), self.start, self.start + self.len)
    }

    /// Copies `src` into the buffer from `offset` on, if it fits; a write that
    /// would pass the end changes nothing.
    pub fn write(&mut self, offset: usize, src: &[u8]) -> (ok: bool)
        ensures
            ok == (offset + src@.len() <= old(self)@.len()),
            ok ==> final(self)@ == overlay(old(self)@, offset as int, src@),
            !ok ==> final(self)@ == old(self)@,
            final(self).spec_granularity() == old(self).spec_granularity(),
    {
        proof {
            use_type_invariant(&*self);
        }
        let total: usize = self.storage.len();
        if offset > self.len || src.len() > self.len - offset {
            return false;
        }
        let base: usize = self.start + offset;
        let mut i: usize = 0;
        while i < src.len()
            invariant
                i <= src@.len(),
                base == self.start + offset,
                offset + src@.len() <= self.len,
                self.start + self.len <= self.storage@.len(),
                self.start == old(self).start,
                self.len == old(self).len,
                self.granularity == old(self).granularity,
                self.storage@.len() == total,
                forall|k: int|
                    0 <= k < self.storage@.len() ==> self.storage@[k] == if base <= k < base + i {
                        src@[k - base]
                    } else {
                        old(self).storage@[k]
                    },
            decreases src@.len() - i,
        {
            self.storage[base + i] = src[i];
            i = i + 1;
        }
        true
    }
}

impl AsRef<[u8]> for Blob {
    /// The bytes, for reading.
    fn as_ref(&self) -> &[u8] {
        self.as_slice()
    }
}

} // verus!
