//! Where the headers of an image keep what this library reads of them, and
//! what it asks of an image before the headers are read as they lie.
//!
//! The headers are read in place, each as a whole. That is sound only where
//! each of them lies at an address that its widest field allows. A buffer
//! starts at a multiple of its granularity, so the rest is a matter of the
//! offsets that the image itself gives, and those are tested here.

use crate::bytes::{le_at, le_value, read_u16_at, read_u32_at};
use crate::dll::Section;
use vstd::prelude::*;

verus! {

/// The little-endian number in the `width` bytes of `image` from `at` on.
pub open spec fn le_from(image: Seq<u8>, at: int, width: int) -> nat {
    le_value(image.subrange(at, at + width))
}

/// The offset of the NT headers, which the four bytes at 0x3C hold, if the
/// image is long enough to hold them.
pub open spec fn nt_offset(image: Seq<u8>) -> Option<nat> {
    le_at(image, 0x3C, 4)
}

/// The number in the `width` bytes that lie `at` bytes into the NT headers,
/// if they lie inside the image.
pub open spec fn nt_field(image: Seq<u8>, at: int, width: int) -> Option<nat> {
    match nt_offset(image) {
        Some(e) => le_at(image, e + at, width),
        None => None,
    }
}

/// The NT headers hold eight-byte fields, so their offset has to be a
/// multiple of eight. An image too short to say where they lie is left for
/// the header check to refuse.
pub open spec fn nt_headers_aligned(image: Seq<u8>) -> bool {
    match nt_offset(image) {
        Some(e) => e % 8 == 0,
        None => true,
    }
}

/// The section table lies behind the optional header, whose size the two
/// bytes at 20 give. Its entries hold four-byte fields, so that size has to
/// be a multiple of four.
pub open spec fn section_table_aligned(image: Seq<u8>) -> bool {
    match nt_field(image, 20, 2) {
        Some(size) => size % 4 == 0,
        None => false,
    }
}

/// What is read at a relative virtual address is found at a place in the
/// file. The two have to agree modulo four in every section, so that what is
/// aligned by its address is aligned where it lies.
pub open spec fn sections_congruent(sections: Seq<Section>) -> bool {
    forall|i: int|
        0 <= i < sections.len() ==> (#[trigger] sections[i]).pointer_to_raw_data % 4
            == sections[i].virtual_address % 4
}

/// The first entry of the data directory names the export directory by its
/// address, at 136, and its size, at 140. Where the directory has an entry at
/// all (the count is at 132), the end of the export directory has to be an
/// address of 32 bits.
pub open spec fn export_directory_fits(image: Seq<u8>) -> bool {
    match nt_field(image, 132, 4) {
        Some(count) => count == 0 || match (nt_field(image, 136, 4), nt_field(image, 140, 4)) {
            (Some(address), Some(size)) => address + size <= u32::MAX,
            _ => false,
        },
        None => false,
    }
}

/// The preferred base address of the image, eight bytes at 48 in the NT
/// headers, and the size of the loaded image, four bytes at 80.
pub open spec fn image_bounds_of(image: Seq<u8>) -> (u64, u32) {
    let e = le_from(image, 0x3C, 4) as int;
    (le_from(image, e + 48, 8) as u64, le_from(image, e + 80, 4) as u32)
}

/// The entry of the section table that starts at `at`: its virtual size at 8,
/// its virtual address at 12, its place in the file at 20.
pub open spec fn section_at(image: Seq<u8>, at: int) -> Section {
    Section {
        virtual_address: le_from(image, at + 12, 4) as u32,
        virtual_size: le_from(image, at + 8, 4) as u32,
        pointer_to_raw_data: le_from(image, at + 20, 4) as u32,
    }
}

/// The section table: as many entries of 40 bytes as the two bytes at 6 in
/// the NT headers say, from the end of the optional header on, which starts at
/// 24 and whose size the two bytes at 20 give.
pub open spec fn section_table(image: Seq<u8>) -> Seq<Section> {
    let e = le_from(image, 0x3C, 4) as int;
    let start = e + 24 + le_from(image, e + 20, 2);
    Seq::new(le_from(image, e + 6, 2), |i: int| section_at(image, start + 40 * i))
}

fn nt_field_u32(image: &[u8], at: usize) -> (r: Option<u32>)
    ensures
        match nt_field(image@, at as int, 4) {
            Some(v) => r matches Some(x) && x == v,
            None => r is None,
        },
{
    let e = match read_u32_at(image, 0x3C) {
        Some(e) => e,
        None => {
            return None;
        },
    };
    proof {
        assert(image.len() == image@.len());
    }
    match (e as usize).checked_add(at) {
        Some(place) => read_u32_at(image, place),
        None => None,
    }
}

/// Whether the NT headers lie at a multiple of eight.
pub fn check_nt_headers(image: &[u8]) -> (ok: bool)
    ensures
        ok == nt_headers_aligned(image@),
{
    match read_u32_at(image, 0x3C) {
        Some(e) => e % 8 == 0,
        None => true,
    }
}

/// Whether the section table lies at a multiple of four.
pub fn check_section_table(image: &[u8]) -> (ok: bool)
    ensures
        ok == section_table_aligned(image@),
{
    let e = match read_u32_at(image, 0x3C) {
        Some(e) => e,
        None => {
            return false;
        },
    };
    proof {
        assert(image.len() == image@.len());
    }
    let size = match (e as usize).checked_add(20) {
        Some(place) => read_u16_at(image, place),
        None => None,
    };
    match size {
        Some(size) => size % 4 == 0,
        None => false,
    }
}

/// Whether address and place in the file agree modulo four in every section.
pub fn check_sections(sections: &Vec<Section>) -> (ok: bool)
    ensures
        ok == sections_congruent(sections@),
{
    let mut i: usize = 0;
    while i < sections.len()
        invariant
            i <= sections@.len(),
            forall|j: int|
                0 <= j < i ==> (#[trigger] sections@[j]).pointer_to_raw_data % 4
                    == sections@[j].virtual_address % 4,
        decreases sections@.len() - i,
    {
        let s = sections[i];
        if s.pointer_to_raw_data % 4 != s.virtual_address % 4 {
            return false;
        }
        i = i + 1;
    }
    true
}

/// Whether the export directory ends at an address of 32 bits.
pub fn check_export_directory(image: &[u8]) -> (ok: bool)
    ensures
        ok == export_directory_fits(image@),
{
    let count = match nt_field_u32(image, 132) {
        Some(count) => count,
        None => {
            return false;
        },
    };
    if count == 0 {
        return true;
    }
    match (nt_field_u32(image, 136), nt_field_u32(image, 140)) {
        (Some(address), Some(size)) => size <= u32::MAX - address,
        _ => false,
    }
}

} // verus!
