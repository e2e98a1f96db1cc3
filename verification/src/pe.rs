//! What is taken from pelite: the checked headers of an image and its export
//! directory, handed on as plain values.

use crate::blob::Blob;
use crate::dll::{entries_view, ExportEntry, ExportEntryView, ExportTarget, Section};
use crate::header::{
    export_directory_fits, image_bounds_of, nt_headers_aligned, section_table,
    section_table_aligned, sections_congruent,
};
use pelite::pe64::exports::Export;
use pelite::pe64::{Pe, PeFile};
use vstd::prelude::*;

verus! {

/// `pelite::Error`, with its variants as pelite declares them.
#[verifier::external_type_specification]
pub struct ExPeliteError(pelite::Error);

/// `pelite::pe64::PeFile`: an image whose headers pelite has checked. Nothing
/// of what it holds is seen here; it is handed from one call to the next.
#[verifier::external_type_specification]
#[verifier::external_body]
pub struct ExPeFile<'a>(PeFile<'a>);

/// The ways in which an image can fail to be a sound executable.
#[derive(Debug, Copy, Clone, PartialEq, Eq, Structural)]
pub enum PeError {
    /// Null address.
    Null,
    /// Out of bounds.
    Bounds,
    /// The data is zero-filled at load time and not stored in the file.
    ZeroFill,
    /// The data is stored in the file but not mapped at load time.
    Unmapped,
    /// An address is misaligned.
    Misaligned,
    /// A magic number does not match.
    BadMagic,
    /// The image is of the other pointer width.
    PeMagic,
    /// A value lies far outside its usual range.
    Insanity,
    /// Structured data is not valid.
    Invalid,
    /// A computation overflowed.
    Overflow,
    /// Text is badly encoded or lacks its terminator.
    Encoding,
    /// The request would alias an existing borrow.
    Aliasing,
}

impl PeError {
    /// The error of this library that stands for pelite's.
    pub fn from_pelite(e: pelite::Error) -> (r: PeError)
        ensures
            r == PeError::spec_from_pelite(e),
    {
        match e {
            pelite::Error::Null => PeError::Null,
            pelite::Error::Bounds => PeError::Bounds,
            pelite::Error::ZeroFill => PeError::ZeroFill,
            pelite::Error::Unmapped => PeError::Unmapped,
            pelite::Error::Misaligned => PeError::Misaligned,
            pelite::Error::BadMagic => PeError::BadMagic,
            pelite::Error::PeMagic => PeError::PeMagic,
            pelite::Error::Insanity => PeError::Insanity,
            pelite::Error::Invalid => PeError::Invalid,
            pelite::Error::Overflow => PeError::Overflow,
            pelite::Error::Encoding => PeError::Encoding,
            pelite::Error::Aliasing => PeError::Aliasing,
        }
    }

    /// Variant for variant.
    pub open spec fn spec_from_pelite(e: pelite::Error) -> PeError {
        match e {
            pelite::Error::Null => PeError::Null,
            pelite::Error::Bounds => PeError::Bounds,
            pelite::Error::ZeroFill => PeError::ZeroFill,
            pelite::Error::Unmapped => PeError::Unmapped,
            pelite::Error::Misaligned => PeError::Misaligned,
            pelite::Error::BadMagic => PeError::BadMagic,
            pelite::Error::PeMagic => PeError::PeMagic,
            pelite::Error::Insanity => PeError::Insanity,
            pelite::Error::Invalid => PeError::Invalid,
            pelite::Error::Overflow => PeError::Overflow,
            pelite::Error::Encoding => PeError::Encoding,
            pelite::Error::Aliasing => PeError::Aliasing,
        }
    }
}

/// The bytes that a checked image views: those that `PeFile::from_bytes` was
/// given.
pub uninterp spec fn image_of(file: PeFile) -> Seq<u8>;

/// What `PeFile::from_bytes` of pelite finds wrong with the headers in
/// `bytes`, and nothing where it accepts them. It is asked of bytes that lie
/// in memory at a multiple of eight; on a 64-bit machine the bytes alone
/// decide it.
pub uninterp spec fn header_fault(bytes: Seq<u8>) -> Option<PeError>;

/// What `Pe::exports`, `Exports::by` and `By::iter_names` of pelite read from
/// an accepted image with these bytes: the named exports in the order of the
/// name table, or the error with which the export directory is refused.
pub uninterp spec fn export_table(bytes: Seq<u8>) -> Result<Seq<ExportEntryView>, PeError>;

/// `PeFile::from_bytes` of pelite: checks the headers of the image in `blob`
/// and hands out a view of the same bytes.
///
/// pelite tests that the bytes start at a multiple of four and that the NT
/// headers lie at a multiple of four behind them, and then reads the NT
/// headers in place, which hold eight-byte fields. The precondition leaves
/// out what that reading must not meet: a buffer of a granularity below
/// eight, and NT headers at an offset that is no multiple of eight. On what
/// is left the bytes alone decide: an accepted image has no fault and is
/// viewed unchanged, a refused one is refused with the fault of its bytes.
#[verifier::external_body]
pub(crate) fn open_image<'a>(blob: &'a Blob) -> (r: Result<PeFile<'a>, pelite::Error>)
    requires
        blob.spec_granularity() >= 8,
        nt_headers_aligned(blob@),
    ensures
        match r {
            Ok(file) => image_of(file) == blob@ && header_fault(blob@) is None,
            Err(e) => header_fault(blob@) == Some(PeError::spec_from_pelite(e)),
        },
{
    PeFile::from_bytes(blob)
}

/// `Pe::optional_header` of pelite: the `ImageBase` and the `SizeOfImage` of
/// the optional header, which are the eight bytes at 48 and the four bytes at
/// 80 in the NT headers, read as the machine reads them, least significant
/// byte first.
#[verifier::external_body]
pub(crate) fn image_bounds(file: PeFile<'_>) -> (r: (u64, u32))
    ensures
        r == image_bounds_of(image_of(file)),
{
    let header = file.optional_header();
    (header.ImageBase, header.SizeOfImage)
}

/// `Pe::section_headers` of pelite: the section table in file order, each
/// entry with its virtual address, virtual size and place in the file.
///
/// pelite reads the entries in place, behind the optional header, and they
/// hold four-byte fields. The precondition leaves out an optional header
/// whose size is no multiple of four. The entries are `NumberOfSections`
/// many, of 40 bytes each, and the three fields lie at 12, 8 and 20.
#[verifier::external_body]
pub(crate) fn image_sections(file: PeFile<'_>) -> (r: Vec<Section>)
    requires
        section_table_aligned(image_of(file)),
    ensures
        r@ == section_table(image_of(file)),
{
    file.section_headers().iter().map(|s| Section {
        virtual_address: s.VirtualAddress,
        virtual_size: s.VirtualSize,
        pointer_to_raw_data: s.PointerToRawData,
    }).collect()
}

/// `Pe::exports` and `Exports::by` of pelite, then `By::iter_names`: the
/// named exports in the order of the name table. A name that cannot be read
/// is handed on as `None`, an export that cannot be resolved as `Unresolved`.
///
/// pelite tests the alignment of what it reads by its relative virtual
/// address and then reads it in place at its position in the file; and to
/// tell a forwarded export it adds the export directory's address and size
/// without a test. The precondition leaves out a section table that is not
/// aligned, a section in which address and position differ modulo four, and
/// an export directory whose end is no address of 32 bits. On what is left
/// the outcome depends on the image's bytes and on nothing else.
#[verifier::external_body]
pub(crate) fn image_exports(file: PeFile<'_>) -> (r: Result<Vec<ExportEntry>, pelite::Error>)
    requires
        section_table_aligned(image_of(file)),
        sections_congruent(section_table(image_of(file))),
        export_directory_fits(image_of(file)),
    ensures
        match r {
            Ok(entries) => export_table(image_of(file)) == Ok::<Seq<ExportEntryView>, PeError>(
                entries_view(entries@),
            ),
            Err(e) => export_table(image_of(file)) == Err::<Seq<ExportEntryView>, PeError>(
                PeError::spec_from_pelite(e),
            ),
        },
{
    let by = file.exports()?.by()?;
    Ok(by.iter_names().map(|(name, export)| ExportEntry {
        name: name.ok().map(|n| n.as_ref().to_vec()),
        target: match export {
            Ok(Export::Symbol(&rva)) => ExportTarget::Symbol(rva),
            Ok(Export::Forward(_)) => ExportTarget::Forward,
            Err(_) => ExportTarget::Unresolved,
        },
    }).collect())
}

} // verus!
