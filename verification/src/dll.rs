//! An image held in memory, with what its headers say.

use crate::blob::Blob;
use crate::bytes::bytes_eq;
use crate::header::{
    check_export_directory, check_nt_headers, check_section_table, check_sections,
    export_directory_fits, image_bounds_of, nt_headers_aligned, section_table,
    section_table_aligned, sections_congruent,
};
use crate::pe::{
    export_table, header_fault, image_bounds, image_exports, image_sections, open_image, PeError,
};
use crate::search::{is_least, least, lemma_least_absent, lemma_least_found};
use vstd::prelude::*;
use vstd::string::StringSliceAdditionalSpecFns;

verus! {

/// One entry of the section table.
#[derive(Debug, Copy, Clone, PartialEq, Eq, Structural)]
pub struct Section {
    /// Where the section starts in the loaded image.
    pub virtual_address: u32,
    /// How many bytes it takes in the loaded image.
    pub virtual_size: u32,
    /// Where its bytes start in the file.
    pub pointer_to_raw_data: u32,
}

impl Section {
    /// Whether `rva` lies in the section's range of virtual addresses.
    pub open spec fn contains(self, rva: u32) -> bool {
        self.virtual_address <= rva < self.virtual_address + self.virtual_size
    }

    /// The place in the file of an address that the section contains.
    pub open spec fn file_offset(self, rva: u32) -> int {
        rva - self.virtual_address + self.pointer_to_raw_data
    }
}

/// What an exported name stands for.
#[derive(Debug, Copy, Clone, PartialEq, Eq, Structural)]
pub enum ExportTarget {
    /// A symbol of this image, at this relative virtual address.
    Symbol(u32),
    /// A symbol of another image.
    Forward,
    /// Nothing that could be read.
    Unresolved,
}

/// One named export.
#[derive(Debug)]
pub struct ExportEntry {
    /// The bytes of the name without its terminator, where they could be read.
    pub name: Option<Vec<u8>>,
    /// What the name stands for.
    pub target: ExportTarget,
}

/// An `ExportEntry` as a value of mathematics.
pub struct ExportEntryView {
    pub name: Option<Seq<u8>>,
    pub target: ExportTarget,
}

impl View for ExportEntry {
    type V = ExportEntryView;

    open spec fn view(&self) -> ExportEntryView {
        ExportEntryView {
            name: match self.name {
                Some(n) => Some(n@),
                None => None,
            },
            target: self.target,
        }
    }
}

/// What the headers of an image say of its layout.
#[derive(Debug)]
pub struct PeHeaders {
    /// The address at which the image prefers to be loaded.
    pub image_base: u64,
    /// The number of bytes the loaded image takes.
    pub size_of_image: u32,
    /// The section table, in file order.
    pub sections: Vec<Section>,
}

/// `PeHeaders` as a value of mathematics.
pub struct PeHeadersView {
    pub image_base: u64,
    pub size_of_image: u32,
    pub sections: Seq<Section>,
}

impl View for PeHeaders {
    type V = PeHeadersView;

    open spec fn view(&self) -> PeHeadersView {
        PeHeadersView {
            image_base: self.image_base,
            size_of_image: self.size_of_image,
            sections: self.sections@,
        }
    }
}

/// Holds at `i` when the section at `i` contains `rva`.
pub open spec fn section_holding(sections: Seq<Section>, rva: u32) -> spec_fn(int) -> bool {
    |i: int| sections[i].contains(rva)
}

impl PeHeadersView {
    /// The relative virtual address of `va`: its distance from the image's
    /// base, where that is neither negative nor beyond the loaded image.
    pub open spec fn rva_of_va(self, va: u64) -> Option<u32> {
        if self.image_base <= va && va - self.image_base <= self.size_of_image {
            Some((va - self.image_base) as u32)
        } else {
            None
        }
    }

    /// The first section that contains `rva`.
    pub open spec fn section_of(self, rva: u32) -> Option<int> {
        least(self.sections.len() as int, section_holding(self.sections, rva))
    }

    /// The place of `rva` in a file of `file_len` bytes: as far into the file
    /// data of the first section that contains it as `rva` is into that
    /// section, where that is not beyond the file's end.
    pub open spec fn offset_of_rva(self, rva: u32, file_len: nat) -> Option<nat> {
        match self.section_of(rva) {
            Some(i) => {
                let offset = self.sections[i].file_offset(rva);
                if offset <= file_len {
                    Some(offset as nat)
                } else {
                    None
                }
            },
            None => None,
        }
    }
}

impl PeHeaders {
    /// Turns a virtual address into one relative to the image's base.
    ///
    /// Fails with `Bounds` on an address below the base or beyond the loaded
    /// image.
    pub fn va_to_rva(&self, va: u64) -> (r: Result<u32, PeError>)
        ensures
            match self@.rva_of_va(va) {
                Some(rva) => r == Ok::<u32, PeError>(rva),
                None => r == Err::<u32, PeError>(PeError::Bounds),
            },
    {
        if va < self.image_base || va - self.image_base > self.size_of_image as u64 {
            Err(PeError::Bounds)
        } else {
            Ok((va - self.image_base) as u32)
        }
    }

    /// Turns a relative virtual address into an offset into a file of
    /// `file_len` bytes.
    ///
    /// Fails with `Bounds` where no section contains the address, or where the
    /// offset would lie beyond the file's end.
    pub fn rva_to_file_offset(&self, rva: u32, file_len: usize) -> (r: Result<usize, PeError>)
        ensures
            match self@.offset_of_rva(rva, file_len as nat) {
                Some(offset) => r matches Ok(x) && x == offset,
                None => r == Err::<usize, PeError>(PeError::Bounds),
            },
    {
        let ghost p = section_holding(self.sections@, rva);
        let mut i: usize = 0;
        while i < self.sections.len()
            invariant
                i <= self.sections@.len(),
                p == section_holding(self.sections@, rva),
                forall|j: int| 0 <= j < i ==> !#[trigger] p(j),
            decreases self.sections@.len() - i,
        {
            let s = self.sections[i];
            if s.virtual_address <= rva && rva - s.virtual_address < s.virtual_size {
                proof {
                    assert(is_least(self.sections@.len() as int, p, i as int));
                    lemma_least_found(self.sections@.len() as int, p, i as int);
                }
                let offset: u64 = (rva - s.virtual_address) as u64 + s.pointer_to_raw_data as u64;
                if offset <= file_len as u64 {
                    return Ok(offset as usize);
                } else {
                    return Err(PeError::Bounds);
                }
            }
            i = i + 1;
        }
        proof {
            lemma_least_absent(self.sections@.len() as int, p);
        }
        Err(PeError::Bounds)
    }
}

/// What was read of an image: its layout and its named exports.
#[derive(Debug)]
pub struct DllRef {
    /// The layout of the image.
    pub file: PeHeaders,
    /// The named exports, in the order of the name table.
    pub exports: Vec<ExportEntry>,
}

/// `DllRef` as a value of mathematics.
pub struct DllRefView {
    pub file: PeHeadersView,
    pub exports: Seq<ExportEntryView>,
}

/// Each export as a value of mathematics, in the same order.
pub open spec fn entries_view(entries: Seq<ExportEntry>) -> Seq<ExportEntryView> {
    Seq::new(entries.len(), |i: int| entries[i]@)
}

impl View for DllRef {
    type V = DllRefView;

    open spec fn view(&self) -> DllRefView {
        DllRefView { file: self.file@, exports: entries_view(self.exports@) }
    }
}

/// Holds at `i` when the export at `i` has exactly the name `name`.
pub open spec fn export_named(exports: Seq<ExportEntryView>, name: Seq<u8>) -> spec_fn(int) -> bool {
    |i: int| exports[i].name == Some(name)
}

impl DllRefView {
    /// What the first export named `name` stands for.
    pub open spec fn export_target(self, name: Seq<u8>) -> Option<ExportTarget> {
        match least(self.exports.len() as int, export_named(self.exports, name)) {
            Some(i) => Some(self.exports[i].target),
            None => None,
        }
    }

    /// The address of the symbol exported as `name`, where that name is
    /// exported and stands for a symbol of this image.
    pub open spec fn symbol_rva(self, name: Seq<u8>) -> Option<u32> {
        match self.export_target(name) {
            Some(ExportTarget::Symbol(rva)) => Some(rva),
            _ => None,
        }
    }

    /// Whether `name` is exported and stands for something.
    pub open spec fn symbol_exists(self, name: Seq<u8>) -> bool {
        match self.export_target(name) {
            Some(ExportTarget::Symbol(_)) => true,
            Some(ExportTarget::Forward) => true,
            _ => false,
        }
    }
}

impl DllRef {
    /// Looks `name` up in the export table, first entry first.
    pub fn find_export(&self, name: &[u8]) -> (r: Option<ExportTarget>)
        ensures
            r == self@.export_target(name@),
    {
        let ghost p = export_named(self@.exports, name@);
        let mut i: usize = 0;
        while i < self.exports.len()
            invariant
                i <= self.exports@.len(),
                p == export_named(self@.exports, name@),
                forall|j: int| 0 <= j < i ==> !#[trigger] p(j),
            decreases self.exports@.len() - i,
        {
            let same = match &self.exports[i].name {
                Some(n) => bytes_eq(n.as_slice(), name),
                None => false,
            };
            if same {
                proof {
                    assert(is_least(self@.exports.len() as int, p, i as int));
                    lemma_least_found(self@.exports.len() as int, p, i as int);
                }
                return Some(self.exports[i].target);
            }
            i = i + 1;
        }
        proof {
            lemma_least_absent(self@.exports.len() as int, p);
        }
        None
    }
}

/// Why an image could not be read.
#[derive(Debug, Copy, Clone, PartialEq, Eq, Structural)]
pub enum DllError {
    /// The headers are not those of a sound image.
    Parse(PeError),
    /// The export directory could not be read.
    Pelite(PeError),
}

/// An image in memory together with what was read of it.
pub struct Dll {
    blob: Blob,
    object: DllRef,
}

/// `Dll` as a value of mathematics.
pub struct DllView {
    /// The bytes of the file.
    pub mem: Seq<u8>,
    pub object: DllRefView,
}

impl DllView {
    /// The place in the file of a relative virtual address.
    pub open spec fn offset_of_rva(self, rva: u32) -> Option<nat> {
        self.object.file.offset_of_rva(rva, self.mem.len())
    }
}

/// What reading an image with these bytes gives. In this order:
///
/// - NT headers that lie at no multiple of eight are `Parse(Misaligned)`;
/// - a fault that the header check finds is `Parse` with that fault;
/// - a section table that lies at no multiple of four, or a section whose
///   address and place in the file differ modulo four, is
///   `Parse(Misaligned)`;
/// - an export directory that ends beyond the addresses of 32 bits is
///   `Pelite(Overflow)`;
/// - an export directory that cannot be read is `Pelite` with its error;
/// - else the layout is what the headers hold, and the exports are those of
///   the export directory.
pub open spec fn object_of(image: Seq<u8>) -> Result<DllRefView, DllError> {
    if !nt_headers_aligned(image) {
        Err(DllError::Parse(PeError::Misaligned))
    } else {
        match header_fault(image) {
            Some(e) => Err(DllError::Parse(e)),
            None => {
                if !section_table_aligned(image) || !sections_congruent(section_table(image)) {
                    Err(DllError::Parse(PeError::Misaligned))
                } else if !export_directory_fits(image) {
                    Err(DllError::Pelite(PeError::Overflow))
                } else {
                    match export_table(image) {
                        Err(e) => Err(DllError::Pelite(e)),
                        Ok(exports) => Ok(
                            DllRefView {
                                file: PeHeadersView {
                                    image_base: image_bounds_of(image).0,
                                    size_of_image: image_bounds_of(image).1,
                                    sections: section_table(image),
                                },
                                exports,
                            },
                        ),
                    }
                }
            },
        }
    }
}

/// What reading the image in a buffer gives: a buffer of a granularity below
/// eight is `Parse(Misaligned)`, whatever it holds; of any other, what
/// `object_of` says of its bytes.
pub open spec fn read_of(image: Seq<u8>, granularity: usize) -> Result<DllRefView, DllError> {
    if granularity < 8 {
        Err(DllError::Parse(PeError::Misaligned))
    } else {
        object_of(image)
    }
}

impl View for Dll {
    type V = DllView;

    closed spec fn view(&self) -> DllView {
        DllView { mem: self.blob@, object: self.object@ }
    }
}

impl Dll {
    /// Reads the headers and the export directory of the image in `blob`.
    ///
    /// The image is accepted exactly where `read_of` says so of its bytes and
    /// of the buffer's granularity. An accepted image keeps its bytes as they
    /// are, and what was read of it is what `read_of` gives; a refused one is
    /// refused with the error that `read_of` gives.
    pub fn new(blob: Blob) -> (r: Result<Dll, DllError>)
        ensures
            match r {
                Ok(dll) => dll@.mem == blob@ && read_of(blob@, blob.spec_granularity()) == Ok::<
                    DllRefView,
                    DllError,
                >(dll@.object),
                Err(e) => read_of(blob@, blob.spec_granularity()) == Err::<DllRefView, DllError>(e),
            },
    {
        match Dll::read_object(&blob) {
            Ok(object) => Ok(Dll::from_parts(blob, object)),
            Err(e) => Err(e),
        }
    }

    fn read_object(blob: &Blob) -> (r: Result<DllRef, DllError>)
        ensures
            match r {
                Ok(object) => read_of(blob@, blob.spec_granularity()) == Ok::<
                    DllRefView,
                    DllError,
                >(object@),
                Err(e) => read_of(blob@, blob.spec_granularity()) == Err::<DllRefView, DllError>(e),
            },
    {
        let image = blob.as_slice();
        if blob.granularity() < 8 || !check_nt_headers(image) {
            return Err(DllError::Parse(PeError::Misaligned));
        }
        let file = match open_image(blob) {
            Ok(file) => file,
            Err(e) => {
                return Err(DllError::Parse(PeError::from_pelite(e)));
            },
        };
        if !check_section_table(image) {
            return Err(DllError::Parse(PeError::Misaligned));
        }
        let (image_base, size_of_image) = image_bounds(file);
        let sections = image_sections(file);
        if !check_sections(&sections) {
            return Err(DllError::Parse(PeError::Misaligned));
        }
        if !check_export_directory(image) {
            return Err(DllError::Pelite(PeError::Overflow));
        }
        match image_exports(file) {
            Ok(exports) => Ok(
                DllRef { file: PeHeaders { image_base, size_of_image, sections }, exports },
            ),
            Err(e) => Err(DllError::Pelite(PeError::from_pelite(e))),
        }
    }

    /// Puts an image together from its bytes and from what was read of it.
    pub fn from_parts(blob: Blob, object: DllRef) -> (dll: Dll)
        ensures
            dll@ == (DllView { mem: blob@, object: object@ }),
    {
        Dll { blob, object }
    }

    /// Whether `name` is exported and stands for something.
    pub fn symbol_exists(&self, name: &str) -> (r: bool)
        ensures
            r == self@.object.symbol_exists(name.spec_bytes()),
    {
        match self.object.find_export(name.as_bytes()) {
            Some(ExportTarget::Symbol(_)) => true,
            Some(ExportTarget::Forward) => true,
            _ => false,
        }
    }

    /// The relative virtual address of the symbol exported as `name`.
    pub fn symbol_rva(&self, name: &str) -> (r: Option<u32>)
        ensures
            r == self@.object.symbol_rva(name.spec_bytes()),
    {
        match self.object.find_export(name.as_bytes()) {
            Some(ExportTarget::Symbol(rva)) => Some(rva),
            _ => None,
        }
    }

    /// What was read of the image.
    pub fn object(&self) -> (r: &DllRef)
        ensures
            r@ == self@.object,
    {
        &self.object
    }

    /// The bytes of the file.
    pub fn mem(&self) -> (r: &[u8])
        ensures
            r@ == self@.mem,
    {
        self.blob.as_slice()
    }

    /// Turns a relative virtual address into an offset into the file.
    ///
    /// Fails with `Bounds` where no section contains the address, or where the
    /// offset would lie beyond the file's end.
    pub fn rva_to_file_offset(&self, rva: u32) -> (r: Result<usize, PeError>)
        ensures
            match self@.offset_of_rva(rva) {
                Some(offset) => r matches Ok(x) && x == offset,
                None => r == Err::<usize, PeError>(PeError::Bounds),
            },
    {
        self.object.file.rva_to_file_offset(rva, self.blob.len())
    }
}

} // verus!
