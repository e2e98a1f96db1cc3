//! The layout of the record and how it is read.

use crate::bytes::{le_at, le_value, read_u16_at, read_u64_at};
use crate::dll::{Dll, DllView};
use crate::pe::PeError;
use crate::rstr::RStr;
use crate::{Plugin, PluginError, Version, DATA_VERSION, PLUGIN_SYMBOL};
use vstd::prelude::*;
use vstd::string::StringSliceAdditionalSpecFns;

verus! {

/// The number of bytes of a record: the tag, three addresses, three version
/// numbers.
pub const RECORD_SIZE: usize = 38;

/// The little-endian number in the `width` bytes that lie `at` bytes into the
/// record at `offset`.
pub open spec fn field(mem: Seq<u8>, offset: int, at: int, width: int) -> nat {
    le_value(mem.subrange(offset + at, offset + at + width))
}

/// The text that the virtual address `va` refers to: the address is made
/// relative to the image's base, then turned into a place in the file, and
/// the text is read from there.
pub open spec fn resolve(v: DllView, va: u64) -> Option<RStr> {
    match v.object.file.rva_of_va(va) {
        Some(rva) => match v.offset_of_rva(rva) {
            Some(offset) => RStr::at(v.mem, offset as int),
            None => None,
        },
        None => None,
    }
}

/// The record at `offset` read in the current layout, whatever its tag says:
/// there only if all of it lies inside the file and each of its three texts
/// can be resolved.
pub open spec fn raw_record(v: DllView, offset: int) -> Option<Plugin> {
    if 0 <= offset && offset + RECORD_SIZE <= v.mem.len() {
        match (
            resolve(v, field(v.mem, offset, 8, 8) as u64),
            resolve(v, field(v.mem, offset, 16, 8) as u64),
            resolve(v, field(v.mem, offset, 24, 8) as u64),
        ) {
            (Some(name), Some(author), Some(description)) => Some(
                Plugin {
                    data_ver: field(v.mem, offset, 0, 8) as u64,
                    name,
                    author,
                    description,
                    version: Version {
                        major: field(v.mem, offset, 32, 2) as u16,
                        minor: field(v.mem, offset, 34, 2) as u16,
                        patch: field(v.mem, offset, 36, 2) as u16,
                    },
                },
            ),
            _ => None,
        }
    } else {
        None
    }
}

/// What reading the record at `offset` gives. The tag is judged first and
/// alone: nothing behind it is looked at unless it names a known layout.
pub open spec fn decode(v: DllView, offset: int) -> Result<Plugin, PluginError> {
    match le_at(v.mem, offset, 8) {
        None => Err(PluginError::DataCorrupt),
        Some(tag) => {
            if 1 <= tag <= DATA_VERSION {
                match raw_record(v, offset) {
                    Some(plugin) => Ok(plugin),
                    None => Err(PluginError::DataCorrupt),
                }
            } else {
                Err(PluginError::DataVer(tag as u64))
            }
        },
    }
}

/// What loading the record of an image gives: the exported symbol is looked
/// up, its address is turned into a place in the file, and the record is read
/// there.
pub open spec fn load(v: DllView) -> Result<Plugin, PluginError> {
    match v.object.symbol_rva(PLUGIN_SYMBOL.spec_bytes()) {
        None => Err(PluginError::SymbolNotFound),
        Some(rva) => match v.offset_of_rva(rva) {
            None => Err(PluginError::Pelite(PeError::Bounds)),
            Some(offset) => decode(v, offset as int),
        },
    }
}

/// A record that was read names a known layout, and its texts are valid in
/// the image it was read from.
pub proof fn lemma_decode_valid(v: DllView, offset: int)
    requires
        v.mem.len() <= usize::MAX,
    ensures
        decode(v, offset) matches Ok(p) ==> {
            &&& 1 <= p.data_ver <= DATA_VERSION
            &&& p.name.valid_in(v.mem)
            &&& p.author.valid_in(v.mem)
            &&& p.description.valid_in(v.mem)
        },
{
    if let Ok(p) = decode(v, offset) {
        lemma_resolve_valid(v, field(v.mem, offset, 8, 8) as u64);
        lemma_resolve_valid(v, field(v.mem, offset, 16, 8) as u64);
        lemma_resolve_valid(v, field(v.mem, offset, 24, 8) as u64);
    }
}

/// A record that was loaded names a known layout, and its texts are valid in
/// the image it was loaded from.
pub proof fn lemma_load_valid(v: DllView)
    requires
        v.mem.len() <= usize::MAX,
    ensures
        load(v) matches Ok(p) ==> {
            &&& 1 <= p.data_ver <= DATA_VERSION
            &&& p.name.valid_in(v.mem)
            &&& p.author.valid_in(v.mem)
            &&& p.description.valid_in(v.mem)
        },
{
    if let Ok(p) = load(v) {
        let rva = v.object.symbol_rva(PLUGIN_SYMBOL.spec_bytes()).unwrap();
        let offset = v.offset_of_rva(rva).unwrap();
        lemma_decode_valid(v, offset as int);
    }
}

/// A text that was resolved is valid in the image.
pub proof fn lemma_resolve_valid(v: DllView, va: u64)
    requires
        v.mem.len() <= usize::MAX,
    ensures
        resolve(v, va) matches Some(s) ==> s.valid_in(v.mem),
{
    if let Some(s) = resolve(v, va) {
        let rva = v.object.file.rva_of_va(va).unwrap();
        let offset = v.offset_of_rva(rva).unwrap();
        RStr::lemma_at_valid(v.mem, offset as int);
    }
}

impl Dll {
    /// Finds the text that the virtual address `va` refers to.
    ///
    /// There is none where the address lies outside the loaded image, in no
    /// section or beyond the file, where no zero byte follows in the file, or
    /// where the bytes up to it are not UTF-8.
    pub fn read_rstr(&self, va: u64) -> (r: Option<RStr>)
        ensures
            r == resolve(self@, va),
    {
        let rva = match self.object().file.va_to_rva(va) {
            Ok(rva) => rva,
            Err(_) => {
                return None;
            },
        };
        let offset = match self.rva_to_file_offset(rva) {
            Ok(offset) => offset,
            Err(_) => {
                return None;
            },
        };
        RStr::read(self.mem(), offset)
    }
}

impl Plugin {
    /// Reads the record at `offset` in the current layout, whatever its tag
    /// says.
    pub fn from_raw(dll: &Dll, offset: usize) -> (r: Option<Plugin>)
        ensures
            r == raw_record(dll@, offset as int),
    {
        let mem = dll.mem();
        if offset > mem.len() || mem.len() - offset < RECORD_SIZE {
            return None;
        }
        let data_ver = match read_u64_at(mem, offset) {
            Some(v) => v,
            None => {
                return None;
            },
        };
        let name_ref = match read_u64_at(mem, offset + 8) {
            Some(v) => v,
            None => {
                return None;
            },
        };
        let author_ref = match read_u64_at(mem, offset + 16) {
            Some(v) => v,
            None => {
                return None;
            },
        };
        let description_ref = match read_u64_at(mem, offset + 24) {
            Some(v) => v,
            None => {
                return None;
            },
        };
        let major = match read_u16_at(mem, offset + 32) {
            Some(v) => v,
            None => {
                return None;
            },
        };
        let minor = match read_u16_at(mem, offset + 34) {
            Some(v) => v,
            None => {
                return None;
            },
        };
        let patch = match read_u16_at(mem, offset + 36) {
            Some(v) => v,
            None => {
                return None;
            },
        };
        let name = match dll.read_rstr(name_ref) {
            Some(s) => s,
            None => {
                return None;
            },
        };
        let author = match dll.read_rstr(author_ref) {
            Some(s) => s,
            None => {
                return None;
            },
        };
        let description = match dll.read_rstr(description_ref) {
            Some(s) => s,
            None => {
                return None;
            },
        };
        Some(
            Plugin {
                data_ver,
                name,
                author,
                description,
                version: Version { major, minor, patch },
            },
        )
    }

    /// Reads the record at `offset`.
    ///
    /// `DataCorrupt` where the eight bytes of the tag do not lie inside the
    /// file; else `DataVer` with the tag where it is not between 1 and
    /// `DATA_VERSION`; else `DataCorrupt` where the rest of the record does
    /// not fit, or one of its texts cannot be found, has no terminator or is
    /// not UTF-8.
    pub fn decode(dll: &Dll, offset: usize) -> (r: Result<Plugin, PluginError>)
        ensures
            r == decode(dll@, offset as int),
    {
        let tag = match read_u64_at(dll.mem(), offset) {
            Some(tag) => tag,
            None => {
                return Err(PluginError::DataCorrupt);
            },
        };
        if tag < 1 || tag > DATA_VERSION {
            return Err(PluginError::DataVer(tag));
        }
        match Plugin::from_raw(dll, offset) {
            Some(plugin) => Ok(plugin),
            None => Err(PluginError::DataCorrupt),
        }
    }
}

} // verus!
