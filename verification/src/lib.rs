//! Reads the metadata record that a plugin library publishes inside its own
//! image, without loading or running the library.
//!
//! A conforming image exports the symbol `PLUGIN_DATA`. At that symbol lies a
//! packed little-endian record: an eight-byte version tag, three eight-byte
//! virtual addresses of zero-terminated UTF-8 text (name, author,
//! description), and three two-byte version numbers.

pub mod blob;
pub mod bytes;
pub mod dll;
pub mod header;
pub mod laws;
pub mod number;
pub mod pe;
pub mod record;
pub mod rstr;
pub mod search;

pub use crate::blob::{Blob, BlobError};
pub use crate::dll::{Dll, DllError, DllRef, ExportEntry, ExportTarget, PeHeaders, Section};
pub use crate::number::{convert_str_to_u16, try_convert_str_to_u16};
pub use crate::pe::PeError;
pub use crate::rstr::RStr;

use crate::dll::{read_of, DllRefView, DllView};
use crate::record::{lemma_load_valid, load};
use vstd::prelude::*;
use vstd::string::StringSliceAdditionalSpecFns;

verus! {

/// The newest record layout this library understands.
pub const DATA_VERSION: u64 = 1;

/// The name under which a conforming image exports its record.
pub const PLUGIN_SYMBOL: &'static str = "PLUGIN_DATA";

/// Semantic version of a plugin, as stored in its record.
#[derive(Debug, Copy, Clone, PartialEq, Eq, Structural)]
pub struct Version {
    pub major: u16,
    pub minor: u16,
    pub patch: u16,
}

/// What a plugin says of itself.
///
/// The three texts are named by their place in the image that the record was
/// read from, and are read through it.
#[derive(Debug, Copy, Clone, PartialEq, Eq, Structural)]
pub struct Plugin {
    /// The layout of the record, between 1 and `DATA_VERSION`.
    pub data_ver: u64,
    pub name: RStr,
    pub author: RStr,
    pub description: RStr,
    pub version: Version,
}

/// Why no record could be read from an image.
#[derive(Debug, Copy, Clone, PartialEq, Eq, Structural)]
pub enum PluginError {
    /// The record claims a known layout, but what it holds is not sound.
    DataCorrupt,
    /// An address that the image gives does not lie inside it.
    Pelite(PeError),
    /// The image does not export a record.
    SymbolNotFound,
    /// The record is of a layout that this library does not know.
    DataVer(u64),
    /// The image itself could not be read.
    Dll(DllError),
}

/// An image together with the record that was read from it.
///
/// The record's texts lie in the image's bytes; both live and end together.
pub struct PluginData {
    dll: Dll,
    plugin: Plugin,
}

/// `PluginData` as a value of mathematics.
pub struct PluginDataView {
    pub dll: DllView,
    pub plugin: Plugin,
}

impl View for PluginData {
    type V = PluginDataView;

    closed spec fn view(&self) -> PluginDataView {
        PluginDataView { dll: self.dll@, plugin: self.plugin }
    }
}

impl PluginData {
    #[verifier::type_invariant]
    spec fn inv(self) -> bool {
        load(self.dll@) == Ok::<Plugin, PluginError>(self.plugin)
    }

    /// Reads the image in `blob` and the record it exports.
    ///
    /// An image that `Dll::new` refuses is refused here with the same error,
    /// as `Dll`. Of an image that it accepts, what is returned is what
    /// `from_dll` returns for it.
    pub fn new(blob: Blob) -> (r: Result<PluginData, PluginError>)
        ensures
            match r {
                Ok(data) => data@.dll.mem == blob@ && read_of(blob@, blob.spec_granularity())
                    == Ok::<DllRefView, DllError>(data@.dll.object) && load(data@.dll) == Ok::<
                    Plugin,
                    PluginError,
                >(data@.plugin),
                Err(PluginError::Dll(e)) => read_of(blob@, blob.spec_granularity()) == Err::<
                    DllRefView,
                    DllError,
                >(e),
                Err(e) => read_of(blob@, blob.spec_granularity()) matches Ok(object) && load(
                    (DllView { mem: blob@, object }),
                ) == Err::<Plugin, PluginError>(e),
            },
    {
        match Dll::new(blob) {
            Ok(dll) => PluginData::from_dll(dll),
            Err(e) => Err(PluginError::Dll(e)),
        }
    }

    /// Finds the record that `dll` exports and reads it.
    ///
    /// The errors, in the order in which they are looked for:
    /// `SymbolNotFound` where the image exports no symbol `PLUGIN_DATA`;
    /// `Pelite(Bounds)` where the symbol's address lies in no section or
    /// beyond the file; `DataCorrupt` where the version tag does not fit into
    /// the file; `DataVer` where the tag is not between 1 and `DATA_VERSION`;
    /// `DataCorrupt` where the rest of the record does not fit, or one of its
    /// texts cannot be found, has no terminator or is not UTF-8.
    pub fn from_dll(dll: Dll) -> (r: Result<PluginData, PluginError>)
        ensures
            match load(dll@) {
                Ok(plugin) => r matches Ok(data) && data@ == (PluginDataView { dll: dll@, plugin }),
                Err(e) => r matches Err(x) && x == e,
            },
    {
        let rva = match dll.symbol_rva(PLUGIN_SYMBOL) {
            Some(rva) => rva,
            None => {
                return Err(PluginError::SymbolNotFound);
            },
        };
        let offset = match dll.rva_to_file_offset(rva) {
            Ok(offset) => offset,
            Err(e) => {
                return Err(PluginError::Pelite(e));
            },
        };
        match Plugin::decode(&dll, offset) {
            Ok(plugin) => Ok(PluginData { dll, plugin }),
            Err(e) => Err(e),
        }
    }

    /// The record.
    pub fn plugin(&self) -> (p: Plugin)
        ensures
            p == self@.plugin,
            load(self@.dll) == Ok::<Plugin, PluginError>(p),
    {
        proof {
            use_type_invariant(self);
        }
        self.plugin
    }

    /// The image that the record was read from.
    pub fn dll(&self) -> (d: &Dll)
        ensures
            d@ == self@.dll,
    {
        &self.dll
    }

    /// The plugin's name.
    pub fn name(&self) -> (s: &str)
        ensures
            s.spec_bytes() == self@.plugin.name.bytes_in(self@.dll.mem),
    {
        self.text(self.plugin.name)
    }

    /// The plugin's author.
    pub fn author(&self) -> (s: &str)
        ensures
            s.spec_bytes() == self@.plugin.author.bytes_in(self@.dll.mem),
    {
        self.text(self.plugin.author)
    }

    /// The plugin's description.
    pub fn description(&self) -> (s: &str)
        ensures
            s.spec_bytes() == self@.plugin.description.bytes_in(self@.dll.mem),
    {
        self.text(self.plugin.description)
    }

    /// The plugin's version.
    pub fn version(&self) -> (v: Version)
        ensures
            v == self@.plugin.version,
    {
        self.plugin.version
    }

    fn text(&self, span: RStr) -> (s: &str)
        requires
            span == self@.plugin.name || span == self@.plugin.author || span
                == self@.plugin.description,
        ensures
            s.spec_bytes() == span.bytes_in(self@.dll.mem),
    {
        let mem = self.dll.mem();
        proof {
            use_type_invariant(self);
            assert(mem.len() == mem@.len());
            lemma_load_valid(self.dll@);
        }
        match span.as_str(mem) {
            Some(s) => s,
            None => {
                assert(false);
                ""
            },
        }
    }
}

} // verus!
