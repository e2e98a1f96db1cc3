//! What holds of every image and every record.

use crate::bytes::{le_at, terminator, zero_from};
use crate::dll::{export_named, object_of, DllError, DllRefView, DllView};
use crate::record::{decode, field, load, raw_record, resolve, RECORD_SIZE};
use crate::search::{is_least, lemma_least_absent, lemma_least_found};
use crate::{Plugin, PluginError, Version, DATA_VERSION, PLUGIN_SYMBOL};
use vstd::prelude::*;
use vstd::string::StringSliceAdditionalSpecFns;
use vstd::utf8::valid_utf8;

verus! {

/// The image exports its record, and the record's address is the place
/// `offset` in the file.
pub open spec fn publishes_at(v: DllView, offset: int) -> bool {
    match v.object.symbol_rva(PLUGIN_SYMBOL.spec_bytes()) {
        Some(rva) => v.offset_of_rva(rva) == Some(offset as nat) && offset >= 0,
        None => false,
    }
}

/// The virtual address `va` leads to a place in the file at which the bytes
/// of `text` lie with a zero byte behind them, and `text` is UTF-8 without a
/// zero byte of its own.
pub open spec fn holds_text(v: DllView, va: u64, text: Seq<u8>) -> bool {
    match v.object.file.rva_of_va(va) {
        Some(rva) => match v.offset_of_rva(rva) {
            Some(start) => {
                &&& start + text.len() < v.mem.len()
                &&& v.mem.subrange(start as int, start as int + text.len()) == text
                &&& v.mem[start as int + text.len()] == 0
                &&& forall|i: int| 0 <= i < text.len() ==> text[i] != 0
                &&& valid_utf8(text)
            },
            None => false,
        },
        None => false,
    }
}

/// The virtual address `va` leads to a place in the file from which on no
/// byte is zero.
pub open spec fn holds_no_terminator(v: DllView, va: u64) -> bool {
    match v.object.file.rva_of_va(va) {
        Some(rva) => match v.offset_of_rva(rva) {
            Some(start) => forall|i: int| start <= i < v.mem.len() ==> v.mem[i] != 0,
            None => false,
        },
        None => false,
    }
}

/// Text that lies in the image as `holds_text` says is resolved to exactly
/// its own bytes.
pub proof fn lemma_resolve_text(v: DllView, va: u64, text: Seq<u8>)
    requires
        v.mem.len() <= usize::MAX,
        holds_text(v, va, text),
    ensures
        resolve(v, va) matches Some(s) && s.bytes_in(v.mem) == text && s.len == text.len(),
{
    let rva = v.object.file.rva_of_va(va).unwrap();
    let start = v.offset_of_rva(rva).unwrap() as int;
    let p = zero_from(v.mem, start);
    let n = v.mem.len() - start;
    let len = text.len() as int;
    assert forall|j: int| 0 <= j < len implies !#[trigger] p(j) by {
        assert(v.mem.subrange(start, start + len)[j] == text[j]);
    }
    assert(is_least(n, p, len));
    lemma_least_found(n, p, len);
}

/// What was written is what is read: where an image publishes a record of a
/// known layout whose three addresses lead to the texts `name`, `author` and
/// `description`, and whose version fields hold `version`, loading gives a
/// record whose texts read back as exactly those bytes and whose version is
/// `version`.
pub proof fn law_round_trip(
    v: DllView,
    offset: int,
    name: Seq<u8>,
    author: Seq<u8>,
    description: Seq<u8>,
    version: Version,
)
    requires
        v.mem.len() <= usize::MAX,
        publishes_at(v, offset),
        offset + RECORD_SIZE <= v.mem.len(),
        1 <= field(v.mem, offset, 0, 8) <= DATA_VERSION,
        holds_text(v, field(v.mem, offset, 8, 8) as u64, name),
        holds_text(v, field(v.mem, offset, 16, 8) as u64, author),
        holds_text(v, field(v.mem, offset, 24, 8) as u64, description),
        field(v.mem, offset, 32, 2) == version.major,
        field(v.mem, offset, 34, 2) == version.minor,
        field(v.mem, offset, 36, 2) == version.patch,
    ensures
        load(v) matches Ok(p) && {
            &&& p.data_ver == field(v.mem, offset, 0, 8)
            &&& p.name.bytes_in(v.mem) == name
            &&& p.author.bytes_in(v.mem) == author
            &&& p.description.bytes_in(v.mem) == description
            &&& p.version == version
        },
{
    lemma_resolve_text(v, field(v.mem, offset, 8, 8) as u64, name);
    lemma_resolve_text(v, field(v.mem, offset, 16, 8) as u64, author);
    lemma_resolve_text(v, field(v.mem, offset, 24, 8) as u64, description);
}

/// The bytes decide: two images of the same bytes, each read as `object_of`
/// says, are the same image, and loading gives the same for both.
pub proof fn law_same_image_same_record(v: DllView, w: DllView)
    requires
        v.mem == w.mem,
        object_of(v.mem) == Ok::<DllRefView, DllError>(v.object),
        object_of(w.mem) == Ok::<DllRefView, DllError>(w.object),
    ensures
        v == w,
        load(v) == load(w),
{
}

/// A record whose tag lies inside the file and names no known layout is
/// refused with `DataVer` and the tag.
pub proof fn law_version_gate(v: DllView, offset: int)
    requires
        le_at(v.mem, offset, 8) matches Some(tag) && !(1 <= tag <= DATA_VERSION),
    ensures
        decode(v, offset) == Err::<Plugin, PluginError>(
            PluginError::DataVer(le_at(v.mem, offset, 8).unwrap() as u64),
        ),
{
}

/// Of a record that names no known layout the tag alone is read: two images
/// that agree on the eight bytes of such a tag are refused alike, whatever
/// else they hold.
pub proof fn law_version_gate_reads_tag_only(v: DllView, w: DllView, offset: int)
    requires
        0 <= offset,
        offset + 8 <= v.mem.len(),
        offset + 8 <= w.mem.len(),
        v.mem.subrange(offset, offset + 8) == w.mem.subrange(offset, offset + 8),
        !(1 <= field(v.mem, offset, 0, 8) <= DATA_VERSION),
    ensures
        decode(v, offset) == decode(w, offset),
        decode(v, offset) is Err,
{
}

/// An image none of whose exports is named `PLUGIN_DATA` gives
/// `SymbolNotFound`.
pub proof fn law_missing_export(v: DllView)
    requires
        forall|i: int|
            0 <= i < v.object.exports.len() ==> (#[trigger] v.object.exports[i]).name != Some(
                PLUGIN_SYMBOL.spec_bytes(),
            ),
    ensures
        load(v) == Err::<Plugin, PluginError>(PluginError::SymbolNotFound),
{
    let p = export_named(v.object.exports, PLUGIN_SYMBOL.spec_bytes());
    assert forall|j: int| 0 <= j < v.object.exports.len() implies !#[trigger] p(j) by {
        assert(v.object.exports[j].name != Some(PLUGIN_SYMBOL.spec_bytes()));
    }
    lemma_least_absent(v.object.exports.len() as int, p);
}

/// No record is read from a place behind which the file has fewer bytes than
/// a record takes.
pub proof fn law_truncated_record_is_refused(v: DllView, offset: int)
    requires
        offset + RECORD_SIZE > v.mem.len(),
    ensures
        decode(v, offset) is Err,
        raw_record(v, offset) is None,
{
}

/// Reading a record from a place behind which the file has fewer bytes than a
/// record takes gives `DataCorrupt`, unless the tag still fits and names no
/// known layout.
pub proof fn law_truncated_record(v: DllView, offset: int)
    requires
        offset + RECORD_SIZE > v.mem.len(),
        le_at(v.mem, offset, 8) matches Some(tag) ==> 1 <= tag <= DATA_VERSION,
    ensures
        decode(v, offset) == Err::<Plugin, PluginError>(PluginError::DataCorrupt),
{
}

/// Where the exported record lies at a place behind which the file has fewer
/// bytes than a record takes, loading gives `DataCorrupt`, unless the tag
/// still fits and names no known layout.
pub proof fn law_truncated_image(v: DllView, offset: int)
    requires
        publishes_at(v, offset),
        offset + RECORD_SIZE > v.mem.len(),
        le_at(v.mem, offset, 8) matches Some(tag) ==> 1 <= tag <= DATA_VERSION,
    ensures
        load(v) == Err::<Plugin, PluginError>(PluginError::DataCorrupt),
{
}

/// An address that leads to a place from which on no byte is zero refers to
/// no text.
pub proof fn law_unterminated_text(v: DllView, va: u64)
    requires
        holds_no_terminator(v, va),
    ensures
        resolve(v, va) is None,
{
    let rva = v.object.file.rva_of_va(va).unwrap();
    let start = v.offset_of_rva(rva).unwrap() as int;
    let p = zero_from(v.mem, start);
    lemma_least_absent(v.mem.len() - start, p);
}

/// A record of a known layout one of whose three addresses leads to text
/// without a terminator gives `DataCorrupt`.
pub proof fn law_unterminated_text_corrupts(v: DllView, offset: int)
    requires
        le_at(v.mem, offset, 8) matches Some(tag) && 1 <= tag <= DATA_VERSION,
        offset + RECORD_SIZE <= v.mem.len(),
        holds_no_terminator(v, field(v.mem, offset, 8, 8) as u64) || holds_no_terminator(
            v,
            field(v.mem, offset, 16, 8) as u64,
        ) || holds_no_terminator(v, field(v.mem, offset, 24, 8) as u64),
    ensures
        decode(v, offset) == Err::<Plugin, PluginError>(PluginError::DataCorrupt),
{
    if holds_no_terminator(v, field(v.mem, offset, 8, 8) as u64) {
        law_unterminated_text(v, field(v.mem, offset, 8, 8) as u64);
    }
    if holds_no_terminator(v, field(v.mem, offset, 16, 8) as u64) {
        law_unterminated_text(v, field(v.mem, offset, 16, 8) as u64);
    }
    if holds_no_terminator(v, field(v.mem, offset, 24, 8) as u64) {
        law_unterminated_text(v, field(v.mem, offset, 24, 8) as u64);
    }
}

/// A text whose address leads to the very end of the file is no text.
pub proof fn law_text_at_end_of_file(v: DllView, va: u64)
    requires
        v.object.file.rva_of_va(va) matches Some(rva) && v.offset_of_rva(rva) == Some(v.mem.len()),
    ensures
        resolve(v, va) is None,
{
    law_unterminated_text(v, va);
}

/// The empty text is text: where a zero byte lies at the very place that an
/// address leads to, the text is there and has no bytes.
pub proof fn law_empty_text(v: DllView, va: u64)
    requires
        v.mem.len() <= usize::MAX,
        holds_text(v, va, Seq::<u8>::empty()),
    ensures
        resolve(v, va) matches Some(s) && s.len == 0,
{
    lemma_resolve_text(v, va, Seq::<u8>::empty());
}

} // verus!
