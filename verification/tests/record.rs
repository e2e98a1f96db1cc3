//! Records, decoded from buffers written by hand.

use native_plugin_lib::{
    Blob, Dll, DllRef, ExportEntry, ExportTarget, PeError, PeHeaders, Plugin, PluginData,
    PluginError, RStr, Section, Version, DATA_VERSION, PLUGIN_SYMBOL,
};

const BASE: u64 = 0x7FF6_0000_0000;
const RVA: u32 = 0x3000;

/// An image whose one section maps the relative virtual addresses from
/// `RVA` on to the file from its first byte on, and which exports its record
/// at the place `record_at` in the file.
fn image(mem: &[u8], record_at: usize) -> Dll {
    image_exporting(mem, PLUGIN_SYMBOL.as_bytes(), record_at)
}

fn image_exporting(mem: &[u8], name: &[u8], record_at: usize) -> Dll {
    let mut blob = Blob::new_zeroed(mem.len(), 4096).unwrap();
    assert!(blob.write(0, mem));
    let file = PeHeaders {
        image_base: BASE,
        size_of_image: 0x10_0000,
        sections: vec![Section {
            virtual_address: RVA,
            virtual_size: 0x1000,
            pointer_to_raw_data: 0,
        }],
    };
    let exports = vec![ExportEntry {
        name: Some(name.to_vec()),
        target: ExportTarget::Symbol(RVA + record_at as u32),
    }];
    Dll::from_parts(blob, DllRef { file, exports })
}

fn va_of(offset: usize) -> u64 {
    BASE + RVA as u64 + offset as u64
}

/// A record at `at` whose texts lie at the given places in the file.
fn write_record(mem: &mut [u8], at: usize, tag: u64, texts: [u64; 3], version: [u16; 3]) {
    mem[at..at + 8].copy_from_slice(&tag.to_le_bytes());
    for (i, va) in texts.iter().enumerate() {
        mem[at + 8 + 8 * i..at + 16 + 8 * i].copy_from_slice(&va.to_le_bytes());
    }
    for (i, n) in version.iter().enumerate() {
        mem[at + 32 + 2 * i..at + 34 + 2 * i].copy_from_slice(&n.to_le_bytes());
    }
}

/// A buffer of 256 bytes, none of them zero, with a record at 16 and the
/// three texts from 64 on.
fn buffer(tag: u64, name: &[u8], author: &[u8], description: &[u8], version: [u16; 3]) -> Vec<u8> {
    let mut mem = vec![0xAAu8; 256];
    let name_at = 64;
    let author_at = name_at + name.len() + 1;
    let description_at = author_at + author.len() + 1;
    write_record(
        &mut mem,
        16,
        tag,
        [va_of(name_at), va_of(author_at), va_of(description_at)],
        version,
    );
    for (at, text) in [(name_at, name), (author_at, author), (description_at, description)] {
        mem[at..at + text.len()].copy_from_slice(text);
        mem[at + text.len()] = 0;
    }
    mem
}

#[test]
fn record_is_read_back_as_it_was_written() {
    let mem = buffer(1, b"Loader", b"Cherry", b"Loads plugins", [3, 14, 159]);
    let data = PluginData::from_dll(image(&mem, 16)).ok().unwrap();
    assert_eq!(data.name(), "Loader");
    assert_eq!(data.author(), "Cherry");
    assert_eq!(data.description(), "Loads plugins");
    assert_eq!(data.version(), Version { major: 3, minor: 14, patch: 159 });
    assert_eq!(
        data.plugin(),
        Plugin {
            data_ver: 1,
            name: RStr { start: 64, len: 6 },
            author: RStr { start: 71, len: 6 },
            description: RStr { start: 78, len: 13 },
            version: Version { major: 3, minor: 14, patch: 159 },
        }
    );
    assert_eq!(data.dll().mem(), &mem[..]);
}

#[test]
fn texts_beyond_ascii_are_read_back() {
    let name = "Chargeur d'\u{e9}t\u{e9}";
    let author = "\u{685c}";
    let description = "\u{1F980} plugins \u{2014} fast";
    let mem = buffer(
        1,
        name.as_bytes(),
        author.as_bytes(),
        description.as_bytes(),
        [65535, 0, 65535],
    );
    let data = PluginData::from_dll(image(&mem, 16)).ok().unwrap();
    assert_eq!(data.name(), name);
    assert_eq!(data.author(), author);
    assert_eq!(data.description(), description);
    assert_eq!(data.version(), Version { major: 65535, minor: 0, patch: 65535 });
    assert_eq!(data.plugin().name.len, name.len());
}

#[test]
fn empty_texts_are_texts() {
    let mem = buffer(1, b"", b"", b"", [0, 0, 0]);
    let data = PluginData::from_dll(image(&mem, 16)).ok().unwrap();
    assert_eq!(data.name(), "");
    assert_eq!(data.author(), "");
    assert_eq!(data.description(), "");
    assert_eq!(data.plugin().name, RStr { start: 64, len: 0 });
    assert_eq!(data.plugin().author, RStr { start: 65, len: 0 });
    assert_eq!(data.plugin().description, RStr { start: 66, len: 0 });
}

#[test]
fn texts_may_share_their_bytes() {
    let mut mem = vec![0xAAu8; 128];
    mem[64..71].copy_from_slice(b"shared\0");
    write_record(&mut mem, 0, 1, [va_of(64), va_of(66), va_of(70)], [1, 2, 3]);
    let data = PluginData::from_dll(image(&mem, 0)).ok().unwrap();
    assert_eq!(data.name(), "shared");
    assert_eq!(data.author(), "ared");
    assert_eq!(data.description(), "");
}

#[test]
fn unknown_layout_is_refused_before_anything_else_is_read() {
    // behind the tag lies nothing that could be read as a record
    for tag in [0, DATA_VERSION + 1, 7, u64::MAX] {
        let mut mem = vec![0xFFu8; 64];
        mem[8..16].copy_from_slice(&tag.to_le_bytes());
        assert_eq!(
            PluginData::from_dll(image(&mem, 8)).err(),
            Some(PluginError::DataVer(tag))
        );
        assert_eq!(
            Plugin::decode(&image(&mem, 8), 8),
            Err(PluginError::DataVer(tag))
        );
    }
}

#[test]
fn unknown_layout_is_refused_in_a_sound_record() {
    for tag in [0, DATA_VERSION + 1] {
        let mem = buffer(tag, b"Loader", b"Cherry", b"Loads plugins", [0, 1, 0]);
        assert_eq!(
            PluginData::from_dll(image(&mem, 16)).err(),
            Some(PluginError::DataVer(tag))
        );
    }
}

#[test]
fn unknown_layout_is_refused_where_only_the_tag_fits() {
    let mut mem = vec![0xAAu8; 24];
    mem[16..24].copy_from_slice(&0u64.to_le_bytes());
    assert_eq!(
        PluginData::from_dll(image(&mem, 16)).err(),
        Some(PluginError::DataVer(0))
    );
}

#[test]
fn known_layout_is_read_whatever_its_tag() {
    let mem = buffer(9, b"Loader", b"Cherry", b"Loads plugins", [0, 1, 0]);
    let dll = image(&mem, 16);
    // the raw reading does not judge the tag; decoding does
    assert_eq!(Plugin::from_raw(&dll, 16).map(|p| p.data_ver), Some(9));
    assert_eq!(Plugin::decode(&dll, 16), Err(PluginError::DataVer(9)));
}

#[test]
fn image_without_the_export_has_no_record() {
    let mem = buffer(1, b"Loader", b"Cherry", b"Loads plugins", [0, 1, 0]);
    for name in [&b"PLUGIN_DAT"[..], b"PLUGIN_DATA_", b"plugin_data", b"", b"DllMain"] {
        assert_eq!(
            PluginData::from_dll(image_exporting(&mem, name, 16)).err(),
            Some(PluginError::SymbolNotFound)
        );
    }
    let blob = Blob::new_zeroed(8, 4096).unwrap();
    let file = PeHeaders { image_base: BASE, size_of_image: 0x1000, sections: vec![] };
    let dll = Dll::from_parts(blob, DllRef { file, exports: vec![] });
    assert_eq!(PluginData::from_dll(dll).err(), Some(PluginError::SymbolNotFound));
}

#[test]
fn export_outside_every_section_is_refused() {
    let mem = buffer(1, b"Loader", b"Cherry", b"Loads plugins", [0, 1, 0]);
    // the section maps 0x1000 addresses, the file has 256 bytes
    assert_eq!(
        PluginData::from_dll(image(&mem, 0x1000)).err(),
        Some(PluginError::Pelite(PeError::Bounds))
    );
    assert_eq!(
        PluginData::from_dll(image(&mem, 257)).err(),
        Some(PluginError::Pelite(PeError::Bounds))
    );
}

#[test]
fn truncated_record_is_corrupt() {
    let full = buffer(1, b"Loader", b"Cherry", b"Loads plugins", [0, 1, 0]);
    // a record of 38 bytes at 218 ends with the file; one byte later it does not
    let mut mem = full.clone();
    let (record, _) = full[16..].split_at(38);
    mem[218..256].copy_from_slice(record);
    assert!(PluginData::from_dll(image(&mem, 218)).is_ok());
    mem.copy_within(218..255, 219);
    for at in [219, 230, 248] {
        mem[at..at + 8].copy_from_slice(&1u64.to_le_bytes());
        assert_eq!(
            PluginData::from_dll(image(&mem, at)).err(),
            Some(PluginError::DataCorrupt)
        );
    }
}

#[test]
fn record_whose_tag_does_not_fit_is_corrupt() {
    let mem = vec![0u8; 256];
    for at in [249, 255, 256] {
        assert_eq!(
            PluginData::from_dll(image(&mem, at)).err(),
            Some(PluginError::DataCorrupt)
        );
    }
    assert_eq!(Plugin::decode(&image(&mem, 0), usize::MAX), Err(PluginError::DataCorrupt));
    assert_eq!(Plugin::from_raw(&image(&mem, 0), usize::MAX), None);
}

#[test]
fn text_without_terminator_is_corrupt() {
    for which in 0..3 {
        // from the place 100 on no byte of the buffer is zero
        let mut mem = vec![0xAAu8; 256];
        mem[64..78].copy_from_slice(b"one\0two\0three\0");
        let mut texts = [va_of(64), va_of(68), va_of(72)];
        texts[which] = va_of(100);
        write_record(&mut mem, 16, 1, texts, [1, 1, 1]);
        assert_eq!(
            PluginData::from_dll(image(&mem, 16)).err(),
            Some(PluginError::DataCorrupt)
        );
    }
}

#[test]
fn text_at_the_end_of_the_file_is_corrupt() {
    let mut mem = buffer(1, b"Loader", b"Cherry", b"Loads plugins", [0, 1, 0]);
    let dll = image(&mem, 16);
    assert_eq!(dll.read_rstr(va_of(255)), None);
    assert_eq!(dll.read_rstr(va_of(256)), None);
    assert_eq!(dll.read_rstr(va_of(257)), None);
    mem[16 + 24..16 + 32].copy_from_slice(&va_of(256).to_le_bytes());
    assert_eq!(
        PluginData::from_dll(image(&mem, 16)).err(),
        Some(PluginError::DataCorrupt)
    );
    // a zero byte as the last byte of the file ends an empty text
    mem[255] = 0;
    mem[16 + 24..16 + 32].copy_from_slice(&va_of(255).to_le_bytes());
    let data = PluginData::from_dll(image(&mem, 16)).ok().unwrap();
    assert_eq!(data.description(), "");
    assert_eq!(data.plugin().description, RStr { start: 255, len: 0 });
}

#[test]
fn text_that_is_not_utf8_is_corrupt() {
    for bad in [&b"\xFF"[..], b"Lo\xC3", b"\xE2\x82", b"\xED\xA0\x80", b"\xC0\xAF"] {
        let mem = buffer(1, b"Loader", bad, b"Loads plugins", [0, 1, 0]);
        assert_eq!(
            PluginData::from_dll(image(&mem, 16)).err(),
            Some(PluginError::DataCorrupt)
        );
    }
}

#[test]
fn text_outside_the_image_is_corrupt() {
    let sound = buffer(1, b"Loader", b"Cherry", b"Loads plugins", [0, 1, 0]);
    let outside = [
        0,
        BASE - 1,
        BASE,
        BASE + RVA as u64 - 1,
        BASE + RVA as u64 + 0x1000,
        BASE + 0x10_0001,
        u64::MAX,
    ];
    for va in outside {
        let mut mem = sound.clone();
        mem[16 + 8..16 + 16].copy_from_slice(&va.to_le_bytes());
        assert_eq!(
            PluginData::from_dll(image(&mem, 16)).err(),
            Some(PluginError::DataCorrupt)
        );
        assert_eq!(image(&mem, 16).read_rstr(va), None);
    }
}

#[test]
fn text_is_resolved_through_the_section_table() {
    let mem = buffer(1, b"Loader", b"Cherry", b"Loads plugins", [0, 1, 0]);
    let dll = image(&mem, 16);
    assert_eq!(dll.read_rstr(va_of(64)), Some(RStr { start: 64, len: 6 }));
    assert_eq!(dll.read_rstr(va_of(66)), Some(RStr { start: 66, len: 4 }));
    assert_eq!(dll.read_rstr(va_of(70)), Some(RStr { start: 70, len: 0 }));
}

#[test]
fn decoding_twice_gives_the_same_record() {
    let mem = buffer(1, b"Loader", b"Cherry", b"Loads plugins", [0, 1, 0]);
    let dll = image(&mem, 16);
    let first = Plugin::decode(&dll, 16);
    let second = Plugin::decode(&dll, 16);
    assert!(first.is_ok());
    assert_eq!(first, second);
    assert_eq!(
        PluginData::from_dll(image(&mem, 16)).ok().unwrap().plugin(),
        first.unwrap()
    );
}
