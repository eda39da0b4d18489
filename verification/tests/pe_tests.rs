use parsey_rs::errors::Error;
use parsey_rs::export_table::parse_export_table;
use parsey_rs::headers::{DosHeader, OptionalHeader};
use parsey_rs::import_table::{parse_import_table, ImportEntry};
use parsey_rs::parser::PeFile;
use parsey_rs::utils::{read_dll_names, read_u16, read_u32, rva_to_offset};
use parsey_rs::view::Parsed;

fn put16(b: &mut [u8], off: usize, v: u16) {
    b[off..off + 2].copy_from_slice(&v.to_le_bytes());
}

fn put32(b: &mut [u8], off: usize, v: u32) {
    b[off..off + 4].copy_from_slice(&v.to_le_bytes());
}

fn put64(b: &mut [u8], off: usize, v: u64) {
    b[off..off + 8].copy_from_slice(&v.to_le_bytes());
}

/// A section for the builder: (name, virtual_size, virtual_address,
/// size_of_raw_data, pointer_to_raw_data, characteristics).
type Sect = ([u8; 8], u32, u32, u32, u32, u32);

/// Builds a syntactically well-formed PE image: DOS header, NT signature at
/// offset 64, COFF header, optional header (PE32 or PE32+), section table.
fn build_pe(
    is64: bool,
    machine: u16,
    time_date_stamp: u32,
    characteristics: u16,
    subsystem: u16,
    dll_chars: u16,
    entry: u32,
    image_base: u64,
    sections: &[Sect],
    export_dir: (u32, u32),
    import_dir: (u32, u32),
    total_len: usize,
) -> Vec<u8> {
    let mut b = vec![0u8; total_len];
    b[0] = 0x4D;
    b[1] = 0x5A;
    put32(&mut b, 0x3C, 64);
    put32(&mut b, 64, 0x00004550);
    let coff = 68;
    put16(&mut b, coff, machine);
    put16(&mut b, coff + 2, sections.len() as u16);
    put32(&mut b, coff + 4, time_date_stamp);
    put16(&mut b, coff + 16, if is64 { 240 } else { 224 });
    put16(&mut b, coff + 18, characteristics);
    let oh = 88;
    let sec_off;
    if is64 {
        put16(&mut b, oh, 0x20B);
        b[oh + 2] = 14;
        b[oh + 3] = 0;
        put32(&mut b, oh + 16, entry);
        put64(&mut b, oh + 24, image_base);
        put16(&mut b, oh + 40, 6);
        put16(&mut b, oh + 42, 0);
        put16(&mut b, oh + 44, 1);
        put16(&mut b, oh + 46, 2);
        put16(&mut b, oh + 48, 6);
        put16(&mut b, oh + 50, 1);
        put16(&mut b, oh + 68, subsystem);
        put16(&mut b, oh + 70, dll_chars);
        put32(&mut b, oh + 112, export_dir.0);
        put32(&mut b, oh + 116, export_dir.1);
        put32(&mut b, oh + 120, import_dir.0);
        put32(&mut b, oh + 124, import_dir.1);
        sec_off = oh + 240;
    } else {
        put16(&mut b, oh, 0x10B);
        b[oh + 2] = 6;
        b[oh + 3] = 1;
        put32(&mut b, oh + 16, entry);
        put32(&mut b, oh + 24, 0x3000);
        put32(&mut b, oh + 28, image_base as u32);
        put16(&mut b, oh + 40, 5);
        put16(&mut b, oh + 42, 1);
        put16(&mut b, oh + 44, 1);
        put16(&mut b, oh + 46, 0);
        put16(&mut b, oh + 48, 5);
        put16(&mut b, oh + 50, 1);
        put16(&mut b, oh + 68, subsystem);
        put16(&mut b, oh + 70, dll_chars);
        put32(&mut b, oh + 96, export_dir.0);
        put32(&mut b, oh + 100, export_dir.1);
        put32(&mut b, oh + 104, import_dir.0);
        put32(&mut b, oh + 108, import_dir.1);
        sec_off = oh + 224;
    }
    for (i, s) in sections.iter().enumerate() {
        let off = sec_off + 40 * i;
        b[off..off + 8].copy_from_slice(&s.0);
        put32(&mut b, off + 8, s.1);
        put32(&mut b, off + 12, s.2);
        put32(&mut b, off + 16, s.3);
        put32(&mut b, off + 20, s.4);
        put32(&mut b, off + 36, s.5);
    }
    b
}

/// A 64-bit image with two sections, one import descriptor followed by the
/// all-zero terminator and then junk the declared size would still admit, a
/// 40-byte export directory, and NUL-terminated DLL names.
fn build_pe64() -> Vec<u8> {
    let sections: [Sect; 2] = [
        (*b".text\0\0\0", 0x1000, 0x1000, 0x200, 0x400, 0x60000020),
        (*b".idata\0\0", 0x2000, 0x2000, 0xB00, 0x500, 0xC0000040),
    ];
    let mut b = build_pe(
        true,
        0x8664,
        0,
        0x0022,
        3,
        0x0160,
        0x1000,
        0x140000000,
        &sections,
        (0x2800, 40),
        (0x2000, 60),
        0x1000,
    );
    // Import descriptor 0 at RVA 0x2000 -> file offset 0x500.
    put32(&mut b, 0x500, 0x2100);
    put32(&mut b, 0x50C, 0x2050);
    put32(&mut b, 0x510, 0x2200);
    // Descriptor 1 (0x514..0x528) stays all zero: the terminator.
    // Descriptor 2 would still fit the declared size of 60; fill it with
    // junk that must never be returned.
    put32(&mut b, 0x528, 0x41414141);
    put32(&mut b, 0x52C, 0x42424242);
    // Imported DLL name at RVA 0x2050 -> file offset 0x550.
    b[0x550..0x55D].copy_from_slice(b"KERNEL32.dll\0");
    // Export directory at RVA 0x2800 -> file offset 0xD00.
    put32(&mut b, 0xD00, 0);
    put32(&mut b, 0xD04, 12345);
    put16(&mut b, 0xD08, 1);
    put16(&mut b, 0xD0A, 0);
    put32(&mut b, 0xD0C, 0x2900);
    put32(&mut b, 0xD10, 1);
    put32(&mut b, 0xD14, 3);
    put32(&mut b, 0xD18, 2);
    put32(&mut b, 0xD1C, 0x2A00);
    put32(&mut b, 0xD20, 0x2B00);
    put32(&mut b, 0xD24, 0x2C00);
    // Exported DLL name at RVA 0x2900 -> file offset 0xE00.
    b[0xE00..0xE09].copy_from_slice(b"TEST.dll\0");
    b
}

/// A 32-bit image with a single `.text` section and empty data directories.
fn build_pe32() -> Vec<u8> {
    let sections: [Sect; 1] = [(*b".text\0\0\0", 0x1000, 0x1000, 0x200, 0x400, 0x60000020)];
    build_pe(
        false,
        0x014c,
        1_600_000_000,
        0x0102,
        2,
        0x0040,
        0x1234,
        0x400000,
        &sections,
        (0, 0),
        (0, 0),
        0x1000,
    )
}

#[test]
fn dos_header_decodes_any_64_bytes() {
    // The DOS decode itself takes any 64-byte buffer; the magic is judged by
    // the full parse, not here.
    let mut b = vec![0u8; 64];
    b[0] = 0x11;
    b[1] = 0x22;
    put32(&mut b, 0x3C, 0xABCD);
    let h = DosHeader::parse(&b).unwrap();
    assert_eq!(h.e_magic, 0x2211);
    assert_eq!(h.e_lfanew(), 0xABCD);

    assert_eq!(
        DosHeader::parse(&[0u8; 63]).err(),
        Some(Error::InvalidSize { expected: 64, found: 63 })
    );
}

#[test]
fn parse_valid_pe() {
    let pe = PeFile::parse(build_pe64()).expect("PE parsing failed");
    let parsed = Parsed::new(&pe);

    assert!(parsed.architecture().contains("x86") || parsed.architecture().contains("x64"));
}

#[test]
fn test_timestamp_and_subsystem() {
    let pe = PeFile::parse(build_pe64()).unwrap();
    let parsed = Parsed::new(&pe);

    let timestamp = parsed.timestamp();
    let subsystem = parsed.subsystem();

    assert!(!timestamp.is_empty());
    assert!(subsystem.contains("Windows") || subsystem == "Unknown number");
}

#[test]
fn test_sections_present() {
    let pe = PeFile::parse(build_pe64()).unwrap();
    let parsed = Parsed::new(&pe);

    let sections = parsed.sections();
    assert!(!sections.is_empty());
    assert!(sections.iter().any(|s| s.name == ".text"));
}

#[test]
fn empty_input_is_size_error() {
    assert_eq!(
        PeFile::parse(Vec::new()).err(),
        Some(Error::InvalidSize { expected: 64, found: 0 })
    );
}

#[test]
fn short_input_is_size_error() {
    assert_eq!(
        PeFile::parse(vec![0x4D, 0x5A, 0x00]).err(),
        Some(Error::InvalidSize { expected: 64, found: 3 })
    );
    assert_eq!(
        PeFile::parse(vec![0u8; 63]).err(),
        Some(Error::InvalidSize { expected: 64, found: 63 })
    );
}

#[test]
fn bad_dos_magic_is_rejected() {
    let zeros = vec![0u8; 64];
    assert_eq!(PeFile::parse(zeros).err(), Some(Error::InvalidMagic(0)));

    // The two magic bytes swapped: found value is 0x4D5A, not the 0x5A4D
    // little-endian decoding of `MZ`.
    let mut swapped = vec![0u8; 64];
    swapped[0] = 0x5A;
    swapped[1] = 0x4D;
    assert_eq!(PeFile::parse(swapped).err(), Some(Error::InvalidMagic(0x4D5A)));
}

#[test]
fn bad_pe_signature_is_rejected() {
    let mut b = build_pe64();
    // Corrupt the second signature byte: "PF\0\0".
    b[65] = 0x46;
    assert_eq!(PeFile::parse(b).err(), Some(Error::InvalidPeSignature(0x00004650)));
}

#[test]
fn pe_signature_out_of_bounds_is_size_error() {
    let mut b = vec![0u8; 64];
    b[0] = 0x4D;
    b[1] = 0x5A;
    put32(&mut b, 0x3C, 0x1000);
    assert_eq!(
        PeFile::parse(b).err(),
        Some(Error::InvalidSize { expected: 4, found: 64 })
    );
}

#[test]
fn zero_optional_magic_is_unsupported() {
    let mut b = build_pe64();
    // Zero the optional-header magic at e_lfanew + 24 = 88.
    put16(&mut b, 88, 0x0000);
    assert_eq!(PeFile::parse(b).err(), Some(Error::UnsupportedOptionalHeader(0)));
}

#[test]
fn odd_optional_magic_is_unsupported() {
    let mut b = build_pe64();
    put16(&mut b, 88, 0x1234);
    assert_eq!(PeFile::parse(b).err(), Some(Error::UnsupportedOptionalHeader(0x1234)));
}

#[test]
fn truncated_optional_header_is_size_error() {
    let mut b = build_pe64();
    // The PE32+ optional header spans 88..328; cut the file inside it.
    b.truncate(200);
    assert_eq!(
        PeFile::parse(b).err(),
        Some(Error::InvalidSize { expected: 328, found: 200 })
    );
}

#[test]
fn lfanew_into_dos_header_fails_signature_check() {
    // e_lfanew pointing back at offset 0 finds `MZ..`, not `PE\0\0`.
    let mut b = build_pe64();
    put32(&mut b, 0x3C, 0);
    let found = u32::from_le_bytes([b[0], b[1], b[2], b[3]]);
    assert_eq!(PeFile::parse(b).err(), Some(Error::InvalidPeSignature(found)));
}

#[test]
fn truncated_section_table_is_size_error() {
    let mut b = build_pe64();
    // The section table runs from 328 to 408; cut the file inside the second
    // record. The first record (ending at 368) still decodes; the second
    // fails, asking for its end at 408.
    b.truncate(380);
    assert_eq!(
        PeFile::parse(b).err(),
        Some(Error::InvalidSize { expected: 408, found: 380 })
    );
}

#[test]
fn pe64_has_64bit_layout_and_no_base_of_data() {
    let pe = PeFile::parse(build_pe64()).unwrap();
    assert!(matches!(pe.optional_header, OptionalHeader::Header64(_)));
    assert_eq!(pe.optional_header.magic(), 0x20B);
    assert_eq!(pe.optional_header.base_of_data(), 0);
    assert_eq!(pe.optional_header.image_base(), 0x140000000);
    assert_eq!(pe.file_header.number_of_sections, 2);
    assert_eq!(pe.sections.len(), 2);
}

#[test]
fn pe32_has_32bit_layout_and_base_of_data() {
    let pe = PeFile::parse(build_pe32()).unwrap();
    assert!(matches!(pe.optional_header, OptionalHeader::Header32(_)));
    assert_eq!(pe.optional_header.magic(), 0x10B);
    assert_eq!(pe.optional_header.base_of_data(), 0x3000);
    assert_eq!(pe.optional_header.image_base(), 0x400000);

    let parsed = Parsed::new(&pe);
    assert!(parsed.architecture().contains("x86"));
}

#[test]
fn x64_architecture_and_section_counts_match() {
    let pe = PeFile::parse(build_pe64()).unwrap();
    let parsed = Parsed::new(&pe);
    assert!(parsed.architecture().contains("x64"));
    assert_eq!(
        parsed.sections().len(),
        pe.file_header.number_of_sections as usize
    );
    let text = parsed
        .sections()
        .into_iter()
        .find(|s| s.name == ".text")
        .expect("no .text section");
    assert_eq!(text.virtual_size, "0x1000");
}

#[test]
fn rva_translation_boundaries() {
    let pe = PeFile::parse(build_pe64()).unwrap();
    // .text maps [0x1000, 0x2000) to file offset 0x400.
    assert_eq!(rva_to_offset(&pe, 0x1000), Some(0x400));
    assert_eq!(rva_to_offset(&pe, 0x1ABC), Some(0x400 + 0xABC));
    assert_eq!(rva_to_offset(&pe, 0x1FFF), Some(0x400 + 0xFFF));
    // One below the first byte and the exclusive end both miss.
    assert_eq!(rva_to_offset(&pe, 0x0FFF), None);
    assert_eq!(rva_to_offset(&pe, 0x4000), None);
    // The second section starts where the first ends.
    assert_eq!(rva_to_offset(&pe, 0x2000), Some(0x500));
}

#[test]
fn rva_translation_returns_first_match() {
    // Two sections with overlapping virtual ranges: declaration order wins.
    let sections: [Sect; 2] = [
        (*b"one\0\0\0\0\0", 0x1000, 0x1000, 0x100, 0x400, 0),
        (*b"two\0\0\0\0\0", 0x1000, 0x1000, 0x100, 0x700, 0),
    ];
    let b = build_pe(
        true, 0x8664, 0, 0, 3, 0, 0x1000, 0x140000000, &sections, (0, 0), (0, 0), 0x1000,
    );
    let pe = PeFile::parse(b).unwrap();
    assert_eq!(rva_to_offset(&pe, 0x1010), Some(0x410));
}

#[test]
fn import_table_stops_at_terminator() {
    let pe = PeFile::parse(build_pe64()).unwrap();
    // The directory size (60) admits three descriptors, but the walk must
    // stop at the all-zero second one and never return the junk third.
    let entries = parse_import_table(&pe).unwrap();
    assert_eq!(entries.len(), 1);
    assert_eq!(
        entries[0],
        ImportEntry {
            original_first_thunk: 0x2100,
            time_date_stamp: 0,
            forwarder_chain: 0,
            name: 0x2050,
            first_thunk: 0x2200,
        }
    );
}

#[test]
fn import_table_absent_when_size_zero() {
    // Both directory slots of the 32-bit image are all zero: a zero size
    // means the table is absent, not an error, even though RVA 0 maps to no
    // section.
    let pe = PeFile::parse(build_pe32()).unwrap();
    assert_eq!(parse_import_table(&pe).unwrap().len(), 0);
}

#[test]
fn import_table_with_unmapped_rva_fails() {
    let mut b = build_pe64();
    // A nonzero directory size whose RVA no section maps.
    put32(&mut b, 88 + 120, 0x9000);
    put32(&mut b, 88 + 124, 20);
    let pe = PeFile::parse(b).unwrap();
    assert_eq!(parse_import_table(&pe), Err(Error::InvalidTableOffset));
}

#[test]
fn import_table_partial_descriptor_fails() {
    let mut b = build_pe64();
    // Declared size 30: one whole descriptor and then a half one. Without a
    // terminator in the first slot the walk aborts.
    put32(&mut b, 88 + 124, 30);
    let pe = PeFile::parse(b).unwrap();
    assert_eq!(parse_import_table(&pe), Err(Error::InvalidTableOffset));
}

#[test]
fn import_table_size_overruns_buffer_fails() {
    let mut b = build_pe64();
    // RVA 0x2B01 maps to file offset 0x1001; 0x200 bytes from there end past
    // the 0x1000-byte file.
    put32(&mut b, 88 + 120, 0x2B01);
    put32(&mut b, 88 + 124, 0x200);
    let pe = PeFile::parse(b).unwrap();
    assert_eq!(parse_import_table(&pe), Err(Error::InvalidTableOffset));
}

#[test]
fn export_table_single_record() {
    let pe = PeFile::parse(build_pe64()).unwrap();
    let entries = parse_export_table(&pe).unwrap();
    assert_eq!(entries.len(), 1);
    let e = &entries[0];
    assert_eq!(e.characteristics, 0);
    assert_eq!(e.time_date_stamp, 12345);
    assert_eq!(e.major_version, 1);
    assert_eq!(e.minor_version, 0);
    assert_eq!(e.name, 0x2900);
    assert_eq!(e.base, 1);
    assert_eq!(e.number_of_functions, 3);
    assert_eq!(e.number_of_names, 2);
    assert_eq!(e.address_of_functions, 0x2A00);
    assert_eq!(e.address_of_names, 0x2B00);
    assert_eq!(e.address_of_name_ordinals, 0x2C00);
}

#[test]
fn export_table_absent_when_size_zero() {
    let mut b = build_pe64();
    // Keep the RVA mapped but declare the directory empty.
    put32(&mut b, 88 + 116, 0);
    let pe = PeFile::parse(b).unwrap();
    assert_eq!(parse_export_table(&pe).unwrap().len(), 0);

    // A zero size is absent even when the RVA maps to no section.
    let pe32 = PeFile::parse(build_pe32()).unwrap();
    assert_eq!(parse_export_table(&pe32).unwrap().len(), 0);
}

#[test]
fn export_table_smaller_than_record_fails() {
    let mut b = build_pe64();
    put32(&mut b, 88 + 116, 20);
    let pe = PeFile::parse(b).unwrap();
    assert_eq!(parse_export_table(&pe), Err(Error::InvalidTableOffset));
}

#[test]
fn dll_name_reads_to_nul() {
    let pe = PeFile::parse(build_pe64()).unwrap();
    assert_eq!(read_dll_names(&pe, 0x2050).unwrap(), "KERNEL32.dll");
    assert_eq!(read_dll_names(&pe, 0x2900).unwrap(), "TEST.dll");
}

#[test]
fn dll_name_unmapped_rva_fails() {
    let pe = PeFile::parse(build_pe64()).unwrap();
    assert_eq!(read_dll_names(&pe, 0x9000_0000), Err(Error::InvalidTableOffset));
}

#[test]
fn dll_name_invalid_utf8_fails() {
    let mut b = build_pe64();
    // A lone continuation byte before the NUL is not valid UTF-8.
    b[0x550] = 0xFF;
    let pe = PeFile::parse(b).unwrap();
    assert_eq!(read_dll_names(&pe, 0x2050), Err(Error::InvalidDllName));
}

#[test]
fn primitive_reads_are_bounds_checked() {
    let block = [0x34u8, 0x12, 0x78, 0x56];
    assert_eq!(read_u16(&block, 0), Ok(0x1234));
    assert_eq!(read_u16(&block, 2), Ok(0x5678));
    assert_eq!(read_u32(&block, 0), Ok(0x56781234));
    assert_eq!(
        read_u16(&block, 3),
        Err(Error::InvalidSize { expected: 2, found: 4 })
    );
    assert_eq!(
        read_u32(&block, 1),
        Err(Error::InvalidSize { expected: 4, found: 4 })
    );
    assert_eq!(
        read_u32(&[], 0),
        Err(Error::InvalidSize { expected: 4, found: 0 })
    );
}

#[test]
fn validate_rechecks_signature() {
    let pe = PeFile::parse(build_pe64()).unwrap();
    assert_eq!(pe.validate(), Ok(()));
    assert_eq!(pe.raw().e_lfanew, 64);
    assert_eq!(pe.parsed().raw.e_lfanew, 64);
}

#[test]
fn section_name_falls_back_on_invalid_utf8() {
    let sections: [Sect; 1] = [([0xFF, 0xFE, b'x', 0, 0, 0, 0, 0], 0x100, 0x1000, 0x100, 0x400, 0)];
    let b = build_pe(
        true, 0x8664, 0, 0, 3, 0, 0x1000, 0x140000000, &sections, (0, 0), (0, 0), 0x1000,
    );
    let pe = PeFile::parse(b).unwrap();
    let parsed = Parsed::new(&pe);
    assert_eq!(parsed.sections()[0].name, "Can't read section name");
}

#[test]
fn full_width_section_name_is_kept() {
    let sections: [Sect; 1] = [(*b"verylong", 0x100, 0x1000, 0x100, 0x400, 0)];
    let b = build_pe(
        true, 0x8664, 0, 0, 3, 0, 0x1000, 0x140000000, &sections, (0, 0), (0, 0), 0x1000,
    );
    let pe = PeFile::parse(b).unwrap();
    let parsed = Parsed::new(&pe);
    assert_eq!(parsed.sections()[0].name, "verylong");
}
