use parsey_rs::errors::Error;
use parsey_rs::parser::PeFile;
use parsey_rs::utils::format_as_hex;
use parsey_rs::view::Parsed;

fn put16(b: &mut [u8], off: usize, v: u16) {
    b[off..off + 2].copy_from_slice(&v.to_le_bytes());
}

fn put32(b: &mut [u8], off: usize, v: u32) {
    b[off..off + 4].copy_from_slice(&v.to_le_bytes());
}

fn put64(b: &mut [u8], off: usize, v: u64) {
    b[off..off + 8].copy_from_slice(&v.to_le_bytes());
}

/// A minimal well-formed PE32+ image with one `.text` section and chosen
/// timestamp, subsystem, DLL characteristics and section characteristics.
fn build_image(
    time_date_stamp: u32,
    subsystem: u16,
    dll_chars: u16,
    file_chars: u16,
    section_chars: u32,
) -> Vec<u8> {
    let mut b = vec![0u8; 0x600];
    b[0] = 0x4D;
    b[1] = 0x5A;
    put32(&mut b, 0x3C, 64);
    put32(&mut b, 64, 0x00004550);
    put16(&mut b, 68, 0x8664);
    put16(&mut b, 70, 1);
    put32(&mut b, 72, time_date_stamp);
    put16(&mut b, 84, 240);
    put16(&mut b, 86, file_chars);
    let oh = 88;
    put16(&mut b, oh, 0x20B);
    b[oh + 2] = 14;
    b[oh + 3] = 29;
    put32(&mut b, oh + 16, 0x1000);
    put64(&mut b, oh + 24, 0x140000000);
    put16(&mut b, oh + 40, 6);
    put16(&mut b, oh + 42, 0);
    put16(&mut b, oh + 44, 1);
    put16(&mut b, oh + 46, 2);
    put16(&mut b, oh + 48, 6);
    put16(&mut b, oh + 50, 1);
    put16(&mut b, oh + 68, subsystem);
    put16(&mut b, oh + 70, dll_chars);
    let sec = oh + 240;
    b[sec..sec + 8].copy_from_slice(b".text\0\0\0");
    put32(&mut b, sec + 8, 0x1000);
    put32(&mut b, sec + 12, 0x1000);
    put32(&mut b, sec + 16, 0x200);
    put32(&mut b, sec + 20, 0x400);
    put32(&mut b, sec + 36, section_chars);
    b
}

#[test]
fn timestamp_of_epoch_zero() {
    let b = build_image(0, 3, 0, 0, 0);
    let pe = PeFile::parse(b).unwrap();
    let parsed = Parsed::new(&pe);
    assert_eq!(parsed.timestamp(), "1970-01-01 00:00:00");
}

#[test]
fn timestamp_of_known_moment() {
    let b = build_image(1_600_000_000, 3, 0, 0, 0);
    let pe = PeFile::parse(b).unwrap();
    let parsed = Parsed::new(&pe);
    assert_eq!(parsed.timestamp(), "2020-09-13 12:26:40");
}

#[test]
fn subsystem_labels() {
    let gui = PeFile::parse(build_image(0, 2, 0, 0, 0)).unwrap();
    assert_eq!(Parsed::new(&gui).subsystem(), "Windows GUI (2)");
    let console = PeFile::parse(build_image(0, 3, 0, 0, 0)).unwrap();
    assert_eq!(Parsed::new(&console).subsystem(), "Windows Console (3)");
    let ce = PeFile::parse(build_image(0, 9, 0, 0, 0)).unwrap();
    assert_eq!(Parsed::new(&ce).subsystem(), "Windows CE GUI (9)");
    let odd = PeFile::parse(build_image(0, 7, 0, 0, 0)).unwrap();
    assert_eq!(Parsed::new(&odd).subsystem(), "Unknown number");
}

#[test]
fn hex_rendering() {
    assert_eq!(format_as_hex(0), "0x0");
    assert_eq!(format_as_hex(9), "0x9");
    assert_eq!(format_as_hex(255), "0xFF");
    assert_eq!(format_as_hex(0x1000), "0x1000");
    assert_eq!(format_as_hex(0x140000000), "0x140000000");
    assert_eq!(format_as_hex(u64::MAX), "0xFFFFFFFFFFFFFFFF");
}

#[test]
fn entry_point_and_image_base_render_in_hex() {
    let pe = PeFile::parse(build_image(0, 3, 0, 0, 0)).unwrap();
    let parsed = Parsed::new(&pe);
    assert_eq!(parsed.entry_point(), "0x1000");
    assert_eq!(parsed.image_base(), "0x140000000");
}

#[test]
fn version_labels() {
    let pe = PeFile::parse(build_image(0, 3, 0, 0, 0)).unwrap();
    let parsed = Parsed::new(&pe);
    assert_eq!(parsed.linker_version(), "Linker v14.29");
    assert_eq!(parsed.os_version(), "OS v6.0");
    assert_eq!(parsed.image_version(), "Image v1.2");
    assert_eq!(parsed.subsystem_version(), "Subsystem v6.1");
}

#[test]
fn dll_characteristics_names_set_bits() {
    let pe = PeFile::parse(build_image(0, 3, 0x0160, 0, 0)).unwrap();
    let parsed = Parsed::new(&pe);
    let flags = parsed.dll_characteristics();
    assert_eq!(
        flags,
        vec![
            (0x0020u64, "HIGH_ENTROPY_VA"),
            (0x0040u64, "DYNAMIC_BASE (ASLR)"),
            (0x0100u64, "NX_COMPAT (DEP)"),
        ]
    );
}

#[test]
fn characteristics_names_set_bits() {
    let pe = PeFile::parse(build_image(0, 3, 0, 0x0122, 0)).unwrap();
    let parsed = Parsed::new(&pe);
    let flags = parsed.characteristics();
    assert_eq!(
        flags,
        vec![
            (0x0002u16, "EXECUTABLE_IMAGE"),
            (0x0020u16, "LARGE_ADDRESS_AWARE"),
            (0x0100u16, "32BIT_MACHINE"),
        ]
    );
}

#[test]
fn section_flags_decode() {
    let pe = PeFile::parse(build_image(0, 3, 0, 0, 0x60000020)).unwrap();
    let parsed = Parsed::new(&pe);
    let sections = parsed.sections();
    assert_eq!(sections[0].flags, vec!["CODE", "EXECUTE", "READ"]);
    assert_eq!(sections[0].characteristics, "0x60000020");
}

#[test]
fn detect_type_labels() {
    assert_eq!(
        Parsed::detect_type(Some("exe")).unwrap(),
        "Executable (EXE)"
    );
    assert_eq!(
        Parsed::detect_type(Some("dll")).unwrap(),
        "Dynamic-Link Library (DLL)"
    );
    assert_eq!(Parsed::detect_type(Some("sys")).unwrap(), "System Driver (SYS)");
    assert_eq!(Parsed::detect_type(Some("xyz")).unwrap(), "xyz");
    assert_eq!(Parsed::detect_type(None), None);
}

#[test]
fn error_messages_name_the_invariant() {
    assert_eq!(
        Error::InvalidMagic(0x0012).message(),
        "Bad DOS magic: 0x0012"
    );
    assert_eq!(
        Error::InvalidPeSignature(0x4650).message(),
        "Bad PE signature: 0x00004650"
    );
    assert_eq!(
        Error::UnsupportedOptionalHeader(0xABC).message(),
        "Unknown optional-header magic: 0x0ABC"
    );
    assert_eq!(
        Error::InvalidSize { expected: 64, found: 0 }.message(),
        "Expected at least 64 bytes, found 0"
    );
    assert_eq!(Error::InvalidTableOffset.message(), "Table offset is out of bounds");
    assert_eq!(Error::InvalidDllName.message(), "Couldn't read DLL name");
    assert_eq!(Error::InvalidData.message(), "Malformed data in buffer");
    assert_eq!(Error::Io.message(), "I/O error");
}

#[test]
fn summary_and_pretty_views() {
    let pe = PeFile::parse(build_image(0, 2, 0x0040, 0x0002, 0x60000020)).unwrap();
    let parsed = Parsed::new(&pe);

    let summary = parsed.summary_json();
    assert_eq!(summary.architecture, "x64 (64‑bit)");
    assert_eq!(summary.entry_point, "0x1000");
    assert_eq!(summary.image_base, "0x140000000");
    assert_eq!(summary.timestamp, "1970-01-01 00:00:00");
    assert_eq!(summary.subsystem, "Windows GUI (2)");

    let pretty = parsed.pretty_json();
    assert_eq!(pretty.architecture, "x64 (64‑bit)");
    assert_eq!(pretty.dll_characteristics, vec!["DYNAMIC_BASE (ASLR)"]);
    assert_eq!(pretty.sections.len(), 1);
    assert_eq!(pretty.sections[0].name, ".text");
    // Both directory slots are zero: a zero size means the table is absent,
    // so the walks succeed with no entries.
    assert_eq!(pretty.import_table, Some(vec![]));
    assert_eq!(pretty.export_table, Some(vec![]));
}
