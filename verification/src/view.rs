use vstd::prelude::*;
use vstd::slice::slice_subrange;
use vstd::utf8::{decode_utf8, valid_utf8};
use crate::export_table::{parse_export_table, spec_export_table, ExportEntry};
use crate::headers::SectionHeader;
use crate::import_table::{parse_import_table, spec_import_table, ImportEntry};
use crate::parser::PeFile;
use crate::utils::{
    format_as_hex, le16_at, push_dec_digits, read_u16, spec_dec_digits, spec_hex, str_equal, u8_at,
    utf8_to_string,
};

verus! {

/// Wrapper around a parsed PE file exposing higher-level helper methods that
/// turn raw header fields into human-friendly representations.
pub struct Parsed<'a> {
    /// The decoded image the helpers read from.
    pub raw: &'a PeFile,
}

/// The text for an epoch timestamp rendered as a `%Y-%m-%d %H:%M:%S` UTC
/// date-time; the rendering depends on the timestamp alone.
pub uninterp spec fn timestamp_label(secs: u32) -> Seq<char>;

/// Relies on chrono's UTC conversion and `format`: the `%Y-%m-%d %H:%M:%S`
/// text for an epoch timestamp is a function of the timestamp alone, and for
/// the years a `u32` second count can reach (1970 through 2106) it is always
/// 19 characters long.
#[verifier::external_body]
fn format_timestamp(secs: u32) -> (r: String)
    ensures
        r@ == timestamp_label(secs),
        r@.len() == 19,
{
    let d = std::time::UNIX_EPOCH + std::time::Duration::from_secs(secs as u64);
    chrono::DateTime::<chrono::Utc>::from(d).format("%Y-%m-%d %H:%M:%S").to_string()
}

/// The label [`Parsed::subsystem`] gives to the subsystem code `v`.
pub open spec fn spec_subsystem_label(v: u64) -> Seq<char> {
    if v == 2 {
        "Windows GUI (2)"@
    } else if v == 3 {
        "Windows Console (3)"@
    } else if v == 9 {
        "Windows CE GUI (9)"@
    } else {
        "Unknown number"@
    }
}

/// The label [`Parsed::architecture`] gives to the machine code `m`.
pub open spec fn spec_architecture_label(m: u16) -> Seq<char> {
    if m == 0x014c {
        "x86 (32‑bit)"@
    } else if m == 0x8664 {
        "x64 (64‑bit)"@
    } else if m == 0x1c0 {
        "ARM"@
    } else if m == 0xaa64 {
        "ARM64"@
    } else {
        "Unknown architecture"@
    }
}

/// The architecture label of `pe`: the machine code is read back from the
/// two buffer bytes at `e_lfanew + 4`, with a fallback when they are out of
/// reach.
pub open spec fn spec_architecture(pe: PeFile) -> Seq<char> {
    if pe.e_lfanew + 6 <= pe.buffer@.len() {
        spec_architecture_label(le16_at(pe.buffer@, pe.e_lfanew + 4))
    } else {
        "Unknown architecture"@
    }
}

/// A version pair rendered as `<prefix><major>.<minor>`.
pub open spec fn spec_version_label(prefix: Seq<char>, major: u64, minor: u64) -> Seq<char> {
    prefix + spec_dec_digits(major as int) + "."@ + spec_dec_digits(minor as int)
}

/// The label [`Parsed::detect_type`] gives to a file extension.
pub open spec fn spec_type_label(ext: Seq<char>) -> Seq<char> {
    if ext == "exe"@ {
        "Executable (EXE)"@
    } else if ext == "dll"@ {
        "Dynamic-Link Library (DLL)"@
    } else if ext == "sys"@ {
        "System Driver (SYS)"@
    } else if ext == "ocx"@ {
        "ActiveX Control (OCX)"@
    } else if ext == "scr"@ {
        "Screensaver (SCR)"@
    } else if ext == "cpl"@ {
        "Control Panel Applet (CPL)"@
    } else if ext == "efi"@ {
        "UEFI Application (EFI)"@
    } else {
        ext
    }
}

impl<'a> Parsed<'a> {
    /// Creates a new parsed wrapper around a decoded PE file.
    pub fn new(raw: &'a PeFile) -> (r: Parsed<'a>)
        ensures
            r.raw == raw,
    {
        Parsed { raw }
    }

    /// Returns the program entry-point RVA in hexadecimal.
    pub fn entry_point(&self) -> (r: String)
        ensures
            r@ == spec_hex(self.raw.optional_header.spec_address_of_entry_point() as int),
    {
        format_as_hex(self.raw.optional_header.address_of_entry_point())
    }

    /// Returns the preferred load address in hexadecimal.
    pub fn image_base(&self) -> (r: String)
        ensures
            r@ == spec_hex(self.raw.optional_header.spec_image_base() as int),
    {
        format_as_hex(self.raw.optional_header.image_base())
    }

    /// Returns the subsystem type as a readable label, or `Unknown number`
    /// for a code outside the known set.
    pub fn subsystem(&self) -> (r: &'static str)
        ensures
            r@ == spec_subsystem_label(self.raw.optional_header.spec_subsystem()),
    {
        let s = self.raw.optional_header.subsystem();
        if s == 2 {
            "Windows GUI (2)"
        } else if s == 3 {
            "Windows Console (3)"
        } else if s == 9 {
            "Windows CE GUI (9)"
        } else {
            "Unknown number"
        }
    }

    /// Identifies the machine architecture (x86, x64, ARM, ARM64) by reading
    /// the machine code back from the buffer bytes at `e_lfanew + 4`.
    pub fn architecture(&self) -> (r: &'static str)
        ensures
            r@ == spec_architecture(*self.raw),
    {
        let _n: usize = self.raw.buffer.len();
        let machine_offset = match self.raw.e_lfanew.checked_add(4) {
            Some(v) => v,
            None => {
                return "Unknown architecture";
            },
        };
        let raw_arch = match read_u16(self.raw.buffer.as_slice(), machine_offset) {
            Ok(v) => v,
            Err(_) => {
                return "Unknown architecture";
            },
        };
        if raw_arch == 0x014c {
            "x86 (32‑bit)"
        } else if raw_arch == 0x8664 {
            "x64 (64‑bit)"
        } else if raw_arch == 0x1c0 {
            "ARM"
        } else if raw_arch == 0xaa64 {
            "ARM64"
        } else {
            "Unknown architecture"
        }
    }

    /// Renders the COFF link timestamp as a UTC date-time string, always 19
    /// characters and never empty.
    pub fn timestamp(&self) -> (r: String)
        ensures
            r@ == timestamp_label(self.raw.file_header.time_date_stamp),
            r@.len() == 19,
    {
        format_timestamp(self.raw.file_header.time_date_stamp)
    }

    /// Returns the linker version as `Linker vX.Y`.
    pub fn linker_version(&self) -> (r: String)
        ensures
            r@ == spec_version_label(
                "Linker v"@,
                self.raw.optional_header.spec_major_linker_version(),
                self.raw.optional_header.spec_minor_linker_version(),
            ),
    {
        let oh = &self.raw.optional_header;
        version_label("Linker v", oh.major_linker_version(), oh.minor_linker_version())
    }

    /// Returns the target OS version as `OS vX.Y`.
    pub fn os_version(&self) -> (r: String)
        ensures
            r@ == spec_version_label(
                "OS v"@,
                self.raw.optional_header.spec_major_os_version(),
                self.raw.optional_header.spec_minor_os_version(),
            ),
    {
        let oh = &self.raw.optional_header;
        version_label("OS v", oh.major_os_version(), oh.minor_os_version())
    }

    /// Returns the declared image version as `Image vX.Y`.
    pub fn image_version(&self) -> (r: String)
        ensures
            r@ == spec_version_label(
                "Image v"@,
                self.raw.optional_header.spec_major_image_version(),
                self.raw.optional_header.spec_minor_image_version(),
            ),
    {
        let oh = &self.raw.optional_header;
        version_label("Image v", oh.major_image_version(), oh.minor_image_version())
    }

    /// Returns the declared subsystem version as `Subsystem vX.Y`.
    pub fn subsystem_version(&self) -> (r: String)
        ensures
            r@ == spec_version_label(
                "Subsystem v"@,
                self.raw.optional_header.spec_major_subsystem_version(),
                self.raw.optional_header.spec_minor_subsystem_version(),
            ),
    {
        let oh = &self.raw.optional_header;
        version_label("Subsystem v", oh.major_subsystem_version(), oh.minor_subsystem_version())
    }

    /// Labels a file type from its extension: a best-effort heuristic over
    /// the common PE suffixes, handing back the extension itself when it is
    /// not a known one, and nothing when the file has none.
    pub fn detect_type(extension: Option<&str>) -> (r: Option<String>)
        ensures
            match extension {
                Some(e) => r matches Some(s) && s@ == spec_type_label(e@),
                None => r is None,
            },
    {
        match extension {
            Some(e) => {
                if str_equal(e, "exe") {
                    Some(String::from_str("Executable (EXE)"))
                } else if str_equal(e, "dll") {
                    Some(String::from_str("Dynamic-Link Library (DLL)"))
                } else if str_equal(e, "sys") {
                    Some(String::from_str("System Driver (SYS)"))
                } else if str_equal(e, "ocx") {
                    Some(String::from_str("ActiveX Control (OCX)"))
                } else if str_equal(e, "scr") {
                    Some(String::from_str("Screensaver (SCR)"))
                } else if str_equal(e, "cpl") {
                    Some(String::from_str("Control Panel Applet (CPL)"))
                } else if str_equal(e, "efi") {
                    Some(String::from_str("UEFI Application (EFI)"))
                } else {
                    Some(String::from_str(e))
                }
            },
            None => None,
        }
    }
}

/// The fixed table of DLL-characteristics bits and their names; insight into
/// binary security features such as ASLR and DEP.
pub open spec fn spec_dll_flag_table() -> Seq<(u64, Seq<char>)> {
    seq![
        (0x0020u64, "HIGH_ENTROPY_VA"@),
        (0x0040u64, "DYNAMIC_BASE (ASLR)"@),
        (0x0080u64, "FORCE_INTEGRITY"@),
        (0x0100u64, "NX_COMPAT (DEP)"@),
        (0x0200u64, "NO_ISOLATION"@),
        (0x0400u64, "NO_SEH"@),
        (0x0800u64, "NO_BIND"@),
        (0x1000u64, "APPCONTAINER"@),
        (0x2000u64, "WDM_DRIVER"@),
        (0x4000u64, "GUARD_CF"@),
        (0x8000u64, "TERMINAL_SERVER_AWARE"@),
    ]
}

/// The fixed table of COFF file-header characteristics bits and their names.
pub open spec fn spec_file_flag_table() -> Seq<(u16, Seq<char>)> {
    seq![
        (0x0001u16, "RELOCS_STRIPPED"@),
        (0x0002u16, "EXECUTABLE_IMAGE"@),
        (0x0004u16, "LINE_NUMS_STRIPPED (deprecated)"@),
        (0x0008u16, "LOCAL_SYMS_STRIPPED (deprecated)"@),
        (0x0010u16, "AGGRESSIVE_WS_TRIM (obsolete)"@),
        (0x0020u16, "LARGE_ADDRESS_AWARE"@),
        (0x0040u16, "RESERVED"@),
        (0x0080u16, "BYTES_REVERSED_LO (deprecated)"@),
        (0x0100u16, "32BIT_MACHINE"@),
        (0x0200u16, "DEBUG_STRIPPED"@),
        (0x0400u16, "REMOVABLE_RUN_FROM_SWAP"@),
        (0x0800u16, "NET_RUN_FROM_SWAP"@),
        (0x1000u16, "SYSTEM"@),
        (0x2000u16, "DLL"@),
        (0x4000u16, "UP_SYSTEM_ONLY"@),
        (0x8000u16, "BYTES_REVERSED_HI (deprecated)"@),
    ]
}

/// The entries of `table` whose mask shares a bit with `flag`, in table
/// order.
pub open spec fn spec_masked_u64(flag: u64, table: Seq<(u64, Seq<char>)>) -> Seq<(u64, Seq<char>)>
    decreases table.len(),
{
    if table.len() == 0 {
        Seq::empty()
    } else {
        (if flag & table[0].0 != 0 {
            seq![table[0]]
        } else {
            Seq::empty()
        }) + spec_masked_u64(flag, table.drop_first())
    }
}

/// The entries of `table` whose mask shares a bit with `flag`, in table
/// order.
pub open spec fn spec_masked_u16(flag: u16, table: Seq<(u16, Seq<char>)>) -> Seq<(u16, Seq<char>)>
    decreases table.len(),
{
    if table.len() == 0 {
        Seq::empty()
    } else {
        (if flag & table[0].0 != 0 {
            seq![table[0]]
        } else {
            Seq::empty()
        }) + spec_masked_u16(flag, table.drop_first())
    }
}

/// The labels of the entries of `table` whose mask shares a bit with `flag`,
/// in table order.
pub open spec fn spec_masked_labels_u32(flag: u32, table: Seq<(u32, Seq<char>)>) -> Seq<Seq<char>>
    decreases table.len(),
{
    if table.len() == 0 {
        Seq::empty()
    } else {
        (if flag & table[0].0 != 0 {
            seq![table[0].1]
        } else {
            Seq::empty()
        }) + spec_masked_labels_u32(flag, table.drop_first())
    }
}

/// The (mask, label text) pairs a mask/label vector holds.
pub open spec fn spec_flag_views_u64(s: Seq<(u64, &str)>) -> Seq<(u64, Seq<char>)> {
    s.map_values(|t: (u64, &str)| (t.0, t.1@))
}

/// The (mask, label text) pairs a mask/label vector holds.
pub open spec fn spec_flag_views_u16(s: Seq<(u16, &str)>) -> Seq<(u16, Seq<char>)> {
    s.map_values(|t: (u16, &str)| (t.0, t.1@))
}

/// The label texts a label vector holds.
pub open spec fn spec_label_views(s: Seq<&str>) -> Seq<Seq<char>> {
    s.map_values(|t: &str| t@)
}

/// The (mask, label text) pairs a mask/label vector holds.
pub open spec fn spec_flag_views_u32(s: Seq<(u32, &str)>) -> Seq<(u32, Seq<char>)> {
    s.map_values(|t: (u32, &str)| (t.0, t.1@))
}

impl<'a> Parsed<'a> {
    /// Returns the DLL-characteristics flags that are set, each as its mask
    /// and its name, in the fixed table order.
    #[verifier::loop_isolation(false)]
    pub fn dll_characteristics(&self) -> (r: Vec<(u64, &'static str)>)
        ensures
            spec_flag_views_u64(r@) == spec_masked_u64(
                self.raw.optional_header.spec_dll_characteristics(),
                spec_dll_flag_table(),
            ),
    {
        let flag = self.raw.optional_header.dll_characteristics();
        let table: [(u64, &'static str); 11] = [
            (0x0020, "HIGH_ENTROPY_VA"),
            (0x0040, "DYNAMIC_BASE (ASLR)"),
            (0x0080, "FORCE_INTEGRITY"),
            (0x0100, "NX_COMPAT (DEP)"),
            (0x0200, "NO_ISOLATION"),
            (0x0400, "NO_SEH"),
            (0x0800, "NO_BIND"),
            (0x1000, "APPCONTAINER"),
            (0x2000, "WDM_DRIVER"),
            (0x4000, "GUARD_CF"),
            (0x8000, "TERMINAL_SERVER_AWARE"),
        ];
        proof {
            assert(spec_flag_views_u64(table@) =~= spec_dll_flag_table());
        }
        let mut v: Vec<(u64, &'static str)> = Vec::new();
        let mut i: usize = 0;
        proof {
            let tbl = spec_dll_flag_table();
            assert(tbl.skip(0) =~= tbl);
            assert(spec_flag_views_u64(v@) + spec_masked_u64(flag, tbl) =~= spec_masked_u64(
                flag,
                tbl,
            ));
        }
        while i < 11
            invariant
                i <= 11,
                spec_masked_u64(flag, spec_dll_flag_table()) == spec_flag_views_u64(v@)
                    + spec_masked_u64(flag, spec_dll_flag_table().skip(i as int)),
            decreases 11 - i,
        {
            let ghost tbl = spec_dll_flag_table();
            let ghost old_v = v@;
            let t = *vstd::array::array_index_get(&table, i);
            if flag & t.0 != 0 {
                v.push(t);
            }
            proof {
                assert(tbl.skip(i as int).drop_first() =~= tbl.skip(i as int + 1));
                assert(tbl.skip(i as int)[0] == tbl[i as int]);
                assert(tbl[i as int] == (t.0, t.1@));
                if flag & t.0 != 0 {
                    assert(spec_flag_views_u64(v@) =~= spec_flag_views_u64(old_v).push(
                        (t.0, t.1@),
                    ));
                    assert(spec_flag_views_u64(old_v) + (seq![tbl[i as int]] + spec_masked_u64(
                        flag,
                        tbl.skip(i as int + 1),
                    )) =~= spec_flag_views_u64(v@) + spec_masked_u64(flag, tbl.skip(i as int + 1)));
                } else {
                    assert(spec_flag_views_u64(old_v) + (Seq::empty() + spec_masked_u64(
                        flag,
                        tbl.skip(i as int + 1),
                    )) =~= spec_flag_views_u64(v@) + spec_masked_u64(flag, tbl.skip(i as int + 1)));
                }
            }
            i = i + 1;
        }
        proof {
            let tbl = spec_dll_flag_table();
            assert(tbl.skip(11) =~= Seq::<(u64, Seq<char>)>::empty());
            assert(spec_flag_views_u64(v@) + spec_masked_u64(flag, tbl.skip(11)) =~= spec_flag_views_u64(
                v@,
            ));
        }
        v
    }

    /// Returns the COFF file-header characteristics flags that are set, each
    /// as its mask and its name, in the fixed table order.
    #[verifier::loop_isolation(false)]
    pub fn characteristics(&self) -> (r: Vec<(u16, &'static str)>)
        ensures
            spec_flag_views_u16(r@) == spec_masked_u16(
                self.raw.file_header.characteristics,
                spec_file_flag_table(),
            ),
    {
        let flag = self.raw.file_header.characteristics;
        let table: [(u16, &'static str); 16] = [
            (0x0001, "RELOCS_STRIPPED"),
            (0x0002, "EXECUTABLE_IMAGE"),
            (0x0004, "LINE_NUMS_STRIPPED (deprecated)"),
            (0x0008, "LOCAL_SYMS_STRIPPED (deprecated)"),
            (0x0010, "AGGRESSIVE_WS_TRIM (obsolete)"),
            (0x0020, "LARGE_ADDRESS_AWARE"),
            (0x0040, "RESERVED"),
            (0x0080, "BYTES_REVERSED_LO (deprecated)"),
            (0x0100, "32BIT_MACHINE"),
            (0x0200, "DEBUG_STRIPPED"),
            (0x0400, "REMOVABLE_RUN_FROM_SWAP"),
            (0x0800, "NET_RUN_FROM_SWAP"),
            (0x1000, "SYSTEM"),
            (0x2000, "DLL"),
            (0x4000, "UP_SYSTEM_ONLY"),
            (0x8000, "BYTES_REVERSED_HI (deprecated)"),
        ];
        proof {
            assert(spec_flag_views_u16(table@) =~= spec_file_flag_table());
        }
        let mut v: Vec<(u16, &'static str)> = Vec::new();
        let mut i: usize = 0;
        proof {
            let tbl = spec_file_flag_table();
            assert(tbl.skip(0) =~= tbl);
            assert(spec_flag_views_u16(v@) + spec_masked_u16(flag, tbl) =~= spec_masked_u16(
                flag,
                tbl,
            ));
        }
        while i < 16
            invariant
                i <= 16,
                spec_masked_u16(flag, spec_file_flag_table()) == spec_flag_views_u16(v@)
                    + spec_masked_u16(flag, spec_file_flag_table().skip(i as int)),
            decreases 16 - i,
        {
            let ghost tbl = spec_file_flag_table();
            let ghost old_v = v@;
            let t = *vstd::array::array_index_get(&table, i);
            if flag & t.0 != 0 {
                v.push(t);
            }
            proof {
                assert(tbl.skip(i as int).drop_first() =~= tbl.skip(i as int + 1));
                assert(tbl.skip(i as int)[0] == tbl[i as int]);
                assert(tbl[i as int] == (t.0, t.1@));
                if flag & t.0 != 0 {
                    assert(spec_flag_views_u16(v@) =~= spec_flag_views_u16(old_v).push(
                        (t.0, t.1@),
                    ));
                    assert(spec_flag_views_u16(old_v) + (seq![tbl[i as int]] + spec_masked_u16(
                        flag,
                        tbl.skip(i as int + 1),
                    )) =~= spec_flag_views_u16(v@) + spec_masked_u16(flag, tbl.skip(i as int + 1)));
                } else {
                    assert(spec_flag_views_u16(old_v) + (Seq::empty() + spec_masked_u16(
                        flag,
                        tbl.skip(i as int + 1),
                    )) =~= spec_flag_views_u16(v@) + spec_masked_u16(flag, tbl.skip(i as int + 1)));
                }
            }
            i = i + 1;
        }
        proof {
            let tbl = spec_file_flag_table();
            assert(tbl.skip(16) =~= Seq::<(u16, Seq<char>)>::empty());
            assert(spec_flag_views_u16(v@) + spec_masked_u16(flag, tbl.skip(16)) =~= spec_flag_views_u16(
                v@,
            ));
        }
        v
    }
}

/// Describes a decoded section with display-friendly fields: sizes and
/// addresses as hexadecimal strings, the characteristics decoded into flag
/// names.
pub struct ParsedSection {
    pub name: String,
    pub virtual_size: String,
    pub virtual_address: String,
    pub size_of_raw_data: String,
    pub pointer_to_raw_data: String,
    pub pointer_to_relocations: String,
    pub pointer_to_linenumbers: String,
    pub number_of_relocations: u16,
    pub number_of_linenumbers: u16,
    pub characteristics: String,
    pub flags: Vec<&'static str>,
}

/// `bytes` with its run of trailing zero bytes removed.
pub open spec fn spec_trim_nuls(bytes: Seq<u8>) -> Seq<u8>
    decreases bytes.len(),
{
    if bytes.len() > 0 && bytes.last() == 0 {
        spec_trim_nuls(bytes.drop_last())
    } else {
        bytes
    }
}

/// The display name of a section: its 8 name bytes with the NUL padding
/// removed and the rest decoded as UTF-8, or a fixed fallback when the bytes
/// are not valid text.
pub open spec fn spec_section_name(bytes: Seq<u8>) -> Seq<char> {
    let trimmed = spec_trim_nuls(bytes);
    if valid_utf8(trimmed) {
        decode_utf8(trimmed)
    } else {
        "Can't read section name"@
    }
}

/// The fixed table of section-characteristics bits and their names, per the
/// documented bitfields (the `ALIGN_` entries are values of a four-bit field
/// and are matched, like the rest, by shared bits).
pub open spec fn spec_section_flag_table() -> Seq<(u32, Seq<char>)> {
    seq![
        (0x00000008u32, "NO_PAD"@),
        (0x00000020u32, "CODE"@),
        (0x00000040u32, "INITIALIZED_DATA"@),
        (0x00000080u32, "UNINITIALIZED_DATA"@),
        (0x00000100u32, "LNK_OTHER"@),
        (0x00000200u32, "LNK_INFO"@),
        (0x00000800u32, "LNK_REMOVE"@),
        (0x00001000u32, "LNK_COMDAT"@),
        (0x00004000u32, "NO_DEFER_SPEC_EXC"@),
        (0x00008000u32, "GPREL"@),
        (0x01000000u32, "LNK_NRELOC_OVFL"@),
        (0x02000000u32, "DISCARDABLE"@),
        (0x04000000u32, "NOT_CACHED"@),
        (0x08000000u32, "NOT_PAGED"@),
        (0x10000000u32, "SHARED"@),
        (0x20000000u32, "EXECUTE"@),
        (0x40000000u32, "READ"@),
        (0x80000000u32, "WRITE"@),
        (0x00100000u32, "ALIGN_1BYTES"@),
        (0x00200000u32, "ALIGN_2BYTES"@),
        (0x00300000u32, "ALIGN_4BYTES"@),
        (0x00400000u32, "ALIGN_8BYTES"@),
        (0x00500000u32, "ALIGN_16BYTES"@),
        (0x00600000u32, "ALIGN_32BYTES"@),
        (0x00700000u32, "ALIGN_64BYTES"@),
        (0x00800000u32, "ALIGN_128BYTES"@),
        (0x00900000u32, "ALIGN_256BYTES"@),
        (0x00A00000u32, "ALIGN_512BYTES"@),
        (0x00B00000u32, "ALIGN_1024BYTES"@),
        (0x00C00000u32, "ALIGN_2048BYTES"@),
        (0x00D00000u32, "ALIGN_4096BYTES"@),
        (0x00E00000u32, "ALIGN_8192BYTES"@),
    ]
}

/// Field-by-field relation between a [`ParsedSection`] and the raw section
/// record it presents.
pub open spec fn spec_parsed_section_matches(p: ParsedSection, s: SectionHeader) -> bool {
    &&& p.name@ == spec_section_name(s.name@)
    &&& p.virtual_size@ == spec_hex(s.virtual_size as int)
    &&& p.virtual_address@ == spec_hex(s.virtual_address as int)
    &&& p.size_of_raw_data@ == spec_hex(s.size_of_raw_data as int)
    &&& p.pointer_to_raw_data@ == spec_hex(s.pointer_to_raw_data as int)
    &&& p.pointer_to_relocations@ == spec_hex(s.pointer_to_relocations as int)
    &&& p.pointer_to_linenumbers@ == spec_hex(s.pointer_to_linenumbers as int)
    &&& p.number_of_relocations == s.number_of_relocations
    &&& p.number_of_linenumbers == s.number_of_linenumbers
    &&& p.characteristics@ == spec_hex(s.characteristics as int)
    &&& spec_label_views(p.flags@) == spec_masked_labels_u32(
        s.characteristics,
        spec_section_flag_table(),
    )
}

/// Decodes a section's display name from its 8 raw name bytes: the NUL
/// padding is dropped and the rest decoded as UTF-8, with a fixed fallback
/// for bytes that are not valid text.
fn section_name(name: &[u8; 8]) -> (r: String)
    ensures
        r@ == spec_section_name(name@),
{
    let sl: &[u8] = name.as_slice();
    let mut end: usize = 8;
    proof {
        vstd::array::array_len_matches_n(name);
        assert(name@.take(8) =~= name@);
    }
    while end > 0 && u8_at(sl, end - 1) == 0
        invariant
            end <= 8,
            sl@ == name@,
            spec_trim_nuls(name@) == spec_trim_nuls(name@.take(end as int)),
        decreases end,
    {
        proof {
            assert(name@.take(end as int).drop_last() =~= name@.take(end - 1));
        }
        end = end - 1;
    }
    proof {
        assert(spec_trim_nuls(name@) == name@.take(end as int));
        assert(name@.subrange(0, end as int) =~= name@.take(end as int));
    }
    let bytes = slice_subrange(sl, 0, end);
    match utf8_to_string(bytes) {
        Some(s) => s,
        None => String::from_str("Can't read section name"),
    }
}

impl<'a> Parsed<'a> {
    /// Decodes a section-characteristics bitmask into the names of the set
    /// flags, in the fixed table order.
    #[verifier::loop_isolation(false)]
    fn parse_section_flags(&self, flags: &u32) -> (r: Vec<&'static str>)
        ensures
            spec_label_views(r@) == spec_masked_labels_u32(*flags, spec_section_flag_table()),
    {
        let flag = *flags;
        let table: [(u32, &'static str); 32] = [
            (0x00000008, "NO_PAD"),
            (0x00000020, "CODE"),
            (0x00000040, "INITIALIZED_DATA"),
            (0x00000080, "UNINITIALIZED_DATA"),
            (0x00000100, "LNK_OTHER"),
            (0x00000200, "LNK_INFO"),
            (0x00000800, "LNK_REMOVE"),
            (0x00001000, "LNK_COMDAT"),
            (0x00004000, "NO_DEFER_SPEC_EXC"),
            (0x00008000, "GPREL"),
            (0x01000000, "LNK_NRELOC_OVFL"),
            (0x02000000, "DISCARDABLE"),
            (0x04000000, "NOT_CACHED"),
            (0x08000000, "NOT_PAGED"),
            (0x10000000, "SHARED"),
            (0x20000000, "EXECUTE"),
            (0x40000000, "READ"),
            (0x80000000, "WRITE"),
            (0x00100000, "ALIGN_1BYTES"),
            (0x00200000, "ALIGN_2BYTES"),
            (0x00300000, "ALIGN_4BYTES"),
            (0x00400000, "ALIGN_8BYTES"),
            (0x00500000, "ALIGN_16BYTES"),
            (0x00600000, "ALIGN_32BYTES"),
            (0x00700000, "ALIGN_64BYTES"),
            (0x00800000, "ALIGN_128BYTES"),
            (0x00900000, "ALIGN_256BYTES"),
            (0x00A00000, "ALIGN_512BYTES"),
            (0x00B00000, "ALIGN_1024BYTES"),
            (0x00C00000, "ALIGN_2048BYTES"),
            (0x00D00000, "ALIGN_4096BYTES"),
            (0x00E00000, "ALIGN_8192BYTES"),
        ];
        proof {
            assert(spec_flag_views_u32(table@) =~= spec_section_flag_table());
        }
        let mut v: Vec<&'static str> = Vec::new();
        let mut i: usize = 0;
        proof {
            let tbl = spec_section_flag_table();
            assert(tbl.skip(0) =~= tbl);
            assert(spec_label_views(v@) + spec_masked_labels_u32(flag, tbl)
                =~= spec_masked_labels_u32(flag, tbl));
        }
        while i < 32
            invariant
                i <= 32,
                spec_masked_labels_u32(flag, spec_section_flag_table()) == spec_label_views(v@)
                    + spec_masked_labels_u32(flag, spec_section_flag_table().skip(i as int)),
            decreases 32 - i,
        {
            let ghost tbl = spec_section_flag_table();
            let ghost old_v = v@;
            let t = *vstd::array::array_index_get(&table, i);
            if flag & t.0 != 0 {
                v.push(t.1);
            }
            proof {
                assert(tbl.skip(i as int).drop_first() =~= tbl.skip(i as int + 1));
                assert(tbl.skip(i as int)[0] == tbl[i as int]);
                assert(spec_flag_views_u32(table@)[i as int] == (t.0, t.1@));
                assert(tbl[i as int] == (t.0, t.1@));
                if flag & t.0 != 0 {
                    assert(spec_label_views(v@) =~= spec_label_views(old_v).push(t.1@));
                    assert(spec_label_views(old_v) + (seq![tbl[i as int].1]
                        + spec_masked_labels_u32(flag, tbl.skip(i as int + 1))) =~= spec_label_views(
                        v@,
                    ) + spec_masked_labels_u32(flag, tbl.skip(i as int + 1)));
                } else {
                    assert(spec_label_views(old_v) + (Seq::empty() + spec_masked_labels_u32(
                        flag,
                        tbl.skip(i as int + 1),
                    )) =~= spec_label_views(v@) + spec_masked_labels_u32(
                        flag,
                        tbl.skip(i as int + 1),
                    ));
                }
            }
            i = i + 1;
        }
        proof {
            let tbl = spec_section_flag_table();
            assert(tbl.skip(32) =~= Seq::<(u32, Seq<char>)>::empty());
            assert(spec_label_views(v@) + spec_masked_labels_u32(flag, tbl.skip(32))
                =~= spec_label_views(v@));
        }
        v
    }

    /// Presents one raw section record with display-friendly fields.
    fn parsed_section(&self, s: &SectionHeader) -> (p: ParsedSection)
        ensures
            spec_parsed_section_matches(p, *s),
    {
        ParsedSection {
            name: section_name(&s.name),
            virtual_size: format_as_hex(s.virtual_size as u64),
            virtual_address: format_as_hex(s.virtual_address as u64),
            size_of_raw_data: format_as_hex(s.size_of_raw_data as u64),
            pointer_to_raw_data: format_as_hex(s.pointer_to_raw_data as u64),
            pointer_to_relocations: format_as_hex(s.pointer_to_relocations as u64),
            pointer_to_linenumbers: format_as_hex(s.pointer_to_linenumbers as u64),
            number_of_relocations: s.number_of_relocations,
            number_of_linenumbers: s.number_of_linenumbers,
            characteristics: format_as_hex(s.characteristics as u64),
            flags: self.parse_section_flags(&s.characteristics),
        }
    }

    /// Presents every section of the image with display-friendly fields, in
    /// declaration order.
    #[verifier::loop_isolation(false)]
    pub fn sections(&self) -> (r: Vec<ParsedSection>)
        ensures
            r@.len() == self.raw.sections@.len(),
            forall|i: int|
                0 <= i < r@.len() ==> spec_parsed_section_matches(
                    #[trigger] r@[i],
                    self.raw.sections@[i],
                ),
    {
        let mut out: Vec<ParsedSection> = Vec::new();
        let n = self.raw.sections.len();
        let mut i: usize = 0;
        while i < n
            invariant
                i <= n,
                out@.len() == i,
                forall|j: int|
                    0 <= j < i ==> spec_parsed_section_matches(
                        #[trigger] out@[j],
                        self.raw.sections@[j],
                    ),
            decreases n - i,
        {
            let s = self.raw.sections[i];
            let p = self.parsed_section(&s);
            out.push(p);
            i = i + 1;
        }
        out
    }
}

/// A full, readable view of the image's metadata: identification fields as
/// strings, the decoded section list, and the import and export tables where
/// they could be walked.
pub struct ParsedPretty {
    pub architecture: String,
    pub entry_point: String,
    pub image_base: String,
    pub timestamp: String,
    pub subsystem: String,
    pub dll_characteristics: Vec<String>,
    pub sections: Vec<ParsedSection>,
    pub import_table: Option<Vec<ImportEntry>>,
    pub export_table: Option<Vec<ExportEntry>>,
}

/// A lightweight summary of the image's core identifying details.
pub struct ParsedSummary {
    pub architecture: String,
    pub entry_point: String,
    pub image_base: String,
    pub timestamp: String,
    pub subsystem: String,
}

/// Field-by-field relation between a [`ParsedSummary`] and the image it
/// summarizes.
pub open spec fn spec_summary_matches(s: ParsedSummary, pe: PeFile) -> bool {
    &&& s.architecture@ == spec_architecture(pe)
    &&& s.entry_point@ == spec_hex(pe.optional_header.spec_address_of_entry_point() as int)
    &&& s.image_base@ == spec_hex(pe.optional_header.spec_image_base() as int)
    &&& s.timestamp@ == timestamp_label(pe.file_header.time_date_stamp)
    &&& s.subsystem@ == spec_subsystem_label(pe.optional_header.spec_subsystem())
}

/// Field-by-field relation between a [`ParsedPretty`] and the image it
/// presents: the summary fields, the set DLL-characteristics names, every
/// section, and the import/export tables exactly when their walks succeed.
pub open spec fn spec_pretty_matches(p: ParsedPretty, pe: PeFile) -> bool {
    &&& p.architecture@ == spec_architecture(pe)
    &&& p.entry_point@ == spec_hex(pe.optional_header.spec_address_of_entry_point() as int)
    &&& p.image_base@ == spec_hex(pe.optional_header.spec_image_base() as int)
    &&& p.timestamp@ == timestamp_label(pe.file_header.time_date_stamp)
    &&& p.subsystem@ == spec_subsystem_label(pe.optional_header.spec_subsystem())
    &&& ({
        let masked = spec_masked_u64(
            pe.optional_header.spec_dll_characteristics(),
            spec_dll_flag_table(),
        );
        &&& p.dll_characteristics@.len() == masked.len()
        &&& forall|j: int|
            0 <= j < masked.len() ==> (#[trigger] p.dll_characteristics@[j])@ == masked[j].1
    })
    &&& p.sections@.len() == pe.sections@.len()
    &&& forall|i: int|
        0 <= i < pe.sections@.len() ==> spec_parsed_section_matches(
            #[trigger] p.sections@[i],
            pe.sections@[i],
        )
    &&& match spec_import_table(pe) {
        Some(es) => p.import_table matches Some(v) && v@ == es,
        None => p.import_table is None,
    }
    &&& match spec_export_table(pe) {
        Some(es) => p.export_table matches Some(v) && v@ == es,
        None => p.export_table is None,
    }
}

impl<'a> Parsed<'a> {
    /// Builds the detailed, readable view of the image: identification
    /// fields, decoded DLL-characteristics names, the section list, and the
    /// import and export tables where their walks succeed (a failed walk
    /// leaves the corresponding field empty rather than failing the view).
    #[verifier::loop_isolation(false)]
    pub fn pretty_json(&self) -> (p: ParsedPretty)
        ensures
            spec_pretty_matches(p, *self.raw),
    {
        let dll_raw = self.dll_characteristics();
        let mut dll: Vec<String> = Vec::new();
        let mut i: usize = 0;
        while i < dll_raw.len()
            invariant
                i <= dll_raw@.len(),
                dll@.len() == i,
                forall|j: int| 0 <= j < i ==> (#[trigger] dll@[j])@ == dll_raw@[j].1@,
            decreases dll_raw@.len() - i,
        {
            let t = dll_raw[i];
            dll.push(String::from_str(t.1));
            i = i + 1;
        }
        proof {
            let masked = spec_masked_u64(
                self.raw.optional_header.spec_dll_characteristics(),
                spec_dll_flag_table(),
            );
            assert(masked.len() == dll_raw@.len());
            assert forall|j: int| 0 <= j < masked.len() implies (#[trigger] dll@[j])@
                == masked[j].1 by {
                assert(spec_flag_views_u64(dll_raw@)[j] == (dll_raw@[j].0, dll_raw@[j].1@));
            }
        }
        ParsedPretty {
            architecture: String::from_str(self.architecture()),
            entry_point: self.entry_point(),
            image_base: self.image_base(),
            timestamp: self.timestamp(),
            subsystem: String::from_str(self.subsystem()),
            dll_characteristics: dll,
            sections: self.sections(),
            import_table: parse_import_table(self.raw).ok(),
            export_table: parse_export_table(self.raw).ok(),
        }
    }

    /// Builds the compact summary of the image's key fields, for overview
    /// displays.
    pub fn summary_json(&self) -> (s: ParsedSummary)
        ensures
            spec_summary_matches(s, *self.raw),
    {
        ParsedSummary {
            architecture: String::from_str(self.architecture()),
            entry_point: self.entry_point(),
            image_base: self.image_base(),
            timestamp: self.timestamp(),
            subsystem: String::from_str(self.subsystem()),
        }
    }
}

/// Renders `<prefix><major>.<minor>`, the shape all the version accessors
/// share.
fn version_label(prefix: &str, major: u64, minor: u64) -> (r: String)
    ensures
        r@ == spec_version_label(prefix@, major, minor),
{
    let p = push_dec_digits(String::from_str(prefix), major);
    let p2 = p.concat(".");
    let r = push_dec_digits(p2, minor);
    proof {
        assert(((prefix@ + spec_dec_digits(major as int)) + "."@) + spec_dec_digits(minor as int)
            =~= spec_version_label(prefix@, major, minor));
    }
    r
}

} // verus!
