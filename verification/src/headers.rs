use vstd::prelude::*;
use crate::utils::{le16_at, le32_at, le64_at};

verus! {

/// The NT signature `PE\0\0`, read little-endian from the four bytes at
/// `e_lfanew`.
pub const PE_SIGNATURE: u32 = 0x00004550;

/// The DOS header magic `MZ`, read little-endian from the first two bytes.
pub const DOS_MAGIC: u16 = 0x5A4D;

/// Optional-header magic selecting the PE32 (32-bit) layout.
pub const PE32_MAGIC: u16 = 0x10B;

/// Optional-header magic selecting the PE32+ (64-bit) layout.
pub const PE32_PLUS_MAGIC: u16 = 0x20B;

/// One of the 16 `(RVA, size)` slots of the optional header's data-directory
/// table. Slot 0 locates the export table, slot 1 the import table. A zero
/// `size` means the table is absent.
#[derive(Debug, Clone, Copy, PartialEq, Eq, Structural)]
pub struct DataDirectory {
    /// RVA of the table's data once the image is loaded.
    pub virtual_address: u32,
    /// Size of the table's data in bytes.
    pub size: u32,
}

/// The value a [`DataDirectory`] decoded from the 8 bytes of `b` at `off`
/// must hold.
pub open spec fn spec_data_directory_at(b: Seq<u8>, off: int) -> DataDirectory {
    DataDirectory { virtual_address: le32_at(b, off), size: le32_at(b, off + 4) }
}

/// The fixed 64-byte DOS header at the start of every PE image. Only
/// `e_magic` (must be `MZ`) and `e_lfanew` (offset of the NT header) are
/// load-bearing; the remaining fields are legacy DOS-loader data, decoded and
/// carried but unused.
#[derive(Debug, Clone, Copy)]
pub struct DosHeader {
    pub e_magic: u16,
    pub e_cblp: u16,
    pub e_cp: u16,
    pub e_crlc: u16,
    pub e_cparhdr: u16,
    pub e_minalloc: u16,
    pub e_maxalloc: u16,
    pub e_ss: u16,
    pub e_sp: u16,
    pub e_csum: u16,
    pub e_ip: u16,
    pub e_cs: u16,
    pub e_lfarlc: u16,
    pub e_ovno: u16,
    pub e_res: [u16; 4],
    pub e_oemid: u16,
    pub e_oeminfo: u16,
    pub e_res2: [u16; 10],
    pub e_lfanew: u32,
}

/// Field-by-field relation between a decoded [`DosHeader`] and the first 64
/// bytes of the buffer it was decoded from.
pub open spec fn dos_header_matches(h: DosHeader, b: Seq<u8>) -> bool {
    &&& h.e_magic == le16_at(b, 0x00)
    &&& h.e_cblp == le16_at(b, 0x02)
    &&& h.e_cp == le16_at(b, 0x04)
    &&& h.e_crlc == le16_at(b, 0x06)
    &&& h.e_cparhdr == le16_at(b, 0x08)
    &&& h.e_minalloc == le16_at(b, 0x0A)
    &&& h.e_maxalloc == le16_at(b, 0x0C)
    &&& h.e_ss == le16_at(b, 0x0E)
    &&& h.e_sp == le16_at(b, 0x10)
    &&& h.e_csum == le16_at(b, 0x12)
    &&& h.e_ip == le16_at(b, 0x14)
    &&& h.e_cs == le16_at(b, 0x16)
    &&& h.e_lfarlc == le16_at(b, 0x18)
    &&& h.e_ovno == le16_at(b, 0x1A)
    &&& forall|k: int| 0 <= k < 4 ==> h.e_res@[k] == le16_at(b, 0x1C + 2 * k)
    &&& h.e_oemid == le16_at(b, 0x24)
    &&& h.e_oeminfo == le16_at(b, 0x26)
    &&& forall|k: int| 0 <= k < 10 ==> h.e_res2@[k] == le16_at(b, 0x28 + 2 * k)
    &&& h.e_lfanew == le32_at(b, 0x3C)
}

/// The fixed 20-byte COFF file header that follows the NT signature: machine
/// type, section count, link timestamp, optional-header size, characteristics
/// flags. `number_of_sections` and `size_of_optional_header` drive later
/// decoding steps and are treated as untrusted until bounds-checked there.
#[derive(Debug, Clone, Copy, PartialEq, Eq, Structural)]
pub struct FileHeader {
    pub machine: u16,
    pub number_of_sections: u16,
    pub time_date_stamp: u32,
    pub pointer_to_symbol_table: u32,
    pub number_of_symbols: u32,
    pub size_of_optional_header: u16,
    pub characteristics: u16,
}

/// Field-by-field relation between a decoded [`FileHeader`] and the 20 bytes
/// of `b` at `off`.
pub open spec fn file_header_matches(h: FileHeader, b: Seq<u8>, off: int) -> bool {
    &&& h.machine == le16_at(b, off)
    &&& h.number_of_sections == le16_at(b, off + 2)
    &&& h.time_date_stamp == le32_at(b, off + 4)
    &&& h.pointer_to_symbol_table == le32_at(b, off + 8)
    &&& h.number_of_symbols == le32_at(b, off + 12)
    &&& h.size_of_optional_header == le16_at(b, off + 16)
    &&& h.characteristics == le16_at(b, off + 18)
}

/// The 96-byte fixed part of the PE32 optional header plus its 16-slot
/// data-directory table (224 bytes in all). Address-sized fields are 32 bits
/// wide; `base_of_data` exists only in this variant.
#[derive(Debug, Clone, Copy)]
pub struct OptionalHeader32 {
    pub magic: u16,
    pub major_linker_version: u8,
    pub minor_linker_version: u8,
    pub size_of_code: u32,
    pub size_of_initialized_data: u32,
    pub size_of_uninitialized_data: u32,
    pub address_of_entry_point: u32,
    pub base_of_code: u32,
    pub base_of_data: u32,
    pub image_base: u32,
    pub section_alignment: u32,
    pub file_alignment: u32,
    pub major_os_version: u16,
    pub minor_os_version: u16,
    pub major_image_version: u16,
    pub minor_image_version: u16,
    pub major_subsystem_version: u16,
    pub minor_subsystem_version: u16,
    pub win32_version_value: u32,
    pub size_of_image: u32,
    pub size_of_headers: u32,
    pub checksum: u32,
    pub subsystem: u16,
    pub dll_characteristics: u16,
    pub size_of_stack_reserve: u32,
    pub size_of_stack_commit: u32,
    pub size_of_heap_reserve: u32,
    pub size_of_heap_commit: u32,
    pub loader_flags: u32,
    pub number_of_rva_and_sizes: u32,
    pub data_directory: [DataDirectory; 16],
}

/// Field-by-field relation between a decoded [`OptionalHeader32`] and the 224
/// bytes of `b` at `off`.
pub open spec fn opt32_matches(h: OptionalHeader32, b: Seq<u8>, off: int) -> bool {
    &&& h.magic == le16_at(b, off)
    &&& h.major_linker_version == b[off + 2]
    &&& h.minor_linker_version == b[off + 3]
    &&& h.size_of_code == le32_at(b, off + 4)
    &&& h.size_of_initialized_data == le32_at(b, off + 8)
    &&& h.size_of_uninitialized_data == le32_at(b, off + 12)
    &&& h.address_of_entry_point == le32_at(b, off + 16)
    &&& h.base_of_code == le32_at(b, off + 20)
    &&& h.base_of_data == le32_at(b, off + 24)
    &&& h.image_base == le32_at(b, off + 28)
    &&& h.section_alignment == le32_at(b, off + 32)
    &&& h.file_alignment == le32_at(b, off + 36)
    &&& h.major_os_version == le16_at(b, off + 40)
    &&& h.minor_os_version == le16_at(b, off + 42)
    &&& h.major_image_version == le16_at(b, off + 44)
    &&& h.minor_image_version == le16_at(b, off + 46)
    &&& h.major_subsystem_version == le16_at(b, off + 48)
    &&& h.minor_subsystem_version == le16_at(b, off + 50)
    &&& h.win32_version_value == le32_at(b, off + 52)
    &&& h.size_of_image == le32_at(b, off + 56)
    &&& h.size_of_headers == le32_at(b, off + 60)
    &&& h.checksum == le32_at(b, off + 64)
    &&& h.subsystem == le16_at(b, off + 68)
    &&& h.dll_characteristics == le16_at(b, off + 70)
    &&& h.size_of_stack_reserve == le32_at(b, off + 72)
    &&& h.size_of_stack_commit == le32_at(b, off + 76)
    &&& h.size_of_heap_reserve == le32_at(b, off + 80)
    &&& h.size_of_heap_commit == le32_at(b, off + 84)
    &&& h.loader_flags == le32_at(b, off + 88)
    &&& h.number_of_rva_and_sizes == le32_at(b, off + 92)
    &&& forall|k: int|
        0 <= k < 16 ==> h.data_directory@[k] == spec_data_directory_at(b, off + 96 + 8 * k)
}

/// The 112-byte fixed part of the PE32+ optional header plus its 16-slot
/// data-directory table (240 bytes in all). Address-sized fields are 64 bits
/// wide; there is no `base_of_data`.
#[derive(Debug, Clone, Copy)]
pub struct OptionalHeader64 {
    pub magic: u16,
    pub major_linker_version: u8,
    pub minor_linker_version: u8,
    pub size_of_code: u32,
    pub size_of_initialized_data: u32,
    pub size_of_uninitialized_data: u32,
    pub address_of_entry_point: u32,
    pub base_of_code: u32,
    pub image_base: u64,
    pub section_alignment: u32,
    pub file_alignment: u32,
    pub major_os_version: u16,
    pub minor_os_version: u16,
    pub major_image_version: u16,
    pub minor_image_version: u16,
    pub major_subsystem_version: u16,
    pub minor_subsystem_version: u16,
    pub win32_version_value: u32,
    pub size_of_image: u32,
    pub size_of_headers: u32,
    pub checksum: u32,
    pub subsystem: u16,
    pub dll_characteristics: u16,
    pub size_of_stack_reserve: u64,
    pub size_of_stack_commit: u64,
    pub size_of_heap_reserve: u64,
    pub size_of_heap_commit: u64,
    pub loader_flags: u32,
    pub number_of_rva_and_sizes: u32,
    pub data_directory: [DataDirectory; 16],
}

/// Field-by-field relation between a decoded [`OptionalHeader64`] and the 240
/// bytes of `b` at `off`.
pub open spec fn opt64_matches(h: OptionalHeader64, b: Seq<u8>, off: int) -> bool {
    &&& h.magic == le16_at(b, off)
    &&& h.major_linker_version == b[off + 2]
    &&& h.minor_linker_version == b[off + 3]
    &&& h.size_of_code == le32_at(b, off + 4)
    &&& h.size_of_initialized_data == le32_at(b, off + 8)
    &&& h.size_of_uninitialized_data == le32_at(b, off + 12)
    &&& h.address_of_entry_point == le32_at(b, off + 16)
    &&& h.base_of_code == le32_at(b, off + 20)
    &&& h.image_base == le64_at(b, off + 24)
    &&& h.section_alignment == le32_at(b, off + 32)
    &&& h.file_alignment == le32_at(b, off + 36)
    &&& h.major_os_version == le16_at(b, off + 40)
    &&& h.minor_os_version == le16_at(b, off + 42)
    &&& h.major_image_version == le16_at(b, off + 44)
    &&& h.minor_image_version == le16_at(b, off + 46)
    &&& h.major_subsystem_version == le16_at(b, off + 48)
    &&& h.minor_subsystem_version == le16_at(b, off + 50)
    &&& h.win32_version_value == le32_at(b, off + 52)
    &&& h.size_of_image == le32_at(b, off + 56)
    &&& h.size_of_headers == le32_at(b, off + 60)
    &&& h.checksum == le32_at(b, off + 64)
    &&& h.subsystem == le16_at(b, off + 68)
    &&& h.dll_characteristics == le16_at(b, off + 70)
    &&& h.size_of_stack_reserve == le64_at(b, off + 72)
    &&& h.size_of_stack_commit == le64_at(b, off + 80)
    &&& h.size_of_heap_reserve == le64_at(b, off + 88)
    &&& h.size_of_heap_commit == le64_at(b, off + 96)
    &&& h.loader_flags == le32_at(b, off + 104)
    &&& h.number_of_rva_and_sizes == le32_at(b, off + 108)
    &&& forall|k: int|
        0 <= k < 16 ==> h.data_directory@[k] == spec_data_directory_at(b, off + 112 + 8 * k)
}

/// The optional header with its 32/64-bit variance resolved. The variant is
/// chosen once, at parse time, from the 2-byte magic; downstream code uses the
/// uniform accessors below instead of re-inspecting the magic.
#[derive(Debug, Clone, Copy)]
pub enum OptionalHeader {
    Header32(OptionalHeader32),
    Header64(OptionalHeader64),
}

/// Relation between a decoded [`OptionalHeader`] and the bytes of `b` at
/// `off`: the variant agrees with the magic and its fields with the layout.
pub open spec fn optional_header_matches(oh: OptionalHeader, b: Seq<u8>, off: int) -> bool {
    match oh {
        OptionalHeader::Header32(h) => le16_at(b, off) == PE32_MAGIC && opt32_matches(h, b, off),
        OptionalHeader::Header64(h) => le16_at(b, off) == PE32_PLUS_MAGIC && opt64_matches(
            h,
            b,
            off,
        ),
    }
}

impl OptionalHeader {
    /// The 2-byte magic of the variant in use, widened to `u64`.
    pub open spec fn spec_magic(&self) -> u64 {
        match self {
            OptionalHeader::Header32(h) => h.magic as u64,
            OptionalHeader::Header64(h) => h.magic as u64,
        }
    }

    /// Returns the 2-byte magic of the variant in use, widened to `u64`.
    #[verifier::when_used_as_spec(spec_magic)]
    pub fn magic(&self) -> (r: u64)
        ensures
            r == self.spec_magic(),
    {
        match self {
            OptionalHeader::Header32(h) => h.magic as u64,
            OptionalHeader::Header64(h) => h.magic as u64,
        }
    }

    /// The major linker version, widened to `u64`.
    pub open spec fn spec_major_linker_version(&self) -> u64 {
        match self {
            OptionalHeader::Header32(h) => h.major_linker_version as u64,
            OptionalHeader::Header64(h) => h.major_linker_version as u64,
        }
    }

    /// Returns the major linker version, widened to `u64`.
    #[verifier::when_used_as_spec(spec_major_linker_version)]
    pub fn major_linker_version(&self) -> (r: u64)
        ensures
            r == self.spec_major_linker_version(),
    {
        match self {
            OptionalHeader::Header32(h) => h.major_linker_version as u64,
            OptionalHeader::Header64(h) => h.major_linker_version as u64,
        }
    }

    /// The minor linker version, widened to `u64`.
    pub open spec fn spec_minor_linker_version(&self) -> u64 {
        match self {
            OptionalHeader::Header32(h) => h.minor_linker_version as u64,
            OptionalHeader::Header64(h) => h.minor_linker_version as u64,
        }
    }

    /// Returns the minor linker version, widened to `u64`.
    #[verifier::when_used_as_spec(spec_minor_linker_version)]
    pub fn minor_linker_version(&self) -> (r: u64)
        ensures
            r == self.spec_minor_linker_version(),
    {
        match self {
            OptionalHeader::Header32(h) => h.minor_linker_version as u64,
            OptionalHeader::Header64(h) => h.minor_linker_version as u64,
        }
    }

    /// The RVA where execution begins, widened to `u64`.
    pub open spec fn spec_address_of_entry_point(&self) -> u64 {
        match self {
            OptionalHeader::Header32(h) => h.address_of_entry_point as u64,
            OptionalHeader::Header64(h) => h.address_of_entry_point as u64,
        }
    }

    /// Returns the RVA where execution begins, widened to `u64`.
    #[verifier::when_used_as_spec(spec_address_of_entry_point)]
    pub fn address_of_entry_point(&self) -> (r: u64)
        ensures
            r == self.spec_address_of_entry_point(),
    {
        match self {
            OptionalHeader::Header32(h) => h.address_of_entry_point as u64,
            OptionalHeader::Header64(h) => h.address_of_entry_point as u64,
        }
    }

    /// The preferred load address, widened to `u64`.
    pub open spec fn spec_image_base(&self) -> u64 {
        match self {
            OptionalHeader::Header32(h) => h.image_base as u64,
            OptionalHeader::Header64(h) => h.image_base,
        }
    }

    /// Returns the preferred load address, widened to `u64`.
    #[verifier::when_used_as_spec(spec_image_base)]
    pub fn image_base(&self) -> (r: u64)
        ensures
            r == self.spec_image_base(),
    {
        match self {
            OptionalHeader::Header32(h) => h.image_base as u64,
            OptionalHeader::Header64(h) => h.image_base,
        }
    }

    /// The major OS version, widened to `u64`.
    pub open spec fn spec_major_os_version(&self) -> u64 {
        match self {
            OptionalHeader::Header32(h) => h.major_os_version as u64,
            OptionalHeader::Header64(h) => h.major_os_version as u64,
        }
    }

    /// Returns the major OS version, widened to `u64`.
    #[verifier::when_used_as_spec(spec_major_os_version)]
    pub fn major_os_version(&self) -> (r: u64)
        ensures
            r == self.spec_major_os_version(),
    {
        match self {
            OptionalHeader::Header32(h) => h.major_os_version as u64,
            OptionalHeader::Header64(h) => h.major_os_version as u64,
        }
    }

    /// The minor OS version, widened to `u64`.
    pub open spec fn spec_minor_os_version(&self) -> u64 {
        match self {
            OptionalHeader::Header32(h) => h.minor_os_version as u64,
            OptionalHeader::Header64(h) => h.minor_os_version as u64,
        }
    }

    /// Returns the minor OS version, widened to `u64`.
    #[verifier::when_used_as_spec(spec_minor_os_version)]
    pub fn minor_os_version(&self) -> (r: u64)
        ensures
            r == self.spec_minor_os_version(),
    {
        match self {
            OptionalHeader::Header32(h) => h.minor_os_version as u64,
            OptionalHeader::Header64(h) => h.minor_os_version as u64,
        }
    }

    /// The major image version, widened to `u64`.
    pub open spec fn spec_major_image_version(&self) -> u64 {
        match self {
            OptionalHeader::Header32(h) => h.major_image_version as u64,
            OptionalHeader::Header64(h) => h.major_image_version as u64,
        }
    }

    /// Returns the major image version, widened to `u64`.
    #[verifier::when_used_as_spec(spec_major_image_version)]
    pub fn major_image_version(&self) -> (r: u64)
        ensures
            r == self.spec_major_image_version(),
    {
        match self {
            OptionalHeader::Header32(h) => h.major_image_version as u64,
            OptionalHeader::Header64(h) => h.major_image_version as u64,
        }
    }

    /// The minor image version, widened to `u64`.
    pub open spec fn spec_minor_image_version(&self) -> u64 {
        match self {
            OptionalHeader::Header32(h) => h.minor_image_version as u64,
            OptionalHeader::Header64(h) => h.minor_image_version as u64,
        }
    }

    /// Returns the minor image version, widened to `u64`.
    #[verifier::when_used_as_spec(spec_minor_image_version)]
    pub fn minor_image_version(&self) -> (r: u64)
        ensures
            r == self.spec_minor_image_version(),
    {
        match self {
            OptionalHeader::Header32(h) => h.minor_image_version as u64,
            OptionalHeader::Header64(h) => h.minor_image_version as u64,
        }
    }

    /// The major subsystem version, widened to `u64`.
    pub open spec fn spec_major_subsystem_version(&self) -> u64 {
        match self {
            OptionalHeader::Header32(h) => h.major_subsystem_version as u64,
            OptionalHeader::Header64(h) => h.major_subsystem_version as u64,
        }
    }

    /// Returns the major subsystem version, widened to `u64`.
    #[verifier::when_used_as_spec(spec_major_subsystem_version)]
    pub fn major_subsystem_version(&self) -> (r: u64)
        ensures
            r == self.spec_major_subsystem_version(),
    {
        match self {
            OptionalHeader::Header32(h) => h.major_subsystem_version as u64,
            OptionalHeader::Header64(h) => h.major_subsystem_version as u64,
        }
    }

    /// The minor subsystem version, widened to `u64`.
    pub open spec fn spec_minor_subsystem_version(&self) -> u64 {
        match self {
            OptionalHeader::Header32(h) => h.minor_subsystem_version as u64,
            OptionalHeader::Header64(h) => h.minor_subsystem_version as u64,
        }
    }

    /// Returns the minor subsystem version, widened to `u64`.
    #[verifier::when_used_as_spec(spec_minor_subsystem_version)]
    pub fn minor_subsystem_version(&self) -> (r: u64)
        ensures
            r == self.spec_minor_subsystem_version(),
    {
        match self {
            OptionalHeader::Header32(h) => h.minor_subsystem_version as u64,
            OptionalHeader::Header64(h) => h.minor_subsystem_version as u64,
        }
    }

    /// The subsystem the image targets (GUI, console, ...), widened to `u64`.
    pub open spec fn spec_subsystem(&self) -> u64 {
        match self {
            OptionalHeader::Header32(h) => h.subsystem as u64,
            OptionalHeader::Header64(h) => h.subsystem as u64,
        }
    }

    /// Returns the subsystem the image targets, widened to `u64`.
    #[verifier::when_used_as_spec(spec_subsystem)]
    pub fn subsystem(&self) -> (r: u64)
        ensures
            r == self.spec_subsystem(),
    {
        match self {
            OptionalHeader::Header32(h) => h.subsystem as u64,
            OptionalHeader::Header64(h) => h.subsystem as u64,
        }
    }

    /// The DLL-characteristics bitmask, widened to `u64`.
    pub open spec fn spec_dll_characteristics(&self) -> u64 {
        match self {
            OptionalHeader::Header32(h) => h.dll_characteristics as u64,
            OptionalHeader::Header64(h) => h.dll_characteristics as u64,
        }
    }

    /// Returns the DLL-characteristics bitmask, widened to `u64`.
    #[verifier::when_used_as_spec(spec_dll_characteristics)]
    pub fn dll_characteristics(&self) -> (r: u64)
        ensures
            r == self.spec_dll_characteristics(),
    {
        match self {
            OptionalHeader::Header32(h) => h.dll_characteristics as u64,
            OptionalHeader::Header64(h) => h.dll_characteristics as u64,
        }
    }
}

/// The 4-byte NT signature together with the headers that follow it, in the
/// 32-bit layout. Carried for callers that want the three records as one
/// value; the decoding routines work on the individual headers.
#[derive(Debug, Clone, Copy)]
pub struct NtHeaders32 {
    pub signature: u32,
    pub file_header: FileHeader,
    pub optional_header: OptionalHeader32,
}

/// The 4-byte NT signature together with the headers that follow it, in the
/// 64-bit layout.
#[derive(Debug, Clone, Copy)]
pub struct NtHeaders64 {
    pub signature: u32,
    pub file_header: FileHeader,
    pub optional_header: OptionalHeader64,
}

/// One 40-byte record of the section table: a name of up to 8 raw bytes
/// (NUL-padded, not necessarily NUL-terminated) and the section's virtual and
/// file-offset layout. The ordered sequence of these records is the
/// authoritative map from RVA space to file-offset space.
#[derive(Debug, Clone, Copy)]
pub struct SectionHeader {
    pub name: [u8; 8],
    pub virtual_size: u32,
    pub virtual_address: u32,
    pub size_of_raw_data: u32,
    pub pointer_to_raw_data: u32,
    pub pointer_to_relocations: u32,
    pub pointer_to_linenumbers: u32,
    pub number_of_relocations: u16,
    pub number_of_linenumbers: u16,
    pub characteristics: u32,
}

/// Field-by-field relation between a decoded [`SectionHeader`] and the 40
/// bytes of `b` at `off`.
pub open spec fn section_header_matches(s: SectionHeader, b: Seq<u8>, off: int) -> bool {
    &&& s.name@ == b.subrange(off, off + 8)
    &&& s.virtual_size == le32_at(b, off + 8)
    &&& s.virtual_address == le32_at(b, off + 12)
    &&& s.size_of_raw_data == le32_at(b, off + 16)
    &&& s.pointer_to_raw_data == le32_at(b, off + 20)
    &&& s.pointer_to_relocations == le32_at(b, off + 24)
    &&& s.pointer_to_linenumbers == le32_at(b, off + 28)
    &&& s.number_of_relocations == le16_at(b, off + 32)
    &&& s.number_of_linenumbers == le16_at(b, off + 34)
    &&& s.characteristics == le32_at(b, off + 36)
}

} // verus!
