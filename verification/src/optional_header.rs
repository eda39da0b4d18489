use vstd::prelude::*;
use crate::errors::Error;
use crate::headers::{
    opt32_matches, opt64_matches, optional_header_matches, spec_data_directory_at, DataDirectory,
    OptionalHeader, OptionalHeader32, OptionalHeader64, PE32_MAGIC, PE32_PLUS_MAGIC,
};
use crate::utils::{clamp_usize, le16_at, read_u16, u16_at, u32_at, u64_at, u8_at};

verus! {

/// The size in bytes of the PE32 optional header: 96 fixed bytes plus 16
/// 8-byte data-directory slots.
pub const OPT32_SIZE: usize = 224;

/// The size in bytes of the PE32+ optional header: 112 fixed bytes plus 16
/// 8-byte data-directory slots.
pub const OPT64_SIZE: usize = 240;

/// The error with which decoding the optional header at `off` fails, or
/// `None` when it succeeds: the 2-byte magic must be readable, must select
/// one of the two layouts, and the selected layout must fit the buffer.
pub open spec fn spec_optional_header_error(b: Seq<u8>, off: int) -> Option<Error> {
    if off + 2 > b.len() {
        Some(Error::InvalidSize { expected: 2, found: b.len() as usize })
    } else if le16_at(b, off) == PE32_MAGIC {
        if off + OPT32_SIZE <= b.len() {
            None
        } else {
            Some(
                Error::InvalidSize {
                    expected: clamp_usize(off + OPT32_SIZE),
                    found: b.len() as usize,
                },
            )
        }
    } else if le16_at(b, off) == PE32_PLUS_MAGIC {
        if off + OPT64_SIZE <= b.len() {
            None
        } else {
            Some(
                Error::InvalidSize {
                    expected: clamp_usize(off + OPT64_SIZE),
                    found: b.len() as usize,
                },
            )
        }
    } else {
        Some(Error::UnsupportedOptionalHeader(le16_at(b, off)))
    }
}

/// Decodes one 8-byte data-directory slot; bounds are established by the
/// caller.
fn data_directory_at(buffer: &[u8], off: usize) -> (d: DataDirectory)
    requires
        off + 8 <= buffer@.len(),
    ensures
        d == spec_data_directory_at(buffer@, off as int),
{
    let _n: usize = buffer.len();
    DataDirectory { virtual_address: u32_at(buffer, off), size: u32_at(buffer, off + 4) }
}

/// Decodes the PE32 layout at `off`; bounds are established by the caller.
fn parse_opt32(buffer: &[u8], off: usize) -> (h: OptionalHeader32)
    requires
        off + OPT32_SIZE <= buffer@.len(),
    ensures
        opt32_matches(h, buffer@, off as int),
{
    let _n: usize = buffer.len();
    OptionalHeader32 {
        magic: u16_at(buffer, off),
        major_linker_version: u8_at(buffer, off + 2),
        minor_linker_version: u8_at(buffer, off + 3),
        size_of_code: u32_at(buffer, off + 4),
        size_of_initialized_data: u32_at(buffer, off + 8),
        size_of_uninitialized_data: u32_at(buffer, off + 12),
        address_of_entry_point: u32_at(buffer, off + 16),
        base_of_code: u32_at(buffer, off + 20),
        base_of_data: u32_at(buffer, off + 24),
        image_base: u32_at(buffer, off + 28),
        section_alignment: u32_at(buffer, off + 32),
        file_alignment: u32_at(buffer, off + 36),
        major_os_version: u16_at(buffer, off + 40),
        minor_os_version: u16_at(buffer, off + 42),
        major_image_version: u16_at(buffer, off + 44),
        minor_image_version: u16_at(buffer, off + 46),
        major_subsystem_version: u16_at(buffer, off + 48),
        minor_subsystem_version: u16_at(buffer, off + 50),
        win32_version_value: u32_at(buffer, off + 52),
        size_of_image: u32_at(buffer, off + 56),
        size_of_headers: u32_at(buffer, off + 60),
        checksum: u32_at(buffer, off + 64),
        subsystem: u16_at(buffer, off + 68),
        dll_characteristics: u16_at(buffer, off + 70),
        size_of_stack_reserve: u32_at(buffer, off + 72),
        size_of_stack_commit: u32_at(buffer, off + 76),
        size_of_heap_reserve: u32_at(buffer, off + 80),
        size_of_heap_commit: u32_at(buffer, off + 84),
        loader_flags: u32_at(buffer, off + 88),
        number_of_rva_and_sizes: u32_at(buffer, off + 92),
        data_directory: [
            data_directory_at(buffer, off + 96),
            data_directory_at(buffer, off + 104),
            data_directory_at(buffer, off + 112),
            data_directory_at(buffer, off + 120),
            data_directory_at(buffer, off + 128),
            data_directory_at(buffer, off + 136),
            data_directory_at(buffer, off + 144),
            data_directory_at(buffer, off + 152),
            data_directory_at(buffer, off + 160),
            data_directory_at(buffer, off + 168),
            data_directory_at(buffer, off + 176),
            data_directory_at(buffer, off + 184),
            data_directory_at(buffer, off + 192),
            data_directory_at(buffer, off + 200),
            data_directory_at(buffer, off + 208),
            data_directory_at(buffer, off + 216),
        ],
    }
}

/// Decodes the PE32+ layout at `off`; bounds are established by the caller.
fn parse_opt64(buffer: &[u8], off: usize) -> (h: OptionalHeader64)
    requires
        off + OPT64_SIZE <= buffer@.len(),
    ensures
        opt64_matches(h, buffer@, off as int),
{
    let _n: usize = buffer.len();
    OptionalHeader64 {
        magic: u16_at(buffer, off),
        major_linker_version: u8_at(buffer, off + 2),
        minor_linker_version: u8_at(buffer, off + 3),
        size_of_code: u32_at(buffer, off + 4),
        size_of_initialized_data: u32_at(buffer, off + 8),
        size_of_uninitialized_data: u32_at(buffer, off + 12),
        address_of_entry_point: u32_at(buffer, off + 16),
        base_of_code: u32_at(buffer, off + 20),
        image_base: u64_at(buffer, off + 24),
        section_alignment: u32_at(buffer, off + 32),
        file_alignment: u32_at(buffer, off + 36),
        major_os_version: u16_at(buffer, off + 40),
        minor_os_version: u16_at(buffer, off + 42),
        major_image_version: u16_at(buffer, off + 44),
        minor_image_version: u16_at(buffer, off + 46),
        major_subsystem_version: u16_at(buffer, off + 48),
        minor_subsystem_version: u16_at(buffer, off + 50),
        win32_version_value: u32_at(buffer, off + 52),
        size_of_image: u32_at(buffer, off + 56),
        size_of_headers: u32_at(buffer, off + 60),
        checksum: u32_at(buffer, off + 64),
        subsystem: u16_at(buffer, off + 68),
        dll_characteristics: u16_at(buffer, off + 70),
        size_of_stack_reserve: u64_at(buffer, off + 72),
        size_of_stack_commit: u64_at(buffer, off + 80),
        size_of_heap_reserve: u64_at(buffer, off + 88),
        size_of_heap_commit: u64_at(buffer, off + 96),
        loader_flags: u32_at(buffer, off + 104),
        number_of_rva_and_sizes: u32_at(buffer, off + 108),
        data_directory: [
            data_directory_at(buffer, off + 112),
            data_directory_at(buffer, off + 120),
            data_directory_at(buffer, off + 128),
            data_directory_at(buffer, off + 136),
            data_directory_at(buffer, off + 144),
            data_directory_at(buffer, off + 152),
            data_directory_at(buffer, off + 160),
            data_directory_at(buffer, off + 168),
            data_directory_at(buffer, off + 176),
            data_directory_at(buffer, off + 184),
            data_directory_at(buffer, off + 192),
            data_directory_at(buffer, off + 200),
            data_directory_at(buffer, off + 208),
            data_directory_at(buffer, off + 216),
            data_directory_at(buffer, off + 224),
            data_directory_at(buffer, off + 232),
        ],
    }
}

impl OptionalHeader {
    /// Decodes the optional header that follows the COFF file header, at
    /// offset `e_lfanew + 4 + 20`.
    ///
    /// The 2-byte magic there selects the layout: 0x10B decodes as PE32,
    /// 0x20B as PE32+, and any other value fails with
    /// [`Error::UnsupportedOptionalHeader`] carrying that value. A magic or a
    /// layout that does not fit the buffer fails with
    /// [`Error::InvalidSize`].
    pub fn parse_optional_header(buffer: &[u8], e_lfanew: usize) -> (r: Result<
        OptionalHeader,
        Error,
    >)
        ensures
            match spec_optional_header_error(buffer@, e_lfanew + 24) {
                Some(e) => r == Err::<OptionalHeader, Error>(e),
                None => (r matches Ok(oh) && optional_header_matches(
                    oh,
                    buffer@,
                    e_lfanew + 24,
                )),
            },
    {
        let oh_offset = match e_lfanew.checked_add(24) {
            Some(v) => v,
            None => {
                return Err(Error::InvalidSize { expected: 2, found: buffer.len() });
            },
        };
        let magic = match read_u16(buffer, oh_offset) {
            Ok(m) => m,
            Err(e) => {
                return Err(e);
            },
        };
        if magic == PE32_MAGIC {
            let end = match oh_offset.checked_add(OPT32_SIZE) {
                Some(v) => v,
                None => {
                    return Err(Error::InvalidSize { expected: usize::MAX, found: buffer.len() });
                },
            };
            if end > buffer.len() {
                return Err(Error::InvalidSize { expected: end, found: buffer.len() });
            }
            Ok(OptionalHeader::Header32(parse_opt32(buffer, oh_offset)))
        } else if magic == PE32_PLUS_MAGIC {
            let end = match oh_offset.checked_add(OPT64_SIZE) {
                Some(v) => v,
                None => {
                    return Err(Error::InvalidSize { expected: usize::MAX, found: buffer.len() });
                },
            };
            if end > buffer.len() {
                return Err(Error::InvalidSize { expected: end, found: buffer.len() });
            }
            Ok(OptionalHeader::Header64(parse_opt64(buffer, oh_offset)))
        } else {
            Err(Error::UnsupportedOptionalHeader(magic))
        }
    }

    /// The base-of-data field, which exists only in the PE32 layout; a PE32+
    /// header reads as zero.
    pub open spec fn spec_base_of_data(&self) -> u64 {
        match self {
            OptionalHeader::Header32(h) => h.base_of_data as u64,
            OptionalHeader::Header64(_) => 0,
        }
    }

    /// Returns `base_of_data` for a PE32 header and zero for PE32+, where the
    /// field is absent.
    #[verifier::when_used_as_spec(spec_base_of_data)]
    pub fn base_of_data(&self) -> (r: u64)
        ensures
            r == self.spec_base_of_data(),
    {
        match self {
            OptionalHeader::Header32(h) => h.base_of_data as u64,
            OptionalHeader::Header64(_) => 0,
        }
    }

    /// The 16-slot data-directory table, shared by both layouts.
    pub open spec fn spec_data_directory(&self) -> Seq<DataDirectory> {
        match self {
            OptionalHeader::Header32(h) => h.data_directory@,
            OptionalHeader::Header64(h) => h.data_directory@,
        }
    }

    /// Returns the 16-slot data-directory table, shared by both layouts.
    pub fn data_directory(&self) -> (r: &[DataDirectory; 16])
        ensures
            r@ == self.spec_data_directory(),
    {
        match self {
            OptionalHeader::Header32(h) => &h.data_directory,
            OptionalHeader::Header64(h) => &h.data_directory,
        }
    }
}

/// The variant an optional header decodes to is fixed by its magic: PE32
/// routes to the 32-bit layout, where `base_of_data` is the field at offset
/// 24 of the header; PE32+ routes to the 64-bit layout, where `base_of_data`
/// is absent and reads as zero.
pub proof fn lemma_base_of_data_by_variant(oh: OptionalHeader, b: Seq<u8>, off: int)
    requires
        optional_header_matches(oh, b, off),
    ensures
        le16_at(b, off) == PE32_MAGIC ==> (oh matches OptionalHeader::Header32(h)
            && oh.spec_base_of_data() == crate::utils::le32_at(b, off + 24)),
        le16_at(b, off) == PE32_PLUS_MAGIC ==> (oh matches OptionalHeader::Header64(h)
            && oh.spec_base_of_data() == 0),
{
}

} // verus!
