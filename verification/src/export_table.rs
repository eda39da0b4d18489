use vstd::prelude::*;
use crate::errors::Error;
use crate::parser::PeFile;
use crate::utils::{
    le16_at, le32_at, lemma_rva_offset_in_range, rva_to_offset, spec_rva_to_offset, u16_at, u32_at,
};

verus! {

/// The size in bytes of the export directory record: nine 32-bit fields and
/// two 16-bit ones.
pub const EXPORT_DIRECTORY_SIZE: usize = 40;

/// The export directory record: metadata about the exported symbols,
/// including the DLL-name RVA, the ordinal base, and the RVAs of the three
/// export arrays (function addresses, name pointers, name ordinals). Those
/// arrays are separate tables a caller resolves by further RVA translation.
#[derive(Debug, Clone, Copy, PartialEq, Eq, Structural)]
pub struct ExportEntry {
    /// Characteristics flags set for the export directory (usually 0).
    pub characteristics: u32,
    /// Timestamp indicating when the export data was created (link time).
    pub time_date_stamp: u32,
    pub major_version: u16,
    pub minor_version: u16,
    /// RVA of the null-terminated ASCII name of the DLL.
    pub name: u32,
    /// Starting ordinal number for exported functions.
    pub base: u32,
    /// Total number of function entries.
    pub number_of_functions: u32,
    /// Number of names associated with the exports.
    pub number_of_names: u32,
    /// RVA pointing to an array of exported function addresses.
    pub address_of_functions: u32,
    /// RVA pointing to an array of function names.
    pub address_of_names: u32,
    /// RVA pointing to an array of ordinals (one per name).
    pub address_of_name_ordinals: u32,
}

/// The export directory record decoded from the 40 bytes of `b` at `off`.
pub open spec fn spec_export_entry_at(b: Seq<u8>, off: int) -> ExportEntry {
    ExportEntry {
        characteristics: le32_at(b, off),
        time_date_stamp: le32_at(b, off + 4),
        major_version: le16_at(b, off + 8),
        minor_version: le16_at(b, off + 10),
        name: le32_at(b, off + 12),
        base: le32_at(b, off + 16),
        number_of_functions: le32_at(b, off + 20),
        number_of_names: le32_at(b, off + 24),
        address_of_functions: le32_at(b, off + 28),
        address_of_names: le32_at(b, off + 32),
        address_of_name_ordinals: le32_at(b, off + 36),
    }
}

/// What decoding the export directory of `pe` yields: no entry when the
/// directory's declared size is zero (the table is absent, so its RVA is
/// never translated), the single 40-byte record otherwise; `None` for the
/// failures, which [`parse_export_table`] reports as
/// [`Error::InvalidTableOffset`].
pub open spec fn spec_export_table(pe: PeFile) -> Option<Seq<ExportEntry>> {
    let b = pe.buffer@;
    let dir = pe.optional_header.spec_data_directory()[0];
    if dir.size == 0 {
        Some(Seq::<ExportEntry>::empty())
    } else {
        match spec_rva_to_offset(pe.sections@, dir.virtual_address) {
            Some(off) => {
                if off > usize::MAX || off + dir.size > b.len() {
                    None
                } else if dir.size < EXPORT_DIRECTORY_SIZE {
                    None
                } else {
                    Some(seq![spec_export_entry_at(b, off)])
                }
            },
            None => None,
        }
    }
}

/// Decodes the 40-byte export directory record; bounds are established by
/// the caller.
fn export_entry_at(buffer: &[u8], off: usize) -> (e: ExportEntry)
    requires
        off + EXPORT_DIRECTORY_SIZE <= buffer@.len(),
    ensures
        e == spec_export_entry_at(buffer@, off as int),
{
    let _n: usize = buffer.len();
    ExportEntry {
        characteristics: u32_at(buffer, off),
        time_date_stamp: u32_at(buffer, off + 4),
        major_version: u16_at(buffer, off + 8),
        minor_version: u16_at(buffer, off + 10),
        name: u32_at(buffer, off + 12),
        base: u32_at(buffer, off + 16),
        number_of_functions: u32_at(buffer, off + 20),
        number_of_names: u32_at(buffer, off + 24),
        address_of_functions: u32_at(buffer, off + 28),
        address_of_names: u32_at(buffer, off + 32),
        address_of_name_ordinals: u32_at(buffer, off + 36),
    }
}

/// Decodes the export directory (data-directory slot 0).
///
/// A directory whose declared `size` is zero means the table is absent, not
/// an error: the result carries no entry and the RVA is not translated.
/// Otherwise the RVA is translated through the section table and the `size`
/// bytes are bounds-checked as a whole. Unlike the import table this
/// directory holds a single 40-byte record, not a repeated array, so the
/// result carries exactly one entry. An RVA that no section maps, a
/// directory that does not fit the buffer, or a nonzero size smaller than the
/// record all fail with [`Error::InvalidTableOffset`]; a partial record is
/// never returned.
pub fn parse_export_table(pe: &PeFile) -> (r: Result<Vec<ExportEntry>, Error>)
    ensures
        match spec_export_table(*pe) {
            Some(es) => r matches Ok(v) && v@ == es,
            None => r == Err::<Vec<ExportEntry>, Error>(Error::InvalidTableOffset),
        },
{
    proof {
        lemma_rva_offset_in_range(
            pe.sections@,
            pe.optional_header.spec_data_directory()[0].virtual_address,
        );
    }
    let dir = pe.optional_header.data_directory()[0];
    let size = dir.size as usize;
    let mut table: Vec<ExportEntry> = Vec::new();
    if size == 0 {
        return Ok(table);
    }
    let offset = match rva_to_offset(pe, dir.virtual_address) {
        Some(o) => o,
        None => {
            return Err(Error::InvalidTableOffset);
        },
    };
    let len = pe.buffer.len();
    if size > len || offset > len - size {
        return Err(Error::InvalidTableOffset);
    }
    if size < EXPORT_DIRECTORY_SIZE {
        return Err(Error::InvalidTableOffset);
    }
    let entry = export_entry_at(pe.buffer.as_slice(), offset);
    table.push(entry);
    proof {
        assert(table@ =~= seq![spec_export_entry_at(pe.buffer@, offset as int)]);
    }
    Ok(table)
}

} // verus!
