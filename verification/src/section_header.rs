use vstd::prelude::*;
use crate::errors::Error;
use crate::headers::{section_header_matches, FileHeader, SectionHeader};
use crate::utils::{clamp_usize, u16_at, u32_at, u8_at};

verus! {

/// The size in bytes of one section-table record.
pub const SECTION_HEADER_SIZE: usize = 40;

/// How many whole 40-byte records fit at `off` in a buffer of length `len`;
/// pins down which record a truncated section table fails on.
pub open spec fn spec_section_records_that_fit(len: int, off: int) -> int {
    if off > len {
        0
    } else {
        (len - off) / 40
    }
}

/// Decodes one 40-byte section record; bounds are established by the caller.
fn section_at(buffer: &[u8], off: usize) -> (s: SectionHeader)
    requires
        off + SECTION_HEADER_SIZE <= buffer@.len(),
    ensures
        section_header_matches(s, buffer@, off as int),
{
    let _n: usize = buffer.len();
    let s = SectionHeader {
        name: [
            u8_at(buffer, off),
            u8_at(buffer, off + 1),
            u8_at(buffer, off + 2),
            u8_at(buffer, off + 3),
            u8_at(buffer, off + 4),
            u8_at(buffer, off + 5),
            u8_at(buffer, off + 6),
            u8_at(buffer, off + 7),
        ],
        virtual_size: u32_at(buffer, off + 8),
        virtual_address: u32_at(buffer, off + 12),
        size_of_raw_data: u32_at(buffer, off + 16),
        pointer_to_raw_data: u32_at(buffer, off + 20),
        pointer_to_relocations: u32_at(buffer, off + 24),
        pointer_to_linenumbers: u32_at(buffer, off + 28),
        number_of_relocations: u16_at(buffer, off + 32),
        number_of_linenumbers: u16_at(buffer, off + 34),
        characteristics: u32_at(buffer, off + 36),
    };
    proof {
        assert(s.name@ =~= buffer@.subrange(off as int, off as int + 8));
    }
    s
}

impl SectionHeader {
    /// Decodes the `number_of_sections` 40-byte records of the section table,
    /// which starts where the optional header ends:
    /// `e_lfanew + 4 + 20 + size_of_optional_header`.
    ///
    /// Each record is bounds-checked on its own, so a truncated file fails
    /// with [`Error::InvalidSize`] on the first record that does not fit
    /// rather than reading past the buffer end. Declaration order is
    /// preserved: record `i` of the result was decoded from the `i`-th slot
    /// of the table.
    pub fn parse_section_headers(buffer: &[u8], file_header: &FileHeader, e_lfanew: usize) -> (r:
        Result<Vec<SectionHeader>, Error>)
        ensures
            ({
                let off = e_lfanew + 24 + file_header.size_of_optional_header;
                let n = file_header.number_of_sections as int;
                &&& (n == 0 || off + n * 40 <= buffer@.len()) ==> (r matches Ok(v) && v@.len() == n
                    && (forall|i: int|
                    0 <= i < n ==> section_header_matches(v@[i], buffer@, off + 40 * i)))
                &&& (n > 0 && off + n * 40 > buffer@.len()) ==> r == Err::<Vec<SectionHeader>, Error>(
                    (Error::InvalidSize {
                        expected: clamp_usize(
                            off + 40 * spec_section_records_that_fit(
                                buffer@.len() as int,
                                off,
                            ) + 40,
                        ),
                        found: buffer@.len() as usize,
                    }),
                )
            }),
    {
        let nlen = buffer.len();
        let n = file_header.number_of_sections as usize;
        let mut sections: Vec<SectionHeader> = Vec::new();
        if n == 0 {
            return Ok(sections);
        }
        let ghost table_off: int =
            e_lfanew + 24 + file_header.size_of_optional_header;
        let base = match e_lfanew.checked_add(24) {
            Some(v) => v,
            None => {
                return Err(Error::InvalidSize { expected: usize::MAX, found: nlen });
            },
        };
        let off0 = match base.checked_add(file_header.size_of_optional_header as usize) {
            Some(v) => v,
            None => {
                return Err(Error::InvalidSize { expected: usize::MAX, found: nlen });
            },
        };
        let mut i: usize = 0;
        let mut off: usize = off0;
        while i < n
            invariant
                0 < n <= u16::MAX,
                n == file_header.number_of_sections,
                table_off == e_lfanew + 24 + file_header.size_of_optional_header,
                i <= n,
                off0 == table_off,
                off == off0 + 40 * i,
                nlen == buffer@.len(),
                sections@.len() == i,
                i > 0 ==> off <= nlen,
                forall|j: int|
                    0 <= j < i ==> section_header_matches(
                        #[trigger] sections@[j],
                        buffer@,
                        table_off + 40 * j,
                    ),
            decreases n - i,
        {
            let end = match off.checked_add(SECTION_HEADER_SIZE) {
                Some(v) => v,
                None => {
                    proof {
                        assert(spec_section_records_that_fit(nlen as int, table_off) == i);
                    }
                    return Err(Error::InvalidSize { expected: usize::MAX, found: nlen });
                },
            };
            if end > nlen {
                proof {
                    assert(spec_section_records_that_fit(nlen as int, table_off) == i);
                }
                return Err(Error::InvalidSize { expected: end, found: nlen });
            }
            sections.push(section_at(buffer, off));
            i = i + 1;
            off = end;
        }
        Ok(sections)
    }
}

} // verus!
