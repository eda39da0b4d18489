use vstd::prelude::*;
use crate::errors::Error;
use crate::headers::{file_header_matches, FileHeader};
use crate::utils::{clamp_usize, u16_at, u32_at};

verus! {

impl FileHeader {
    /// Decodes the 20-byte COFF file header that follows the 4-byte NT
    /// signature at `e_lfanew`.
    ///
    /// Fails with [`Error::InvalidSize`] when the 20 bytes at
    /// `e_lfanew + 4` do not fit in `buffer`; otherwise every field is read
    /// little-endian from its fixed offset.
    pub fn parse_file_header(buffer: &[u8], e_lfanew: usize) -> (r: Result<FileHeader, Error>)
        ensures
            e_lfanew + 4 + 20 <= buffer@.len() ==> (r matches Ok(h) && file_header_matches(
                h,
                buffer@,
                e_lfanew + 4,
            )),
            e_lfanew + 4 + 20 > buffer@.len() ==> r == Err::<FileHeader, Error>(
                (Error::InvalidSize {
                    expected: clamp_usize(e_lfanew + 4 + 20),
                    found: buffer@.len() as usize,
                }),
            ),
    {
        let end = match e_lfanew.checked_add(24) {
            Some(v) => v,
            None => {
                return Err(Error::InvalidSize { expected: usize::MAX, found: buffer.len() });
            },
        };
        if end > buffer.len() {
            return Err(Error::InvalidSize { expected: end, found: buffer.len() });
        }
        let off = e_lfanew + 4;
        Ok(
            FileHeader {
                machine: u16_at(buffer, off),
                number_of_sections: u16_at(buffer, off + 2),
                time_date_stamp: u32_at(buffer, off + 4),
                pointer_to_symbol_table: u32_at(buffer, off + 8),
                number_of_symbols: u32_at(buffer, off + 12),
                size_of_optional_header: u16_at(buffer, off + 16),
                characteristics: u16_at(buffer, off + 18),
            },
        )
    }
}

} // verus!
