use vstd::prelude::*;
use crate::errors::Error;
use crate::headers::{dos_header_matches, DosHeader};
use crate::utils::{u16_at, u32_at};

verus! {

impl DosHeader {
    /// Decodes the 64-byte DOS header from the start of `buffer`.
    ///
    /// Fails with [`Error::InvalidSize`] when fewer than 64 bytes are
    /// available; otherwise every field is read little-endian from its fixed
    /// offset, whatever it holds. Validating the `MZ` magic is the first step
    /// of [`crate::parser::PeFile::parse`], not of the decode.
    pub fn parse(buffer: &[u8]) -> (r: Result<DosHeader, Error>)
        ensures
            buffer@.len() < 64 ==> r == Err::<DosHeader, Error>(
                (Error::InvalidSize { expected: 64, found: buffer@.len() as usize }),
            ),
            buffer@.len() >= 64 ==> (r matches Ok(h) && dos_header_matches(h, buffer@)),
    {
        if buffer.len() < 64 {
            return Err(Error::InvalidSize { expected: 64, found: buffer.len() });
        }
        let h = DosHeader {
            e_magic: u16_at(buffer, 0x00),
            e_cblp: u16_at(buffer, 0x02),
            e_cp: u16_at(buffer, 0x04),
            e_crlc: u16_at(buffer, 0x06),
            e_cparhdr: u16_at(buffer, 0x08),
            e_minalloc: u16_at(buffer, 0x0A),
            e_maxalloc: u16_at(buffer, 0x0C),
            e_ss: u16_at(buffer, 0x0E),
            e_sp: u16_at(buffer, 0x10),
            e_csum: u16_at(buffer, 0x12),
            e_ip: u16_at(buffer, 0x14),
            e_cs: u16_at(buffer, 0x16),
            e_lfarlc: u16_at(buffer, 0x18),
            e_ovno: u16_at(buffer, 0x1A),
            e_res: [
                u16_at(buffer, 0x1C),
                u16_at(buffer, 0x1E),
                u16_at(buffer, 0x20),
                u16_at(buffer, 0x22),
            ],
            e_oemid: u16_at(buffer, 0x24),
            e_oeminfo: u16_at(buffer, 0x26),
            e_res2: [
                u16_at(buffer, 0x28),
                u16_at(buffer, 0x2A),
                u16_at(buffer, 0x2C),
                u16_at(buffer, 0x2E),
                u16_at(buffer, 0x30),
                u16_at(buffer, 0x32),
                u16_at(buffer, 0x34),
                u16_at(buffer, 0x36),
                u16_at(buffer, 0x38),
                u16_at(buffer, 0x3A),
            ],
            e_lfanew: u32_at(buffer, 0x3C),
        };
        Ok(h)
    }

    /// Returns the raw `e_lfanew` field widened to a `usize` byte offset.
    pub fn e_lfanew(&self) -> (r: usize)
        ensures
            r == self.e_lfanew as usize,
    {
        self.e_lfanew as usize
    }
}

} // verus!
