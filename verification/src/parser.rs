use vstd::prelude::*;
use crate::errors::Error;
use crate::headers::{
    file_header_matches, optional_header_matches, section_header_matches, DosHeader, FileHeader,
    OptionalHeader, SectionHeader, DOS_MAGIC, PE32_MAGIC, PE32_PLUS_MAGIC, PE_SIGNATURE,
};
use crate::optional_header::spec_optional_header_error;
use crate::section_header::spec_section_records_that_fit;
use crate::utils::{clamp_usize, le16_at, le32_at, read_u32};
use crate::view::Parsed;

verus! {

/// A loaded PE image: the whole file contents plus the decoded header chain.
///
/// Produced in one pass by [`PeFile::parse`] and immutable thereafter; every
/// later table walk (imports, exports, RVA translation) reads from `buffer`
/// through the offsets recorded here.
pub struct PeFile {
    /// Entire file contents.
    pub buffer: Vec<u8>,
    /// Offset of the NT header (`e_lfanew`).
    pub e_lfanew: usize,
    /// COFF file header.
    pub file_header: FileHeader,
    /// Optional header (32- or 64-bit).
    pub optional_header: OptionalHeader,
    /// Section-header table, in declaration order.
    pub sections: Vec<SectionHeader>,
}

impl PeFile {
    /// Where the section table starts: just past the optional header.
    pub open spec fn spec_section_table_off(&self) -> int {
        self.e_lfanew + 24 + self.file_header.size_of_optional_header
    }

    /// Well-formedness: the signatures check out and every decoded field
    /// holds exactly the little-endian value of its slot in `buffer`.
    /// [`PeFile::parse`] establishes this for everything it returns.
    pub open spec fn wf(&self) -> bool {
        &&& self.buffer@.len() >= 64
        &&& le16_at(self.buffer@, 0) == DOS_MAGIC
        &&& self.e_lfanew == le32_at(self.buffer@, 0x3C)
        &&& self.e_lfanew + 4 <= self.buffer@.len()
        &&& le32_at(self.buffer@, self.e_lfanew as int) == PE_SIGNATURE
        &&& file_header_matches(self.file_header, self.buffer@, self.e_lfanew + 4)
        &&& optional_header_matches(self.optional_header, self.buffer@, self.e_lfanew + 24)
        &&& self.sections@.len() == self.file_header.number_of_sections
        &&& forall|i: int|
            0 <= i < self.sections@.len() ==> section_header_matches(
                #[trigger] self.sections@[i],
                self.buffer@,
                self.spec_section_table_off() + 40 * i,
            )
    }
}

/// The error with which [`PeFile::parse`] rejects the byte sequence `b`, or
/// `None` when `b` parses: the stages of the pipeline in order, each checked
/// only after all earlier ones pass.
pub open spec fn spec_parse_error(b: Seq<u8>) -> Option<Error> {
    let lfanew = le32_at(b, 0x3C) as int;
    let sec_off = lfanew + 24 + le16_at(b, lfanew + 20);
    let n = le16_at(b, lfanew + 6) as int;
    if b.len() < 64 {
        Some(Error::InvalidSize { expected: 64, found: b.len() as usize })
    } else if le16_at(b, 0) != DOS_MAGIC {
        Some(Error::InvalidMagic(le16_at(b, 0)))
    } else if lfanew + 4 > b.len() {
        Some(Error::InvalidSize { expected: 4, found: b.len() as usize })
    } else if le32_at(b, lfanew) != PE_SIGNATURE {
        Some(Error::InvalidPeSignature(le32_at(b, lfanew)))
    } else if lfanew + 24 > b.len() {
        Some(Error::InvalidSize { expected: clamp_usize(lfanew + 24), found: b.len() as usize })
    } else if spec_optional_header_error(b, lfanew + 24) is Some {
        spec_optional_header_error(b, lfanew + 24)
    } else if n > 0 && sec_off + n * 40 > b.len() {
        Some(
            Error::InvalidSize {
                expected: clamp_usize(
                    sec_off + 40 * spec_section_records_that_fit(b.len() as int, sec_off) + 40,
                ),
                found: b.len() as usize,
            },
        )
    } else {
        None
    }
}

impl PeFile {
    /// Checks the DOS-header size and the NT signature of an already decoded
    /// image; the same checks [`PeFile::parse`] makes before trusting any
    /// header field.
    pub fn validate(&self) -> (r: Result<(), Error>)
        ensures
            self.buffer@.len() < 0x40 ==> r == Err::<(), Error>(
                (Error::InvalidSize { expected: 0x40, found: self.buffer@.len() as usize }),
            ),
            self.buffer@.len() >= 0x40 && self.e_lfanew + 4 > self.buffer@.len() ==> r == Err::<
                (),
                Error,
            >((Error::InvalidSize { expected: 4, found: self.buffer@.len() as usize })),
            self.buffer@.len() >= 0x40 && self.e_lfanew + 4 <= self.buffer@.len() && le32_at(
                self.buffer@,
                self.e_lfanew as int,
            ) != PE_SIGNATURE ==> r == Err::<(), Error>(
                Error::InvalidPeSignature(le32_at(self.buffer@, self.e_lfanew as int)),
            ),
            self.buffer@.len() >= 0x40 && self.e_lfanew + 4 <= self.buffer@.len() && le32_at(
                self.buffer@,
                self.e_lfanew as int,
            ) == PE_SIGNATURE ==> r == Ok::<(), Error>(()),
    {
        if self.buffer.len() < 0x40 {
            return Err(Error::InvalidSize { expected: 0x40, found: self.buffer.len() });
        }
        let sig = match read_u32(self.buffer.as_slice(), self.e_lfanew) {
            Ok(v) => v,
            Err(e) => {
                return Err(e);
            },
        };
        if sig != PE_SIGNATURE {
            return Err(Error::InvalidPeSignature(sig));
        }
        Ok(())
    }

    /// Decodes a PE image from its file contents.
    ///
    /// The pipeline is strictly sequential and terminal on first failure:
    /// DOS header (size and `MZ` magic), NT signature at `e_lfanew`, COFF
    /// file header, optional header (layout picked by its magic), section
    /// table. Each stage re-validates its own bounds; no stage trusts an
    /// offset or count an earlier stage has not checked. On success every
    /// field of the result holds exactly the value of its slot in `bytes`
    /// ([`PeFile::wf`]); on failure the error identifies the stage, per
    /// [`spec_parse_error`].
    pub fn parse(bytes: Vec<u8>) -> (r: Result<PeFile, Error>)
        ensures
            match spec_parse_error(bytes@) {
                Some(e) => r == Err::<PeFile, Error>(e),
                None => (r matches Ok(pe) && pe.wf() && pe.buffer@ == bytes@),
            },
    {
        let dos_header = match DosHeader::parse(bytes.as_slice()) {
            Ok(h) => h,
            Err(e) => {
                return Err(e);
            },
        };
        if dos_header.e_magic != DOS_MAGIC {
            return Err(Error::InvalidMagic(dos_header.e_magic));
        }
        let e_lfanew = dos_header.e_lfanew();
        let sig = match read_u32(bytes.as_slice(), e_lfanew) {
            Ok(v) => v,
            Err(e) => {
                return Err(e);
            },
        };
        if sig != PE_SIGNATURE {
            return Err(Error::InvalidPeSignature(sig));
        }
        let file_header = match FileHeader::parse_file_header(bytes.as_slice(), e_lfanew) {
            Ok(h) => h,
            Err(e) => {
                return Err(e);
            },
        };
        let optional_header = match OptionalHeader::parse_optional_header(
            bytes.as_slice(),
            e_lfanew,
        ) {
            Ok(h) => h,
            Err(e) => {
                return Err(e);
            },
        };
        let sections = match SectionHeader::parse_section_headers(
            bytes.as_slice(),
            &file_header,
            e_lfanew,
        ) {
            Ok(v) => v,
            Err(e) => {
                return Err(e);
            },
        };
        Ok(PeFile { buffer: bytes, e_lfanew, file_header, optional_header, sections })
    }

    /// Returns a reference to this `PeFile`.
    pub fn raw(&self) -> (r: &Self)
        ensures
            r == self,
    {
        self
    }

    /// Wraps this file in a [`Parsed`] view for readable output.
    pub fn parsed(&self) -> (r: Parsed<'_>)
        ensures
            r.raw == self,
    {
        Parsed::new(self)
    }
}

/// Any input shorter than the 64-byte DOS header is rejected with a size
/// error naming the 64 bytes needed — in particular the empty input.
pub proof fn lemma_short_input_rejected(b: Seq<u8>)
    requires
        b.len() < 64,
    ensures
        spec_parse_error(b) == Some(
            Error::InvalidSize { expected: 64, found: b.len() as usize },
        ),
{
}

/// Any input of 64 bytes or more whose first two bytes are not `MZ`
/// (`4D 5A`) is rejected with `InvalidMagic` carrying the value found.
pub proof fn lemma_bad_dos_magic_rejected(b: Seq<u8>)
    requires
        b.len() >= 64,
        b[0] != 0x4D || b[1] != 0x5A,
    ensures
        spec_parse_error(b) == Some(Error::InvalidMagic(le16_at(b, 0))),
{
}

/// When the DOS stage passes but the four bytes at `e_lfanew` are not
/// `PE\0\0` (`50 45 00 00`), parsing is rejected with `InvalidPeSignature`
/// carrying the value found.
pub proof fn lemma_bad_pe_signature_rejected(b: Seq<u8>)
    requires
        b.len() >= 64,
        b[0] == 0x4D && b[1] == 0x5A,
        le32_at(b, 0x3C) + 4 <= b.len(),
        ({
            let lfanew = le32_at(b, 0x3C) as int;
            b[lfanew] != 0x50 || b[lfanew + 1] != 0x45 || b[lfanew + 2] != 0x00 || b[lfanew + 3]
                != 0x00
        }),
    ensures
        spec_parse_error(b) == Some(
            Error::InvalidPeSignature(le32_at(b, le32_at(b, 0x3C) as int)),
        ),
{
}

/// When the DOS and NT stages pass but the optional-header magic is neither
/// PE32 nor PE32+ — zero, say — parsing is rejected with
/// `UnsupportedOptionalHeader` carrying that magic.
pub proof fn lemma_unsupported_optional_header_rejected(b: Seq<u8>)
    requires
        b.len() >= 64,
        le16_at(b, 0) == DOS_MAGIC,
        ({
            let lfanew = le32_at(b, 0x3C) as int;
            &&& lfanew + 26 <= b.len()
            &&& le32_at(b, lfanew) == PE_SIGNATURE
            &&& le16_at(b, lfanew + 24) != PE32_MAGIC
            &&& le16_at(b, lfanew + 24) != PE32_PLUS_MAGIC
        }),
    ensures
        spec_parse_error(b) == Some(
            Error::UnsupportedOptionalHeader(le16_at(b, le32_at(b, 0x3C) + 24)),
        ),
{
}

} // verus!
