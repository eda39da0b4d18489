use vstd::prelude::*;
use crate::errors::Error;
use crate::parser::PeFile;
use crate::utils::{
    le32_at, lemma_rva_offset_in_range, rva_to_offset, spec_rva_to_offset, u32_at,
};

verus! {

/// The size in bytes of one import descriptor: five 32-bit fields.
pub const IMPORT_DESCRIPTOR_SIZE: usize = 20;

/// One entry of the import directory table: a 20-byte descriptor naming an
/// imported DLL and locating its thunk arrays.
#[derive(Debug, Clone, Copy, PartialEq, Eq, Structural)]
pub struct ImportEntry {
    /// RVA of the original import lookup table (first thunk).
    pub original_first_thunk: u32,
    /// Time of first linking.
    pub time_date_stamp: u32,
    /// Index of the forwarder chain.
    pub forwarder_chain: u32,
    /// RVA of the ASCII name of the imported DLL.
    pub name: u32,
    /// RVA of the import address table (first thunk for the IAT).
    pub first_thunk: u32,
}

/// The import descriptor decoded from the 20 bytes of `b` at `off`.
pub open spec fn spec_import_entry_at(b: Seq<u8>, off: int) -> ImportEntry {
    ImportEntry {
        original_first_thunk: le32_at(b, off),
        time_date_stamp: le32_at(b, off + 4),
        forwarder_chain: le32_at(b, off + 8),
        name: le32_at(b, off + 12),
        first_thunk: le32_at(b, off + 16),
    }
}

/// The documented PE terminator: a descriptor whose five fields are all zero.
pub open spec fn spec_is_terminator(e: ImportEntry) -> bool {
    e.original_first_thunk == 0 && e.time_date_stamp == 0 && e.forwarder_chain == 0 && e.name == 0
        && e.first_thunk == 0
}

/// The entries a walk of `size` directory bytes at `off` yields: consecutive
/// 20-byte descriptors up to the first all-zero one (exclusive) or up to the
/// declared size, whichever comes first; `None` when a descriptor only partly
/// fits, which aborts the table.
pub open spec fn spec_import_entries(b: Seq<u8>, off: int, size: int) -> Option<Seq<ImportEntry>>
    decreases size,
{
    if size == 0 {
        Some(Seq::empty())
    } else if size < 20 {
        None
    } else {
        let e = spec_import_entry_at(b, off);
        if spec_is_terminator(e) {
            Some(Seq::empty())
        } else {
            match spec_import_entries(b, off + 20, size - 20) {
                Some(rest) => Some(seq![e] + rest),
                None => None,
            }
        }
    }
}

/// What walking the import directory of `pe` yields: no entries when the
/// directory's declared size is zero (the table is absent, so its RVA is
/// never translated), else the entries when the RVA translates, the declared
/// size fits the buffer and every descriptor is whole; `None` for the
/// failures, which [`parse_import_table`] reports as
/// [`Error::InvalidTableOffset`].
pub open spec fn spec_import_table(pe: PeFile) -> Option<Seq<ImportEntry>> {
    let b = pe.buffer@;
    let dir = pe.optional_header.spec_data_directory()[1];
    if dir.size == 0 {
        Some(Seq::empty())
    } else {
        match spec_rva_to_offset(pe.sections@, dir.virtual_address) {
            Some(off) => {
                if off > usize::MAX || off + dir.size > b.len() {
                    None
                } else {
                    spec_import_entries(b, off, dir.size as int)
                }
            },
            None => None,
        }
    }
}

/// Decodes one 20-byte import descriptor; bounds are established by the
/// caller.
fn import_entry_at(buffer: &[u8], off: usize) -> (e: ImportEntry)
    requires
        off + IMPORT_DESCRIPTOR_SIZE <= buffer@.len(),
    ensures
        e == spec_import_entry_at(buffer@, off as int),
{
    let _n: usize = buffer.len();
    ImportEntry {
        original_first_thunk: u32_at(buffer, off),
        time_date_stamp: u32_at(buffer, off + 4),
        forwarder_chain: u32_at(buffer, off + 8),
        name: u32_at(buffer, off + 12),
        first_thunk: u32_at(buffer, off + 16),
    }
}

/// Walks the import directory table (data-directory slot 1) and returns its
/// entries in order.
///
/// A directory whose declared `size` is zero means the table is absent, not
/// an error: the walk yields no entries without translating the RVA.
/// Otherwise the RVA is translated through the section table and the `size`
/// bytes are bounds-checked as a whole; iteration then reads 20-byte
/// descriptors until the first all-zero descriptor (the documented
/// terminator) or the end of the declared size, whichever comes first. An RVA
/// that no section maps, a directory that does not fit the buffer, or a
/// trailing partly-sized descriptor reached without a terminator all fail
/// with [`Error::InvalidTableOffset`]; a partial table is never returned.
#[verifier::loop_isolation(false)]
pub fn parse_import_table(pe: &PeFile) -> (r: Result<Vec<ImportEntry>, Error>)
    ensures
        match spec_import_table(*pe) {
            Some(es) => r matches Ok(v) && v@ == es,
            None => r == Err::<Vec<ImportEntry>, Error>(Error::InvalidTableOffset),
        },
{
    proof {
        lemma_rva_offset_in_range(
            pe.sections@,
            pe.optional_header.spec_data_directory()[1].virtual_address,
        );
    }
    let dir = pe.optional_header.data_directory()[1];
    let size = dir.size as usize;
    if size == 0 {
        return Ok(Vec::new());
    }
    let offset = match rva_to_offset(pe, dir.virtual_address) {
        Some(o) => o,
        None => {
            return Err(Error::InvalidTableOffset);
        },
    };
    let len = pe.buffer.len();
    if size > len || offset > len - size {
        return Err(Error::InvalidTableOffset);
    }
    let ghost b = pe.buffer@;
    let mut entries: Vec<ImportEntry> = Vec::new();
    let mut pos: usize = 0;
    proof {
        assert(entries@ + Seq::<ImportEntry>::empty() =~= entries@);
    }
    while pos < size
        invariant
            pos <= size,
            offset + size <= pe.buffer@.len(),
            b == pe.buffer@,
            spec_import_entries(b, offset as int, size as int) == (match spec_import_entries(
                b,
                offset + pos,
                size - pos,
            ) {
                Some(rest) => Some(entries@ + rest),
                None => None::<Seq<ImportEntry>>,
            }),
        decreases size - pos,
    {
        if size - pos < IMPORT_DESCRIPTOR_SIZE {
            return Err(Error::InvalidTableOffset);
        }
        let e = import_entry_at(pe.buffer.as_slice(), offset + pos);
        if e.original_first_thunk == 0 && e.time_date_stamp == 0 && e.forwarder_chain == 0
            && e.name == 0 && e.first_thunk == 0 {
            proof {
                assert(entries@ + Seq::<ImportEntry>::empty() =~= entries@);
            }
            return Ok(entries);
        }
        let ghost old_entries = entries@;
        entries.push(e);
        proof {
            match spec_import_entries(b, offset + pos + 20, size - pos - 20) {
                Some(rest) => {
                    assert(old_entries + (seq![e] + rest) =~= entries@ + rest);
                },
                None => {},
            }
        }
        pos = pos + IMPORT_DESCRIPTOR_SIZE;
    }
    proof {
        assert(entries@ + Seq::<ImportEntry>::empty() =~= entries@);
    }
    Ok(entries)
}

/// Import-table iteration terminates on the first all-zero 20-byte
/// descriptor even when the declared directory size would allow more entries
/// to be read: the walk yields exactly the `k` descriptors before the
/// terminator, whatever bytes follow it.
pub proof fn lemma_import_walk_stops_at_terminator(b: Seq<u8>, off: int, size: int, k: int)
    requires
        0 <= k,
        20 * (k + 1) <= size,
        forall|j: int|
            0 <= j < k ==> !spec_is_terminator(#[trigger] spec_import_entry_at(b, off + 20 * j)),
        spec_is_terminator(spec_import_entry_at(b, off + 20 * k)),
    ensures
        spec_import_entries(b, off, size) == Some(
            Seq::new(k as nat, |j: int| spec_import_entry_at(b, off + 20 * j)),
        ),
    decreases k,
{
    let walked = Seq::new(k as nat, |j: int| spec_import_entry_at(b, off + 20 * j));
    if k == 0 {
        assert(walked =~= Seq::<ImportEntry>::empty());
    } else {
        assert(!spec_is_terminator(spec_import_entry_at(b, off + 20 * 0)));
        assert forall|j: int|
            0 <= j < k - 1 implies !spec_is_terminator(
            #[trigger] spec_import_entry_at(b, (off + 20) + 20 * j),
        ) by {
            assert(spec_import_entry_at(b, (off + 20) + 20 * j) == spec_import_entry_at(
                b,
                off + 20 * (j + 1),
            ));
        }
        assert(spec_import_entry_at(b, (off + 20) + 20 * (k - 1)) == spec_import_entry_at(
            b,
            off + 20 * k,
        ));
        lemma_import_walk_stops_at_terminator(b, off + 20, size - 20, k - 1);
        let rest = Seq::new((k - 1) as nat, |j: int| spec_import_entry_at(b, (off + 20) + 20 * j));
        assert(seq![spec_import_entry_at(b, off)] + rest =~= walked);
    }
}

} // verus!
