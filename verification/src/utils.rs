use vstd::prelude::*;
use vstd::slice::slice_subrange;
use vstd::utf8::{decode_utf8, valid_utf8};
use crate::errors::Error;
use crate::headers::SectionHeader;
use crate::parser::PeFile;

verus! {

/// The little-endian 16-bit value held by the two bytes of `b` at `off`.
pub open spec fn le16_at(b: Seq<u8>, off: int) -> u16
    recommends
        0 <= off,
        off + 2 <= b.len(),
{
    (b[off] + b[off + 1] * 0x100) as u16
}

/// The little-endian 32-bit value held by the four bytes of `b` at `off`.
pub open spec fn le32_at(b: Seq<u8>, off: int) -> u32
    recommends
        0 <= off,
        off + 4 <= b.len(),
{
    (b[off] + b[off + 1] * 0x100 + b[off + 2] * 0x1_0000 + b[off + 3] * 0x100_0000) as u32
}

/// The little-endian 64-bit value held by the eight bytes of `b` at `off`.
pub open spec fn le64_at(b: Seq<u8>, off: int) -> u64
    recommends
        0 <= off,
        off + 8 <= b.len(),
{
    (b[off] + b[off + 1] * 0x100 + b[off + 2] * 0x1_0000 + b[off + 3] * 0x100_0000 + b[off + 4]
        * 0x1_0000_0000 + b[off + 5] * 0x100_0000_0000 + b[off + 6] * 0x1_0000_0000_0000 + b[off
        + 7] * 0x100_0000_0000_0000) as u64
}

/// `x` clamped into the `usize` range; used to state the `expected` field of
/// a size error when the mathematical end of a read may not fit in `usize`.
pub open spec fn clamp_usize(x: int) -> usize {
    if x > usize::MAX {
        usize::MAX
    } else if x < 0 {
        0
    } else {
        x as usize
    }
}

/// Reads the byte of `block` at `off`; bounds are established by the caller.
pub(crate) fn u8_at(block: &[u8], off: usize) -> (r: u8)
    requires
        off < block@.len(),
    ensures
        r == block@[off as int],
{
    block[off]
}

/// Reads the little-endian 16-bit value at `off`; bounds are established by
/// the caller.
pub(crate) fn u16_at(block: &[u8], off: usize) -> (r: u16)
    requires
        off + 2 <= block@.len(),
    ensures
        r == le16_at(block@, off as int),
{
    let _n: usize = block.len();
    let b0 = block[off] as u16;
    let b1 = block[off + 1] as u16;
    b0 + b1 * 0x100
}

/// Reads the little-endian 32-bit value at `off`; bounds are established by
/// the caller.
pub(crate) fn u32_at(block: &[u8], off: usize) -> (r: u32)
    requires
        off + 4 <= block@.len(),
    ensures
        r == le32_at(block@, off as int),
{
    let _n: usize = block.len();
    let b0 = block[off] as u32;
    let b1 = block[off + 1] as u32;
    let b2 = block[off + 2] as u32;
    let b3 = block[off + 3] as u32;
    b0 + b1 * 0x100 + b2 * 0x1_0000 + b3 * 0x100_0000
}

/// Reads the little-endian 64-bit value at `off`; bounds are established by
/// the caller.
pub(crate) fn u64_at(block: &[u8], off: usize) -> (r: u64)
    requires
        off + 8 <= block@.len(),
    ensures
        r == le64_at(block@, off as int),
{
    let _n: usize = block.len();
    let b0 = block[off] as u64;
    let b1 = block[off + 1] as u64;
    let b2 = block[off + 2] as u64;
    let b3 = block[off + 3] as u64;
    let b4 = block[off + 4] as u64;
    let b5 = block[off + 5] as u64;
    let b6 = block[off + 6] as u64;
    let b7 = block[off + 7] as u64;
    b0 + b1 * 0x100 + b2 * 0x1_0000 + b3 * 0x100_0000 + b4 * 0x1_0000_0000 + b5 * 0x100_0000_0000
        + b6 * 0x1_0000_0000_0000 + b7 * 0x100_0000_0000_0000
}

/// Bounds-checked read of the little-endian 16-bit value at `offset`.
///
/// This is part of the primitive-read chokepoint: every multi-byte field of
/// the image is read through it or through [`read_u32`], so a malformed file
/// surfaces as an [`Error::InvalidSize`] instead of an out-of-bounds access.
pub fn read_u16(block: &[u8], offset: usize) -> (r: Result<u16, Error>)
    ensures
        offset + 2 <= block@.len() ==> r == Ok::<u16, Error>(le16_at(block@, offset as int)),
        offset + 2 > block@.len() ==> r == Err::<u16, Error>(
            (Error::InvalidSize { expected: 2, found: block@.len() as usize }),
        ),
{
    if offset <= block.len() && 2 <= block.len() - offset {
        Ok(u16_at(block, offset))
    } else {
        Err(Error::InvalidSize { expected: 2, found: block.len() })
    }
}

/// Bounds-checked read of the little-endian 32-bit value at `offset`.
///
/// See [`read_u16`]; this is the 4-byte half of the primitive-read chokepoint.
pub fn read_u32(block: &[u8], offset: usize) -> (r: Result<u32, Error>)
    ensures
        offset + 4 <= block@.len() ==> r == Ok::<u32, Error>(le32_at(block@, offset as int)),
        offset + 4 > block@.len() ==> r == Err::<u32, Error>(
            (Error::InvalidSize { expected: 4, found: block@.len() as usize }),
        ),
{
    if offset <= block.len() && 4 <= block.len() - offset {
        Ok(u32_at(block, offset))
    } else {
        Err(Error::InvalidSize { expected: 4, found: block.len() })
    }
}

/// The character for the digit `d`, with `A` through `F` for 10 through 15.
pub open spec fn spec_digit_char(d: int) -> char {
    if d == 0 {
        '0'
    } else if d == 1 {
        '1'
    } else if d == 2 {
        '2'
    } else if d == 3 {
        '3'
    } else if d == 4 {
        '4'
    } else if d == 5 {
        '5'
    } else if d == 6 {
        '6'
    } else if d == 7 {
        '7'
    } else if d == 8 {
        '8'
    } else if d == 9 {
        '9'
    } else if d == 10 {
        'A'
    } else if d == 11 {
        'B'
    } else if d == 12 {
        'C'
    } else if d == 13 {
        'D'
    } else if d == 14 {
        'E'
    } else {
        'F'
    }
}

/// The uppercase hexadecimal digits of `v`, most significant first, with no
/// leading zeros (`0` alone for zero).
pub open spec fn spec_hex_digits(v: int) -> Seq<char>
    recommends
        v >= 0,
    decreases v,
{
    if v < 16 {
        seq![spec_digit_char(v)]
    } else {
        spec_hex_digits(v / 16).push(spec_digit_char(v % 16))
    }
}

/// `v` rendered as `0x` followed by its uppercase hexadecimal digits.
pub open spec fn spec_hex(v: int) -> Seq<char> {
    seq!['0', 'x'] + spec_hex_digits(v)
}

/// The low `w` hexadecimal digits of `v`, zero-padded to exactly `w`
/// characters.
pub open spec fn spec_hex_pad(v: int, w: nat) -> Seq<char>
    recommends
        v >= 0,
    decreases w,
{
    if w == 0 {
        Seq::empty()
    } else {
        spec_hex_pad(v / 16, (w - 1) as nat).push(spec_digit_char(v % 16))
    }
}

/// The decimal digits of `v`, most significant first, with no leading zeros.
pub open spec fn spec_dec_digits(v: int) -> Seq<char>
    recommends
        v >= 0,
    decreases v,
{
    if v < 10 {
        seq![spec_digit_char(v)]
    } else {
        spec_dec_digits(v / 10).push(spec_digit_char(v % 10))
    }
}

/// Returns the one-character string for the digit `d`.
fn digit_str(d: u64) -> (s: &'static str)
    requires
        d < 16,
    ensures
        s@ == seq![spec_digit_char(d as int)],
{
    if d == 0 {
        proof {
            reveal_strlit("0");
        }
        "0"
    } else if d == 1 {
        proof {
            reveal_strlit("1");
        }
        "1"
    } else if d == 2 {
        proof {
            reveal_strlit("2");
        }
        "2"
    } else if d == 3 {
        proof {
            reveal_strlit("3");
        }
        "3"
    } else if d == 4 {
        proof {
            reveal_strlit("4");
        }
        "4"
    } else if d == 5 {
        proof {
            reveal_strlit("5");
        }
        "5"
    } else if d == 6 {
        proof {
            reveal_strlit("6");
        }
        "6"
    } else if d == 7 {
        proof {
            reveal_strlit("7");
        }
        "7"
    } else if d == 8 {
        proof {
            reveal_strlit("8");
        }
        "8"
    } else if d == 9 {
        proof {
            reveal_strlit("9");
        }
        "9"
    } else if d == 10 {
        proof {
            reveal_strlit("A");
        }
        "A"
    } else if d == 11 {
        proof {
            reveal_strlit("B");
        }
        "B"
    } else if d == 12 {
        proof {
            reveal_strlit("C");
        }
        "C"
    } else if d == 13 {
        proof {
            reveal_strlit("D");
        }
        "D"
    } else if d == 14 {
        proof {
            reveal_strlit("E");
        }
        "E"
    } else {
        proof {
            reveal_strlit("F");
        }
        "F"
    }
}

/// Appends the hexadecimal digits of `v` to `prefix`.
pub(crate) fn push_hex_digits(prefix: String, v: u64) -> (r: String)
    ensures
        r@ == prefix@ + spec_hex_digits(v as int),
    decreases v,
{
    if v < 16 {
        prefix.concat(digit_str(v))
    } else {
        let ghost p = prefix@;
        let r = push_hex_digits(prefix, v / 16);
        let r2 = r.concat(digit_str(v % 16));
        proof {
            assert((p + spec_hex_digits((v / 16) as int)) + seq![spec_digit_char((v % 16) as int)]
                =~= p + spec_hex_digits(v as int));
        }
        r2
    }
}

/// Appends exactly `w` zero-padded hexadecimal digits of `v` to `prefix`.
pub(crate) fn push_hex_pad(prefix: String, v: u64, w: usize) -> (r: String)
    ensures
        r@ == prefix@ + spec_hex_pad(v as int, w as nat),
    decreases w,
{
    if w == 0 {
        prefix
    } else {
        let ghost p = prefix@;
        let r = push_hex_pad(prefix, v / 16, w - 1);
        let r2 = r.concat(digit_str(v % 16));
        proof {
            assert((p + spec_hex_pad((v / 16) as int, (w - 1) as nat)) + seq![
                spec_digit_char((v % 16) as int),
            ] =~= p + spec_hex_pad(v as int, w as nat));
        }
        r2
    }
}

/// Appends the decimal digits of `v` to `prefix`.
pub(crate) fn push_dec_digits(prefix: String, v: u64) -> (r: String)
    ensures
        r@ == prefix@ + spec_dec_digits(v as int),
    decreases v,
{
    if v < 10 {
        prefix.concat(digit_str(v))
    } else {
        let ghost p = prefix@;
        let r = push_dec_digits(prefix, v / 10);
        let r2 = r.concat(digit_str(v % 10));
        proof {
            assert((p + spec_dec_digits((v / 10) as int)) + seq![spec_digit_char((v % 10) as int)]
                =~= p + spec_dec_digits(v as int));
        }
        r2
    }
}

/// Renders `v` as `0x` followed by its uppercase hexadecimal digits, the way
/// addresses and sizes are shown throughout the crate.
pub fn format_as_hex(v: u64) -> (r: String)
    ensures
        r@ == spec_hex(v as int),
{
    let prefix = String::from_str("0x");
    proof {
        reveal_strlit("0x");
        assert(prefix@ =~= seq!['0', 'x']);
    }
    push_hex_digits(prefix, v)
}

/// Whether `rva` lies in the half-open virtual range
/// `[virtual_address, virtual_address + virtual_size)` of section `s`.
///
/// The boundary policy is deliberate and uniform: the first byte of a section
/// is inside it, the byte one past `virtual_size` is not.
pub open spec fn section_contains_rva(s: SectionHeader, rva: u32) -> bool {
    s.virtual_address <= rva < s.virtual_address + s.virtual_size
}

/// The file offset the section table assigns to `rva`: the first section (in
/// declaration order) whose virtual range contains `rva` maps it to
/// `pointer_to_raw_data + (rva - virtual_address)`; with no such section the
/// translation is undefined.
pub open spec fn spec_rva_to_offset(sections: Seq<SectionHeader>, rva: u32) -> Option<int>
    decreases sections.len(),
{
    if sections.len() == 0 {
        None
    } else if section_contains_rva(sections[0], rva) {
        Some(sections[0].pointer_to_raw_data + rva - sections[0].virtual_address)
    } else {
        spec_rva_to_offset(sections.drop_first(), rva)
    }
}

/// A translated offset is `pointer_to_raw_data + (rva - virtual_address)` of
/// a section containing `rva`, so it is never negative and stays below twice
/// the `u32` range.
pub proof fn lemma_rva_offset_in_range(sections: Seq<SectionHeader>, rva: u32)
    ensures
        spec_rva_to_offset(sections, rva) matches Some(off) ==> 0 <= off < 0x2_0000_0000,
    decreases sections.len(),
{
    if sections.len() > 0 {
        lemma_rva_offset_in_range(sections.drop_first(), rva);
    }
}

/// Translates an RVA to a file offset through the image's section table.
///
/// Scans the sections in declaration order and returns the mapping of the
/// first one whose half-open range `[virtual_address, virtual_address +
/// virtual_size)` contains `rva`; `None` when no section matches (such an RVA
/// is malformed or points at a region, like the header itself, that the
/// section table does not map) or when the resulting offset cannot be held in
/// a `usize`.
pub fn rva_to_offset(pe: &PeFile, rva: u32) -> (r: Option<usize>)
    ensures
        match spec_rva_to_offset(pe.sections@, rva) {
            Some(off) => r == if off <= usize::MAX {
                Some(off as usize)
            } else {
                None::<usize>
            },
            None => r == None::<usize>,
        },
{
    let n = pe.sections.len();
    let mut i: usize = 0;
    proof {
        assert(pe.sections@.skip(0) =~= pe.sections@);
    }
    while i < n
        invariant
            i <= n,
            n == pe.sections@.len(),
            spec_rva_to_offset(pe.sections@, rva) == spec_rva_to_offset(
                pe.sections@.skip(i as int),
                rva,
            ),
        decreases n - i,
    {
        let s = pe.sections[i];
        if s.virtual_address <= rva && (rva as u64) < s.virtual_address as u64
            + s.virtual_size as u64 {
            let off64: u64 = s.pointer_to_raw_data as u64 + (rva - s.virtual_address) as u64;
            if off64 <= usize::MAX as u64 {
                return Some(off64 as usize);
            } else {
                return None;
            }
        }
        proof {
            assert(pe.sections@.skip(i as int).drop_first() =~= pe.sections@.skip(i + 1));
        }
        i = i + 1;
    }
    None
}

/// Where the NUL scan that starts at `off` ends: the index of the first zero
/// byte at or after `off`, or the end of the buffer if there is none.
pub open spec fn spec_nul_scan_end(b: Seq<u8>, off: int) -> int
    decreases b.len() - off,
{
    if 0 <= off < b.len() && b[off] != 0 {
        spec_nul_scan_end(b, off + 1)
    } else {
        off
    }
}

/// Compares two string slices through their UTF-8 encodings: the encodings
/// are equal exactly when the character sequences are.
pub(crate) fn str_equal(a: &str, b: &str) -> (r: bool)
    ensures
        r == (a@ == b@),
{
    proof {
        vstd::utf8::encode_utf8_decode_utf8(a@);
        vstd::utf8::encode_utf8_decode_utf8(b@);
    }
    let ab = a.as_bytes();
    let bb = b.as_bytes();
    if ab.len() != bb.len() {
        return false;
    }
    let n = ab.len();
    let mut i: usize = 0;
    while i < n
        invariant
            i <= n,
            n == ab@.len(),
            n == bb@.len(),
            ab@ == vstd::utf8::encode_utf8(a@),
            bb@ == vstd::utf8::encode_utf8(b@),
            forall|j: int| 0 <= j < i ==> ab@[j] == bb@[j],
        decreases n - i,
    {
        if u8_at(ab, i) != u8_at(bb, i) {
            proof {
                vstd::utf8::encode_utf8_decode_utf8(a@);
                vstd::utf8::encode_utf8_decode_utf8(b@);
            }
            return false;
        }
        i = i + 1;
    }
    proof {
        assert(ab@ =~= bb@);
        vstd::utf8::encode_utf8_decode_utf8(a@);
        vstd::utf8::encode_utf8_decode_utf8(b@);
    }
    true
}

/// Relies on std's `str::from_utf8`: it accepts exactly the byte sequences
/// that vstd's `valid_utf8` describes and decodes them to `decode_utf8` of
/// the bytes.
#[verifier::external_body]
pub(crate) fn utf8_to_string(bytes: &[u8]) -> (r: Option<String>)
    ensures
        match r {
            Some(s) => valid_utf8(bytes@) && s@ == decode_utf8(bytes@),
            None => !valid_utf8(bytes@),
        },
{
    match std::str::from_utf8(bytes) {
        Ok(s) => Some(s.to_string()),
        Err(_) => None,
    }
}

/// Reads the NUL-terminated name a table points at through `rva`.
///
/// The RVA is translated through the section table; an RVA that no section
/// maps, or whose offset lies past the end of the file, fails with
/// [`Error::InvalidTableOffset`]. The name runs from that offset to the first
/// zero byte (or the end of the buffer), and a byte run that is not valid
/// UTF-8 fails with [`Error::InvalidDllName`] rather than being replaced.
pub fn read_dll_names(pe: &PeFile, rva: u32) -> (r: Result<String, Error>)
    ensures
        ({
            let b = pe.buffer@;
            match spec_rva_to_offset(pe.sections@, rva) {
                Some(off) => {
                    if off > usize::MAX || off > b.len() {
                        r == Err::<String, Error>(Error::InvalidTableOffset)
                    } else {
                        let name = b.subrange(off, spec_nul_scan_end(b, off));
                        if valid_utf8(name) {
                            r matches Ok(s) && s@ == decode_utf8(name)
                        } else {
                            r == Err::<String, Error>(Error::InvalidDllName)
                        }
                    }
                },
                None => r == Err::<String, Error>(Error::InvalidTableOffset),
            }
        }),
{
    proof {
        lemma_rva_offset_in_range(pe.sections@, rva);
    }
    let offset = match rva_to_offset(pe, rva) {
        Some(o) => o,
        None => {
            return Err(Error::InvalidTableOffset);
        },
    };
    let len = pe.buffer.len();
    if offset > len {
        return Err(Error::InvalidTableOffset);
    }
    let mut end: usize = offset;
    while end < len && pe.buffer[end] != 0
        invariant
            offset <= end <= len,
            len == pe.buffer@.len(),
            spec_nul_scan_end(pe.buffer@, offset as int) == spec_nul_scan_end(
                pe.buffer@,
                end as int,
            ),
        decreases len - end,
    {
        end = end + 1;
    }
    let name_bytes = slice_subrange(pe.buffer.as_slice(), offset, end);
    match utf8_to_string(name_bytes) {
        Some(s) => Ok(s),
        None => Err(Error::InvalidDllName),
    }
}

/// The address translator is a partial function: an RVA inside exactly one
/// section's half-open virtual range translates to that section's
/// `pointer_to_raw_data` plus the RVA's offset into the range.
pub proof fn lemma_rva_in_unique_section(sections: Seq<SectionHeader>, rva: u32, k: int)
    requires
        0 <= k < sections.len(),
        section_contains_rva(sections[k], rva),
        forall|j: int|
            0 <= j < sections.len() && j != k ==> !section_contains_rva(
                #[trigger] sections[j],
                rva,
            ),
    ensures
        spec_rva_to_offset(sections, rva) == Some(
            sections[k].pointer_to_raw_data + rva - sections[k].virtual_address,
        ),
    decreases k,
{
    if k == 0 {
    } else {
        let rest = sections.drop_first();
        assert(!section_contains_rva(sections[0], rva));
        assert forall|j: int|
            0 <= j < rest.len() && j != k - 1 implies !section_contains_rva(
            #[trigger] rest[j],
            rva,
        ) by {
            assert(rest[j] == sections[j + 1]);
        }
        assert(rest[k - 1] == sections[k]);
        lemma_rva_in_unique_section(rest, rva, k - 1);
    }
}

/// The address translator is a partial function: an RVA inside no section's
/// half-open virtual range has no translation.
pub proof fn lemma_rva_in_no_section(sections: Seq<SectionHeader>, rva: u32)
    requires
        forall|j: int|
            0 <= j < sections.len() ==> !section_contains_rva(#[trigger] sections[j], rva),
    ensures
        spec_rva_to_offset(sections, rva) == None::<int>,
    decreases sections.len(),
{
    if sections.len() == 0 {
    } else {
        let rest = sections.drop_first();
        assert forall|j: int| 0 <= j < rest.len() implies !section_contains_rva(
            #[trigger] rest[j],
            rva,
        ) by {
            assert(rest[j] == sections[j + 1]);
        }
        lemma_rva_in_no_section(rest, rva);
    }
}

} // verus!
