//! Section headers: the raw, name-unresolved entries, their typed fields,
//! and name resolution through the section-name string table.

use vstd::prelude::*;

use vstd::utf8::decode_utf8;
use vstd::utf8::valid_utf8;

use crate::bytes::read_u32;
use crate::bytes::spec_u32_at;
use crate::common::read_word;
use crate::common::spec_word_at;
use crate::common::Endianness;
use crate::common::ParseError;
use crate::common::Word;
use crate::common::WordWidth;
use crate::program_header::is_power_of_two;
use crate::program_header::spec_is_pow2;

verus! {

/// What a section holds. Codes from 0x60000000 up are reserved for
/// OS-specific use; a code outside every known range is an error.
#[derive(Debug, Clone, Copy, PartialEq, Eq, Structural)]
pub enum SectionHeaderType {
    Null,
    ProgramBits,
    SymbolTable,
    StringTable,
    RelocationWithAddends,
    Hash,
    Dynamic,
    Note,
    NoData,
    Relocation,
    SharedLib,
    DynamicSymbolTable,
    ConstructorArray,
    DestructorArray,
    PreConstructorArray,
    Group,
    SectionIndices,
    Num,
    OsSpecific(u32),
}

/// The bitmask of section attribute flags, 32 or 64 bits on disk depending
/// on the word width, validated against the set of known flag bits.
#[derive(Debug, PartialEq, Eq, Clone, Copy, Structural)]
pub struct SectionHeaderFlags {
    pub bits: u64,
}

/// The union of every known section flag bit: WRITE 0x1, ALLOC 0x2, EXEC
/// 0x4, MERGE 0x10, STRINGS 0x20, INFO_LINK 0x40, LINK_ORDER 0x80,
/// OS_NONCONFORMING 0x100, GROUP 0x200, THREAD_LOCAL 0x400, ORDERED
/// 0x4000000, EXCLUDE 0x8000000, MASK_OS 0x0FF00000, MASK_PROCESSOR
/// 0xF0000000.
pub const SECTION_FLAGS_MASK: u64 = 0xFFF007F7;

/// One decoded section header entry whose name is still a raw index into
/// the string table.
#[derive(Debug, PartialEq, Eq, Clone, Copy)]
pub struct UnnamedSectionHeader {
    pub name_index: u32,
    pub typ: SectionHeaderType,
    pub flags: SectionHeaderFlags,
    pub address: Word,
    pub offset: Word,
    pub size: Word,
    pub link: u32,
    pub info: u32,
    pub align: Word,
    pub entry_size: Word,
}

/// A section header entry with its name resolved to text.
#[derive(Debug, PartialEq, Eq, Clone)]
pub struct SectionHeader {
    pub name: String,
    pub typ: SectionHeaderType,
    pub flags: SectionHeaderFlags,
    pub address: Word,
    pub offset: Word,
    pub size: Word,
    pub link: u32,
    pub info: u32,
    pub align: Word,
    pub entry_size: Word,
}

/// Decoding of a raw section-type code.
pub open spec fn spec_section_type(raw: u32) -> Result<SectionHeaderType, ParseError> {
    if raw == 0x0 {
        Ok(SectionHeaderType::Null)
    } else if raw == 0x1 {
        Ok(SectionHeaderType::ProgramBits)
    } else if raw == 0x2 {
        Ok(SectionHeaderType::SymbolTable)
    } else if raw == 0x3 {
        Ok(SectionHeaderType::StringTable)
    } else if raw == 0x4 {
        Ok(SectionHeaderType::RelocationWithAddends)
    } else if raw == 0x5 {
        Ok(SectionHeaderType::Hash)
    } else if raw == 0x6 {
        Ok(SectionHeaderType::Dynamic)
    } else if raw == 0x7 {
        Ok(SectionHeaderType::Note)
    } else if raw == 0x8 {
        Ok(SectionHeaderType::NoData)
    } else if raw == 0x9 {
        Ok(SectionHeaderType::Relocation)
    } else if raw == 0xA {
        Ok(SectionHeaderType::SharedLib)
    } else if raw == 0xB {
        Ok(SectionHeaderType::DynamicSymbolTable)
    } else if raw == 0xE {
        Ok(SectionHeaderType::ConstructorArray)
    } else if raw == 0xF {
        Ok(SectionHeaderType::DestructorArray)
    } else if raw == 0x10 {
        Ok(SectionHeaderType::PreConstructorArray)
    } else if raw == 0x11 {
        Ok(SectionHeaderType::Group)
    } else if raw == 0x12 {
        Ok(SectionHeaderType::SectionIndices)
    } else if raw == 0x13 {
        Ok(SectionHeaderType::Num)
    } else if raw >= 0x60000000 {
        Ok(SectionHeaderType::OsSpecific(raw))
    } else {
        Err(ParseError::InvalidSectionType(raw))
    }
}

/// Decoding of a raw flags word: valid exactly when no unknown bit is set.
pub open spec fn spec_section_flags(raw: u64) -> Result<SectionHeaderFlags, ParseError> {
    if raw & !SECTION_FLAGS_MASK == 0 {
        Ok(SectionHeaderFlags { bits: raw })
    } else {
        Err(ParseError::InvalidSectionFlags(raw))
    }
}

/// The size of one section header entry: 40 bytes in 32-bit files, 64 in
/// 64-bit files.
pub open spec fn spec_sh_entry_size(w: WordWidth) -> nat {
    match w {
        WordWidth::Width32 => 40,
        WordWidth::Width64 => 64,
    }
}

/// Byte offset of the `address` field.
pub open spec fn spec_sh_off_address(w: WordWidth) -> int {
    match w {
        WordWidth::Width32 => 12,
        WordWidth::Width64 => 16,
    }
}

/// Byte offset of the `offset` field.
pub open spec fn spec_sh_off_offset(w: WordWidth) -> int {
    match w {
        WordWidth::Width32 => 16,
        WordWidth::Width64 => 24,
    }
}

/// Byte offset of the `size` field.
pub open spec fn spec_sh_off_size(w: WordWidth) -> int {
    match w {
        WordWidth::Width32 => 20,
        WordWidth::Width64 => 32,
    }
}

/// Byte offset of the `link` field.
pub open spec fn spec_sh_off_link(w: WordWidth) -> int {
    match w {
        WordWidth::Width32 => 24,
        WordWidth::Width64 => 40,
    }
}

/// Byte offset of the `info` field.
pub open spec fn spec_sh_off_info(w: WordWidth) -> int {
    match w {
        WordWidth::Width32 => 28,
        WordWidth::Width64 => 44,
    }
}

/// Byte offset of the `align` field.
pub open spec fn spec_sh_off_align(w: WordWidth) -> int {
    match w {
        WordWidth::Width32 => 32,
        WordWidth::Width64 => 48,
    }
}

/// Byte offset of the `entry_size` field.
pub open spec fn spec_sh_off_entry_size(w: WordWidth) -> int {
    match w {
        WordWidth::Width32 => 36,
        WordWidth::Width64 => 56,
    }
}

/// The full decoding of one raw section header entry from the front of a
/// byte sequence, validations in the order the decoder applies them.
pub open spec fn spec_parse_section_header(s: Seq<u8>, w: WordWidth, e: Endianness) -> Result<
    UnnamedSectionHeader,
    ParseError,
> {
    if s.len() < spec_sh_entry_size(w) {
        Err(ParseError::InsufficientSectionHeaderLength(s.len() as usize))
    } else {
        match spec_section_type(spec_u32_at(s, 4, e)) {
            Err(err) => Err(err),
            Ok(typ) => match spec_section_flags(spec_word_at(s, 8, w, e).spec_value()) {
                Err(err) => Err(err),
                Ok(flags) => {
                    let align = spec_word_at(s, spec_sh_off_align(w), w, e);
                    if align.spec_value() != 0 && !spec_is_pow2(align.spec_value() as nat) {
                        Err(ParseError::InvalidAlignment(align.spec_value()))
                    } else {
                        Ok(
                            UnnamedSectionHeader {
                                name_index: spec_u32_at(s, 0, e),
                                typ,
                                flags,
                                address: spec_word_at(s, spec_sh_off_address(w), w, e),
                                offset: spec_word_at(s, spec_sh_off_offset(w), w, e),
                                size: spec_word_at(s, spec_sh_off_size(w), w, e),
                                link: spec_u32_at(s, spec_sh_off_link(w), e),
                                info: spec_u32_at(s, spec_sh_off_info(w), e),
                                align,
                                entry_size: spec_word_at(s, spec_sh_off_entry_size(w), w, e),
                            },
                        )
                    }
                },
            },
        }
    }
}

/// The first NUL byte at or after position `i`, if any.
pub open spec fn spec_find_nul(s: Seq<u8>, i: int) -> Option<int>
    decreases s.len() - i,
{
    if i < 0 || i >= s.len() {
        None
    } else if s[i] == 0 {
        Some(i)
    } else {
        spec_find_nul(s, i + 1)
    }
}

/// Why resolving this entry's name against `table` fails, if it does:
/// `UnterminatedString` when no NUL follows the name index,
/// `InvalidSectionName` when the bytes before the NUL are not valid text.
pub open spec fn spec_resolve_err(u: UnnamedSectionHeader, table: Seq<u8>) -> Option<ParseError> {
    match spec_find_nul(table, u.name_index as int) {
        Option::None => Some(ParseError::UnterminatedString),
        Option::Some(j) => if !valid_utf8(table.subrange(u.name_index as int, j)) {
            Some(ParseError::InvalidSectionName)
        } else {
            Option::<ParseError>::None
        },
    }
}

/// The entry's name: the text between its name index and the next NUL.
pub open spec fn spec_resolved_name(u: UnnamedSectionHeader, table: Seq<u8>) -> Seq<char> {
    match spec_find_nul(table, u.name_index as int) {
        Option::Some(j) => decode_utf8(table.subrange(u.name_index as int, j)),
        Option::None => Seq::<char>::empty(),
    }
}

/// The error of the lowest-indexed of the first `n` entries whose name
/// does not resolve against `table`, if any.
pub open spec fn spec_first_resolve_err(
    us: Seq<UnnamedSectionHeader>,
    table: Seq<u8>,
    n: int,
) -> Option<ParseError>
    decreases n,
{
    if n <= 0 {
        None
    } else {
        match spec_first_resolve_err(us, table, n - 1) {
            Option::Some(e) => Some(e),
            Option::None => spec_resolve_err(us[n - 1], table),
        }
    }
}

/// The relation between a raw entry, the string table, and its resolved
/// form: the name resolves and every other field is carried over unchanged.
pub open spec fn spec_resolves_to(
    u: UnnamedSectionHeader,
    table: Seq<u8>,
    sh: SectionHeader,
) -> bool {
    &&& spec_resolve_err(u, table) is None
    &&& sh.name@ == spec_resolved_name(u, table)
    &&& sh.typ == u.typ
    &&& sh.flags == u.flags
    &&& sh.address == u.address
    &&& sh.offset == u.offset
    &&& sh.size == u.size
    &&& sh.link == u.link
    &&& sh.info == u.info
    &&& sh.align == u.align
    &&& sh.entry_size == u.entry_size
}

/// Relies on `String::from_utf8`: it returns `Ok` exactly when the bytes are
/// valid UTF-8 and then decodes them — the encoding that vstd's `valid_utf8`
/// and `decode_utf8` define.
#[verifier::external_body]
fn string_from_utf8(bytes: Vec<u8>) -> (r: Option<String>)
    ensures
        r is Some <==> valid_utf8(bytes@),
        r matches Some(s) ==> s@ == decode_utf8(bytes@),
{
    String::from_utf8(bytes).ok()
}

impl SectionHeaderType {
    /// Decoding of the 4-byte section-type field from the front of a slice.
    pub fn parse_bytes(bytes: &[u8], endianness: Endianness) -> (r: Result<
        SectionHeaderType,
        ParseError,
    >)
        ensures
            bytes@.len() < 4 ==> r == Err::<SectionHeaderType, ParseError>(
                ParseError::InsufficientLength(bytes@.len() as usize),
            ),
            bytes@.len() >= 4 ==> r == spec_section_type(spec_u32_at(bytes@, 0, endianness)),
    {
        match SectionHeaderType::check_length(4, bytes.len()) {
            Err(e) => {
                return Err(e);
            },
            Ok(_) => {},
        }
        SectionHeaderType::parse_u32(read_u32(bytes, 0, endianness))
    }

    /// Decoding of a raw section-type code.
    pub fn parse_u32(raw: u32) -> (r: Result<SectionHeaderType, ParseError>)
        ensures
            r == spec_section_type(raw),
    {
        if raw == 0x0 {
            Ok(SectionHeaderType::Null)
        } else if raw == 0x1 {
            Ok(SectionHeaderType::ProgramBits)
        } else if raw == 0x2 {
            Ok(SectionHeaderType::SymbolTable)
        } else if raw == 0x3 {
            Ok(SectionHeaderType::StringTable)
        } else if raw == 0x4 {
            Ok(SectionHeaderType::RelocationWithAddends)
        } else if raw == 0x5 {
            Ok(SectionHeaderType::Hash)
        } else if raw == 0x6 {
            Ok(SectionHeaderType::Dynamic)
        } else if raw == 0x7 {
            Ok(SectionHeaderType::Note)
        } else if raw == 0x8 {
            Ok(SectionHeaderType::NoData)
        } else if raw == 0x9 {
            Ok(SectionHeaderType::Relocation)
        } else if raw == 0xA {
            Ok(SectionHeaderType::SharedLib)
        } else if raw == 0xB {
            Ok(SectionHeaderType::DynamicSymbolTable)
        } else if raw == 0xE {
            Ok(SectionHeaderType::ConstructorArray)
        } else if raw == 0xF {
            Ok(SectionHeaderType::DestructorArray)
        } else if raw == 0x10 {
            Ok(SectionHeaderType::PreConstructorArray)
        } else if raw == 0x11 {
            Ok(SectionHeaderType::Group)
        } else if raw == 0x12 {
            Ok(SectionHeaderType::SectionIndices)
        } else if raw == 0x13 {
            Ok(SectionHeaderType::Num)
        } else if raw >= 0x60000000 {
            Ok(SectionHeaderType::OsSpecific(raw))
        } else {
            Err(ParseError::InvalidSectionType(raw))
        }
    }

    /// Rejects a too-short field slice with the length that was seen.
    fn check_length(expected: usize, actual: usize) -> (r: Result<(), ParseError>)
        ensures
            r == if actual < expected {
                Err::<(), ParseError>(ParseError::InsufficientLength(actual))
            } else {
                Ok::<(), ParseError>(())
            },
    {
        if actual < expected {
            Err(ParseError::InsufficientLength(actual))
        } else {
            Ok(())
        }
    }
}

impl SectionHeaderFlags {
    /// Decoding of the flags field from the front of a slice: 4 bytes under
    /// `Width32`, 8 under `Width64`, then validated against the known bits.
    pub fn parse_bytes(bytes: &[u8], word_width: WordWidth, endianness: Endianness) -> (r: Result<
        SectionHeaderFlags,
        ParseError,
    >)
        ensures
            bytes@.len() < word_width.spec_size() ==> r == Err::<SectionHeaderFlags, ParseError>(
                ParseError::InsufficientLength(bytes@.len() as usize),
            ),
            bytes@.len() >= word_width.spec_size() ==> r == spec_section_flags(
                spec_word_at(bytes@, 0, word_width, endianness).spec_value(),
            ),
    {
        if bytes.len() < word_width.size() {
            Err(ParseError::InsufficientLength(bytes.len()))
        } else {
            let raw: u64 = read_word(bytes, 0, word_width, endianness).to_u64();
            SectionHeaderFlags::parse_u64(raw)
        }
    }

    /// Decoding of a raw flags word.
    pub fn parse_u64(raw: u64) -> (r: Result<SectionHeaderFlags, ParseError>)
        ensures
            r == spec_section_flags(raw),
    {
        if raw & !SECTION_FLAGS_MASK == 0 {
            Ok(SectionHeaderFlags { bits: raw })
        } else {
            Err(ParseError::InvalidSectionFlags(raw))
        }
    }
}

impl UnnamedSectionHeader {
    /// Decodes one raw section header entry from the front of `bytes`, using
    /// the offset table of the given word width, and validates the section
    /// alignment rule.
    pub fn parse_bytes(bytes: &[u8], word_width: WordWidth, endianness: Endianness) -> (r: Result<
        UnnamedSectionHeader,
        ParseError,
    >)
        ensures
            r == spec_parse_section_header(bytes@, word_width, endianness),
    {
        let n = bytes.len();
        let expected_length: usize = match word_width {
            WordWidth::Width32 => 40,
            WordWidth::Width64 => 64,
        };
        match UnnamedSectionHeader::check_length(expected_length, n) {
            Err(e) => {
                return Err(e);
            },
            Ok(_) => {},
        }
        let (off_addr, off_offset, off_size, off_link, off_info, off_align, off_entry_size): (
            usize,
            usize,
            usize,
            usize,
            usize,
            usize,
            usize,
        ) = match word_width {
            WordWidth::Width32 => (12, 16, 20, 24, 28, 32, 36),
            WordWidth::Width64 => (16, 24, 32, 40, 44, 48, 56),
        };
        let name_index = read_u32(bytes, 0, endianness);
        let typ = match SectionHeaderType::parse_u32(read_u32(bytes, 4, endianness)) {
            Err(e) => {
                return Err(e);
            },
            Ok(t) => t,
        };
        let flags_raw = read_word(bytes, 8, word_width, endianness).to_u64();
        let flags = match SectionHeaderFlags::parse_u64(flags_raw) {
            Err(e) => {
                return Err(e);
            },
            Ok(f) => f,
        };
        let address = read_word(bytes, off_addr, word_width, endianness);
        let offset = read_word(bytes, off_offset, word_width, endianness);
        let size = read_word(bytes, off_size, word_width, endianness);
        let link = read_u32(bytes, off_link, endianness);
        let info = read_u32(bytes, off_info, endianness);
        let align = read_word(bytes, off_align, word_width, endianness);
        let align_num = align.to_u64();
        if align_num != 0 && !is_power_of_two(align_num) {
            return Err(ParseError::InvalidAlignment(align_num));
        }
        let entry_size = read_word(bytes, off_entry_size, word_width, endianness);
        Ok(
            UnnamedSectionHeader {
                name_index,
                typ,
                flags,
                address,
                offset,
                size,
                link,
                info,
                align,
                entry_size,
            },
        )
    }

    /// Rejects a too-short entry slice with the length that was seen.
    fn check_length(expected: usize, actual: usize) -> (r: Result<(), ParseError>)
        ensures
            r == if actual < expected {
                Err::<(), ParseError>(ParseError::InsufficientSectionHeaderLength(actual))
            } else {
                Ok::<(), ParseError>(())
            },
    {
        if actual < expected {
            Err(ParseError::InsufficientSectionHeaderLength(actual))
        } else {
            Ok(())
        }
    }

    /// Resolves this entry's name: `name_index` is a byte offset into the
    /// string table; the name runs to the next NUL. Fails as
    /// `UnterminatedString` when no NUL follows, `InvalidSectionName` when
    /// the bytes are not valid text.
    pub fn to_named(self, names_table: &[u8]) -> (r: Result<SectionHeader, ParseError>)
        ensures
            match spec_resolve_err(self, names_table@) {
                Option::Some(e) => r == Err::<SectionHeader, ParseError>(e),
                Option::None => r matches Ok(sh) && spec_resolves_to(self, names_table@, sh),
            },
    {
        let n = names_table.len();
        let index = self.name_index as usize;
        if index >= n {
            return Err(ParseError::UnterminatedString);
        }
        let mut j = index;
        while j < n && names_table[j] != 0
            invariant
                index <= j <= n,
                n == names_table@.len(),
                spec_find_nul(names_table@, index as int) == spec_find_nul(
                    names_table@,
                    j as int,
                ),
            decreases n - j,
        {
            j = j + 1;
        }
        if j == n {
            return Err(ParseError::UnterminatedString);
        }
        let name_slice = vstd::slice::slice_subrange(names_table, index, j);
        let name_vec = vstd::slice::slice_to_vec(name_slice);
        match string_from_utf8(name_vec) {
            Option::None => Err(ParseError::InvalidSectionName),
            Option::Some(name) => Ok(
                SectionHeader {
                    name,
                    typ: self.typ,
                    flags: self.flags,
                    address: self.address,
                    offset: self.offset,
                    size: self.size,
                    link: self.link,
                    info: self.info,
                    align: self.align,
                    entry_size: self.entry_size,
                },
            ),
        }
    }
}

} // verus!
