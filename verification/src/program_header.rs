//! Program headers: segment descriptors with a word-width-dependent field
//! layout and an alignment/address-congruency validation rule.

use vstd::prelude::*;

use crate::bytes::read_u32;
use crate::bytes::spec_u32_at;
use crate::common::read_word;
use crate::common::spec_word_at;
use crate::common::Endianness;
use crate::common::ParseError;
use crate::common::Word;
use crate::common::WordWidth;

verus! {

/// What a segment is for. Two 256M code ranges are reserved for OS- and
/// processor-specific use; a code outside every known range is an error.
#[derive(Debug, Eq, PartialEq, Copy, Clone, Structural)]
pub enum ProgramHeaderSegmentType {
    Null,
    Load,
    Dynamic,
    Interp,
    Note,
    SharedLib,
    HeaderSegment,
    ThreadLocalStorage,
    OSSpecific(u32),
    ProcessorSpecific(u32),
}

/// One decoded program header table entry.
#[derive(Debug, PartialEq, Clone)]
pub struct ProgramHeader {
    pub typ: ProgramHeaderSegmentType,
    pub flags: u32,
    pub offset: Word,
    pub vaddress: Word,
    pub paddress: Word,
    pub filesize: Word,
    pub memsize: Word,
    pub alignment: Word,
}

/// Decoding of a raw segment-type code.
pub open spec fn spec_segment_type(u: u32) -> Result<ProgramHeaderSegmentType, ParseError> {
    if u == 0x00000000 {
        Ok(ProgramHeaderSegmentType::Null)
    } else if u == 0x00000001 {
        Ok(ProgramHeaderSegmentType::Load)
    } else if u == 0x00000002 {
        Ok(ProgramHeaderSegmentType::Dynamic)
    } else if u == 0x00000003 {
        Ok(ProgramHeaderSegmentType::Interp)
    } else if u == 0x00000004 {
        Ok(ProgramHeaderSegmentType::Note)
    } else if u == 0x00000005 {
        Ok(ProgramHeaderSegmentType::SharedLib)
    } else if u == 0x00000006 {
        Ok(ProgramHeaderSegmentType::HeaderSegment)
    } else if u == 0x00000007 {
        Ok(ProgramHeaderSegmentType::ThreadLocalStorage)
    } else if 0x60000000 <= u && u <= 0x6FFFFFFF {
        Ok(ProgramHeaderSegmentType::OSSpecific(u))
    } else if 0x70000000 <= u && u <= 0x7FFFFFFF {
        Ok(ProgramHeaderSegmentType::ProcessorSpecific(u))
    } else {
        Err(ParseError::InvalidSegmentType(u))
    }
}

/// Whether `n` is a power of two. Zero is not; one is.
pub open spec fn spec_is_pow2(n: nat) -> bool
    decreases n,
{
    if n == 0 {
        false
    } else if n == 1 {
        true
    } else {
        n % 2 == 0 && spec_is_pow2(n / 2)
    }
}

/// The alignment rule for one segment: alignment 0 or 1 means no
/// constraint; any other alignment must be a power of two, and virtual
/// address and file offset must then agree modulo the alignment.
pub open spec fn spec_validate_vaddr(offset: Word, addr: Word, align: Word) -> Result<
    (),
    ParseError,
> {
    let a = align.spec_value();
    if a <= 1 {
        Ok(())
    } else if !spec_is_pow2(a as nat) {
        Err(ParseError::InvalidAlignment(a))
    } else if addr.spec_value() % a == offset.spec_value() % a {
        Ok(())
    } else {
        Err(ParseError::InvalidVirtualAddress(addr))
    }
}

/// The size of one program header entry: 32 bytes in 32-bit files, 56 in
/// 64-bit files.
pub open spec fn spec_ph_entry_size(w: WordWidth) -> nat {
    match w {
        WordWidth::Width32 => 32,
        WordWidth::Width64 => 56,
    }
}

/// Byte offset of the `offset` field.
pub open spec fn spec_ph_off_offset(w: WordWidth) -> int {
    match w {
        WordWidth::Width32 => 4,
        WordWidth::Width64 => 8,
    }
}

/// Byte offset of the `vaddress` field.
pub open spec fn spec_ph_off_vaddress(w: WordWidth) -> int {
    match w {
        WordWidth::Width32 => 8,
        WordWidth::Width64 => 16,
    }
}

/// Byte offset of the `paddress` field.
pub open spec fn spec_ph_off_paddress(w: WordWidth) -> int {
    match w {
        WordWidth::Width32 => 12,
        WordWidth::Width64 => 24,
    }
}

/// Byte offset of the `filesize` field.
pub open spec fn spec_ph_off_filesize(w: WordWidth) -> int {
    match w {
        WordWidth::Width32 => 16,
        WordWidth::Width64 => 32,
    }
}

/// Byte offset of the `memsize` field.
pub open spec fn spec_ph_off_memsize(w: WordWidth) -> int {
    match w {
        WordWidth::Width32 => 20,
        WordWidth::Width64 => 40,
    }
}

/// Byte offset of the `flags` field: second-to-last in the 32-bit layout,
/// right after the segment type in the 64-bit layout.
pub open spec fn spec_ph_off_flags(w: WordWidth) -> int {
    match w {
        WordWidth::Width32 => 24,
        WordWidth::Width64 => 4,
    }
}

/// Byte offset of the `alignment` field.
pub open spec fn spec_ph_off_alignment(w: WordWidth) -> int {
    match w {
        WordWidth::Width32 => 28,
        WordWidth::Width64 => 48,
    }
}

/// The full decoding of one program header entry from the front of a byte
/// sequence, validations in the order the decoder applies them.
pub open spec fn spec_parse_program_header(s: Seq<u8>, w: WordWidth, e: Endianness) -> Result<
    ProgramHeader,
    ParseError,
> {
    if s.len() < 32 {
        Err(ParseError::InsufficientProgramHeaderLength(s.len() as usize))
    } else {
        match spec_segment_type(spec_u32_at(s, 0, e)) {
            Err(err) => Err(err),
            Ok(typ) => {
                if s.len() < spec_ph_entry_size(w) {
                    Err(ParseError::InsufficientProgramHeaderLength(s.len() as usize))
                } else {
                    let offset = spec_word_at(s, spec_ph_off_offset(w), w, e);
                    let vaddress = spec_word_at(s, spec_ph_off_vaddress(w), w, e);
                    let alignment = spec_word_at(s, spec_ph_off_alignment(w), w, e);
                    match spec_validate_vaddr(offset, vaddress, alignment) {
                        Err(err) => Err(err),
                        Ok(_) => Ok(
                            ProgramHeader {
                                typ,
                                flags: spec_u32_at(s, spec_ph_off_flags(w), e),
                                offset,
                                vaddress,
                                paddress: spec_word_at(s, spec_ph_off_paddress(w), w, e),
                                filesize: spec_word_at(s, spec_ph_off_filesize(w), w, e),
                                memsize: spec_word_at(s, spec_ph_off_memsize(w), w, e),
                                alignment,
                            },
                        ),
                    }
                }
            },
        }
    }
}

impl ProgramHeaderSegmentType {
    /// Decoding of a raw segment-type code.
    pub fn parse_u32(u: u32) -> (r: Result<ProgramHeaderSegmentType, ParseError>)
        ensures
            r == spec_segment_type(u),
    {
        if u == 0x00000000 {
            Ok(ProgramHeaderSegmentType::Null)
        } else if u == 0x00000001 {
            Ok(ProgramHeaderSegmentType::Load)
        } else if u == 0x00000002 {
            Ok(ProgramHeaderSegmentType::Dynamic)
        } else if u == 0x00000003 {
            Ok(ProgramHeaderSegmentType::Interp)
        } else if u == 0x00000004 {
            Ok(ProgramHeaderSegmentType::Note)
        } else if u == 0x00000005 {
            Ok(ProgramHeaderSegmentType::SharedLib)
        } else if u == 0x00000006 {
            Ok(ProgramHeaderSegmentType::HeaderSegment)
        } else if u == 0x00000007 {
            Ok(ProgramHeaderSegmentType::ThreadLocalStorage)
        } else if 0x60000000 <= u && u <= 0x6FFFFFFF {
            Ok(ProgramHeaderSegmentType::OSSpecific(u))
        } else if 0x70000000 <= u && u <= 0x7FFFFFFF {
            Ok(ProgramHeaderSegmentType::ProcessorSpecific(u))
        } else {
            Err(ParseError::InvalidSegmentType(u))
        }
    }

    /// Decoding of the 4-byte segment-type field from the front of a slice.
    pub fn parse_bytes(bytes: &[u8], endianness: Endianness) -> (r: Result<
        ProgramHeaderSegmentType,
        ParseError,
    >)
        ensures
            bytes@.len() < 4 ==> r == Err::<ProgramHeaderSegmentType, ParseError>(
                ParseError::InsufficientLength(bytes@.len() as usize),
            ),
            bytes@.len() >= 4 ==> r == spec_segment_type(spec_u32_at(bytes@, 0, endianness)),
    {
        if bytes.len() < 4 {
            Err(ParseError::InsufficientLength(bytes.len()))
        } else {
            ProgramHeaderSegmentType::parse_u32(read_u32(bytes, 0, endianness))
        }
    }
}

/// Whether `v` is a power of two, by halving down to an odd remainder.
pub(crate) fn is_power_of_two(v: u64) -> (r: bool)
    ensures
        r == spec_is_pow2(v as nat),
{
    if v == 0 {
        return false;
    }
    let mut m = v;
    while m % 2 == 0
        invariant
            m >= 1,
            spec_is_pow2(v as nat) == spec_is_pow2(m as nat),
        decreases m,
    {
        m = m / 2;
    }
    m == 1
}

impl ProgramHeader {
    /// Builds an entry from its parts, in the on-disk field order.
    pub fn new(
        typ: ProgramHeaderSegmentType,
        offset: Word,
        vaddress: Word,
        paddress: Word,
        filesize: Word,
        memsize: Word,
        flags: u32,
        alignment: Word,
    ) -> (r: ProgramHeader)
        ensures
            r == (ProgramHeader { typ, flags, offset, vaddress, paddress, filesize, memsize, alignment }),
    {
        ProgramHeader { typ, offset, vaddress, paddress, filesize, memsize, flags, alignment }
    }

    /// Decodes one program header entry from the front of `bytes`, using the
    /// offset table of the given word width, and validates the alignment
    /// rule.
    pub fn parse_bytes(bytes: &[u8], word_width: WordWidth, endianness: Endianness) -> (r: Result<
        ProgramHeader,
        ParseError,
    >)
        ensures
            r == spec_parse_program_header(bytes@, word_width, endianness),
    {
        let n = bytes.len();
        match ProgramHeader::check_length(32, n) {
            Err(e) => {
                return Err(e);
            },
            Ok(_) => {},
        }
        let typ = match ProgramHeaderSegmentType::parse_bytes(bytes, endianness) {
            Err(e) => {
                return Err(e);
            },
            Ok(t) => t,
        };
        let (off_offset, off_vaddr, off_paddr, off_filesize, off_memsize, off_flags, off_align, size): (
            usize,
            usize,
            usize,
            usize,
            usize,
            usize,
            usize,
            usize,
        ) = match word_width {
            WordWidth::Width32 => (4, 8, 12, 16, 20, 24, 28, 32),
            WordWidth::Width64 => (8, 16, 24, 32, 40, 4, 48, 56),
        };
        match ProgramHeader::check_length(size, n) {
            Err(e) => {
                return Err(e);
            },
            Ok(_) => {},
        }
        let offset = read_word(bytes, off_offset, word_width, endianness);
        let vaddress = read_word(bytes, off_vaddr, word_width, endianness);
        let paddress = read_word(bytes, off_paddr, word_width, endianness);
        let filesize = read_word(bytes, off_filesize, word_width, endianness);
        let memsize = read_word(bytes, off_memsize, word_width, endianness);
        let flags = read_u32(bytes, off_flags, endianness);
        let alignment = read_word(bytes, off_align, word_width, endianness);
        match ProgramHeader::validate_vaddr(offset, vaddress, alignment) {
            Err(e) => {
                return Err(e);
            },
            Ok(_) => {},
        }
        Ok(ProgramHeader { typ, flags, offset, vaddress, paddress, filesize, memsize, alignment })
    }

    /// Rejects a too-short entry slice with the length that was seen.
    fn check_length(expected: usize, actual: usize) -> (r: Result<(), ParseError>)
        ensures
            r == if actual < expected {
                Err::<(), ParseError>(ParseError::InsufficientProgramHeaderLength(actual))
            } else {
                Ok::<(), ParseError>(())
            },
    {
        if actual < expected {
            Err(ParseError::InsufficientProgramHeaderLength(actual))
        } else {
            Ok(())
        }
    }

    /// Applies the alignment rule to one entry's offset, virtual address and
    /// alignment.
    fn validate_vaddr(offset: Word, addr: Word, align: Word) -> (r: Result<(), ParseError>)
        ensures
            r == spec_validate_vaddr(offset, addr, align),
    {
        let align_value = align.to_u64();
        if align_value <= 1 {
            Ok(())
        } else if !is_power_of_two(align_value) {
            Err(ParseError::InvalidAlignment(align_value))
        } else {
            let offset_value = offset.to_u64();
            let addr_value = addr.to_u64();
            if addr_value % align_value == offset_value % align_value {
                Ok(())
            } else {
                Err(ParseError::InvalidVirtualAddress(addr))
            }
        }
    }
}

/// Law: the segment alignment rule. Alignment 0 or 1 always passes, whatever
/// the offset and address; an alignment that is not a power of two is
/// rejected as `InvalidAlignment`; under a power-of-two alignment the entry
/// passes exactly when virtual address and file offset agree modulo the
/// alignment, and is rejected as `InvalidVirtualAddress` carrying the
/// address when they disagree.
pub proof fn lemma_alignment_rule(offset: Word, addr: Word, align: Word)
    ensures
        align.spec_value() <= 1 ==> spec_validate_vaddr(offset, addr, align) == Ok::<
            (),
            ParseError,
        >(()),
        align.spec_value() > 1 && !spec_is_pow2(align.spec_value() as nat) ==> spec_validate_vaddr(
            offset,
            addr,
            align,
        ) == Err::<(), ParseError>(ParseError::InvalidAlignment(align.spec_value())),
        align.spec_value() > 1 && spec_is_pow2(align.spec_value() as nat) && addr.spec_value()
            % align.spec_value() == offset.spec_value() % align.spec_value()
            ==> spec_validate_vaddr(offset, addr, align) == Ok::<(), ParseError>(()),
        align.spec_value() > 1 && spec_is_pow2(align.spec_value() as nat) && addr.spec_value()
            % align.spec_value() != offset.spec_value() % align.spec_value()
            ==> spec_validate_vaddr(offset, addr, align) == Err::<(), ParseError>(
            ParseError::InvalidVirtualAddress(addr),
        ),
{
}

} // verus!
