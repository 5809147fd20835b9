//! The basic vocabulary of the format: byte order, word width, file type,
//! ABI and architecture codes, the width-tagged `Word`, and the error type.

use vstd::prelude::*;

use crate::bytes::read_u32;
use crate::bytes::read_u64;
use crate::bytes::spec_u16_at;
use crate::bytes::spec_u32_at;
use crate::bytes::spec_u64_at;
use crate::section_header::SectionHeaderType;

verus! {

/// Byte order of every multi-byte integer in the file.
#[derive(Debug, Eq, PartialEq, Copy, Clone, Structural)]
pub enum Endianness {
    Little,
    Big,
}

/// Word width of the file: decides the size and placement of every
/// width-dependent field.
#[derive(Debug, Eq, PartialEq, Copy, Clone, Structural)]
pub enum WordWidth {
    Width32,
    Width64,
}

/// What kind of object the file is. Codes 0 through 4 are the named kinds;
/// codes from 0xFF00 up are reserved for processor-specific use.
#[derive(Debug, Eq, PartialEq, Copy, Clone, Structural)]
pub enum FileType {
    NoType,
    Relocatable,
    Executable,
    Shared,
    Core,
    Specific(u16),
}

/// The OS or ABI the file is built for. Purely descriptive: unknown codes
/// decode to `Unknown` rather than failing.
#[derive(Debug, Eq, PartialEq, Copy, Clone, Structural)]
pub enum Abi {
    SysV,
    HpUx,
    NetBSD,
    Linux,
    GnuHurd,
    Solaris,
    Aix,
    Irix,
    FreeBSD,
    Tru64,
    NovellModesto,
    OpenBSD,
    OpenVMS,
    NonStopKernel,
    Aros,
    FenixOS,
    CloudABI,
    OpenVOS,
    Unknown,
}

/// The machine architecture the file is built for. Purely descriptive:
/// unknown codes decode to `Unknown` rather than failing.
#[derive(Debug, Eq, PartialEq, Copy, Clone, Structural)]
pub enum Arch {
    Unspecified,
    WE32100,
    Sparc,
    X86,
    M68k,
    M88k,
    IntelMCU,
    Intel80860,
    MIPS,
    System370,
    RS3000,
    PARISC,
    Intel80960,
    PowerPC,
    PowerPC64,
    S390,
    ARM,
    SuperH,
    IA64,
    X86_64,
    TMS320C6000,
    AArch64,
    RISCV,
    BPF,
    WDC65C816,
    Unknown,
}

/// A width-tagged unsigned value: addresses, offsets and sizes whose on-disk
/// width follows the file's word width.
#[derive(Debug, Eq, PartialEq, Copy, Clone, PartialOrd, Ord, Structural)]
pub enum Word {
    Word32(u32),
    Word64(u64),
}

/// Everything that can go wrong while decoding, each variant carrying the
/// offending raw value where there is one.
#[derive(Debug, Eq, PartialEq, Clone)]
pub enum ParseError {
    /// A multi-byte field began past the end of its slice; carries the
    /// length that was available.
    InsufficientLength(usize),
    /// The slice is too short for the file header.
    InsufficientHeaderLength(usize),
    /// The first four bytes are not the ELF magic; carries their
    /// little-endian value.
    NotELF(u32),
    InvalidWordWidth(u8),
    InvalidEndianness(u8),
    InvalidFileType(u16),
    /// The header's own size field disagrees with the size its word width
    /// implies.
    InvalidHeaderSize(u16),
    /// The slice is too short for a program header entry.
    InsufficientProgramHeaderLength(usize),
    InvalidSegmentType(u32),
    /// A table-entry alignment that is neither 0, 1, nor a power of two.
    InvalidAlignment(u64),
    /// Virtual address and file offset disagree modulo the alignment.
    InvalidVirtualAddress(Word),
    /// The slice is too short for a section header entry.
    InsufficientSectionHeaderLength(usize),
    InvalidSectionType(u32),
    /// A section flag bit outside the set of known flags.
    InvalidSectionFlags(u64),
    /// No NUL terminator between a name's start index and the end of the
    /// string table.
    UnterminatedString,
    /// A section name that is not validly encoded text.
    InvalidSectionName,
    /// The section at the header's name-table index is not a string table.
    InvalidSectionNameTableType(SectionHeaderType),
}

/// Decoding of the word-width code: byte 4 of the header.
pub open spec fn spec_word_width(b: u8) -> Result<WordWidth, ParseError> {
    if b == 0x01 {
        Ok(WordWidth::Width32)
    } else if b == 0x02 {
        Ok(WordWidth::Width64)
    } else {
        Err(ParseError::InvalidWordWidth(b))
    }
}

/// Decoding of the endianness code: byte 5 of the header.
pub open spec fn spec_endianness(b: u8) -> Result<Endianness, ParseError> {
    if b == 0x01 {
        Ok(Endianness::Little)
    } else if b == 0x02 {
        Ok(Endianness::Big)
    } else {
        Err(ParseError::InvalidEndianness(b))
    }
}

/// Decoding of the file-type code. Strict: a code outside the named and
/// reserved ranges is an error.
pub open spec fn spec_file_type(code: u16) -> Result<FileType, ParseError> {
    if code == 0x0000 {
        Ok(FileType::NoType)
    } else if code == 0x0001 {
        Ok(FileType::Relocatable)
    } else if code == 0x0002 {
        Ok(FileType::Executable)
    } else if code == 0x0003 {
        Ok(FileType::Shared)
    } else if code == 0x0004 {
        Ok(FileType::Core)
    } else if code >= 0xff00 {
        Ok(FileType::Specific(code))
    } else {
        Err(ParseError::InvalidFileType(code))
    }
}

/// Decoding of the ABI code: total, every byte yields a variant.
pub open spec fn spec_abi(b: u8) -> Abi {
    if b == 0x00 {
        Abi::SysV
    } else if b == 0x01 {
        Abi::HpUx
    } else if b == 0x02 {
        Abi::NetBSD
    } else if b == 0x03 {
        Abi::Linux
    } else if b == 0x04 {
        Abi::GnuHurd
    } else if b == 0x06 {
        Abi::Solaris
    } else if b == 0x07 {
        Abi::Aix
    } else if b == 0x08 {
        Abi::Irix
    } else if b == 0x09 {
        Abi::FreeBSD
    } else if b == 0x0A {
        Abi::Tru64
    } else if b == 0x0B {
        Abi::NovellModesto
    } else if b == 0x0C {
        Abi::OpenBSD
    } else if b == 0x0D {
        Abi::OpenVMS
    } else if b == 0x0E {
        Abi::NonStopKernel
    } else if b == 0x0F {
        Abi::Aros
    } else if b == 0x10 {
        Abi::FenixOS
    } else if b == 0x11 {
        Abi::CloudABI
    } else if b == 0x12 {
        Abi::OpenVOS
    } else {
        Abi::Unknown
    }
}

/// Decoding of the architecture code: total, every code yields a variant.
pub open spec fn spec_arch(code: u16) -> Arch {
    if code == 0x0000 {
        Arch::Unspecified
    } else if code == 0x0001 {
        Arch::WE32100
    } else if code == 0x0002 {
        Arch::Sparc
    } else if code == 0x0003 {
        Arch::X86
    } else if code == 0x0004 {
        Arch::M68k
    } else if code == 0x0005 {
        Arch::M88k
    } else if code == 0x0006 {
        Arch::IntelMCU
    } else if code == 0x0007 {
        Arch::Intel80860
    } else if code == 0x0008 {
        Arch::MIPS
    } else if code == 0x0009 {
        Arch::System370
    } else if code == 0x000A {
        Arch::RS3000
    } else if code == 0x000E {
        Arch::PARISC
    } else if code == 0x0013 {
        Arch::Intel80960
    } else if code == 0x0014 {
        Arch::PowerPC
    } else if code == 0x0015 {
        Arch::PowerPC64
    } else if code == 0x0016 {
        Arch::S390
    } else if code == 0x0028 {
        Arch::ARM
    } else if code == 0x002A {
        Arch::SuperH
    } else if code == 0x0032 {
        Arch::IA64
    } else if code == 0x003E {
        Arch::X86_64
    } else if code == 0x008C {
        Arch::TMS320C6000
    } else if code == 0x00B7 {
        Arch::AArch64
    } else if code == 0x00F3 {
        Arch::RISCV
    } else if code == 0x00F7 {
        Arch::BPF
    } else if code == 0x0101 {
        Arch::WDC65C816
    } else {
        Arch::Unknown
    }
}

/// The word at byte offset `off` of `s`: 4 bytes under `Width32`, 8 under
/// `Width64`.
pub open spec fn spec_word_at(s: Seq<u8>, off: int, w: WordWidth, e: Endianness) -> Word {
    match w {
        WordWidth::Width32 => Word::Word32(spec_u32_at(s, off, e)),
        WordWidth::Width64 => Word::Word64(spec_u64_at(s, off, e)),
    }
}

/// Decoding of a word from the front of a slice, length-checked.
pub open spec fn spec_parse_word(s: Seq<u8>, w: WordWidth, e: Endianness) -> Result<
    Word,
    ParseError,
> {
    if s.len() < w.spec_size() {
        Err(ParseError::InsufficientLength(s.len() as usize))
    } else {
        Ok(spec_word_at(s, 0, w, e))
    }
}

impl WordWidth {
    /// Decoding of the word-width code.
    pub fn parse_byte(b: u8) -> (r: Result<WordWidth, ParseError>)
        ensures
            r == spec_word_width(b),
    {
        if b == 0x01 {
            Ok(WordWidth::Width32)
        } else if b == 0x02 {
            Ok(WordWidth::Width64)
        } else {
            Err(ParseError::InvalidWordWidth(b))
        }
    }

    /// How many bytes a word of this width occupies.
    pub open spec fn spec_size(self) -> nat {
        match self {
            WordWidth::Width32 => 4,
            WordWidth::Width64 => 8,
        }
    }

    /// How many bytes a word of this width occupies.
    pub fn size(&self) -> (r: usize)
        ensures
            r == self.spec_size(),
    {
        match *self {
            WordWidth::Width32 => 4,
            WordWidth::Width64 => 8,
        }
    }
}

impl Endianness {
    /// Decoding of the endianness code.
    pub fn parse_byte(b: u8) -> (r: Result<Endianness, ParseError>)
        ensures
            r == spec_endianness(b),
    {
        if b == 0x01 {
            Ok(Endianness::Little)
        } else if b == 0x02 {
            Ok(Endianness::Big)
        } else {
            Err(ParseError::InvalidEndianness(b))
        }
    }
}

impl FileType {
    /// Decoding of a raw file-type code.
    pub fn parse_u16(i: u16) -> (r: Result<FileType, ParseError>)
        ensures
            r == spec_file_type(i),
    {
        if i == 0x0000 {
            Ok(FileType::NoType)
        } else if i == 0x0001 {
            Ok(FileType::Relocatable)
        } else if i == 0x0002 {
            Ok(FileType::Executable)
        } else if i == 0x0003 {
            Ok(FileType::Shared)
        } else if i == 0x0004 {
            Ok(FileType::Core)
        } else if i >= 0xff00 {
            Ok(FileType::Specific(i))
        } else {
            Err(ParseError::InvalidFileType(i))
        }
    }

    /// Decoding of the 2-byte file-type field from the front of a slice.
    pub fn parse_bytes(bytes: &[u8], endianness: Endianness) -> (r: Result<FileType, ParseError>)
        ensures
            bytes@.len() < 2 ==> r == Err::<FileType, ParseError>(
                ParseError::InsufficientLength(bytes@.len() as usize),
            ),
            bytes@.len() >= 2 ==> r == spec_file_type(spec_u16_at(bytes@, 0, endianness)),
    {
        if bytes.len() < 2 {
            Err(ParseError::InsufficientLength(bytes.len()))
        } else {
            FileType::parse_u16(crate::bytes::read_u16(bytes, 0, endianness))
        }
    }
}

impl Abi {
    /// Decoding of the ABI byte: never fails, unknown codes give `Unknown`.
    pub fn from_byte(b: u8) -> (r: Abi)
        ensures
            r == spec_abi(b),
    {
        if b == 0x00 {
            Abi::SysV
        } else if b == 0x01 {
            Abi::HpUx
        } else if b == 0x02 {
            Abi::NetBSD
        } else if b == 0x03 {
            Abi::Linux
        } else if b == 0x04 {
            Abi::GnuHurd
        } else if b == 0x06 {
            Abi::Solaris
        } else if b == 0x07 {
            Abi::Aix
        } else if b == 0x08 {
            Abi::Irix
        } else if b == 0x09 {
            Abi::FreeBSD
        } else if b == 0x0A {
            Abi::Tru64
        } else if b == 0x0B {
            Abi::NovellModesto
        } else if b == 0x0C {
            Abi::OpenBSD
        } else if b == 0x0D {
            Abi::OpenVMS
        } else if b == 0x0E {
            Abi::NonStopKernel
        } else if b == 0x0F {
            Abi::Aros
        } else if b == 0x10 {
            Abi::FenixOS
        } else if b == 0x11 {
            Abi::CloudABI
        } else if b == 0x12 {
            Abi::OpenVOS
        } else {
            Abi::Unknown
        }
    }
}

impl Arch {
    /// Decoding of a raw architecture code: never fails, unknown codes give
    /// `Unknown`.
    pub fn from_u16(i: u16) -> (r: Arch)
        ensures
            r == spec_arch(i),
    {
        if i == 0x0000 {
            Arch::Unspecified
        } else if i == 0x0001 {
            Arch::WE32100
        } else if i == 0x0002 {
            Arch::Sparc
        } else if i == 0x0003 {
            Arch::X86
        } else if i == 0x0004 {
            Arch::M68k
        } else if i == 0x0005 {
            Arch::M88k
        } else if i == 0x0006 {
            Arch::IntelMCU
        } else if i == 0x0007 {
            Arch::Intel80860
        } else if i == 0x0008 {
            Arch::MIPS
        } else if i == 0x0009 {
            Arch::System370
        } else if i == 0x000A {
            Arch::RS3000
        } else if i == 0x000E {
            Arch::PARISC
        } else if i == 0x0013 {
            Arch::Intel80960
        } else if i == 0x0014 {
            Arch::PowerPC
        } else if i == 0x0015 {
            Arch::PowerPC64
        } else if i == 0x0016 {
            Arch::S390
        } else if i == 0x0028 {
            Arch::ARM
        } else if i == 0x002A {
            Arch::SuperH
        } else if i == 0x0032 {
            Arch::IA64
        } else if i == 0x003E {
            Arch::X86_64
        } else if i == 0x008C {
            Arch::TMS320C6000
        } else if i == 0x00B7 {
            Arch::AArch64
        } else if i == 0x00F3 {
            Arch::RISCV
        } else if i == 0x00F7 {
            Arch::BPF
        } else if i == 0x0101 {
            Arch::WDC65C816
        } else {
            Arch::Unknown
        }
    }

    /// Decoding of the 2-byte architecture field from the front of a slice.
    pub fn parse_bytes(bytes: &[u8], endianness: Endianness) -> (r: Result<Arch, ParseError>)
        ensures
            bytes@.len() < 2 ==> r == Err::<Arch, ParseError>(
                ParseError::InsufficientLength(bytes@.len() as usize),
            ),
            bytes@.len() >= 2 ==> r == Ok::<Arch, ParseError>(
                spec_arch(spec_u16_at(bytes@, 0, endianness)),
            ),
    {
        if bytes.len() < 2 {
            Err(ParseError::InsufficientLength(bytes.len()))
        } else {
            Ok(Arch::from_u16(crate::bytes::read_u16(bytes, 0, endianness)))
        }
    }
}

impl Word {
    /// The held value, widened to 64 bits. Lossless for both variants.
    pub open spec fn spec_value(self) -> u64 {
        match self {
            Word::Word32(u) => u as u64,
            Word::Word64(u) => u,
        }
    }

    /// How many bytes this word occupied on disk.
    pub open spec fn spec_size(self) -> nat {
        match self {
            Word::Word32(_) => 4,
            Word::Word64(_) => 8,
        }
    }

    /// Decoding of a word from the front of a slice, length-checked.
    pub fn parse_bytes(bytes: &[u8], word_width: WordWidth, endianness: Endianness) -> (r: Result<
        Word,
        ParseError,
    >)
        ensures
            r == spec_parse_word(bytes@, word_width, endianness),
    {
        match word_width {
            WordWidth::Width32 => {
                if bytes.len() < 4 {
                    Err(ParseError::InsufficientLength(bytes.len()))
                } else {
                    Ok(Word::Word32(read_u32(bytes, 0, endianness)))
                }
            },
            WordWidth::Width64 => {
                if bytes.len() < 8 {
                    Err(ParseError::InsufficientLength(bytes.len()))
                } else {
                    Ok(Word::Word64(read_u64(bytes, 0, endianness)))
                }
            },
        }
    }

    /// How many bytes this word occupied on disk.
    pub fn size(&self) -> (r: usize)
        ensures
            r == self.spec_size(),
    {
        match *self {
            Word::Word32(_) => 4,
            Word::Word64(_) => 8,
        }
    }

    /// The zero word of the given width.
    pub fn zero(word_width: WordWidth) -> (r: Word)
        ensures
            r.spec_value() == 0,
            r.spec_size() == word_width.spec_size(),
    {
        match word_width {
            WordWidth::Width32 => Word::Word32(0),
            WordWidth::Width64 => Word::Word64(0),
        }
    }

    /// The held value, widened to 64 bits. Lossless for both variants.
    pub fn to_u64(self) -> (r: u64)
        ensures
            r == self.spec_value(),
    {
        match self {
            Word::Word32(u) => u as u64,
            Word::Word64(u) => u,
        }
    }
}

/// Reads the word at byte offset `offset`; the slice is long enough by
/// precondition, so no error can arise.
pub fn read_word(bytes: &[u8], offset: usize, w: WordWidth, e: Endianness) -> (r: Word)
    requires
        offset + w.spec_size() <= bytes@.len(),
    ensures
        r == spec_word_at(bytes@, offset as int, w, e),
{
    match w {
        WordWidth::Width32 => Word::Word32(read_u32(bytes, offset, e)),
        WordWidth::Width64 => Word::Word64(read_u64(bytes, offset, e)),
    }
}

/// Law: on its defined domain the file-type decoder is injective — distinct
/// codes in the named range 0 through 4 decode to distinct variants.
pub proof fn lemma_file_type_code_injective(a: u16, b: u16)
    requires
        a <= 4,
        b <= 4,
        spec_file_type(a) == spec_file_type(b),
    ensures
        a == b,
{
}

/// Law: the file-type decoder is total on its defined domain and rejects
/// exactly the codes outside it, each with its own code in the error.
pub proof fn lemma_file_type_domain(code: u16)
    ensures
        (code <= 4 || code >= 0xff00) <==> spec_file_type(code) is Ok,
        !(code <= 4 || code >= 0xff00) ==> spec_file_type(code) == Err::<FileType, ParseError>(
            ParseError::InvalidFileType(code),
        ),
{
}

/// Law: the ABI decoder never fails, and every byte outside the known table
/// — 0x05 and everything from 0x13 up — decodes to `Unknown`.
pub proof fn lemma_abi_decode_total(b: u8)
    ensures
        b == 0x05 || b >= 0x13 ==> spec_abi(b) == Abi::Unknown,
{
}

} // verus!
