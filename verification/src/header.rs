//! The ELF file header: a fixed-size, width- and endianness-polymorphic
//! record at the start of the file that governs every later decoding step.

use vstd::prelude::*;

use crate::bytes::lemma_field_value_injective;
use crate::bytes::lemma_le_4;
use crate::bytes::read_u16;
use crate::bytes::read_u32;
use crate::bytes::spec_u16_at;
use crate::bytes::spec_u32_at;
use crate::common::read_word;
use crate::common::spec_abi;
use crate::common::spec_arch;
use crate::common::spec_endianness;
use crate::common::spec_file_type;
use crate::common::spec_word_at;
use crate::common::spec_word_width;
use crate::common::Abi;
use crate::common::Arch;
use crate::common::Endianness;
use crate::common::FileType;
use crate::common::ParseError;
use crate::common::Word;
use crate::common::WordWidth;

verus! {

/// The four magic bytes 7F 45 4C 46 ("\x7F ELF") read as a little-endian
/// 32-bit integer.
pub const ELF_MAGIC_LE: u32 = 0x464C457F;

/// The decoded file header.
#[derive(Debug, PartialEq, Clone)]
pub struct Header {
    pub word_width: WordWidth,
    pub endianness: Endianness,
    pub header_version: u8,
    pub os_abi: Abi,
    pub abi_version: u8,
    pub file_type: FileType,
    pub arch: Arch,
    pub version: u32,
    pub entry_point: Word,
    pub program_header_start: Word,
    pub section_header_start: Word,
    pub flags: u32,
    pub pheader_entry_size: u16,
    pub pheader_entries: u16,
    pub sheader_entry_size: u16,
    pub sheader_entries: u16,
    pub section_names_index: u16,
}

/// The total header size that a word width implies: 52 bytes for 32-bit
/// files, 64 for 64-bit files.
pub open spec fn spec_header_size(w: WordWidth) -> nat {
    match w {
        WordWidth::Width32 => 52,
        WordWidth::Width64 => 64,
    }
}

/// Byte offset of `program_header_start`.
pub open spec fn spec_off_ph_start(w: WordWidth) -> int {
    match w {
        WordWidth::Width32 => 28,
        WordWidth::Width64 => 32,
    }
}

/// Byte offset of `section_header_start`.
pub open spec fn spec_off_sh_start(w: WordWidth) -> int {
    match w {
        WordWidth::Width32 => 32,
        WordWidth::Width64 => 40,
    }
}

/// Byte offset of `flags`.
pub open spec fn spec_off_flags(w: WordWidth) -> int {
    match w {
        WordWidth::Width32 => 36,
        WordWidth::Width64 => 48,
    }
}

/// Byte offset of the header's own size field.
pub open spec fn spec_off_own_size(w: WordWidth) -> int {
    match w {
        WordWidth::Width32 => 40,
        WordWidth::Width64 => 52,
    }
}

/// Whether the first four bytes are the ELF magic, judged through their
/// little-endian value, which `NotELF` also carries.
pub open spec fn spec_check_magic(s: Seq<u8>) -> Result<(), ParseError> {
    if spec_u32_at(s, 0, Endianness::Little) != ELF_MAGIC_LE {
        Err(ParseError::NotELF(spec_u32_at(s, 0, Endianness::Little)))
    } else {
        Ok(())
    }
}

/// The full decoding of a file header from the front of a byte sequence,
/// with every validation step in the order the decoder applies them.
pub open spec fn spec_parse_header(s: Seq<u8>) -> Result<Header, ParseError> {
    if s.len() < 52 {
        Err(ParseError::InsufficientHeaderLength(s.len() as usize))
    } else {
        match spec_check_magic(s) {
            Err(e) => Err(e),
            Ok(_) => match spec_word_width(s[4]) {
                Err(e) => Err(e),
                Ok(w) => {
                    if s.len() < spec_header_size(w) {
                        Err(ParseError::InsufficientHeaderLength(s.len() as usize))
                    } else {
                        match spec_endianness(s[5]) {
                            Err(e) => Err(e),
                            Ok(e) => match spec_file_type(spec_u16_at(s, 16, e)) {
                                Err(err) => Err(err),
                                Ok(file_type) => {
                                    let own_size = spec_u16_at(s, spec_off_own_size(w), e);
                                    if own_size != spec_header_size(w) {
                                        Err(ParseError::InvalidHeaderSize(own_size))
                                    } else {
                                        Ok(
                                            Header {
                                                word_width: w,
                                                endianness: e,
                                                header_version: s[6],
                                                os_abi: spec_abi(s[7]),
                                                abi_version: s[8],
                                                file_type,
                                                arch: spec_arch(spec_u16_at(s, 18, e)),
                                                version: spec_u32_at(s, 20, e),
                                                entry_point: spec_word_at(s, 24, w, e),
                                                program_header_start: spec_word_at(
                                                    s,
                                                    spec_off_ph_start(w),
                                                    w,
                                                    e,
                                                ),
                                                section_header_start: spec_word_at(
                                                    s,
                                                    spec_off_sh_start(w),
                                                    w,
                                                    e,
                                                ),
                                                flags: spec_u32_at(s, spec_off_flags(w), e),
                                                pheader_entry_size: spec_u16_at(
                                                    s,
                                                    spec_off_own_size(w) + 2,
                                                    e,
                                                ),
                                                pheader_entries: spec_u16_at(
                                                    s,
                                                    spec_off_own_size(w) + 4,
                                                    e,
                                                ),
                                                sheader_entry_size: spec_u16_at(
                                                    s,
                                                    spec_off_own_size(w) + 6,
                                                    e,
                                                ),
                                                sheader_entries: spec_u16_at(
                                                    s,
                                                    spec_off_own_size(w) + 8,
                                                    e,
                                                ),
                                                section_names_index: spec_u16_at(
                                                    s,
                                                    spec_off_own_size(w) + 10,
                                                    e,
                                                ),
                                            },
                                        )
                                    }
                                },
                            },
                        }
                    }
                },
            },
        }
    }
}

impl Header {
    /// Decodes a file header from the front of `bytes`, applying the magic,
    /// length and size-field validations.
    pub fn parse_bytes(bytes: &[u8]) -> (r: Result<Header, ParseError>)
        ensures
            r == spec_parse_header(bytes@),
    {
        let n = bytes.len();
        // A 32-bit header needs 52 bytes; only then can byte 4 say whether
        // more are required.
        match Header::check_length(52, n) {
            Err(e) => {
                return Err(e);
            },
            Ok(_) => {},
        }
        match Header::check_magic(bytes) {
            Err(e) => {
                return Err(e);
            },
            Ok(_) => {},
        }
        let word_width = match WordWidth::parse_byte(bytes[4]) {
            Err(e) => {
                return Err(e);
            },
            Ok(w) => w,
        };
        let required: usize = match word_width {
            WordWidth::Width32 => 52,
            WordWidth::Width64 => 64,
        };
        match Header::check_length(required, n) {
            Err(e) => {
                return Err(e);
            },
            Ok(_) => {},
        }
        let endianness = match Endianness::parse_byte(bytes[5]) {
            Err(e) => {
                return Err(e);
            },
            Ok(e) => e,
        };
        let header_version = bytes[6];
        let os_abi = Abi::from_byte(bytes[7]);
        let abi_version = bytes[8];
        let file_type = match FileType::parse_u16(read_u16(bytes, 16, endianness)) {
            Err(e) => {
                return Err(e);
            },
            Ok(ft) => ft,
        };
        let arch = Arch::from_u16(read_u16(bytes, 18, endianness));
        let version = read_u32(bytes, 20, endianness);
        let (off_ph, off_sh, off_flags, off_size): (usize, usize, usize, usize) = match word_width {
            WordWidth::Width32 => (28, 32, 36, 40),
            WordWidth::Width64 => (32, 40, 48, 52),
        };
        let entry_point = read_word(bytes, 24, word_width, endianness);
        let program_header_start = read_word(bytes, off_ph, word_width, endianness);
        let section_header_start = read_word(bytes, off_sh, word_width, endianness);
        let flags = read_u32(bytes, off_flags, endianness);
        let own_size = read_u16(bytes, off_size, endianness);
        if own_size as usize != required {
            return Err(ParseError::InvalidHeaderSize(own_size));
        }
        let pheader_entry_size = read_u16(bytes, off_size + 2, endianness);
        let pheader_entries = read_u16(bytes, off_size + 4, endianness);
        let sheader_entry_size = read_u16(bytes, off_size + 6, endianness);
        let sheader_entries = read_u16(bytes, off_size + 8, endianness);
        let section_names_index = read_u16(bytes, off_size + 10, endianness);
        Ok(
            Header {
                word_width,
                endianness,
                header_version,
                os_abi,
                abi_version,
                file_type,
                arch,
                version,
                entry_point,
                program_header_start,
                section_header_start,
                flags,
                pheader_entry_size,
                pheader_entries,
                sheader_entry_size,
                sheader_entries,
                section_names_index,
            },
        )
    }

    /// Rejects a too-short header slice with the length that was seen.
    fn check_length(minimum: usize, actual: usize) -> (r: Result<(), ParseError>)
        ensures
            r == if actual < minimum {
                Err::<(), ParseError>(ParseError::InsufficientHeaderLength(actual))
            } else {
                Ok::<(), ParseError>(())
            },
    {
        if actual < minimum {
            Err(ParseError::InsufficientHeaderLength(actual))
        } else {
            Ok(())
        }
    }

    /// Checks the four magic bytes, read as one little-endian integer.
    /// Accepts exactly the byte sequence 7F 45 4C 46.
    pub fn check_magic(bytes: &[u8]) -> (r: Result<(), ParseError>)
        requires
            bytes@.len() >= 4,
        ensures
            r == spec_check_magic(bytes@),
            r is Ok <==> (bytes@[0] == 0x7f && bytes@[1] == 0x45 && bytes@[2] == 0x4c && bytes@[3]
                == 0x46),
    {
        let value = read_u32(bytes, 0, Endianness::Little);
        proof {
            let t = bytes@.subrange(0, 4);
            let m: Seq<u8> = seq![0x7fu8, 0x45u8, 0x4cu8, 0x46u8];
            lemma_le_4(m);
            crate::bytes::lemma_field_value_bound(t, Endianness::Little);
            crate::bytes::lemma_pow256_values();
            if value == ELF_MAGIC_LE {
                lemma_field_value_injective(t, m, Endianness::Little);
                assert(bytes@[0] == t[0] && bytes@[1] == t[1] && bytes@[2] == t[2] && bytes@[3]
                    == t[3]);
            } else {
                if bytes@[0] == 0x7f && bytes@[1] == 0x45 && bytes@[2] == 0x4c && bytes@[3]
                    == 0x46 {
                    assert(t =~= m);
                }
            }
        }
        if value != ELF_MAGIC_LE {
            Err(ParseError::NotELF(value))
        } else {
            Ok(())
        }
    }

    /// Whether the four given bytes are the ELF magic.
    pub fn is_valid_magic(magic: [u8; 4]) -> (r: bool)
        ensures
            r == (magic@[0] == 0x7f && magic@[1] == 0x45 && magic@[2] == 0x4c && magic@[3] == 0x46),
    {
        magic[0] == 0x7F && magic[1] == 0x45 && magic[2] == 0x4C && magic[3] == 0x46
    }

    pub fn word_width(&self) -> (r: WordWidth)
        ensures
            r == self.word_width,
    {
        self.word_width
    }

    pub fn endianness(&self) -> (r: Endianness)
        ensures
            r == self.endianness,
    {
        self.endianness
    }

    pub fn header_version(&self) -> (r: u8)
        ensures
            r == self.header_version,
    {
        self.header_version
    }

    pub fn os_abi(&self) -> (r: Abi)
        ensures
            r == self.os_abi,
    {
        self.os_abi
    }

    pub fn abi_version(&self) -> (r: u8)
        ensures
            r == self.abi_version,
    {
        self.abi_version
    }

    pub fn file_type(&self) -> (r: FileType)
        ensures
            r == self.file_type,
    {
        self.file_type
    }

    pub fn arch(&self) -> (r: Arch)
        ensures
            r == self.arch,
    {
        self.arch
    }

    pub fn version(&self) -> (r: u32)
        ensures
            r == self.version,
    {
        self.version
    }

    pub fn entry_point(&self) -> (r: Word)
        ensures
            r == self.entry_point,
    {
        self.entry_point
    }

    pub fn program_header_start(&self) -> (r: Word)
        ensures
            r == self.program_header_start,
    {
        self.program_header_start
    }

    pub fn section_header_start(&self) -> (r: Word)
        ensures
            r == self.section_header_start,
    {
        self.section_header_start
    }

    pub fn flags(&self) -> (r: u32)
        ensures
            r == self.flags,
    {
        self.flags
    }

    pub fn program_header_entry_size(&self) -> (r: u16)
        ensures
            r == self.pheader_entry_size,
    {
        self.pheader_entry_size
    }

    pub fn program_header_entry_count(&self) -> (r: u16)
        ensures
            r == self.pheader_entries,
    {
        self.pheader_entries
    }

    pub fn section_header_entry_size(&self) -> (r: u16)
        ensures
            r == self.sheader_entry_size,
    {
        self.sheader_entry_size
    }

    pub fn section_header_entry_count(&self) -> (r: u16)
        ensures
            r == self.sheader_entries,
    {
        self.sheader_entries
    }

    pub fn section_names_index(&self) -> (r: u16)
        ensures
            r == self.section_names_index,
    {
        self.section_names_index
    }

    /// The header's own size in bytes, implied by its word width.
    pub fn size(&self) -> (r: u64)
        ensures
            r == spec_header_size(self.word_width),
    {
        match self.word_width {
            WordWidth::Width32 => 52,
            WordWidth::Width64 => 64,
        }
    }

    /// A header of the given width and byte order with every other field at
    /// its zero or unknown value; the base that the `with_` builders refine.
    pub fn minimal(word_width: WordWidth, endianness: Endianness) -> (r: Header)
        ensures
            r == spec_minimal_header(word_width, endianness),
    {
        let word = match word_width {
            WordWidth::Width32 => Word::Word32(0),
            _ => Word::Word64(0),
        };
        Header {
            word_width,
            endianness,
            header_version: 0,
            os_abi: Abi::Unknown,
            abi_version: 0,
            file_type: FileType::NoType,
            arch: Arch::Unspecified,
            version: 0,
            entry_point: word,
            program_header_start: word,
            section_header_start: word,
            flags: 0,
            pheader_entry_size: 0,
            pheader_entries: 0,
            sheader_entry_size: 0,
            sheader_entries: 0,
            section_names_index: 0,
        }
    }

    pub fn with_header_version(self, header_version: u8) -> (r: Header)
        ensures
            r == (Header { header_version, ..self }),
    {
        Header { header_version, ..self }
    }

    pub fn with_abi(self, os_abi: Abi) -> (r: Header)
        ensures
            r == (Header { os_abi, ..self }),
    {
        Header { os_abi, ..self }
    }

    pub fn with_abi_version(self, abi_version: u8) -> (r: Header)
        ensures
            r == (Header { abi_version, ..self }),
    {
        Header { abi_version, ..self }
    }

    pub fn with_file_type(self, file_type: FileType) -> (r: Header)
        ensures
            r == (Header { file_type, ..self }),
    {
        Header { file_type, ..self }
    }

    pub fn with_arch(self, arch: Arch) -> (r: Header)
        ensures
            r == (Header { arch, ..self }),
    {
        Header { arch, ..self }
    }

    pub fn with_version(self, version: u32) -> (r: Header)
        ensures
            r == (Header { version, ..self }),
    {
        Header { version, ..self }
    }

    pub fn with_entry_point(self, entry_point: Word) -> (r: Header)
        ensures
            r == (Header { entry_point, ..self }),
    {
        Header { entry_point, ..self }
    }

    pub fn with_program_header_start(self, word: Word) -> (r: Header)
        ensures
            r == (Header { program_header_start: word, ..self }),
    {
        Header { program_header_start: word, ..self }
    }

    pub fn with_section_header_start(self, word: Word) -> (r: Header)
        ensures
            r == (Header { section_header_start: word, ..self }),
    {
        Header { section_header_start: word, ..self }
    }

    pub fn with_flags(self, flags: u32) -> (r: Header)
        ensures
            r == (Header { flags, ..self }),
    {
        Header { flags, ..self }
    }

    pub fn with_program_header_entry_size(self, size: u16) -> (r: Header)
        ensures
            r == (Header { pheader_entry_size: size, ..self }),
    {
        Header { pheader_entry_size: size, ..self }
    }

    pub fn with_program_header_entry_count(self, count: u16) -> (r: Header)
        ensures
            r == (Header { pheader_entries: count, ..self }),
    {
        Header { pheader_entries: count, ..self }
    }

    pub fn with_section_header_entry_size(self, size: u16) -> (r: Header)
        ensures
            r == (Header { sheader_entry_size: size, ..self }),
    {
        Header { sheader_entry_size: size, ..self }
    }

    pub fn with_section_header_entry_count(self, count: u16) -> (r: Header)
        ensures
            r == (Header { sheader_entries: count, ..self }),
    {
        Header { sheader_entries: count, ..self }
    }

    pub fn with_section_names_index(self, index: u16) -> (r: Header)
        ensures
            r == (Header { section_names_index: index, ..self }),
    {
        Header { section_names_index: index, ..self }
    }
}

/// The header that `Header::minimal` builds.
pub open spec fn spec_minimal_header(word_width: WordWidth, endianness: Endianness) -> Header {
    let word = match word_width {
        WordWidth::Width32 => Word::Word32(0),
        WordWidth::Width64 => Word::Word64(0),
    };
    Header {
        word_width,
        endianness,
        header_version: 0,
        os_abi: Abi::Unknown,
        abi_version: 0,
        file_type: FileType::NoType,
        arch: Arch::Unspecified,
        version: 0,
        entry_point: word,
        program_header_start: word,
        section_header_start: word,
        flags: 0,
        pheader_entry_size: 0,
        pheader_entries: 0,
        sheader_entry_size: 0,
        sheader_entries: 0,
        section_names_index: 0,
    }
}

} // verus!
