//! The orchestrator: decodes the header, both tables and the section names
//! out of one in-memory image of the file, all or nothing.

use vstd::prelude::*;

use crate::common::ParseError;
use crate::header::spec_parse_header;
use crate::header::Header;
use crate::program_header::spec_parse_program_header;
use crate::program_header::ProgramHeader;
use crate::section_header::spec_first_resolve_err;
use crate::section_header::spec_parse_section_header;
use crate::section_header::spec_resolve_err;
use crate::section_header::spec_resolves_to;
use crate::section_header::SectionHeader;
use crate::section_header::SectionHeaderType;
use crate::section_header::UnnamedSectionHeader;

verus! {

/// The result of one full parse: the header and both tables, in on-disk
/// order. Owns everything; nothing refers back to the byte source.
pub struct Metadata {
    pub header: Header,
    pub program_headers: Vec<ProgramHeader>,
    pub section_headers: Vec<SectionHeader>,
}

/// The first `n` program header entries decoded at `pheader_entry_size`
/// strides from `s`, or the error of the lowest-indexed entry that fails.
pub open spec fn spec_parse_ph_table(s: Seq<u8>, h: Header, n: int) -> Result<
    Seq<ProgramHeader>,
    ParseError,
>
    decreases n,
{
    if n <= 0 {
        Ok(Seq::<ProgramHeader>::empty())
    } else {
        match spec_parse_ph_table(s, h, n - 1) {
            Err(e) => Err(e),
            Ok(prefix) => match spec_parse_program_header(
                s.subrange((n - 1) * (h.pheader_entry_size as int), s.len() as int),
                h.word_width,
                h.endianness,
            ) {
                Err(e) => Err(e),
                Ok(ph) => Ok(prefix.push(ph)),
            },
        }
    }
}

/// The first `n` raw section header entries decoded at
/// `sheader_entry_size` strides from `s`, or the error of the
/// lowest-indexed entry that fails.
pub open spec fn spec_parse_sh_table(s: Seq<u8>, h: Header, n: int) -> Result<
    Seq<UnnamedSectionHeader>,
    ParseError,
>
    decreases n,
{
    if n <= 0 {
        Ok(Seq::<UnnamedSectionHeader>::empty())
    } else {
        match spec_parse_sh_table(s, h, n - 1) {
            Err(e) => Err(e),
            Ok(prefix) => match spec_parse_section_header(
                s.subrange((n - 1) * (h.sheader_entry_size as int), s.len() as int),
                h.word_width,
                h.endianness,
            ) {
                Err(e) => Err(e),
                Ok(sh) => Ok(prefix.push(sh)),
            },
        }
    }
}

/// The section that holds the section names: the entry at the header's
/// name-table index. `None` when that index is out of range — name
/// resolution is then skipped; an error when the entry is not a string
/// table.
pub open spec fn spec_strtab(h: Header, us: Seq<UnnamedSectionHeader>) -> Result<
    Option<UnnamedSectionHeader>,
    ParseError,
> {
    if h.section_names_index as int >= us.len() {
        Ok(None)
    } else {
        let sec = us[h.section_names_index as int];
        if sec.typ != SectionHeaderType::StringTable {
            Err(ParseError::InvalidSectionNameTableType(sec.typ))
        } else {
            Ok(Some(sec))
        }
    }
}

/// How many bytes remain at and after offset `off` of `s`.
pub open spec fn spec_avail(s: Seq<u8>, off: int) -> usize {
    if off > s.len() {
        0
    } else {
        (s.len() - off) as usize
    }
}

/// What `Metadata::parse_bytes` returns for a given image: each stage's
/// outcome in order — header, program header table, raw section header
/// table, string-table lookup, name resolution — with a range check before
/// each table is cut from the image.
pub open spec fn spec_parse_metadata(s: Seq<u8>, r: Result<Metadata, ParseError>) -> bool {
    match spec_parse_header(s) {
        Err(e) => r == Err::<Metadata, ParseError>(e),
        Ok(h) => {
            let ph_off = h.program_header_start.spec_value() as int;
            let ph_total = (h.pheader_entries as int) * (h.pheader_entry_size as int);
            if ph_off + ph_total > s.len() {
                r == Err::<Metadata, ParseError>(
                    ParseError::InsufficientProgramHeaderLength(spec_avail(s, ph_off)),
                )
            } else {
                match spec_parse_ph_table(
                    s.subrange(ph_off, ph_off + ph_total),
                    h,
                    h.pheader_entries as int,
                ) {
                    Err(e) => r == Err::<Metadata, ParseError>(e),
                    Ok(phs) => spec_parse_metadata_sections(s, r, h, phs),
                }
            }
        },
    }
}

/// The section-table half of [`spec_parse_metadata`], reached once the
/// header and the program headers have decoded.
pub open spec fn spec_parse_metadata_sections(
    s: Seq<u8>,
    r: Result<Metadata, ParseError>,
    h: Header,
    phs: Seq<ProgramHeader>,
) -> bool {
    let sh_off = h.section_header_start.spec_value() as int;
    let sh_total = (h.sheader_entries as int) * (h.sheader_entry_size as int);
    if sh_off + sh_total > s.len() {
        r == Err::<Metadata, ParseError>(
            ParseError::InsufficientSectionHeaderLength(spec_avail(s, sh_off)),
        )
    } else {
        match spec_parse_sh_table(s.subrange(sh_off, sh_off + sh_total), h, h.sheader_entries as int) {
            Err(e) => r == Err::<Metadata, ParseError>(e),
            Ok(shs) => match spec_strtab(h, shs) {
                Err(e) => r == Err::<Metadata, ParseError>(e),
                Ok(None) => r matches Ok(m) && m.header == h && m.program_headers@ == phs
                    && m.section_headers@.len() == 0,
                Ok(Some(st)) => {
                    let st_off = st.offset.spec_value() as int;
                    let st_len = st.size.spec_value() as int;
                    if st_off + st_len > s.len() {
                        r == Err::<Metadata, ParseError>(
                            ParseError::InsufficientLength(spec_avail(s, st_off)),
                        )
                    } else {
                        let table = s.subrange(st_off, st_off + st_len);
                        match spec_first_resolve_err(shs, table, shs.len() as int) {
                            Some(e) => r == Err::<Metadata, ParseError>(e),
                            None => r matches Ok(m) && m.header == h && m.program_headers@ == phs
                                && m.section_headers@.len() == shs.len() && (forall|k: int|
                                0 <= k < shs.len() ==> spec_resolves_to(
                                    shs[k],
                                    table,
                                    #[trigger] m.section_headers@[k],
                                )),
                        }
                    }
                },
            },
        }
    }
}

/// Law: a program header table of `n` entries that decodes clean holds
/// exactly `n` entries, in on-disk order — the entry at index `i` is the one
/// decoded at the `i`-th stride of the buffer.
pub proof fn lemma_ph_table_shape(s: Seq<u8>, h: Header, n: int)
    requires
        n >= 0,
        spec_parse_ph_table(s, h, n) is Ok,
    ensures
        spec_parse_ph_table(s, h, n)->Ok_0.len() == n,
        forall|i: int|
            0 <= i < n ==> #[trigger] spec_parse_ph_table(s, h, n)->Ok_0[i]
                == spec_parse_program_header(
                s.subrange(i * (h.pheader_entry_size as int), s.len() as int),
                h.word_width,
                h.endianness,
            )->Ok_0,
    decreases n,
{
    if n > 0 {
        lemma_ph_table_shape(s, h, n - 1);
    }
}

/// Law: a section header table of `n` entries that decodes clean holds
/// exactly `n` entries, in on-disk order — the entry at index `i` is the one
/// decoded at the `i`-th stride of the buffer.
pub proof fn lemma_sh_table_shape(s: Seq<u8>, h: Header, n: int)
    requires
        n >= 0,
        spec_parse_sh_table(s, h, n) is Ok,
    ensures
        spec_parse_sh_table(s, h, n)->Ok_0.len() == n,
        forall|i: int|
            0 <= i < n ==> #[trigger] spec_parse_sh_table(s, h, n)->Ok_0[i]
                == spec_parse_section_header(
                s.subrange(i * (h.sheader_entry_size as int), s.len() as int),
                h.word_width,
                h.endianness,
            )->Ok_0,
    decreases n,
{
    if n > 0 {
        lemma_sh_table_shape(s, h, n - 1);
    }
}

/// A prefix of the table decodes clean and entry `i` fails: then the whole
/// table of `n` entries fails with entry `i`'s error.
proof fn lemma_ph_table_first_error(s: Seq<u8>, h: Header, i: int, n: int, e: ParseError)
    requires
        0 <= i < n,
        spec_parse_ph_table(s, h, i) is Ok,
        spec_parse_program_header(
            s.subrange(i * (h.pheader_entry_size as int), s.len() as int),
            h.word_width,
            h.endianness,
        ) == Err::<ProgramHeader, ParseError>(e),
    ensures
        spec_parse_ph_table(s, h, n) == Err::<Seq<ProgramHeader>, ParseError>(e),
    decreases n,
{
    if n - 1 > i {
        lemma_ph_table_first_error(s, h, i, n - 1, e);
    }
}

/// A prefix of the table decodes clean and entry `i` fails: then the whole
/// table of `n` entries fails with entry `i`'s error.
proof fn lemma_sh_table_first_error(s: Seq<u8>, h: Header, i: int, n: int, e: ParseError)
    requires
        0 <= i < n,
        spec_parse_sh_table(s, h, i) is Ok,
        spec_parse_section_header(
            s.subrange(i * (h.sheader_entry_size as int), s.len() as int),
            h.word_width,
            h.endianness,
        ) == Err::<UnnamedSectionHeader, ParseError>(e),
    ensures
        spec_parse_sh_table(s, h, n) == Err::<Seq<UnnamedSectionHeader>, ParseError>(e),
    decreases n,
{
    if n - 1 > i {
        lemma_sh_table_first_error(s, h, i, n - 1, e);
    }
}

/// Entries before `i` resolve clean and entry `i` fails: then resolving all
/// `n` names fails with entry `i`'s error.
proof fn lemma_first_resolve_err(
    us: Seq<UnnamedSectionHeader>,
    table: Seq<u8>,
    i: int,
    n: int,
    e: ParseError,
)
    requires
        0 <= i < n <= us.len(),
        spec_first_resolve_err(us, table, i) is None,
        spec_resolve_err(us[i], table) == Some(e),
    ensures
        spec_first_resolve_err(us, table, n) == Some(e),
    decreases n,
{
    if n - 1 > i {
        lemma_first_resolve_err(us, table, i, n - 1, e);
    }
}

impl Metadata {
    /// Assembles a metadata value from its three parts.
    pub fn new(
        header: Header,
        program_headers: Vec<ProgramHeader>,
        section_headers: Vec<SectionHeader>,
    ) -> (r: Metadata)
        ensures
            r.header == header,
            r.program_headers@ == program_headers@,
            r.section_headers@ == section_headers@,
    {
        Metadata { header, program_headers, section_headers }
    }

    pub fn header(&self) -> (r: &Header)
        ensures
            *r == self.header,
    {
        &self.header
    }

    pub fn program_headers(&self) -> (r: &[ProgramHeader])
        ensures
            r@ == self.program_headers@,
    {
        self.program_headers.as_slice()
    }

    pub fn section_headers(&self) -> (r: &[SectionHeader])
        ensures
            r@ == self.section_headers@,
    {
        self.section_headers.as_slice()
    }

    /// Decodes `pheader_entries` program headers at `pheader_entry_size`
    /// strides from a buffer that holds the whole table.
    pub fn parse_program_headers(header: &Header, raw_pheaders: &[u8]) -> (r: Result<
        Vec<ProgramHeader>,
        ParseError,
    >)
        requires
            raw_pheaders@.len() >= (header.pheader_entries as int) * (
            header.pheader_entry_size as int),
        ensures
            ({
                let t = spec_parse_ph_table(
                    raw_pheaders@,
                    *header,
                    header.pheader_entries as int,
                );
                match r {
                    Ok(v) => t == Ok::<Seq<ProgramHeader>, ParseError>(v@) && v@.len()
                        == header.pheader_entries as int,
                    Err(e) => t == Err::<Seq<ProgramHeader>, ParseError>(e),
                }
            }),
    {
        let count = header.pheader_entries;
        let esize = header.pheader_entry_size;
        let m = raw_pheaders.len();
        let mut result: Vec<ProgramHeader> = Vec::new();
        let mut i: usize = 0;
        while i < count as usize
            invariant
                i <= count as usize,
                count == header.pheader_entries,
                esize == header.pheader_entry_size,
                m == raw_pheaders@.len(),
                raw_pheaders@.len() >= (count as int) * (esize as int),
                result@.len() == i as int,
                spec_parse_ph_table(raw_pheaders@, *header, i as int) == Ok::<
                    Seq<ProgramHeader>,
                    ParseError,
                >(result@),
            decreases count as int - i,
        {
            proof {
                vstd::arithmetic::mul::lemma_mul_inequality(
                    i as int,
                    count as int,
                    esize as int,
                );
                assert((i as int) * (esize as int) <= m as int);
            }
            let off = i * esize as usize;
            let tail = vstd::slice::slice_subrange(raw_pheaders, off, m);
            match ProgramHeader::parse_bytes(tail, header.word_width, header.endianness) {
                Err(e) => {
                    proof {
                        lemma_ph_table_first_error(
                            raw_pheaders@,
                            *header,
                            i as int,
                            count as int,
                            e,
                        );
                    }
                    return Err(e);
                },
                Ok(ph) => {
                    result.push(ph);
                },
            }
            i = i + 1;
        }
        Ok(result)
    }

    /// Decodes `sheader_entries` raw section headers at
    /// `sheader_entry_size` strides from a buffer that holds the whole
    /// table.
    pub fn parse_section_headers(header: &Header, raw_sheaders: &[u8]) -> (r: Result<
        Vec<UnnamedSectionHeader>,
        ParseError,
    >)
        requires
            raw_sheaders@.len() >= (header.sheader_entries as int) * (
            header.sheader_entry_size as int),
        ensures
            ({
                let t = spec_parse_sh_table(
                    raw_sheaders@,
                    *header,
                    header.sheader_entries as int,
                );
                match r {
                    Ok(v) => t == Ok::<Seq<UnnamedSectionHeader>, ParseError>(v@) && v@.len()
                        == header.sheader_entries as int,
                    Err(e) => t == Err::<Seq<UnnamedSectionHeader>, ParseError>(e),
                }
            }),
    {
        let count = header.sheader_entries;
        let esize = header.sheader_entry_size;
        let m = raw_sheaders.len();
        let mut result: Vec<UnnamedSectionHeader> = Vec::new();
        let mut i: usize = 0;
        while i < count as usize
            invariant
                i <= count as usize,
                count == header.sheader_entries,
                esize == header.sheader_entry_size,
                m == raw_sheaders@.len(),
                raw_sheaders@.len() >= (count as int) * (esize as int),
                result@.len() == i as int,
                spec_parse_sh_table(raw_sheaders@, *header, i as int) == Ok::<
                    Seq<UnnamedSectionHeader>,
                    ParseError,
                >(result@),
            decreases count as int - i,
        {
            proof {
                vstd::arithmetic::mul::lemma_mul_inequality(
                    i as int,
                    count as int,
                    esize as int,
                );
                assert((i as int) * (esize as int) <= m as int);
            }
            let off = i * esize as usize;
            let tail = vstd::slice::slice_subrange(raw_sheaders, off, m);
            match UnnamedSectionHeader::parse_bytes(tail, header.word_width, header.endianness) {
                Err(e) => {
                    proof {
                        lemma_sh_table_first_error(
                            raw_sheaders@,
                            *header,
                            i as int,
                            count as int,
                            e,
                        );
                    }
                    return Err(e);
                },
                Ok(sh) => {
                    result.push(sh);
                },
            }
            i = i + 1;
        }
        Ok(result)
    }

    /// Finds the string-table section named by the header. `None` when the
    /// index is out of range; an error when the entry there is not a string
    /// table.
    pub fn locate_string_table(
        header: &Header,
        unnamed: &Vec<UnnamedSectionHeader>,
    ) -> (r: Result<Option<UnnamedSectionHeader>, ParseError>)
        ensures
            r == spec_strtab(*header, unnamed@),
    {
        let idx = header.section_names_index as usize;
        if idx >= unnamed.len() {
            Ok(None)
        } else {
            let sec = unnamed[idx];
            if !(sec.typ == SectionHeaderType::StringTable) {
                Err(ParseError::InvalidSectionNameTableType(sec.typ))
            } else {
                Ok(Some(sec))
            }
        }
    }

    /// Resolves the name of every raw entry against the string-table bytes,
    /// keeping on-disk order; fails with the error of the lowest-indexed
    /// entry whose name does not resolve.
    pub fn resolve_section_names(
        unnamed: Vec<UnnamedSectionHeader>,
        names_table: &[u8],
    ) -> (r: Result<Vec<SectionHeader>, ParseError>)
        ensures
            match spec_first_resolve_err(unnamed@, names_table@, unnamed@.len() as int) {
                Option::Some(e) => r == Err::<Vec<SectionHeader>, ParseError>(e),
                Option::None => r matches Ok(v) && v@.len() == unnamed@.len() && (forall|k: int|
                    0 <= k < unnamed@.len() ==> spec_resolves_to(
                        unnamed@[k],
                        names_table@,
                        #[trigger] v@[k],
                    )),
            },
    {
        let n = unnamed.len();
        let mut result: Vec<SectionHeader> = Vec::new();
        let mut i: usize = 0;
        while i < n
            invariant
                i <= n,
                n == unnamed@.len(),
                result@.len() == i as int,
                spec_first_resolve_err(unnamed@, names_table@, i as int) is None,
                forall|k: int|
                    0 <= k < i as int ==> spec_resolves_to(
                        unnamed@[k],
                        names_table@,
                        #[trigger] result@[k],
                    ),
            decreases n - i,
        {
            let u = unnamed[i];
            match u.to_named(names_table) {
                Err(e) => {
                    proof {
                        lemma_first_resolve_err(unnamed@, names_table@, i as int, n as int, e);
                    }
                    return Err(e);
                },
                Ok(sh) => {
                    result.push(sh);
                },
            }
            i = i + 1;
        }
        Ok(result)
    }

    /// Decodes the whole metadata out of one in-memory image of the file:
    /// header, program header table, section header table, section names.
    /// A table whose declared range runs past the image is rejected as
    /// insufficient, with the bytes that were available from its offset.
    pub fn parse_bytes(bytes: &[u8]) -> (r: Result<Metadata, ParseError>)
        ensures
            spec_parse_metadata(bytes@, r),
    {
        let n = bytes.len();
        let header = match Header::parse_bytes(bytes) {
            Err(e) => {
                return Err(e);
            },
            Ok(h) => h,
        };

        let ph_off64 = header.program_header_start.to_u64();
        proof {
            assert((header.pheader_entries as int) * (header.pheader_entry_size as int)
                <= 0xFFFF * 0xFFFF) by (nonlinear_arith)
                requires
                    0 <= header.pheader_entries as int <= 0xFFFF,
                    0 <= header.pheader_entry_size as int <= 0xFFFF,
            ;
        }
        let ph_total = (header.pheader_entries as usize) * (header.pheader_entry_size as usize);
        let ph_avail: usize = if ph_off64 > n as u64 {
            0
        } else {
            n - (ph_off64 as usize)
        };
        if ph_off64 > n as u64 || ph_total > ph_avail {
            return Err(ParseError::InsufficientProgramHeaderLength(ph_avail));
        }
        let ph_off = ph_off64 as usize;
        let ph_buf = vstd::slice::slice_subrange(bytes, ph_off, ph_off + ph_total);
        let program_headers = match Metadata::parse_program_headers(&header, ph_buf) {
            Err(e) => {
                return Err(e);
            },
            Ok(v) => v,
        };

        let sh_off64 = header.section_header_start.to_u64();
        proof {
            assert((header.sheader_entries as int) * (header.sheader_entry_size as int)
                <= 0xFFFF * 0xFFFF) by (nonlinear_arith)
                requires
                    0 <= header.sheader_entries as int <= 0xFFFF,
                    0 <= header.sheader_entry_size as int <= 0xFFFF,
            ;
        }
        let sh_total = (header.sheader_entries as usize) * (header.sheader_entry_size as usize);
        let sh_avail: usize = if sh_off64 > n as u64 {
            0
        } else {
            n - (sh_off64 as usize)
        };
        if sh_off64 > n as u64 || sh_total > sh_avail {
            return Err(ParseError::InsufficientSectionHeaderLength(sh_avail));
        }
        let sh_off = sh_off64 as usize;
        let sh_buf = vstd::slice::slice_subrange(bytes, sh_off, sh_off + sh_total);
        let unnamed = match Metadata::parse_section_headers(&header, sh_buf) {
            Err(e) => {
                return Err(e);
            },
            Ok(v) => v,
        };

        let strtab = match Metadata::locate_string_table(&header, &unnamed) {
            Err(e) => {
                return Err(e);
            },
            Ok(o) => o,
        };
        match strtab {
            Option::None => Ok(Metadata::new(header, program_headers, Vec::new())),
            Option::Some(st) => {
                let st_off64 = st.offset.to_u64();
                let st_len64 = st.size.to_u64();
                let st_avail: usize = if st_off64 > n as u64 {
                    0
                } else {
                    n - (st_off64 as usize)
                };
                if st_off64 > n as u64 || st_len64 > st_avail as u64 {
                    return Err(ParseError::InsufficientLength(st_avail));
                }
                let st_off = st_off64 as usize;
                let st_len = st_len64 as usize;
                let table = vstd::slice::slice_subrange(bytes, st_off, st_off + st_len);
                match Metadata::resolve_section_names(unnamed, table) {
                    Err(e) => Err(e),
                    Ok(section_headers) => Ok(
                        Metadata::new(header, program_headers, section_headers),
                    ),
                }
            },
        }
    }
}

} // verus!
