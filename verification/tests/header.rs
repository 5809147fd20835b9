use elfreader::Abi;
use elfreader::Arch;
use elfreader::Endianness;
use elfreader::FileType;
use elfreader::Header;
use elfreader::ParseError;
use elfreader::Word;
use elfreader::WordWidth;

fn valid_header_data_32() -> [u8; 52] {
    [
        // magic
        0x7F, 0x45, 0x4C, 0x46, // word width
        0x01, // 32-bit
        // endianness
        0x01, // little
        // header version
        0x01, // OS ABI
        0x03, // Linux
        // ABI version
        0x01, // padding
        0x00, 0x00, 0x00, 0x00, 0x00, 0x00, 0x00, // file type
        0x02, 0x00, // executable
        // arch
        0x3E, 0x00, // x86_64
        // version
        0x01, 0xFF, 0x00, 0x00, // entry point
        0x00, 0x00, 0x00, 0xF0, // program header start
        0x34, 0x00, 0x00, 0x00, // section header start
        0x00, 0x00, 0x30, 0x00, // flags
        0x4F, 0xF1, 0x97, 0xC4, // header size
        0x34, 0x00, // program header entry size
        0x20, 0x00, // program header entry count
        0x01, 0x00, // section header entry size
        0x10, 0x00, // section header entry count
        0x00, 0x01, // section names index
        0x30, 0x00,
    ]
}

fn valid_header_data_64() -> [u8; 64] {
    [
        // magic
        0x7F, 0x45, 0x4C, 0x46, // word width
        0x02, // 64-bit
        // endianness
        0x01, // little
        // header version
        0x01, // OS ABI
        0x03, // Linux
        // ABI version
        0x01, // padding
        0x00, 0x00, 0x00, 0x00, 0x00, 0x00, 0x00, // file type
        0x02, 0x00, // executable
        // arch
        0x3E, 0x00, // x86_64
        // version
        0x01, 0xFF, 0x00, 0x00, // entry point
        0x00, 0x00, 0x00, 0x00, 0x80, 0x00, 0x00, 0x00, // program header start
        0x40, 0x00, 0x00, 0x00, 0x00, 0x00, 0x00, 0x00, // section header start
        0x00, 0x00, 0x00, 0x80, 0x00, 0x00, 0x00, 0x00, // flags
        0xFF, 0x3A, 0x10, 0x57, // header size
        0x40, 0x00, // program header entry size
        0x38, 0x00, // program header entry count
        0x01, 0x00, // section header entry size
        0x00, 0x80, // section header entry count
        0x40, 0x00, // section names index
        0x2F, 0x00,
    ]
}

fn valid_header_32() -> Header {
    Header::minimal(WordWidth::Width32, Endianness::Little)
        .with_header_version(0x01)
        .with_abi(Abi::Linux)
        .with_abi_version(0x01)
        .with_file_type(FileType::Executable)
        .with_arch(Arch::X86_64)
        .with_version(0x0000FF01)
        .with_entry_point(Word::Word32(0xF0000000))
        .with_program_header_start(Word::Word32(0x00000034))
        .with_section_header_start(Word::Word32(0x00300000))
        .with_flags(0xC497F14F)
        .with_program_header_entry_size(0x0020)
        .with_program_header_entry_count(0x0001)
        .with_section_header_entry_size(0x0010)
        .with_section_header_entry_count(0x0100)
        .with_section_names_index(0x0030)
}

fn valid_header_64() -> Header {
    Header::minimal(WordWidth::Width64, Endianness::Little)
        .with_header_version(0x01)
        .with_abi(Abi::Linux)
        .with_abi_version(0x01)
        .with_file_type(FileType::Executable)
        .with_arch(Arch::X86_64)
        .with_version(0x0000FF01)
        .with_entry_point(Word::Word64(0x0000008000000000))
        .with_program_header_start(Word::Word64(0x0000000000000040))
        .with_section_header_start(Word::Word64(0x0000000080000000))
        .with_flags(0x57103AFF)
        .with_program_header_entry_size(0x0038)
        .with_program_header_entry_count(0x0001)
        .with_section_header_entry_size(0x8000)
        .with_section_header_entry_count(0x0040)
        .with_section_names_index(0x002F)
}

#[test]
fn header_test_valid_magic() {
    let test_data = [
        ([0x7F, 0x45, 0x4C, 0x46], true),
        ([0x7E, 0x45, 0x4C, 0x46], false),
        ([0x7F, 0x46, 0x4C, 0x46], false),
    ];
    for (bytes, expected) in test_data.iter() {
        assert_eq!(Header::check_magic(bytes).is_ok(), *expected);
    }
}

#[test]
fn header_test_header_32_ok() {
    let test_data = valid_header_data_32();
    let result = Header::parse_bytes(&test_data);
    assert_eq!(result, Ok(valid_header_32().clone()));
}

#[test]
fn header_test_header_64_ok() {
    let test_data = valid_header_data_64();
    let result = Header::parse_bytes(&test_data);
    assert_eq!(result, Ok(valid_header_64().clone()));
}

#[test]
fn header_test_header_err_slice_len() {
    let test_data = [];
    let result = Header::parse_bytes(&test_data);
    assert_eq!(result, Err(ParseError::InsufficientHeaderLength(0)));
}

#[test]
fn header_test_header_err_word32_len() {
    let data = valid_header_data_32();
    let test_data = &data[..50];
    let result = Header::parse_bytes(test_data);
    assert_eq!(result, Err(ParseError::InsufficientHeaderLength(50)));
}

#[test]
fn header_test_header_err_word64_len() {
    let data = valid_header_data_64();
    let test_data = &data[..55];
    let result = Header::parse_bytes(test_data);
    assert_eq!(result, Err(ParseError::InsufficientHeaderLength(55)));
}

#[test]
fn header_test_header_err_magic() {
    let mut test_data = valid_header_data_64().clone();
    test_data[2] = 0x4D;
    let result = Header::parse_bytes(&test_data);
    assert_eq!(result, Err(ParseError::NotELF(u32::to_le(0x464D457F))));
}

#[test]
fn header_test_header_err_word_width() {
    let mut test_data = valid_header_data_64().clone();
    test_data[4] = 0x03;
    let result = Header::parse_bytes(&test_data);
    assert_eq!(result, Err(ParseError::InvalidWordWidth(0x03)));
}

#[test]
fn header_test_header_err_endianness() {
    let mut test_data = valid_header_data_64().clone();
    test_data[5] = 0xFF;
    let result = Header::parse_bytes(&test_data);
    assert_eq!(result, Err(ParseError::InvalidEndianness(0xFF)));
}

#[test]
fn header_test_header_err_file_type() {
    let mut test_data = valid_header_data_64().clone();
    test_data[16] = 0x69;
    test_data[17] = 0x42;
    let result = Header::parse_bytes(&test_data);
    assert_eq!(result, Err(ParseError::InvalidFileType(u16::to_le(0x4269))));
}

#[test]
fn header_test_header_err_own_size() {
    let mut test_data = valid_header_data_32().clone();
    // own size claims 0x33 while the 32-bit layout implies 52 (0x34)
    test_data[40] = 0x33;
    let result = Header::parse_bytes(&test_data);
    assert_eq!(result, Err(ParseError::InvalidHeaderSize(0x0033)));
}

#[test]
fn header_test_header_size() {
    assert_eq!(valid_header_32().size(), 52);
    assert_eq!(valid_header_64().size(), 64);
}

#[test]
fn header_test_header_getters() {
    let header = valid_header_32();
    assert_eq!(header.word_width(), WordWidth::Width32);
    assert_eq!(header.endianness(), Endianness::Little);
    assert_eq!(header.header_version(), 0x01);
    assert_eq!(header.os_abi(), Abi::Linux);
    assert_eq!(header.abi_version(), 0x01);
    assert_eq!(header.file_type(), FileType::Executable);
    assert_eq!(header.arch(), Arch::X86_64);
    assert_eq!(header.version(), 0x0000FF01);
    assert_eq!(header.entry_point(), Word::Word32(0xF0000000));
    assert_eq!(header.program_header_start(), Word::Word32(0x00000034));
    assert_eq!(header.section_header_start(), Word::Word32(0x00300000));
    assert_eq!(header.flags(), 0xC497F14F);
    assert_eq!(header.program_header_entry_size(), 0x0020);
    assert_eq!(header.program_header_entry_count(), 0x0001);
    assert_eq!(header.section_header_entry_size(), 0x0010);
    assert_eq!(header.section_header_entry_count(), 0x0100);
    assert_eq!(header.section_names_index(), 0x0030);
}
