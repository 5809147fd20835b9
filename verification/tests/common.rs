use elfreader::Abi;
use elfreader::Arch;
use elfreader::Endianness;
use elfreader::FileType;
use elfreader::ParseError;
use elfreader::Word;
use elfreader::WordWidth;

#[test]
fn common_test_file_type_ok() {
    let test_data = [
        ([0x00, 0x00], Endianness::Little, FileType::NoType),
        ([0x00, 0x00], Endianness::Big, FileType::NoType),
        ([0x01, 0x00], Endianness::Little, FileType::Relocatable),
        ([0x00, 0x01], Endianness::Big, FileType::Relocatable),
        ([0x02, 0x00], Endianness::Little, FileType::Executable),
        ([0x00, 0x02], Endianness::Big, FileType::Executable),
        ([0x03, 0x00], Endianness::Little, FileType::Shared),
        ([0x00, 0x03], Endianness::Big, FileType::Shared),
        ([0x04, 0x00], Endianness::Little, FileType::Core),
        ([0x00, 0x04], Endianness::Big, FileType::Core),
        ([0x9D, 0xFF], Endianness::Little, FileType::Specific(0xFF9D)),
        ([0xFF, 0x9D], Endianness::Big, FileType::Specific(0xFF9D)),
    ];
    for (data, endianness, expected) in test_data.iter() {
        assert_eq!(FileType::parse_bytes(data, *endianness), Ok(*expected));
    }
}

#[test]
fn common_test_file_type_err() {
    let test_data = [
        (
            [0xE3, 0xE3],
            Endianness::Little,
            ParseError::InvalidFileType(0xE3E3),
        ),
        (
            [0xFF, 0xFE],
            Endianness::Little,
            ParseError::InvalidFileType(0xFEFF),
        ),
        (
            [0xFE, 0xFF],
            Endianness::Big,
            ParseError::InvalidFileType(0xFEFF),
        ),
    ];
    for (data, endianness, expected) in test_data.iter() {
        assert_eq!(
            FileType::parse_bytes(data, *endianness),
            Err(expected.clone())
        );
    }
}

#[test]
fn common_test_word_width_ok() {
    let test_data = [(0x01, WordWidth::Width32), (0x02, WordWidth::Width64)];
    for (byte, expected) in test_data.iter() {
        assert_eq!(WordWidth::parse_byte(*byte), Ok(*expected));
    }
}

#[test]
fn common_test_word_width_err() {
    let test_data = [0x00, 0x03, 0xFF, 0x3D];
    for &byte in test_data.iter() {
        assert_eq!(
            WordWidth::parse_byte(byte),
            Err(ParseError::InvalidWordWidth(byte))
        );
    }
}

#[test]
fn common_test_endianness_ok() {
    let test_data = [(0x01, Endianness::Little), (0x02, Endianness::Big)];
    for (byte, expected) in test_data.iter() {
        assert_eq!(Endianness::parse_byte(*byte), Ok(*expected));
    }
}

#[test]
fn common_test_endianness_err() {
    let test_data = [0x00, 0x03, 0xFF, 0x3D];
    for &byte in test_data.iter() {
        assert_eq!(
            Endianness::parse_byte(byte),
            Err(ParseError::InvalidEndianness(byte))
        );
    }
}

#[test]
fn common_test_abi() {
    let test_data = [
        Abi::SysV,
        Abi::HpUx,
        Abi::NetBSD,
        Abi::Linux,
        Abi::GnuHurd,
        Abi::Unknown,
        Abi::Solaris,
        Abi::Aix,
        Abi::Irix,
        Abi::FreeBSD,
        Abi::Tru64,
        Abi::NovellModesto,
        Abi::OpenBSD,
        Abi::OpenVMS,
        Abi::NonStopKernel,
        Abi::Aros,
        Abi::FenixOS,
        Abi::CloudABI,
        Abi::OpenVOS,
        Abi::Unknown,
    ];
    for (i, expected) in test_data.iter().enumerate() {
        assert_eq!(Abi::from_byte(i as u8), *expected);
    }
}

#[test]
fn common_test_arch_ok() {
    let test_data = [
        (0x0000_u16, Arch::Unspecified),
        (0x0001, Arch::WE32100),
        (0x0002, Arch::Sparc),
        (0x0003, Arch::X86),
        (0x0004, Arch::M68k),
        (0x0005, Arch::M88k),
        (0x0006, Arch::IntelMCU),
        (0x0007, Arch::Intel80860),
        (0x0008, Arch::MIPS),
        (0x0009, Arch::System370),
        (0x000A, Arch::RS3000),
        (0x000E, Arch::PARISC),
        (0x0013, Arch::Intel80960),
        (0x0014, Arch::PowerPC),
        (0x0015, Arch::PowerPC64),
        (0x0016, Arch::S390),
        (0x0028, Arch::ARM),
        (0x002A, Arch::SuperH),
        (0x0032, Arch::IA64),
        (0x003E, Arch::X86_64),
        (0x008C, Arch::TMS320C6000),
        (0x00B7, Arch::AArch64),
        (0x00F3, Arch::RISCV),
        (0x00F7, Arch::BPF),
        (0x0101, Arch::WDC65C816),
        (0x0102, Arch::Unknown),
        (0xFFFF, Arch::Unknown),
    ];
    for (code, expected) in test_data.iter() {
        let bytes = code.to_le_bytes();
        assert_eq!(Arch::parse_bytes(&bytes, Endianness::Little), Ok(*expected));
    }
}

#[test]
fn common_test_arch_err() {
    let test_data = [0x01_u8];
    assert_eq!(
        Arch::parse_bytes(&test_data, Endianness::Little),
        Err(ParseError::InsufficientLength(1))
    );
    assert_eq!(
        Arch::parse_bytes(&test_data, Endianness::Big),
        Err(ParseError::InsufficientLength(1))
    );
}

#[test]
fn common_test_word_ok() {
    let test_data = [
        (
            [0x00, 0x00, 0x00, 0x00, 0x00, 0x00, 0x00, 0x00],
            WordWidth::Width64,
            Endianness::Little,
            Word::Word64(0),
        ),
        (
            [0x10, 0x00, 0x00, 0x00, 0x00, 0x00, 0x00, 0x00],
            WordWidth::Width32,
            Endianness::Little,
            Word::Word32(0x00000010),
        ),
        (
            [0xFF, 0x3E, 0x00, 0x00, 0x10, 0x20, 0x00, 0x00],
            WordWidth::Width64,
            Endianness::Big,
            Word::Word64(0xFF3E000010200000),
        ),
        (
            [0xFF, 0x3E, 0x00, 0x00, 0x10, 0x20, 0x00, 0x00],
            WordWidth::Width32,
            Endianness::Big,
            Word::Word32(0xFF3E0000),
        ),
    ];

    for (bytes, width, endianness, expected) in test_data.iter() {
        let result = Word::parse_bytes(bytes, *width, *endianness);
        assert!(result.is_ok());
        let result = result.expect("checked is_ok()");
        assert_eq!(result, *expected);
    }
}
