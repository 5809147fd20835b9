//! Decoding of ELF object-file metadata: the file header, the program header
//! table, and the section header table with resolved names.
//!
//! Everything is decoded from in-memory byte slices; opening and reading files
//! is left to the caller.

pub mod bytes;
pub mod common;
pub mod header;
pub mod metadata;
pub mod program_header;
pub mod section_header;

pub use common::Abi;
pub use common::Arch;
pub use common::Endianness;
pub use common::FileType;
pub use common::ParseError;
pub use common::Word;
pub use common::WordWidth;
pub use header::Header;
pub use metadata::Metadata;
pub use program_header::ProgramHeader;
pub use program_header::ProgramHeaderSegmentType;
pub use section_header::SectionHeader;
pub use section_header::SectionHeaderFlags;
pub use section_header::SectionHeaderType;
pub use section_header::UnnamedSectionHeader;
