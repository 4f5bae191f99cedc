use vstd::prelude::*;

pub mod arch;
pub mod bfd;
pub mod error;
pub mod open;
pub mod section;

pub use arch::Arch;
pub use arch::ArchInfo;
pub use arch::ArchRecord;
pub use bfd::Bfd;
pub use bfd::BfdImage;
pub use bfd::Endian;
pub use bfd::Format;
pub use error::BfdError;
pub use error::BfdErrorType;
pub use open::OpenAction;
pub use open::OpenEvent;
pub use open::OpenStage;
pub use section::Section;
pub use section::SectionRecord;

verus! {

pub type Vma = u64;
pub type SignedVma = i64;
pub type SizeType = u64;
pub type FilePtr = i64;
pub type Flagword = u32;

/// Section flag bits.
pub const SEC_NO_FLAGS: Flagword = 0x000;
pub const SEC_ALLOC: Flagword = 0x001;
pub const SEC_LOAD: Flagword = 0x002;
pub const SEC_RELOC: Flagword = 0x004;
pub const SEC_READONLY: Flagword = 0x008;
pub const SEC_CODE: Flagword = 0x010;
pub const SEC_DATA: Flagword = 0x020;
pub const SEC_ROM: Flagword = 0x040;

/// The file offset that stands for "no such data" in a section header.
pub const NO_FILE_POS: FilePtr = 0;

} // verus!
