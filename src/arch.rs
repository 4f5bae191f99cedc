use vstd::prelude::*;

use crate::bfd::Bfd;

verus! {

#[derive(Clone, Copy, Debug, PartialEq, Eq, Structural)]
pub enum Arch {
    Unknown,
}

/// The architecture descriptor of an opened file, as plain values.
pub struct ArchRecord {
    /// Family name, such as `i386`.
    pub arch_name: String,
    /// Family and machine as the library prints them, such as `i386:x86-64`.
    pub printable_arch_mach: String,
    pub bits_per_word: i32,
    pub bits_per_address: i32,
    pub bits_per_byte: i32,
    pub mach: u64,
    pub section_align_power: u32,
}

/// A read-only view of a file's architecture, valid while the file is.
pub struct ArchInfo<'a> {
    parent: &'a Bfd,
}

impl<'a> ArchInfo<'a> {
    /// The file the view belongs to.
    pub closed spec fn spec_owner(&self) -> Bfd {
        *self.parent
    }

    /// The viewed descriptor.
    pub open spec fn spec_record(&self) -> ArchRecord {
        self.spec_owner().spec_image().arch
    }

    pub fn from_raw_bfd(raw: &'a Bfd) -> (r: ArchInfo<'a>)
        ensures
            r.spec_owner() == *raw,
    {
        ArchInfo { parent: raw }
    }

    pub fn printable_arch_mach(&self) -> (r: String)
        ensures
            r@ == self.spec_record().printable_arch_mach@,
    {
        self.parent.arch_record().printable_arch_mach.clone()
    }

    pub fn arch_name(&self) -> (r: String)
        ensures
            r@ == self.spec_record().arch_name@,
    {
        self.parent.arch_record().arch_name.clone()
    }

    pub fn bits_per_word(&self) -> (r: i32)
        ensures
            r == self.spec_record().bits_per_word,
    {
        self.parent.arch_record().bits_per_word
    }

    pub fn bits_per_address(&self) -> (r: i32)
        ensures
            r == self.spec_record().bits_per_address,
    {
        self.parent.arch_record().bits_per_address
    }

    pub fn bits_per_byte(&self) -> (r: i32)
        ensures
            r == self.spec_record().bits_per_byte,
    {
        self.parent.arch_record().bits_per_byte
    }

    pub fn mach(&self) -> (r: u64)
        ensures
            r == self.spec_record().mach,
    {
        self.parent.arch_record().mach
    }

    pub fn section_align_power(&self) -> (r: u32)
        ensures
            r == self.spec_record().section_align_power,
    {
        self.parent.arch_record().section_align_power
    }
}

} // verus!
