use vstd::prelude::*;

use crate::bfd::Bfd;
use crate::FilePtr;
use crate::Flagword;
use crate::SizeType;
use crate::Vma;

verus! {

/// One section header as the object-file library reports it, with the index
/// of the following header in the file's list.
pub struct SectionRecord {
    pub name: String,
    pub id: u32,
    pub flags: Flagword,
    pub vma: Vma,
    pub lma: Vma,
    pub size: SizeType,
    pub rawsize: SizeType,
    pub compressed_size: SizeType,
    /// File offset of the contents; `NO_FILE_POS` where there are none.
    pub filepos: FilePtr,
    /// File offset of the relocation table; `NO_FILE_POS` where there is none.
    pub rel_filepos: FilePtr,
    /// File offset of the line-number table; `NO_FILE_POS` where there is none.
    pub line_filepos: FilePtr,
    pub next: Option<usize>,
}

/// Whether the bitset `flags` holds any bit of `mask`.
pub open spec fn flag_set(flags: Flagword, mask: Flagword) -> bool {
    flags & mask != 0
}

/// Testing a bitset restricted to a mask answers as testing the whole bitset:
/// a flag test asked again of its own result does not change.
pub proof fn lemma_flag_test_idempotent(flags: Flagword, mask: Flagword)
    ensures
        flag_set(flags & mask, mask) == flag_set(flags, mask),
        (flags & mask) & mask == flags & mask,
{
    assert((flags & mask) & mask == flags & mask) by (bit_vector);
}

/// A read-only view of one section of an opened file, valid while the file is.
pub struct Section<'a> {
    bfd: &'a Bfd,
    raw: usize,
}

impl<'a> Section<'a> {
    #[verifier::type_invariant]
    spec fn inv(&self) -> bool {
        self.raw < self.bfd.spec_image().nodes@.len()
    }

    /// The file the view belongs to.
    pub closed spec fn spec_owner(&self) -> Bfd {
        *self.bfd
    }

    /// The index of the viewed node in the file's section table.
    pub closed spec fn spec_index(&self) -> usize {
        self.raw
    }

    /// The viewed section header.
    pub open spec fn spec_record(&self) -> SectionRecord {
        self.spec_owner().spec_image().nodes@[self.spec_index() as int]
    }

    /// A view of node `raw` of `bfd`; no view where `raw` is the end of a list.
    pub fn from_raw(raw: Option<usize>, bfd: &'a Bfd) -> (r: Option<Section<'a>>)
        requires
            raw matches Some(i) ==> i < bfd.spec_image().nodes@.len(),
        ensures
            r is None <==> raw is None,
            r matches Some(s) ==> s.spec_index() == raw.unwrap() && s.spec_owner() == *bfd,
    {
        match raw {
            None => None,
            Some(i) => Some(Section { bfd, raw: i }),
        }
    }

    /// The following section in file order, if any.
    pub fn next(&self) -> (r: Option<Section<'a>>)
        ensures
            r is None <==> self.spec_record().next is None,
            r matches Some(s) ==> Some(s.spec_index()) == self.spec_record().next
                && s.spec_owner() == self.spec_owner(),
    {
        proof {
            use_type_invariant(self);
        }
        let next = self.bfd.node(self.raw).next;
        Section::from_raw(next, self.bfd)
    }

    fn record(&self) -> (r: &SectionRecord)
        ensures
            *r == self.spec_record(),
    {
        proof {
            use_type_invariant(self);
        }
        self.bfd.node(self.raw)
    }

    pub fn name(&self) -> (r: String)
        ensures
            r@ == self.spec_record().name@,
    {
        self.record().name.clone()
    }

    pub fn id(&self) -> (r: u32)
        ensures
            r == self.spec_record().id,
    {
        self.record().id
    }

    pub fn flags(&self) -> (r: Flagword)
        ensures
            r == self.spec_record().flags,
    {
        self.record().flags
    }

    /// Whether the section carries any flag of `mask` (such as `SEC_CODE`).
    pub fn has_flag(&self, mask: Flagword) -> (r: bool)
        ensures
            r == flag_set(self.spec_record().flags, mask),
    {
        self.record().flags & mask != 0
    }

    pub fn vma(&self) -> (r: Vma)
        ensures
            r == self.spec_record().vma,
    {
        self.record().vma
    }

    pub fn lma(&self) -> (r: Vma)
        ensures
            r == self.spec_record().lma,
    {
        self.record().lma
    }

    pub fn size(&self) -> (r: SizeType)
        ensures
            r == self.spec_record().size,
    {
        self.record().size
    }

    pub fn rawsize(&self) -> (r: SizeType)
        ensures
            r == self.spec_record().rawsize,
    {
        self.record().rawsize
    }

    pub fn compressed_size(&self) -> (r: SizeType)
        ensures
            r == self.spec_record().compressed_size,
    {
        self.record().compressed_size
    }

    pub fn filepos(&self) -> (r: FilePtr)
        ensures
            r == self.spec_record().filepos,
    {
        self.record().filepos
    }

    pub fn rel_filepos(&self) -> (r: FilePtr)
        ensures
            r == self.spec_record().rel_filepos,
    {
        self.record().rel_filepos
    }

    pub fn line_filepos(&self) -> (r: FilePtr)
        ensures
            r == self.spec_record().line_filepos,
    {
        self.record().line_filepos
    }
}

/// `r` is what `sections` returns for `b`: a view of each section of the
/// list, in file order.
pub open spec fn is_section_list<'a>(b: &'a Bfd, r: Seq<Section<'a>>) -> bool {
    &&& r.len() == b.spec_chain().len()
    &&& forall|j: int|
        0 <= j < r.len() ==> (#[trigger] r[j]).spec_index() == b.spec_chain()[j]
            && r[j].spec_owner() == *b
}

/// Two walks of the section list of one file give the same views in the same
/// order.
pub proof fn lemma_sections_repeatable<'a>(b: &'a Bfd, r1: Seq<Section<'a>>, r2: Seq<Section<'a>>)
    requires
        is_section_list(b, r1),
        is_section_list(b, r2),
    ensures
        r1 == r2,
{
    assert forall|j: int| 0 <= j < r1.len() implies r1[j] == r2[j] by {
        assert(r1[j].spec_index() == r2[j].spec_index());
    }
    assert(r1 =~= r2);
}

} // verus!
