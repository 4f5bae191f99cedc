use vstd::prelude::*;

use crate::arch::ArchInfo;
use crate::arch::ArchRecord;
use crate::section::is_section_list;
use crate::section::Section;
use crate::section::SectionRecord;
use crate::Vma;

verus! {

/// Raw format codes of the object-file library.
pub const RAW_FORMAT_UNKNOWN: u32 = 0;
pub const RAW_FORMAT_OBJECT: u32 = 1;
pub const RAW_FORMAT_ARCHIVE: u32 = 2;
pub const RAW_FORMAT_CORE: u32 = 3;

/// Raw byte-order codes of the object-file library.
pub const RAW_ENDIAN_BIG: u32 = 0;
pub const RAW_ENDIAN_LITTLE: u32 = 1;
pub const RAW_ENDIAN_UNKNOWN: u32 = 2;

/// The coarse category of an object file.
#[derive(Clone, Copy, Debug, PartialEq, Eq, Structural)]
pub enum Format {
    Unknown,
    Object,
    Archive,
    Core,
}

/// The category named by a raw format code; unknown codes are `Unknown`.
pub open spec fn format_of_raw(raw: u32) -> Format {
    if raw == RAW_FORMAT_OBJECT {
        Format::Object
    } else if raw == RAW_FORMAT_ARCHIVE {
        Format::Archive
    } else if raw == RAW_FORMAT_CORE {
        Format::Core
    } else {
        Format::Unknown
    }
}

/// The raw code of a category.
pub open spec fn raw_of_format(f: Format) -> u32 {
    match f {
        Format::Unknown => RAW_FORMAT_UNKNOWN,
        Format::Object => RAW_FORMAT_OBJECT,
        Format::Archive => RAW_FORMAT_ARCHIVE,
        Format::Core => RAW_FORMAT_CORE,
    }
}

impl Format {
    pub fn from_raw(fmt: u32) -> (r: Format)
        ensures
            r == format_of_raw(fmt),
    {
        if fmt == RAW_FORMAT_OBJECT {
            Format::Object
        } else if fmt == RAW_FORMAT_ARCHIVE {
            Format::Archive
        } else if fmt == RAW_FORMAT_CORE {
            Format::Core
        } else {
            Format::Unknown
        }
    }

    pub fn to_raw(&self) -> (r: u32)
        ensures
            r == raw_of_format(*self),
    {
        match *self {
            Format::Unknown => RAW_FORMAT_UNKNOWN,
            Format::Object => RAW_FORMAT_OBJECT,
            Format::Archive => RAW_FORMAT_ARCHIVE,
            Format::Core => RAW_FORMAT_CORE,
        }
    }
}

/// A category turned into its raw code and back is the same category.
pub proof fn lemma_format_round_trip(f: Format)
    ensures
        format_of_raw(raw_of_format(f)) == f,
{
}

/// Byte order of a file's format.
#[derive(Clone, Copy, Debug, PartialEq, Eq, Structural)]
pub enum Endian {
    Unknown,
    Big,
    Little,
}

/// The byte order named by a raw byte-order code.
pub open spec fn endian_of(raw: u32) -> Endian {
    if raw == RAW_ENDIAN_BIG {
        Endian::Big
    } else if raw == RAW_ENDIAN_LITTLE {
        Endian::Little
    } else {
        Endian::Unknown
    }
}

/// The section list of an opened file, starting at `cur`, as the indices of
/// its nodes in file order; `None` where the list does not reach its end
/// within `fuel` steps or leaves the node table.
pub open spec fn chain(nodes: Seq<SectionRecord>, cur: Option<usize>, fuel: nat) -> Option<Seq<usize>>
    decreases fuel,
{
    match cur {
        None => Some(Seq::empty()),
        Some(i) => if fuel == 0 || i >= nodes.len() {
            None
        } else {
            match chain(nodes, nodes[i as int].next, (fuel - 1) as nat) {
                Some(rest) => Some(seq![i].add(rest)),
                None => None,
            }
        },
    }
}

/// `c` lists, in order, the nodes linked from `head` up to the end of the list.
pub open spec fn links(nodes: Seq<SectionRecord>, head: Option<usize>, c: Seq<usize>) -> bool {
    &&& (head is None <==> c.len() == 0)
    &&& (c.len() > 0 ==> head == Some(c[0]))
    &&& forall|j: int|
        0 <= j < c.len() ==> (#[trigger] c[j] as int) < nodes.len() && nodes[c[j] as int].next == (
        if j + 1 < c.len() {
            Some(c[j + 1])
        } else {
            None
        })
}

proof fn lemma_chain_links(nodes: Seq<SectionRecord>, cur: Option<usize>, fuel: nat)
    requires
        chain(nodes, cur, fuel) is Some,
    ensures
        links(nodes, cur, chain(nodes, cur, fuel).unwrap()),
    decreases fuel,
{
    if let Some(i) = cur {
        let next = nodes[i as int].next;
        lemma_chain_links(nodes, next, (fuel - 1) as nat);
        let rest = chain(nodes, next, (fuel - 1) as nat).unwrap();
        let c = seq![i].add(rest);
        assert forall|j: int| 0 <= j < c.len() implies (#[trigger] c[j] as int) < nodes.len()
            && nodes[c[j] as int].next == (if j + 1 < c.len() {
            Some(c[j + 1])
        } else {
            None
        }) by {
            if j > 0 {
                assert(c[j] == rest[j - 1]);
                if j + 1 < c.len() {
                    assert(c[j + 1] == rest[j]);
                }
            } else if c.len() > 1 {
                assert(c[1] == rest[0]);
            }
        }
    }
}

proof fn lemma_links_shift(
    nodes: Seq<SectionRecord>,
    head: Option<usize>,
    c: Seq<usize>,
    a: int,
    b: int,
    d: int,
)
    requires
        links(nodes, head, c),
        0 <= a < b,
        0 <= d,
        b + d < c.len(),
        c[a] == c[b],
    ensures
        c[a + d] == c[b + d],
    decreases d,
{
    if d > 0 {
        lemma_links_shift(nodes, head, c, a, b, d - 1);
        assert(nodes[c[a + d - 1] as int].next == Some(c[a + d]));
        assert(nodes[c[b + d - 1] as int].next == Some(c[b + d]));
    }
}

/// A list that reaches its end visits no node twice.
proof fn lemma_links_distinct(nodes: Seq<SectionRecord>, head: Option<usize>, c: Seq<usize>)
    requires
        links(nodes, head, c),
    ensures
        forall|a: int, b: int| 0 <= a < b < c.len() ==> #[trigger] c[a] != #[trigger] c[b],
{
    assert forall|a: int, b: int| 0 <= a < b < c.len() implies #[trigger] c[a] != #[trigger] c[b] by {
        if c[a] == c[b] {
            let d = c.len() - 1 - b;
            lemma_links_shift(nodes, head, c, a, b, d);
            assert(nodes[c[a + d] as int].next == Some(c[a + d + 1]));
            assert(nodes[c[b + d] as int].next == None::<usize>);
        }
    }
}

/// What the object-file library reports of one opened file, as plain values.
pub struct BfdImage {
    /// Name of the concrete container format, such as `elf64-x86-64`.
    pub format_name: String,
    /// Raw byte-order code of the format.
    pub byteorder: u32,
    pub arch: ArchRecord,
    /// The first node of the section list.
    pub head: Option<usize>,
    /// The section nodes; each names the following one by its index.
    pub nodes: Vec<SectionRecord>,
    pub section_count: u32,
    pub start_address: Vma,
    pub symcount: u32,
    pub dynsymcount: u32,
}

impl BfdImage {
    /// The section list from the head, as node indices in file order.
    pub open spec fn chain(&self) -> Option<Seq<usize>> {
        chain(self.nodes@, self.head, self.nodes@.len())
    }

    /// Every link stays in the node table, the list from the head reaches its
    /// end, and it holds as many sections as the file reports.
    pub open spec fn well_formed(&self) -> bool {
        &&& self.chain() is Some
        &&& self.chain().unwrap().len() == self.section_count
        &&& forall|i: int|
            0 <= i < self.nodes@.len() ==> match (#[trigger] self.nodes@[i]).next {
                Some(j) => j < self.nodes@.len(),
                None => true,
            }
    }
}

/// Walks the list from `head`, taking at most one step per node.
fn walk(nodes: &Vec<SectionRecord>, head: Option<usize>) -> (r: Option<Vec<usize>>)
    ensures
        r is Some <==> chain(nodes@, head, nodes@.len()) is Some,
        r matches Some(v) ==> v@ == chain(nodes@, head, nodes@.len()).unwrap(),
{
    let mut cur = head;
    let mut fuel: usize = nodes.len();
    let mut out: Vec<usize> = Vec::new();
    loop
        invariant
            fuel <= nodes@.len(),
            chain(nodes@, head, nodes@.len()) == match chain(nodes@, cur, fuel as nat) {
                Some(rest) => Some(out@.add(rest)),
                None => None::<Seq<usize>>,
            },
        decreases fuel,
    {
        match cur {
            None => {
                assert(out@.add(Seq::<usize>::empty()) =~= out@);
                return Some(out);
            },
            Some(i) => {
                if fuel == 0 || i >= nodes.len() {
                    return None;
                }
                let ghost before = out@;
                out.push(i);
                proof {
                    if let Some(rest) = chain(nodes@, nodes@[i as int].next, (fuel - 1) as nat) {
                        assert(before.add(seq![i].add(rest)) =~= out@.add(rest));
                    }
                }
                cur = nodes[i].next;
                fuel = fuel - 1;
            },
        }
    }
}

/// Whether `image` describes a usable file: see `BfdImage::well_formed`.
pub fn check_image(image: &BfdImage) -> (r: bool)
    ensures
        r == image.well_formed(),
{
    let n = image.nodes.len();
    let mut i: usize = 0;
    while i < n
        invariant
            n == image.nodes@.len(),
            i <= n,
            forall|k: int|
                0 <= k < i ==> match (#[trigger] image.nodes@[k]).next {
                    Some(j) => j < n,
                    None => true,
                },
        decreases n - i,
    {
        if let Some(j) = image.nodes[i].next {
            if j >= n {
                return false;
            }
        }
        i = i + 1;
    }
    match walk(&image.nodes, image.head) {
        Some(v) => v.len() == image.section_count as usize,
        None => false,
    }
}

/// An opened, format-checked object file.
pub struct Bfd {
    bfd_type: Format,
    image: BfdImage,
}

impl Bfd {
    #[verifier::type_invariant]
    spec fn inv(&self) -> bool {
        self.image.well_formed()
    }

    /// The category the file was opened as.
    pub closed spec fn spec_type(&self) -> Format {
        self.bfd_type
    }

    /// What the library reported of the file.
    pub closed spec fn spec_image(&self) -> BfdImage {
        self.image
    }

    /// The section list in file order, as node indices.
    pub open spec fn spec_chain(&self) -> Seq<usize> {
        self.spec_image().chain().unwrap()
    }

    /// Takes ownership of what the library reported of a file opened as
    /// `bfd_type`.
    pub fn from_image(bfd_type: Format, image: BfdImage) -> (r: Bfd)
        requires
            image.well_formed(),
        ensures
            r.spec_type() == bfd_type,
            r.spec_image() == image,
    {
        Bfd { bfd_type, image }
    }

    /// The category the file was opened as.
    pub fn bfd_type(&self) -> (r: Format)
        ensures
            r == self.spec_type(),
    {
        self.bfd_type
    }

    /// Name of the concrete container format.
    pub fn format(&self) -> (r: String)
        ensures
            r@ == self.spec_image().format_name@,
    {
        self.image.format_name.clone()
    }

    /// Byte order declared by the file's format.
    pub fn endian(&self) -> (r: Endian)
        ensures
            r == endian_of(self.spec_image().byteorder),
    {
        let b = self.image.byteorder;
        if b == RAW_ENDIAN_BIG {
            Endian::Big
        } else if b == RAW_ENDIAN_LITTLE {
            Endian::Little
        } else {
            Endian::Unknown
        }
    }

    /// A view of the file's architecture, valid while the file is.
    pub fn arch_info(&self) -> (r: ArchInfo<'_>)
        ensures
            r.spec_owner() == *self,
    {
        ArchInfo::from_raw_bfd(self)
    }

    pub(crate) fn arch_record(&self) -> (r: &ArchRecord)
        ensures
            *r == self.spec_image().arch,
    {
        &self.image.arch
    }

    /// The first node of the section list.
    pub fn head(&self) -> (r: Option<usize>)
        ensures
            r == self.spec_image().head,
            r matches Some(i) ==> i < self.spec_image().nodes@.len(),
    {
        proof {
            use_type_invariant(self);
            lemma_chain_links(self.image.nodes@, self.image.head, self.image.nodes@.len());
        }
        self.image.head
    }

    pub(crate) fn node(&self, i: usize) -> (r: &SectionRecord)
        requires
            i < self.spec_image().nodes@.len(),
        ensures
            *r == self.spec_image().nodes@[i as int],
            r.next matches Some(j) ==> j < self.spec_image().nodes@.len(),
    {
        proof {
            use_type_invariant(self);
        }
        assert(match self.image.nodes@[i as int].next {
            Some(j) => j < self.image.nodes@.len(),
            None => true,
        });
        &self.image.nodes[i]
    }

    /// The sections in file order, each a view valid while the file is.
    pub fn sections(&self) -> (r: Vec<Section<'_>>)
        ensures
            is_section_list(self, r@),
            r@.len() == self.spec_image().section_count,
            forall|a: int, b: int|
                0 <= a < b < r@.len() ==> (#[trigger] r@[a]).spec_index() != (#[trigger] r@[b]).spec_index(),
    {
        proof {
            use_type_invariant(self);
            lemma_chain_links(self.image.nodes@, self.image.head, self.image.nodes@.len());
        }
        let ghost c = self.spec_chain();
        let mut sections: Vec<Section<'_>> = Vec::new();
        let mut t = Section::from_raw(self.image.head, self);
        loop
            invariant
                c == self.spec_chain(),
                c.len() == self.spec_image().section_count,
                links(self.spec_image().nodes@, self.spec_image().head, c),
                sections@.len() <= c.len(),
                t is None <==> sections@.len() == c.len(),
                t matches Some(s) ==> s.spec_index() == c[sections@.len() as int]
                    && s.spec_owner() == *self,
                forall|j: int|
                    0 <= j < sections@.len() ==> (#[trigger] sections@[j]).spec_index() == c[j]
                        && sections@[j].spec_owner() == *self,
            decreases c.len() - sections@.len(),
        {
            match t {
                None => {
                    proof {
                        lemma_links_distinct(self.spec_image().nodes@, self.spec_image().head, c);
                        assert forall|a: int, b: int| 0 <= a < b < sections@.len() implies (
                        #[trigger] sections@[a]).spec_index() != (
                        #[trigger] sections@[b]).spec_index() by {
                            assert(c[a] != c[b]);
                        }
                    }
                    return sections;
                },
                Some(s) => {
                    t = s.next();
                    sections.push(s);
                },
            }
        }
    }

    pub fn section_count(&self) -> (r: u32)
        ensures
            r == self.spec_image().section_count,
    {
        self.image.section_count
    }

    pub fn start_address(&self) -> (r: Vma)
        ensures
            r == self.spec_image().start_address,
    {
        self.image.start_address
    }

    pub fn symcount(&self) -> (r: u32)
        ensures
            r == self.spec_image().symcount,
    {
        self.image.symcount
    }

    pub fn dynsymcount(&self) -> (r: u32)
        ensures
            r == self.spec_image().dynsymcount,
    {
        self.image.dynsymcount
    }
}

} // verus!
