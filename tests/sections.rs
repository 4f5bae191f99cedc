use bfd::bfd::check_image;
use bfd::{ArchRecord, Bfd, BfdImage, Endian, Format, SectionRecord};
use bfd::{SEC_ALLOC, SEC_CODE, SEC_DATA, SEC_LOAD, SEC_READONLY};

fn record(name: &str, id: u32, flags: u32, next: Option<usize>) -> SectionRecord {
    SectionRecord {
        name: name.to_string(),
        id,
        flags,
        vma: 0x1000 * id as u64,
        lma: 0x1000 * id as u64,
        size: 0x10 + id as u64,
        rawsize: 0,
        compressed_size: 0,
        filepos: 0x40 * id as i64,
        rel_filepos: 0,
        line_filepos: 0,
        next,
    }
}

fn arch(name: &str, printable: &str, bits: i32) -> ArchRecord {
    ArchRecord {
        arch_name: name.to_string(),
        printable_arch_mach: printable.to_string(),
        bits_per_word: bits,
        bits_per_address: bits,
        bits_per_byte: 8,
        mach: 0,
        section_align_power: 4,
    }
}

/// Sections stored out of order: the list runs 2 -> 0 -> 1.
fn small_image() -> BfdImage {
    BfdImage {
        format_name: "elf32-i386".to_string(),
        byteorder: 1,
        arch: arch("i386", "i386", 32),
        head: Some(2),
        nodes: vec![
            record(".data", 1, SEC_ALLOC | SEC_LOAD | SEC_DATA, Some(1)),
            record(".bss", 2, SEC_ALLOC, None),
            record(".text", 0, SEC_ALLOC | SEC_LOAD | SEC_CODE | SEC_READONLY, Some(0)),
        ],
        section_count: 3,
        start_address: 0x8048000,
        symcount: 7,
        dynsymcount: 0,
    }
}

fn open_image(image: BfdImage) -> Bfd {
    assert!(check_image(&image));
    Bfd::from_image(Format::Object, image)
}

fn linear_image(format: &str, arch: ArchRecord, n: usize) -> BfdImage {
    let mut nodes = Vec::new();
    for i in 0..n {
        let next = if i + 1 < n { Some(i + 1) } else { None };
        nodes.push(record(&format!(".s{}", i), i as u32, SEC_ALLOC, next));
    }
    BfdImage {
        format_name: format.to_string(),
        byteorder: 1,
        arch,
        head: if n > 0 { Some(0) } else { None },
        nodes,
        section_count: n as u32,
        start_address: 0,
        symcount: 0,
        dynsymcount: 0,
    }
}

#[test]
fn sections_follow_the_list_order() {
    let b = open_image(small_image());
    let names: Vec<String> = b.sections().iter().map(|s| s.name()).collect();
    assert_eq!(names, vec![".text", ".data", ".bss"]);
    let ids: Vec<u32> = b.sections().iter().map(|s| s.id()).collect();
    assert_eq!(ids, vec![0, 1, 2]);
    assert_eq!(b.sections().len(), b.section_count() as usize);
}

#[test]
fn sections_twice_are_identical() {
    let b = open_image(small_image());
    let first: Vec<(String, u32, u64, u64)> =
        b.sections().iter().map(|s| (s.name(), s.flags(), s.vma(), s.size())).collect();
    let second: Vec<(String, u32, u64, u64)> =
        b.sections().iter().map(|s| (s.name(), s.flags(), s.vma(), s.size())).collect();
    assert_eq!(first, second);
}

#[test]
fn flag_tests_repeat() {
    let b = open_image(small_image());
    for s in b.sections() {
        assert_eq!(s.flags(), s.flags());
        assert_eq!(s.has_flag(SEC_CODE), s.has_flag(SEC_CODE));
    }
    let secs = b.sections();
    assert!(secs[0].has_flag(SEC_CODE));
    assert!(secs[0].has_flag(SEC_READONLY));
    assert!(!secs[1].has_flag(SEC_CODE));
    assert!(secs[1].has_flag(SEC_DATA));
    assert!(!secs[2].has_flag(SEC_LOAD));
    assert_eq!(secs[0].flags(), 0x1b);
}

#[test]
fn next_walks_by_hand() {
    let b = open_image(small_image());
    let first = bfd::Section::from_raw(b.head(), &b).unwrap();
    assert_eq!(first.name(), ".text");
    let second = first.next().unwrap();
    assert_eq!(second.name(), ".data");
    let third = second.next().unwrap();
    assert_eq!(third.name(), ".bss");
    assert!(third.next().is_none());
    assert!(bfd::Section::from_raw(None, &b).is_none());
    assert_eq!(second.vma(), 0x1000);
    assert_eq!(second.lma(), 0x1000);
    assert_eq!(second.size(), 0x11);
    assert_eq!(second.rawsize(), 0);
    assert_eq!(second.compressed_size(), 0);
    assert_eq!(second.filepos(), 0x40);
    assert_eq!(second.rel_filepos(), bfd::NO_FILE_POS);
    assert_eq!(second.line_filepos(), bfd::NO_FILE_POS);
}

#[test]
fn scalar_accessors() {
    let b = open_image(small_image());
    assert_eq!(b.format(), "elf32-i386");
    assert_eq!(b.endian(), Endian::Little);
    assert_eq!(b.bfd_type(), Format::Object);
    assert_eq!(b.start_address(), 0x8048000);
    assert_eq!(b.symcount(), 7);
    assert_eq!(b.dynsymcount(), 0);
    let a = b.arch_info();
    assert_eq!(a.printable_arch_mach(), "i386");
    assert_eq!(a.arch_name(), "i386");
    assert_eq!(a.bits_per_word(), 32);
    assert_eq!(a.bits_per_address(), 32);
    assert_eq!(a.bits_per_byte(), 8);
    assert_eq!(a.mach(), 0);
    assert_eq!(a.section_align_power(), 4);
}

#[test]
fn x86_64_elf_with_26_sections() {
    let b = open_image(linear_image("elf64-x86-64", arch("i386", "i386:x86-64", 64), 26));
    assert_eq!(b.format(), "elf64-x86-64");
    assert_eq!(b.arch_info().printable_arch_mach(), "i386:x86-64");
    assert_eq!(b.section_count(), 26);
    assert_eq!(b.sections().len(), 26);
}

#[test]
fn aarch64_and_pe_images() {
    let b = open_image(linear_image("elf64-littleaarch64", arch("aarch64", "aarch64", 64), 4));
    assert_eq!(b.format(), "elf64-littleaarch64");
    assert_eq!(b.arch_info().arch_name(), "aarch64");
    let b = open_image(linear_image("pei-x86-64", arch("i386", "i386:x86-64", 64), 0));
    assert_eq!(b.format(), "pei-x86-64");
    assert_eq!(b.arch_info().printable_arch_mach(), "i386:x86-64");
    assert!(b.sections().is_empty());
}

#[test]
fn endian_codes() {
    let mut image = small_image();
    image.byteorder = 0;
    assert_eq!(open_image(image).endian(), Endian::Big);
    let mut image = small_image();
    image.byteorder = 2;
    assert_eq!(open_image(image).endian(), Endian::Unknown);
}

#[test]
fn malformed_lists_are_refused() {
    let mut cyclic = small_image();
    cyclic.nodes[1].next = Some(2);
    assert!(!check_image(&cyclic));
    let mut dangling = small_image();
    dangling.nodes[0].next = Some(9);
    assert!(!check_image(&dangling));
    let mut bad_head = small_image();
    bad_head.head = Some(3);
    assert!(!check_image(&bad_head));
    let mut miscounted = small_image();
    miscounted.section_count = 2;
    assert!(!check_image(&miscounted));
    let mut self_loop = linear_image("elf32-i386", arch("i386", "i386", 32), 1);
    self_loop.nodes[0].next = Some(0);
    assert!(!check_image(&self_loop));
    assert!(check_image(&small_image()));
}
