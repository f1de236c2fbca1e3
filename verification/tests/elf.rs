use minidump::ElfFile;
use minidump::Error;
use minidump::ObjectFile;

fn word16(v: u16, le: bool) -> [u8; 2] {
    if le { v.to_le_bytes() } else { v.to_be_bytes() }
}

fn word32(v: u32, le: bool) -> [u8; 4] {
    if le { v.to_le_bytes() } else { v.to_be_bytes() }
}

fn word64(v: u64, le: bool) -> [u8; 8] {
    if le { v.to_le_bytes() } else { v.to_be_bytes() }
}

/// A minimal 64-bit ELF of either byte order with three section headers:
/// the null entry, one `.debug_info` section, and the header string table.
fn build_elf(le: bool) -> Vec<u8> {
    let mut b: Vec<u8> = Vec::new();
    // e_ident: magic, 64-bit class, data encoding, version 1
    let data_encoding = if le { 1 } else { 2 };
    b.extend_from_slice(&[0x7f, b'E', b'L', b'F', 2, data_encoding, 1, 0]);
    b.extend_from_slice(&[0u8; 8]);
    b.extend_from_slice(&word16(2, le)); // e_type: executable
    b.extend_from_slice(&word16(0x3e, le)); // e_machine: x86-64
    b.extend_from_slice(&word32(1, le)); // e_version
    b.extend_from_slice(&word64(0, le)); // e_entry
    b.extend_from_slice(&word64(0, le)); // e_phoff
    b.extend_from_slice(&word64(96, le)); // e_shoff
    b.extend_from_slice(&word32(0, le)); // e_flags
    b.extend_from_slice(&word16(64, le)); // e_ehsize
    b.extend_from_slice(&word16(0, le)); // e_phentsize
    b.extend_from_slice(&word16(0, le)); // e_phnum
    b.extend_from_slice(&word16(64, le)); // e_shentsize
    b.extend_from_slice(&word16(3, le)); // e_shnum
    b.extend_from_slice(&word16(2, le)); // e_shstrndx
    assert_eq!(b.len(), 64);
    // 64..87: section header string table
    b.extend_from_slice(b"\0.debug_info\0.shstrtab\0");
    assert_eq!(b.len(), 87);
    // 87..95: the .debug_info payload
    b.extend_from_slice(&[0xde, 0xad, 0xbe, 0xef, 0x10, 0x20, 0x30, 0x40]);
    b.push(0); // pad to the section header table at 96
    assert_eq!(b.len(), 96);
    // section header 0: the null entry
    b.extend_from_slice(&[0u8; 64]);
    // section header 1: .debug_info
    push_shdr_endian(&mut b, 1, 1, 87, 8, le);
    // section header 2: .shstrtab
    push_shdr_endian(&mut b, 13, 3, 64, 23, le);
    assert_eq!(b.len(), 288);
    b
}

fn minimal_elf() -> Vec<u8> {
    build_elf(true)
}

fn push_shdr(b: &mut Vec<u8>, name: u32, kind: u32, offset: u64, size: u64) {
    push_shdr_endian(b, name, kind, offset, size, true);
}

fn push_shdr_endian(b: &mut Vec<u8>, name: u32, kind: u32, offset: u64, size: u64, le: bool) {
    b.extend_from_slice(&word32(name, le)); // sh_name
    b.extend_from_slice(&word32(kind, le)); // sh_type
    b.extend_from_slice(&word64(0, le)); // sh_flags
    b.extend_from_slice(&word64(0, le)); // sh_addr
    b.extend_from_slice(&word64(offset, le)); // sh_offset
    b.extend_from_slice(&word64(size, le)); // sh_size
    b.extend_from_slice(&word32(0, le)); // sh_link
    b.extend_from_slice(&word32(0, le)); // sh_info
    b.extend_from_slice(&word64(1, le)); // sh_addralign
    b.extend_from_slice(&word64(0, le)); // sh_entsize
}

#[test]
fn elf_finds_debug_info_bytes_and_offset() {
    let buffer = minimal_elf();
    let elf = ElfFile::parse(&buffer).unwrap();
    let section = elf.get_section(".debug_info").unwrap();
    assert_eq!(section.offset, 87);
    assert_eq!(section.data, &buffer[87..95]);
    assert_eq!(
        section.data,
        &[0xde, 0xad, 0xbe, 0xef, 0x10, 0x20, 0x30, 0x40]
    );
}

#[test]
fn elf_missing_section_is_not_found() {
    let buffer = minimal_elf();
    let elf = ElfFile::parse(&buffer).unwrap();
    assert!(elf.get_section(".debug_line").is_none());
}

#[test]
fn elf_little_endian_matches_header_flag() {
    let buffer = minimal_elf();
    let elf = ElfFile::parse(&buffer).unwrap();
    assert!(elf.little_endian());
}

#[test]
fn elf_big_endian_flag_and_lookup() {
    let buffer = build_elf(false);
    let elf = ElfFile::parse(&buffer).unwrap();
    assert!(!elf.little_endian());
    let section = elf.get_section(".debug_info").unwrap();
    assert_eq!(section.offset, 87);
    assert_eq!(section.data, &buffer[87..95]);
}

#[test]
fn trait_dispatch_reaches_the_locator() {
    fn query<'a, D: minidump::Dwarf<'a>>(
        container: &D,
        name: &str,
    ) -> Option<minidump::DwarfSection<'a>> {
        container.get_section(name)
    }
    let buffer = minimal_elf();
    let elf = ElfFile::parse(&buffer).unwrap();
    let section = query(&elf, ".debug_info").unwrap();
    assert_eq!(section.offset, 87);
}

#[test]
fn elf_corrupt_range_is_skipped() {
    let mut buffer = minimal_elf();
    // grow sh_size of .debug_info (bytes 96+64+32..96+64+40) past the buffer
    let size_field = 96 + 64 + 32;
    buffer[size_field..size_field + 8].copy_from_slice(&10_000u64.to_le_bytes());
    let elf = ElfFile::parse(&buffer).unwrap();
    assert!(elf.get_section(".debug_info").is_none());
}

#[test]
fn elf_first_of_duplicate_names_wins() {
    // as minimal_elf, but with a fourth header reusing the .debug_info
    // name for a different byte range: the first entry in file order wins
    let mut b: Vec<u8> = Vec::new();
    b.extend_from_slice(&[0x7f, b'E', b'L', b'F', 2, 1, 1, 0, 0, 0, 0, 0, 0, 0, 0, 0]);
    b.extend_from_slice(&2u16.to_le_bytes());
    b.extend_from_slice(&0x3eu16.to_le_bytes());
    b.extend_from_slice(&1u32.to_le_bytes());
    b.extend_from_slice(&0u64.to_le_bytes());
    b.extend_from_slice(&0u64.to_le_bytes());
    b.extend_from_slice(&104u64.to_le_bytes()); // e_shoff
    b.extend_from_slice(&0u32.to_le_bytes());
    b.extend_from_slice(&64u16.to_le_bytes());
    b.extend_from_slice(&0u16.to_le_bytes());
    b.extend_from_slice(&0u16.to_le_bytes());
    b.extend_from_slice(&64u16.to_le_bytes());
    b.extend_from_slice(&4u16.to_le_bytes()); // e_shnum
    b.extend_from_slice(&2u16.to_le_bytes()); // e_shstrndx
    b.extend_from_slice(b"\0.debug_info\0.shstrtab\0"); // 64..87
    b.extend_from_slice(&[0x11; 8]); // 87..95: first payload
    b.extend_from_slice(&[0x22; 8]); // 95..103: second payload
    b.push(0); // pad to 104
    b.extend_from_slice(&[0u8; 64]);
    push_shdr(&mut b, 1, 1, 87, 8);
    push_shdr(&mut b, 13, 3, 64, 23);
    push_shdr(&mut b, 1, 1, 95, 8);
    let elf = ElfFile::parse(&b).unwrap();
    let section = elf.get_section(".debug_info").unwrap();
    assert_eq!(section.offset, 87);
    assert_eq!(section.data, &[0x11; 8]);
}

#[test]
fn elf_independent_queries_agree() {
    // two lookups against one parsed container, as concurrent readers
    // would issue them, observe complete and identical results
    let buffer = minimal_elf();
    let elf = ElfFile::parse(&buffer).unwrap();
    let first = elf.get_section(".debug_info").unwrap();
    let second = elf.get_section(".debug_info").unwrap();
    assert_eq!(first.offset, second.offset);
    assert_eq!(first.data, second.data);
    assert!(elf.get_section(".shstrtab").is_some());
}

#[test]
fn object_parse_dispatches_elf() {
    let buffer = minimal_elf();
    match ObjectFile::parse(&buffer).unwrap() {
        ObjectFile::Elf(elf) => {
            assert!(elf.get_section(".debug_info").is_some());
        }
        _ => panic!("expected an ELF container"),
    }
}

#[test]
fn unknown_magic_is_a_format_error() {
    let buffer = vec![0xffu8; 64];
    match ObjectFile::parse(&buffer) {
        Err(Error::Format) => {}
        _ => panic!("expected a format error"),
    }
}

#[test]
fn truncated_input_is_a_format_error() {
    let buffer = vec![0x7fu8, b'E'];
    match ObjectFile::parse(&buffer) {
        Err(Error::Format) => {}
        _ => panic!("expected a format error"),
    }
}
