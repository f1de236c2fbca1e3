//! The trusted boundary to the outside object-file parser (the `goblin`
//! crate). Everything this crate knows about a parsed ELF, Mach-O or PE
//! view is stated here, over uninterpreted names for what the parser
//! produced; the locator logic itself is verified against these contracts.

use vstd::prelude::*;

use crate::debuginfo::FormatKind;

verus! {

#[verifier::external_type_specification]
#[verifier::external_body]
pub struct ExElf<'a>(goblin::elf::Elf<'a>);

#[verifier::external_type_specification]
pub struct ExSectionHeader(goblin::elf::section_header::SectionHeader);

#[verifier::external_type_specification]
#[verifier::external_body]
pub struct ExMachO<'a>(goblin::mach::MachO<'a>);

#[verifier::external_type_specification]
pub struct ExSection(goblin::mach::segment::Section);

#[verifier::external_type_specification]
#[verifier::external_body]
pub struct ExPE<'a>(goblin::pe::PE<'a>);

/// The container format that the parser's sniffer reports for a buffer's
/// leading bytes; the sniff is a pure function of those bytes.
pub uninterp spec fn sniff_of(buffer: Seq<u8>) -> FormatKind;

/// Whether the parser accepts the buffer's top-level ELF structure.
pub uninterp spec fn elf_parse_ok(buffer: Seq<u8>) -> bool;

/// The section header table of a parsed ELF view, in file order.
pub uninterp spec fn elf_table(e: goblin::elf::Elf<'_>) -> Seq<goblin::elf::section_header::SectionHeader>;

/// The name, if any, that the section header string table of a parsed ELF
/// view resolves for a given name offset.
pub uninterp spec fn elf_strtab_at(e: goblin::elf::Elf<'_>, off: int) -> Option<Seq<char>>;

/// The byte-order flag that the parser recorded from the ELF header.
pub uninterp spec fn elf_little_endian(e: goblin::elf::Elf<'_>) -> bool;

/// Whether the parser accepts the buffer's top-level Mach-O structure.
pub uninterp spec fn macho_parse_ok(buffer: Seq<u8>) -> bool;

/// The raw 16-byte segment names of a parsed Mach-O view, in file order.
pub uninterp spec fn macho_seg_names(m: goblin::mach::MachO<'_>) -> Seq<Seq<u8>>;

/// The section entries of one segment of a parsed Mach-O view, each with
/// its raw byte content, or nothing where the segment's section table
/// cannot be read.
pub uninterp spec fn macho_seg_sections(m: goblin::mach::MachO<'_>, i: int) -> Option<
    Seq<(goblin::mach::segment::Section, Seq<u8>)>,
>;

/// The byte-order flag that the parser recorded from the Mach-O header.
pub uninterp spec fn macho_little_endian(m: goblin::mach::MachO<'_>) -> bool;

/// Whether the parser accepts the buffer's top-level PE structure.
pub uninterp spec fn pe_parse_ok(buffer: Seq<u8>) -> bool;

/// How an executable section-entry list lines up with its model: same
/// length, same entries, and the live byte slices carry the model's bytes.
pub open spec fn sec_entries_match(
    v: Seq<(goblin::mach::segment::Section, &[u8])>,
    mdl: Option<Seq<(goblin::mach::segment::Section, Seq<u8>)>>,
) -> bool {
    &&& mdl is Some
    &&& v.len() == mdl.unwrap().len()
    &&& forall|j: int|
        0 <= j < v.len() ==> (#[trigger] v[j]).0 == mdl.unwrap()[j].0 && v[j].1@
            == mdl.unwrap()[j].1
}

/// Relies on goblin::peek: format detection over the buffer's leading
/// bytes. Anything but a clean ELF, Mach-O or PE magic is unknown.
#[verifier::external_body]
pub(crate) fn sniff(buffer: &[u8]) -> (r: FormatKind)
    ensures
        r == sniff_of(buffer@),
{
    let mut cursor = std::io::Cursor::new(buffer);
    match goblin::peek(&mut cursor) {
        Ok(goblin::Hint::Elf(_)) => FormatKind::Elf,
        Ok(goblin::Hint::Mach(_)) => FormatKind::MachO,
        Ok(goblin::Hint::MachFat(_)) => FormatKind::MachO,
        Ok(goblin::Hint::PE) => FormatKind::Pe,
        _ => FormatKind::Unknown,
    }
}

/// Relies on goblin::elf::Elf::parse: parses the top-level ELF structure,
/// borrowing the buffer.
#[verifier::external_body]
pub(crate) fn elf_parse<'a>(buffer: &'a [u8]) -> (r: Option<goblin::elf::Elf<'a>>)
    ensures
        (r is Some) == elf_parse_ok(buffer@),
{
    goblin::elf::Elf::parse(buffer).ok()
}

/// Relies on the `section_headers` field of goblin::elf::Elf: the parsed
/// section header table, in file order.
#[verifier::external_body]
pub(crate) fn elf_section_headers<'a, 'e>(e: &'e goblin::elf::Elf<'a>) -> (r: &'e Vec<
    goblin::elf::section_header::SectionHeader,
>)
    ensures
        r@ == elf_table(*e),
{
    &e.section_headers
}

/// Relies on goblin::strtab::Strtab::get_at over the `shdr_strtab` field
/// of goblin::elf::Elf: the name starting at byte `off` of the section
/// header string table, or nothing when `off` is out of bounds.
#[verifier::external_body]
pub(crate) fn elf_strtab_get<'a>(e: &goblin::elf::Elf<'a>, off: usize) -> (r: Option<&'a str>)
    ensures
        r matches Some(s) ==> elf_strtab_at(*e, off as int) == Some(s@),
        r is None ==> elf_strtab_at(*e, off as int) is None,
{
    e.shdr_strtab.get_at(off)
}

/// Relies on the `little_endian` field of goblin::elf::Elf, which the
/// parser reads from the identification bytes of the ELF header.
#[verifier::external_body]
pub(crate) fn elf_is_little_endian(e: &goblin::elf::Elf<'_>) -> (r: bool)
    ensures
        r == elf_little_endian(*e),
{
    e.little_endian
}

/// Relies on goblin::mach::Mach::parse: parses the top-level Mach-O
/// structure, borrowing the buffer. Of a fat (universal) binary, only
/// the first architecture slice, at the fixed default index, is honored.
#[verifier::external_body]
pub(crate) fn macho_parse<'a>(buffer: &'a [u8]) -> (r: Option<goblin::mach::MachO<'a>>)
    ensures
        (r is Some) == macho_parse_ok(buffer@),
{
    match goblin::mach::Mach::parse(buffer) {
        Ok(goblin::mach::Mach::Binary(m)) => Some(m),
        Ok(goblin::mach::Mach::Fat(fat)) => match fat.get(0) {
            Ok(goblin::mach::SingleArch::MachO(m)) => Some(m),
            _ => None,
        },
        Err(_) => None,
    }
}

/// Relies on the `segments` field of goblin::mach::MachO: how many
/// segment load commands the parsed view holds.
#[verifier::external_body]
pub(crate) fn macho_segment_count(m: &goblin::mach::MachO<'_>) -> (r: usize)
    ensures
        r == macho_seg_names(*m).len(),
{
    m.segments.len()
}

/// Relies on the `segname` field of goblin::mach::segment::Segment: the
/// raw 16-byte name of one segment.
#[verifier::external_body]
pub(crate) fn macho_segment_name(m: &goblin::mach::MachO<'_>, i: usize) -> (r: [u8; 16])
    requires
        i < macho_seg_names(*m).len(),
    ensures
        r@ == macho_seg_names(*m)[i as int],
{
    m.segments[i].segname
}

/// Relies on goblin::mach::segment::Segment::sections: one segment's
/// section entries, each paired with its raw bytes, or nothing when the
/// segment's section table cannot be read.
#[verifier::external_body]
pub(crate) fn macho_segment_sections<'a>(m: &goblin::mach::MachO<'a>, i: usize) -> (r: Option<
    Vec<(goblin::mach::segment::Section, &'a [u8])>,
>)
    requires
        i < macho_seg_names(*m).len(),
    ensures
        r matches Some(v) ==> sec_entries_match(v@, macho_seg_sections(*m, i as int)),
        r is None ==> macho_seg_sections(*m, i as int) is None,
{
    m.segments[i].sections().ok()
}

/// Relies on the `little_endian` field of goblin::mach::MachO, which the
/// parser derives from the magic of the Mach-O header.
#[verifier::external_body]
pub(crate) fn macho_is_little_endian(m: &goblin::mach::MachO<'_>) -> (r: bool)
    ensures
        r == macho_little_endian(*m),
{
    m.little_endian
}

/// Relies on goblin::pe::PE::parse: parses the top-level PE structure,
/// borrowing the buffer.
#[verifier::external_body]
pub(crate) fn pe_parse<'a>(buffer: &'a [u8]) -> (r: Option<goblin::pe::PE<'a>>)
    ensures
        (r is Some) == pe_parse_ok(buffer@),
{
    goblin::pe::PE::parse(buffer).ok()
}

} // verus!
