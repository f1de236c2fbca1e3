//! Parsed object-file views and the DWARF section locators over them.
//!
//! A locator query never copies the underlying bytes: it hands out a view
//! into the source buffer together with the file offset the bytes come
//! from. Corrupt entries met during a scan are skipped, never escalated:
//! a lookup degrades to "not found" rather than failing the container.

use vstd::prelude::*;

use crate::errors::Error;
use crate::objects;

verus! {

/// The container format sniffed from a buffer's leading bytes.
#[derive(Clone, Copy, Debug, PartialEq, Eq, Structural)]
pub enum FormatKind {
    Elf,
    MachO,
    Pe,
    Unknown,
}

/// A raw DWARF section: a borrowed view of the section's bytes and the
/// file offset where those bytes sit in the container.
#[derive(Clone, Copy, Debug)]
pub struct DwarfSection<'a> {
    /// Data of this section
    pub data: &'a [u8],
    /// Section file offset
    pub offset: u64,
}

impl<'a> DwarfSection<'a> {
    pub fn new(data: &'a [u8], offset: u64) -> (s: Self)
        ensures
            s.data == data,
            s.offset == offset,
    {
        DwarfSection { data, offset }
    }
}

/// The capability every debug-information container offers: locating a
/// section's raw bytes by its canonical DWARF name, and reporting the
/// container's byte order. Each implementor says through `lookup_post`
/// and `le_spec` what its lookups return and which flag it reports.
pub trait Dwarf<'a> {
    /// What a finished lookup of `name` may hand back on this container.
    spec fn lookup_post(&self, name: Seq<char>, r: Option<DwarfSection<'a>>) -> bool;

    /// The byte order this container's header records.
    spec fn le_spec(&self) -> bool;

    /// Get the contents of the section named `section_name`, if such
    /// a section exists.
    fn get_section(&self, section_name: &str) -> (r: Option<DwarfSection<'a>>)
        ensures
            self.lookup_post(section_name@, r),
    ;

    /// Get the endianness of this debug container.
    fn little_endian(&self) -> (r: bool)
        ensures
            r == self.le_spec(),
    ;
}

/// The leading bytes of a fixed-width name field, up to its first NUL:
/// the name such a field stores.
pub open spec fn c_name(bytes: Seq<u8>) -> Seq<u8>
    decreases bytes.len(),
{
    if bytes.len() == 0 {
        bytes
    } else if bytes[0] == 0 {
        Seq::empty()
    } else {
        seq![bytes[0]] + c_name(bytes.skip(1))
    }
}

proof fn lemma_c_name_take(bytes: Seq<u8>, n: int)
    requires
        0 <= n <= bytes.len(),
        forall|t: int| 0 <= t < n ==> bytes[t] != 0,
        n < bytes.len() ==> bytes[n] == 0,
    ensures
        c_name(bytes) == bytes.subrange(0, n),
    decreases n,
{
    if n == 0 {
        assert(c_name(bytes) =~= bytes.subrange(0, 0));
    } else {
        lemma_c_name_take(bytes.skip(1), n - 1);
        assert(bytes.skip(1).subrange(0, n - 1) =~= bytes.subrange(1, n));
        assert(c_name(bytes) =~= bytes.subrange(0, n));
    }
}

/// Exact string equality, stated over the views.
fn str_eq(a: &str, b: &str) -> (r: bool)
    ensures
        r == (a@ == b@),
{
    let sa = a.to_owned();
    let sb = b.to_owned();
    sa == sb
}

/// Whether a fixed 16-byte name field stores exactly the queried name.
fn fixed_name_eq(field: &[u8; 16], query: &[u8]) -> (r: bool)
    ensures
        r == (c_name(field@) == query@),
{
    let mut n: usize = 0;
    while n < 16 && field[n] != 0
        invariant
            0 <= n <= 16,
            forall|t: int| 0 <= t < n ==> field@[t] != 0,
        decreases 16 - n,
    {
        n = n + 1;
    }
    proof {
        lemma_c_name_take(field@, n as int);
    }
    if n != query.len() {
        return false;
    }
    let mut t: usize = 0;
    while t < n
        invariant
            0 <= t <= n <= 16,
            n == query@.len(),
            c_name(field@) == field@.subrange(0, n as int),
            forall|s: int| 0 <= s < t ==> field@[s] == query@[s],
        decreases n - t,
    {
        if field[t] != *vstd::slice::slice_index_get(query, t) {
            return false;
        }
        t = t + 1;
    }
    proof {
        assert(field@.subrange(0, n as int) =~= query@);
    }
    true
}

/// A parsed ELF view, borrowing the original buffer.
pub struct ElfFile<'a> {
    inner: goblin::elf::Elf<'a>,
    data: &'a [u8],
}

impl<'a> ElfFile<'a> {
    /// The bytes of the buffer this view was parsed from.
    pub closed spec fn buf(&self) -> Seq<u8> {
        self.data@
    }

    /// The parsed section header table, in file order.
    pub closed spec fn table(&self) -> Seq<goblin::elf::section_header::SectionHeader> {
        objects::elf_table(self.inner)
    }

    /// The section name the header string table resolves for an offset.
    pub closed spec fn name_at(&self, off: int) -> Option<Seq<char>> {
        objects::elf_strtab_at(self.inner, off)
    }

    /// The byte-order flag recorded in the ELF header.
    pub closed spec fn le(&self) -> bool {
        objects::elf_little_endian(self.inner)
    }

    /// Whether the table entry at `i` is an intact section named `name`:
    /// its resolved name matches and its byte range lies inside the buffer.
    pub open spec fn entry_matches(&self, name: Seq<char>, i: int) -> bool {
        &&& self.name_at(self.table()[i].sh_name as int) == Some(name)
        &&& self.table()[i].sh_size <= self.buf().len()
        &&& self.table()[i].sh_offset <= self.buf().len() - self.table()[i].sh_size
    }

    /// What a finished lookup of `name` may hand back: the byte range of
    /// the first intact matching entry, or nothing when no entry matches.
    pub open spec fn lookup_result(&self, name: Seq<char>, r: Option<DwarfSection<'a>>) -> bool {
        match r {
            Some(s) => exists|i: int|
                {
                    &&& 0 <= i < self.table().len()
                    &&& self.entry_matches(name, i)
                    &&& (forall|j: int| 0 <= j < i ==> !self.entry_matches(name, j))
                    &&& s.offset == self.table()[i].sh_offset
                    &&& s.data@ == self.buf().subrange(
                        self.table()[i].sh_offset as int,
                        self.table()[i].sh_offset + self.table()[i].sh_size,
                    )
                },
            None => forall|i: int|
                0 <= i < self.table().len() ==> !self.entry_matches(name, i),
        }
    }

    /// Parses a buffer as ELF. Fails exactly where the outside parser
    /// rejects the top-level structure.
    pub fn parse(buffer: &'a [u8]) -> (r: Result<Self, Error>)
        ensures
            (r is Ok) == objects::elf_parse_ok(buffer@),
            r matches Ok(f) ==> f.buf() == buffer@,
            r matches Err(e) ==> e == Error::Format,
    {
        match objects::elf_parse(buffer) {
            Some(inner) => Ok(ElfFile { inner, data: buffer }),
            None => Err(Error::Format),
        }
    }

    /// Scans the section header table in file order and returns the byte
    /// range of the first section whose resolved name equals
    /// `section_name` and whose range lies inside the buffer. Entries
    /// with unresolvable names or ranges beyond the buffer are skipped.
    pub fn get_section(&self, section_name: &str) -> (r: Option<DwarfSection<'a>>)
        ensures
            self.lookup_result(section_name@, r),
    {
        let headers = objects::elf_section_headers(&self.inner);
        let n = headers.len();
        for i in 0..n
            invariant
                n == self.table().len(),
                headers@ == self.table(),
                forall|j: int| 0 <= j < i ==> !self.entry_matches(section_name@, j),
        {
            let h = &headers[i];
            let resolved = objects::elf_strtab_get(&self.inner, h.sh_name);
            if let Some(name) = resolved {
                if str_eq(name, section_name) {
                    let len = self.data.len() as u64;
                    if h.sh_size <= len && h.sh_offset <= len - h.sh_size {
                        proof {
                            assert(self.entry_matches(section_name@, i as int));
                        }
                        let sec_data = vstd::slice::slice_subrange(
                            self.data,
                            h.sh_offset as usize,
                            (h.sh_offset + h.sh_size) as usize,
                        );
                        let s = DwarfSection::new(sec_data, h.sh_offset);
                        proof {
                            let w = i as int;
                            assert({
                                &&& 0 <= w < self.table().len()
                                &&& self.entry_matches(section_name@, w)
                                &&& (forall|j: int| 0 <= j < w ==> !self.entry_matches(
                                    section_name@,
                                    j,
                                ))
                                &&& s.offset == self.table()[w].sh_offset
                                &&& s.data@ == self.buf().subrange(
                                    self.table()[w].sh_offset as int,
                                    self.table()[w].sh_offset + self.table()[w].sh_size,
                                )
                            });
                        }
                        return Some(s);
                    }
                }
            }
        }
        None
    }

    /// The byte order of this container, as its header records it.
    pub fn little_endian(&self) -> (r: bool)
        ensures
            r == self.le(),
    {
        objects::elf_is_little_endian(&self.inner)
    }
}

impl<'a> Dwarf<'a> for ElfFile<'a> {
    open spec fn lookup_post(&self, name: Seq<char>, r: Option<DwarfSection<'a>>) -> bool {
        self.lookup_result(name, r)
    }

    open spec fn le_spec(&self) -> bool {
        self.le()
    }

    fn get_section(&self, section_name: &str) -> Option<DwarfSection<'a>> {
        self.get_section(section_name)
    }

    fn little_endian(&self) -> bool {
        self.little_endian()
    }
}

/// The Mach-O form of a canonical DWARF section name: the leading period
/// becomes the two-character `__` prefix.
pub open spec fn macho_section_name_spec(name: Seq<char>) -> Seq<char> {
    seq!['_', '_'] + name.skip(1)
}

/// Translate the "." prefix to the "__" prefix used by OSX/Mach-O, eg
/// ".debug_info" to "__debug_info".
pub fn macho_map_section_name(section_name: &str) -> (r: String)
    requires
        section_name@.len() >= 1,
    ensures
        r@ == macho_section_name_spec(section_name@),
{
    let len = section_name.unicode_len();
    let suffix = section_name.substring_char(1, len);
    let mut out = String::from_str("__");
    out.append(suffix);
    proof {
        reveal_strlit("__");
        assert(out@ =~= macho_section_name_spec(section_name@));
    }
    out
}

/// The segment a request must search: unwind data lives with the code and
/// read-only data, every other DWARF section in the debug segment.
pub open spec fn macho_segment_name_for(name: Seq<char>) -> Seq<char> {
    if name == ".eh_frame"@ {
        "__TEXT"@
    } else {
        "__DWARF"@
    }
}

/// A parsed Mach-O view, borrowing the original buffer.
pub struct MachOFile<'a> {
    inner: goblin::mach::MachO<'a>,
}

impl<'a> MachOFile<'a> {
    /// The raw 16-byte segment names of this view, in file order.
    pub closed spec fn seg_names(&self) -> Seq<Seq<u8>> {
        objects::macho_seg_names(self.inner)
    }

    /// The section entries of segment `k`, with their bytes, or nothing
    /// where that segment's section table cannot be read.
    pub closed spec fn seg_sections(&self, k: int) -> Option<
        Seq<(goblin::mach::segment::Section, Seq<u8>)>,
    > {
        objects::macho_seg_sections(self.inner, k)
    }

    /// The byte-order flag recorded in the Mach-O header.
    pub closed spec fn le(&self) -> bool {
        objects::macho_little_endian(self.inner)
    }

    /// Whether segment `k` is named `want`.
    pub open spec fn seg_matches(&self, want: Seq<char>, k: int) -> bool {
        c_name(self.seg_names()[k]) == vstd::utf8::encode_utf8(want)
    }

    /// The section entries of segment `k`, where they are readable.
    pub open spec fn sec_at(&self, k: int) -> Seq<(goblin::mach::segment::Section, Seq<u8>)> {
        self.seg_sections(k).unwrap()
    }

    /// What a finished lookup of `name` may hand back: the bytes of the
    /// first section of the required segment whose stored name is the
    /// translated one; or nothing, when the name is empty, no segment has
    /// the required name, or the first such segment has no readable
    /// matching section.
    pub open spec fn lookup_result(&self, name: Seq<char>, r: Option<DwarfSection<'a>>) -> bool {
        let want_seg = macho_segment_name_for(name);
        let want_sec = vstd::utf8::encode_utf8(macho_section_name_spec(name));
        match r {
            Some(s) => exists|k: int, j: int|
                {
                    &&& 0 <= k < self.seg_names().len()
                    &&& self.seg_matches(want_seg, k)
                    &&& (forall|l: int| 0 <= l < k ==> !self.seg_matches(want_seg, l))
                    &&& self.seg_sections(k) is Some
                    &&& 0 <= j < self.sec_at(k).len()
                    &&& c_name(self.sec_at(k)[j].0.sectname@) == want_sec
                    &&& (forall|t: int|
                        0 <= t < j ==> c_name(self.sec_at(k)[t].0.sectname@) != want_sec)
                    &&& s.offset == self.sec_at(k)[j].0.offset
                    &&& s.data@ == self.sec_at(k)[j].1
                },
            None => {
                ||| name.len() == 0
                ||| (forall|k: int|
                    0 <= k < self.seg_names().len() ==> !self.seg_matches(want_seg, k))
                ||| exists|k: int|
                    {
                        &&& 0 <= k < self.seg_names().len()
                        &&& self.seg_matches(want_seg, k)
                        &&& (forall|l: int| 0 <= l < k ==> !self.seg_matches(want_seg, l))
                        &&& (self.seg_sections(k) is None || forall|t: int|
                            0 <= t < self.sec_at(k).len() ==> c_name(self.sec_at(k)[t].0.sectname@)
                                != want_sec)
                    }
            },
        }
    }

    /// Parses a buffer as Mach-O. Fails exactly where the outside parser
    /// rejects the top-level structure.
    pub fn parse(buffer: &'a [u8]) -> (r: Result<Self, Error>)
        ensures
            (r is Ok) == objects::macho_parse_ok(buffer@),
            r matches Err(e) ==> e == Error::Format,
    {
        match objects::macho_parse(buffer) {
            Some(inner) => Ok(MachOFile { inner }),
            None => Err(Error::Format),
        }
    }

    /// Picks the segment the request belongs to, translates the canonical
    /// name to its Mach-O form, and returns the first matching section of
    /// the first segment with the required name. Unreadable section
    /// tables degrade to "not found".
    pub fn get_section(&self, section_name: &str) -> (r: Option<DwarfSection<'a>>)
        ensures
            self.lookup_result(section_name@, r),
    {
        if section_name.unicode_len() == 0 {
            return None;
        }
        let seg_query: &str = if str_eq(section_name, ".eh_frame") {
            "__TEXT"
        } else {
            "__DWARF"
        };
        let qb = seg_query.as_bytes();
        let nseg = objects::macho_segment_count(&self.inner);
        let mut k: usize = 0;
        while k < nseg
            invariant
                section_name@.len() >= 1,
                nseg == self.seg_names().len(),
                0 <= k <= nseg,
                qb@ == vstd::utf8::encode_utf8(macho_segment_name_for(section_name@)),
                forall|l: int|
                    0 <= l < k ==> !self.seg_matches(macho_segment_name_for(section_name@), l),
            decreases nseg - k,
        {
            let segname = objects::macho_segment_name(&self.inner, k);
            if fixed_name_eq(&segname, qb) {
                let translated = macho_map_section_name(section_name);
                let tb = translated.as_str().as_bytes();
                match objects::macho_segment_sections(&self.inner, k) {
                    None => {
                        proof {
                            let wk = k as int;
                            assert({
                                &&& 0 <= wk < self.seg_names().len()
                                &&& self.seg_matches(macho_segment_name_for(section_name@), wk)
                                &&& (forall|l: int|
                                    0 <= l < wk ==> !self.seg_matches(
                                        macho_segment_name_for(section_name@),
                                        l,
                                    ))
                                &&& self.seg_sections(wk) is None
                            });
                        }
                        return None;
                    },
                    Some(v) => {
                        let m = v.len();
                        let mut j: usize = 0;
                        while j < m
                            invariant
                                nseg == self.seg_names().len(),
                                0 <= k < nseg,
                                self.seg_matches(macho_segment_name_for(section_name@), k as int),
                                forall|l: int|
                                    0 <= l < k ==> !self.seg_matches(
                                        macho_segment_name_for(section_name@),
                                        l,
                                    ),
                                self.seg_sections(k as int) is Some,
                                objects::sec_entries_match(v@, self.seg_sections(k as int)),
                                m == v@.len(),
                                0 <= j <= m,
                                tb@ == vstd::utf8::encode_utf8(
                                    macho_section_name_spec(section_name@),
                                ),
                                forall|t: int|
                                    0 <= t < j ==> c_name(
                                        (#[trigger] self.sec_at(k as int)[t]).0.sectname@,
                                    ) != vstd::utf8::encode_utf8(
                                        macho_section_name_spec(section_name@),
                                    ),
                            decreases m - j,
                        {
                            let entry = &v[j];
                            if fixed_name_eq(&entry.0.sectname, tb) {
                                let s = DwarfSection::new(entry.1, entry.0.offset as u64);
                                proof {
                                    let wk = k as int;
                                    let wj = j as int;
                                    assert({
                                        &&& 0 <= wk < self.seg_names().len()
                                        &&& self.seg_matches(
                                            macho_segment_name_for(section_name@),
                                            wk,
                                        )
                                        &&& (forall|l: int|
                                            0 <= l < wk ==> !self.seg_matches(
                                                macho_segment_name_for(section_name@),
                                                l,
                                            ))
                                        &&& self.seg_sections(wk) is Some
                                        &&& 0 <= wj < self.sec_at(wk).len()
                                        &&& c_name(self.sec_at(wk)[wj].0.sectname@)
                                            == vstd::utf8::encode_utf8(
                                            macho_section_name_spec(section_name@),
                                        )
                                        &&& (forall|t: int|
                                            0 <= t < wj ==> c_name(
                                                self.sec_at(wk)[t].0.sectname@,
                                            ) != vstd::utf8::encode_utf8(
                                                macho_section_name_spec(section_name@),
                                            ))
                                        &&& s.offset == self.sec_at(wk)[wj].0.offset
                                        &&& s.data@ == self.sec_at(wk)[wj].1
                                    });
                                }
                                return Some(s);
                            }
                            j = j + 1;
                        }
                        return None;
                    },
                }
            }
            k = k + 1;
        }
        None
    }

    /// The byte order of this container, as its header records it.
    pub fn little_endian(&self) -> (r: bool)
        ensures
            r == self.le(),
    {
        objects::macho_is_little_endian(&self.inner)
    }
}

impl<'a> Dwarf<'a> for MachOFile<'a> {
    open spec fn lookup_post(&self, name: Seq<char>, r: Option<DwarfSection<'a>>) -> bool {
        self.lookup_result(name, r)
    }

    open spec fn le_spec(&self) -> bool {
        self.le()
    }

    fn get_section(&self, section_name: &str) -> Option<DwarfSection<'a>> {
        self.get_section(section_name)
    }

    fn little_endian(&self) -> bool {
        self.little_endian()
    }
}

/// A parsed PE view, borrowing the original buffer. Debug-section lookup
/// for PE/PDB is not offered in this revision.
pub struct PEFile<'a> {
    #[allow(dead_code)]
    inner: goblin::pe::PE<'a>,
}

impl<'a> PEFile<'a> {
    /// Parses a buffer as PE. Fails exactly where the outside parser
    /// rejects the top-level structure.
    pub fn parse(buffer: &'a [u8]) -> (r: Result<Self, Error>)
        ensures
            (r is Ok) == objects::pe_parse_ok(buffer@),
            r matches Err(e) ==> e == Error::Format,
    {
        match objects::pe_parse(buffer) {
            Some(inner) => Ok(PEFile { inner }),
            None => Err(Error::Format),
        }
    }
}

/// A parsed object file: exactly one format-specific view per buffer.
pub enum ObjectFile<'a> {
    Elf(ElfFile<'a>),
    MachO(MachOFile<'a>),
    PE(PEFile<'a>),
}

impl<'a> ObjectFile<'a> {
    /// Sniffs the buffer's format from its leading bytes and parses the
    /// matching view. An unrecognized magic, and any parse failure of the
    /// matched format, is a format error: no partial container comes back.
    pub fn parse(buffer: &'a [u8]) -> (r: Result<Self, Error>)
        ensures
            r matches Ok(o) ==> match o {
                ObjectFile::Elf(f) => objects::sniff_of(buffer@) == FormatKind::Elf
                    && objects::elf_parse_ok(buffer@) && f.buf() == buffer@,
                ObjectFile::MachO(_) => objects::sniff_of(buffer@) == FormatKind::MachO
                    && objects::macho_parse_ok(buffer@),
                ObjectFile::PE(_) => objects::sniff_of(buffer@) == FormatKind::Pe
                    && objects::pe_parse_ok(buffer@),
            },
            (r is Err) == (objects::sniff_of(buffer@) == FormatKind::Unknown || (objects::sniff_of(
                buffer@,
            ) == FormatKind::Elf && !objects::elf_parse_ok(buffer@)) || (objects::sniff_of(buffer@)
                == FormatKind::MachO && !objects::macho_parse_ok(buffer@)) || (objects::sniff_of(
                buffer@,
            ) == FormatKind::Pe && !objects::pe_parse_ok(buffer@))),
            r matches Err(e) ==> e == Error::Format,
    {
        match objects::sniff(buffer) {
            FormatKind::Elf => match ElfFile::parse(buffer) {
                Ok(f) => Ok(ObjectFile::Elf(f)),
                Err(e) => Err(e),
            },
            FormatKind::MachO => match MachOFile::parse(buffer) {
                Ok(f) => Ok(ObjectFile::MachO(f)),
                Err(e) => Err(e),
            },
            FormatKind::Pe => match PEFile::parse(buffer) {
                Ok(f) => Ok(ObjectFile::PE(f)),
                Err(e) => Err(e),
            },
            FormatKind::Unknown => Err(Error::Format),
        }
    }
}

/// Where the section header table holds an intact entry with the
/// requested name, an ELF lookup cannot come back empty: it returns the
/// byte range of the first such entry.
pub proof fn lemma_elf_lookup_finds<'a>(
    f: &ElfFile<'a>,
    name: Seq<char>,
    r: Option<DwarfSection<'a>>,
    i: int,
)
    requires
        f.lookup_result(name, r),
        0 <= i < f.table().len(),
        f.entry_matches(name, i),
    ensures
        r is Some,
{
}

/// Where a Mach-O view has no segment with the required name, a lookup
/// returns no value rather than failing.
pub proof fn lemma_macho_no_segment_no_value<'a>(
    f: &MachOFile<'a>,
    name: Seq<char>,
    r: Option<DwarfSection<'a>>,
)
    requires
        f.lookup_result(name, r),
        forall|k: int|
            0 <= k < f.seg_names().len() ==> !f.seg_matches(macho_segment_name_for(name), k),
    ensures
        r is None,
{
}

/// Where the first segment with the required name has a readable section
/// table holding a section with the translated name, a Mach-O lookup
/// cannot come back empty.
pub proof fn lemma_macho_lookup_finds<'a>(
    f: &MachOFile<'a>,
    name: Seq<char>,
    r: Option<DwarfSection<'a>>,
    k: int,
    j: int,
)
    requires
        f.lookup_result(name, r),
        name.len() >= 1,
        0 <= k < f.seg_names().len(),
        f.seg_matches(macho_segment_name_for(name), k),
        forall|l: int| 0 <= l < k ==> !f.seg_matches(macho_segment_name_for(name), l),
        f.seg_sections(k) is Some,
        0 <= j < f.sec_at(k).len(),
        c_name(f.sec_at(k)[j].0.sectname@) == vstd::utf8::encode_utf8(
            macho_section_name_spec(name),
        ),
    ensures
        r is Some,
{
    let want_seg = macho_segment_name_for(name);
    let want_sec = vstd::utf8::encode_utf8(macho_section_name_spec(name));
    if r is None {
        if exists|k2: int|
            {
                &&& 0 <= k2 < f.seg_names().len()
                &&& f.seg_matches(want_seg, k2)
                &&& (forall|l: int| 0 <= l < k2 ==> !f.seg_matches(want_seg, l))
                &&& (f.seg_sections(k2) is None || forall|t: int|
                    0 <= t < f.sec_at(k2).len() ==> c_name(f.sec_at(k2)[t].0.sectname@)
                        != want_sec)
            } {
            let k2 = choose|k2: int|
                {
                    &&& 0 <= k2 < f.seg_names().len()
                    &&& f.seg_matches(want_seg, k2)
                    &&& (forall|l: int| 0 <= l < k2 ==> !f.seg_matches(want_seg, l))
                    &&& (f.seg_sections(k2) is None || forall|t: int|
                        0 <= t < f.sec_at(k2).len() ==> c_name(f.sec_at(k2)[t].0.sectname@)
                            != want_sec)
                };
            assert(k2 == k);
            assert(false);
        }
    }
}

/// Two finished Mach-O lookups of the same name on the same view agree:
/// the scan is a pure read, so independent queries cannot observe
/// different or partial outcomes.
pub proof fn lemma_macho_lookup_deterministic<'a>(
    f: &MachOFile<'a>,
    name: Seq<char>,
    r1: Option<DwarfSection<'a>>,
    r2: Option<DwarfSection<'a>>,
)
    requires
        f.lookup_result(name, r1),
        f.lookup_result(name, r2),
    ensures
        r1 matches Some(s1) ==> r2 matches Some(s2) ==> s1.offset == s2.offset && s1.data@
            == s2.data@,
{
    let want_seg = macho_segment_name_for(name);
    let want_sec = vstd::utf8::encode_utf8(macho_section_name_spec(name));
    if r1 is Some && r2 is Some {
        let (k1, j1) = choose|k: int, j: int|
            {
                &&& 0 <= k < f.seg_names().len()
                &&& f.seg_matches(want_seg, k)
                &&& (forall|l: int| 0 <= l < k ==> !f.seg_matches(want_seg, l))
                &&& f.seg_sections(k) is Some
                &&& 0 <= j < f.sec_at(k).len()
                &&& c_name(f.sec_at(k)[j].0.sectname@) == want_sec
                &&& (forall|t: int| 0 <= t < j ==> c_name(f.sec_at(k)[t].0.sectname@) != want_sec)
                &&& r1.unwrap().offset == f.sec_at(k)[j].0.offset
                &&& r1.unwrap().data@ == f.sec_at(k)[j].1
            };
        let (k2, j2) = choose|k: int, j: int|
            {
                &&& 0 <= k < f.seg_names().len()
                &&& f.seg_matches(want_seg, k)
                &&& (forall|l: int| 0 <= l < k ==> !f.seg_matches(want_seg, l))
                &&& f.seg_sections(k) is Some
                &&& 0 <= j < f.sec_at(k).len()
                &&& c_name(f.sec_at(k)[j].0.sectname@) == want_sec
                &&& (forall|t: int| 0 <= t < j ==> c_name(f.sec_at(k)[t].0.sectname@) != want_sec)
                &&& r2.unwrap().offset == f.sec_at(k)[j].0.offset
                &&& r2.unwrap().data@ == f.sec_at(k)[j].1
            };
        assert(k1 == k2);
        assert(j1 == j2);
    }
}

/// Two finished ELF lookups of the same name on the same view agree: the
/// scan is a pure read, so independent queries cannot observe different
/// or partial outcomes.
pub proof fn lemma_elf_lookup_deterministic<'a>(
    f: &ElfFile<'a>,
    name: Seq<char>,
    r1: Option<DwarfSection<'a>>,
    r2: Option<DwarfSection<'a>>,
)
    requires
        f.lookup_result(name, r1),
        f.lookup_result(name, r2),
    ensures
        r1 is Some <==> r2 is Some,
        r1 matches Some(s1) ==> r2 matches Some(s2) && s1.offset == s2.offset && s1.data@
            == s2.data@,
{
    if r1 is Some && r2 is Some {
        let i1 = choose|i: int|
            {
                &&& 0 <= i < f.table().len()
                &&& f.entry_matches(name, i)
                &&& (forall|j: int| 0 <= j < i ==> !f.entry_matches(name, j))
                &&& r1.unwrap().offset == f.table()[i].sh_offset
                &&& r1.unwrap().data@ == f.buf().subrange(
                    f.table()[i].sh_offset as int,
                    f.table()[i].sh_offset + f.table()[i].sh_size,
                )
            };
        let i2 = choose|i: int|
            {
                &&& 0 <= i < f.table().len()
                &&& f.entry_matches(name, i)
                &&& (forall|j: int| 0 <= j < i ==> !f.entry_matches(name, j))
                &&& r2.unwrap().offset == f.table()[i].sh_offset
                &&& r2.unwrap().data@ == f.buf().subrange(
                    f.table()[i].sh_offset as int,
                    f.table()[i].sh_offset + f.table()[i].sh_size,
                )
            };
        assert(i1 == i2);
    }
}

} // verus!
