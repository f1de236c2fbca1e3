//! Extraction of DWARF debugging metadata from native object files.
//!
//! A byte buffer holding an ELF, Mach-O or PE image is sniffed and parsed
//! into an [`ObjectFile`], and the locator capability ([`Dwarf`]) returns
//! raw byte ranges of debug sections by their canonical names. A thin
//! secondary layer converts stack-walk results into a serializable
//! event shape.

mod common;
mod debuginfo;
mod errors;
mod minidump;
mod objects;

pub use common::arch_of;
pub use common::Architecture;
pub use debuginfo::c_name;
pub use debuginfo::lemma_elf_lookup_deterministic;
pub use debuginfo::lemma_elf_lookup_finds;
pub use debuginfo::lemma_macho_lookup_finds;
pub use debuginfo::lemma_macho_no_segment_no_value;
pub use debuginfo::lemma_macho_lookup_deterministic;
pub use debuginfo::macho_map_section_name;
pub use debuginfo::macho_section_name_spec;
pub use debuginfo::macho_segment_name_for;
pub use debuginfo::Dwarf;
pub use debuginfo::DwarfSection;
pub use debuginfo::ElfFile;
pub use debuginfo::FormatKind;
pub use debuginfo::MachOFile;
pub use debuginfo::ObjectFile;
pub use debuginfo::PEFile;
pub use errors::Error;
pub use minidump::frame_matches;
pub use minidump::frame_ok;
pub use minidump::stack_ok;
pub use minidump::thread_matches;
pub use minidump::CallStackInfo;
pub use minidump::Event;
pub use minidump::Frame;
pub use minidump::ModuleInfo;
pub use minidump::StackFrameInfo;
pub use minidump::Thread;
