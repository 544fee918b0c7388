//! The section headers of an ELF binary.

use goblin::elf::section_header::SHF_EXECINSTR;
use goblin::elf::Elf;
use vstd::prelude::*;

verus! {

/// What the scan reads of a section header: the flags of the section, and
/// where in the file its contents start and how long they are.
#[derive(Debug, Clone, Copy, PartialEq, Eq, Structural)]
pub struct SectionHeader {
    pub sh_flags: u64,
    pub sh_offset: u64,
    pub sh_size: u64,
}

/// Flag of a section that holds machine instructions.
pub open spec fn execinstr_flag() -> u32 {
    0x4
}

impl SectionHeader {
    /// Whether the section is marked as holding machine instructions.
    pub open spec fn executable(self) -> bool {
        self.sh_flags & (execinstr_flag() as u64) != 0
    }

    /// Offset in the file just past the section's contents.
    pub open spec fn end(self) -> int {
        self.sh_offset + self.sh_size
    }

    /// Tells whether the section is marked as holding machine instructions.
    pub fn is_executable(&self) -> (executable: bool)
        ensures
            executable == self.executable(),
    {
        self.sh_flags & u64::from(shf_execinstr()) != 0
    }
}

/// Whether `data` is long enough for the identification of an ELF file and
/// starts with the four bytes that mark one.
pub open spec fn has_elf_magic(data: Seq<u8>) -> bool {
    &&& data.len() >= 16
    &&& data[0] == 0x7f
    &&& data[1] == 0x45
    &&& data[2] == 0x4c
    &&& data[3] == 0x46
}

/// The section headers that the ELF parser reads from `data`, in the order of
/// the section header table, or `None` where it rejects `data`. The parser
/// holds offsets in `usize`: this is what it returns where that has 64 bits.
pub uninterp spec fn elf_section_headers(data: Seq<u8>) -> Option<Seq<SectionHeader>>;

/// Calls `goblin::elf::Elf::parse` and copies flags, offset and size out of
/// each section header of the result. The contract claims that the parser
/// returns on every input where `usize` has 64 bits, that what it returns
/// depends on `data` alone, and that it rejects data without the
/// identification of an ELF file. Of other data it does not say which the
/// parser accepts.
#[verifier::external_body]
pub(crate) fn parse_section_headers(data: &[u8]) -> (headers: Option<Vec<SectionHeader>>)
    ensures
        headers is Some <==> elf_section_headers(data@) is Some,
        headers is Some ==> headers->0@ == elf_section_headers(data@)->0,
        !has_elf_magic(data@) ==> headers is None,
{
    match Elf::parse(data) {
        Ok(elf) => Some(
            elf.section_headers.iter().map(
                |header| SectionHeader {
                    sh_flags: header.sh_flags,
                    sh_offset: header.sh_offset,
                    sh_size: header.sh_size,
                },
            ).collect(),
        ),
        Err(_) => None,
    }
}

/// Hands out `goblin::elf::section_header::SHF_EXECINSTR`.
#[verifier::external_body]
fn shf_execinstr() -> (flag: u32)
    ensures
        flag == execinstr_flag(),
{
    SHF_EXECINSTR
}

} // verus!
