//! Detection of scripts that would trigger the jump-and-link decoding bug.

use crate::bytes::{le_u16, le_u32, read_u16_le, read_u32_le};
use crate::consensus::Consensus;
use crate::elf::{elf_section_headers, has_elf_magic, parse_section_headers, SectionHeader};
use crate::error::{known_bug_at, known_bug_error, ScriptError};
use crate::riscv::{decode_bits, decoded, is_ill_jump, is_known_bug, Instruction};
use crate::transaction::Transaction;
use crate::verify_env::TxVerifyEnv;
use vstd::prelude::*;
use vstd::slice::slice_subrange;

verus! {

/// The half word that starts at `pc`.
pub open spec fn half_at(data: Seq<u8>, pc: int) -> u16
    recommends
        0 <= pc,
        pc + 2 <= data.len(),
{
    le_u16(data.subrange(pc, data.len() as int))
}

/// The word that starts at `pc`.
pub open spec fn word_at(data: Seq<u8>, pc: int) -> u32
    recommends
        0 <= pc,
        pc + 4 <= data.len(),
{
    le_u32(data.subrange(pc, data.len() as int))
}

/// Whether `half` starts an instruction of four bytes: its two low bits are
/// both set. Every other half word is a candidate of two bytes.
pub open spec fn is_wide(half: u16) -> bool {
    half & 0x3 == 0x3
}

/// Length of the instruction candidate at `pc`. Where fewer than two bytes
/// are left it is 2.
pub open spec fn length_at(data: Seq<u8>, pc: int) -> u64 {
    if pc + 2 <= data.len() && is_wide(half_at(data, pc)) {
        4
    } else {
        2
    }
}

/// The instruction decoded at `pc`, if the candidate lies within `data` and a
/// decoder accepts it.
pub open spec fn instruction_at(data: Seq<u8>, pc: int) -> Option<Instruction> {
    if pc + 2 > data.len() {
        None
    } else if !is_wide(half_at(data, pc)) {
        decoded(half_at(data, pc) as u32)
    } else if pc + 4 > data.len() {
        None
    } else {
        decoded(word_at(data, pc))
    }
}

/// Whether the instruction decoded at `pc` shows the pattern of the bug.
pub open spec fn ill_at(data: Seq<u8>, pc: int) -> bool {
    match instruction_at(data, pc) {
        Some(instruction) => is_ill_jump(instruction),
        None => false,
    }
}

/// Number of bytes from `pc` up to `end`.
pub open spec fn distance(pc: int, end: int) -> nat {
    if pc < end {
        (end - pc) as nat
    } else {
        0
    }
}

/// Whether a scan that starts at `pc` and steps from one instruction
/// candidate to the next meets the pattern of the bug before it reaches `end`.
pub open spec fn ill_in_range(data: Seq<u8>, pc: int, end: int) -> bool
    decreases distance(pc, end),
{
    if pc >= end {
        false
    } else if ill_at(data, pc) {
        true
    } else {
        ill_in_range(data, pc + length_at(data, pc), end)
    }
}

/// Whether `header` describes an executable section whose scan meets the
/// pattern of the bug.
pub open spec fn section_is_ill(data: Seq<u8>, header: SectionHeader) -> bool {
    header.executable() && ill_in_range(data, header.sh_offset as int, header.end())
}

/// Whether one of `headers` describes an ill section.
pub open spec fn sections_are_ill(data: Seq<u8>, headers: Seq<SectionHeader>) -> bool {
    exists|k: int| 0 <= k < headers.len() && section_is_ill(data, #[trigger] headers[k])
}

/// Whether `data` is an ELF binary with an ill section. Empty data and data
/// that the ELF parser rejects are no scripts, and never ill.
pub open spec fn script_is_ill(data: Seq<u8>) -> bool {
    data.len() != 0 && match elf_section_headers(data) {
        Some(headers) => sections_are_ill(data, headers),
        None => false,
    }
}

/// Whether the output at `index` is ill and none before it is.
pub open spec fn first_ill_output(outputs: Seq<Seq<u8>>, index: int) -> bool {
    &&& 0 <= index < outputs.len()
    &&& script_is_ill(outputs[index])
    &&& forall|j: int| 0 <= j < index ==> !script_is_ill(#[trigger] outputs[j])
}

/// Whether no output is ill.
pub open spec fn no_ill_output(outputs: Seq<Seq<u8>>) -> bool {
    forall|j: int| 0 <= j < outputs.len() ==> !script_is_ill(#[trigger] outputs[j])
}

/// No scan finds anything where fewer than two bytes are left.
pub proof fn lemma_nothing_past_the_data(data: Seq<u8>, pc: int, end: int)
    requires
        pc + 2 > data.len(),
    ensures
        !ill_in_range(data, pc, end),
    decreases distance(pc, end),
{
    if pc < end {
        lemma_nothing_past_the_data(data, pc + 2, end);
    }
}

/// Ill formed transactions checker.
pub struct IllTransactionChecker<'a> {
    tx: &'a Transaction,
    consensus: &'a Consensus,
    tx_env: &'a TxVerifyEnv,
}

impl<'a> IllTransactionChecker<'a> {
    /// The data of the outputs of the transaction under check.
    pub closed spec fn outputs(&self) -> Seq<Seq<u8>> {
        self.tx@
    }

    /// Whether the check is switched off: version 1 of the virtual machine is
    /// in force in the epoch of the verification.
    pub closed spec fn switched_off(&self) -> bool {
        self.consensus.hardfork_switch.vm_version_1_enabled(self.tx_env.epoch_number)
    }

    /// Creates the checker for a transaction.
    pub fn new(tx: &'a Transaction, consensus: &'a Consensus, tx_env: &'a TxVerifyEnv) -> (checker:
        Self)
        ensures
            checker.outputs() == tx@,
            checker.switched_off() == consensus.hardfork_switch.vm_version_1_enabled(
                tx_env.epoch_number,
            ),
    {
        IllTransactionChecker { tx, consensus, tx_env }
    }

    /// Tells whether transactions are checked at all under `consensus` in the
    /// environment `tx_env`. Where they are not, no output is read.
    pub fn is_needed(consensus: &Consensus, tx_env: &TxVerifyEnv) -> (needed: bool)
        ensures
            needed == !consensus.hardfork_switch.vm_version_1_enabled(tx_env.epoch_number),
    {
        let epoch_number = tx_env.epoch_number_without_proposal_window();
        let hardfork_switch = consensus.hardfork_switch();
        !hardfork_switch.is_vm_version_1_and_syscalls_2_enabled(epoch_number)
    }

    /// Checks whether the transaction is ill formed. Where the check is not
    /// switched off, the outputs are checked in order, and the first ill one
    /// is reported. Only data with the identification of an ELF file is ever
    /// reported.
    pub fn check(&self) -> (result: Result<(), ScriptError>)
        ensures
            self.switched_off() ==> result is Ok,
            !self.switched_off() ==> (result is Ok <==> no_ill_output(self.outputs())),
            result matches Err(e) ==> (e@ == known_bug_at(e@.output_index()) && first_ill_output(
                self.outputs(),
                e@.output_index() as int,
            ) && has_elf_magic(self.outputs()[e@.output_index() as int])),
    {
        if Self::is_needed(self.consensus, self.tx_env) {
            let mut i: usize = 0;
            while i < self.tx.outputs_data.len()
                invariant
                    !self.switched_off(),
                    i <= self.tx.outputs_data@.len(),
                    self.outputs().len() == self.tx.outputs_data@.len(),
                    forall|j: int| 0 <= j < i ==> !script_is_ill(#[trigger] self.outputs()[j]),
                decreases self.tx.outputs_data@.len() - i,
            {
                assert(self.outputs()[i as int] == self.tx.outputs_data@[i as int]@);
                let checked = IllScriptChecker::new(self.tx.outputs_data[i].as_slice(), i).check();
                if checked.is_err() {
                    return checked;
                }
                i += 1;
            }
        }
        Ok(())
    }
}

/// Checker of the data of one output.
pub struct IllScriptChecker<'a> {
    data: &'a [u8],
    index: usize,
}

impl<'a> IllScriptChecker<'a> {
    /// The data under check.
    pub closed spec fn bytes(&self) -> Seq<u8> {
        self.data@
    }

    /// Index of the output that the data belongs to.
    pub closed spec fn output_index(&self) -> usize {
        self.index
    }

    /// Creates the checker for the data of the output at `index`.
    pub fn new(data: &'a [u8], index: usize) -> (checker: Self)
        ensures
            checker.bytes() == data@,
            checker.output_index() == index,
    {
        IllScriptChecker { data, index }
    }

    /// Checks whether the data is an ELF binary with an ill section.
    pub fn check(&self) -> (result: Result<(), ScriptError>)
        ensures
            result is Err <==> script_is_ill(self.bytes()),
            result matches Err(e) ==> e@ == known_bug_at(self.output_index()),
            self.bytes().len() == 0 ==> result is Ok,
            elf_section_headers(self.bytes()) is None ==> result is Ok,
            !has_elf_magic(self.bytes()) ==> result is Ok,
    {
        if self.data.len() == 0 {
            return Ok(());
        }
        match parse_section_headers(self.data) {
            Some(headers) => self.check_sections(headers.as_slice()),
            None => Ok(()),
        }
    }

    /// Scans the executable sections among `headers`, and fails at the first
    /// instruction that shows the pattern of the bug.
    pub fn check_sections(&self, headers: &[SectionHeader]) -> (result: Result<(), ScriptError>)
        ensures
            result is Err <==> sections_are_ill(self.bytes(), headers@),
            result matches Err(e) ==> e@ == known_bug_at(self.output_index()),
    {
        let mut k: usize = 0;
        while k < headers.len()
            invariant
                k <= headers@.len(),
                forall|j: int| 0 <= j < k ==> !section_is_ill(self.bytes(), #[trigger] headers@[j]),
            decreases headers@.len() - k,
        {
            let header = &headers[k];
            if header.is_executable() && self.scan(header.sh_offset, header.sh_size) {
                return Err(known_bug_error(self.index));
            }
            k += 1;
        }
        Ok(())
    }

    /// Scans `size` bytes from `offset` on, instruction by instruction, for
    /// the pattern of the bug. Nothing is read past the end of the data.
    pub fn scan(&self, offset: u64, size: u64) -> (ill: bool)
        ensures
            ill == ill_in_range(self.bytes(), offset as int, offset + size),
    {
        let ghost end: int = offset + size;
        let length: u64 = self.data.len() as u64;
        let stop: u64 = if offset >= length || size >= length - offset {
            length
        } else {
            offset + size
        };
        let mut pc: u64 = offset;
        while pc < stop
            invariant
                end == offset + size,
                length == self.data@.len(),
                stop <= length,
                stop <= end,
                stop == end || stop == length,
                offset <= pc,
                ill_in_range(self.bytes(), offset as int, end) == ill_in_range(
                    self.bytes(),
                    pc as int,
                    end,
                ),
            decreases stop - pc,
        {
            let (instruction, step) = self.decode_instruction(pc);
            if let Some(i) = instruction {
                if is_known_bug(i) {
                    return true;
                }
            }
            assert(ill_in_range(self.bytes(), pc as int, end) == ill_in_range(
                self.bytes(),
                pc + step,
                end,
            ));
            if step >= stop - pc {
                proof {
                    if pc + step < end {
                        lemma_nothing_past_the_data(self.bytes(), pc + step, end);
                    }
                }
                return false;
            }
            pc += step;
        }
        proof {
            if pc < end {
                lemma_nothing_past_the_data(self.bytes(), pc as int, end);
            }
        }
        false
    }

    /// Decodes the instruction at `pc`. Returns it, if there is one, with the
    /// number of bytes to step over.
    pub fn decode_instruction(&self, pc: u64) -> (decoding: (Option<Instruction>, u64))
        ensures
            decoding.0 == instruction_at(self.bytes(), pc as int),
            decoding.1 == length_at(self.bytes(), pc as int),
    {
        let length: u64 = self.data.len() as u64;
        if length < 2 || pc > length - 2 {
            return (None, 2);
        }
        let rest = slice_subrange(self.data, pc as usize, self.data.len());
        let half: u16 = read_u16_le(rest);
        if half & 0x3 != 0x3 {
            return (decode_bits(u32::from(half)), 2);
        }
        if length < 4 || pc > length - 4 {
            return (None, 4);
        }
        (decode_bits(read_u32_le(rest)), 4)
    }
}

/// The bytes that a decoding at `pc` can read: up to four, from `pc` on.
pub open spec fn window(data: Seq<u8>, pc: int) -> Seq<u8>
    recommends
        0 <= pc,
{
    if pc >= data.len() {
        Seq::empty()
    } else if pc + 4 <= data.len() {
        data.subrange(pc, pc + 4)
    } else {
        data.subrange(pc, data.len() as int)
    }
}

/// The window holds the bytes that are left from `pc` on, up to four.
proof fn lemma_window_length(data: Seq<u8>, pc: int)
    requires
        0 <= pc,
    ensures
        window(data, pc).len() == if pc >= data.len() {
            0
        } else if pc + 4 <= data.len() {
            4
        } else {
            data.len() - pc
        },
{
}

/// Decoding is a function of the window alone: two buffers that hold the same
/// bytes in the window at `pc` are decoded alike there, instruction and length.
pub proof fn decoding_depends_on_the_window(a: Seq<u8>, b: Seq<u8>, pc: int)
    requires
        0 <= pc,
        window(a, pc) == window(b, pc),
    ensures
        instruction_at(a, pc) == instruction_at(b, pc),
        length_at(a, pc) == length_at(b, pc),
{
    lemma_window_length(a, pc);
    lemma_window_length(b, pc);
    if pc + 2 <= a.len() {
        assert(a[pc] == window(a, pc)[0] && b[pc] == window(b, pc)[0]);
        assert(a[pc + 1] == window(a, pc)[1] && b[pc + 1] == window(b, pc)[1]);
        assert(half_at(a, pc) == half_at(b, pc));
        if pc + 4 <= a.len() {
            assert(a[pc + 2] == window(a, pc)[2] && b[pc + 2] == window(b, pc)[2]);
            assert(a[pc + 3] == window(a, pc)[3] && b[pc + 3] == window(b, pc)[3]);
            assert(word_at(a, pc) == word_at(b, pc));
        }
    }
}

/// An executable section that starts with an ill jump makes the sections ill,
/// wherever it stands among them, unless it is empty.
pub proof fn section_that_starts_with_an_ill_jump(
    data: Seq<u8>,
    headers: Seq<SectionHeader>,
    k: int,
)
    requires
        0 <= k < headers.len(),
        headers[k].executable(),
        headers[k].sh_size > 0,
        ill_at(data, headers[k].sh_offset as int),
    ensures
        sections_are_ill(data, headers),
{
    assert(section_is_ill(data, headers[k]));
}

/// A section that holds no more than the instruction candidate at its start
/// is ill exactly if it is executable and that instruction is an ill jump.
pub proof fn section_of_one_instruction(data: Seq<u8>, header: SectionHeader)
    requires
        0 < header.sh_size <= length_at(data, header.sh_offset as int),
    ensures
        section_is_ill(data, header) == (header.executable() && ill_at(
            data,
            header.sh_offset as int,
        )),
{
    let start = header.sh_offset as int;
    assert(!ill_in_range(data, start + length_at(data, start), header.end()));
}

/// Sections of which none is executable are never ill.
pub proof fn sections_without_code(data: Seq<u8>, headers: Seq<SectionHeader>)
    requires
        forall|k: int| 0 <= k < headers.len() ==> !(#[trigger] headers[k]).executable(),
    ensures
        !sections_are_ill(data, headers),
{
}

/// At most one output is the first ill one: the index that a failed check
/// reports is determined by the outputs.
pub proof fn first_ill_output_is_unique(outputs: Seq<Seq<u8>>, i: int, j: int)
    requires
        first_ill_output(outputs, i),
        first_ill_output(outputs, j),
    ensures
        i == j,
{
}

/// Where some output is ill, one of them is the first.
pub proof fn ill_outputs_have_a_first(outputs: Seq<Seq<u8>>, k: int) -> (i: int)
    requires
        0 <= k < outputs.len(),
        script_is_ill(outputs[k]),
    ensures
        0 <= i <= k,
        first_ill_output(outputs, i),
    decreases k,
{
    if exists|j: int| 0 <= j < k && script_is_ill(#[trigger] outputs[j]) {
        let j = choose|j: int| 0 <= j < k && script_is_ill(#[trigger] outputs[j]);
        ill_outputs_have_a_first(outputs, j)
    } else {
        k
    }
}

} // verus!
