//! Instructions as the virtual machine packs them, and the machine's decoders.
//!
//! A decoded instruction is a 64-bit word: the low byte and the third byte
//! hold the operation code, the second byte the destination register and the
//! fifth byte the first source register.

use ckb_vm::instructions::{extract_opcode, i, m, rvc, Itype};
use ckb_vm::machine::VERSION0;
use ckb_vm::registers::ZERO;
use ckb_vm_definitions::instructions::OP_JALR;
use vstd::prelude::*;

verus! {

/// A decoded instruction in the machine's packed form.
pub type Instruction = u64;

/// Operation code of the register-indirect jump-and-link.
pub open spec fn jalr_opcode() -> u16 {
    0x27
}

/// Index of the register that is hard-wired to zero.
pub open spec fn zero_register() -> usize {
    0
}

/// Operation code of a packed instruction.
pub open spec fn opcode_of(instruction: Instruction) -> u16 {
    (((instruction >> 8) & 0xff00) | (instruction & 0x00ff)) as u16
}

/// Destination register of a packed instruction in the I format.
pub open spec fn rd_of(instruction: Instruction) -> usize {
    ((instruction >> 8) as u8) as usize
}

/// First source register of a packed instruction in the I format.
pub open spec fn rs1_of(instruction: Instruction) -> usize {
    ((instruction >> 32) as u8) as usize
}

/// Whether the instruction is a jump-and-link through a register that it also
/// overwrites with the return address, the zero register excepted.
pub open spec fn is_ill_jump(instruction: Instruction) -> bool {
    &&& opcode_of(instruction) == jalr_opcode()
    &&& rs1_of(instruction) == rd_of(instruction)
    &&& rd_of(instruction) != zero_register()
}

/// What the decoder of compressed instructions makes of `bits` for a machine
/// of the first version with 64-bit registers.
pub uninterp spec fn rvc_instruction(bits: u32) -> Option<Instruction>;

/// What the decoder of the base integer instructions makes of `bits` for a
/// machine of the first version with 64-bit registers.
pub uninterp spec fn base_instruction(bits: u32) -> Option<Instruction>;

/// What the decoder of the multiply and divide instructions makes of `bits`
/// for a machine of the first version with 64-bit registers.
pub uninterp spec fn muldiv_instruction(bits: u32) -> Option<Instruction>;

/// The first decoding of `bits` that succeeds, the decoders taken in the
/// order compressed, base integer, multiply and divide.
pub open spec fn decoded(bits: u32) -> Option<Instruction> {
    if rvc_instruction(bits) is Some {
        rvc_instruction(bits)
    } else if base_instruction(bits) is Some {
        base_instruction(bits)
    } else {
        muldiv_instruction(bits)
    }
}

/// Calls `ckb_vm::instructions::rvc::factory` for 64-bit registers and
/// `VERSION0`. The call is a pure function of `bits`; its result is only named.
#[verifier::external_body]
fn rvc_factory(bits: u32) -> (instruction: Option<Instruction>)
    ensures
        instruction == rvc_instruction(bits),
{
    rvc::factory::<u64>(bits, VERSION0)
}

/// Calls `ckb_vm::instructions::i::factory` for 64-bit registers and
/// `VERSION0`. The call is a pure function of `bits`; its result is only named.
#[verifier::external_body]
fn base_factory(bits: u32) -> (instruction: Option<Instruction>)
    ensures
        instruction == base_instruction(bits),
{
    i::factory::<u64>(bits, VERSION0)
}

/// Calls `ckb_vm::instructions::m::factory` for 64-bit registers and
/// `VERSION0`. The call is a pure function of `bits`; its result is only named.
#[verifier::external_body]
fn muldiv_factory(bits: u32) -> (instruction: Option<Instruction>)
    ensures
        instruction == muldiv_instruction(bits),
{
    m::factory::<u64>(bits, VERSION0)
}

/// Calls `ckb_vm::instructions::extract_opcode`, which joins the third and
/// the first byte of the packed instruction into the operation code.
#[verifier::external_body]
fn opcode(instruction: Instruction) -> (op: u16)
    ensures
        op == opcode_of(instruction),
{
    extract_opcode(instruction)
}

/// Calls `ckb_vm::instructions::Itype::rd`, which returns the second byte of
/// the packed instruction.
#[verifier::external_body]
fn itype_rd(instruction: Instruction) -> (rd: usize)
    ensures
        rd == rd_of(instruction),
{
    Itype(instruction).rd()
}

/// Calls `ckb_vm::instructions::Itype::rs1`, which returns the fifth byte of
/// the packed instruction.
#[verifier::external_body]
fn itype_rs1(instruction: Instruction) -> (rs1: usize)
    ensures
        rs1 == rs1_of(instruction),
{
    Itype(instruction).rs1()
}

/// Hands out `ckb_vm_definitions::instructions::OP_JALR`.
#[verifier::external_body]
fn op_jalr() -> (op: u16)
    ensures
        op == jalr_opcode(),
{
    OP_JALR
}

/// Hands out `ckb_vm::registers::ZERO`.
#[verifier::external_body]
fn zero() -> (register: usize)
    ensures
        register == zero_register(),
{
    ZERO
}

/// Decodes `bits` with the first decoder that accepts them.
pub fn decode_bits(bits: u32) -> (instruction: Option<Instruction>)
    ensures
        instruction == decoded(bits),
{
    let compressed = rvc_factory(bits);
    if compressed.is_some() {
        return compressed;
    }
    let base = base_factory(bits);
    if base.is_some() {
        return base;
    }
    muldiv_factory(bits)
}

/// Tells whether `instruction` shows the pattern of the known bug.
pub fn is_known_bug(instruction: Instruction) -> (ill: bool)
    ensures
        ill == is_ill_jump(instruction),
{
    if opcode(instruction) == op_jalr() {
        let rd = itype_rd(instruction);
        itype_rs1(instruction) == rd && rd != zero()
    } else {
        false
    }
}

} // verus!
