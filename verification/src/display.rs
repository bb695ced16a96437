//! Rendering of instructions as assembly text.

use vstd::prelude::*;
use vstd::string::*;
use crate::decoder::{decode32_spec, is_encoding_of, lemma_decode32_of_encoding};
use crate::fields::{field_bits, field_number, FieldSpec};
use crate::instruction::{
    lemma_resolve_valid, resolve, Instruction, InstructionView, Opcode, Operand,
};

verus! {

/// The hexadecimal digits, in order of their value.
pub const HEX_DIGITS: &'static str = "0123456789abcdef";

/// The digits of `n` in base 16, most significant first, without leading
/// zeros; `"0"` for zero.
pub open spec fn hex_digits(n: nat) -> Seq<char>
    decreases n,
{
    if n < 16 {
        seq![HEX_DIGITS@[n as int]]
    } else {
        hex_digits(n / 16).push(HEX_DIGITS@[(n % 16) as int])
    }
}

/// Appends the base-16 digits of `v` to `text`.
fn push_hex_digits(text: &mut String, v: u32)
    ensures
        final(text)@ == old(text)@ + hex_digits(v as nat),
    decreases v,
{
    if v >= 16 {
        push_hex_digits(text, v / 16);
    }
    proof {
        reveal_strlit("0123456789abcdef");
    }
    let digit = (v % 16) as usize;
    text.append(HEX_DIGITS.substring_ascii(digit, digit + 1));
}

/// The names of the registers, by index.
pub const REG_NAMES: [&'static str; 32] = [
    "zero", "ra", "sp", "gp", "tp", "t0", "t1", "t2", "s0", "s1", "a0", "a1", "a2", "a3", "a4",
    "a5", "a6", "a7", "s2", "s3", "s4", "s5", "s6", "s7", "s8", "s9", "s10", "s11", "t3", "t4",
    "t5", "t6",
];

/// The name of register `r`.
pub open spec fn register_name(r: int) -> Seq<char> {
    REG_NAMES@[r]@
}

/// Looks up the name of register `r`.
fn reg_name(r: u8) -> (name: &'static str)
    requires
        r < 32,
    ensures
        name@ == register_name(r as int),
{
    REG_NAMES[r as usize]
}

/// The lower-case mnemonic of an opcode; empty for [`Opcode::Invalid`], which
/// has none.
pub open spec fn mnemonic(op: Opcode) -> Seq<char> {
    match op {
        Opcode::Invalid => Seq::empty(),
        Opcode::LUI => "lui"@,
        Opcode::AUIPC => "auipc"@,
        Opcode::JAL => "jal"@,
        Opcode::JALR => "jalr"@,
        Opcode::BEQ => "beq"@,
        Opcode::BNE => "bne"@,
        Opcode::BLT => "blt"@,
        Opcode::BGE => "bge"@,
        Opcode::BLTU => "bltu"@,
        Opcode::BGEU => "bgeu"@,
        Opcode::LB => "lb"@,
        Opcode::LH => "lh"@,
        Opcode::LW => "lw"@,
        Opcode::LBU => "lbu"@,
        Opcode::LHU => "lhu"@,
        Opcode::SB => "sb"@,
        Opcode::SH => "sh"@,
        Opcode::SW => "sw"@,
        Opcode::ADDI => "addi"@,
        Opcode::SLTI => "slti"@,
        Opcode::SLTIU => "sltiu"@,
        Opcode::XORI => "xori"@,
        Opcode::ORI => "ori"@,
        Opcode::ANDI => "andi"@,
        Opcode::SLLI => "slli"@,
        Opcode::SRLI => "srli"@,
        Opcode::SRAI => "srai"@,
        Opcode::ADD => "add"@,
        Opcode::SUB => "sub"@,
        Opcode::SLL => "sll"@,
        Opcode::SLT => "slt"@,
        Opcode::SLTU => "sltu"@,
        Opcode::XOR => "xor"@,
        Opcode::SRL => "srl"@,
        Opcode::SRA => "sra"@,
        Opcode::OR => "or"@,
        Opcode::AND => "and"@,
        Opcode::FENCE => "fence"@,
        Opcode::ECALL => "ecall"@,
        Opcode::EBREAK => "ebreak"@,
        Opcode::LWU => "lwu"@,
        Opcode::LD => "ld"@,
        Opcode::SD => "sd"@,
        Opcode::ADDIW => "addiw"@,
        Opcode::SLLIW => "slliw"@,
        Opcode::SRLIW => "srliw"@,
        Opcode::SRAIW => "sraiw"@,
        Opcode::ADDW => "addw"@,
        Opcode::SUBW => "subw"@,
        Opcode::SLLW => "sllw"@,
        Opcode::SRLW => "srlw"@,
        Opcode::SRAW => "sraw"@,
    }
}

impl Opcode {
    /// The lower-case mnemonic. The sentinel `Invalid` has none.
    pub fn mnemonic(&self) -> (name: &'static str)
        requires
            *self != Opcode::Invalid,
        ensures
            name@ == mnemonic(*self),
    {
        match self {
            Opcode::Invalid => "",
            Opcode::LUI => "lui",
            Opcode::AUIPC => "auipc",
            Opcode::JAL => "jal",
            Opcode::JALR => "jalr",
            Opcode::BEQ => "beq",
            Opcode::BNE => "bne",
            Opcode::BLT => "blt",
            Opcode::BGE => "bge",
            Opcode::BLTU => "bltu",
            Opcode::BGEU => "bgeu",
            Opcode::LB => "lb",
            Opcode::LH => "lh",
            Opcode::LW => "lw",
            Opcode::LBU => "lbu",
            Opcode::LHU => "lhu",
            Opcode::SB => "sb",
            Opcode::SH => "sh",
            Opcode::SW => "sw",
            Opcode::ADDI => "addi",
            Opcode::SLTI => "slti",
            Opcode::SLTIU => "sltiu",
            Opcode::XORI => "xori",
            Opcode::ORI => "ori",
            Opcode::ANDI => "andi",
            Opcode::SLLI => "slli",
            Opcode::SRLI => "srli",
            Opcode::SRAI => "srai",
            Opcode::ADD => "add",
            Opcode::SUB => "sub",
            Opcode::SLL => "sll",
            Opcode::SLT => "slt",
            Opcode::SLTU => "sltu",
            Opcode::XOR => "xor",
            Opcode::SRL => "srl",
            Opcode::SRA => "sra",
            Opcode::OR => "or",
            Opcode::AND => "and",
            Opcode::FENCE => "fence",
            Opcode::ECALL => "ecall",
            Opcode::EBREAK => "ebreak",
            Opcode::LWU => "lwu",
            Opcode::LD => "ld",
            Opcode::SD => "sd",
            Opcode::ADDIW => "addiw",
            Opcode::SLLIW => "slliw",
            Opcode::SRLIW => "srliw",
            Opcode::SRAIW => "sraiw",
            Opcode::ADDW => "addw",
            Opcode::SUBW => "subw",
            Opcode::SLLW => "sllw",
            Opcode::SRLW => "srlw",
            Opcode::SRAW => "sraw",
        }
    }
}

/// `n` in hexadecimal with the prefix `0x`.
pub open spec fn hex(n: nat) -> Seq<char> {
    "0x"@ + hex_digits(n)
}

/// `v` in signed hexadecimal: `0x..` from zero up, `-0x..` with the magnitude
/// below zero.
pub open spec fn signed_hex(v: int) -> Seq<char> {
    if v < 0 {
        "-"@ + hex((-v) as nat)
    } else {
        hex(v as nat)
    }
}

/// `v` as a displacement from the program counter: `$+0x..` from zero up,
/// `$-0x..` with the magnitude below zero.
pub open spec fn relative_hex(v: int) -> Seq<char> {
    if v < 0 {
        "$-"@ + hex((-v) as nat)
    } else {
        "$+"@ + hex(v as nat)
    }
}

/// The 32-bit two's-complement pattern of `v`, as a number.
pub open spec fn unsigned32(v: int) -> int {
    if v < 0 {
        v + 0x1_0000_0000
    } else {
        v
    }
}

impl Operand {
    /// The text of an operand on its own: a register by name, an immediate as
    /// the hexadecimal of its 32-bit pattern, a base and offset as
    /// `offset(register)` without the offset where that is zero, a shift
    /// amount and a long immediate in unsigned hexadecimal, an offset as a
    /// displacement.
    pub open spec fn text(self) -> Seq<char> {
        match self {
            Operand::Reg(r) => register_name(r as int),
            Operand::Imm(v) => hex(unsigned32(v as int) as nat),
            Operand::BaseOffset(r, offset) => if offset == 0 {
                "("@ + register_name(r as int) + ")"@
            } else {
                signed_hex(offset as int) + "("@ + register_name(r as int) + ")"@
            },
            Operand::Shift(amount) => hex(amount as nat),
            Operand::LongImm(v) => hex(v as nat),
            Operand::JOffset(offset) => relative_hex(offset as int),
        }
    }
}

/// The text of an operand within an instruction of the given opcode. An
/// immediate of `LUI` and `AUIPC` shows the upper twenty bits of its pattern,
/// unsigned; any other immediate is in signed hexadecimal; every other
/// operand reads as it does on its own.
pub open spec fn operand_text(opcode: Opcode, operand: Operand) -> Seq<char> {
    match operand {
        Operand::Imm(v) => if opcode == Opcode::LUI || opcode == Opcode::AUIPC {
            hex((unsigned32(v as int) / 0x1000) as nat)
        } else {
            signed_hex(v as int)
        },
        _ => operand.text(),
    }
}

/// Appends `v` in hexadecimal, with its prefix.
fn push_hex(text: &mut String, v: u32)
    ensures
        final(text)@ == old(text)@ + hex(v as nat),
{
    text.append("0x");
    push_hex_digits(text, v);
}

/// The magnitude of `v`.
fn magnitude(v: i32) -> (m: u32)
    ensures
        m == if v < 0 {
            -v
        } else {
            v as int
        },
{
    if v == i32::MIN {
        0x8000_0000
    } else if v < 0 {
        (-v) as u32
    } else {
        v as u32
    }
}

/// Appends `v` in signed hexadecimal.
fn push_signed_hex(text: &mut String, v: i32)
    ensures
        final(text)@ == old(text)@ + signed_hex(v as int),
{
    if v < 0 {
        text.append("-");
    }
    push_hex(text, magnitude(v));
}

/// Appends `v` as a displacement from the program counter.
fn push_relative_hex(text: &mut String, v: i32)
    ensures
        final(text)@ == old(text)@ + relative_hex(v as int),
{
    if v < 0 {
        text.append("$-");
    } else {
        text.append("$+");
    }
    push_hex(text, magnitude(v));
}

/// The pattern of `v` as an unsigned number.
fn as_unsigned(v: i32) -> (bits: u32)
    ensures
        bits == unsigned32(v as int),
{
    let bits = #[verifier::truncate] (v as u32);
    assert(bits == unsigned32(v as int)) by (bit_vector)
        requires
            bits == v as u32,
    ;
    bits
}

/// Appends the text that `operand` has on its own.
fn push_operand_plain(text: &mut String, operand: &Operand)
    requires
        operand.valid(),
    ensures
        final(text)@ == old(text)@ + operand.text(),
{
    match operand {
        Operand::Reg(r) => {
            text.append(reg_name(*r));
        },
        Operand::Imm(v) => {
            push_hex(text, as_unsigned(*v));
        },
        Operand::BaseOffset(r, offset) => {
            if *offset != 0 {
                push_signed_hex(text, *offset as i32);
            }
            text.append("(");
            text.append(reg_name(*r));
            text.append(")");
        },
        Operand::Shift(amount) => {
            push_hex(text, *amount as u32);
        },
        Operand::LongImm(v) => {
            push_hex(text, *v);
        },
        Operand::JOffset(offset) => {
            push_relative_hex(text, *offset);
        },
    }
}

/// Appends the text that `operand` has within an instruction of `opcode`.
fn push_operand(text: &mut String, opcode: Opcode, operand: &Operand)
    requires
        operand.valid(),
    ensures
        final(text)@ == old(text)@ + operand_text(opcode, *operand),
{
    match operand {
        Operand::Imm(v) => {
            if opcode == Opcode::LUI || opcode == Opcode::AUIPC {
                // The immediate of LUI is shown unshifted and unsigned.
                let bits = as_unsigned(*v);
                assert(bits >> 12 == bits / 0x1000) by (bit_vector);
                push_hex(text, bits >> 12);
            } else {
                push_signed_hex(text, *v);
            }
        },
        _ => {
            push_operand_plain(text, operand);
        },
    }
}

impl Operand {
    /// The text of the operand on its own.
    pub fn to_text(&self) -> (text: String)
        requires
            self.valid(),
        ensures
            text@ == self.text(),
    {
        let mut text = String::new();
        push_operand_plain(&mut text, self);
        text
    }
}

/// The text of `operand` within an instruction of `opcode`.
pub fn display_operand(opcode: &Opcode, operand: &Operand) -> (text: String)
    requires
        operand.valid(),
    ensures
        text@ == operand_text(*opcode, *operand),
{
    let mut text = String::new();
    push_operand(&mut text, *opcode, operand);
    text
}

/// The offset that a third operand of a branch stands for, if it is one.
pub open spec fn branch_offset(operand: Operand) -> Option<int> {
    match operand {
        Operand::JOffset(offset) => Some(offset as int),
        Operand::Imm(offset) => Some(offset as int),
        _ => None,
    }
}

/// The pseudo-instruction that stands for the opcode with these operands, if
/// there is one:
/// - `ADDI` with three operands, the third the immediate zero, is `nop` where
///   the first two are equal and `mv first, second` where they differ;
/// - `BEQ` of a register with itself is `beq` and the displacement alone;
/// - `SLL` of a register into itself by the shift amount zero is `nop`.
pub open spec fn pseudo_text(
    opcode: Opcode,
    first: Option<Operand>,
    second: Option<Operand>,
    third: Option<Operand>,
) -> Option<Seq<char>> {
    match (opcode, first, second, third) {
        (Opcode::ADDI, Some(a), Some(b), Some(Operand::Imm(imm))) => if imm != 0 {
            None
        } else if a == b {
            Some("nop"@)
        } else {
            Some("mv "@ + a.text() + ", "@ + b.text())
        },
        (Opcode::BEQ, Some(Operand::Reg(a)), Some(Operand::Reg(b)), Some(c)) => if a == b
            && branch_offset(c) is Some {
            Some("beq "@ + relative_hex(branch_offset(c)->0))
        } else {
            None
        },
        (
            Opcode::SLL,
            Some(Operand::Reg(dest)),
            Some(Operand::Reg(src)),
            Some(Operand::Shift(amount)),
        ) => if dest == src && amount == 0 {
            Some("nop"@)
        } else {
            None
        },
        _ => None,
    }
}

/// The mnemonic, a space, and the operands separated by `", "`, up to the
/// first operand that is absent. Without a first operand the text is the
/// mnemonic alone.
pub open spec fn generic_text(
    opcode: Opcode,
    first: Option<Operand>,
    second: Option<Operand>,
    third: Option<Operand>,
) -> Seq<char> {
    match (first, second, third) {
        (None, _, _) => mnemonic(opcode),
        (Some(a), None, _) => mnemonic(opcode) + " "@ + operand_text(opcode, a),
        (Some(a), Some(b), None) => mnemonic(opcode) + " "@ + operand_text(opcode, a) + ", "@
            + operand_text(opcode, b),
        (Some(a), Some(b), Some(c)) => mnemonic(opcode) + " "@ + operand_text(opcode, a) + ", "@
            + operand_text(opcode, b) + ", "@ + operand_text(opcode, c),
    }
}

/// The assembly text of an opcode with its resolved operands: the
/// pseudo-instruction where one applies, the generic rendering otherwise.
pub open spec fn resolved_text(
    opcode: Opcode,
    first: Option<Operand>,
    second: Option<Operand>,
    third: Option<Operand>,
) -> Seq<char> {
    match pseudo_text(opcode, first, second, third) {
        Some(text) => text,
        None => generic_text(opcode, first, second, third),
    }
}

/// The assembly text of an instruction: that of its opcode with each operand
/// descriptor resolved against the word.
pub open spec fn instruction_text(i: InstructionView) -> Seq<char> {
    resolved_text(
        i.opcode,
        resolve(i.word, i.operands[0]),
        resolve(i.word, i.operands[1]),
        resolve(i.word, i.operands[2]),
    )
}

/// A pseudo-instruction takes precedence: `ADDI` of a register with itself and
/// the immediate zero renders as `nop`, and not as a `mv` of the register to
/// itself.
pub proof fn lemma_addi_self_zero_is_nop(operand: Operand)
    ensures
        resolved_text(Opcode::ADDI, Some(operand), Some(operand), Some(Operand::Imm(0)))
            == "nop"@,
        "nop"@ != "mv "@ + operand.text() + ", "@ + operand.text(),
{
    reveal_strlit("nop");
    reveal_strlit("mv ");
    let mv = "mv "@ + operand.text() + ", "@ + operand.text();
    assert(mv[0] == 'm');
}

/// The same for a decoded word: where `word` encodes `ADDI`, its two register
/// fields are equal and its immediate is zero, the decoded instruction
/// renders as `nop`.
pub proof fn lemma_decoded_addi_self_zero_is_nop(word: u32)
    requires
        is_encoding_of(word, Opcode::ADDI),
        field_bits(word, FieldSpec::Rd) == field_bits(word, FieldSpec::Rs1),
        field_number(word, FieldSpec::Imm12I) == 0,
    ensures
        decode32_spec(word) matches Ok(i) && instruction_text(i) == "nop"@,
{
    lemma_decode32_of_encoding(word, Opcode::ADDI);
}

/// Formatting is idempotent: the text is a function of the instruction's
/// value alone, so two renderings of one instruction are the same text.
pub proof fn lemma_format_idempotent(i: Instruction, first: String, second: String)
    requires
        first@ == instruction_text(i@),
        second@ == instruction_text(i@),
    ensures
        first@ == second@,
{
}

/// An absent operand, or a valid one.
pub open spec fn valid_or_absent(operand: Option<Operand>) -> bool {
    operand matches Some(op) ==> op.valid()
}

/// The pseudo-instruction for the opcode and operands, if one applies.
fn pseudo_instruction(
    opcode: Opcode,
    first: &Option<Operand>,
    second: &Option<Operand>,
    third: &Option<Operand>,
) -> (r: Option<String>)
    requires
        valid_or_absent(*first),
        valid_or_absent(*second),
        valid_or_absent(*third),
    ensures
        match r {
            Some(text) => pseudo_text(opcode, *first, *second, *third) == Some(text@),
            None => pseudo_text(opcode, *first, *second, *third) is None,
        },
{
    match (opcode, first, second, third) {
        (Opcode::ADDI, Some(a), Some(b), Some(Operand::Imm(imm))) => {
            if *imm != 0 {
                None
            } else if *a == *b {
                Some(String::from_str("nop"))
            } else {
                let mut text = String::from_str("mv ");
                push_operand_plain(&mut text, a);
                text.append(", ");
                push_operand_plain(&mut text, b);
                Some(text)
            }
        },
        (Opcode::BEQ, Some(Operand::Reg(a)), Some(Operand::Reg(b)), Some(c)) => {
            if *a != *b {
                None
            } else {
                match c {
                    Operand::JOffset(offset) | Operand::Imm(offset) => {
                        let mut text = String::from_str("beq ");
                        push_relative_hex(&mut text, *offset);
                        Some(text)
                    },
                    _ => None,
                }
            }
        },
        (
            Opcode::SLL,
            Some(Operand::Reg(dest)),
            Some(Operand::Reg(src)),
            Some(Operand::Shift(amount)),
        ) => {
            if *dest == *src && *amount == 0 {
                Some(String::from_str("nop"))
            } else {
                None
            }
        },
        _ => None,
    }
}

/// Renders an opcode with its resolved operands as assembly text.
///
/// A pseudo-instruction takes precedence over the generic rendering, and no
/// operand after an absent one is shown.
pub fn format_resolved(
    opcode: &Opcode,
    first: &Option<Operand>,
    second: &Option<Operand>,
    third: &Option<Operand>,
) -> (text: String)
    requires
        *opcode != Opcode::Invalid,
        valid_or_absent(*first),
        valid_or_absent(*second),
        valid_or_absent(*third),
    ensures
        text@ == resolved_text(*opcode, *first, *second, *third),
{
    if let Some(text) = pseudo_instruction(*opcode, first, second, third) {
        return text;
    }
    let mut text = String::from_str(opcode.mnemonic());
    if let Some(a) = first {
        text.append(" ");
        push_operand(&mut text, *opcode, a);
        if let Some(b) = second {
            text.append(", ");
            push_operand(&mut text, *opcode, b);
            if let Some(c) = third {
                text.append(", ");
                push_operand(&mut text, *opcode, c);
            }
        }
    }
    text
}

impl Instruction {
    /// The assembly text of the instruction.
    pub fn to_text(&self) -> (text: String)
        requires
            self@.opcode != Opcode::Invalid,
        ensures
            text@ == instruction_text(self@),
    {
        let specs = self.operands();
        let first = self.operand(&specs[0]);
        let second = self.operand(&specs[1]);
        let third = self.operand(&specs[2]);
        proof {
            lemma_resolve_valid(self@.word, specs[0]);
            lemma_resolve_valid(self@.word, specs[1]);
            lemma_resolve_valid(self@.word, specs[2]);
        }
        format_resolved(self.opcode(), &first, &second, &third)
    }
}

} // verus!
