//! The decoded instruction and its operands.
//!
//! An [`Instruction`] keeps the raw word, the opcode and three operand
//! descriptors. Operands are never stored resolved: each one is read from the
//! word when it is asked for.

use vstd::prelude::*;
use crate::fields::{extract_field, field_bits, field_number, lemma_field_range, signed32, FieldSpec};

verus! {

/// The mnemonic identity of an instruction.
#[derive(Clone, Copy, Debug, PartialEq, Eq, Structural)]
pub enum Opcode {
    /// The opcode of an instruction that has not been decoded.
    Invalid,
    // RV32I base instruction set
    LUI,
    AUIPC,
    JAL,
    JALR,
    BEQ,
    BNE,
    BLT,
    BGE,
    BLTU,
    BGEU,
    LB,
    LH,
    LW,
    LBU,
    LHU,
    SB,
    SH,
    SW,
    ADDI,
    SLTI,
    SLTIU,
    XORI,
    ORI,
    ANDI,
    SLLI,
    SRLI,
    SRAI,
    ADD,
    SUB,
    SLL,
    SLT,
    SLTU,
    XOR,
    SRL,
    SRA,
    OR,
    AND,
    FENCE,
    ECALL,
    EBREAK,
    // RV64I base instruction set
    LWU,
    LD,
    SD,
    ADDIW,
    SLLIW,
    SRLIW,
    SRAIW,
    ADDW,
    SUBW,
    SLLW,
    SRLW,
    SRAW,
}

/// Says how a field of the word is presented as an operand.
#[derive(Clone, Copy, Debug, PartialEq, Eq, Structural)]
pub enum OperandSpec {
    /// No operand; ends the list of displayed operands.
    Nothing,
    Rs1,
    Rs2,
    Rd,
    /// Base offset Rs1+Imm12I.
    BaseOffsetRs1I,
    /// Base offset Rs1+Imm12S.
    BaseOffsetRs1S,
    /// Shift amount (occupies the rs2 slot).
    Shamt,
    /// I-type 12-bit immediate.
    Imm12I,
    /// S-type 12-bit immediate.
    Imm12S,
    /// B-type 12-bit immediate.
    Imm12B,
    /// U-type 20-bit immediate.
    Imm20U,
    /// J-type 20-bit immediate.
    Imm20J,
}

/// A resolved operand.
#[derive(Clone, Copy, Debug, PartialEq, Eq, Structural)]
pub enum Operand {
    /// General-purpose register, by index.
    Reg(u8),
    /// Immediate.
    Imm(i32),
    /// Base register and offset.
    BaseOffset(u8, i16),
    /// Shift amount.
    Shift(u8),
    /// Unsigned immediate.
    LongImm(u32),
    /// Offset relative to the program counter.
    JOffset(i32),
}

impl Operand {
    /// A register operand names one of the 32 registers.
    pub open spec fn valid(self) -> bool {
        match self {
            Operand::Reg(r) => r < 32,
            Operand::BaseOffset(r, _) => r < 32,
            _ => true,
        }
    }
}

/// The operand that `spec` presents of word `w`, or `None` for
/// [`OperandSpec::Nothing`].
pub open spec fn resolve(w: u32, spec: OperandSpec) -> Option<Operand> {
    match spec {
        OperandSpec::Nothing => None,
        OperandSpec::Rs1 => Some(Operand::Reg(field_bits(w, FieldSpec::Rs1) as u8)),
        OperandSpec::Rs2 => Some(Operand::Reg(field_bits(w, FieldSpec::Rs2) as u8)),
        OperandSpec::Rd => Some(Operand::Reg(field_bits(w, FieldSpec::Rd) as u8)),
        OperandSpec::Shamt => Some(Operand::Shift(field_bits(w, FieldSpec::Shamt) as u8)),
        OperandSpec::Imm12I => Some(Operand::Imm(field_number(w, FieldSpec::Imm12I) as i32)),
        OperandSpec::Imm12S => Some(Operand::Imm(field_number(w, FieldSpec::Imm12S) as i32)),
        OperandSpec::Imm12B => Some(Operand::JOffset(field_number(w, FieldSpec::Imm12B) as i32)),
        OperandSpec::Imm20U => Some(Operand::Imm(field_number(w, FieldSpec::Imm20U) as i32)),
        OperandSpec::Imm20J => Some(Operand::JOffset(field_number(w, FieldSpec::Imm20J) as i32)),
        OperandSpec::BaseOffsetRs1I => Some(
            Operand::BaseOffset(
                field_bits(w, FieldSpec::Rs1) as u8,
                field_number(w, FieldSpec::Imm12I) as i16,
            ),
        ),
        OperandSpec::BaseOffsetRs1S => Some(
            Operand::BaseOffset(
                field_bits(w, FieldSpec::Rs1) as u8,
                field_number(w, FieldSpec::Imm12S) as i16,
            ),
        ),
    }
}

/// A resolved operand is valid, and only [`OperandSpec::Nothing`] resolves to
/// none.
pub proof fn lemma_resolve_valid(w: u32, spec: OperandSpec)
    ensures
        resolve(w, spec) is None <==> spec == OperandSpec::Nothing,
        resolve(w, spec) matches Some(operand) ==> operand.valid(),
{
    lemma_field_range(w, FieldSpec::Rs1);
    lemma_field_range(w, FieldSpec::Rs2);
    lemma_field_range(w, FieldSpec::Rd);
}

/// Resolving truncates nothing: a register index and a shift amount are the
/// bits of their field, an immediate and an offset are the number of theirs.
pub proof fn lemma_resolve_exact(w: u32)
    ensures
        resolve(w, OperandSpec::Rs1) matches Some(Operand::Reg(r)) && r == field_bits(
            w,
            FieldSpec::Rs1,
        ),
        resolve(w, OperandSpec::Rs2) matches Some(Operand::Reg(r)) && r == field_bits(
            w,
            FieldSpec::Rs2,
        ),
        resolve(w, OperandSpec::Rd) matches Some(Operand::Reg(r)) && r == field_bits(
            w,
            FieldSpec::Rd,
        ),
        resolve(w, OperandSpec::Shamt) matches Some(Operand::Shift(amount)) && amount
            == field_bits(w, FieldSpec::Shamt),
        resolve(w, OperandSpec::Imm12I) matches Some(Operand::Imm(v)) && v == field_number(
            w,
            FieldSpec::Imm12I,
        ),
        resolve(w, OperandSpec::Imm12S) matches Some(Operand::Imm(v)) && v == field_number(
            w,
            FieldSpec::Imm12S,
        ),
        resolve(w, OperandSpec::Imm12B) matches Some(Operand::JOffset(v)) && v == field_number(
            w,
            FieldSpec::Imm12B,
        ),
        resolve(w, OperandSpec::Imm20U) matches Some(Operand::Imm(v)) && v == field_number(
            w,
            FieldSpec::Imm20U,
        ),
        resolve(w, OperandSpec::Imm20J) matches Some(Operand::JOffset(v)) && v == field_number(
            w,
            FieldSpec::Imm20J,
        ),
        resolve(w, OperandSpec::BaseOffsetRs1I) matches Some(Operand::BaseOffset(r, offset)) && r
            == field_bits(w, FieldSpec::Rs1) && offset == field_number(w, FieldSpec::Imm12I),
        resolve(w, OperandSpec::BaseOffsetRs1S) matches Some(Operand::BaseOffset(r, offset)) && r
            == field_bits(w, FieldSpec::Rs1) && offset == field_number(w, FieldSpec::Imm12S),
{
    lemma_field_range(w, FieldSpec::Rs1);
    lemma_field_range(w, FieldSpec::Rs2);
    lemma_field_range(w, FieldSpec::Rd);
    lemma_field_range(w, FieldSpec::Shamt);
    lemma_field_range(w, FieldSpec::Imm12I);
    lemma_field_range(w, FieldSpec::Imm12S);
    lemma_field_range(w, FieldSpec::Imm12B);
    lemma_field_range(w, FieldSpec::Imm20U);
    lemma_field_range(w, FieldSpec::Imm20J);
}

/// The 32-bit pattern `bits` as a signed number.
fn as_signed(bits: u32) -> (v: i32)
    ensures
        v == signed32(bits),
{
    let v = #[verifier::truncate] (bits as i32);
    assert(v == signed32(bits)) by (bit_vector)
        requires
            v == bits as i32,
    ;
    v
}

/// The mathematical value of an instruction.
pub struct InstructionView {
    pub word: u32,
    pub opcode: Opcode,
    pub operands: Seq<OperandSpec>,
}

impl InstructionView {
    /// The value of an instruction that has not been decoded.
    pub open spec fn empty() -> InstructionView {
        InstructionView {
            word: 0,
            opcode: Opcode::Invalid,
            operands: seq![OperandSpec::Nothing, OperandSpec::Nothing, OperandSpec::Nothing],
        }
    }
}

/// A decoded instruction: the raw word, its opcode and the descriptors of up
/// to three operands, in display order.
#[derive(Debug, PartialEq)]
pub struct Instruction {
    word: u32,
    operands: [OperandSpec; 3],
    opcode: Opcode,
}

impl View for Instruction {
    type V = InstructionView;

    closed spec fn view(&self) -> InstructionView {
        InstructionView { word: self.word, opcode: self.opcode, operands: self.operands@ }
    }
}

/// An instruction always has three operand descriptors.
pub proof fn lemma_three_operands(i: Instruction)
    ensures
        i@.operands.len() == 3,
{
}

impl Default for Instruction {
    /// The instruction before any decode: word 0, opcode `Invalid`, no
    /// operands.
    fn default() -> (i: Self)
        ensures
            i@ == InstructionView::empty(),
    {
        Instruction {
            word: 0,
            operands: [OperandSpec::Nothing, OperandSpec::Nothing, OperandSpec::Nothing],
            opcode: Opcode::Invalid,
        }
    }
}

impl Instruction {
    /// Overwrites the whole instruction.
    pub(crate) fn set(&mut self, word: u32, opcode: Opcode, operands: [OperandSpec; 3])
        ensures
            final(self)@ == (InstructionView { word, opcode, operands: operands@ }),
    {
        self.word = word;
        self.opcode = opcode;
        self.operands = operands;
    }

    /// The raw bit-group `f` of the instruction word.
    pub fn field(&self, f: FieldSpec) -> (bits: u32)
        ensures
            bits == field_bits(self@.word, f),
    {
        extract_field(self.word, f)
    }

    /// The operand that `op` presents of the instruction word.
    pub fn operand(&self, op: &OperandSpec) -> (r: Option<Operand>)
        ensures
            r == resolve(self@.word, *op),
            r is None <==> *op == OperandSpec::Nothing,
            r matches Some(operand) ==> operand.valid(),
    {
        proof {
            lemma_resolve_valid(self.word, *op);
            lemma_field_range(self.word, FieldSpec::Rs1);
            lemma_field_range(self.word, FieldSpec::Rs2);
            lemma_field_range(self.word, FieldSpec::Rd);
            lemma_field_range(self.word, FieldSpec::Shamt);
            lemma_field_range(self.word, FieldSpec::Imm12I);
            lemma_field_range(self.word, FieldSpec::Imm12S);
        }
        match op {
            OperandSpec::Nothing => None,
            OperandSpec::Rs1 => Some(Operand::Reg(self.field(FieldSpec::Rs1) as u8)),
            OperandSpec::Rs2 => Some(Operand::Reg(self.field(FieldSpec::Rs2) as u8)),
            OperandSpec::Rd => Some(Operand::Reg(self.field(FieldSpec::Rd) as u8)),
            OperandSpec::Shamt => Some(Operand::Shift(self.field(FieldSpec::Shamt) as u8)),
            OperandSpec::Imm12I => Some(Operand::Imm(as_signed(self.field(FieldSpec::Imm12I)))),
            OperandSpec::Imm12S => Some(Operand::Imm(as_signed(self.field(FieldSpec::Imm12S)))),
            OperandSpec::Imm12B => Some(
                Operand::JOffset(as_signed(self.field(FieldSpec::Imm12B))),
            ),
            OperandSpec::Imm20U => Some(Operand::Imm(as_signed(self.field(FieldSpec::Imm20U)))),
            OperandSpec::Imm20J => Some(
                Operand::JOffset(as_signed(self.field(FieldSpec::Imm20J))),
            ),
            OperandSpec::BaseOffsetRs1I => Some(
                Operand::BaseOffset(
                    self.field(FieldSpec::Rs1) as u8,
                    as_signed(self.field(FieldSpec::Imm12I)) as i16,
                ),
            ),
            OperandSpec::BaseOffsetRs1S => Some(
                Operand::BaseOffset(
                    self.field(FieldSpec::Rs1) as u8,
                    as_signed(self.field(FieldSpec::Imm12S)) as i16,
                ),
            ),
        }
    }

    /// The opcode.
    pub fn opcode(&self) -> (r: &Opcode)
        ensures
            *r == self@.opcode,
    {
        &self.opcode
    }

    /// The three operand descriptors, in display order.
    pub fn operands(&self) -> (r: &[OperandSpec; 3])
        ensures
            r@ == self@.operands,
    {
        &self.operands
    }

    /// The raw instruction word.
    pub fn word(&self) -> (r: &u32)
        ensures
            *r == self@.word,
    {
        &self.word
    }
}

} // verus!
