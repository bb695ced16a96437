//! Opcode dispatch and top-level decoding.
//!
//! A word is classified by its major opcode (bits `[6:0]`) and, where the
//! group needs it, by `funct3` (bits `[14:12]`), `funct7` (bits `[31:25]`) or
//! the whole 12-bit immediate (bits `[31:20]`). The table is stated once, per
//! opcode, in [`is_encoding_of`]; the decoder is proved to follow it.

use vstd::prelude::*;
use yaxpeax_arch::U8Reader;
use crate::instruction::{Instruction, InstructionView, Opcode, OperandSpec};
use crate::reader::{le16, next_unit, unread_bytes};

verus! {

/// Why a decode failed.
#[derive(Clone, Copy, Debug, PartialEq, Eq, Structural)]
pub enum DecodeError {
    /// The input ended before a full instruction could be read.
    StreamExhausted,
    /// The encoding lies in a space that is recognised but not decoded: the
    /// 16-bit compressed space, the spaces wider than 32 bits, or the FENCE
    /// group.
    UnsupportedEncoding,
    /// The bit pattern is no defined instruction.
    InvalidOpcode,
}

/// The major opcode of the FENCE group.
pub const FENCE_GROUP: u32 = 0b000_1111;

/// The major opcode: bits `[6:0]`.
pub open spec fn major(w: u32) -> int {
    w as int % 0x80
}

/// Bits `[14:12]`.
pub open spec fn funct3(w: u32) -> int {
    (w as int / 0x1000) % 8
}

/// Bits `[31:25]`.
pub open spec fn funct7(w: u32) -> int {
    w as int / 0x200_0000
}

/// Bits `[31:20]`.
pub open spec fn funct12(w: u32) -> int {
    w as int / 0x10_0000
}

/// The dispatch table: whether word `w` encodes opcode `op`. An opcode without
/// an entry (the sentinel [`Opcode::Invalid`], `FENCE`, and the 64-bit
/// extension) is encoded by no word.
pub open spec fn is_encoding_of(w: u32, op: Opcode) -> bool {
    match op {
        Opcode::LUI => major(w) == 0b011_0111,
        Opcode::AUIPC => major(w) == 0b001_0111,
        Opcode::JAL => major(w) == 0b110_1111,
        Opcode::JALR => major(w) == 0b110_0111,
        Opcode::BEQ => major(w) == 0b110_0011 && funct3(w) == 0b000,
        Opcode::BNE => major(w) == 0b110_0011 && funct3(w) == 0b001,
        Opcode::BLT => major(w) == 0b110_0011 && funct3(w) == 0b100,
        Opcode::BGE => major(w) == 0b110_0011 && funct3(w) == 0b101,
        Opcode::BLTU => major(w) == 0b110_0011 && funct3(w) == 0b110,
        Opcode::BGEU => major(w) == 0b110_0011 && funct3(w) == 0b111,
        Opcode::LB => major(w) == 0b000_0011 && funct3(w) == 0b000,
        Opcode::LH => major(w) == 0b000_0011 && funct3(w) == 0b001,
        Opcode::LW => major(w) == 0b000_0011 && funct3(w) == 0b010,
        Opcode::LBU => major(w) == 0b000_0011 && funct3(w) == 0b100,
        Opcode::LHU => major(w) == 0b000_0011 && funct3(w) == 0b101,
        Opcode::SB => major(w) == 0b010_0011 && funct3(w) == 0b000,
        Opcode::SH => major(w) == 0b010_0011 && funct3(w) == 0b001,
        Opcode::SW => major(w) == 0b010_0011 && funct3(w) == 0b010,
        Opcode::ADDI => major(w) == 0b001_0011 && funct3(w) == 0b000,
        Opcode::SLTI => major(w) == 0b001_0011 && funct3(w) == 0b010,
        Opcode::SLTIU => major(w) == 0b001_0011 && funct3(w) == 0b011,
        Opcode::XORI => major(w) == 0b001_0011 && funct3(w) == 0b100,
        Opcode::ORI => major(w) == 0b001_0011 && funct3(w) == 0b110,
        Opcode::ANDI => major(w) == 0b001_0011 && funct3(w) == 0b111,
        Opcode::SLLI => major(w) == 0b001_0011 && funct3(w) == 0b001,
        Opcode::SRLI => major(w) == 0b001_0011 && funct3(w) == 0b101 && funct7(w) == 0b000_0000,
        Opcode::SRAI => major(w) == 0b001_0011 && funct3(w) == 0b101 && funct7(w) == 0b010_0000,
        Opcode::ADD => major(w) == 0b011_0011 && funct3(w) == 0b000 && funct7(w) == 0b000_0000,
        Opcode::SUB => major(w) == 0b011_0011 && funct3(w) == 0b000 && funct7(w) == 0b010_0000,
        Opcode::SLL => major(w) == 0b011_0011 && funct3(w) == 0b001,
        Opcode::SLT => major(w) == 0b011_0011 && funct3(w) == 0b010,
        Opcode::SLTU => major(w) == 0b011_0011 && funct3(w) == 0b011,
        Opcode::XOR => major(w) == 0b011_0011 && funct3(w) == 0b100,
        Opcode::SRL => major(w) == 0b011_0011 && funct3(w) == 0b101 && funct7(w) == 0b000_0000,
        Opcode::SRA => major(w) == 0b011_0011 && funct3(w) == 0b101 && funct7(w) == 0b010_0000,
        Opcode::OR => major(w) == 0b011_0011 && funct3(w) == 0b110,
        Opcode::AND => major(w) == 0b011_0011 && funct3(w) == 0b111,
        Opcode::ECALL => major(w) == 0b111_0011 && funct12(w) == 0,
        Opcode::EBREAK => major(w) == 0b111_0011 && funct12(w) == 1,
        _ => false,
    }
}

/// The operand descriptors of an opcode, in display order.
pub open spec fn layout(op: Opcode) -> Seq<OperandSpec> {
    match op {
        Opcode::LUI | Opcode::AUIPC => seq![
            OperandSpec::Rd,
            OperandSpec::Imm20U,
            OperandSpec::Nothing,
        ],
        Opcode::JAL => seq![OperandSpec::Rd, OperandSpec::Imm20J, OperandSpec::Nothing],
        Opcode::JALR | Opcode::ADDI | Opcode::SLTI | Opcode::SLTIU | Opcode::XORI | Opcode::ORI
        | Opcode::ANDI => seq![OperandSpec::Rd, OperandSpec::Rs1, OperandSpec::Imm12I],
        Opcode::BEQ | Opcode::BNE | Opcode::BLT | Opcode::BGE | Opcode::BLTU | Opcode::BGEU => seq![
            OperandSpec::Rs1,
            OperandSpec::Rs2,
            OperandSpec::Imm12B,
        ],
        Opcode::LB | Opcode::LH | Opcode::LW | Opcode::LBU | Opcode::LHU => seq![
            OperandSpec::Rd,
            OperandSpec::BaseOffsetRs1I,
            OperandSpec::Nothing,
        ],
        Opcode::SB | Opcode::SH | Opcode::SW => seq![
            OperandSpec::Rs2,
            OperandSpec::BaseOffsetRs1S,
            OperandSpec::Nothing,
        ],
        Opcode::SLLI | Opcode::SRLI | Opcode::SRAI => seq![
            OperandSpec::Rd,
            OperandSpec::Rs1,
            OperandSpec::Shamt,
        ],
        Opcode::ADD | Opcode::SUB | Opcode::SLL | Opcode::SLT | Opcode::SLTU | Opcode::XOR
        | Opcode::SRL | Opcode::SRA | Opcode::OR | Opcode::AND => seq![
            OperandSpec::Rd,
            OperandSpec::Rs1,
            OperandSpec::Rs2,
        ],
        _ => seq![OperandSpec::Nothing, OperandSpec::Nothing, OperandSpec::Nothing],
    }
}

/// What decoding the 32-bit word yields: the instruction of the one opcode
/// that the word encodes, with that opcode's operand layout; else an error,
/// `UnsupportedEncoding` in the FENCE group and `InvalidOpcode` elsewhere.
pub open spec fn decode32_spec(word: u32) -> Result<InstructionView, DecodeError> {
    if exists|op: Opcode| is_encoding_of(word, op) {
        let op = choose|op: Opcode| is_encoding_of(word, op);
        Ok(InstructionView { word, opcode: op, operands: layout(op) })
    } else if major(word) == FENCE_GROUP {
        Err(DecodeError::UnsupportedEncoding)
    } else {
        Err(DecodeError::InvalidOpcode)
    }
}

/// No word encodes two opcodes.
pub proof fn lemma_encoding_unique(word: u32, a: Opcode, b: Opcode)
    requires
        is_encoding_of(word, a),
        is_encoding_of(word, b),
    ensures
        a == b,
{
}

/// Dispatch is total and never guesses. A word either decodes to an
/// instruction that holds the word, an opcode other than the sentinel which
/// the word encodes with every sub-key of its group, and the three operand
/// descriptors of that opcode; or it fails, and then no opcode is encoded by
/// the word. The failure is `UnsupportedEncoding` exactly in the FENCE group
/// and never `StreamExhausted`.
pub proof fn lemma_decode32_total(word: u32)
    ensures
        match decode32_spec(word) {
            Ok(i) => {
                &&& i.word == word
                &&& i.opcode != Opcode::Invalid
                &&& is_encoding_of(word, i.opcode)
                &&& i.operands == layout(i.opcode)
                &&& i.operands.len() == 3
            },
            Err(e) => {
                &&& forall|op: Opcode| !is_encoding_of(word, op)
                &&& e != DecodeError::StreamExhausted
                &&& e == DecodeError::UnsupportedEncoding <==> major(word) == FENCE_GROUP
            },
        },
{
}

/// A word that encodes `op` decodes to `op` with its layout.
pub proof fn lemma_decode32_of_encoding(word: u32, op: Opcode)
    requires
        is_encoding_of(word, op),
    ensures
        decode32_spec(word) == Ok::<InstructionView, DecodeError>(
            InstructionView { word, opcode: op, operands: layout(op) },
        ),
{
    let chosen = choose|op: Opcode| is_encoding_of(word, op);
    lemma_encoding_unique(word, chosen, op);
}

/// The encoding space that an instruction belongs to, told by its first code
/// unit.
#[derive(Clone, Copy, Debug, PartialEq, Eq, Structural)]
pub enum EncodingSpace {
    /// 16-bit instructions: the low two bits are not `11`.
    Compressed,
    /// 32-bit instructions: the low two bits are `11`, bits `[4:2]` are not
    /// `111`.
    Standard,
    /// Instructions of 48 bits and more: the low five bits are all set.
    Wide,
}

/// The encoding space of the instruction that starts with `unit0`.
pub open spec fn encoding_space(unit0: u16) -> EncodingSpace {
    if unit0 as int % 4 != 3 {
        EncodingSpace::Compressed
    } else if (unit0 as int / 4) % 8 != 7 {
        EncodingSpace::Standard
    } else {
        EncodingSpace::Wide
    }
}

/// The 32-bit word made of two code units, the first one the low half.
pub open spec fn combine(unit0: u16, unit1: u16) -> u32 {
    (unit1 as int * 0x1_0000 + unit0 as int) as u32
}

/// What decoding a stream of code units yields. The first unit tells the
/// encoding space; only a 32-bit instruction is decoded, from the first two
/// units. A unit that is wanted and not there exhausts the stream.
pub open spec fn decode_spec(units: Seq<u16>) -> Result<InstructionView, DecodeError> {
    if units.len() == 0 {
        Err(DecodeError::StreamExhausted)
    } else if encoding_space(units[0]) != EncodingSpace::Standard {
        Err(DecodeError::UnsupportedEncoding)
    } else if units.len() == 1 {
        Err(DecodeError::StreamExhausted)
    } else {
        decode32_spec(combine(units[0], units[1]))
    }
}

/// How many code units a decode takes from the stream, whether it succeeds or
/// fails: the first one if there is any, and the second one if the first lies
/// in the 32-bit space.
pub open spec fn units_read(units: Seq<u16>) -> nat {
    if units.len() == 0 {
        0
    } else if encoding_space(units[0]) == EncodingSpace::Standard && units.len() >= 2 {
        2
    } else {
        1
    }
}

/// The code units that a byte stream holds: each pair of bytes is one unit,
/// low byte first; an odd last byte is no unit.
pub open spec fn units_of(bytes: Seq<u8>) -> Seq<u16> {
    Seq::new(bytes.len() / 2, |i: int| le16(bytes[2 * i], bytes[2 * i + 1]))
}

/// What a stream decodes to is a decoded word: its opcode is never the
/// sentinel, and its word is made of the first two units.
pub proof fn lemma_decode_spec_ok(units: Seq<u16>)
    requires
        decode_spec(units) is Ok,
    ensures
        units.len() >= 2,
        encoding_space(units[0]) == EncodingSpace::Standard,
        decode_spec(units) == decode32_spec(combine(units[0], units[1])),
        decode_spec(units)->Ok_0.word == combine(units[0], units[1]),
        decode_spec(units)->Ok_0.opcode != Opcode::Invalid,
{
    lemma_decode32_total(combine(units[0], units[1]));
}

/// The length in bytes of every instruction that this decoder accepts.
pub const INSTRUCTION_BYTES: u32 = 4;

/// Every decoded instruction occupies two code units, four bytes.
pub proof fn lemma_decoded_length(units: Seq<u16>)
    requires
        decode_spec(units) is Ok,
    ensures
        2 * units_read(units) == INSTRUCTION_BYTES,
{
}

/// The result of a decode, by the instruction's value.
pub open spec fn decoded_view(r: Result<Instruction, DecodeError>) -> Result<
    InstructionView,
    DecodeError,
> {
    match r {
        Ok(i) => Ok(i@),
        Err(e) => Err(e),
    }
}

proof fn lemma_dispatch_keys(word: u32)
    by (bit_vector)
    ensures
        word & 0x7f == word % 0x80,
        (word >> 12) & 0b111 == (word / 0x1000) % 8,
        (word >> 25) & 0x7f == word / 0x200_0000,
        word >> 20 == word / 0x10_0000,
{
}

/// Finds the opcode that `word` encodes.
fn dispatch(word: u32) -> (r: Option<Opcode>)
    ensures
        match r {
            Some(op) => is_encoding_of(word, op),
            None => forall|op: Opcode| !is_encoding_of(word, op),
        },
{
    proof {
        lemma_dispatch_keys(word);
    }
    let opc = word & 0x7f;
    let funct3 = (word >> 12) & 0b111;
    let funct7 = (word >> 25) & 0x7f;
    match opc {
        0b011_0111 => Some(Opcode::LUI),
        0b001_0111 => Some(Opcode::AUIPC),
        0b110_1111 => Some(Opcode::JAL),
        0b110_0111 => Some(Opcode::JALR),
        0b110_0011 => match funct3 {
            0b000 => Some(Opcode::BEQ),
            0b001 => Some(Opcode::BNE),
            0b100 => Some(Opcode::BLT),
            0b101 => Some(Opcode::BGE),
            0b110 => Some(Opcode::BLTU),
            0b111 => Some(Opcode::BGEU),
            _ => None,
        },
        0b000_0011 => match funct3 {
            0b000 => Some(Opcode::LB),
            0b001 => Some(Opcode::LH),
            0b010 => Some(Opcode::LW),
            0b100 => Some(Opcode::LBU),
            0b101 => Some(Opcode::LHU),
            _ => None,
        },
        0b010_0011 => match funct3 {
            0b000 => Some(Opcode::SB),
            0b001 => Some(Opcode::SH),
            0b010 => Some(Opcode::SW),
            _ => None,
        },
        0b001_0011 => match funct3 {
            0b000 => Some(Opcode::ADDI),
            0b010 => Some(Opcode::SLTI),
            0b011 => Some(Opcode::SLTIU),
            0b100 => Some(Opcode::XORI),
            0b110 => Some(Opcode::ORI),
            0b111 => Some(Opcode::ANDI),
            0b001 => Some(Opcode::SLLI),
            0b101 => match funct7 {
                0b000_0000 => Some(Opcode::SRLI),
                0b010_0000 => Some(Opcode::SRAI),
                _ => None,
            },
            _ => None,
        },
        0b011_0011 => match funct3 {
            0b000 => match funct7 {
                0b000_0000 => Some(Opcode::ADD),
                0b010_0000 => Some(Opcode::SUB),
                _ => None,
            },
            0b001 => Some(Opcode::SLL),
            0b010 => Some(Opcode::SLT),
            0b011 => Some(Opcode::SLTU),
            0b100 => Some(Opcode::XOR),
            0b101 => match funct7 {
                0b000_0000 => Some(Opcode::SRL),
                0b010_0000 => Some(Opcode::SRA),
                _ => None,
            },
            0b110 => Some(Opcode::OR),
            0b111 => Some(Opcode::AND),
            _ => None,
        },
        0b111_0011 => match word >> 20 {
            0 => Some(Opcode::ECALL),
            1 => Some(Opcode::EBREAK),
            _ => None,
        },
        _ => None,
    }
}

/// The operand descriptors that go with `opcode`.
fn operand_layout(opcode: Opcode) -> (l: [OperandSpec; 3])
    ensures
        l@ == layout(opcode),
{
    match opcode {
        Opcode::LUI | Opcode::AUIPC => [OperandSpec::Rd, OperandSpec::Imm20U, OperandSpec::Nothing],
        Opcode::JAL => [OperandSpec::Rd, OperandSpec::Imm20J, OperandSpec::Nothing],
        Opcode::JALR | Opcode::ADDI | Opcode::SLTI | Opcode::SLTIU | Opcode::XORI | Opcode::ORI
        | Opcode::ANDI => [OperandSpec::Rd, OperandSpec::Rs1, OperandSpec::Imm12I],
        Opcode::BEQ | Opcode::BNE | Opcode::BLT | Opcode::BGE | Opcode::BLTU | Opcode::BGEU => [
            OperandSpec::Rs1,
            OperandSpec::Rs2,
            OperandSpec::Imm12B,
        ],
        Opcode::LB | Opcode::LH | Opcode::LW | Opcode::LBU | Opcode::LHU => [
            OperandSpec::Rd,
            OperandSpec::BaseOffsetRs1I,
            OperandSpec::Nothing,
        ],
        Opcode::SB | Opcode::SH | Opcode::SW => [
            OperandSpec::Rs2,
            OperandSpec::BaseOffsetRs1S,
            OperandSpec::Nothing,
        ],
        Opcode::SLLI | Opcode::SRLI | Opcode::SRAI => [
            OperandSpec::Rd,
            OperandSpec::Rs1,
            OperandSpec::Shamt,
        ],
        Opcode::ADD | Opcode::SUB | Opcode::SLL | Opcode::SLT | Opcode::SLTU | Opcode::XOR
        | Opcode::SRL | Opcode::SRA | Opcode::OR | Opcode::AND => [
            OperandSpec::Rd,
            OperandSpec::Rs1,
            OperandSpec::Rs2,
        ],
        _ => [OperandSpec::Nothing, OperandSpec::Nothing, OperandSpec::Nothing],
    }
}

/// The RISC-V architecture.
#[derive(Debug)]
pub struct RISCV;

/// The decoder of 32-bit RISC-V instructions. It holds no state.
#[derive(Default, Debug)]
pub struct RiscVDecoder {}

impl Instruction {
    /// Whether the instruction is what decoding its own word gives: the
    /// opcode is the one that the word encodes and the operand descriptors
    /// are that opcode's layout. An instruction that was never decoded is
    /// not well defined.
    pub fn well_defined(&self) -> (b: bool)
        ensures
            b <==> decode32_spec(self@.word) == Ok::<InstructionView, DecodeError>(self@),
    {
        match dispatch(*self.word()) {
            Some(opcode) => {
                proof {
                    lemma_decode32_of_encoding(self@.word, opcode);
                }
                let expected = operand_layout(opcode);
                let operands = self.operands();
                let same = *self.opcode() == opcode && operands[0] == expected[0] && operands[1]
                    == expected[1] && operands[2] == expected[2];
                assert(same ==> self@.operands =~= layout(opcode));
                same
            },
            None => false,
        }
    }

    /// The length of the instruction in bytes.
    pub fn len(&self) -> (n: u32)
        ensures
            n == INSTRUCTION_BYTES,
    {
        INSTRUCTION_BYTES
    }

    /// The length in bytes of the shortest instruction.
    pub fn min_size() -> (n: u32)
        ensures
            n == INSTRUCTION_BYTES,
    {
        INSTRUCTION_BYTES
    }
}

impl RiscVDecoder {
    /// Decodes the 32-bit `word` into `instruction`. On failure `instruction`
    /// is left as it was.
    pub fn decode32_into(&self, instruction: &mut Instruction, word: u32) -> (r: Result<
        (),
        DecodeError,
    >)
        ensures
            match r {
                Ok(_) => decode32_spec(word) == Ok::<InstructionView, DecodeError>(
                    final(instruction)@,
                ),
                Err(e) => decode32_spec(word) == Err::<InstructionView, DecodeError>(e)
                    && *final(instruction) == *old(instruction),
            },
            r is Ok ==> final(instruction)@.opcode != Opcode::Invalid,
    {
        proof {
            lemma_decode32_total(word);
        }
        match dispatch(word) {
            Some(opcode) => {
                proof {
                    lemma_decode32_of_encoding(word, opcode);
                }
                instruction.set(word, opcode, operand_layout(opcode));
                Ok(())
            },
            None => {
                proof {
                    lemma_dispatch_keys(word);
                }
                if word & 0x7f == FENCE_GROUP {
                    Err(DecodeError::UnsupportedEncoding)
                } else {
                    Err(DecodeError::InvalidOpcode)
                }
            },
        }
    }

    /// Tells the encoding space of the instruction that starts with `unit0`.
    pub fn encoding_space(&self, unit0: u16) -> (space: EncodingSpace)
        ensures
            space == encoding_space(unit0),
    {
        let opc = unit0 & 0x7f;
        assert(opc & 0b11 == unit0 % 4 && (opc & 0b1_1100 == 0b1_1100 <==> (unit0 / 4) % 8 == 7))
            by (bit_vector)
            requires
                opc == unit0 & 0x7f,
        ;
        if opc & 0b11 != 0b11 {
            EncodingSpace::Compressed
        } else if opc & 0b1_1100 != 0b1_1100 {
            EncodingSpace::Standard
        } else {
            EncodingSpace::Wide
        }
    }

    /// Decodes the instruction made of the two code units, the first one the
    /// low half, into `instruction`. On failure `instruction` is left as it
    /// was.
    fn decode_pair_into(&self, instruction: &mut Instruction, unit0: u16, unit1: u16) -> (r:
        Result<(), DecodeError>)
        requires
            encoding_space(unit0) == EncodingSpace::Standard,
        ensures
            match r {
                Ok(_) => decode_spec(seq![unit0, unit1]) == Ok::<InstructionView, DecodeError>(
                    final(instruction)@,
                ),
                Err(e) => decode_spec(seq![unit0, unit1]) == Err::<InstructionView, DecodeError>(e)
                    && *final(instruction) == *old(instruction),
            },
            r is Ok ==> final(instruction)@.opcode != Opcode::Invalid,
    {
        let word = ((unit1 as u32) << 16) | (unit0 as u32);
        assert(word == combine(unit0, unit1)) by (bit_vector)
            requires
                word == ((unit1 as u32) << 16) | (unit0 as u32),
        ;
        self.decode32_into(instruction, word)
    }

    /// Decodes one instruction from the code units in `units` into
    /// `instruction`. Units after those of the first instruction are not
    /// looked at. On failure `instruction` is left as it was.
    pub fn decode_units_into(&self, instruction: &mut Instruction, units: &[u16]) -> (r: Result<
        (),
        DecodeError,
    >)
        ensures
            match r {
                Ok(_) => decode_spec(units@) == Ok::<InstructionView, DecodeError>(
                    final(instruction)@,
                ),
                Err(e) => decode_spec(units@) == Err::<InstructionView, DecodeError>(e)
                    && *final(instruction) == *old(instruction),
            },
            r is Ok ==> final(instruction)@.opcode != Opcode::Invalid,
    {
        if units.len() == 0 {
            return Err(DecodeError::StreamExhausted);
        }
        match self.encoding_space(units[0]) {
            EncodingSpace::Standard => {
                if units.len() == 1 {
                    return Err(DecodeError::StreamExhausted);
                }
                self.decode_pair_into(instruction, units[0], units[1])
            },
            _ => Err(DecodeError::UnsupportedEncoding),
        }
    }

    /// Decodes one instruction from the code units in `units`.
    pub fn decode_units(&self, units: &[u16]) -> (r: Result<Instruction, DecodeError>)
        ensures
            decoded_view(r) == decode_spec(units@),
            r matches Ok(i) ==> i@.opcode != Opcode::Invalid,
    {
        let mut instruction = Instruction::default();
        match self.decode_units_into(&mut instruction, units) {
            Ok(_) => Ok(instruction),
            Err(e) => Err(e),
        }
    }

    /// Reads the code units of one instruction from `words` and decodes them
    /// into `instruction`. On failure `instruction` is left as it was; the
    /// units that were read stay read.
    pub fn decode_into(&self, instruction: &mut Instruction, words: &mut U8Reader<'_>) -> (r:
        Result<(), DecodeError>)
        ensures
            match r {
                Ok(_) => decode_spec(units_of(unread_bytes(old(words)))) == Ok::<
                    InstructionView,
                    DecodeError,
                >(final(instruction)@),
                Err(e) => decode_spec(units_of(unread_bytes(old(words)))) == Err::<
                    InstructionView,
                    DecodeError,
                >(e) && *final(instruction) == *old(instruction),
            },
            r is Ok ==> final(instruction)@.opcode != Opcode::Invalid,
            unread_bytes(final(words)) == unread_bytes(old(words)).skip(
                2 * units_read(units_of(unread_bytes(old(words)))) as int,
            ),
    {
        let unit0 = match next_unit(words) {
            Ok(unit) => unit,
            Err(_) => {
                return Err(DecodeError::StreamExhausted);
            },
        };
        match self.encoding_space(unit0) {
            EncodingSpace::Standard => {
                let unit1 = match next_unit(words) {
                    Ok(unit) => unit,
                    Err(_) => {
                        return Err(DecodeError::StreamExhausted);
                    },
                };
                self.decode_pair_into(instruction, unit0, unit1)
            },
            _ => Err(DecodeError::UnsupportedEncoding),
        }
    }

    /// Reads the code units of one instruction from `words` and decodes them.
    pub fn decode(&self, words: &mut U8Reader<'_>) -> (r: Result<Instruction, DecodeError>)
        ensures
            decoded_view(r) == decode_spec(units_of(unread_bytes(old(words)))),
            r matches Ok(i) ==> i@.opcode != Opcode::Invalid,
            unread_bytes(final(words)) == unread_bytes(old(words)).skip(
                2 * units_read(units_of(unread_bytes(old(words)))) as int,
            ),
    {
        let mut instruction = Instruction::default();
        match self.decode_into(&mut instruction, words) {
            Ok(_) => Ok(instruction),
            Err(e) => Err(e),
        }
    }

    /// Decodes the 32-bit `word`: the instruction of the one opcode whose
    /// encoding the word matches, or an error where it matches none.
    pub fn decode32(&self, word: u32) -> (r: Result<Instruction, DecodeError>)
        ensures
            decoded_view(r) == decode32_spec(word),
            r matches Ok(i) ==> i@.word == word && i@.opcode != Opcode::Invalid && is_encoding_of(
                word,
                i@.opcode,
            ) && i@.operands == layout(i@.opcode),
            r is Err <==> forall|op: Opcode| !is_encoding_of(word, op),
            r matches Err(e) ==> e == if major(word) == FENCE_GROUP {
                DecodeError::UnsupportedEncoding
            } else {
                DecodeError::InvalidOpcode
            },
    {
        proof {
            lemma_decode32_total(word);
        }
        let mut instruction = Instruction::default();
        match self.decode32_into(&mut instruction, word) {
            Ok(_) => Ok(instruction),
            Err(e) => Err(e),
        }
    }
}

} // verus!
