use yaxpeax_riscv::fields::extract_field;
use yaxpeax_riscv::{FieldSpec, Instruction, Operand, OperandSpec, RiscVDecoder};

fn decoded(word: u32) -> Instruction {
    RiscVDecoder::default().decode32(word).unwrap()
}

#[test]
fn register_fields_are_five_bits_wide() {
    assert_eq!(extract_field(0xfbc6_0613, FieldSpec::Rd), 12);
    assert_eq!(extract_field(0xfbc6_0613, FieldSpec::Rs1), 12);
    assert_eq!(extract_field(0xfbc6_0613, FieldSpec::Rs2), 28);
    assert_eq!(extract_field(0xfbc6_0613, FieldSpec::Shamt), 28);
    assert_eq!(extract_field(0xffff_ffff, FieldSpec::Rd), 31);
    assert_eq!(extract_field(0xffff_ffff, FieldSpec::Rs1), 31);
    assert_eq!(extract_field(0xffff_ffff, FieldSpec::Rs2), 31);
    assert_eq!(extract_field(0, FieldSpec::Rs1), 0);
}

#[test]
fn imm12i_is_sign_extended() {
    assert_eq!(extract_field(0xfbc6_0613, FieldSpec::Imm12I), 0xffff_ffbc);
    assert_eq!(extract_field(0x7ff0_0013, FieldSpec::Imm12I), 0x7ff);
    assert_eq!(extract_field(0x8000_0013, FieldSpec::Imm12I), 0xffff_f800);
    assert_eq!(extract_field(0xfff0_0113, FieldSpec::Imm12I), 0xffff_ffff);
}

#[test]
fn imm12s_joins_both_parts_and_sign_extends() {
    assert_eq!(extract_field(0x18a1_2023, FieldSpec::Imm12S), 0x180);
    assert_eq!(extract_field(0xfe11_2e23, FieldSpec::Imm12S), 0xffff_fffc);
    assert_eq!(extract_field(0x0000_0fe3, FieldSpec::Imm12S), 0x1f);
    assert_eq!(extract_field(0x8000_0037, FieldSpec::Imm12S), 0xffff_f800);
}

#[test]
fn imm12b_reassembles_scattered_bits() {
    assert_eq!(extract_field(0x00f7_1a63, FieldSpec::Imm12B), 0x14);
    assert_eq!(extract_field(0xfe07_96e3, FieldSpec::Imm12B), 0xffff_ffec);
    // Bit 24 of the word belongs to rs2 and must not leak into the offset.
    assert_eq!(extract_field(0x0100_9463, FieldSpec::Imm12B), 0x8);
    // Bit 7 of the word is bit 11 of the offset.
    assert_eq!(extract_field(0x0000_0fe3, FieldSpec::Imm12B), 0x81e);
    // Bit 31 alone is the sign: bit 12 and everything above.
    assert_eq!(extract_field(0x8000_0037, FieldSpec::Imm12B), 0xffff_f000);
    assert_eq!(extract_field(0xfe00_0ee3, FieldSpec::Imm12B), 0xffff_fffc);
}

#[test]
fn imm12b_bit_zero_is_always_clear() {
    let mut word: u32 = 0x1234_5678;
    for _ in 0..2000 {
        word = word.wrapping_mul(1_664_525).wrapping_add(1_013_904_223);
        assert_eq!(extract_field(word, FieldSpec::Imm12B) & 1, 0);
        assert_eq!(extract_field(word, FieldSpec::Imm20J) & 1, 0);
    }
}

#[test]
fn imm20u_stays_in_place() {
    assert_eq!(extract_field(0x0288_3197, FieldSpec::Imm20U), 0x0288_3000);
    assert_eq!(extract_field(0xc000_05b7, FieldSpec::Imm20U), 0xc000_0000);
    assert_eq!(extract_field(0x0000_0fff, FieldSpec::Imm20U), 0);
}

#[test]
fn imm20j_reassembles_scattered_bits() {
    assert_eq!(extract_field(0x5940_20ef, FieldSpec::Imm20J), 0x2594);
    assert_eq!(extract_field(0xffdf_f06f, FieldSpec::Imm20J), 0xffff_fffc);
    assert_eq!(extract_field(0x0000_006f, FieldSpec::Imm20J), 0);
    // Bit 20 of the word is bit 11 of the offset.
    assert_eq!(extract_field(0x0010_00ef, FieldSpec::Imm20J), 0x800);
    // Bits [19:12] stay where they are.
    assert_eq!(extract_field(0x000f_f0ef, FieldSpec::Imm20J), 0xf_f000);
    // Bits [30:21] are bits [10:1] of the offset.
    assert_eq!(extract_field(0x7fe0_00ef, FieldSpec::Imm20J), 0x7fe);
    assert_eq!(extract_field(0x8000_00ef, FieldSpec::Imm20J), 0xfff0_0000);
}

fn place(value: u32, f: FieldSpec) -> u32 {
    match f {
        FieldSpec::Rs1 => (value & 0x1f) << 15,
        FieldSpec::Rs2 | FieldSpec::Shamt => (value & 0x1f) << 20,
        FieldSpec::Rd => (value & 0x1f) << 7,
        FieldSpec::Imm12I => (value & 0xfff) << 20,
        FieldSpec::Imm12S => ((value & 0xfe0) << 20) | ((value & 0x1f) << 7),
        FieldSpec::Imm12B => {
            ((value & 0x1000) << 19)
                | ((value & 0x7e0) << 20)
                | ((value & 0x1e) << 7)
                | ((value & 0x800) >> 4)
        }
        FieldSpec::Imm20U => value & 0xffff_f000,
        FieldSpec::Imm20J => {
            ((value & 0x10_0000) << 11)
                | ((value & 0x7fe) << 20)
                | ((value & 0x800) << 9)
                | (value & 0xf_f000)
        }
    }
}

fn mask(f: FieldSpec) -> u32 {
    match f {
        FieldSpec::Rs1 => 0x000f_8000,
        FieldSpec::Rs2 | FieldSpec::Shamt => 0x01f0_0000,
        FieldSpec::Rd => 0x0000_0f80,
        FieldSpec::Imm12I => 0xfff0_0000,
        FieldSpec::Imm12S | FieldSpec::Imm12B => 0xfe00_0f80,
        FieldSpec::Imm20U | FieldSpec::Imm20J => 0xffff_f000,
    }
}

#[test]
fn extraction_round_trips_on_sampled_words() {
    let fields = [
        FieldSpec::Rs1,
        FieldSpec::Rs2,
        FieldSpec::Rd,
        FieldSpec::Shamt,
        FieldSpec::Imm12I,
        FieldSpec::Imm12S,
        FieldSpec::Imm12B,
        FieldSpec::Imm20U,
        FieldSpec::Imm20J,
    ];
    let mut word: u32 = 0xdead_beef;
    for _ in 0..5000 {
        word = word.wrapping_mul(1_664_525).wrapping_add(1_013_904_223);
        for f in fields {
            let value = extract_field(word, f);
            assert_eq!(place(value, f), word & mask(f), "word {:#x} field {:?}", word, f);
        }
    }
}

#[test]
fn immediate_sign_is_bit_31() {
    let immediates = [
        FieldSpec::Imm12I,
        FieldSpec::Imm12S,
        FieldSpec::Imm12B,
        FieldSpec::Imm20U,
        FieldSpec::Imm20J,
    ];
    let mut word: u32 = 0x0bad_cafe;
    for _ in 0..5000 {
        word = word.wrapping_mul(1_664_525).wrapping_add(1_013_904_223);
        for f in immediates {
            let negative = (extract_field(word, f) as i32) < 0;
            assert_eq!(negative, word >> 31 == 1, "word {:#x} field {:?}", word, f);
        }
    }
}

#[test]
fn field_of_instruction_reads_its_word() {
    let i = decoded(0xfbc6_0613);
    assert_eq!(i.field(FieldSpec::Rd), 12);
    assert_eq!(i.field(FieldSpec::Imm12I), 0xffff_ffbc);
    assert_eq!(*i.word(), 0xfbc6_0613);
}

#[test]
fn operand_resolves_each_descriptor() {
    let i = decoded(0xfbc6_0613);
    assert_eq!(i.operand(&OperandSpec::Nothing), None);
    assert_eq!(i.operand(&OperandSpec::Rd), Some(Operand::Reg(12)));
    assert_eq!(i.operand(&OperandSpec::Rs1), Some(Operand::Reg(12)));
    assert_eq!(i.operand(&OperandSpec::Rs2), Some(Operand::Reg(28)));
    assert_eq!(i.operand(&OperandSpec::Shamt), Some(Operand::Shift(28)));
    assert_eq!(i.operand(&OperandSpec::Imm12I), Some(Operand::Imm(-0x44)));
    assert_eq!(i.operand(&OperandSpec::Imm12S), Some(Operand::Imm(-84)));
    assert_eq!(i.operand(&OperandSpec::Imm12B), Some(Operand::JOffset(-2132)));
    assert_eq!(i.operand(&OperandSpec::Imm20U), Some(Operand::Imm(0xfbc6_0000u32 as i32)));
    assert_eq!(i.operand(&OperandSpec::Imm20J), Some(Operand::JOffset(-653_380)));
    assert_eq!(i.operand(&OperandSpec::BaseOffsetRs1I), Some(Operand::BaseOffset(12, -0x44)));
    assert_eq!(i.operand(&OperandSpec::BaseOffsetRs1S), Some(Operand::BaseOffset(12, -84)));
}

#[test]
fn shift_amount_is_bits_24_to_20() {
    // slli with bits above the shift amount set: only bits [24:20] count.
    let i = decoded(0x0e27_9713);
    assert_eq!(i.operand(&OperandSpec::Shamt), Some(Operand::Shift(2)));
}

#[test]
fn store_offset_is_negative_when_bit_31_is_set() {
    // sw ra, -4(sp)
    let i = decoded(0xfe11_2e23);
    assert_eq!(i.operand(&OperandSpec::BaseOffsetRs1S), Some(Operand::BaseOffset(2, -4)));
}
