//! Bit-field extraction from a 32-bit instruction word.
//!
//! Every field is specified arithmetically: bits `[hi:lo]` of a word `w` are
//! `(w / 2^lo) % 2^(hi - lo + 1)`. The executable extractor works with shifts
//! and masks and is proved equal to that model.

use vstd::prelude::*;

verus! {

/// Names a raw bit-group of an instruction word.
#[derive(Clone, Copy, Debug, PartialEq, Eq, Structural)]
pub enum FieldSpec {
    Rs1,
    Rs2,
    Rd,
    /// Shift amount (occupies the rs2 slot).
    Shamt,
    /// I-type 12-bit immediate.
    Imm12I,
    /// S-type 12-bit immediate.
    Imm12S,
    /// B-type 12-bit immediate.
    Imm12B,
    /// U-type 20-bit immediate.
    Imm20U,
    /// J-type 20-bit immediate.
    Imm20J,
}

/// Bit 31 of the word, as 0 or 1.
pub open spec fn sign_bit(w: u32) -> int {
    w as int / 0x8000_0000
}

/// The 32-bit two's-complement pattern of a narrower two's-complement number:
/// `raw` is the narrow pattern, `0 <= raw < modulus`, and `modulus` is two to
/// the narrow width.
pub open spec fn sign_extend(raw: int, modulus: int) -> int {
    if 2 * raw >= modulus {
        raw + 0x1_0000_0000 - modulus
    } else {
        raw
    }
}

/// The number that a 32-bit pattern stands for in two's complement.
pub open spec fn signed32(bits: u32) -> int {
    if bits >= 0x8000_0000 {
        bits as int - 0x1_0000_0000
    } else {
        bits as int
    }
}

/// Bits `[19:15]`.
pub open spec fn bits_rs1(w: u32) -> int {
    (w as int / 0x8000) % 0x20
}

/// Bits `[24:20]`.
pub open spec fn bits_rs2(w: u32) -> int {
    (w as int / 0x10_0000) % 0x20
}

/// Bits `[11:7]`.
pub open spec fn bits_rd(w: u32) -> int {
    (w as int / 0x80) % 0x20
}

/// The I-type immediate before sign extension: bits `[31:20]`.
pub open spec fn raw_imm12i(w: u32) -> int {
    w as int / 0x10_0000
}

/// The S-type immediate before sign extension: bits `[31:25]` above bits
/// `[11:7]`.
pub open spec fn raw_imm12s(w: u32) -> int {
    (w as int / 0x200_0000) * 0x20 + (w as int / 0x80) % 0x20
}

/// The B-type immediate before sign extension: bit 31 lands on bit 12, bit 7
/// on bit 11, bits `[30:25]` on bits `[10:5]`, bits `[11:8]` on bits `[4:1]`;
/// bit 0 is clear.
pub open spec fn raw_imm12b(w: u32) -> int {
    sign_bit(w) * 0x1000 + ((w as int / 0x80) % 2) * 0x800 + ((w as int / 0x200_0000) % 0x40)
        * 0x20 + ((w as int / 0x100) % 0x10) * 2
}

/// The U-type immediate: bits `[31:12]`, left where they are.
pub open spec fn bits_imm20u(w: u32) -> int {
    (w as int / 0x1000) * 0x1000
}

/// The J-type immediate before sign extension: bit 31 lands on bit 20, bits
/// `[19:12]` stay in place, bit 20 lands on bit 11, bits `[30:21]` on bits
/// `[10:1]`; bit 0 is clear.
pub open spec fn raw_imm20j(w: u32) -> int {
    sign_bit(w) * 0x10_0000 + ((w as int / 0x1000) % 0x100) * 0x1000 + ((w as int / 0x10_0000)
        % 2) * 0x800 + ((w as int / 0x20_0000) % 0x400) * 2
}

/// The value of field `f` in word `w` as an unsigned 32-bit pattern. The
/// signed fields (`Imm12I`, `Imm12S`, `Imm12B`, `Imm20J`) are sign-extended
/// from bit 31 of the word; `Imm20U` keeps its twenty bits in place above
/// twelve zero bits.
pub open spec fn field_bits(w: u32, f: FieldSpec) -> int {
    match f {
        FieldSpec::Rs1 => bits_rs1(w),
        FieldSpec::Rs2 => bits_rs2(w),
        FieldSpec::Rd => bits_rd(w),
        FieldSpec::Shamt => bits_rs2(w),
        FieldSpec::Imm12I => sign_extend(raw_imm12i(w), 0x1000),
        FieldSpec::Imm12S => sign_extend(raw_imm12s(w), 0x1000),
        FieldSpec::Imm12B => sign_extend(raw_imm12b(w), 0x2000),
        FieldSpec::Imm20U => bits_imm20u(w),
        FieldSpec::Imm20J => sign_extend(raw_imm20j(w), 0x20_0000),
    }
}

/// The number that field `f` of word `w` stands for: its pattern read in
/// two's complement. Register indices and shift amounts are never negative.
pub open spec fn field_number(w: u32, f: FieldSpec) -> int {
    signed32(field_bits(w, f) as u32)
}

/// Whether the field is an immediate, whose pattern is read as a signed
/// number.
pub open spec fn is_immediate(f: FieldSpec) -> bool {
    match f {
        FieldSpec::Imm12I | FieldSpec::Imm12S | FieldSpec::Imm12B | FieldSpec::Imm20U
        | FieldSpec::Imm20J => true,
        _ => false,
    }
}

/// The word with every bit cleared that field `f` does not read.
pub open spec fn source_bits(w: u32, f: FieldSpec) -> int {
    match f {
        FieldSpec::Rs1 => bits_rs1(w) * 0x8000,
        FieldSpec::Rs2 | FieldSpec::Shamt => bits_rs2(w) * 0x10_0000,
        FieldSpec::Rd => bits_rd(w) * 0x80,
        FieldSpec::Imm12I => (w as int / 0x10_0000) * 0x10_0000,
        FieldSpec::Imm12S | FieldSpec::Imm12B => (w as int / 0x200_0000) * 0x200_0000 + bits_rd(w)
            * 0x80,
        FieldSpec::Imm20U | FieldSpec::Imm20J => (w as int / 0x1000) * 0x1000,
    }
}

/// An S-type immediate put back at bits `[31:25]` and `[11:7]`.
pub open spec fn place_imm12s(v: u32) -> int {
    ((v as int / 0x20) % 0x80) * 0x200_0000 + (v as int % 0x20) * 0x80
}

/// A B-type immediate put back at bits 31, `[30:25]`, `[11:8]` and 7.
pub open spec fn place_imm12b(v: u32) -> int {
    ((v as int / 0x1000) % 2) * 0x8000_0000 + ((v as int / 0x20) % 0x40) * 0x200_0000 + ((v as int
        / 2) % 0x10) * 0x100 + ((v as int / 0x800) % 2) * 0x80
}

/// A J-type immediate put back at bits 31, `[30:21]`, 20 and `[19:12]`.
pub open spec fn place_imm20j(v: u32) -> int {
    ((v as int / 0x10_0000) % 2) * 0x8000_0000 + ((v as int / 2) % 0x400) * 0x20_0000 + ((v as int
        / 0x800) % 2) * 0x10_0000 + ((v as int / 0x1000) % 0x100) * 0x1000
}

/// The extracted value `v` of field `f`, moved back to the bit positions of
/// the word that the field was read from.
pub open spec fn place_field(v: u32, f: FieldSpec) -> int {
    match f {
        FieldSpec::Rs1 => (v as int % 0x20) * 0x8000,
        FieldSpec::Rs2 | FieldSpec::Shamt => (v as int % 0x20) * 0x10_0000,
        FieldSpec::Rd => (v as int % 0x20) * 0x80,
        FieldSpec::Imm12I => (v as int % 0x1000) * 0x10_0000,
        FieldSpec::Imm12S => place_imm12s(v),
        FieldSpec::Imm12B => place_imm12b(v),
        FieldSpec::Imm20U => (v as int / 0x1000) * 0x1000,
        FieldSpec::Imm20J => place_imm20j(v),
    }
}

/// The least number that field `f` can stand for.
pub open spec fn field_min(f: FieldSpec) -> int {
    match f {
        FieldSpec::Imm12I | FieldSpec::Imm12S => -0x800,
        FieldSpec::Imm12B => -0x1000,
        FieldSpec::Imm20U => -0x8000_0000,
        FieldSpec::Imm20J => -0x10_0000,
        _ => 0,
    }
}

/// The greatest number that field `f` can stand for.
pub open spec fn field_max(f: FieldSpec) -> int {
    match f {
        FieldSpec::Imm12I | FieldSpec::Imm12S => 0x7ff,
        FieldSpec::Imm12B => 0xffe,
        FieldSpec::Imm20U => 0x7fff_f000,
        FieldSpec::Imm20J => 0xf_fffe,
        _ => 0x1f,
    }
}

/// Every field value is a 32-bit pattern, and read as a signed number it lies
/// within the width of its field.
pub proof fn lemma_field_range(w: u32, f: FieldSpec)
    ensures
        0 <= field_bits(w, f) <= u32::MAX,
        field_min(f) <= field_number(w, f) <= field_max(f),
        !is_immediate(f) ==> field_number(w, f) == field_bits(w, f),
{
}

/// A branch or jump offset is even, and the low twelve bits of an upper
/// immediate are clear.
pub proof fn lemma_field_alignment(w: u32)
    ensures
        field_number(w, FieldSpec::Imm12B) % 2 == 0,
        field_number(w, FieldSpec::Imm20J) % 2 == 0,
        field_number(w, FieldSpec::Imm20U) % 0x1000 == 0,
{
}

/// Extraction round-trips. The sign of an immediate is bit 31 of the word;
/// its number lies within the width of its field; and moving the extracted
/// value of any field back to the field's bit positions gives exactly the
/// bits of the word that the field reads, so no bit is lost.
pub proof fn lemma_field_round_trip(w: u32, f: FieldSpec)
    ensures
        is_immediate(f) ==> (field_number(w, f) < 0 <==> sign_bit(w) == 1),
        field_min(f) <= field_number(w, f) <= field_max(f),
        place_field(field_bits(w, f) as u32, f) == source_bits(w, f),
{
    lemma_field_range(w, f);
    match f {
        FieldSpec::Imm12S => {
            assert(place_imm12s(sign_extend(raw_imm12s(w), 0x1000) as u32) == (w as int
                / 0x200_0000) * 0x200_0000 + bits_rd(w) * 0x80) by (bit_vector);
        },
        FieldSpec::Imm12B => {
            assert(place_imm12b(sign_extend(raw_imm12b(w), 0x2000) as u32) == (w as int
                / 0x200_0000) * 0x200_0000 + bits_rd(w) * 0x80) by (bit_vector);
        },
        FieldSpec::Imm20J => {
            assert(place_imm20j(sign_extend(raw_imm20j(w), 0x20_0000) as u32) == (w as int
                / 0x1000) * 0x1000) by (bit_vector);
        },
        _ => {},
    }
}

/// Extracts field `f` from `word`: the field's bits as a number, sign-extended
/// to 32 bits where the field is signed.
pub fn extract_field(word: u32, f: FieldSpec) -> (bits: u32)
    ensures
        bits == field_bits(word, f),
{
    match f {
        FieldSpec::Rs1 => {
            let r = (word >> 15) & 0x1f;
            assert(r == bits_rs1(word)) by (bit_vector)
                requires
                    r == (word >> 15) & 0x1f,
            ;
            r
        },
        FieldSpec::Rs2 | FieldSpec::Shamt => {
            let r = (word >> 20) & 0x1f;
            assert(r == bits_rs2(word)) by (bit_vector)
                requires
                    r == (word >> 20) & 0x1f,
            ;
            r
        },
        FieldSpec::Rd => {
            let r = (word >> 7) & 0x1f;
            assert(r == bits_rd(word)) by (bit_vector)
                requires
                    r == (word >> 7) & 0x1f,
            ;
            r
        },
        FieldSpec::Imm12I => {
            let r = #[verifier::truncate] ((#[verifier::truncate] (word as i32) >> 20) as u32);
            assert(r == sign_extend(raw_imm12i(word), 0x1000)) by (bit_vector)
                requires
                    r == (word as i32 >> 20) as u32,
            ;
            r
        },
        FieldSpec::Imm12S => {
            let low = (word >> 7) & 0x1f;
            let high = #[verifier::truncate] ((#[verifier::truncate] (word as i32) >> 20) as u32)
                & 0xffff_ffe0;
            let r = low | high;
            assert(r == sign_extend(raw_imm12s(word), 0x1000)) by (bit_vector)
                requires
                    r == ((word >> 7) & 0x1f) | (((word as i32 >> 20) as u32) & 0xffff_ffe0),
            ;
            r
        },
        FieldSpec::Imm12B => {
            let low = (word >> 7) & 0x1e;
            let high = #[verifier::truncate] ((#[verifier::truncate] (word as i32) >> 20) as u32)
                & 0xffff_f7e0;
            let bit11 = (word & 0x80) << 4;
            let r = low | high | bit11;
            assert(r == sign_extend(raw_imm12b(word), 0x2000)) by (bit_vector)
                requires
                    r == ((word >> 7) & 0x1e) | (((word as i32 >> 20) as u32) & 0xffff_f7e0) | ((
                    word & 0x80) << 4),
            ;
            r
        },
        FieldSpec::Imm20U => {
            let r = word & 0xffff_f000;
            assert(r == bits_imm20u(word)) by (bit_vector)
                requires
                    r == word & 0xffff_f000,
            ;
            r
        },
        FieldSpec::Imm20J => {
            let low = (word >> 20) & 0x7fe;
            let bit11 = (word >> 9) & 0x800;
            let middle = word & 0xf_f000;
            let high = #[verifier::truncate] ((#[verifier::truncate] (word as i32) >> 11) as u32)
                & 0xfff0_0000;
            let r = low | bit11 | middle | high;
            assert(r == sign_extend(raw_imm20j(word), 0x20_0000)) by (bit_vector)
                requires
                    r == ((word >> 20) & 0x7fe) | ((word >> 9) & 0x800) | (word & 0xf_f000) | (((
                    word as i32 >> 11) as u32) & 0xfff0_0000),
            ;
            r
        },
    }
}

} // verus!
