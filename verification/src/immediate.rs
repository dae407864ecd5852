//! Immediate operands: a 12-bit signed field, sign-extended to a word, and the
//! 24-bit literal that stands for it inside an instruction.

use crate::limbs::{
    lemma_limbs_of_four, lemma_limbs_value_four, lemma_value_of_limbs,
    lemma_word_modulus_small, limbs_of, limbs_sign, limbs_value, signed_value, word_modulus,
};
use crate::random::random_below;
use rand::rngs::StdRng;
use vstd::prelude::*;

verus! {

/// Width in bits of the immediate field of an I-type instruction.
pub const RV_IS_TYPE_IMM_BITS: usize = 12;

/// Number of values the immediate field can take.
pub const IMM_FIELD_BOUND: u32 = 0x1000;

/// The sign bit of the immediate field.
pub const IMM_SIGN_BIT: u32 = 0x800;

/// The bits of the sign-extended word that the instruction's literal keeps.
pub const IMM_LITERAL_MASK: u32 = 0xFF_FFFF;

/// Number of values the instruction's literal can take: `2^24`.
pub open spec fn literal_modulus() -> int {
    0x100_0000
}

/// The signed number that a 12-bit field denotes.
pub open spec fn field_value(field: int) -> int {
    if field >= 0x800 {
        field - 0x1000
    } else {
        field
    }
}

/// The 32-bit two's-complement word that a 12-bit field sign-extends to, as an
/// unsigned number: every bit above bit 11 repeats bit 11.
pub open spec fn sign_extended(field: int) -> int {
    field_value(field) % 0x1_0000_0000
}

/// The literal embedded in the instruction: the low 24 bits of the sign-extended
/// word.
pub open spec fn imm_literal(field: int) -> int {
    sign_extended(field) % literal_modulus()
}

/// The operand limbs of an immediate: the sign-extended word, least significant
/// byte first.
pub open spec fn imm_limbs(field: int) -> Seq<u8> {
    limbs_of(sign_extended(field), 4)
}

/// The literal that stands for an operand given as limbs: the low 24 bits of the
/// word the limbs denote.
pub open spec fn limbs_literal(limbs: Seq<u8>) -> int {
    limbs_value(limbs) % literal_modulus()
}

/// Sign-extends a 12-bit immediate field and packs it: the literal for the
/// instruction, and the operand limbs.
pub fn rv32_is_type_immediate(field: u32) -> (packed: (usize, [u8; 4]))
    requires
        field < IMM_FIELD_BOUND,
    ensures
        packed.0 == imm_literal(field as int),
        packed.1@ == imm_limbs(field as int),
{
    let mut imm: u32 = field;
    if (imm & IMM_SIGN_BIT) != 0 {
        imm = imm | !0xFFFu32;
    }
    proof {
        assert(field < 0x1000 && (field & 0x800) != 0 ==> field >= 0x800 && (field | !0xFFFu32)
            == field + 0xFFFF_F000) by (bit_vector);
        assert(field < 0x1000 && (field & 0x800) == 0 ==> field < 0x800) by (bit_vector);
        assert(imm & 0xFF_FFFF == imm % 0x100_0000) by (bit_vector);
        assert(imm & 0xFF == imm % 256) by (bit_vector);
        assert((imm >> 8) & 0xFF == (imm / 0x100) % 256) by (bit_vector);
        assert((imm >> 16) & 0xFF == (imm / 0x1_0000) % 256) by (bit_vector);
        assert(imm < 0x800 || imm >= 0xFFFF_F800 ==> (imm >> 16) & 0xFF == (imm / 0x100_0000)
            % 256) by (bit_vector);
    }
    let literal: u32 = imm & IMM_LITERAL_MASK;
    let low: u8 = (imm & 0xFF) as u8;
    let mid: u8 = ((imm >> 8) & 0xFF) as u8;
    let high: u8 = ((imm >> 16) & 0xFF) as u8;
    let limbs: [u8; 4] = [low, mid, high, high];
    proof {
        lemma_limbs_of_four(sign_extended(field as int));
        assert(limbs@ =~= imm_limbs(field as int));
    }
    (literal as usize, limbs)
}

/// Draws a 12-bit immediate field uniformly and packs it.  Whatever is drawn, the
/// result is the packing of some field.
pub fn generate_rv32_is_type_immediate(rng: &mut StdRng) -> (packed: (usize, [u8; 4]))
    ensures
        exists|field: int|
            0 <= field < IMM_FIELD_BOUND && packed.0 == imm_literal(field) && packed.1@
                == #[trigger] imm_limbs(field),
{
    let field: u32 = random_below(rng, IMM_FIELD_BOUND);
    let packed = rv32_is_type_immediate(field);
    packed
}

/// Packs an immediate that is given as operand limbs: the literal is the low 24
/// bits of the word, and the limbs are kept as they are.
pub fn immediate_from_limbs(limbs: [u8; 4]) -> (packed: (usize, [u8; 4]))
    ensures
        packed.0 == limbs_literal(limbs@),
        packed.1 == limbs,
{
    let literal: u32 = limbs[0] as u32 + 0x100 * (limbs[1] as u32) + 0x1_0000 * (limbs[2] as u32);
    proof {
        lemma_limbs_value_four(limbs@);
        let low = literal as int;
        let top = limbs@[3] as int;
        vstd::arithmetic::div_mod::lemma_fundamental_div_mod_converse_mod(
            limbs_value(limbs@),
            0x100_0000,
            top,
            low,
        );
    }
    (literal as usize, limbs)
}

/// Sign extension is two's complement: a field with its sign bit set becomes the
/// word that denotes the field's negative value, and the limbs of that word are
/// its little-endian bytes.
pub proof fn lemma_sign_extension(field: int)
    requires
        0x800 <= field < 0x1000,
    ensures
        imm_limbs(field).len() == 4,
        limbs_value(imm_limbs(field)) == field_value(field) + word_modulus(4),
        limbs_value(imm_limbs(field)) == field + 0xFFFF_F000,
        limbs_sign(imm_limbs(field)),
        signed_value(imm_limbs(field)) == field_value(field),
        imm_literal(field) == field + 0xFF_F000,
{
    lemma_word_modulus_small();
    let word = field + 0xFFFF_F000;
    lemma_value_of_limbs(word, 4);
}

/// A field with its sign bit clear is unchanged by sign extension.
pub proof fn lemma_zero_extension(field: int)
    requires
        0 <= field < 0x800,
    ensures
        imm_limbs(field).len() == 4,
        limbs_value(imm_limbs(field)) == field,
        !limbs_sign(imm_limbs(field)),
        signed_value(imm_limbs(field)) == field,
        imm_literal(field) == field,
{
    lemma_word_modulus_small();
    lemma_value_of_limbs(field, 4);
}

} // verus!
