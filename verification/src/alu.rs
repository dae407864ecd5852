//! The ALU semantics function: what each opcode computes from two operands.
//!
//! `run_alu` is the oracle that witness generation is checked against.  It is a
//! pure function of its arguments; its contract pins the result to `alu_result`,
//! which is stated over the integers that the operands denote.

use crate::limbs::{
    lemma_limbs_of_value, lemma_limbs_sign, lemma_limbs_value_bound, lemma_limbs_value_order,
    lemma_limbs_value_step, lemma_word_modulus, limbs_of, limbs_sign, limbs_value, signed_value,
    word_modulus, LIMB_SIGN,
};
use crate::opcode::{AluError, AluOpcode, OpcodeOffsets};
use vstd::arithmetic::div_mod::*;
use vstd::prelude::*;

verus! {

/// A one-bit result in an `n`-limb word: the bit in the least significant limb,
/// every other limb zero.
pub open spec fn bit_limbs(bit: bool, n: nat) -> Seq<u8> {
    Seq::new(
        n,
        |i: int|
            if i == 0 && bit {
                1u8
            } else {
                0u8
            },
    )
}

/// What `opcode` computes from `left` and `right`, two operands of one length.
pub open spec fn alu_result(opcode: AluOpcode, left: Seq<u8>, right: Seq<u8>) -> Seq<u8> {
    let n = left.len();
    match opcode {
        AluOpcode::Add => limbs_of(
            (limbs_value(left) + limbs_value(right)) % word_modulus(n),
            n,
        ),
        AluOpcode::Sub => limbs_of(
            (limbs_value(left) - limbs_value(right)) % word_modulus(n),
            n,
        ),
        AluOpcode::Xor => Seq::new(n, |i: int| left[i] ^ right[i]),
        AluOpcode::Or => Seq::new(n, |i: int| left[i] | right[i]),
        AluOpcode::And => Seq::new(n, |i: int| left[i] & right[i]),
        AluOpcode::Slt => bit_limbs(signed_value(left) < signed_value(right), n),
        AluOpcode::Sltu => bit_limbs(limbs_value(left) < limbs_value(right), n),
    }
}

/// Computes the result of one ALU operation on two operands of `NUM_LIMBS` bytes,
/// least significant first.
pub fn run_alu<const NUM_LIMBS: usize>(
    opcode: AluOpcode,
    x: &[u8; NUM_LIMBS],
    y: &[u8; NUM_LIMBS],
) -> (z: [u8; NUM_LIMBS])
    ensures
        z@ == alu_result(opcode, x@, y@),
{
    match opcode {
        AluOpcode::Add => run_add(x, y),
        AluOpcode::Sub => run_subtract(x, y),
        AluOpcode::Xor => run_xor(x, y),
        AluOpcode::Or => run_or(x, y),
        AluOpcode::And => run_and(x, y),
        AluOpcode::Slt => run_set_less_than(true, x, y),
        AluOpcode::Sltu => run_set_less_than(false, x, y),
    }
}

/// Runs the operation that `tag` stands for under `offsets`.  Fails with
/// `InvalidOpcode` exactly when `tag` names no operation.
pub fn run_alu_tagged<const NUM_LIMBS: usize>(
    offsets: &OpcodeOffsets,
    tag: usize,
    x: &[u8; NUM_LIMBS],
    y: &[u8; NUM_LIMBS],
) -> (outcome: Result<[u8; NUM_LIMBS], AluError>)
    requires
        offsets.wf(),
    ensures
        match outcome {
            Ok(z) => exists|opcode: AluOpcode|
                offsets.tag_of(opcode) == tag && z@ == alu_result(opcode, x@, y@),
            Err(error) => error == (AluError::InvalidOpcode { tag }) && forall|opcode: AluOpcode|
                offsets.tag_of(opcode) != tag,
        },
{
    match offsets.decode(tag) {
        Ok(opcode) => Ok(run_alu(opcode, x, y)),
        Err(error) => Err(error),
    }
}

/// Limb-by-limb addition with carry; the carry out of the top limb is dropped.
fn run_add<const NUM_LIMBS: usize>(x: &[u8; NUM_LIMBS], y: &[u8; NUM_LIMBS]) -> (z: [
    u8;
    NUM_LIMBS
])
    ensures
        z@ == alu_result(AluOpcode::Add, x@, y@),
{
    let mut z: [u8; NUM_LIMBS] = [0u8;NUM_LIMBS];
    let mut carry: u16 = 0;
    let mut i: usize = 0;
    while i < NUM_LIMBS
        invariant
            i <= NUM_LIMBS,
            carry <= 1,
            limbs_value(z@.take(i as int)) + carry * word_modulus(i as nat) == limbs_value(
                x@.take(i as int),
            ) + limbs_value(y@.take(i as int)),
        decreases NUM_LIMBS - i,
    {
        let sum: u16 = x[i] as u16 + y[i] as u16 + carry;
        let digit: u8 = (sum % 256) as u8;
        let carry_out: u16 = sum / 256;
        let ghost before = z@;
        z[i] = digit;
        proof {
            let m = word_modulus(i as nat);
            lemma_word_modulus(i as nat);
            assert(z@.take(i as int) =~= before.take(i as int));
            lemma_limbs_value_step(z@, i as int);
            lemma_limbs_value_step(x@, i as int);
            lemma_limbs_value_step(y@, i as int);
            assert(digit * m + carry_out * (256 * m) == (x@[i as int] + y@[i as int] + carry)
                * m) by (nonlinear_arith)
                requires
                    digit + 256 * carry_out == x@[i as int] + y@[i as int] + carry,
            ;
            assert((x@[i as int] + y@[i as int] + carry) * m == x@[i as int] * m + y@[i as int]
                * m + carry * m) by (nonlinear_arith);
        }
        carry = carry_out;
        i += 1;
    }
    proof {
        let n = NUM_LIMBS as nat;
        assert(z@.take(NUM_LIMBS as int) =~= z@);
        assert(x@.take(NUM_LIMBS as int) =~= x@);
        assert(y@.take(NUM_LIMBS as int) =~= y@);
        lemma_word_modulus(n);
        lemma_limbs_value_bound(z@);
        lemma_fundamental_div_mod_converse_mod(
            limbs_value(x@) + limbs_value(y@),
            word_modulus(n),
            carry as int,
            limbs_value(z@),
        );
        lemma_limbs_of_value(z@);
    }
    z
}

/// Limb-by-limb subtraction with borrow; the borrow out of the top limb is dropped.
fn run_subtract<const NUM_LIMBS: usize>(x: &[u8; NUM_LIMBS], y: &[u8; NUM_LIMBS]) -> (z: [
    u8;
    NUM_LIMBS
])
    ensures
        z@ == alu_result(AluOpcode::Sub, x@, y@),
{
    let mut z: [u8; NUM_LIMBS] = [0u8;NUM_LIMBS];
    let mut borrow: u16 = 0;
    let mut i: usize = 0;
    while i < NUM_LIMBS
        invariant
            i <= NUM_LIMBS,
            borrow <= 1,
            limbs_value(z@.take(i as int)) - borrow * word_modulus(i as nat) == limbs_value(
                x@.take(i as int),
            ) - limbs_value(y@.take(i as int)),
        decreases NUM_LIMBS - i,
    {
        let rhs: u16 = y[i] as u16 + borrow;
        let lhs: u16 = x[i] as u16;
        let digit: u8;
        let borrow_out: u16;
        if lhs >= rhs {
            digit = (lhs - rhs) as u8;
            borrow_out = 0;
        } else {
            digit = (lhs + 256 - rhs) as u8;
            borrow_out = 1;
        }
        let ghost before = z@;
        z[i] = digit;
        proof {
            let m = word_modulus(i as nat);
            lemma_word_modulus(i as nat);
            assert(z@.take(i as int) =~= before.take(i as int));
            lemma_limbs_value_step(z@, i as int);
            lemma_limbs_value_step(x@, i as int);
            lemma_limbs_value_step(y@, i as int);
            assert(digit * m - borrow_out * (256 * m) == (x@[i as int] - y@[i as int] - borrow)
                * m) by (nonlinear_arith)
                requires
                    digit - 256 * borrow_out == x@[i as int] - y@[i as int] - borrow,
            ;
            assert((x@[i as int] - y@[i as int] - borrow) * m == x@[i as int] * m - y@[i as int]
                * m - borrow * m) by (nonlinear_arith);
        }
        borrow = borrow_out;
        i += 1;
    }
    proof {
        let n = NUM_LIMBS as nat;
        assert(z@.take(NUM_LIMBS as int) =~= z@);
        assert(x@.take(NUM_LIMBS as int) =~= x@);
        assert(y@.take(NUM_LIMBS as int) =~= y@);
        lemma_word_modulus(n);
        lemma_limbs_value_bound(z@);
        assert((-(borrow as int)) * word_modulus(n) == -(borrow * word_modulus(n)))
            by (nonlinear_arith);
        lemma_fundamental_div_mod_converse_mod(
            limbs_value(x@) - limbs_value(y@),
            word_modulus(n),
            -(borrow as int),
            limbs_value(z@),
        );
        lemma_limbs_of_value(z@);
    }
    z
}

fn run_xor<const NUM_LIMBS: usize>(x: &[u8; NUM_LIMBS], y: &[u8; NUM_LIMBS]) -> (z: [
    u8;
    NUM_LIMBS
])
    ensures
        z@ == alu_result(AluOpcode::Xor, x@, y@),
{
    let mut z: [u8; NUM_LIMBS] = [0u8;NUM_LIMBS];
    let mut i: usize = 0;
    while i < NUM_LIMBS
        invariant
            i <= NUM_LIMBS,
            forall|k: int| 0 <= k < i ==> z@[k] == x@[k] ^ y@[k],
        decreases NUM_LIMBS - i,
    {
        z[i] = x[i] ^ y[i];
        i += 1;
    }
    assert(z@ =~= alu_result(AluOpcode::Xor, x@, y@));
    z
}

fn run_or<const NUM_LIMBS: usize>(x: &[u8; NUM_LIMBS], y: &[u8; NUM_LIMBS]) -> (z: [
    u8;
    NUM_LIMBS
])
    ensures
        z@ == alu_result(AluOpcode::Or, x@, y@),
{
    let mut z: [u8; NUM_LIMBS] = [0u8;NUM_LIMBS];
    let mut i: usize = 0;
    while i < NUM_LIMBS
        invariant
            i <= NUM_LIMBS,
            forall|k: int| 0 <= k < i ==> z@[k] == x@[k] | y@[k],
        decreases NUM_LIMBS - i,
    {
        z[i] = x[i] | y[i];
        i += 1;
    }
    assert(z@ =~= alu_result(AluOpcode::Or, x@, y@));
    z
}

fn run_and<const NUM_LIMBS: usize>(x: &[u8; NUM_LIMBS], y: &[u8; NUM_LIMBS]) -> (z: [
    u8;
    NUM_LIMBS
])
    ensures
        z@ == alu_result(AluOpcode::And, x@, y@),
{
    let mut z: [u8; NUM_LIMBS] = [0u8;NUM_LIMBS];
    let mut i: usize = 0;
    while i < NUM_LIMBS
        invariant
            i <= NUM_LIMBS,
            forall|k: int| 0 <= k < i ==> z@[k] == x@[k] & y@[k],
        decreases NUM_LIMBS - i,
    {
        z[i] = x[i] & y[i];
        i += 1;
    }
    assert(z@ =~= alu_result(AluOpcode::And, x@, y@));
    z
}

/// Unsigned comparison, scanning from the most significant limb down to the first
/// limb in which the operands differ.
fn unsigned_less_than<const NUM_LIMBS: usize>(x: &[u8; NUM_LIMBS], y: &[u8; NUM_LIMBS]) -> (less:
    bool)
    ensures
        less == (limbs_value(x@) < limbs_value(y@)),
{
    let mut i: usize = NUM_LIMBS;
    while i > 0
        invariant
            i <= NUM_LIMBS,
            forall|k: int| i <= k < NUM_LIMBS ==> x@[k] == y@[k],
        decreases i,
    {
        i -= 1;
        if x[i] != y[i] {
            proof {
                if x@[i as int] < y@[i as int] {
                    lemma_limbs_value_order(x@, y@, i as int);
                } else {
                    lemma_limbs_value_order(y@, x@, i as int);
                }
            }
            return x[i] < y[i];
        }
    }
    assert(x@ =~= y@);
    false
}

/// Less-than, signed or unsigned.  Operands of different sign are ordered by the
/// sign alone; operands of one sign are ordered as unsigned words.
fn run_less_than<const NUM_LIMBS: usize>(
    signed: bool,
    x: &[u8; NUM_LIMBS],
    y: &[u8; NUM_LIMBS],
) -> (less: bool)
    ensures
        signed ==> less == (signed_value(x@) < signed_value(y@)),
        !signed ==> less == (limbs_value(x@) < limbs_value(y@)),
{
    if signed && NUM_LIMBS > 0 {
        let x_sign: bool = x[NUM_LIMBS - 1] >= LIMB_SIGN;
        let y_sign: bool = y[NUM_LIMBS - 1] >= LIMB_SIGN;
        proof {
            lemma_limbs_sign(x@);
            lemma_limbs_sign(y@);
            lemma_limbs_value_bound(x@);
            lemma_limbs_value_bound(y@);
        }
        if x_sign != y_sign {
            x_sign
        } else {
            unsigned_less_than(x, y)
        }
    } else {
        unsigned_less_than(x, y)
    }
}

/// The comparison result as a word: 1 or 0 in the least significant limb.
fn run_set_less_than<const NUM_LIMBS: usize>(
    signed: bool,
    x: &[u8; NUM_LIMBS],
    y: &[u8; NUM_LIMBS],
) -> (z: [u8; NUM_LIMBS])
    ensures
        signed ==> z@ == alu_result(AluOpcode::Slt, x@, y@),
        !signed ==> z@ == alu_result(AluOpcode::Sltu, x@, y@),
{
    let less: bool = run_less_than(signed, x, y);
    let mut z: [u8; NUM_LIMBS] = [0u8;NUM_LIMBS];
    if NUM_LIMBS > 0 && less {
        z[0] = 1;
    }
    assert(z@ =~= bit_limbs(less, NUM_LIMBS as nat));
    z
}

/// The ALU is a function: any two results that meet the contract of `run_alu` on
/// the same opcode and operands are the same word.
pub proof fn lemma_run_alu_deterministic<const NUM_LIMBS: usize>(
    opcode: AluOpcode,
    left: [u8; NUM_LIMBS],
    right: [u8; NUM_LIMBS],
    first: [u8; NUM_LIMBS],
    second: [u8; NUM_LIMBS],
)
    requires
        first@ == alu_result(opcode, left@, right@),
        second@ == alu_result(opcode, left@, right@),
    ensures
        first == second,
{
    assert(first =~= second);
}

} // verus!
