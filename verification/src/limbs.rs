//! Little-endian limb arithmetic: the mathematical meaning of an operand.
//!
//! An operand is a fixed-length sequence of bytes ("limbs"), least significant
//! first.  Everything the ALU contracts say about arithmetic is phrased over the
//! integer that such a sequence denotes.

use vstd::arithmetic::div_mod::*;
use vstd::arithmetic::power::*;
use vstd::prelude::*;

verus! {

/// Width of one limb in bits.
pub const LIMB_BITS: usize = 8;

/// Smallest limb value whose sign bit is set.
pub const LIMB_SIGN: u8 = 128;

/// Number of values an operand of `n` limbs can take: `256^n`.
pub open spec fn word_modulus(n: nat) -> int {
    pow(256, n)
}

/// The unsigned integer denoted by a little-endian limb sequence.
pub open spec fn limbs_value(limbs: Seq<u8>) -> int
    decreases limbs.len(),
{
    if limbs.len() == 0 {
        0
    } else {
        limbs_value(limbs.drop_last()) + (limbs.last() as int) * word_modulus(
            (limbs.len() - 1) as nat,
        )
    }
}

/// Whether the most significant limb has its top bit set.
pub open spec fn limbs_sign(limbs: Seq<u8>) -> bool {
    limbs.len() > 0 && limbs.last() >= 128
}

/// The two's-complement integer denoted by a little-endian limb sequence.
pub open spec fn signed_value(limbs: Seq<u8>) -> int {
    if limbs_sign(limbs) {
        limbs_value(limbs) - word_modulus(limbs.len())
    } else {
        limbs_value(limbs)
    }
}

/// The `n`-limb little-endian encoding of `value`, truncated to `n` limbs.
pub open spec fn limbs_of(value: int, n: nat) -> Seq<u8> {
    Seq::new(n, |i: int| ((value / word_modulus(i as nat)) % 256) as u8)
}

/// `256^0 = 1`, every modulus is positive, and each further limb multiplies it by 256.
pub proof fn lemma_word_modulus(n: nat)
    ensures
        word_modulus(0) == 1,
        word_modulus(n) > 0,
        word_modulus(n + 1) == 256 * word_modulus(n),
{
    lemma_pow0(256);
    lemma_pow_positive(256, n);
    reveal(pow);
}

/// Concrete moduli for words of up to four limbs.
pub proof fn lemma_word_modulus_small()
    ensures
        word_modulus(0) == 1,
        word_modulus(1) == 0x100,
        word_modulus(2) == 0x1_0000,
        word_modulus(3) == 0x100_0000,
        word_modulus(4) == 0x1_0000_0000,
{
    lemma_word_modulus(0);
    lemma_word_modulus(1);
    lemma_word_modulus(2);
    lemma_word_modulus(3);
}

/// A limb sequence denotes a value below the modulus of its length.
pub proof fn lemma_limbs_value_bound(limbs: Seq<u8>)
    ensures
        0 <= limbs_value(limbs) < word_modulus(limbs.len()),
    decreases limbs.len(),
{
    if limbs.len() == 0 {
        lemma_word_modulus(0);
    } else {
        let n = (limbs.len() - 1) as nat;
        lemma_limbs_value_bound(limbs.drop_last());
        lemma_word_modulus(n);
        let m = word_modulus(n);
        let top = limbs.last() as int;
        assert(0 <= top * m && top * m <= 255 * m) by (nonlinear_arith)
            requires
                0 <= top <= 255,
                m > 0,
        ;
    }
}

/// Extending a prefix by one limb adds that limb at its own weight.
pub proof fn lemma_limbs_value_step(limbs: Seq<u8>, i: int)
    requires
        0 <= i < limbs.len(),
    ensures
        limbs_value(limbs.take(i + 1)) == limbs_value(limbs.take(i)) + (limbs[i] as int)
            * word_modulus(i as nat),
{
    let longer = limbs.take(i + 1);
    assert(longer.drop_last() =~= limbs.take(i));
}

/// The value of a four-limb word, written out.
pub proof fn lemma_limbs_value_four(limbs: Seq<u8>)
    requires
        limbs.len() == 4,
    ensures
        limbs_value(limbs) == limbs[0] + 0x100 * limbs[1] + 0x1_0000 * limbs[2] + 0x100_0000
            * limbs[3],
{
    lemma_word_modulus_small();
    lemma_limbs_value_step(limbs, 0);
    lemma_limbs_value_step(limbs, 1);
    lemma_limbs_value_step(limbs, 2);
    lemma_limbs_value_step(limbs, 3);
    assert(limbs.take(4) =~= limbs);
}

/// The four-limb encoding of a value, written out.
pub proof fn lemma_limbs_of_four(value: int)
    ensures
        limbs_of(value, 4) == seq![
            (value % 256) as u8,
            ((value / 0x100) % 256) as u8,
            ((value / 0x1_0000) % 256) as u8,
            ((value / 0x100_0000) % 256) as u8,
        ],
{
    lemma_word_modulus_small();
    let written = seq![
        (value % 256) as u8,
        ((value / 0x100) % 256) as u8,
        ((value / 0x1_0000) % 256) as u8,
        ((value / 0x100_0000) % 256) as u8,
    ];
    assert(limbs_of(value, 4) =~= written);
}

/// Each limb is the matching base-256 digit of the value.
pub proof fn lemma_limbs_value_digit(limbs: Seq<u8>, i: int)
    requires
        0 <= i < limbs.len(),
    ensures
        (limbs_value(limbs) / word_modulus(i as nat)) % 256 == limbs[i] as int,
    decreases limbs.len(),
{
    let n = (limbs.len() - 1) as nat;
    let low = limbs.drop_last();
    let top = limbs.last() as int;
    let m = word_modulus(i as nat);
    lemma_word_modulus(i as nat);
    lemma_limbs_value_bound(low);
    if i == n {
        // value = low + top * m with 0 <= low < m
        lemma_fundamental_div_mod_converse_div(limbs_value(limbs), m, top, limbs_value(low));
        lemma_small_mod(top as nat, 256);
    } else {
        lemma_limbs_value_digit(low, i);
        // 256^n = 256^(i+1) * 256^(n-i-1), so the top limb is a multiple of 256 * m
        let k = (n - i - 1) as nat;
        lemma_pow_adds(256, (i + 1) as nat, k);
        lemma_word_modulus(k);
        let hi = top * word_modulus(k);
        assert(top * word_modulus(n) == (256 * hi) * m) by (nonlinear_arith)
            requires
                word_modulus(n) == word_modulus((i + 1) as nat) * word_modulus(k),
                word_modulus((i + 1) as nat) == 256 * m,
                hi == top * word_modulus(k),
        ;
        let v = limbs_value(low);
        // (v + (256 * hi) * m) / m == v / m + 256 * hi
        lemma_div_multiples_vanish_quotient(m, v, 1);
        lemma_hoist_over_denominator(v, 256 * hi, m as nat);
        lemma_mod_multiples_vanish(hi, v / m, 256);
        assert((v / m + 256 * hi) % 256 == (v / m) % 256) by {
            assert(256 * hi + v / m == v / m + 256 * hi);
        }
    }
}

/// Encoding the value of a limb sequence at its own length gives the sequence back.
pub proof fn lemma_limbs_of_value(limbs: Seq<u8>)
    ensures
        limbs_of(limbs_value(limbs), limbs.len()) == limbs,
{
    let enc = limbs_of(limbs_value(limbs), limbs.len());
    assert forall|i: int| 0 <= i < limbs.len() implies enc[i] == limbs[i] by {
        lemma_limbs_value_digit(limbs, i);
    }
    assert(enc =~= limbs);
}

/// Among words that agree above limb `j`, the one with the smaller limb `j` is smaller.
pub proof fn lemma_limbs_value_order(a: Seq<u8>, b: Seq<u8>, j: int)
    requires
        a.len() == b.len(),
        0 <= j < a.len(),
        forall|k: int| j < k < a.len() ==> a[k] == b[k],
        a[j] < b[j],
    ensures
        limbs_value(a) < limbs_value(b),
    decreases a.len(),
{
    let n = (a.len() - 1) as nat;
    let m = word_modulus(n);
    lemma_word_modulus(n);
    lemma_limbs_value_bound(a.drop_last());
    lemma_limbs_value_bound(b.drop_last());
    if j == n {
        let ta = a.last() as int;
        let tb = b.last() as int;
        assert((ta + 1) * m <= tb * m) by (nonlinear_arith)
            requires
                ta + 1 <= tb,
                m > 0,
        ;
        assert((ta + 1) * m == ta * m + m) by (nonlinear_arith);
    } else {
        lemma_limbs_value_order(a.drop_last(), b.drop_last(), j);
    }
}

/// The value of a word lies in the upper half of its range exactly when its sign bit is set.
pub proof fn lemma_limbs_sign(limbs: Seq<u8>)
    requires
        limbs.len() > 0,
    ensures
        limbs_sign(limbs) <==> 2 * limbs_value(limbs) >= word_modulus(limbs.len()),
{
    let n = (limbs.len() - 1) as nat;
    let m = word_modulus(n);
    let top = limbs.last() as int;
    lemma_word_modulus(n);
    lemma_limbs_value_bound(limbs.drop_last());
    if top >= 128 {
        assert(top * m >= 128 * m) by (nonlinear_arith)
            requires
                top >= 128,
                m > 0,
        ;
    } else {
        assert(top * m <= 127 * m) by (nonlinear_arith)
            requires
                top <= 127,
                m > 0,
        ;
    }
}

/// A value below the modulus is recovered from its encoding.
pub proof fn lemma_value_of_limbs(value: int, n: nat)
    requires
        0 <= value < word_modulus(n),
    ensures
        limbs_of(value, n).len() == n,
        limbs_value(limbs_of(value, n)) == value,
    decreases n,
{
    let enc = limbs_of(value, n);
    if n == 0 {
        lemma_word_modulus(0);
    } else {
        let k = (n - 1) as nat;
        let m = word_modulus(k);
        lemma_word_modulus(k);
        let low = value % m;
        let top = value / m;
        lemma_fundamental_div_mod(value, m);
        lemma_mod_bound(value, m);
        // top < 256 because value < 256 * m
        assert(0 <= top < 256) by (nonlinear_arith)
            requires
                value == m * top + low,
                0 <= low < m,
                0 <= value < 256 * m,
                m > 0,
        ;
        lemma_small_mod(top as nat, 256);
        // the lower limbs encode `low`
        assert(enc.drop_last() =~= limbs_of(low, k)) by {
            assert forall|i: int| 0 <= i < k implies enc[i] == limbs_of(low, k)[i] by {
                let w = word_modulus(i as nat);
                lemma_word_modulus(i as nat);
                // m = w * 256^(k - i), and k - i >= 1, so m = w * 256 * r
                let r = word_modulus((k - i - 1) as nat);
                lemma_pow_adds(256, (i + 1) as nat, (k - i - 1) as nat);
                lemma_word_modulus((k - i - 1) as nat);
                let q = top * r;
                assert(m * top == (256 * q) * w) by (nonlinear_arith)
                    requires
                        m == word_modulus((i + 1) as nat) * r,
                        word_modulus((i + 1) as nat) == 256 * w,
                        q == top * r,
                ;
                lemma_hoist_over_denominator(low, 256 * q, w as nat);
                assert(value / w == low / w + 256 * q) by {
                    assert(value == low + (256 * q) * w);
                }
                lemma_mod_multiples_vanish(q, low / w, 256);
                assert(256 * q + low / w == low / w + 256 * q);
            }
        }
        lemma_value_of_limbs(low, k);
        assert(m * top == top * m) by (nonlinear_arith);
    }
}

} // verus!
