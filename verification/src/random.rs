//! The random draws the library makes, each behind a contract that states what
//! holds of every outcome.
//!
//! Nothing here is proved: the bodies call into `rand` and `openvm_circuit`, and
//! the contracts repeat what those crates document.  The generator is supplied by
//! the caller, so a seeded generator makes every draw reproducible.

use rand::rngs::StdRng;
use rand::Rng;
use vstd::prelude::*;

verus! {

/// `rand::rngs::StdRng`, carried through the library as an opaque value.
#[verifier::external_type_specification]
#[verifier::external_body]
pub struct ExStdRng(rand::rngs::StdRng);

/// Size of the store that pointers are drawn for: `gen_pointer` in
/// `openvm_circuit` draws below this bound.
pub const MAX_MEMORY: usize = 0x2000_0000;

/// Calls `rand::Rng::random_range` on the half-open range `0..bound`.
///
/// The contract claims only that the value drawn lies in the range.  An empty
/// range makes `random_range` panic, so `bound` must be positive.
#[verifier::external_body]
pub(crate) fn random_below(rng: &mut StdRng, bound: u32) -> (drawn: u32)
    requires
        bound > 0,
    ensures
        drawn < bound,
{
    rng.random_range(0..bound)
}

/// Calls `rand::Rng::random_range` on the full range of a byte, `0..=u8::MAX`.
/// Every byte is a possible outcome, so the contract claims nothing of it.
#[verifier::external_body]
pub(crate) fn random_limb(rng: &mut StdRng) -> (drawn: u8) {
    rng.random_range(0..=u8::MAX)
}

/// Calls `rand::Rng::random_ratio` with the ratio 1 to 2: a fair coin.  Either
/// outcome is possible, so the contract claims nothing of it.
#[verifier::external_body]
pub(crate) fn random_coin(rng: &mut StdRng) -> (heads: bool) {
    rng.random_ratio(1, 2)
}

/// Calls `openvm_circuit::arch::testing::memory::gen_pointer`, which draws `r`
/// below `MAX_MEMORY - len` and returns `r / len * len`.
///
/// The contract claims that the pointer is a multiple of `len` and that `len`
/// cells starting at it end before `MAX_MEMORY`.  `gen_pointer` divides by `len`
/// and draws from `0..MAX_MEMORY - len`, so `len` must be positive and below
/// `MAX_MEMORY`.
#[verifier::external_body]
pub(crate) fn gen_pointer(rng: &mut StdRng, len: usize) -> (pointer: usize)
    requires
        0 < len < MAX_MEMORY,
    ensures
        pointer % len == 0,
        pointer + len < MAX_MEMORY,
{
    openvm_circuit::arch::testing::memory::gen_pointer(rng, len)
}

} // verus!
