//! Trusted items: the calls that the minter makes into outside crates.
use vstd::prelude::*;

use rand::seq::SliceRandom;
use rand::Rng;
use rand_chacha::rand_core::SeedableRng;
use sha2::Digest;

verus! {

/// The SHA-256 digest of a byte string, as `sha2` computes it.
pub uninterp spec fn sha2_digest(data: Seq<u8>) -> Seq<u8>;

/// The SHA-256 digest of a byte string, as `secret_toolkit::crypto::sha_256` computes it.
pub uninterp spec fn toolkit_sha_256(data: Seq<u8>) -> Seq<u8>;

/// Calls `sha2::Sha256::digest` on `data`.
/// Claimed: the result is a function of the bytes alone (named `sha2_digest`) and is 32 bytes long.
#[verifier::external_body]
pub(crate) fn sha2_sha256(data: &Vec<u8>) -> (digest: Vec<u8>)
    ensures
        digest@ == sha2_digest(data@),
        digest@.len() == 32,
{
    sha2::Sha256::digest(data.as_slice()).to_vec()
}

/// Calls `secret_toolkit::crypto::sha_256` on `data`.
/// Claimed: the result is a function of the bytes alone (named `toolkit_sha_256`) and is 32 bytes long.
#[verifier::external_body]
pub(crate) fn secret_toolkit_sha_256(data: &Vec<u8>) -> (digest: Vec<u8>)
    ensures
        digest@ == toolkit_sha_256(data@),
        digest@.len() == 32,
{
    secret_toolkit::crypto::sha_256(data.as_slice()).to_vec()
}

/// The values that a `rand_chacha::ChaCha20Rng` seeded with `seed` gives, one after the
/// other, for `gen_range(0, upper)` (on `u32`) with each bound of `uppers` in turn.
pub uninterp spec fn chacha_draws(seed: Seq<u8>, uppers: Seq<usize>) -> Seq<usize>;

/// The order in which `rand::seq::SliceRandom::shuffle` leaves `items` when it is given a
/// `rand_chacha::ChaCha20Rng` seeded with `seed`.
pub uninterp spec fn chacha_shuffled(seed: Seq<u8>, items: Seq<u32>) -> Seq<u32>;

/// Seeds `rand_chacha::ChaCha20Rng::from_seed` with the 32 bytes of `seed`, then calls
/// `rand::Rng::gen_range(0, upper)` on `u32` once for each bound of `uppers`, in order.
/// Claimed: a seeded generator is reproducible, so the values are a function of the seed and
/// the bounds (named `chacha_draws`); there is one value per bound, and each lies below its
/// bound. `gen_range` panics on a zero bound, which `requires` leaves out.
/// The values are drawn as `u32`, as `gen_range(0, len)` on `usize` draws them on a 32-bit
/// target such as wasm32; on a 64-bit host `usize` draws take 64-bit values and give other
/// numbers for the same seed, so they could not be named as a function of the seed alone.
#[verifier::external_body]
pub(crate) fn chacha_draws_from_seed(seed: &Vec<u8>, uppers: &Vec<usize>) -> (values: Vec<usize>)
    requires
        seed@.len() == 32,
        forall|i: int| 0 <= i < uppers@.len() ==> 0 < #[trigger] uppers@[i] <= u32::MAX,
    ensures
        values@ == chacha_draws(seed@, uppers@),
        values@.len() == uppers@.len(),
        forall|i: int| 0 <= i < values@.len() ==> #[trigger] values@[i] < uppers@[i],
{
    let mut bytes = [0u8; 32];
    bytes.copy_from_slice(seed.as_slice());
    let mut rng = rand_chacha::ChaCha20Rng::from_seed(bytes);
    uppers.iter().map(|upper| rng.gen_range(0u32, *upper as u32) as usize).collect()
}

/// Seeds `rand_chacha::ChaCha20Rng::from_seed` with the 32 bytes of `seed` and calls
/// `rand::seq::SliceRandom::shuffle` with it on `items`.
/// Claimed: the order that comes out is a function of the seed and the items (named
/// `chacha_shuffled`), and the shuffle only swaps, so the same values stay. For lists longer
/// than `u32::MAX` the shuffle draws machine-sized integers; `requires` leaves them out.
#[verifier::external_body]
pub(crate) fn chacha_shuffle(seed: &Vec<u8>, items: &mut Vec<u32>)
    requires
        seed@.len() == 32,
        old(items)@.len() <= u32::MAX,
    ensures
        final(items)@ == chacha_shuffled(seed@, old(items)@),
        final(items)@.len() == old(items)@.len(),
        final(items)@.to_multiset() == old(items)@.to_multiset(),
{
    let mut bytes = [0u8; 32];
    bytes.copy_from_slice(seed.as_slice());
    items.as_mut_slice().shuffle(&mut rand_chacha::ChaCha20Rng::from_seed(bytes))
}

/// Calls `cosmwasm_std::Uint128::multiply_ratio` (of `secret-cosmwasm-std`), which panics on a
/// zero denominator and computes `amount * nominator` in `u128` before dividing.
/// Claimed: the result is `amount * nominator / denominator`, rounded down.
#[verifier::external_body]
pub(crate) fn multiply_ratio(amount: u128, nominator: u128, denominator: u128) -> (result: u128)
    requires
        denominator > 0,
        amount * nominator <= u128::MAX,
    ensures
        result == (amount * nominator) / (denominator as int),
{
    secret_cosmwasm_std::Uint128(amount).multiply_ratio(nominator, denominator).u128()
}

} // verus!
