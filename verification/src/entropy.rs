//! The entropy that seeds each draw: the user's contribution, the stored pool, and the seed.
use vstd::prelude::*;

use crate::outside::{sha2_digest, sha2_sha256};
use crate::text::{decimal_bytes, decimal_digits};

verus! {

/// How long the entropy pool is kept once it has grown that far.
pub const ENTROPY_POOL_LEN: usize = 1000;

/// How many bytes of a buyer's entropy are used at most.
pub const MAX_USER_ENTROPY: usize = 20;

/// Whether position `i` of UTF-8 text `bytes` is a character boundary (as
/// `str::is_char_boundary` says): its start, its end, or a byte that starts a character.
pub open spec fn is_char_boundary(bytes: Seq<u8>, i: int) -> bool {
    i == 0 || i == bytes.len() || (0 < i < bytes.len() && (bytes[i] < 128 || bytes[i] >= 192))
}

/// The buyer's entropy as it is used: its first 20 bytes, or "0" when it is empty.
pub open spec fn truncated_entropy(entropy: Seq<u8>) -> Seq<u8> {
    if entropy.len() > MAX_USER_ENTROPY {
        entropy.take(MAX_USER_ENTROPY as int)
    } else if entropy.len() == 0 {
        seq![48u8]
    } else {
        entropy
    }
}

/// The pool after `k` bytes of fresh entropy went in: they are appended, and once the pool
/// holds 1000 bytes or more, as many bytes leave at its front.
pub open spec fn mixed_entropy(pool: Seq<u8>, fresh: Seq<u8>, k: int) -> Seq<u8> {
    if pool.len() >= ENTROPY_POOL_LEN {
        pool.skip(k) + fresh.take(k)
    } else {
        pool + fresh.take(k)
    }
}

/// What is hashed into the seed of the generator.
pub open spec fn seed_material(pool: Seq<u8>, fresh: Seq<u8>, prng_seed: Seq<u8>, time: u64) -> Seq<
    u8,
> {
    pool + fresh + prng_seed + decimal_digits(time as nat)
}

/// The seed of the generator: the SHA-256 digest of the seed material.
pub open spec fn generator_seed(pool: Seq<u8>, fresh: Seq<u8>, prng_seed: Seq<u8>, time: u64) -> Seq<
    u8,
> {
    sha2_digest(seed_material(pool, fresh, prng_seed, time))
}

/// The initial pool: 1000 times the character "0".
pub open spec fn initial_pool() -> Seq<u8> {
    Seq::new(ENTROPY_POOL_LEN as nat, |i: int| 48u8)
}

/// The initial pool of entropy.
pub fn initial_entropy_pool() -> (pool: Vec<u8>)
    ensures
        pool@ == initial_pool(),
{
    let mut pool: Vec<u8> = Vec::new();
    let mut i: usize = 0;
    while i < ENTROPY_POOL_LEN
        invariant
            i <= ENTROPY_POOL_LEN,
            pool@ == Seq::new(i as nat, |j: int| 48u8),
        decreases ENTROPY_POOL_LEN - i,
    {
        pool.push(48u8);
        i = i + 1;
        assert(pool@ =~= Seq::new(i as nat, |j: int| 48u8));
    }
    pool
}

/// Whether position `i` of `bytes` is a character boundary (see `is_char_boundary`).
pub fn char_boundary_at(bytes: &Vec<u8>, i: usize) -> (ok: bool)
    ensures
        ok == is_char_boundary(bytes@, i as int),
{
    i == 0 || i == bytes.len() || (i < bytes.len() && (bytes[i] < 128 || bytes[i] >= 192))
}

/// The buyer's entropy as it is used (see `truncated_entropy`).
pub fn truncate_entropy(entropy: &Vec<u8>) -> (used: Vec<u8>)
    ensures
        used@ == truncated_entropy(entropy@),
{
    let mut used: Vec<u8> = Vec::new();
    if entropy.len() == 0 {
        used.push(48u8);
        assert(used@ =~= truncated_entropy(entropy@));
        return used;
    }
    let n = if entropy.len() > MAX_USER_ENTROPY {
        MAX_USER_ENTROPY
    } else {
        entropy.len()
    };
    let mut i: usize = 0;
    while i < n
        invariant
            i <= n,
            n <= entropy.len(),
            used@ == entropy@.take(i as int),
        decreases n - i,
    {
        used.push(entropy[i]);
        i = i + 1;
        assert(used@ =~= entropy@.take(i as int));
    }
    assert(used@ =~= truncated_entropy(entropy@));
    used
}

/// `a` followed by `b`.
fn concat_bytes(a: &Vec<u8>, b: &Vec<u8>) -> (joined: Vec<u8>)
    ensures
        joined@ == a@ + b@,
{
    let mut joined: Vec<u8> = Vec::new();
    let mut i: usize = 0;
    while i < a.len()
        invariant
            i <= a.len(),
            joined@ == a@.take(i as int),
        decreases a.len() - i,
    {
        joined.push(a[i]);
        i = i + 1;
        assert(joined@ =~= a@.take(i as int));
    }
    let mut j: usize = 0;
    while j < b.len()
        invariant
            j <= b.len(),
            joined@ == a@ + b@.take(j as int),
        decreases b.len() - j,
    {
        joined.push(b[j]);
        j = j + 1;
        assert(joined@ =~= a@ + b@.take(j as int));
    }
    assert(a@.take(a.len() as int) =~= a@);
    assert(b@.take(b.len() as int) =~= b@);
    joined
}

/// `bytes[from..to]`.
fn slice_bytes(bytes: &Vec<u8>, from: usize, to: usize) -> (part: Vec<u8>)
    requires
        from <= to <= bytes.len(),
    ensures
        part@ == bytes@.subrange(from as int, to as int),
{
    let mut part: Vec<u8> = Vec::new();
    let mut i: usize = from;
    while i < to
        invariant
            from <= i <= to,
            to <= bytes.len(),
            part@ == bytes@.subrange(from as int, i as int),
        decreases to - i,
    {
        part.push(bytes[i]);
        i = i + 1;
        assert(part@ =~= bytes@.subrange(from as int, i as int));
    }
    part
}

/// The pool after the first `k` bytes of `fresh` went in (see `mixed_entropy`).
pub fn mix_entropy(pool: &Vec<u8>, fresh: &Vec<u8>, k: usize) -> (mixed: Vec<u8>)
    requires
        k <= fresh.len(),
        k <= ENTROPY_POOL_LEN,
    ensures
        mixed@ == mixed_entropy(pool@, fresh@, k as int),
        pool@.len() >= ENTROPY_POOL_LEN ==> mixed@.len() == pool@.len(),
        pool@.len() < ENTROPY_POOL_LEN ==> mixed@.len() == pool@.len() + k,
{
    let head = slice_bytes(fresh, 0, k);
    assert(head@ =~= fresh@.take(k as int));
    if pool.len() >= ENTROPY_POOL_LEN {
        let tail = slice_bytes(pool, k, pool.len());
        assert(tail@ =~= pool@.skip(k as int));
        concat_bytes(&tail, &head)
    } else {
        concat_bytes(pool, &head)
    }
}

/// The seed of the generator: the SHA-256 digest (of `sha2`) of the pool, the fresh entropy,
/// the hashed seed of the configuration and the block time in decimal, in that order.
pub fn prng_seed_for(pool: &Vec<u8>, fresh: &Vec<u8>, prng_seed: &Vec<u8>, time: u64) -> (seed: Vec<
    u8,
>)
    ensures
        seed@ == generator_seed(pool@, fresh@, prng_seed@, time),
        seed@.len() == 32,
{
    let a = concat_bytes(pool, fresh);
    let b = concat_bytes(&a, prng_seed);
    let digits = decimal_bytes(time);
    let material = concat_bytes(&b, &digits);
    sha2_sha256(&material)
}

/// Law: once the pool holds 1000 bytes or more it keeps its length, whatever goes in: as many
/// bytes leave at its front as come in at its back.
pub proof fn lemma_pool_keeps_len(pool: Seq<u8>, fresh: Seq<u8>, k: int)
    requires
        pool.len() >= ENTROPY_POOL_LEN,
        0 <= k <= fresh.len(),
        k <= pool.len(),
    ensures
        mixed_entropy(pool, fresh, k).len() == pool.len(),
{
}

/// Law: the pool starts full.
pub proof fn lemma_initial_pool_full()
    ensures
        initial_pool().len() == ENTROPY_POOL_LEN,
{
}

/// Law: the used part of a buyer's entropy is never empty and never longer than 20 bytes.
pub proof fn lemma_truncated_entropy_len(entropy: Seq<u8>)
    ensures
        1 <= truncated_entropy(entropy).len() <= MAX_USER_ENTROPY,
{
}

} // verus!
