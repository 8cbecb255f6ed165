//! The random choices the library makes, all drawn through `rand`.

use vstd::prelude::*;

use rand::rngs::StdRng;
use rand::seq::SliceRandom;
use rand::{Rng, SeedableRng};

verus! {

/// Names the index below `len` that `StdRng::seed_from_u64(seed)` draws first
/// with `random_range(..len)`.
pub uninterp spec fn seeded_index(seed: u64, len: usize) -> usize;

/// Whether `perm` lists each index below `n` exactly once.
pub open spec fn is_index_permutation(perm: Seq<usize>, n: nat) -> bool {
    &&& perm.len() == n
    &&& perm.no_duplicates()
    &&& forall|i: int| 0 <= i < perm.len() ==> #[trigger] perm[i] < n
}

/// Reading a permutation of `0..n` in order, cycling after `n` draws, the
/// first `n` draws are `n` different positions: a draw of at most `n` items
/// repeats none.
pub proof fn law_draws_distinct(perm: Seq<usize>, n: nat, i: int, j: int)
    requires
        is_index_permutation(perm, n),
        0 <= i < j < n,
    ensures
        perm[i % (n as int)] != perm[j % (n as int)],
{
    vstd::arithmetic::div_mod::lemma_small_mod(i as nat, n);
    vstd::arithmetic::div_mod::lemma_small_mod(j as nat, n);
}

/// The indices `0..n` in order.
pub open spec fn identity_indices(n: nat) -> Seq<usize> {
    Seq::new(n, |i: int| i as usize)
}

/// Calls `rand::Rng::random_range(..len)` on `rand::rng()` (the thread-local
/// generator), which is how `IndexedRandom::choose` picks a slice element.
/// Claimed: the result lies below `len` (the crate's `random_range` asserts a
/// non-empty range, so `len > 0` is required). Which index comes out depends on
/// chance, and nothing more is claimed.
#[verifier::external_body]
pub(crate) fn random_below(len: usize) -> (r: usize)
    requires
        len > 0,
    ensures
        r < len,
{
    rand::rng().random_range(..len)
}

/// Calls `rand::Rng::random_range(..len)` on `StdRng::seed_from_u64(seed)`.
/// Claimed: the result lies below `len`, and it is `seeded_index(seed, len)`:
/// the crate expands the seed with a fixed PCG32 sequence into a ChaCha12 key,
/// and draws a 32-bit uniform sample for any `len` up to `u32::MAX`, so the
/// same seed and length give the same index (for the `rand` version this
/// crate is built with; the crate does not promise the stream across
/// versions).
#[verifier::external_body]
pub(crate) fn seeded_below(seed: u64, len: usize) -> (r: usize)
    requires
        len > 0,
    ensures
        r < len,
        r == seeded_index(seed, len),
{
    StdRng::seed_from_u64(seed).random_range(..len)
}

/// Calls `rand::seq::SliceRandom::shuffle` with `rand::rng()` on the vector.
/// Claimed: the vector afterwards holds the same elements, each as many times as
/// before (the crate's Fisher–Yates loop only swaps elements). The order that
/// comes out depends on chance, and nothing more is claimed.
#[verifier::external_body]
pub(crate) fn shuffle<T>(v: &mut Vec<T>)
    ensures
        final(v)@.len() == old(v)@.len(),
        final(v)@.to_multiset() == old(v)@.to_multiset(),
{
    v.as_mut_slice().shuffle(&mut rand::rng());
}

/// The indices `0..n` in an order drawn by `shuffle`.
pub fn shuffled_indices(n: usize) -> (r: Vec<usize>)
    ensures
        is_index_permutation(r@, n as nat),
{
    let mut v: Vec<usize> = Vec::new();
    let mut i: usize = 0;
    while i < n
        invariant
            i <= n,
            v@ == identity_indices(i as nat),
        decreases n - i,
    {
        v.push(i);
        assert(v@ =~= identity_indices((i + 1) as nat));
        i = i + 1;
    }
    let ghost before = v@;
    shuffle(&mut v);
    proof {
        broadcast use vstd::seq_lib::group_to_multiset_ensures;

        assert(before.no_duplicates());
        before.lemma_multiset_has_no_duplicates();
        v@.lemma_multiset_has_no_duplicates_conv();
        assert forall|k: int| 0 <= k < v@.len() implies #[trigger] v@[k] < n by {
            assert(v@.contains(v@[k]));
            assert(v@.to_multiset().count(v@[k]) > 0);
            assert(before.contains(v@[k]));
        }
    }
    v
}

} // verus!
