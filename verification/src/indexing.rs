//! Flat storage order of a cubic lattice: position `(x, y, z)` of an
//! `n x n x n` lattice lives at flat index `(z*n + y)*n + x` (x fastest).
//! The lemmas here relate flat indices and lattice coordinates in both
//! directions.

use vstd::arithmetic::div_mod::{lemma_fundamental_div_mod, lemma_fundamental_div_mod_converse};
use vstd::arithmetic::div_mod::lemma_multiply_divide_lt;
use vstd::prelude::*;

verus! {

/// Flat position of `(x, y, z)` in an `n x n x n` lattice stored x-fastest.
pub open spec fn flat_index(n: int, x: int, y: int, z: int) -> int {
    (z * n + y) * n + x
}

/// A lattice position's flat index lies within the lattice's storage.
pub proof fn lemma_flat_index_bounds(n: int, x: int, y: int, z: int)
    requires
        1 <= n,
        0 <= x < n,
        0 <= y < n,
        0 <= z < n,
    ensures
        0 <= flat_index(n, x, y, z) < n * n * n,
{
    assert(0 <= (z * n + y) * n + x < n * n * n) by (nonlinear_arith)
        requires
            0 <= x < n,
            0 <= y < n,
            0 <= z < n,
            1 <= n,
    ;
}

/// Flat indices determine their positions: `flat_index` is injective on the
/// lattice, recovered by division and remainder.
pub proof fn lemma_flat_index_unique(n: int, x: int, y: int, z: int)
    requires
        1 <= n,
        0 <= x < n,
        0 <= y < n,
        0 <= z < n,
    ensures
        forall|x2: int, y2: int, z2: int|
            0 <= x2 < n && 0 <= y2 < n && 0 <= z2 < n && #[trigger] flat_index(n, x2, y2, z2)
                == flat_index(n, x, y, z) ==> x2 == x && y2 == y && z2 == z,
{
    let k = flat_index(n, x, y, z);
    lemma_fundamental_div_mod_converse(k, n, z * n + y, x);
    lemma_fundamental_div_mod_converse(z * n + y, n, z, y);
    assert forall|x2: int, y2: int, z2: int|
        0 <= x2 < n && 0 <= y2 < n && 0 <= z2 < n && #[trigger] flat_index(n, x2, y2, z2)
            == k implies x2 == x && y2 == y && z2 == z by {
        lemma_fundamental_div_mod_converse(k, n, z2 * n + y2, x2);
        lemma_fundamental_div_mod_converse(z2 * n + y2, n, z2, y2);
    }
}

/// Every flat index within the lattice's storage is the index of a lattice
/// position, recovered by division and remainder.
pub proof fn lemma_flat_index_surjective(n: int, k: int)
    requires
        1 <= n,
        0 <= k < n * n * n,
    ensures
        0 <= k % n < n,
        0 <= (k / n) % n < n,
        0 <= k / n / n < n,
        flat_index(n, k % n, (k / n) % n, k / n / n) == k,
{
    lemma_fundamental_div_mod(k, n);
    lemma_fundamental_div_mod(k / n, n);
    assert(k < n * (n * n)) by (nonlinear_arith)
        requires
            k < n * n * n,
    ;
    lemma_multiply_divide_lt(k, n, n * n);
    lemma_multiply_divide_lt(k / n, n, n);
    assert(flat_index(n, k % n, (k / n) % n, k / n / n) == k) by (nonlinear_arith)
        requires
            flat_index(n, k % n, (k / n) % n, k / n / n) == ((k / n / n) * n + (k / n) % n) * n + k
                % n,
            k == n * (k / n) + k % n,
            k / n == n * (k / n / n) + (k / n) % n,
    ;
}

/// Division and remainder recover a position from its flat index.
pub proof fn lemma_flat_index_coords(n: int, x: int, y: int, z: int)
    requires
        1 <= n,
        0 <= x < n,
        0 <= y < n,
        0 <= z < n,
    ensures
        flat_index(n, x, y, z) % n == x,
        (flat_index(n, x, y, z) / n) % n == y,
        flat_index(n, x, y, z) / n / n == z,
{
    let k = flat_index(n, x, y, z);
    lemma_fundamental_div_mod_converse(k, n, z * n + y, x);
    lemma_fundamental_div_mod_converse(z * n + y, n, z, y);
}

} // verus!
