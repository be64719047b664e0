//! The two static lookup tables driving the marching-cubes extractor, and the
//! theorems tying them together.
//!
//! For each of the 256 corner-sign configurations of a cell, the
//! edge-activation table (`edge_row`) records which of the 12 cube edges are
//! crossed by the iso-surface, and the triangulation table (`tri_entry`, in
//! `tri_data`) records how the crossing points connect into up to 5
//! triangles. The sign convention: bit `i` of a configuration mask is set iff
//! corner `i`'s density lies strictly below the iso threshold (the corner is
//! inside the surface).
//!
//! `lemma_tables_consistent` states the consistency of the two tables: every
//! edge referenced by a triangulation row is marked active in the
//! edge-activation row of the same mask. `lemma_trivial_configs` states that
//! the fully-inside and fully-outside masks yield no geometry.

use crate::cube::{edge_corner_a, edge_corner_b};
use crate::tri_data::tri_entry;
use crate::tri_data::tri_table_entry;
use vstd::arithmetic::div_mod::lemma_fundamental_div_mod_converse;
use vstd::prelude::*;

verus! {

/// True iff corner `i` is inside the surface under configuration mask `m`
/// (bit `i` of `m` is set).
pub open spec fn corner_in(m: int, i: int) -> bool {
    if i == 0 {
        m % 2 == 1
    } else if i == 1 {
        (m / 2) % 2 == 1
    } else if i == 2 {
        (m / 4) % 2 == 1
    } else if i == 3 {
        (m / 8) % 2 == 1
    } else if i == 4 {
        (m / 16) % 2 == 1
    } else if i == 5 {
        (m / 32) % 2 == 1
    } else if i == 6 {
        (m / 64) % 2 == 1
    } else {
        (m / 128) % 2 == 1
    }
}

/// True iff the iso-surface crosses edge `e` under mask `m`: exactly one of
/// its two endpoints is inside.
pub open spec fn edge_crossed(m: int, e: int) -> bool {
    corner_in(m, edge_corner_a(e)) != corner_in(m, edge_corner_b(e))
}

/// Bit `e` of a 12-bit edge-activation value `v`.
pub open spec fn edge_bit(v: int, e: int) -> bool {
    if e == 0 {
        v % 2 == 1
    } else if e == 1 {
        (v / 2) % 2 == 1
    } else if e == 2 {
        (v / 4) % 2 == 1
    } else if e == 3 {
        (v / 8) % 2 == 1
    } else if e == 4 {
        (v / 16) % 2 == 1
    } else if e == 5 {
        (v / 32) % 2 == 1
    } else if e == 6 {
        (v / 64) % 2 == 1
    } else if e == 7 {
        (v / 128) % 2 == 1
    } else if e == 8 {
        (v / 256) % 2 == 1
    } else if e == 9 {
        (v / 512) % 2 == 1
    } else if e == 10 {
        (v / 1024) % 2 == 1
    } else {
        (v / 2048) % 2 == 1
    }
}

/// Row `m` of the edge-activation table: bit `e` set iff edge `e` is crossed
/// under mask `m`.
pub open spec fn edge_row(m: int) -> int {
    (if edge_crossed(m, 0) {
        1int
    } else {
        0int
    }) + (if edge_crossed(m, 1) {
        2int
    } else {
        0int
    }) + (if edge_crossed(m, 2) {
        4int
    } else {
        0int
    }) + (if edge_crossed(m, 3) {
        8int
    } else {
        0int
    }) + (if edge_crossed(m, 4) {
        16int
    } else {
        0int
    }) + (if edge_crossed(m, 5) {
        32int
    } else {
        0int
    }) + (if edge_crossed(m, 6) {
        64int
    } else {
        0int
    }) + (if edge_crossed(m, 7) {
        128int
    } else {
        0int
    }) + (if edge_crossed(m, 8) {
        256int
    } else {
        0int
    }) + (if edge_crossed(m, 9) {
        512int
    } else {
        0int
    }) + (if edge_crossed(m, 10) {
        1024int
    } else {
        0int
    }) + (if edge_crossed(m, 11) {
        2048int
    } else {
        0int
    })
}

/// Index of the first sentinel entry of triangulation row `m` at or after
/// position `j`.
pub open spec fn row_len_from(m: int, j: int) -> int
    decreases 16 - j,
    when j <= 16
{
    if j >= 16 || tri_entry(m, j) == -1 {
        j
    } else {
        row_len_from(m, j + 1)
    }
}

/// Number of entries before the sentinel in triangulation row `m`; the row
/// describes `row_len(m) / 3` triangles.
pub open spec fn row_len(m: int) -> int {
    row_len_from(m, 0)
}

/// Entry `j` of row `m` is well formed: before the sentinel it names a
/// crossed edge, from the sentinel on it is `-1`.
pub open spec fn entry_ok(m: int, j: int) -> bool {
    if j < row_len(m) {
        0 <= tri_entry(m, j) < 12 && edge_crossed(m, tri_entry(m, j))
    } else {
        tri_entry(m, j) == -1
    }
}

/// Row `m` is well formed: at most 5 whole triangles, every entry well
/// formed.
pub open spec fn row_ok(m: int) -> bool {
    &&& 0 <= row_len(m) <= 15
    &&& row_len(m) % 3 == 0
    &&& forall|j: int| 0 <= j < 16 ==> #[trigger] entry_ok(m, j)
}

/// Decomposing an 8-bit value into its bits: writing a mask as a weighted sum
/// of 0/1 digits makes each `corner_in` bit equal to the matching digit.
pub proof fn lemma_corner_bits(b0: int, b1: int, b2: int, b3: int, b4: int, b5: int, b6: int, b7: int)
    requires
        0 <= b0 <= 1,
        0 <= b1 <= 1,
        0 <= b2 <= 1,
        0 <= b3 <= 1,
        0 <= b4 <= 1,
        0 <= b5 <= 1,
        0 <= b6 <= 1,
        0 <= b7 <= 1,
    ensures
        ({
            let m = b0 + 2 * b1 + 4 * b2 + 8 * b3 + 16 * b4 + 32 * b5 + 64 * b6 + 128 * b7;
            &&& 0 <= m < 256
            &&& corner_in(m, 0) == (b0 == 1)
            &&& corner_in(m, 1) == (b1 == 1)
            &&& corner_in(m, 2) == (b2 == 1)
            &&& corner_in(m, 3) == (b3 == 1)
            &&& corner_in(m, 4) == (b4 == 1)
            &&& corner_in(m, 5) == (b5 == 1)
            &&& corner_in(m, 6) == (b6 == 1)
            &&& corner_in(m, 7) == (b7 == 1)
        }),
{
    let m = b0 + 2 * b1 + 4 * b2 + 8 * b3 + 16 * b4 + 32 * b5 + 64 * b6 + 128 * b7;
    let t1 = b1 + 2 * b2 + 4 * b3 + 8 * b4 + 16 * b5 + 32 * b6 + 64 * b7;
    let t2 = b2 + 2 * b3 + 4 * b4 + 8 * b5 + 16 * b6 + 32 * b7;
    let t3 = b3 + 2 * b4 + 4 * b5 + 8 * b6 + 16 * b7;
    let t4 = b4 + 2 * b5 + 4 * b6 + 8 * b7;
    let t5 = b5 + 2 * b6 + 4 * b7;
    let t6 = b6 + 2 * b7;
    let t7 = b7;
    lemma_fundamental_div_mod_converse(m, 2, t1, b0);
    lemma_fundamental_div_mod_converse(m, 4, t2, b0 + 2 * b1);
    lemma_fundamental_div_mod_converse(m, 8, t3, b0 + 2 * b1 + 4 * b2);
    lemma_fundamental_div_mod_converse(m, 16, t4, b0 + 2 * b1 + 4 * b2 + 8 * b3);
    lemma_fundamental_div_mod_converse(m, 32, t5, b0 + 2 * b1 + 4 * b2 + 8 * b3 + 16 * b4);
    lemma_fundamental_div_mod_converse(
        m,
        64,
        t6,
        b0 + 2 * b1 + 4 * b2 + 8 * b3 + 16 * b4 + 32 * b5,
    );
    lemma_fundamental_div_mod_converse(
        m,
        128,
        t7,
        b0 + 2 * b1 + 4 * b2 + 8 * b3 + 16 * b4 + 32 * b5 + 64 * b6,
    );
    lemma_fundamental_div_mod_converse(t1, 2, t2, b1);
    lemma_fundamental_div_mod_converse(t2, 2, t3, b2);
    lemma_fundamental_div_mod_converse(t3, 2, t4, b3);
    lemma_fundamental_div_mod_converse(t4, 2, t5, b4);
    lemma_fundamental_div_mod_converse(t5, 2, t6, b5);
    lemma_fundamental_div_mod_converse(t6, 2, t7, b6);
    lemma_fundamental_div_mod_converse(t7, 2, 0, b7);
}

/// The analogous decomposition for a 12-bit edge-activation value.
pub proof fn lemma_edge_row_bits(m: int)
    ensures
        0 <= edge_row(m) < 4096,
        forall|e: int| 0 <= e < 12 ==> #[trigger] edge_bit(edge_row(m), e) == edge_crossed(m, e),
{
    assert forall|e: int| 0 <= e < 12 implies #[trigger] edge_bit(edge_row(m), e) == edge_crossed(
        m,
        e,
    ) by {
        let v = edge_row(m);
    }
}

/// Table consistency: every edge referenced before the sentinel of
/// triangulation row `m` is a valid edge index and is marked active in
/// edge-activation row `m`.
pub proof fn lemma_tables_consistent(m: int, j: int)
    requires
        0 <= m < 256,
        0 <= j < row_len(m),
    ensures
        0 <= tri_entry(m, j) < 12,
        edge_crossed(m, tri_entry(m, j)),
        edge_bit(edge_row(m), tri_entry(m, j)),
{
    lemma_row_ok(m);
    assert(entry_ok(m, j));
    lemma_edge_row_bits(m);
}

/// The fully-outside mask (0) and the fully-inside mask (255) cross no edge
/// and yield no triangles.
pub proof fn lemma_trivial_configs()
    ensures
        row_len(0) == 0,
        row_len(255) == 0,
        edge_row(0) == 0,
        edge_row(255) == 0,
{
    reveal(tri_entry);
    reveal_with_fuel(row_len_from, 2);
    assert(row_len_from(0, 0) == 0);
    assert(row_len_from(255, 0) == 0);
}

/// The mask weight of corner `i`: the mask in which only corner `i` is
/// inside.
pub open spec fn corner_mask(i: int) -> int {
    if i == 0 {
        1
    } else if i == 1 {
        2
    } else if i == 2 {
        4
    } else if i == 3 {
        8
    } else if i == 4 {
        16
    } else if i == 5 {
        32
    } else if i == 6 {
        64
    } else {
        128
    }
}

/// Edge `e` has corner `i` as one of its endpoints.
pub open spec fn edge_touches(e: int, i: int) -> bool {
    edge_corner_a(e) == i || edge_corner_b(e) == i
}

/// A configuration in which a single corner is inside (or a single corner is
/// outside) yields exactly one triangle, and each of its vertices sits on an
/// edge incident to that corner.
pub proof fn lemma_single_corner_config(i: int, m: int)
    requires
        0 <= i < 8,
        m == corner_mask(i) || m == 255 - corner_mask(i),
    ensures
        row_len(m) == 3,
        edge_touches(tri_entry(m, 0), i),
        edge_touches(tri_entry(m, 1), i),
        edge_touches(tri_entry(m, 2), i),
{
    reveal(tri_entry);
    reveal_with_fuel(row_len_from, 5);
}

/// Executable test of bit `i` of a configuration mask.
pub fn corner_inside_mask(m: u8, i: u8) -> (r: bool)
    requires
        i < 8,
    ensures
        r == corner_in(m as int, i as int),
{
    match i {
        0 => m % 2 == 1,
        1 => (m / 2) % 2 == 1,
        2 => (m / 4) % 2 == 1,
        3 => (m / 8) % 2 == 1,
        4 => (m / 16) % 2 == 1,
        5 => (m / 32) % 2 == 1,
        6 => (m / 64) % 2 == 1,
        _ => (m / 128) % 2 == 1,
    }
}

/// Executable row of the edge-activation table.
pub fn edge_table_entry(m: u8) -> (r: u16)
    ensures
        r as int == edge_row(m as int),
{
    let mut r: u16 = 0;
    if corner_inside_mask(m, 0) != corner_inside_mask(m, 1) {
        r = r + 1;
    }
    if corner_inside_mask(m, 1) != corner_inside_mask(m, 2) {
        r = r + 2;
    }
    if corner_inside_mask(m, 3) != corner_inside_mask(m, 2) {
        r = r + 4;
    }
    if corner_inside_mask(m, 0) != corner_inside_mask(m, 3) {
        r = r + 8;
    }
    if corner_inside_mask(m, 4) != corner_inside_mask(m, 5) {
        r = r + 16;
    }
    if corner_inside_mask(m, 5) != corner_inside_mask(m, 6) {
        r = r + 32;
    }
    if corner_inside_mask(m, 7) != corner_inside_mask(m, 6) {
        r = r + 64;
    }
    if corner_inside_mask(m, 4) != corner_inside_mask(m, 7) {
        r = r + 128;
    }
    if corner_inside_mask(m, 0) != corner_inside_mask(m, 4) {
        r = r + 256;
    }
    if corner_inside_mask(m, 1) != corner_inside_mask(m, 5) {
        r = r + 512;
    }
    if corner_inside_mask(m, 2) != corner_inside_mask(m, 6) {
        r = r + 1024;
    }
    if corner_inside_mask(m, 3) != corner_inside_mask(m, 7) {
        r = r + 2048;
    }
    r
}

/// The full edge-activation table as flat data (one 12-bit mask per
/// configuration), in the layout uploaded to the extraction kernel.
pub fn edge_table() -> (t: Vec<u16>)
    ensures
        t@.len() == 256,
        forall|m: int| 0 <= m < 256 ==> #[trigger] t@[m] as int == edge_row(m),
{
    let mut t: Vec<u16> = Vec::new();
    let mut m: usize = 0;
    while m < 256
        invariant
            m <= 256,
            t@.len() == m,
            forall|k: int| 0 <= k < m ==> #[trigger] t@[k] as int == edge_row(k),
        decreases 256 - m,
    {
        t.push(edge_table_entry(m as u8));
        m = m + 1;
    }
    t
}

/// The full triangulation table as flat data (16 entries per configuration,
/// row-major), in the layout uploaded to the extraction kernel.
pub fn tri_table() -> (t: Vec<i8>)
    ensures
        t@.len() == 4096,
        forall|m: int, j: int|
            0 <= m < 256 && 0 <= j < 16 ==> #[trigger] t@[m * 16 + j] as int == tri_entry(m, j),
{
    let mut t: Vec<i8> = Vec::new();
    let mut m: usize = 0;
    while m < 256
        invariant
            m <= 256,
            t@.len() == m * 16,
            forall|k: int, j: int|
                0 <= k < m && 0 <= j < 16 ==> #[trigger] t@[k * 16 + j] as int == tri_entry(k, j),
        decreases 256 - m,
    {
        let mut j: usize = 0;
        while j < 16
            invariant
                m < 256,
                j <= 16,
                t@.len() == m * 16 + j,
                forall|k: int, i: int|
                    0 <= k < m && 0 <= i < 16 ==> #[trigger] t@[k * 16 + i] as int == tri_entry(
                        k,
                        i,
                    ),
                forall|i: int| 0 <= i < j ==> #[trigger] t@[m * 16 + i] as int == tri_entry(m as int, i),
            decreases 16 - j,
        {
            t.push(tri_table_entry(m as u8, j));
            j = j + 1;
        }
        m = m + 1;
    }
    t
}

#[verifier::spinoff_prover]
#[verifier::rlimit(60)]
proof fn rows_ok_block_0()
    ensures
        forall|m: int| 0 <= m < 16 ==> #[trigger] row_ok(m),
{
    reveal(tri_entry);
    reveal_with_fuel(row_len_from, 18);
    assert forall|m: int| 0 <= m < 16 implies #[trigger] row_ok(m) by {
        if m == 0 {
            assert(row_ok(0));
        } else
        if m == 1 {
            assert(row_ok(1));
        } else
        if m == 2 {
            assert(row_ok(2));
        } else
        if m == 3 {
            assert(row_ok(3));
        } else
        if m == 4 {
            assert(row_ok(4));
        } else
        if m == 5 {
            assert(row_ok(5));
        } else
        if m == 6 {
            assert(row_ok(6));
        } else
        if m == 7 {
            assert(row_ok(7));
        } else
        if m == 8 {
            assert(row_ok(8));
        } else
        if m == 9 {
            assert(row_ok(9));
        } else
        if m == 10 {
            assert(row_ok(10));
        } else
        if m == 11 {
            assert(row_ok(11));
        } else
        if m == 12 {
            assert(row_ok(12));
        } else
        if m == 13 {
            assert(row_ok(13));
        } else
        if m == 14 {
            assert(row_ok(14));
        } else
        {
            assert(row_ok(15));
        }
    }
}

#[verifier::spinoff_prover]
#[verifier::rlimit(60)]
proof fn rows_ok_block_1()
    ensures
        forall|m: int| 16 <= m < 32 ==> #[trigger] row_ok(m),
{
    reveal(tri_entry);
    reveal_with_fuel(row_len_from, 18);
    assert forall|m: int| 16 <= m < 32 implies #[trigger] row_ok(m) by {
        if m == 16 {
            assert(row_ok(16));
        } else
        if m == 17 {
            assert(row_ok(17));
        } else
        if m == 18 {
            assert(row_ok(18));
        } else
        if m == 19 {
            assert(row_ok(19));
        } else
        if m == 20 {
            assert(row_ok(20));
        } else
        if m == 21 {
            assert(row_ok(21));
        } else
        if m == 22 {
            assert(row_ok(22));
        } else
        if m == 23 {
            assert(row_ok(23));
        } else
        if m == 24 {
            assert(row_ok(24));
        } else
        if m == 25 {
            assert(row_ok(25));
        } else
        if m == 26 {
            assert(row_ok(26));
        } else
        if m == 27 {
            assert(row_ok(27));
        } else
        if m == 28 {
            assert(row_ok(28));
        } else
        if m == 29 {
            assert(row_ok(29));
        } else
        if m == 30 {
            assert(row_ok(30));
        } else
        {
            assert(row_ok(31));
        }
    }
}

#[verifier::spinoff_prover]
#[verifier::rlimit(60)]
proof fn rows_ok_block_2()
    ensures
        forall|m: int| 32 <= m < 48 ==> #[trigger] row_ok(m),
{
    reveal(tri_entry);
    reveal_with_fuel(row_len_from, 18);
    assert forall|m: int| 32 <= m < 48 implies #[trigger] row_ok(m) by {
        if m == 32 {
            assert(row_ok(32));
        } else
        if m == 33 {
            assert(row_ok(33));
        } else
        if m == 34 {
            assert(row_ok(34));
        } else
        if m == 35 {
            assert(row_ok(35));
        } else
        if m == 36 {
            assert(row_ok(36));
        } else
        if m == 37 {
            assert(row_ok(37));
        } else
        if m == 38 {
            assert(row_ok(38));
        } else
        if m == 39 {
            assert(row_ok(39));
        } else
        if m == 40 {
            assert(row_ok(40));
        } else
        if m == 41 {
            assert(row_ok(41));
        } else
        if m == 42 {
            assert(row_ok(42));
        } else
        if m == 43 {
            assert(row_ok(43));
        } else
        if m == 44 {
            assert(row_ok(44));
        } else
        if m == 45 {
            assert(row_ok(45));
        } else
        if m == 46 {
            assert(row_ok(46));
        } else
        {
            assert(row_ok(47));
        }
    }
}

#[verifier::spinoff_prover]
#[verifier::rlimit(60)]
proof fn rows_ok_block_3()
    ensures
        forall|m: int| 48 <= m < 64 ==> #[trigger] row_ok(m),
{
    reveal(tri_entry);
    reveal_with_fuel(row_len_from, 18);
    assert forall|m: int| 48 <= m < 64 implies #[trigger] row_ok(m) by {
        if m == 48 {
            assert(row_ok(48));
        } else
        if m == 49 {
            assert(row_ok(49));
        } else
        if m == 50 {
            assert(row_ok(50));
        } else
        if m == 51 {
            assert(row_ok(51));
        } else
        if m == 52 {
            assert(row_ok(52));
        } else
        if m == 53 {
            assert(row_ok(53));
        } else
        if m == 54 {
            assert(row_ok(54));
        } else
        if m == 55 {
            assert(row_ok(55));
        } else
        if m == 56 {
            assert(row_ok(56));
        } else
        if m == 57 {
            assert(row_ok(57));
        } else
        if m == 58 {
            assert(row_ok(58));
        } else
        if m == 59 {
            assert(row_ok(59));
        } else
        if m == 60 {
            assert(row_ok(60));
        } else
        if m == 61 {
            assert(row_ok(61));
        } else
        if m == 62 {
            assert(row_ok(62));
        } else
        {
            assert(row_ok(63));
        }
    }
}

#[verifier::spinoff_prover]
#[verifier::rlimit(60)]
proof fn rows_ok_block_4()
    ensures
        forall|m: int| 64 <= m < 80 ==> #[trigger] row_ok(m),
{
    reveal(tri_entry);
    reveal_with_fuel(row_len_from, 18);
    assert forall|m: int| 64 <= m < 80 implies #[trigger] row_ok(m) by {
        if m == 64 {
            assert(row_ok(64));
        } else
        if m == 65 {
            assert(row_ok(65));
        } else
        if m == 66 {
            assert(row_ok(66));
        } else
        if m == 67 {
            assert(row_ok(67));
        } else
        if m == 68 {
            assert(row_ok(68));
        } else
        if m == 69 {
            assert(row_ok(69));
        } else
        if m == 70 {
            assert(row_ok(70));
        } else
        if m == 71 {
            assert(row_ok(71));
        } else
        if m == 72 {
            assert(row_ok(72));
        } else
        if m == 73 {
            assert(row_ok(73));
        } else
        if m == 74 {
            assert(row_ok(74));
        } else
        if m == 75 {
            assert(row_ok(75));
        } else
        if m == 76 {
            assert(row_ok(76));
        } else
        if m == 77 {
            assert(row_ok(77));
        } else
        if m == 78 {
            assert(row_ok(78));
        } else
        {
            assert(row_ok(79));
        }
    }
}

#[verifier::spinoff_prover]
#[verifier::rlimit(60)]
proof fn rows_ok_block_5()
    ensures
        forall|m: int| 80 <= m < 96 ==> #[trigger] row_ok(m),
{
    reveal(tri_entry);
    reveal_with_fuel(row_len_from, 18);
    assert forall|m: int| 80 <= m < 96 implies #[trigger] row_ok(m) by {
        if m == 80 {
            assert(row_ok(80));
        } else
        if m == 81 {
            assert(row_ok(81));
        } else
        if m == 82 {
            assert(row_ok(82));
        } else
        if m == 83 {
            assert(row_ok(83));
        } else
        if m == 84 {
            assert(row_ok(84));
        } else
        if m == 85 {
            assert(row_ok(85));
        } else
        if m == 86 {
            assert(row_ok(86));
        } else
        if m == 87 {
            assert(row_ok(87));
        } else
        if m == 88 {
            assert(row_ok(88));
        } else
        if m == 89 {
            assert(row_ok(89));
        } else
        if m == 90 {
            assert(row_ok(90));
        } else
        if m == 91 {
            assert(row_ok(91));
        } else
        if m == 92 {
            assert(row_ok(92));
        } else
        if m == 93 {
            assert(row_ok(93));
        } else
        if m == 94 {
            assert(row_ok(94));
        } else
        {
            assert(row_ok(95));
        }
    }
}

#[verifier::spinoff_prover]
#[verifier::rlimit(60)]
proof fn rows_ok_block_6()
    ensures
        forall|m: int| 96 <= m < 112 ==> #[trigger] row_ok(m),
{
    reveal(tri_entry);
    reveal_with_fuel(row_len_from, 18);
    assert forall|m: int| 96 <= m < 112 implies #[trigger] row_ok(m) by {
        if m == 96 {
            assert(row_ok(96));
        } else
        if m == 97 {
            assert(row_ok(97));
        } else
        if m == 98 {
            assert(row_ok(98));
        } else
        if m == 99 {
            assert(row_ok(99));
        } else
        if m == 100 {
            assert(row_ok(100));
        } else
        if m == 101 {
            assert(row_ok(101));
        } else
        if m == 102 {
            assert(row_ok(102));
        } else
        if m == 103 {
            assert(row_ok(103));
        } else
        if m == 104 {
            assert(row_ok(104));
        } else
        if m == 105 {
            assert(row_ok(105));
        } else
        if m == 106 {
            assert(row_ok(106));
        } else
        if m == 107 {
            assert(row_ok(107));
        } else
        if m == 108 {
            assert(row_ok(108));
        } else
        if m == 109 {
            assert(row_ok(109));
        } else
        if m == 110 {
            assert(row_ok(110));
        } else
        {
            assert(row_ok(111));
        }
    }
}

#[verifier::spinoff_prover]
#[verifier::rlimit(60)]
proof fn rows_ok_block_7()
    ensures
        forall|m: int| 112 <= m < 128 ==> #[trigger] row_ok(m),
{
    reveal(tri_entry);
    reveal_with_fuel(row_len_from, 18);
    assert forall|m: int| 112 <= m < 128 implies #[trigger] row_ok(m) by {
        if m == 112 {
            assert(row_ok(112));
        } else
        if m == 113 {
            assert(row_ok(113));
        } else
        if m == 114 {
            assert(row_ok(114));
        } else
        if m == 115 {
            assert(row_ok(115));
        } else
        if m == 116 {
            assert(row_ok(116));
        } else
        if m == 117 {
            assert(row_ok(117));
        } else
        if m == 118 {
            assert(row_ok(118));
        } else
        if m == 119 {
            assert(row_ok(119));
        } else
        if m == 120 {
            assert(row_ok(120));
        } else
        if m == 121 {
            assert(row_ok(121));
        } else
        if m == 122 {
            assert(row_ok(122));
        } else
        if m == 123 {
            assert(row_ok(123));
        } else
        if m == 124 {
            assert(row_ok(124));
        } else
        if m == 125 {
            assert(row_ok(125));
        } else
        if m == 126 {
            assert(row_ok(126));
        } else
        {
            assert(row_ok(127));
        }
    }
}

#[verifier::spinoff_prover]
#[verifier::rlimit(60)]
proof fn rows_ok_block_8()
    ensures
        forall|m: int| 128 <= m < 144 ==> #[trigger] row_ok(m),
{
    reveal(tri_entry);
    reveal_with_fuel(row_len_from, 18);
    assert forall|m: int| 128 <= m < 144 implies #[trigger] row_ok(m) by {
        if m == 128 {
            assert(row_ok(128));
        } else
        if m == 129 {
            assert(row_ok(129));
        } else
        if m == 130 {
            assert(row_ok(130));
        } else
        if m == 131 {
            assert(row_ok(131));
        } else
        if m == 132 {
            assert(row_ok(132));
        } else
        if m == 133 {
            assert(row_ok(133));
        } else
        if m == 134 {
            assert(row_ok(134));
        } else
        if m == 135 {
            assert(row_ok(135));
        } else
        if m == 136 {
            assert(row_ok(136));
        } else
        if m == 137 {
            assert(row_ok(137));
        } else
        if m == 138 {
            assert(row_ok(138));
        } else
        if m == 139 {
            assert(row_ok(139));
        } else
        if m == 140 {
            assert(row_ok(140));
        } else
        if m == 141 {
            assert(row_ok(141));
        } else
        if m == 142 {
            assert(row_ok(142));
        } else
        {
            assert(row_ok(143));
        }
    }
}

#[verifier::spinoff_prover]
#[verifier::rlimit(60)]
proof fn rows_ok_block_9()
    ensures
        forall|m: int| 144 <= m < 160 ==> #[trigger] row_ok(m),
{
    reveal(tri_entry);
    reveal_with_fuel(row_len_from, 18);
    assert forall|m: int| 144 <= m < 160 implies #[trigger] row_ok(m) by {
        if m == 144 {
            assert(row_ok(144));
        } else
        if m == 145 {
            assert(row_ok(145));
        } else
        if m == 146 {
            assert(row_ok(146));
        } else
        if m == 147 {
            assert(row_ok(147));
        } else
        if m == 148 {
            assert(row_ok(148));
        } else
        if m == 149 {
            assert(row_ok(149));
        } else
        if m == 150 {
            assert(row_ok(150));
        } else
        if m == 151 {
            assert(row_ok(151));
        } else
        if m == 152 {
            assert(row_ok(152));
        } else
        if m == 153 {
            assert(row_ok(153));
        } else
        if m == 154 {
            assert(row_ok(154));
        } else
        if m == 155 {
            assert(row_ok(155));
        } else
        if m == 156 {
            assert(row_ok(156));
        } else
        if m == 157 {
            assert(row_ok(157));
        } else
        if m == 158 {
            assert(row_ok(158));
        } else
        {
            assert(row_ok(159));
        }
    }
}

#[verifier::spinoff_prover]
#[verifier::rlimit(60)]
proof fn rows_ok_block_10()
    ensures
        forall|m: int| 160 <= m < 176 ==> #[trigger] row_ok(m),
{
    reveal(tri_entry);
    reveal_with_fuel(row_len_from, 18);
    assert forall|m: int| 160 <= m < 176 implies #[trigger] row_ok(m) by {
        if m == 160 {
            assert(row_ok(160));
        } else
        if m == 161 {
            assert(row_ok(161));
        } else
        if m == 162 {
            assert(row_ok(162));
        } else
        if m == 163 {
            assert(row_ok(163));
        } else
        if m == 164 {
            assert(row_ok(164));
        } else
        if m == 165 {
            assert(row_ok(165));
        } else
        if m == 166 {
            assert(row_ok(166));
        } else
        if m == 167 {
            assert(row_ok(167));
        } else
        if m == 168 {
            assert(row_ok(168));
        } else
        if m == 169 {
            assert(row_ok(169));
        } else
        if m == 170 {
            assert(row_ok(170));
        } else
        if m == 171 {
            assert(row_ok(171));
        } else
        if m == 172 {
            assert(row_ok(172));
        } else
        if m == 173 {
            assert(row_ok(173));
        } else
        if m == 174 {
            assert(row_ok(174));
        } else
        {
            assert(row_ok(175));
        }
    }
}

#[verifier::spinoff_prover]
#[verifier::rlimit(60)]
proof fn rows_ok_block_11()
    ensures
        forall|m: int| 176 <= m < 192 ==> #[trigger] row_ok(m),
{
    reveal(tri_entry);
    reveal_with_fuel(row_len_from, 18);
    assert forall|m: int| 176 <= m < 192 implies #[trigger] row_ok(m) by {
        if m == 176 {
            assert(row_ok(176));
        } else
        if m == 177 {
            assert(row_ok(177));
        } else
        if m == 178 {
            assert(row_ok(178));
        } else
        if m == 179 {
            assert(row_ok(179));
        } else
        if m == 180 {
            assert(row_ok(180));
        } else
        if m == 181 {
            assert(row_ok(181));
        } else
        if m == 182 {
            assert(row_ok(182));
        } else
        if m == 183 {
            assert(row_ok(183));
        } else
        if m == 184 {
            assert(row_ok(184));
        } else
        if m == 185 {
            assert(row_ok(185));
        } else
        if m == 186 {
            assert(row_ok(186));
        } else
        if m == 187 {
            assert(row_ok(187));
        } else
        if m == 188 {
            assert(row_ok(188));
        } else
        if m == 189 {
            assert(row_ok(189));
        } else
        if m == 190 {
            assert(row_ok(190));
        } else
        {
            assert(row_ok(191));
        }
    }
}

#[verifier::spinoff_prover]
#[verifier::rlimit(60)]
proof fn rows_ok_block_12()
    ensures
        forall|m: int| 192 <= m < 208 ==> #[trigger] row_ok(m),
{
    reveal(tri_entry);
    reveal_with_fuel(row_len_from, 18);
    assert forall|m: int| 192 <= m < 208 implies #[trigger] row_ok(m) by {
        if m == 192 {
            assert(row_ok(192));
        } else
        if m == 193 {
            assert(row_ok(193));
        } else
        if m == 194 {
            assert(row_ok(194));
        } else
        if m == 195 {
            assert(row_ok(195));
        } else
        if m == 196 {
            assert(row_ok(196));
        } else
        if m == 197 {
            assert(row_ok(197));
        } else
        if m == 198 {
            assert(row_ok(198));
        } else
        if m == 199 {
            assert(row_ok(199));
        } else
        if m == 200 {
            assert(row_ok(200));
        } else
        if m == 201 {
            assert(row_ok(201));
        } else
        if m == 202 {
            assert(row_ok(202));
        } else
        if m == 203 {
            assert(row_ok(203));
        } else
        if m == 204 {
            assert(row_ok(204));
        } else
        if m == 205 {
            assert(row_ok(205));
        } else
        if m == 206 {
            assert(row_ok(206));
        } else
        {
            assert(row_ok(207));
        }
    }
}

#[verifier::spinoff_prover]
#[verifier::rlimit(60)]
proof fn rows_ok_block_13()
    ensures
        forall|m: int| 208 <= m < 224 ==> #[trigger] row_ok(m),
{
    reveal(tri_entry);
    reveal_with_fuel(row_len_from, 18);
    assert forall|m: int| 208 <= m < 224 implies #[trigger] row_ok(m) by {
        if m == 208 {
            assert(row_ok(208));
        } else
        if m == 209 {
            assert(row_ok(209));
        } else
        if m == 210 {
            assert(row_ok(210));
        } else
        if m == 211 {
            assert(row_ok(211));
        } else
        if m == 212 {
            assert(row_ok(212));
        } else
        if m == 213 {
            assert(row_ok(213));
        } else
        if m == 214 {
            assert(row_ok(214));
        } else
        if m == 215 {
            assert(row_ok(215));
        } else
        if m == 216 {
            assert(row_ok(216));
        } else
        if m == 217 {
            assert(row_ok(217));
        } else
        if m == 218 {
            assert(row_ok(218));
        } else
        if m == 219 {
            assert(row_ok(219));
        } else
        if m == 220 {
            assert(row_ok(220));
        } else
        if m == 221 {
            assert(row_ok(221));
        } else
        if m == 222 {
            assert(row_ok(222));
        } else
        {
            assert(row_ok(223));
        }
    }
}

#[verifier::spinoff_prover]
#[verifier::rlimit(60)]
proof fn rows_ok_block_14()
    ensures
        forall|m: int| 224 <= m < 240 ==> #[trigger] row_ok(m),
{
    reveal(tri_entry);
    reveal_with_fuel(row_len_from, 18);
    assert forall|m: int| 224 <= m < 240 implies #[trigger] row_ok(m) by {
        if m == 224 {
            assert(row_ok(224));
        } else
        if m == 225 {
            assert(row_ok(225));
        } else
        if m == 226 {
            assert(row_ok(226));
        } else
        if m == 227 {
            assert(row_ok(227));
        } else
        if m == 228 {
            assert(row_ok(228));
        } else
        if m == 229 {
            assert(row_ok(229));
        } else
        if m == 230 {
            assert(row_ok(230));
        } else
        if m == 231 {
            assert(row_ok(231));
        } else
        if m == 232 {
            assert(row_ok(232));
        } else
        if m == 233 {
            assert(row_ok(233));
        } else
        if m == 234 {
            assert(row_ok(234));
        } else
        if m == 235 {
            assert(row_ok(235));
        } else
        if m == 236 {
            assert(row_ok(236));
        } else
        if m == 237 {
            assert(row_ok(237));
        } else
        if m == 238 {
            assert(row_ok(238));
        } else
        {
            assert(row_ok(239));
        }
    }
}

#[verifier::spinoff_prover]
#[verifier::rlimit(60)]
proof fn rows_ok_block_15()
    ensures
        forall|m: int| 240 <= m < 256 ==> #[trigger] row_ok(m),
{
    reveal(tri_entry);
    reveal_with_fuel(row_len_from, 18);
    assert forall|m: int| 240 <= m < 256 implies #[trigger] row_ok(m) by {
        if m == 240 {
            assert(row_ok(240));
        } else
        if m == 241 {
            assert(row_ok(241));
        } else
        if m == 242 {
            assert(row_ok(242));
        } else
        if m == 243 {
            assert(row_ok(243));
        } else
        if m == 244 {
            assert(row_ok(244));
        } else
        if m == 245 {
            assert(row_ok(245));
        } else
        if m == 246 {
            assert(row_ok(246));
        } else
        if m == 247 {
            assert(row_ok(247));
        } else
        if m == 248 {
            assert(row_ok(248));
        } else
        if m == 249 {
            assert(row_ok(249));
        } else
        if m == 250 {
            assert(row_ok(250));
        } else
        if m == 251 {
            assert(row_ok(251));
        } else
        if m == 252 {
            assert(row_ok(252));
        } else
        if m == 253 {
            assert(row_ok(253));
        } else
        if m == 254 {
            assert(row_ok(254));
        } else
        {
            assert(row_ok(255));
        }
    }
}

/// Every triangulation-table row is well formed.
pub proof fn lemma_row_ok(m: int)
    requires
        0 <= m < 256,
    ensures
        row_ok(m),
{
    if m < 16 {
        rows_ok_block_0();
    } else if m < 32 {
        rows_ok_block_1();
    } else if m < 48 {
        rows_ok_block_2();
    } else if m < 64 {
        rows_ok_block_3();
    } else if m < 80 {
        rows_ok_block_4();
    } else if m < 96 {
        rows_ok_block_5();
    } else if m < 112 {
        rows_ok_block_6();
    } else if m < 128 {
        rows_ok_block_7();
    } else if m < 144 {
        rows_ok_block_8();
    } else if m < 160 {
        rows_ok_block_9();
    } else if m < 176 {
        rows_ok_block_10();
    } else if m < 192 {
        rows_ok_block_11();
    } else if m < 208 {
        rows_ok_block_12();
    } else if m < 224 {
        rows_ok_block_13();
    } else if m < 240 {
        rows_ok_block_14();
    } else {
        rows_ok_block_15();
    }
}

} // verus!
