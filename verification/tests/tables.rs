//! The lookup tables: shape of the triangulation rows, consistency between
//! the two tables, and the flat data the builders produce.

use nuage::tables::{edge_table, edge_table_entry, tri_table};
use nuage::tri_data::tri_table_entry;

fn row(m: u8) -> Vec<i8> {
    (0..16).map(|j| tri_table_entry(m, j)).collect()
}

fn prefix_len(m: u8) -> usize {
    let r = row(m);
    let mut n = 0;
    while n < 16 && r[n] >= 0 {
        n += 1;
    }
    n
}

fn edge_bit(v: u16, e: u8) -> bool {
    (v / 2u16.pow(e as u32)) % 2 == 1
}

#[test]
fn trivial_masks_emit_nothing() {
    assert_eq!(tri_table_entry(0, 0), -1);
    assert_eq!(tri_table_entry(255, 0), -1);
    assert_eq!(prefix_len(0), 0);
    assert_eq!(prefix_len(255), 0);
    assert_eq!(edge_table_entry(0), 0);
    assert_eq!(edge_table_entry(255), 0);
}

#[test]
fn single_corner_rows_match_the_classic_table() {
    // only corner 0 inside: edges 0, 3, 8 are crossed
    assert_eq!(row(1)[..4], [0, 8, 3, -1]);
    assert_eq!(edge_table_entry(1), 0x109);
    // the complementary mask crosses the same edges, wound the other way
    assert_eq!(row(254)[..4], [0, 3, 8, -1]);
    assert_eq!(edge_table_entry(254), 0x109);
}

#[test]
fn rows_are_sentinel_terminated_triples() {
    for m in 0..=255u8 {
        let r = row(m);
        let n = prefix_len(m);
        assert_eq!(n % 3, 0, "mask {}", m);
        assert!(n <= 15, "mask {}", m);
        for j in 0..16 {
            if j < n {
                assert!((0..12).contains(&r[j]), "mask {} entry {}", m, j);
            } else {
                assert_eq!(r[j], -1, "mask {} entry {}", m, j);
            }
        }
    }
}

#[test]
fn tables_are_internally_consistent() {
    // every edge a triangulation row references is active in the edge table
    for m in 0..=255u8 {
        let e_row = edge_table_entry(m);
        for j in 0..prefix_len(m) {
            let e = row(m)[j] as u8;
            assert!(edge_bit(e_row, e), "mask {} edge {}", m, e);
        }
    }
}

#[test]
fn every_active_edge_is_referenced() {
    for m in 0..=255u8 {
        let e_row = edge_table_entry(m);
        let used: Vec<i8> = row(m)[..prefix_len(m)].to_vec();
        for e in 0..12u8 {
            if edge_bit(e_row, e) {
                assert!(used.contains(&(e as i8)), "mask {} edge {}", m, e);
            }
        }
    }
}

#[test]
fn flat_tables_match_the_entries() {
    let et = edge_table();
    assert_eq!(et.len(), 256);
    for m in 0..=255u8 {
        assert_eq!(et[m as usize], edge_table_entry(m));
    }
    let tt = tri_table();
    assert_eq!(tt.len(), 4096);
    for m in 0..=255u8 {
        for j in 0..16 {
            assert_eq!(tt[m as usize * 16 + j], tri_table_entry(m, j));
        }
    }
}
