//! The 256-row triangulation table of the marching-cubes extractor.
//!
//! Row `m` lists, for the corner configuration with mask `m`, the cube edges
//! whose crossing points form the triangles of the iso-surface patch inside
//! the cell, three entries per triangle, terminated by a `-1` sentinel. The
//! data is the classical marching-cubes triangulation; its well-formedness
//! (sentinel shape, and consistency with the edge-activation table) is proved
//! in `tables`.

use vstd::prelude::*;

verus! {

pub open spec fn tri_row_0(j: int) -> int {
    if j == 0 { -1 } else if j == 1 { -1 } else if j == 2 { -1 } else if j == 3 { -1 } else if j == 4 { -1 } else if j == 5 { -1 } else if j == 6 { -1 } else if j == 7 { -1 } else if j == 8 { -1 } else if j == 9 { -1 } else if j == 10 { -1 } else if j == 11 { -1 } else if j == 12 { -1 } else if j == 13 { -1 } else if j == 14 { -1 } else { -1 }
}

pub open spec fn tri_row_1(j: int) -> int {
    if j == 0 { 0 } else if j == 1 { 8 } else if j == 2 { 3 } else if j == 3 { -1 } else if j == 4 { -1 } else if j == 5 { -1 } else if j == 6 { -1 } else if j == 7 { -1 } else if j == 8 { -1 } else if j == 9 { -1 } else if j == 10 { -1 } else if j == 11 { -1 } else if j == 12 { -1 } else if j == 13 { -1 } else if j == 14 { -1 } else { -1 }
}

pub open spec fn tri_row_2(j: int) -> int {
    if j == 0 { 0 } else if j == 1 { 1 } else if j == 2 { 9 } else if j == 3 { -1 } else if j == 4 { -1 } else if j == 5 { -1 } else if j == 6 { -1 } else if j == 7 { -1 } else if j == 8 { -1 } else if j == 9 { -1 } else if j == 10 { -1 } else if j == 11 { -1 } else if j == 12 { -1 } else if j == 13 { -1 } else if j == 14 { -1 } else { -1 }
}

pub open spec fn tri_row_3(j: int) -> int {
    if j == 0 { 1 } else if j == 1 { 8 } else if j == 2 { 3 } else if j == 3 { 9 } else if j == 4 { 8 } else if j == 5 { 1 } else if j == 6 { -1 } else if j == 7 { -1 } else if j == 8 { -1 } else if j == 9 { -1 } else if j == 10 { -1 } else if j == 11 { -1 } else if j == 12 { -1 } else if j == 13 { -1 } else if j == 14 { -1 } else { -1 }
}

pub open spec fn tri_row_4(j: int) -> int {
    if j == 0 { 1 } else if j == 1 { 2 } else if j == 2 { 10 } else if j == 3 { -1 } else if j == 4 { -1 } else if j == 5 { -1 } else if j == 6 { -1 } else if j == 7 { -1 } else if j == 8 { -1 } else if j == 9 { -1 } else if j == 10 { -1 } else if j == 11 { -1 } else if j == 12 { -1 } else if j == 13 { -1 } else if j == 14 { -1 } else { -1 }
}

pub open spec fn tri_row_5(j: int) -> int {
    if j == 0 { 0 } else if j == 1 { 8 } else if j == 2 { 3 } else if j == 3 { 1 } else if j == 4 { 2 } else if j == 5 { 10 } else if j == 6 { -1 } else if j == 7 { -1 } else if j == 8 { -1 } else if j == 9 { -1 } else if j == 10 { -1 } else if j == 11 { -1 } else if j == 12 { -1 } else if j == 13 { -1 } else if j == 14 { -1 } else { -1 }
}

pub open spec fn tri_row_6(j: int) -> int {
    if j == 0 { 9 } else if j == 1 { 2 } else if j == 2 { 10 } else if j == 3 { 0 } else if j == 4 { 2 } else if j == 5 { 9 } else if j == 6 { -1 } else if j == 7 { -1 } else if j == 8 { -1 } else if j == 9 { -1 } else if j == 10 { -1 } else if j == 11 { -1 } else if j == 12 { -1 } else if j == 13 { -1 } else if j == 14 { -1 } else { -1 }
}

pub open spec fn tri_row_7(j: int) -> int {
    if j == 0 { 2 } else if j == 1 { 8 } else if j == 2 { 3 } else if j == 3 { 2 } else if j == 4 { 10 } else if j == 5 { 8 } else if j == 6 { 10 } else if j == 7 { 9 } else if j == 8 { 8 } else if j == 9 { -1 } else if j == 10 { -1 } else if j == 11 { -1 } else if j == 12 { -1 } else if j == 13 { -1 } else if j == 14 { -1 } else { -1 }
}

pub open spec fn tri_row_8(j: int) -> int {
    if j == 0 { 3 } else if j == 1 { 11 } else if j == 2 { 2 } else if j == 3 { -1 } else if j == 4 { -1 } else if j == 5 { -1 } else if j == 6 { -1 } else if j == 7 { -1 } else if j == 8 { -1 } else if j == 9 { -1 } else if j == 10 { -1 } else if j == 11 { -1 } else if j == 12 { -1 } else if j == 13 { -1 } else if j == 14 { -1 } else { -1 }
}

pub open spec fn tri_row_9(j: int) -> int {
    if j == 0 { 0 } else if j == 1 { 11 } else if j == 2 { 2 } else if j == 3 { 8 } else if j == 4 { 11 } else if j == 5 { 0 } else if j == 6 { -1 } else if j == 7 { -1 } else if j == 8 { -1 } else if j == 9 { -1 } else if j == 10 { -1 } else if j == 11 { -1 } else if j == 12 { -1 } else if j == 13 { -1 } else if j == 14 { -1 } else { -1 }
}

pub open spec fn tri_row_10(j: int) -> int {
    if j == 0 { 1 } else if j == 1 { 9 } else if j == 2 { 0 } else if j == 3 { 2 } else if j == 4 { 3 } else if j == 5 { 11 } else if j == 6 { -1 } else if j == 7 { -1 } else if j == 8 { -1 } else if j == 9 { -1 } else if j == 10 { -1 } else if j == 11 { -1 } else if j == 12 { -1 } else if j == 13 { -1 } else if j == 14 { -1 } else { -1 }
}

pub open spec fn tri_row_11(j: int) -> int {
    if j == 0 { 1 } else if j == 1 { 11 } else if j == 2 { 2 } else if j == 3 { 1 } else if j == 4 { 9 } else if j == 5 { 11 } else if j == 6 { 9 } else if j == 7 { 8 } else if j == 8 { 11 } else if j == 9 { -1 } else if j == 10 { -1 } else if j == 11 { -1 } else if j == 12 { -1 } else if j == 13 { -1 } else if j == 14 { -1 } else { -1 }
}

pub open spec fn tri_row_12(j: int) -> int {
    if j == 0 { 3 } else if j == 1 { 10 } else if j == 2 { 1 } else if j == 3 { 11 } else if j == 4 { 10 } else if j == 5 { 3 } else if j == 6 { -1 } else if j == 7 { -1 } else if j == 8 { -1 } else if j == 9 { -1 } else if j == 10 { -1 } else if j == 11 { -1 } else if j == 12 { -1 } else if j == 13 { -1 } else if j == 14 { -1 } else { -1 }
}

pub open spec fn tri_row_13(j: int) -> int {
    if j == 0 { 0 } else if j == 1 { 10 } else if j == 2 { 1 } else if j == 3 { 0 } else if j == 4 { 8 } else if j == 5 { 10 } else if j == 6 { 8 } else if j == 7 { 11 } else if j == 8 { 10 } else if j == 9 { -1 } else if j == 10 { -1 } else if j == 11 { -1 } else if j == 12 { -1 } else if j == 13 { -1 } else if j == 14 { -1 } else { -1 }
}

pub open spec fn tri_row_14(j: int) -> int {
    if j == 0 { 3 } else if j == 1 { 9 } else if j == 2 { 0 } else if j == 3 { 3 } else if j == 4 { 11 } else if j == 5 { 9 } else if j == 6 { 11 } else if j == 7 { 10 } else if j == 8 { 9 } else if j == 9 { -1 } else if j == 10 { -1 } else if j == 11 { -1 } else if j == 12 { -1 } else if j == 13 { -1 } else if j == 14 { -1 } else { -1 }
}

pub open spec fn tri_row_15(j: int) -> int {
    if j == 0 { 9 } else if j == 1 { 8 } else if j == 2 { 10 } else if j == 3 { 10 } else if j == 4 { 8 } else if j == 5 { 11 } else if j == 6 { -1 } else if j == 7 { -1 } else if j == 8 { -1 } else if j == 9 { -1 } else if j == 10 { -1 } else if j == 11 { -1 } else if j == 12 { -1 } else if j == 13 { -1 } else if j == 14 { -1 } else { -1 }
}

pub open spec fn tri_row_16(j: int) -> int {
    if j == 0 { 4 } else if j == 1 { 7 } else if j == 2 { 8 } else if j == 3 { -1 } else if j == 4 { -1 } else if j == 5 { -1 } else if j == 6 { -1 } else if j == 7 { -1 } else if j == 8 { -1 } else if j == 9 { -1 } else if j == 10 { -1 } else if j == 11 { -1 } else if j == 12 { -1 } else if j == 13 { -1 } else if j == 14 { -1 } else { -1 }
}

pub open spec fn tri_row_17(j: int) -> int {
    if j == 0 { 4 } else if j == 1 { 3 } else if j == 2 { 0 } else if j == 3 { 7 } else if j == 4 { 3 } else if j == 5 { 4 } else if j == 6 { -1 } else if j == 7 { -1 } else if j == 8 { -1 } else if j == 9 { -1 } else if j == 10 { -1 } else if j == 11 { -1 } else if j == 12 { -1 } else if j == 13 { -1 } else if j == 14 { -1 } else { -1 }
}

pub open spec fn tri_row_18(j: int) -> int {
    if j == 0 { 0 } else if j == 1 { 1 } else if j == 2 { 9 } else if j == 3 { 8 } else if j == 4 { 4 } else if j == 5 { 7 } else if j == 6 { -1 } else if j == 7 { -1 } else if j == 8 { -1 } else if j == 9 { -1 } else if j == 10 { -1 } else if j == 11 { -1 } else if j == 12 { -1 } else if j == 13 { -1 } else if j == 14 { -1 } else { -1 }
}

pub open spec fn tri_row_19(j: int) -> int {
    if j == 0 { 4 } else if j == 1 { 1 } else if j == 2 { 9 } else if j == 3 { 4 } else if j == 4 { 7 } else if j == 5 { 1 } else if j == 6 { 7 } else if j == 7 { 3 } else if j == 8 { 1 } else if j == 9 { -1 } else if j == 10 { -1 } else if j == 11 { -1 } else if j == 12 { -1 } else if j == 13 { -1 } else if j == 14 { -1 } else { -1 }
}

pub open spec fn tri_row_20(j: int) -> int {
    if j == 0 { 1 } else if j == 1 { 2 } else if j == 2 { 10 } else if j == 3 { 8 } else if j == 4 { 4 } else if j == 5 { 7 } else if j == 6 { -1 } else if j == 7 { -1 } else if j == 8 { -1 } else if j == 9 { -1 } else if j == 10 { -1 } else if j == 11 { -1 } else if j == 12 { -1 } else if j == 13 { -1 } else if j == 14 { -1 } else { -1 }
}

pub open spec fn tri_row_21(j: int) -> int {
    if j == 0 { 3 } else if j == 1 { 4 } else if j == 2 { 7 } else if j == 3 { 3 } else if j == 4 { 0 } else if j == 5 { 4 } else if j == 6 { 1 } else if j == 7 { 2 } else if j == 8 { 10 } else if j == 9 { -1 } else if j == 10 { -1 } else if j == 11 { -1 } else if j == 12 { -1 } else if j == 13 { -1 } else if j == 14 { -1 } else { -1 }
}

pub open spec fn tri_row_22(j: int) -> int {
    if j == 0 { 9 } else if j == 1 { 2 } else if j == 2 { 10 } else if j == 3 { 9 } else if j == 4 { 0 } else if j == 5 { 2 } else if j == 6 { 8 } else if j == 7 { 4 } else if j == 8 { 7 } else if j == 9 { -1 } else if j == 10 { -1 } else if j == 11 { -1 } else if j == 12 { -1 } else if j == 13 { -1 } else if j == 14 { -1 } else { -1 }
}

pub open spec fn tri_row_23(j: int) -> int {
    if j == 0 { 2 } else if j == 1 { 10 } else if j == 2 { 9 } else if j == 3 { 2 } else if j == 4 { 9 } else if j == 5 { 7 } else if j == 6 { 2 } else if j == 7 { 7 } else if j == 8 { 3 } else if j == 9 { 7 } else if j == 10 { 9 } else if j == 11 { 4 } else if j == 12 { -1 } else if j == 13 { -1 } else if j == 14 { -1 } else { -1 }
}

pub open spec fn tri_row_24(j: int) -> int {
    if j == 0 { 8 } else if j == 1 { 4 } else if j == 2 { 7 } else if j == 3 { 3 } else if j == 4 { 11 } else if j == 5 { 2 } else if j == 6 { -1 } else if j == 7 { -1 } else if j == 8 { -1 } else if j == 9 { -1 } else if j == 10 { -1 } else if j == 11 { -1 } else if j == 12 { -1 } else if j == 13 { -1 } else if j == 14 { -1 } else { -1 }
}

pub open spec fn tri_row_25(j: int) -> int {
    if j == 0 { 11 } else if j == 1 { 4 } else if j == 2 { 7 } else if j == 3 { 11 } else if j == 4 { 2 } else if j == 5 { 4 } else if j == 6 { 2 } else if j == 7 { 0 } else if j == 8 { 4 } else if j == 9 { -1 } else if j == 10 { -1 } else if j == 11 { -1 } else if j == 12 { -1 } else if j == 13 { -1 } else if j == 14 { -1 } else { -1 }
}

pub open spec fn tri_row_26(j: int) -> int {
    if j == 0 { 9 } else if j == 1 { 0 } else if j == 2 { 1 } else if j == 3 { 8 } else if j == 4 { 4 } else if j == 5 { 7 } else if j == 6 { 2 } else if j == 7 { 3 } else if j == 8 { 11 } else if j == 9 { -1 } else if j == 10 { -1 } else if j == 11 { -1 } else if j == 12 { -1 } else if j == 13 { -1 } else if j == 14 { -1 } else { -1 }
}

pub open spec fn tri_row_27(j: int) -> int {
    if j == 0 { 4 } else if j == 1 { 7 } else if j == 2 { 11 } else if j == 3 { 9 } else if j == 4 { 4 } else if j == 5 { 11 } else if j == 6 { 9 } else if j == 7 { 11 } else if j == 8 { 2 } else if j == 9 { 9 } else if j == 10 { 2 } else if j == 11 { 1 } else if j == 12 { -1 } else if j == 13 { -1 } else if j == 14 { -1 } else { -1 }
}

pub open spec fn tri_row_28(j: int) -> int {
    if j == 0 { 3 } else if j == 1 { 10 } else if j == 2 { 1 } else if j == 3 { 3 } else if j == 4 { 11 } else if j == 5 { 10 } else if j == 6 { 7 } else if j == 7 { 8 } else if j == 8 { 4 } else if j == 9 { -1 } else if j == 10 { -1 } else if j == 11 { -1 } else if j == 12 { -1 } else if j == 13 { -1 } else if j == 14 { -1 } else { -1 }
}

pub open spec fn tri_row_29(j: int) -> int {
    if j == 0 { 1 } else if j == 1 { 11 } else if j == 2 { 10 } else if j == 3 { 1 } else if j == 4 { 4 } else if j == 5 { 11 } else if j == 6 { 1 } else if j == 7 { 0 } else if j == 8 { 4 } else if j == 9 { 7 } else if j == 10 { 11 } else if j == 11 { 4 } else if j == 12 { -1 } else if j == 13 { -1 } else if j == 14 { -1 } else { -1 }
}

pub open spec fn tri_row_30(j: int) -> int {
    if j == 0 { 4 } else if j == 1 { 7 } else if j == 2 { 8 } else if j == 3 { 9 } else if j == 4 { 0 } else if j == 5 { 11 } else if j == 6 { 9 } else if j == 7 { 11 } else if j == 8 { 10 } else if j == 9 { 11 } else if j == 10 { 0 } else if j == 11 { 3 } else if j == 12 { -1 } else if j == 13 { -1 } else if j == 14 { -1 } else { -1 }
}

pub open spec fn tri_row_31(j: int) -> int {
    if j == 0 { 4 } else if j == 1 { 7 } else if j == 2 { 11 } else if j == 3 { 4 } else if j == 4 { 11 } else if j == 5 { 9 } else if j == 6 { 9 } else if j == 7 { 11 } else if j == 8 { 10 } else if j == 9 { -1 } else if j == 10 { -1 } else if j == 11 { -1 } else if j == 12 { -1 } else if j == 13 { -1 } else if j == 14 { -1 } else { -1 }
}

pub open spec fn tri_row_32(j: int) -> int {
    if j == 0 { 9 } else if j == 1 { 5 } else if j == 2 { 4 } else if j == 3 { -1 } else if j == 4 { -1 } else if j == 5 { -1 } else if j == 6 { -1 } else if j == 7 { -1 } else if j == 8 { -1 } else if j == 9 { -1 } else if j == 10 { -1 } else if j == 11 { -1 } else if j == 12 { -1 } else if j == 13 { -1 } else if j == 14 { -1 } else { -1 }
}

pub open spec fn tri_row_33(j: int) -> int {
    if j == 0 { 9 } else if j == 1 { 5 } else if j == 2 { 4 } else if j == 3 { 0 } else if j == 4 { 8 } else if j == 5 { 3 } else if j == 6 { -1 } else if j == 7 { -1 } else if j == 8 { -1 } else if j == 9 { -1 } else if j == 10 { -1 } else if j == 11 { -1 } else if j == 12 { -1 } else if j == 13 { -1 } else if j == 14 { -1 } else { -1 }
}

pub open spec fn tri_row_34(j: int) -> int {
    if j == 0 { 0 } else if j == 1 { 5 } else if j == 2 { 4 } else if j == 3 { 1 } else if j == 4 { 5 } else if j == 5 { 0 } else if j == 6 { -1 } else if j == 7 { -1 } else if j == 8 { -1 } else if j == 9 { -1 } else if j == 10 { -1 } else if j == 11 { -1 } else if j == 12 { -1 } else if j == 13 { -1 } else if j == 14 { -1 } else { -1 }
}

pub open spec fn tri_row_35(j: int) -> int {
    if j == 0 { 8 } else if j == 1 { 5 } else if j == 2 { 4 } else if j == 3 { 8 } else if j == 4 { 3 } else if j == 5 { 5 } else if j == 6 { 3 } else if j == 7 { 1 } else if j == 8 { 5 } else if j == 9 { -1 } else if j == 10 { -1 } else if j == 11 { -1 } else if j == 12 { -1 } else if j == 13 { -1 } else if j == 14 { -1 } else { -1 }
}

pub open spec fn tri_row_36(j: int) -> int {
    if j == 0 { 1 } else if j == 1 { 2 } else if j == 2 { 10 } else if j == 3 { 9 } else if j == 4 { 5 } else if j == 5 { 4 } else if j == 6 { -1 } else if j == 7 { -1 } else if j == 8 { -1 } else if j == 9 { -1 } else if j == 10 { -1 } else if j == 11 { -1 } else if j == 12 { -1 } else if j == 13 { -1 } else if j == 14 { -1 } else { -1 }
}

pub open spec fn tri_row_37(j: int) -> int {
    if j == 0 { 3 } else if j == 1 { 0 } else if j == 2 { 8 } else if j == 3 { 1 } else if j == 4 { 2 } else if j == 5 { 10 } else if j == 6 { 4 } else if j == 7 { 9 } else if j == 8 { 5 } else if j == 9 { -1 } else if j == 10 { -1 } else if j == 11 { -1 } else if j == 12 { -1 } else if j == 13 { -1 } else if j == 14 { -1 } else { -1 }
}

pub open spec fn tri_row_38(j: int) -> int {
    if j == 0 { 5 } else if j == 1 { 2 } else if j == 2 { 10 } else if j == 3 { 5 } else if j == 4 { 4 } else if j == 5 { 2 } else if j == 6 { 4 } else if j == 7 { 0 } else if j == 8 { 2 } else if j == 9 { -1 } else if j == 10 { -1 } else if j == 11 { -1 } else if j == 12 { -1 } else if j == 13 { -1 } else if j == 14 { -1 } else { -1 }
}

pub open spec fn tri_row_39(j: int) -> int {
    if j == 0 { 2 } else if j == 1 { 10 } else if j == 2 { 5 } else if j == 3 { 3 } else if j == 4 { 2 } else if j == 5 { 5 } else if j == 6 { 3 } else if j == 7 { 5 } else if j == 8 { 4 } else if j == 9 { 3 } else if j == 10 { 4 } else if j == 11 { 8 } else if j == 12 { -1 } else if j == 13 { -1 } else if j == 14 { -1 } else { -1 }
}

pub open spec fn tri_row_40(j: int) -> int {
    if j == 0 { 9 } else if j == 1 { 5 } else if j == 2 { 4 } else if j == 3 { 2 } else if j == 4 { 3 } else if j == 5 { 11 } else if j == 6 { -1 } else if j == 7 { -1 } else if j == 8 { -1 } else if j == 9 { -1 } else if j == 10 { -1 } else if j == 11 { -1 } else if j == 12 { -1 } else if j == 13 { -1 } else if j == 14 { -1 } else { -1 }
}

pub open spec fn tri_row_41(j: int) -> int {
    if j == 0 { 0 } else if j == 1 { 11 } else if j == 2 { 2 } else if j == 3 { 0 } else if j == 4 { 8 } else if j == 5 { 11 } else if j == 6 { 4 } else if j == 7 { 9 } else if j == 8 { 5 } else if j == 9 { -1 } else if j == 10 { -1 } else if j == 11 { -1 } else if j == 12 { -1 } else if j == 13 { -1 } else if j == 14 { -1 } else { -1 }
}

pub open spec fn tri_row_42(j: int) -> int {
    if j == 0 { 0 } else if j == 1 { 5 } else if j == 2 { 4 } else if j == 3 { 0 } else if j == 4 { 1 } else if j == 5 { 5 } else if j == 6 { 2 } else if j == 7 { 3 } else if j == 8 { 11 } else if j == 9 { -1 } else if j == 10 { -1 } else if j == 11 { -1 } else if j == 12 { -1 } else if j == 13 { -1 } else if j == 14 { -1 } else { -1 }
}

pub open spec fn tri_row_43(j: int) -> int {
    if j == 0 { 2 } else if j == 1 { 1 } else if j == 2 { 5 } else if j == 3 { 2 } else if j == 4 { 5 } else if j == 5 { 8 } else if j == 6 { 2 } else if j == 7 { 8 } else if j == 8 { 11 } else if j == 9 { 4 } else if j == 10 { 8 } else if j == 11 { 5 } else if j == 12 { -1 } else if j == 13 { -1 } else if j == 14 { -1 } else { -1 }
}

pub open spec fn tri_row_44(j: int) -> int {
    if j == 0 { 10 } else if j == 1 { 3 } else if j == 2 { 11 } else if j == 3 { 10 } else if j == 4 { 1 } else if j == 5 { 3 } else if j == 6 { 9 } else if j == 7 { 5 } else if j == 8 { 4 } else if j == 9 { -1 } else if j == 10 { -1 } else if j == 11 { -1 } else if j == 12 { -1 } else if j == 13 { -1 } else if j == 14 { -1 } else { -1 }
}

pub open spec fn tri_row_45(j: int) -> int {
    if j == 0 { 4 } else if j == 1 { 9 } else if j == 2 { 5 } else if j == 3 { 0 } else if j == 4 { 8 } else if j == 5 { 1 } else if j == 6 { 8 } else if j == 7 { 10 } else if j == 8 { 1 } else if j == 9 { 8 } else if j == 10 { 11 } else if j == 11 { 10 } else if j == 12 { -1 } else if j == 13 { -1 } else if j == 14 { -1 } else { -1 }
}

pub open spec fn tri_row_46(j: int) -> int {
    if j == 0 { 5 } else if j == 1 { 4 } else if j == 2 { 0 } else if j == 3 { 5 } else if j == 4 { 0 } else if j == 5 { 11 } else if j == 6 { 5 } else if j == 7 { 11 } else if j == 8 { 10 } else if j == 9 { 11 } else if j == 10 { 0 } else if j == 11 { 3 } else if j == 12 { -1 } else if j == 13 { -1 } else if j == 14 { -1 } else { -1 }
}

pub open spec fn tri_row_47(j: int) -> int {
    if j == 0 { 5 } else if j == 1 { 4 } else if j == 2 { 8 } else if j == 3 { 5 } else if j == 4 { 8 } else if j == 5 { 10 } else if j == 6 { 10 } else if j == 7 { 8 } else if j == 8 { 11 } else if j == 9 { -1 } else if j == 10 { -1 } else if j == 11 { -1 } else if j == 12 { -1 } else if j == 13 { -1 } else if j == 14 { -1 } else { -1 }
}

pub open spec fn tri_row_48(j: int) -> int {
    if j == 0 { 9 } else if j == 1 { 7 } else if j == 2 { 8 } else if j == 3 { 5 } else if j == 4 { 7 } else if j == 5 { 9 } else if j == 6 { -1 } else if j == 7 { -1 } else if j == 8 { -1 } else if j == 9 { -1 } else if j == 10 { -1 } else if j == 11 { -1 } else if j == 12 { -1 } else if j == 13 { -1 } else if j == 14 { -1 } else { -1 }
}

pub open spec fn tri_row_49(j: int) -> int {
    if j == 0 { 9 } else if j == 1 { 3 } else if j == 2 { 0 } else if j == 3 { 9 } else if j == 4 { 5 } else if j == 5 { 3 } else if j == 6 { 5 } else if j == 7 { 7 } else if j == 8 { 3 } else if j == 9 { -1 } else if j == 10 { -1 } else if j == 11 { -1 } else if j == 12 { -1 } else if j == 13 { -1 } else if j == 14 { -1 } else { -1 }
}

pub open spec fn tri_row_50(j: int) -> int {
    if j == 0 { 0 } else if j == 1 { 7 } else if j == 2 { 8 } else if j == 3 { 0 } else if j == 4 { 1 } else if j == 5 { 7 } else if j == 6 { 1 } else if j == 7 { 5 } else if j == 8 { 7 } else if j == 9 { -1 } else if j == 10 { -1 } else if j == 11 { -1 } else if j == 12 { -1 } else if j == 13 { -1 } else if j == 14 { -1 } else { -1 }
}

pub open spec fn tri_row_51(j: int) -> int {
    if j == 0 { 1 } else if j == 1 { 5 } else if j == 2 { 3 } else if j == 3 { 3 } else if j == 4 { 5 } else if j == 5 { 7 } else if j == 6 { -1 } else if j == 7 { -1 } else if j == 8 { -1 } else if j == 9 { -1 } else if j == 10 { -1 } else if j == 11 { -1 } else if j == 12 { -1 } else if j == 13 { -1 } else if j == 14 { -1 } else { -1 }
}

pub open spec fn tri_row_52(j: int) -> int {
    if j == 0 { 9 } else if j == 1 { 7 } else if j == 2 { 8 } else if j == 3 { 9 } else if j == 4 { 5 } else if j == 5 { 7 } else if j == 6 { 10 } else if j == 7 { 1 } else if j == 8 { 2 } else if j == 9 { -1 } else if j == 10 { -1 } else if j == 11 { -1 } else if j == 12 { -1 } else if j == 13 { -1 } else if j == 14 { -1 } else { -1 }
}

pub open spec fn tri_row_53(j: int) -> int {
    if j == 0 { 10 } else if j == 1 { 1 } else if j == 2 { 2 } else if j == 3 { 9 } else if j == 4 { 5 } else if j == 5 { 0 } else if j == 6 { 5 } else if j == 7 { 3 } else if j == 8 { 0 } else if j == 9 { 5 } else if j == 10 { 7 } else if j == 11 { 3 } else if j == 12 { -1 } else if j == 13 { -1 } else if j == 14 { -1 } else { -1 }
}

pub open spec fn tri_row_54(j: int) -> int {
    if j == 0 { 8 } else if j == 1 { 0 } else if j == 2 { 2 } else if j == 3 { 8 } else if j == 4 { 2 } else if j == 5 { 5 } else if j == 6 { 8 } else if j == 7 { 5 } else if j == 8 { 7 } else if j == 9 { 10 } else if j == 10 { 5 } else if j == 11 { 2 } else if j == 12 { -1 } else if j == 13 { -1 } else if j == 14 { -1 } else { -1 }
}

pub open spec fn tri_row_55(j: int) -> int {
    if j == 0 { 2 } else if j == 1 { 10 } else if j == 2 { 5 } else if j == 3 { 2 } else if j == 4 { 5 } else if j == 5 { 3 } else if j == 6 { 3 } else if j == 7 { 5 } else if j == 8 { 7 } else if j == 9 { -1 } else if j == 10 { -1 } else if j == 11 { -1 } else if j == 12 { -1 } else if j == 13 { -1 } else if j == 14 { -1 } else { -1 }
}

pub open spec fn tri_row_56(j: int) -> int {
    if j == 0 { 7 } else if j == 1 { 9 } else if j == 2 { 5 } else if j == 3 { 7 } else if j == 4 { 8 } else if j == 5 { 9 } else if j == 6 { 3 } else if j == 7 { 11 } else if j == 8 { 2 } else if j == 9 { -1 } else if j == 10 { -1 } else if j == 11 { -1 } else if j == 12 { -1 } else if j == 13 { -1 } else if j == 14 { -1 } else { -1 }
}

pub open spec fn tri_row_57(j: int) -> int {
    if j == 0 { 9 } else if j == 1 { 5 } else if j == 2 { 7 } else if j == 3 { 9 } else if j == 4 { 7 } else if j == 5 { 2 } else if j == 6 { 9 } else if j == 7 { 2 } else if j == 8 { 0 } else if j == 9 { 2 } else if j == 10 { 7 } else if j == 11 { 11 } else if j == 12 { -1 } else if j == 13 { -1 } else if j == 14 { -1 } else { -1 }
}

pub open spec fn tri_row_58(j: int) -> int {
    if j == 0 { 2 } else if j == 1 { 3 } else if j == 2 { 11 } else if j == 3 { 0 } else if j == 4 { 1 } else if j == 5 { 8 } else if j == 6 { 1 } else if j == 7 { 7 } else if j == 8 { 8 } else if j == 9 { 1 } else if j == 10 { 5 } else if j == 11 { 7 } else if j == 12 { -1 } else if j == 13 { -1 } else if j == 14 { -1 } else { -1 }
}

pub open spec fn tri_row_59(j: int) -> int {
    if j == 0 { 11 } else if j == 1 { 2 } else if j == 2 { 1 } else if j == 3 { 11 } else if j == 4 { 1 } else if j == 5 { 7 } else if j == 6 { 7 } else if j == 7 { 1 } else if j == 8 { 5 } else if j == 9 { -1 } else if j == 10 { -1 } else if j == 11 { -1 } else if j == 12 { -1 } else if j == 13 { -1 } else if j == 14 { -1 } else { -1 }
}

pub open spec fn tri_row_60(j: int) -> int {
    if j == 0 { 9 } else if j == 1 { 5 } else if j == 2 { 8 } else if j == 3 { 8 } else if j == 4 { 5 } else if j == 5 { 7 } else if j == 6 { 10 } else if j == 7 { 1 } else if j == 8 { 3 } else if j == 9 { 10 } else if j == 10 { 3 } else if j == 11 { 11 } else if j == 12 { -1 } else if j == 13 { -1 } else if j == 14 { -1 } else { -1 }
}

pub open spec fn tri_row_61(j: int) -> int {
    if j == 0 { 5 } else if j == 1 { 7 } else if j == 2 { 0 } else if j == 3 { 5 } else if j == 4 { 0 } else if j == 5 { 9 } else if j == 6 { 7 } else if j == 7 { 11 } else if j == 8 { 0 } else if j == 9 { 1 } else if j == 10 { 0 } else if j == 11 { 10 } else if j == 12 { 11 } else if j == 13 { 10 } else if j == 14 { 0 } else { -1 }
}

pub open spec fn tri_row_62(j: int) -> int {
    if j == 0 { 11 } else if j == 1 { 10 } else if j == 2 { 0 } else if j == 3 { 11 } else if j == 4 { 0 } else if j == 5 { 3 } else if j == 6 { 10 } else if j == 7 { 5 } else if j == 8 { 0 } else if j == 9 { 8 } else if j == 10 { 0 } else if j == 11 { 7 } else if j == 12 { 5 } else if j == 13 { 7 } else if j == 14 { 0 } else { -1 }
}

pub open spec fn tri_row_63(j: int) -> int {
    if j == 0 { 11 } else if j == 1 { 10 } else if j == 2 { 5 } else if j == 3 { 7 } else if j == 4 { 11 } else if j == 5 { 5 } else if j == 6 { -1 } else if j == 7 { -1 } else if j == 8 { -1 } else if j == 9 { -1 } else if j == 10 { -1 } else if j == 11 { -1 } else if j == 12 { -1 } else if j == 13 { -1 } else if j == 14 { -1 } else { -1 }
}

pub open spec fn tri_row_64(j: int) -> int {
    if j == 0 { 10 } else if j == 1 { 6 } else if j == 2 { 5 } else if j == 3 { -1 } else if j == 4 { -1 } else if j == 5 { -1 } else if j == 6 { -1 } else if j == 7 { -1 } else if j == 8 { -1 } else if j == 9 { -1 } else if j == 10 { -1 } else if j == 11 { -1 } else if j == 12 { -1 } else if j == 13 { -1 } else if j == 14 { -1 } else { -1 }
}

pub open spec fn tri_row_65(j: int) -> int {
    if j == 0 { 0 } else if j == 1 { 8 } else if j == 2 { 3 } else if j == 3 { 5 } else if j == 4 { 10 } else if j == 5 { 6 } else if j == 6 { -1 } else if j == 7 { -1 } else if j == 8 { -1 } else if j == 9 { -1 } else if j == 10 { -1 } else if j == 11 { -1 } else if j == 12 { -1 } else if j == 13 { -1 } else if j == 14 { -1 } else { -1 }
}

pub open spec fn tri_row_66(j: int) -> int {
    if j == 0 { 9 } else if j == 1 { 0 } else if j == 2 { 1 } else if j == 3 { 5 } else if j == 4 { 10 } else if j == 5 { 6 } else if j == 6 { -1 } else if j == 7 { -1 } else if j == 8 { -1 } else if j == 9 { -1 } else if j == 10 { -1 } else if j == 11 { -1 } else if j == 12 { -1 } else if j == 13 { -1 } else if j == 14 { -1 } else { -1 }
}

pub open spec fn tri_row_67(j: int) -> int {
    if j == 0 { 1 } else if j == 1 { 8 } else if j == 2 { 3 } else if j == 3 { 1 } else if j == 4 { 9 } else if j == 5 { 8 } else if j == 6 { 5 } else if j == 7 { 10 } else if j == 8 { 6 } else if j == 9 { -1 } else if j == 10 { -1 } else if j == 11 { -1 } else if j == 12 { -1 } else if j == 13 { -1 } else if j == 14 { -1 } else { -1 }
}

pub open spec fn tri_row_68(j: int) -> int {
    if j == 0 { 1 } else if j == 1 { 6 } else if j == 2 { 5 } else if j == 3 { 2 } else if j == 4 { 6 } else if j == 5 { 1 } else if j == 6 { -1 } else if j == 7 { -1 } else if j == 8 { -1 } else if j == 9 { -1 } else if j == 10 { -1 } else if j == 11 { -1 } else if j == 12 { -1 } else if j == 13 { -1 } else if j == 14 { -1 } else { -1 }
}

pub open spec fn tri_row_69(j: int) -> int {
    if j == 0 { 1 } else if j == 1 { 6 } else if j == 2 { 5 } else if j == 3 { 1 } else if j == 4 { 2 } else if j == 5 { 6 } else if j == 6 { 3 } else if j == 7 { 0 } else if j == 8 { 8 } else if j == 9 { -1 } else if j == 10 { -1 } else if j == 11 { -1 } else if j == 12 { -1 } else if j == 13 { -1 } else if j == 14 { -1 } else { -1 }
}

pub open spec fn tri_row_70(j: int) -> int {
    if j == 0 { 9 } else if j == 1 { 6 } else if j == 2 { 5 } else if j == 3 { 9 } else if j == 4 { 0 } else if j == 5 { 6 } else if j == 6 { 0 } else if j == 7 { 2 } else if j == 8 { 6 } else if j == 9 { -1 } else if j == 10 { -1 } else if j == 11 { -1 } else if j == 12 { -1 } else if j == 13 { -1 } else if j == 14 { -1 } else { -1 }
}

pub open spec fn tri_row_71(j: int) -> int {
    if j == 0 { 5 } else if j == 1 { 9 } else if j == 2 { 8 } else if j == 3 { 5 } else if j == 4 { 8 } else if j == 5 { 2 } else if j == 6 { 5 } else if j == 7 { 2 } else if j == 8 { 6 } else if j == 9 { 3 } else if j == 10 { 2 } else if j == 11 { 8 } else if j == 12 { -1 } else if j == 13 { -1 } else if j == 14 { -1 } else { -1 }
}

pub open spec fn tri_row_72(j: int) -> int {
    if j == 0 { 2 } else if j == 1 { 3 } else if j == 2 { 11 } else if j == 3 { 10 } else if j == 4 { 6 } else if j == 5 { 5 } else if j == 6 { -1 } else if j == 7 { -1 } else if j == 8 { -1 } else if j == 9 { -1 } else if j == 10 { -1 } else if j == 11 { -1 } else if j == 12 { -1 } else if j == 13 { -1 } else if j == 14 { -1 } else { -1 }
}

pub open spec fn tri_row_73(j: int) -> int {
    if j == 0 { 11 } else if j == 1 { 0 } else if j == 2 { 8 } else if j == 3 { 11 } else if j == 4 { 2 } else if j == 5 { 0 } else if j == 6 { 10 } else if j == 7 { 6 } else if j == 8 { 5 } else if j == 9 { -1 } else if j == 10 { -1 } else if j == 11 { -1 } else if j == 12 { -1 } else if j == 13 { -1 } else if j == 14 { -1 } else { -1 }
}

pub open spec fn tri_row_74(j: int) -> int {
    if j == 0 { 0 } else if j == 1 { 1 } else if j == 2 { 9 } else if j == 3 { 2 } else if j == 4 { 3 } else if j == 5 { 11 } else if j == 6 { 5 } else if j == 7 { 10 } else if j == 8 { 6 } else if j == 9 { -1 } else if j == 10 { -1 } else if j == 11 { -1 } else if j == 12 { -1 } else if j == 13 { -1 } else if j == 14 { -1 } else { -1 }
}

pub open spec fn tri_row_75(j: int) -> int {
    if j == 0 { 5 } else if j == 1 { 10 } else if j == 2 { 6 } else if j == 3 { 1 } else if j == 4 { 9 } else if j == 5 { 2 } else if j == 6 { 9 } else if j == 7 { 11 } else if j == 8 { 2 } else if j == 9 { 9 } else if j == 10 { 8 } else if j == 11 { 11 } else if j == 12 { -1 } else if j == 13 { -1 } else if j == 14 { -1 } else { -1 }
}

pub open spec fn tri_row_76(j: int) -> int {
    if j == 0 { 6 } else if j == 1 { 3 } else if j == 2 { 11 } else if j == 3 { 6 } else if j == 4 { 5 } else if j == 5 { 3 } else if j == 6 { 5 } else if j == 7 { 1 } else if j == 8 { 3 } else if j == 9 { -1 } else if j == 10 { -1 } else if j == 11 { -1 } else if j == 12 { -1 } else if j == 13 { -1 } else if j == 14 { -1 } else { -1 }
}

pub open spec fn tri_row_77(j: int) -> int {
    if j == 0 { 0 } else if j == 1 { 8 } else if j == 2 { 11 } else if j == 3 { 0 } else if j == 4 { 11 } else if j == 5 { 5 } else if j == 6 { 0 } else if j == 7 { 5 } else if j == 8 { 1 } else if j == 9 { 5 } else if j == 10 { 11 } else if j == 11 { 6 } else if j == 12 { -1 } else if j == 13 { -1 } else if j == 14 { -1 } else { -1 }
}

pub open spec fn tri_row_78(j: int) -> int {
    if j == 0 { 3 } else if j == 1 { 11 } else if j == 2 { 6 } else if j == 3 { 0 } else if j == 4 { 3 } else if j == 5 { 6 } else if j == 6 { 0 } else if j == 7 { 6 } else if j == 8 { 5 } else if j == 9 { 0 } else if j == 10 { 5 } else if j == 11 { 9 } else if j == 12 { -1 } else if j == 13 { -1 } else if j == 14 { -1 } else { -1 }
}

pub open spec fn tri_row_79(j: int) -> int {
    if j == 0 { 6 } else if j == 1 { 5 } else if j == 2 { 9 } else if j == 3 { 6 } else if j == 4 { 9 } else if j == 5 { 11 } else if j == 6 { 11 } else if j == 7 { 9 } else if j == 8 { 8 } else if j == 9 { -1 } else if j == 10 { -1 } else if j == 11 { -1 } else if j == 12 { -1 } else if j == 13 { -1 } else if j == 14 { -1 } else { -1 }
}

pub open spec fn tri_row_80(j: int) -> int {
    if j == 0 { 5 } else if j == 1 { 10 } else if j == 2 { 6 } else if j == 3 { 4 } else if j == 4 { 7 } else if j == 5 { 8 } else if j == 6 { -1 } else if j == 7 { -1 } else if j == 8 { -1 } else if j == 9 { -1 } else if j == 10 { -1 } else if j == 11 { -1 } else if j == 12 { -1 } else if j == 13 { -1 } else if j == 14 { -1 } else { -1 }
}

pub open spec fn tri_row_81(j: int) -> int {
    if j == 0 { 4 } else if j == 1 { 3 } else if j == 2 { 0 } else if j == 3 { 4 } else if j == 4 { 7 } else if j == 5 { 3 } else if j == 6 { 6 } else if j == 7 { 5 } else if j == 8 { 10 } else if j == 9 { -1 } else if j == 10 { -1 } else if j == 11 { -1 } else if j == 12 { -1 } else if j == 13 { -1 } else if j == 14 { -1 } else { -1 }
}

pub open spec fn tri_row_82(j: int) -> int {
    if j == 0 { 1 } else if j == 1 { 9 } else if j == 2 { 0 } else if j == 3 { 5 } else if j == 4 { 10 } else if j == 5 { 6 } else if j == 6 { 8 } else if j == 7 { 4 } else if j == 8 { 7 } else if j == 9 { -1 } else if j == 10 { -1 } else if j == 11 { -1 } else if j == 12 { -1 } else if j == 13 { -1 } else if j == 14 { -1 } else { -1 }
}

pub open spec fn tri_row_83(j: int) -> int {
    if j == 0 { 10 } else if j == 1 { 6 } else if j == 2 { 5 } else if j == 3 { 1 } else if j == 4 { 9 } else if j == 5 { 7 } else if j == 6 { 1 } else if j == 7 { 7 } else if j == 8 { 3 } else if j == 9 { 7 } else if j == 10 { 9 } else if j == 11 { 4 } else if j == 12 { -1 } else if j == 13 { -1 } else if j == 14 { -1 } else { -1 }
}

pub open spec fn tri_row_84(j: int) -> int {
    if j == 0 { 6 } else if j == 1 { 1 } else if j == 2 { 2 } else if j == 3 { 6 } else if j == 4 { 5 } else if j == 5 { 1 } else if j == 6 { 4 } else if j == 7 { 7 } else if j == 8 { 8 } else if j == 9 { -1 } else if j == 10 { -1 } else if j == 11 { -1 } else if j == 12 { -1 } else if j == 13 { -1 } else if j == 14 { -1 } else { -1 }
}

pub open spec fn tri_row_85(j: int) -> int {
    if j == 0 { 1 } else if j == 1 { 2 } else if j == 2 { 5 } else if j == 3 { 5 } else if j == 4 { 2 } else if j == 5 { 6 } else if j == 6 { 3 } else if j == 7 { 0 } else if j == 8 { 4 } else if j == 9 { 3 } else if j == 10 { 4 } else if j == 11 { 7 } else if j == 12 { -1 } else if j == 13 { -1 } else if j == 14 { -1 } else { -1 }
}

pub open spec fn tri_row_86(j: int) -> int {
    if j == 0 { 8 } else if j == 1 { 4 } else if j == 2 { 7 } else if j == 3 { 9 } else if j == 4 { 0 } else if j == 5 { 5 } else if j == 6 { 0 } else if j == 7 { 6 } else if j == 8 { 5 } else if j == 9 { 0 } else if j == 10 { 2 } else if j == 11 { 6 } else if j == 12 { -1 } else if j == 13 { -1 } else if j == 14 { -1 } else { -1 }
}

pub open spec fn tri_row_87(j: int) -> int {
    if j == 0 { 7 } else if j == 1 { 3 } else if j == 2 { 9 } else if j == 3 { 7 } else if j == 4 { 9 } else if j == 5 { 4 } else if j == 6 { 3 } else if j == 7 { 2 } else if j == 8 { 9 } else if j == 9 { 5 } else if j == 10 { 9 } else if j == 11 { 6 } else if j == 12 { 2 } else if j == 13 { 6 } else if j == 14 { 9 } else { -1 }
}

pub open spec fn tri_row_88(j: int) -> int {
    if j == 0 { 3 } else if j == 1 { 11 } else if j == 2 { 2 } else if j == 3 { 7 } else if j == 4 { 8 } else if j == 5 { 4 } else if j == 6 { 10 } else if j == 7 { 6 } else if j == 8 { 5 } else if j == 9 { -1 } else if j == 10 { -1 } else if j == 11 { -1 } else if j == 12 { -1 } else if j == 13 { -1 } else if j == 14 { -1 } else { -1 }
}

pub open spec fn tri_row_89(j: int) -> int {
    if j == 0 { 5 } else if j == 1 { 10 } else if j == 2 { 6 } else if j == 3 { 4 } else if j == 4 { 7 } else if j == 5 { 2 } else if j == 6 { 4 } else if j == 7 { 2 } else if j == 8 { 0 } else if j == 9 { 2 } else if j == 10 { 7 } else if j == 11 { 11 } else if j == 12 { -1 } else if j == 13 { -1 } else if j == 14 { -1 } else { -1 }
}

pub open spec fn tri_row_90(j: int) -> int {
    if j == 0 { 0 } else if j == 1 { 1 } else if j == 2 { 9 } else if j == 3 { 4 } else if j == 4 { 7 } else if j == 5 { 8 } else if j == 6 { 2 } else if j == 7 { 3 } else if j == 8 { 11 } else if j == 9 { 5 } else if j == 10 { 10 } else if j == 11 { 6 } else if j == 12 { -1 } else if j == 13 { -1 } else if j == 14 { -1 } else { -1 }
}

pub open spec fn tri_row_91(j: int) -> int {
    if j == 0 { 9 } else if j == 1 { 2 } else if j == 2 { 1 } else if j == 3 { 9 } else if j == 4 { 11 } else if j == 5 { 2 } else if j == 6 { 9 } else if j == 7 { 4 } else if j == 8 { 11 } else if j == 9 { 7 } else if j == 10 { 11 } else if j == 11 { 4 } else if j == 12 { 5 } else if j == 13 { 10 } else if j == 14 { 6 } else { -1 }
}

pub open spec fn tri_row_92(j: int) -> int {
    if j == 0 { 8 } else if j == 1 { 4 } else if j == 2 { 7 } else if j == 3 { 3 } else if j == 4 { 11 } else if j == 5 { 5 } else if j == 6 { 3 } else if j == 7 { 5 } else if j == 8 { 1 } else if j == 9 { 5 } else if j == 10 { 11 } else if j == 11 { 6 } else if j == 12 { -1 } else if j == 13 { -1 } else if j == 14 { -1 } else { -1 }
}

pub open spec fn tri_row_93(j: int) -> int {
    if j == 0 { 5 } else if j == 1 { 1 } else if j == 2 { 11 } else if j == 3 { 5 } else if j == 4 { 11 } else if j == 5 { 6 } else if j == 6 { 1 } else if j == 7 { 0 } else if j == 8 { 11 } else if j == 9 { 7 } else if j == 10 { 11 } else if j == 11 { 4 } else if j == 12 { 0 } else if j == 13 { 4 } else if j == 14 { 11 } else { -1 }
}

pub open spec fn tri_row_94(j: int) -> int {
    if j == 0 { 0 } else if j == 1 { 5 } else if j == 2 { 9 } else if j == 3 { 0 } else if j == 4 { 6 } else if j == 5 { 5 } else if j == 6 { 0 } else if j == 7 { 3 } else if j == 8 { 6 } else if j == 9 { 11 } else if j == 10 { 6 } else if j == 11 { 3 } else if j == 12 { 8 } else if j == 13 { 4 } else if j == 14 { 7 } else { -1 }
}

pub open spec fn tri_row_95(j: int) -> int {
    if j == 0 { 6 } else if j == 1 { 5 } else if j == 2 { 9 } else if j == 3 { 6 } else if j == 4 { 9 } else if j == 5 { 11 } else if j == 6 { 4 } else if j == 7 { 7 } else if j == 8 { 9 } else if j == 9 { 7 } else if j == 10 { 11 } else if j == 11 { 9 } else if j == 12 { -1 } else if j == 13 { -1 } else if j == 14 { -1 } else { -1 }
}

pub open spec fn tri_row_96(j: int) -> int {
    if j == 0 { 10 } else if j == 1 { 4 } else if j == 2 { 9 } else if j == 3 { 6 } else if j == 4 { 4 } else if j == 5 { 10 } else if j == 6 { -1 } else if j == 7 { -1 } else if j == 8 { -1 } else if j == 9 { -1 } else if j == 10 { -1 } else if j == 11 { -1 } else if j == 12 { -1 } else if j == 13 { -1 } else if j == 14 { -1 } else { -1 }
}

pub open spec fn tri_row_97(j: int) -> int {
    if j == 0 { 4 } else if j == 1 { 10 } else if j == 2 { 6 } else if j == 3 { 4 } else if j == 4 { 9 } else if j == 5 { 10 } else if j == 6 { 0 } else if j == 7 { 8 } else if j == 8 { 3 } else if j == 9 { -1 } else if j == 10 { -1 } else if j == 11 { -1 } else if j == 12 { -1 } else if j == 13 { -1 } else if j == 14 { -1 } else { -1 }
}

pub open spec fn tri_row_98(j: int) -> int {
    if j == 0 { 10 } else if j == 1 { 0 } else if j == 2 { 1 } else if j == 3 { 10 } else if j == 4 { 6 } else if j == 5 { 0 } else if j == 6 { 6 } else if j == 7 { 4 } else if j == 8 { 0 } else if j == 9 { -1 } else if j == 10 { -1 } else if j == 11 { -1 } else if j == 12 { -1 } else if j == 13 { -1 } else if j == 14 { -1 } else { -1 }
}

pub open spec fn tri_row_99(j: int) -> int {
    if j == 0 { 8 } else if j == 1 { 3 } else if j == 2 { 1 } else if j == 3 { 8 } else if j == 4 { 1 } else if j == 5 { 6 } else if j == 6 { 8 } else if j == 7 { 6 } else if j == 8 { 4 } else if j == 9 { 6 } else if j == 10 { 1 } else if j == 11 { 10 } else if j == 12 { -1 } else if j == 13 { -1 } else if j == 14 { -1 } else { -1 }
}

pub open spec fn tri_row_100(j: int) -> int {
    if j == 0 { 1 } else if j == 1 { 4 } else if j == 2 { 9 } else if j == 3 { 1 } else if j == 4 { 2 } else if j == 5 { 4 } else if j == 6 { 2 } else if j == 7 { 6 } else if j == 8 { 4 } else if j == 9 { -1 } else if j == 10 { -1 } else if j == 11 { -1 } else if j == 12 { -1 } else if j == 13 { -1 } else if j == 14 { -1 } else { -1 }
}

pub open spec fn tri_row_101(j: int) -> int {
    if j == 0 { 3 } else if j == 1 { 0 } else if j == 2 { 8 } else if j == 3 { 1 } else if j == 4 { 2 } else if j == 5 { 9 } else if j == 6 { 2 } else if j == 7 { 4 } else if j == 8 { 9 } else if j == 9 { 2 } else if j == 10 { 6 } else if j == 11 { 4 } else if j == 12 { -1 } else if j == 13 { -1 } else if j == 14 { -1 } else { -1 }
}

pub open spec fn tri_row_102(j: int) -> int {
    if j == 0 { 0 } else if j == 1 { 2 } else if j == 2 { 4 } else if j == 3 { 4 } else if j == 4 { 2 } else if j == 5 { 6 } else if j == 6 { -1 } else if j == 7 { -1 } else if j == 8 { -1 } else if j == 9 { -1 } else if j == 10 { -1 } else if j == 11 { -1 } else if j == 12 { -1 } else if j == 13 { -1 } else if j == 14 { -1 } else { -1 }
}

pub open spec fn tri_row_103(j: int) -> int {
    if j == 0 { 8 } else if j == 1 { 3 } else if j == 2 { 2 } else if j == 3 { 8 } else if j == 4 { 2 } else if j == 5 { 4 } else if j == 6 { 4 } else if j == 7 { 2 } else if j == 8 { 6 } else if j == 9 { -1 } else if j == 10 { -1 } else if j == 11 { -1 } else if j == 12 { -1 } else if j == 13 { -1 } else if j == 14 { -1 } else { -1 }
}

pub open spec fn tri_row_104(j: int) -> int {
    if j == 0 { 10 } else if j == 1 { 4 } else if j == 2 { 9 } else if j == 3 { 10 } else if j == 4 { 6 } else if j == 5 { 4 } else if j == 6 { 11 } else if j == 7 { 2 } else if j == 8 { 3 } else if j == 9 { -1 } else if j == 10 { -1 } else if j == 11 { -1 } else if j == 12 { -1 } else if j == 13 { -1 } else if j == 14 { -1 } else { -1 }
}

pub open spec fn tri_row_105(j: int) -> int {
    if j == 0 { 0 } else if j == 1 { 8 } else if j == 2 { 2 } else if j == 3 { 2 } else if j == 4 { 8 } else if j == 5 { 11 } else if j == 6 { 4 } else if j == 7 { 9 } else if j == 8 { 10 } else if j == 9 { 4 } else if j == 10 { 10 } else if j == 11 { 6 } else if j == 12 { -1 } else if j == 13 { -1 } else if j == 14 { -1 } else { -1 }
}

pub open spec fn tri_row_106(j: int) -> int {
    if j == 0 { 3 } else if j == 1 { 11 } else if j == 2 { 2 } else if j == 3 { 0 } else if j == 4 { 1 } else if j == 5 { 6 } else if j == 6 { 0 } else if j == 7 { 6 } else if j == 8 { 4 } else if j == 9 { 6 } else if j == 10 { 1 } else if j == 11 { 10 } else if j == 12 { -1 } else if j == 13 { -1 } else if j == 14 { -1 } else { -1 }
}

pub open spec fn tri_row_107(j: int) -> int {
    if j == 0 { 6 } else if j == 1 { 4 } else if j == 2 { 1 } else if j == 3 { 6 } else if j == 4 { 1 } else if j == 5 { 10 } else if j == 6 { 4 } else if j == 7 { 8 } else if j == 8 { 1 } else if j == 9 { 2 } else if j == 10 { 1 } else if j == 11 { 11 } else if j == 12 { 8 } else if j == 13 { 11 } else if j == 14 { 1 } else { -1 }
}

pub open spec fn tri_row_108(j: int) -> int {
    if j == 0 { 9 } else if j == 1 { 6 } else if j == 2 { 4 } else if j == 3 { 9 } else if j == 4 { 3 } else if j == 5 { 6 } else if j == 6 { 9 } else if j == 7 { 1 } else if j == 8 { 3 } else if j == 9 { 11 } else if j == 10 { 6 } else if j == 11 { 3 } else if j == 12 { -1 } else if j == 13 { -1 } else if j == 14 { -1 } else { -1 }
}

pub open spec fn tri_row_109(j: int) -> int {
    if j == 0 { 8 } else if j == 1 { 11 } else if j == 2 { 1 } else if j == 3 { 8 } else if j == 4 { 1 } else if j == 5 { 0 } else if j == 6 { 11 } else if j == 7 { 6 } else if j == 8 { 1 } else if j == 9 { 9 } else if j == 10 { 1 } else if j == 11 { 4 } else if j == 12 { 6 } else if j == 13 { 4 } else if j == 14 { 1 } else { -1 }
}

pub open spec fn tri_row_110(j: int) -> int {
    if j == 0 { 3 } else if j == 1 { 11 } else if j == 2 { 6 } else if j == 3 { 3 } else if j == 4 { 6 } else if j == 5 { 0 } else if j == 6 { 0 } else if j == 7 { 6 } else if j == 8 { 4 } else if j == 9 { -1 } else if j == 10 { -1 } else if j == 11 { -1 } else if j == 12 { -1 } else if j == 13 { -1 } else if j == 14 { -1 } else { -1 }
}

pub open spec fn tri_row_111(j: int) -> int {
    if j == 0 { 6 } else if j == 1 { 4 } else if j == 2 { 8 } else if j == 3 { 11 } else if j == 4 { 6 } else if j == 5 { 8 } else if j == 6 { -1 } else if j == 7 { -1 } else if j == 8 { -1 } else if j == 9 { -1 } else if j == 10 { -1 } else if j == 11 { -1 } else if j == 12 { -1 } else if j == 13 { -1 } else if j == 14 { -1 } else { -1 }
}

pub open spec fn tri_row_112(j: int) -> int {
    if j == 0 { 7 } else if j == 1 { 10 } else if j == 2 { 6 } else if j == 3 { 7 } else if j == 4 { 8 } else if j == 5 { 10 } else if j == 6 { 8 } else if j == 7 { 9 } else if j == 8 { 10 } else if j == 9 { -1 } else if j == 10 { -1 } else if j == 11 { -1 } else if j == 12 { -1 } else if j == 13 { -1 } else if j == 14 { -1 } else { -1 }
}

pub open spec fn tri_row_113(j: int) -> int {
    if j == 0 { 0 } else if j == 1 { 7 } else if j == 2 { 3 } else if j == 3 { 0 } else if j == 4 { 10 } else if j == 5 { 7 } else if j == 6 { 0 } else if j == 7 { 9 } else if j == 8 { 10 } else if j == 9 { 6 } else if j == 10 { 7 } else if j == 11 { 10 } else if j == 12 { -1 } else if j == 13 { -1 } else if j == 14 { -1 } else { -1 }
}

pub open spec fn tri_row_114(j: int) -> int {
    if j == 0 { 10 } else if j == 1 { 6 } else if j == 2 { 7 } else if j == 3 { 1 } else if j == 4 { 10 } else if j == 5 { 7 } else if j == 6 { 1 } else if j == 7 { 7 } else if j == 8 { 8 } else if j == 9 { 1 } else if j == 10 { 8 } else if j == 11 { 0 } else if j == 12 { -1 } else if j == 13 { -1 } else if j == 14 { -1 } else { -1 }
}

pub open spec fn tri_row_115(j: int) -> int {
    if j == 0 { 10 } else if j == 1 { 6 } else if j == 2 { 7 } else if j == 3 { 10 } else if j == 4 { 7 } else if j == 5 { 1 } else if j == 6 { 1 } else if j == 7 { 7 } else if j == 8 { 3 } else if j == 9 { -1 } else if j == 10 { -1 } else if j == 11 { -1 } else if j == 12 { -1 } else if j == 13 { -1 } else if j == 14 { -1 } else { -1 }
}

pub open spec fn tri_row_116(j: int) -> int {
    if j == 0 { 1 } else if j == 1 { 2 } else if j == 2 { 6 } else if j == 3 { 1 } else if j == 4 { 6 } else if j == 5 { 8 } else if j == 6 { 1 } else if j == 7 { 8 } else if j == 8 { 9 } else if j == 9 { 8 } else if j == 10 { 6 } else if j == 11 { 7 } else if j == 12 { -1 } else if j == 13 { -1 } else if j == 14 { -1 } else { -1 }
}

pub open spec fn tri_row_117(j: int) -> int {
    if j == 0 { 2 } else if j == 1 { 6 } else if j == 2 { 9 } else if j == 3 { 2 } else if j == 4 { 9 } else if j == 5 { 1 } else if j == 6 { 6 } else if j == 7 { 7 } else if j == 8 { 9 } else if j == 9 { 0 } else if j == 10 { 9 } else if j == 11 { 3 } else if j == 12 { 7 } else if j == 13 { 3 } else if j == 14 { 9 } else { -1 }
}

pub open spec fn tri_row_118(j: int) -> int {
    if j == 0 { 7 } else if j == 1 { 8 } else if j == 2 { 0 } else if j == 3 { 7 } else if j == 4 { 0 } else if j == 5 { 6 } else if j == 6 { 6 } else if j == 7 { 0 } else if j == 8 { 2 } else if j == 9 { -1 } else if j == 10 { -1 } else if j == 11 { -1 } else if j == 12 { -1 } else if j == 13 { -1 } else if j == 14 { -1 } else { -1 }
}

pub open spec fn tri_row_119(j: int) -> int {
    if j == 0 { 7 } else if j == 1 { 3 } else if j == 2 { 2 } else if j == 3 { 6 } else if j == 4 { 7 } else if j == 5 { 2 } else if j == 6 { -1 } else if j == 7 { -1 } else if j == 8 { -1 } else if j == 9 { -1 } else if j == 10 { -1 } else if j == 11 { -1 } else if j == 12 { -1 } else if j == 13 { -1 } else if j == 14 { -1 } else { -1 }
}

pub open spec fn tri_row_120(j: int) -> int {
    if j == 0 { 2 } else if j == 1 { 3 } else if j == 2 { 11 } else if j == 3 { 10 } else if j == 4 { 6 } else if j == 5 { 8 } else if j == 6 { 10 } else if j == 7 { 8 } else if j == 8 { 9 } else if j == 9 { 8 } else if j == 10 { 6 } else if j == 11 { 7 } else if j == 12 { -1 } else if j == 13 { -1 } else if j == 14 { -1 } else { -1 }
}

pub open spec fn tri_row_121(j: int) -> int {
    if j == 0 { 2 } else if j == 1 { 0 } else if j == 2 { 7 } else if j == 3 { 2 } else if j == 4 { 7 } else if j == 5 { 11 } else if j == 6 { 0 } else if j == 7 { 9 } else if j == 8 { 7 } else if j == 9 { 6 } else if j == 10 { 7 } else if j == 11 { 10 } else if j == 12 { 9 } else if j == 13 { 10 } else if j == 14 { 7 } else { -1 }
}

pub open spec fn tri_row_122(j: int) -> int {
    if j == 0 { 1 } else if j == 1 { 8 } else if j == 2 { 0 } else if j == 3 { 1 } else if j == 4 { 7 } else if j == 5 { 8 } else if j == 6 { 1 } else if j == 7 { 10 } else if j == 8 { 7 } else if j == 9 { 6 } else if j == 10 { 7 } else if j == 11 { 10 } else if j == 12 { 2 } else if j == 13 { 3 } else if j == 14 { 11 } else { -1 }
}

pub open spec fn tri_row_123(j: int) -> int {
    if j == 0 { 11 } else if j == 1 { 2 } else if j == 2 { 1 } else if j == 3 { 11 } else if j == 4 { 1 } else if j == 5 { 7 } else if j == 6 { 10 } else if j == 7 { 6 } else if j == 8 { 1 } else if j == 9 { 6 } else if j == 10 { 7 } else if j == 11 { 1 } else if j == 12 { -1 } else if j == 13 { -1 } else if j == 14 { -1 } else { -1 }
}

pub open spec fn tri_row_124(j: int) -> int {
    if j == 0 { 8 } else if j == 1 { 9 } else if j == 2 { 6 } else if j == 3 { 8 } else if j == 4 { 6 } else if j == 5 { 7 } else if j == 6 { 9 } else if j == 7 { 1 } else if j == 8 { 6 } else if j == 9 { 11 } else if j == 10 { 6 } else if j == 11 { 3 } else if j == 12 { 1 } else if j == 13 { 3 } else if j == 14 { 6 } else { -1 }
}

pub open spec fn tri_row_125(j: int) -> int {
    if j == 0 { 0 } else if j == 1 { 9 } else if j == 2 { 1 } else if j == 3 { 11 } else if j == 4 { 6 } else if j == 5 { 7 } else if j == 6 { -1 } else if j == 7 { -1 } else if j == 8 { -1 } else if j == 9 { -1 } else if j == 10 { -1 } else if j == 11 { -1 } else if j == 12 { -1 } else if j == 13 { -1 } else if j == 14 { -1 } else { -1 }
}

pub open spec fn tri_row_126(j: int) -> int {
    if j == 0 { 7 } else if j == 1 { 8 } else if j == 2 { 0 } else if j == 3 { 7 } else if j == 4 { 0 } else if j == 5 { 6 } else if j == 6 { 3 } else if j == 7 { 11 } else if j == 8 { 0 } else if j == 9 { 11 } else if j == 10 { 6 } else if j == 11 { 0 } else if j == 12 { -1 } else if j == 13 { -1 } else if j == 14 { -1 } else { -1 }
}

pub open spec fn tri_row_127(j: int) -> int {
    if j == 0 { 7 } else if j == 1 { 11 } else if j == 2 { 6 } else if j == 3 { -1 } else if j == 4 { -1 } else if j == 5 { -1 } else if j == 6 { -1 } else if j == 7 { -1 } else if j == 8 { -1 } else if j == 9 { -1 } else if j == 10 { -1 } else if j == 11 { -1 } else if j == 12 { -1 } else if j == 13 { -1 } else if j == 14 { -1 } else { -1 }
}

pub open spec fn tri_row_128(j: int) -> int {
    if j == 0 { 7 } else if j == 1 { 6 } else if j == 2 { 11 } else if j == 3 { -1 } else if j == 4 { -1 } else if j == 5 { -1 } else if j == 6 { -1 } else if j == 7 { -1 } else if j == 8 { -1 } else if j == 9 { -1 } else if j == 10 { -1 } else if j == 11 { -1 } else if j == 12 { -1 } else if j == 13 { -1 } else if j == 14 { -1 } else { -1 }
}

pub open spec fn tri_row_129(j: int) -> int {
    if j == 0 { 3 } else if j == 1 { 0 } else if j == 2 { 8 } else if j == 3 { 11 } else if j == 4 { 7 } else if j == 5 { 6 } else if j == 6 { -1 } else if j == 7 { -1 } else if j == 8 { -1 } else if j == 9 { -1 } else if j == 10 { -1 } else if j == 11 { -1 } else if j == 12 { -1 } else if j == 13 { -1 } else if j == 14 { -1 } else { -1 }
}

pub open spec fn tri_row_130(j: int) -> int {
    if j == 0 { 0 } else if j == 1 { 1 } else if j == 2 { 9 } else if j == 3 { 11 } else if j == 4 { 7 } else if j == 5 { 6 } else if j == 6 { -1 } else if j == 7 { -1 } else if j == 8 { -1 } else if j == 9 { -1 } else if j == 10 { -1 } else if j == 11 { -1 } else if j == 12 { -1 } else if j == 13 { -1 } else if j == 14 { -1 } else { -1 }
}

pub open spec fn tri_row_131(j: int) -> int {
    if j == 0 { 8 } else if j == 1 { 1 } else if j == 2 { 9 } else if j == 3 { 8 } else if j == 4 { 3 } else if j == 5 { 1 } else if j == 6 { 11 } else if j == 7 { 7 } else if j == 8 { 6 } else if j == 9 { -1 } else if j == 10 { -1 } else if j == 11 { -1 } else if j == 12 { -1 } else if j == 13 { -1 } else if j == 14 { -1 } else { -1 }
}

pub open spec fn tri_row_132(j: int) -> int {
    if j == 0 { 10 } else if j == 1 { 1 } else if j == 2 { 2 } else if j == 3 { 6 } else if j == 4 { 11 } else if j == 5 { 7 } else if j == 6 { -1 } else if j == 7 { -1 } else if j == 8 { -1 } else if j == 9 { -1 } else if j == 10 { -1 } else if j == 11 { -1 } else if j == 12 { -1 } else if j == 13 { -1 } else if j == 14 { -1 } else { -1 }
}

pub open spec fn tri_row_133(j: int) -> int {
    if j == 0 { 1 } else if j == 1 { 2 } else if j == 2 { 10 } else if j == 3 { 3 } else if j == 4 { 0 } else if j == 5 { 8 } else if j == 6 { 6 } else if j == 7 { 11 } else if j == 8 { 7 } else if j == 9 { -1 } else if j == 10 { -1 } else if j == 11 { -1 } else if j == 12 { -1 } else if j == 13 { -1 } else if j == 14 { -1 } else { -1 }
}

pub open spec fn tri_row_134(j: int) -> int {
    if j == 0 { 2 } else if j == 1 { 9 } else if j == 2 { 0 } else if j == 3 { 2 } else if j == 4 { 10 } else if j == 5 { 9 } else if j == 6 { 6 } else if j == 7 { 11 } else if j == 8 { 7 } else if j == 9 { -1 } else if j == 10 { -1 } else if j == 11 { -1 } else if j == 12 { -1 } else if j == 13 { -1 } else if j == 14 { -1 } else { -1 }
}

pub open spec fn tri_row_135(j: int) -> int {
    if j == 0 { 6 } else if j == 1 { 11 } else if j == 2 { 7 } else if j == 3 { 2 } else if j == 4 { 10 } else if j == 5 { 3 } else if j == 6 { 10 } else if j == 7 { 8 } else if j == 8 { 3 } else if j == 9 { 10 } else if j == 10 { 9 } else if j == 11 { 8 } else if j == 12 { -1 } else if j == 13 { -1 } else if j == 14 { -1 } else { -1 }
}

pub open spec fn tri_row_136(j: int) -> int {
    if j == 0 { 7 } else if j == 1 { 2 } else if j == 2 { 3 } else if j == 3 { 6 } else if j == 4 { 2 } else if j == 5 { 7 } else if j == 6 { -1 } else if j == 7 { -1 } else if j == 8 { -1 } else if j == 9 { -1 } else if j == 10 { -1 } else if j == 11 { -1 } else if j == 12 { -1 } else if j == 13 { -1 } else if j == 14 { -1 } else { -1 }
}

pub open spec fn tri_row_137(j: int) -> int {
    if j == 0 { 7 } else if j == 1 { 0 } else if j == 2 { 8 } else if j == 3 { 7 } else if j == 4 { 6 } else if j == 5 { 0 } else if j == 6 { 6 } else if j == 7 { 2 } else if j == 8 { 0 } else if j == 9 { -1 } else if j == 10 { -1 } else if j == 11 { -1 } else if j == 12 { -1 } else if j == 13 { -1 } else if j == 14 { -1 } else { -1 }
}

pub open spec fn tri_row_138(j: int) -> int {
    if j == 0 { 2 } else if j == 1 { 7 } else if j == 2 { 6 } else if j == 3 { 2 } else if j == 4 { 3 } else if j == 5 { 7 } else if j == 6 { 0 } else if j == 7 { 1 } else if j == 8 { 9 } else if j == 9 { -1 } else if j == 10 { -1 } else if j == 11 { -1 } else if j == 12 { -1 } else if j == 13 { -1 } else if j == 14 { -1 } else { -1 }
}

pub open spec fn tri_row_139(j: int) -> int {
    if j == 0 { 1 } else if j == 1 { 6 } else if j == 2 { 2 } else if j == 3 { 1 } else if j == 4 { 8 } else if j == 5 { 6 } else if j == 6 { 1 } else if j == 7 { 9 } else if j == 8 { 8 } else if j == 9 { 8 } else if j == 10 { 7 } else if j == 11 { 6 } else if j == 12 { -1 } else if j == 13 { -1 } else if j == 14 { -1 } else { -1 }
}

pub open spec fn tri_row_140(j: int) -> int {
    if j == 0 { 10 } else if j == 1 { 7 } else if j == 2 { 6 } else if j == 3 { 10 } else if j == 4 { 1 } else if j == 5 { 7 } else if j == 6 { 1 } else if j == 7 { 3 } else if j == 8 { 7 } else if j == 9 { -1 } else if j == 10 { -1 } else if j == 11 { -1 } else if j == 12 { -1 } else if j == 13 { -1 } else if j == 14 { -1 } else { -1 }
}

pub open spec fn tri_row_141(j: int) -> int {
    if j == 0 { 10 } else if j == 1 { 7 } else if j == 2 { 6 } else if j == 3 { 1 } else if j == 4 { 7 } else if j == 5 { 10 } else if j == 6 { 1 } else if j == 7 { 8 } else if j == 8 { 7 } else if j == 9 { 1 } else if j == 10 { 0 } else if j == 11 { 8 } else if j == 12 { -1 } else if j == 13 { -1 } else if j == 14 { -1 } else { -1 }
}

pub open spec fn tri_row_142(j: int) -> int {
    if j == 0 { 0 } else if j == 1 { 3 } else if j == 2 { 7 } else if j == 3 { 0 } else if j == 4 { 7 } else if j == 5 { 10 } else if j == 6 { 0 } else if j == 7 { 10 } else if j == 8 { 9 } else if j == 9 { 6 } else if j == 10 { 10 } else if j == 11 { 7 } else if j == 12 { -1 } else if j == 13 { -1 } else if j == 14 { -1 } else { -1 }
}

pub open spec fn tri_row_143(j: int) -> int {
    if j == 0 { 7 } else if j == 1 { 6 } else if j == 2 { 10 } else if j == 3 { 7 } else if j == 4 { 10 } else if j == 5 { 8 } else if j == 6 { 8 } else if j == 7 { 10 } else if j == 8 { 9 } else if j == 9 { -1 } else if j == 10 { -1 } else if j == 11 { -1 } else if j == 12 { -1 } else if j == 13 { -1 } else if j == 14 { -1 } else { -1 }
}

pub open spec fn tri_row_144(j: int) -> int {
    if j == 0 { 6 } else if j == 1 { 8 } else if j == 2 { 4 } else if j == 3 { 11 } else if j == 4 { 8 } else if j == 5 { 6 } else if j == 6 { -1 } else if j == 7 { -1 } else if j == 8 { -1 } else if j == 9 { -1 } else if j == 10 { -1 } else if j == 11 { -1 } else if j == 12 { -1 } else if j == 13 { -1 } else if j == 14 { -1 } else { -1 }
}

pub open spec fn tri_row_145(j: int) -> int {
    if j == 0 { 3 } else if j == 1 { 6 } else if j == 2 { 11 } else if j == 3 { 3 } else if j == 4 { 0 } else if j == 5 { 6 } else if j == 6 { 0 } else if j == 7 { 4 } else if j == 8 { 6 } else if j == 9 { -1 } else if j == 10 { -1 } else if j == 11 { -1 } else if j == 12 { -1 } else if j == 13 { -1 } else if j == 14 { -1 } else { -1 }
}

pub open spec fn tri_row_146(j: int) -> int {
    if j == 0 { 8 } else if j == 1 { 6 } else if j == 2 { 11 } else if j == 3 { 8 } else if j == 4 { 4 } else if j == 5 { 6 } else if j == 6 { 9 } else if j == 7 { 0 } else if j == 8 { 1 } else if j == 9 { -1 } else if j == 10 { -1 } else if j == 11 { -1 } else if j == 12 { -1 } else if j == 13 { -1 } else if j == 14 { -1 } else { -1 }
}

pub open spec fn tri_row_147(j: int) -> int {
    if j == 0 { 9 } else if j == 1 { 4 } else if j == 2 { 6 } else if j == 3 { 9 } else if j == 4 { 6 } else if j == 5 { 3 } else if j == 6 { 9 } else if j == 7 { 3 } else if j == 8 { 1 } else if j == 9 { 11 } else if j == 10 { 3 } else if j == 11 { 6 } else if j == 12 { -1 } else if j == 13 { -1 } else if j == 14 { -1 } else { -1 }
}

pub open spec fn tri_row_148(j: int) -> int {
    if j == 0 { 6 } else if j == 1 { 8 } else if j == 2 { 4 } else if j == 3 { 6 } else if j == 4 { 11 } else if j == 5 { 8 } else if j == 6 { 2 } else if j == 7 { 10 } else if j == 8 { 1 } else if j == 9 { -1 } else if j == 10 { -1 } else if j == 11 { -1 } else if j == 12 { -1 } else if j == 13 { -1 } else if j == 14 { -1 } else { -1 }
}

pub open spec fn tri_row_149(j: int) -> int {
    if j == 0 { 1 } else if j == 1 { 2 } else if j == 2 { 10 } else if j == 3 { 3 } else if j == 4 { 0 } else if j == 5 { 11 } else if j == 6 { 0 } else if j == 7 { 6 } else if j == 8 { 11 } else if j == 9 { 0 } else if j == 10 { 4 } else if j == 11 { 6 } else if j == 12 { -1 } else if j == 13 { -1 } else if j == 14 { -1 } else { -1 }
}

pub open spec fn tri_row_150(j: int) -> int {
    if j == 0 { 4 } else if j == 1 { 11 } else if j == 2 { 8 } else if j == 3 { 4 } else if j == 4 { 6 } else if j == 5 { 11 } else if j == 6 { 0 } else if j == 7 { 2 } else if j == 8 { 9 } else if j == 9 { 2 } else if j == 10 { 10 } else if j == 11 { 9 } else if j == 12 { -1 } else if j == 13 { -1 } else if j == 14 { -1 } else { -1 }
}

pub open spec fn tri_row_151(j: int) -> int {
    if j == 0 { 10 } else if j == 1 { 9 } else if j == 2 { 3 } else if j == 3 { 10 } else if j == 4 { 3 } else if j == 5 { 2 } else if j == 6 { 9 } else if j == 7 { 4 } else if j == 8 { 3 } else if j == 9 { 11 } else if j == 10 { 3 } else if j == 11 { 6 } else if j == 12 { 4 } else if j == 13 { 6 } else if j == 14 { 3 } else { -1 }
}

pub open spec fn tri_row_152(j: int) -> int {
    if j == 0 { 8 } else if j == 1 { 2 } else if j == 2 { 3 } else if j == 3 { 8 } else if j == 4 { 4 } else if j == 5 { 2 } else if j == 6 { 4 } else if j == 7 { 6 } else if j == 8 { 2 } else if j == 9 { -1 } else if j == 10 { -1 } else if j == 11 { -1 } else if j == 12 { -1 } else if j == 13 { -1 } else if j == 14 { -1 } else { -1 }
}

pub open spec fn tri_row_153(j: int) -> int {
    if j == 0 { 0 } else if j == 1 { 4 } else if j == 2 { 2 } else if j == 3 { 4 } else if j == 4 { 6 } else if j == 5 { 2 } else if j == 6 { -1 } else if j == 7 { -1 } else if j == 8 { -1 } else if j == 9 { -1 } else if j == 10 { -1 } else if j == 11 { -1 } else if j == 12 { -1 } else if j == 13 { -1 } else if j == 14 { -1 } else { -1 }
}

pub open spec fn tri_row_154(j: int) -> int {
    if j == 0 { 1 } else if j == 1 { 9 } else if j == 2 { 0 } else if j == 3 { 2 } else if j == 4 { 3 } else if j == 5 { 4 } else if j == 6 { 2 } else if j == 7 { 4 } else if j == 8 { 6 } else if j == 9 { 4 } else if j == 10 { 3 } else if j == 11 { 8 } else if j == 12 { -1 } else if j == 13 { -1 } else if j == 14 { -1 } else { -1 }
}

pub open spec fn tri_row_155(j: int) -> int {
    if j == 0 { 1 } else if j == 1 { 9 } else if j == 2 { 4 } else if j == 3 { 1 } else if j == 4 { 4 } else if j == 5 { 2 } else if j == 6 { 2 } else if j == 7 { 4 } else if j == 8 { 6 } else if j == 9 { -1 } else if j == 10 { -1 } else if j == 11 { -1 } else if j == 12 { -1 } else if j == 13 { -1 } else if j == 14 { -1 } else { -1 }
}

pub open spec fn tri_row_156(j: int) -> int {
    if j == 0 { 8 } else if j == 1 { 1 } else if j == 2 { 3 } else if j == 3 { 8 } else if j == 4 { 6 } else if j == 5 { 1 } else if j == 6 { 8 } else if j == 7 { 4 } else if j == 8 { 6 } else if j == 9 { 6 } else if j == 10 { 10 } else if j == 11 { 1 } else if j == 12 { -1 } else if j == 13 { -1 } else if j == 14 { -1 } else { -1 }
}

pub open spec fn tri_row_157(j: int) -> int {
    if j == 0 { 10 } else if j == 1 { 1 } else if j == 2 { 0 } else if j == 3 { 10 } else if j == 4 { 0 } else if j == 5 { 6 } else if j == 6 { 6 } else if j == 7 { 0 } else if j == 8 { 4 } else if j == 9 { -1 } else if j == 10 { -1 } else if j == 11 { -1 } else if j == 12 { -1 } else if j == 13 { -1 } else if j == 14 { -1 } else { -1 }
}

pub open spec fn tri_row_158(j: int) -> int {
    if j == 0 { 4 } else if j == 1 { 6 } else if j == 2 { 3 } else if j == 3 { 4 } else if j == 4 { 3 } else if j == 5 { 8 } else if j == 6 { 6 } else if j == 7 { 10 } else if j == 8 { 3 } else if j == 9 { 0 } else if j == 10 { 3 } else if j == 11 { 9 } else if j == 12 { 10 } else if j == 13 { 9 } else if j == 14 { 3 } else { -1 }
}

pub open spec fn tri_row_159(j: int) -> int {
    if j == 0 { 10 } else if j == 1 { 9 } else if j == 2 { 4 } else if j == 3 { 6 } else if j == 4 { 10 } else if j == 5 { 4 } else if j == 6 { -1 } else if j == 7 { -1 } else if j == 8 { -1 } else if j == 9 { -1 } else if j == 10 { -1 } else if j == 11 { -1 } else if j == 12 { -1 } else if j == 13 { -1 } else if j == 14 { -1 } else { -1 }
}

pub open spec fn tri_row_160(j: int) -> int {
    if j == 0 { 4 } else if j == 1 { 9 } else if j == 2 { 5 } else if j == 3 { 7 } else if j == 4 { 6 } else if j == 5 { 11 } else if j == 6 { -1 } else if j == 7 { -1 } else if j == 8 { -1 } else if j == 9 { -1 } else if j == 10 { -1 } else if j == 11 { -1 } else if j == 12 { -1 } else if j == 13 { -1 } else if j == 14 { -1 } else { -1 }
}

pub open spec fn tri_row_161(j: int) -> int {
    if j == 0 { 0 } else if j == 1 { 8 } else if j == 2 { 3 } else if j == 3 { 4 } else if j == 4 { 9 } else if j == 5 { 5 } else if j == 6 { 11 } else if j == 7 { 7 } else if j == 8 { 6 } else if j == 9 { -1 } else if j == 10 { -1 } else if j == 11 { -1 } else if j == 12 { -1 } else if j == 13 { -1 } else if j == 14 { -1 } else { -1 }
}

pub open spec fn tri_row_162(j: int) -> int {
    if j == 0 { 5 } else if j == 1 { 0 } else if j == 2 { 1 } else if j == 3 { 5 } else if j == 4 { 4 } else if j == 5 { 0 } else if j == 6 { 7 } else if j == 7 { 6 } else if j == 8 { 11 } else if j == 9 { -1 } else if j == 10 { -1 } else if j == 11 { -1 } else if j == 12 { -1 } else if j == 13 { -1 } else if j == 14 { -1 } else { -1 }
}

pub open spec fn tri_row_163(j: int) -> int {
    if j == 0 { 11 } else if j == 1 { 7 } else if j == 2 { 6 } else if j == 3 { 8 } else if j == 4 { 3 } else if j == 5 { 4 } else if j == 6 { 3 } else if j == 7 { 5 } else if j == 8 { 4 } else if j == 9 { 3 } else if j == 10 { 1 } else if j == 11 { 5 } else if j == 12 { -1 } else if j == 13 { -1 } else if j == 14 { -1 } else { -1 }
}

pub open spec fn tri_row_164(j: int) -> int {
    if j == 0 { 9 } else if j == 1 { 5 } else if j == 2 { 4 } else if j == 3 { 10 } else if j == 4 { 1 } else if j == 5 { 2 } else if j == 6 { 7 } else if j == 7 { 6 } else if j == 8 { 11 } else if j == 9 { -1 } else if j == 10 { -1 } else if j == 11 { -1 } else if j == 12 { -1 } else if j == 13 { -1 } else if j == 14 { -1 } else { -1 }
}

pub open spec fn tri_row_165(j: int) -> int {
    if j == 0 { 6 } else if j == 1 { 11 } else if j == 2 { 7 } else if j == 3 { 1 } else if j == 4 { 2 } else if j == 5 { 10 } else if j == 6 { 0 } else if j == 7 { 8 } else if j == 8 { 3 } else if j == 9 { 4 } else if j == 10 { 9 } else if j == 11 { 5 } else if j == 12 { -1 } else if j == 13 { -1 } else if j == 14 { -1 } else { -1 }
}

pub open spec fn tri_row_166(j: int) -> int {
    if j == 0 { 7 } else if j == 1 { 6 } else if j == 2 { 11 } else if j == 3 { 5 } else if j == 4 { 4 } else if j == 5 { 10 } else if j == 6 { 4 } else if j == 7 { 2 } else if j == 8 { 10 } else if j == 9 { 4 } else if j == 10 { 0 } else if j == 11 { 2 } else if j == 12 { -1 } else if j == 13 { -1 } else if j == 14 { -1 } else { -1 }
}

pub open spec fn tri_row_167(j: int) -> int {
    if j == 0 { 3 } else if j == 1 { 4 } else if j == 2 { 8 } else if j == 3 { 3 } else if j == 4 { 5 } else if j == 5 { 4 } else if j == 6 { 3 } else if j == 7 { 2 } else if j == 8 { 5 } else if j == 9 { 10 } else if j == 10 { 5 } else if j == 11 { 2 } else if j == 12 { 11 } else if j == 13 { 7 } else if j == 14 { 6 } else { -1 }
}

pub open spec fn tri_row_168(j: int) -> int {
    if j == 0 { 7 } else if j == 1 { 2 } else if j == 2 { 3 } else if j == 3 { 7 } else if j == 4 { 6 } else if j == 5 { 2 } else if j == 6 { 5 } else if j == 7 { 4 } else if j == 8 { 9 } else if j == 9 { -1 } else if j == 10 { -1 } else if j == 11 { -1 } else if j == 12 { -1 } else if j == 13 { -1 } else if j == 14 { -1 } else { -1 }
}

pub open spec fn tri_row_169(j: int) -> int {
    if j == 0 { 9 } else if j == 1 { 5 } else if j == 2 { 4 } else if j == 3 { 0 } else if j == 4 { 8 } else if j == 5 { 6 } else if j == 6 { 0 } else if j == 7 { 6 } else if j == 8 { 2 } else if j == 9 { 6 } else if j == 10 { 8 } else if j == 11 { 7 } else if j == 12 { -1 } else if j == 13 { -1 } else if j == 14 { -1 } else { -1 }
}

pub open spec fn tri_row_170(j: int) -> int {
    if j == 0 { 3 } else if j == 1 { 6 } else if j == 2 { 2 } else if j == 3 { 3 } else if j == 4 { 7 } else if j == 5 { 6 } else if j == 6 { 1 } else if j == 7 { 5 } else if j == 8 { 0 } else if j == 9 { 5 } else if j == 10 { 4 } else if j == 11 { 0 } else if j == 12 { -1 } else if j == 13 { -1 } else if j == 14 { -1 } else { -1 }
}

pub open spec fn tri_row_171(j: int) -> int {
    if j == 0 { 6 } else if j == 1 { 2 } else if j == 2 { 8 } else if j == 3 { 6 } else if j == 4 { 8 } else if j == 5 { 7 } else if j == 6 { 2 } else if j == 7 { 1 } else if j == 8 { 8 } else if j == 9 { 4 } else if j == 10 { 8 } else if j == 11 { 5 } else if j == 12 { 1 } else if j == 13 { 5 } else if j == 14 { 8 } else { -1 }
}

pub open spec fn tri_row_172(j: int) -> int {
    if j == 0 { 9 } else if j == 1 { 5 } else if j == 2 { 4 } else if j == 3 { 10 } else if j == 4 { 1 } else if j == 5 { 6 } else if j == 6 { 1 } else if j == 7 { 7 } else if j == 8 { 6 } else if j == 9 { 1 } else if j == 10 { 3 } else if j == 11 { 7 } else if j == 12 { -1 } else if j == 13 { -1 } else if j == 14 { -1 } else { -1 }
}

pub open spec fn tri_row_173(j: int) -> int {
    if j == 0 { 1 } else if j == 1 { 6 } else if j == 2 { 10 } else if j == 3 { 1 } else if j == 4 { 7 } else if j == 5 { 6 } else if j == 6 { 1 } else if j == 7 { 0 } else if j == 8 { 7 } else if j == 9 { 8 } else if j == 10 { 7 } else if j == 11 { 0 } else if j == 12 { 9 } else if j == 13 { 5 } else if j == 14 { 4 } else { -1 }
}

pub open spec fn tri_row_174(j: int) -> int {
    if j == 0 { 4 } else if j == 1 { 0 } else if j == 2 { 10 } else if j == 3 { 4 } else if j == 4 { 10 } else if j == 5 { 5 } else if j == 6 { 0 } else if j == 7 { 3 } else if j == 8 { 10 } else if j == 9 { 6 } else if j == 10 { 10 } else if j == 11 { 7 } else if j == 12 { 3 } else if j == 13 { 7 } else if j == 14 { 10 } else { -1 }
}

pub open spec fn tri_row_175(j: int) -> int {
    if j == 0 { 7 } else if j == 1 { 6 } else if j == 2 { 10 } else if j == 3 { 7 } else if j == 4 { 10 } else if j == 5 { 8 } else if j == 6 { 5 } else if j == 7 { 4 } else if j == 8 { 10 } else if j == 9 { 4 } else if j == 10 { 8 } else if j == 11 { 10 } else if j == 12 { -1 } else if j == 13 { -1 } else if j == 14 { -1 } else { -1 }
}

pub open spec fn tri_row_176(j: int) -> int {
    if j == 0 { 6 } else if j == 1 { 9 } else if j == 2 { 5 } else if j == 3 { 6 } else if j == 4 { 11 } else if j == 5 { 9 } else if j == 6 { 11 } else if j == 7 { 8 } else if j == 8 { 9 } else if j == 9 { -1 } else if j == 10 { -1 } else if j == 11 { -1 } else if j == 12 { -1 } else if j == 13 { -1 } else if j == 14 { -1 } else { -1 }
}

pub open spec fn tri_row_177(j: int) -> int {
    if j == 0 { 3 } else if j == 1 { 6 } else if j == 2 { 11 } else if j == 3 { 0 } else if j == 4 { 6 } else if j == 5 { 3 } else if j == 6 { 0 } else if j == 7 { 5 } else if j == 8 { 6 } else if j == 9 { 0 } else if j == 10 { 9 } else if j == 11 { 5 } else if j == 12 { -1 } else if j == 13 { -1 } else if j == 14 { -1 } else { -1 }
}

pub open spec fn tri_row_178(j: int) -> int {
    if j == 0 { 0 } else if j == 1 { 11 } else if j == 2 { 8 } else if j == 3 { 0 } else if j == 4 { 5 } else if j == 5 { 11 } else if j == 6 { 0 } else if j == 7 { 1 } else if j == 8 { 5 } else if j == 9 { 5 } else if j == 10 { 6 } else if j == 11 { 11 } else if j == 12 { -1 } else if j == 13 { -1 } else if j == 14 { -1 } else { -1 }
}

pub open spec fn tri_row_179(j: int) -> int {
    if j == 0 { 6 } else if j == 1 { 11 } else if j == 2 { 3 } else if j == 3 { 6 } else if j == 4 { 3 } else if j == 5 { 5 } else if j == 6 { 5 } else if j == 7 { 3 } else if j == 8 { 1 } else if j == 9 { -1 } else if j == 10 { -1 } else if j == 11 { -1 } else if j == 12 { -1 } else if j == 13 { -1 } else if j == 14 { -1 } else { -1 }
}

pub open spec fn tri_row_180(j: int) -> int {
    if j == 0 { 1 } else if j == 1 { 2 } else if j == 2 { 10 } else if j == 3 { 9 } else if j == 4 { 5 } else if j == 5 { 11 } else if j == 6 { 9 } else if j == 7 { 11 } else if j == 8 { 8 } else if j == 9 { 11 } else if j == 10 { 5 } else if j == 11 { 6 } else if j == 12 { -1 } else if j == 13 { -1 } else if j == 14 { -1 } else { -1 }
}

pub open spec fn tri_row_181(j: int) -> int {
    if j == 0 { 0 } else if j == 1 { 11 } else if j == 2 { 3 } else if j == 3 { 0 } else if j == 4 { 6 } else if j == 5 { 11 } else if j == 6 { 0 } else if j == 7 { 9 } else if j == 8 { 6 } else if j == 9 { 5 } else if j == 10 { 6 } else if j == 11 { 9 } else if j == 12 { 1 } else if j == 13 { 2 } else if j == 14 { 10 } else { -1 }
}

pub open spec fn tri_row_182(j: int) -> int {
    if j == 0 { 11 } else if j == 1 { 8 } else if j == 2 { 5 } else if j == 3 { 11 } else if j == 4 { 5 } else if j == 5 { 6 } else if j == 6 { 8 } else if j == 7 { 0 } else if j == 8 { 5 } else if j == 9 { 10 } else if j == 10 { 5 } else if j == 11 { 2 } else if j == 12 { 0 } else if j == 13 { 2 } else if j == 14 { 5 } else { -1 }
}

pub open spec fn tri_row_183(j: int) -> int {
    if j == 0 { 6 } else if j == 1 { 11 } else if j == 2 { 3 } else if j == 3 { 6 } else if j == 4 { 3 } else if j == 5 { 5 } else if j == 6 { 2 } else if j == 7 { 10 } else if j == 8 { 3 } else if j == 9 { 10 } else if j == 10 { 5 } else if j == 11 { 3 } else if j == 12 { -1 } else if j == 13 { -1 } else if j == 14 { -1 } else { -1 }
}

pub open spec fn tri_row_184(j: int) -> int {
    if j == 0 { 5 } else if j == 1 { 8 } else if j == 2 { 9 } else if j == 3 { 5 } else if j == 4 { 2 } else if j == 5 { 8 } else if j == 6 { 5 } else if j == 7 { 6 } else if j == 8 { 2 } else if j == 9 { 3 } else if j == 10 { 8 } else if j == 11 { 2 } else if j == 12 { -1 } else if j == 13 { -1 } else if j == 14 { -1 } else { -1 }
}

pub open spec fn tri_row_185(j: int) -> int {
    if j == 0 { 9 } else if j == 1 { 5 } else if j == 2 { 6 } else if j == 3 { 9 } else if j == 4 { 6 } else if j == 5 { 0 } else if j == 6 { 0 } else if j == 7 { 6 } else if j == 8 { 2 } else if j == 9 { -1 } else if j == 10 { -1 } else if j == 11 { -1 } else if j == 12 { -1 } else if j == 13 { -1 } else if j == 14 { -1 } else { -1 }
}

pub open spec fn tri_row_186(j: int) -> int {
    if j == 0 { 1 } else if j == 1 { 5 } else if j == 2 { 8 } else if j == 3 { 1 } else if j == 4 { 8 } else if j == 5 { 0 } else if j == 6 { 5 } else if j == 7 { 6 } else if j == 8 { 8 } else if j == 9 { 3 } else if j == 10 { 8 } else if j == 11 { 2 } else if j == 12 { 6 } else if j == 13 { 2 } else if j == 14 { 8 } else { -1 }
}

pub open spec fn tri_row_187(j: int) -> int {
    if j == 0 { 1 } else if j == 1 { 5 } else if j == 2 { 6 } else if j == 3 { 2 } else if j == 4 { 1 } else if j == 5 { 6 } else if j == 6 { -1 } else if j == 7 { -1 } else if j == 8 { -1 } else if j == 9 { -1 } else if j == 10 { -1 } else if j == 11 { -1 } else if j == 12 { -1 } else if j == 13 { -1 } else if j == 14 { -1 } else { -1 }
}

pub open spec fn tri_row_188(j: int) -> int {
    if j == 0 { 1 } else if j == 1 { 3 } else if j == 2 { 6 } else if j == 3 { 1 } else if j == 4 { 6 } else if j == 5 { 10 } else if j == 6 { 3 } else if j == 7 { 8 } else if j == 8 { 6 } else if j == 9 { 5 } else if j == 10 { 6 } else if j == 11 { 9 } else if j == 12 { 8 } else if j == 13 { 9 } else if j == 14 { 6 } else { -1 }
}

pub open spec fn tri_row_189(j: int) -> int {
    if j == 0 { 10 } else if j == 1 { 1 } else if j == 2 { 0 } else if j == 3 { 10 } else if j == 4 { 0 } else if j == 5 { 6 } else if j == 6 { 9 } else if j == 7 { 5 } else if j == 8 { 0 } else if j == 9 { 5 } else if j == 10 { 6 } else if j == 11 { 0 } else if j == 12 { -1 } else if j == 13 { -1 } else if j == 14 { -1 } else { -1 }
}

pub open spec fn tri_row_190(j: int) -> int {
    if j == 0 { 0 } else if j == 1 { 3 } else if j == 2 { 8 } else if j == 3 { 5 } else if j == 4 { 6 } else if j == 5 { 10 } else if j == 6 { -1 } else if j == 7 { -1 } else if j == 8 { -1 } else if j == 9 { -1 } else if j == 10 { -1 } else if j == 11 { -1 } else if j == 12 { -1 } else if j == 13 { -1 } else if j == 14 { -1 } else { -1 }
}

pub open spec fn tri_row_191(j: int) -> int {
    if j == 0 { 10 } else if j == 1 { 5 } else if j == 2 { 6 } else if j == 3 { -1 } else if j == 4 { -1 } else if j == 5 { -1 } else if j == 6 { -1 } else if j == 7 { -1 } else if j == 8 { -1 } else if j == 9 { -1 } else if j == 10 { -1 } else if j == 11 { -1 } else if j == 12 { -1 } else if j == 13 { -1 } else if j == 14 { -1 } else { -1 }
}

pub open spec fn tri_row_192(j: int) -> int {
    if j == 0 { 11 } else if j == 1 { 5 } else if j == 2 { 10 } else if j == 3 { 7 } else if j == 4 { 5 } else if j == 5 { 11 } else if j == 6 { -1 } else if j == 7 { -1 } else if j == 8 { -1 } else if j == 9 { -1 } else if j == 10 { -1 } else if j == 11 { -1 } else if j == 12 { -1 } else if j == 13 { -1 } else if j == 14 { -1 } else { -1 }
}

pub open spec fn tri_row_193(j: int) -> int {
    if j == 0 { 11 } else if j == 1 { 5 } else if j == 2 { 10 } else if j == 3 { 11 } else if j == 4 { 7 } else if j == 5 { 5 } else if j == 6 { 8 } else if j == 7 { 3 } else if j == 8 { 0 } else if j == 9 { -1 } else if j == 10 { -1 } else if j == 11 { -1 } else if j == 12 { -1 } else if j == 13 { -1 } else if j == 14 { -1 } else { -1 }
}

pub open spec fn tri_row_194(j: int) -> int {
    if j == 0 { 5 } else if j == 1 { 11 } else if j == 2 { 7 } else if j == 3 { 5 } else if j == 4 { 10 } else if j == 5 { 11 } else if j == 6 { 1 } else if j == 7 { 9 } else if j == 8 { 0 } else if j == 9 { -1 } else if j == 10 { -1 } else if j == 11 { -1 } else if j == 12 { -1 } else if j == 13 { -1 } else if j == 14 { -1 } else { -1 }
}

pub open spec fn tri_row_195(j: int) -> int {
    if j == 0 { 10 } else if j == 1 { 7 } else if j == 2 { 5 } else if j == 3 { 10 } else if j == 4 { 11 } else if j == 5 { 7 } else if j == 6 { 9 } else if j == 7 { 8 } else if j == 8 { 1 } else if j == 9 { 8 } else if j == 10 { 3 } else if j == 11 { 1 } else if j == 12 { -1 } else if j == 13 { -1 } else if j == 14 { -1 } else { -1 }
}

pub open spec fn tri_row_196(j: int) -> int {
    if j == 0 { 11 } else if j == 1 { 1 } else if j == 2 { 2 } else if j == 3 { 11 } else if j == 4 { 7 } else if j == 5 { 1 } else if j == 6 { 7 } else if j == 7 { 5 } else if j == 8 { 1 } else if j == 9 { -1 } else if j == 10 { -1 } else if j == 11 { -1 } else if j == 12 { -1 } else if j == 13 { -1 } else if j == 14 { -1 } else { -1 }
}

pub open spec fn tri_row_197(j: int) -> int {
    if j == 0 { 0 } else if j == 1 { 8 } else if j == 2 { 3 } else if j == 3 { 1 } else if j == 4 { 2 } else if j == 5 { 7 } else if j == 6 { 1 } else if j == 7 { 7 } else if j == 8 { 5 } else if j == 9 { 7 } else if j == 10 { 2 } else if j == 11 { 11 } else if j == 12 { -1 } else if j == 13 { -1 } else if j == 14 { -1 } else { -1 }
}

pub open spec fn tri_row_198(j: int) -> int {
    if j == 0 { 9 } else if j == 1 { 7 } else if j == 2 { 5 } else if j == 3 { 9 } else if j == 4 { 2 } else if j == 5 { 7 } else if j == 6 { 9 } else if j == 7 { 0 } else if j == 8 { 2 } else if j == 9 { 2 } else if j == 10 { 11 } else if j == 11 { 7 } else if j == 12 { -1 } else if j == 13 { -1 } else if j == 14 { -1 } else { -1 }
}

pub open spec fn tri_row_199(j: int) -> int {
    if j == 0 { 7 } else if j == 1 { 5 } else if j == 2 { 2 } else if j == 3 { 7 } else if j == 4 { 2 } else if j == 5 { 11 } else if j == 6 { 5 } else if j == 7 { 9 } else if j == 8 { 2 } else if j == 9 { 3 } else if j == 10 { 2 } else if j == 11 { 8 } else if j == 12 { 9 } else if j == 13 { 8 } else if j == 14 { 2 } else { -1 }
}

pub open spec fn tri_row_200(j: int) -> int {
    if j == 0 { 2 } else if j == 1 { 5 } else if j == 2 { 10 } else if j == 3 { 2 } else if j == 4 { 3 } else if j == 5 { 5 } else if j == 6 { 3 } else if j == 7 { 7 } else if j == 8 { 5 } else if j == 9 { -1 } else if j == 10 { -1 } else if j == 11 { -1 } else if j == 12 { -1 } else if j == 13 { -1 } else if j == 14 { -1 } else { -1 }
}

pub open spec fn tri_row_201(j: int) -> int {
    if j == 0 { 8 } else if j == 1 { 2 } else if j == 2 { 0 } else if j == 3 { 8 } else if j == 4 { 5 } else if j == 5 { 2 } else if j == 6 { 8 } else if j == 7 { 7 } else if j == 8 { 5 } else if j == 9 { 10 } else if j == 10 { 2 } else if j == 11 { 5 } else if j == 12 { -1 } else if j == 13 { -1 } else if j == 14 { -1 } else { -1 }
}

pub open spec fn tri_row_202(j: int) -> int {
    if j == 0 { 9 } else if j == 1 { 0 } else if j == 2 { 1 } else if j == 3 { 5 } else if j == 4 { 10 } else if j == 5 { 3 } else if j == 6 { 5 } else if j == 7 { 3 } else if j == 8 { 7 } else if j == 9 { 3 } else if j == 10 { 10 } else if j == 11 { 2 } else if j == 12 { -1 } else if j == 13 { -1 } else if j == 14 { -1 } else { -1 }
}

pub open spec fn tri_row_203(j: int) -> int {
    if j == 0 { 9 } else if j == 1 { 8 } else if j == 2 { 2 } else if j == 3 { 9 } else if j == 4 { 2 } else if j == 5 { 1 } else if j == 6 { 8 } else if j == 7 { 7 } else if j == 8 { 2 } else if j == 9 { 10 } else if j == 10 { 2 } else if j == 11 { 5 } else if j == 12 { 7 } else if j == 13 { 5 } else if j == 14 { 2 } else { -1 }
}

pub open spec fn tri_row_204(j: int) -> int {
    if j == 0 { 1 } else if j == 1 { 3 } else if j == 2 { 5 } else if j == 3 { 3 } else if j == 4 { 7 } else if j == 5 { 5 } else if j == 6 { -1 } else if j == 7 { -1 } else if j == 8 { -1 } else if j == 9 { -1 } else if j == 10 { -1 } else if j == 11 { -1 } else if j == 12 { -1 } else if j == 13 { -1 } else if j == 14 { -1 } else { -1 }
}

pub open spec fn tri_row_205(j: int) -> int {
    if j == 0 { 0 } else if j == 1 { 8 } else if j == 2 { 7 } else if j == 3 { 0 } else if j == 4 { 7 } else if j == 5 { 1 } else if j == 6 { 1 } else if j == 7 { 7 } else if j == 8 { 5 } else if j == 9 { -1 } else if j == 10 { -1 } else if j == 11 { -1 } else if j == 12 { -1 } else if j == 13 { -1 } else if j == 14 { -1 } else { -1 }
}

pub open spec fn tri_row_206(j: int) -> int {
    if j == 0 { 9 } else if j == 1 { 0 } else if j == 2 { 3 } else if j == 3 { 9 } else if j == 4 { 3 } else if j == 5 { 5 } else if j == 6 { 5 } else if j == 7 { 3 } else if j == 8 { 7 } else if j == 9 { -1 } else if j == 10 { -1 } else if j == 11 { -1 } else if j == 12 { -1 } else if j == 13 { -1 } else if j == 14 { -1 } else { -1 }
}

pub open spec fn tri_row_207(j: int) -> int {
    if j == 0 { 9 } else if j == 1 { 8 } else if j == 2 { 7 } else if j == 3 { 5 } else if j == 4 { 9 } else if j == 5 { 7 } else if j == 6 { -1 } else if j == 7 { -1 } else if j == 8 { -1 } else if j == 9 { -1 } else if j == 10 { -1 } else if j == 11 { -1 } else if j == 12 { -1 } else if j == 13 { -1 } else if j == 14 { -1 } else { -1 }
}

pub open spec fn tri_row_208(j: int) -> int {
    if j == 0 { 5 } else if j == 1 { 8 } else if j == 2 { 4 } else if j == 3 { 5 } else if j == 4 { 10 } else if j == 5 { 8 } else if j == 6 { 10 } else if j == 7 { 11 } else if j == 8 { 8 } else if j == 9 { -1 } else if j == 10 { -1 } else if j == 11 { -1 } else if j == 12 { -1 } else if j == 13 { -1 } else if j == 14 { -1 } else { -1 }
}

pub open spec fn tri_row_209(j: int) -> int {
    if j == 0 { 5 } else if j == 1 { 0 } else if j == 2 { 4 } else if j == 3 { 5 } else if j == 4 { 11 } else if j == 5 { 0 } else if j == 6 { 5 } else if j == 7 { 10 } else if j == 8 { 11 } else if j == 9 { 11 } else if j == 10 { 3 } else if j == 11 { 0 } else if j == 12 { -1 } else if j == 13 { -1 } else if j == 14 { -1 } else { -1 }
}

pub open spec fn tri_row_210(j: int) -> int {
    if j == 0 { 0 } else if j == 1 { 1 } else if j == 2 { 9 } else if j == 3 { 8 } else if j == 4 { 4 } else if j == 5 { 10 } else if j == 6 { 8 } else if j == 7 { 10 } else if j == 8 { 11 } else if j == 9 { 10 } else if j == 10 { 4 } else if j == 11 { 5 } else if j == 12 { -1 } else if j == 13 { -1 } else if j == 14 { -1 } else { -1 }
}

pub open spec fn tri_row_211(j: int) -> int {
    if j == 0 { 10 } else if j == 1 { 11 } else if j == 2 { 4 } else if j == 3 { 10 } else if j == 4 { 4 } else if j == 5 { 5 } else if j == 6 { 11 } else if j == 7 { 3 } else if j == 8 { 4 } else if j == 9 { 9 } else if j == 10 { 4 } else if j == 11 { 1 } else if j == 12 { 3 } else if j == 13 { 1 } else if j == 14 { 4 } else { -1 }
}

pub open spec fn tri_row_212(j: int) -> int {
    if j == 0 { 2 } else if j == 1 { 5 } else if j == 2 { 1 } else if j == 3 { 2 } else if j == 4 { 8 } else if j == 5 { 5 } else if j == 6 { 2 } else if j == 7 { 11 } else if j == 8 { 8 } else if j == 9 { 4 } else if j == 10 { 5 } else if j == 11 { 8 } else if j == 12 { -1 } else if j == 13 { -1 } else if j == 14 { -1 } else { -1 }
}

pub open spec fn tri_row_213(j: int) -> int {
    if j == 0 { 0 } else if j == 1 { 4 } else if j == 2 { 11 } else if j == 3 { 0 } else if j == 4 { 11 } else if j == 5 { 3 } else if j == 6 { 4 } else if j == 7 { 5 } else if j == 8 { 11 } else if j == 9 { 2 } else if j == 10 { 11 } else if j == 11 { 1 } else if j == 12 { 5 } else if j == 13 { 1 } else if j == 14 { 11 } else { -1 }
}

pub open spec fn tri_row_214(j: int) -> int {
    if j == 0 { 0 } else if j == 1 { 2 } else if j == 2 { 5 } else if j == 3 { 0 } else if j == 4 { 5 } else if j == 5 { 9 } else if j == 6 { 2 } else if j == 7 { 11 } else if j == 8 { 5 } else if j == 9 { 4 } else if j == 10 { 5 } else if j == 11 { 8 } else if j == 12 { 11 } else if j == 13 { 8 } else if j == 14 { 5 } else { -1 }
}

pub open spec fn tri_row_215(j: int) -> int {
    if j == 0 { 9 } else if j == 1 { 4 } else if j == 2 { 5 } else if j == 3 { 2 } else if j == 4 { 11 } else if j == 5 { 3 } else if j == 6 { -1 } else if j == 7 { -1 } else if j == 8 { -1 } else if j == 9 { -1 } else if j == 10 { -1 } else if j == 11 { -1 } else if j == 12 { -1 } else if j == 13 { -1 } else if j == 14 { -1 } else { -1 }
}

pub open spec fn tri_row_216(j: int) -> int {
    if j == 0 { 2 } else if j == 1 { 5 } else if j == 2 { 10 } else if j == 3 { 3 } else if j == 4 { 5 } else if j == 5 { 2 } else if j == 6 { 3 } else if j == 7 { 4 } else if j == 8 { 5 } else if j == 9 { 3 } else if j == 10 { 8 } else if j == 11 { 4 } else if j == 12 { -1 } else if j == 13 { -1 } else if j == 14 { -1 } else { -1 }
}

pub open spec fn tri_row_217(j: int) -> int {
    if j == 0 { 5 } else if j == 1 { 10 } else if j == 2 { 2 } else if j == 3 { 5 } else if j == 4 { 2 } else if j == 5 { 4 } else if j == 6 { 4 } else if j == 7 { 2 } else if j == 8 { 0 } else if j == 9 { -1 } else if j == 10 { -1 } else if j == 11 { -1 } else if j == 12 { -1 } else if j == 13 { -1 } else if j == 14 { -1 } else { -1 }
}

pub open spec fn tri_row_218(j: int) -> int {
    if j == 0 { 3 } else if j == 1 { 10 } else if j == 2 { 2 } else if j == 3 { 3 } else if j == 4 { 5 } else if j == 5 { 10 } else if j == 6 { 3 } else if j == 7 { 8 } else if j == 8 { 5 } else if j == 9 { 4 } else if j == 10 { 5 } else if j == 11 { 8 } else if j == 12 { 0 } else if j == 13 { 1 } else if j == 14 { 9 } else { -1 }
}

pub open spec fn tri_row_219(j: int) -> int {
    if j == 0 { 5 } else if j == 1 { 10 } else if j == 2 { 2 } else if j == 3 { 5 } else if j == 4 { 2 } else if j == 5 { 4 } else if j == 6 { 1 } else if j == 7 { 9 } else if j == 8 { 2 } else if j == 9 { 9 } else if j == 10 { 4 } else if j == 11 { 2 } else if j == 12 { -1 } else if j == 13 { -1 } else if j == 14 { -1 } else { -1 }
}

pub open spec fn tri_row_220(j: int) -> int {
    if j == 0 { 8 } else if j == 1 { 4 } else if j == 2 { 5 } else if j == 3 { 8 } else if j == 4 { 5 } else if j == 5 { 3 } else if j == 6 { 3 } else if j == 7 { 5 } else if j == 8 { 1 } else if j == 9 { -1 } else if j == 10 { -1 } else if j == 11 { -1 } else if j == 12 { -1 } else if j == 13 { -1 } else if j == 14 { -1 } else { -1 }
}

pub open spec fn tri_row_221(j: int) -> int {
    if j == 0 { 0 } else if j == 1 { 4 } else if j == 2 { 5 } else if j == 3 { 1 } else if j == 4 { 0 } else if j == 5 { 5 } else if j == 6 { -1 } else if j == 7 { -1 } else if j == 8 { -1 } else if j == 9 { -1 } else if j == 10 { -1 } else if j == 11 { -1 } else if j == 12 { -1 } else if j == 13 { -1 } else if j == 14 { -1 } else { -1 }
}

pub open spec fn tri_row_222(j: int) -> int {
    if j == 0 { 8 } else if j == 1 { 4 } else if j == 2 { 5 } else if j == 3 { 8 } else if j == 4 { 5 } else if j == 5 { 3 } else if j == 6 { 9 } else if j == 7 { 0 } else if j == 8 { 5 } else if j == 9 { 0 } else if j == 10 { 3 } else if j == 11 { 5 } else if j == 12 { -1 } else if j == 13 { -1 } else if j == 14 { -1 } else { -1 }
}

pub open spec fn tri_row_223(j: int) -> int {
    if j == 0 { 9 } else if j == 1 { 4 } else if j == 2 { 5 } else if j == 3 { -1 } else if j == 4 { -1 } else if j == 5 { -1 } else if j == 6 { -1 } else if j == 7 { -1 } else if j == 8 { -1 } else if j == 9 { -1 } else if j == 10 { -1 } else if j == 11 { -1 } else if j == 12 { -1 } else if j == 13 { -1 } else if j == 14 { -1 } else { -1 }
}

pub open spec fn tri_row_224(j: int) -> int {
    if j == 0 { 4 } else if j == 1 { 11 } else if j == 2 { 7 } else if j == 3 { 4 } else if j == 4 { 9 } else if j == 5 { 11 } else if j == 6 { 9 } else if j == 7 { 10 } else if j == 8 { 11 } else if j == 9 { -1 } else if j == 10 { -1 } else if j == 11 { -1 } else if j == 12 { -1 } else if j == 13 { -1 } else if j == 14 { -1 } else { -1 }
}

pub open spec fn tri_row_225(j: int) -> int {
    if j == 0 { 0 } else if j == 1 { 8 } else if j == 2 { 3 } else if j == 3 { 4 } else if j == 4 { 9 } else if j == 5 { 7 } else if j == 6 { 9 } else if j == 7 { 11 } else if j == 8 { 7 } else if j == 9 { 9 } else if j == 10 { 10 } else if j == 11 { 11 } else if j == 12 { -1 } else if j == 13 { -1 } else if j == 14 { -1 } else { -1 }
}

pub open spec fn tri_row_226(j: int) -> int {
    if j == 0 { 1 } else if j == 1 { 10 } else if j == 2 { 11 } else if j == 3 { 1 } else if j == 4 { 11 } else if j == 5 { 4 } else if j == 6 { 1 } else if j == 7 { 4 } else if j == 8 { 0 } else if j == 9 { 7 } else if j == 10 { 4 } else if j == 11 { 11 } else if j == 12 { -1 } else if j == 13 { -1 } else if j == 14 { -1 } else { -1 }
}

pub open spec fn tri_row_227(j: int) -> int {
    if j == 0 { 3 } else if j == 1 { 1 } else if j == 2 { 4 } else if j == 3 { 3 } else if j == 4 { 4 } else if j == 5 { 8 } else if j == 6 { 1 } else if j == 7 { 10 } else if j == 8 { 4 } else if j == 9 { 7 } else if j == 10 { 4 } else if j == 11 { 11 } else if j == 12 { 10 } else if j == 13 { 11 } else if j == 14 { 4 } else { -1 }
}

pub open spec fn tri_row_228(j: int) -> int {
    if j == 0 { 4 } else if j == 1 { 11 } else if j == 2 { 7 } else if j == 3 { 9 } else if j == 4 { 11 } else if j == 5 { 4 } else if j == 6 { 9 } else if j == 7 { 2 } else if j == 8 { 11 } else if j == 9 { 9 } else if j == 10 { 1 } else if j == 11 { 2 } else if j == 12 { -1 } else if j == 13 { -1 } else if j == 14 { -1 } else { -1 }
}

pub open spec fn tri_row_229(j: int) -> int {
    if j == 0 { 9 } else if j == 1 { 7 } else if j == 2 { 4 } else if j == 3 { 9 } else if j == 4 { 11 } else if j == 5 { 7 } else if j == 6 { 9 } else if j == 7 { 1 } else if j == 8 { 11 } else if j == 9 { 2 } else if j == 10 { 11 } else if j == 11 { 1 } else if j == 12 { 0 } else if j == 13 { 8 } else if j == 14 { 3 } else { -1 }
}

pub open spec fn tri_row_230(j: int) -> int {
    if j == 0 { 11 } else if j == 1 { 7 } else if j == 2 { 4 } else if j == 3 { 11 } else if j == 4 { 4 } else if j == 5 { 2 } else if j == 6 { 2 } else if j == 7 { 4 } else if j == 8 { 0 } else if j == 9 { -1 } else if j == 10 { -1 } else if j == 11 { -1 } else if j == 12 { -1 } else if j == 13 { -1 } else if j == 14 { -1 } else { -1 }
}

pub open spec fn tri_row_231(j: int) -> int {
    if j == 0 { 11 } else if j == 1 { 7 } else if j == 2 { 4 } else if j == 3 { 11 } else if j == 4 { 4 } else if j == 5 { 2 } else if j == 6 { 8 } else if j == 7 { 3 } else if j == 8 { 4 } else if j == 9 { 3 } else if j == 10 { 2 } else if j == 11 { 4 } else if j == 12 { -1 } else if j == 13 { -1 } else if j == 14 { -1 } else { -1 }
}

pub open spec fn tri_row_232(j: int) -> int {
    if j == 0 { 2 } else if j == 1 { 9 } else if j == 2 { 10 } else if j == 3 { 2 } else if j == 4 { 7 } else if j == 5 { 9 } else if j == 6 { 2 } else if j == 7 { 3 } else if j == 8 { 7 } else if j == 9 { 7 } else if j == 10 { 4 } else if j == 11 { 9 } else if j == 12 { -1 } else if j == 13 { -1 } else if j == 14 { -1 } else { -1 }
}

pub open spec fn tri_row_233(j: int) -> int {
    if j == 0 { 9 } else if j == 1 { 10 } else if j == 2 { 7 } else if j == 3 { 9 } else if j == 4 { 7 } else if j == 5 { 4 } else if j == 6 { 10 } else if j == 7 { 2 } else if j == 8 { 7 } else if j == 9 { 8 } else if j == 10 { 7 } else if j == 11 { 0 } else if j == 12 { 2 } else if j == 13 { 0 } else if j == 14 { 7 } else { -1 }
}

pub open spec fn tri_row_234(j: int) -> int {
    if j == 0 { 3 } else if j == 1 { 7 } else if j == 2 { 10 } else if j == 3 { 3 } else if j == 4 { 10 } else if j == 5 { 2 } else if j == 6 { 7 } else if j == 7 { 4 } else if j == 8 { 10 } else if j == 9 { 1 } else if j == 10 { 10 } else if j == 11 { 0 } else if j == 12 { 4 } else if j == 13 { 0 } else if j == 14 { 10 } else { -1 }
}

pub open spec fn tri_row_235(j: int) -> int {
    if j == 0 { 1 } else if j == 1 { 10 } else if j == 2 { 2 } else if j == 3 { 8 } else if j == 4 { 7 } else if j == 5 { 4 } else if j == 6 { -1 } else if j == 7 { -1 } else if j == 8 { -1 } else if j == 9 { -1 } else if j == 10 { -1 } else if j == 11 { -1 } else if j == 12 { -1 } else if j == 13 { -1 } else if j == 14 { -1 } else { -1 }
}

pub open spec fn tri_row_236(j: int) -> int {
    if j == 0 { 4 } else if j == 1 { 9 } else if j == 2 { 1 } else if j == 3 { 4 } else if j == 4 { 1 } else if j == 5 { 7 } else if j == 6 { 7 } else if j == 7 { 1 } else if j == 8 { 3 } else if j == 9 { -1 } else if j == 10 { -1 } else if j == 11 { -1 } else if j == 12 { -1 } else if j == 13 { -1 } else if j == 14 { -1 } else { -1 }
}

pub open spec fn tri_row_237(j: int) -> int {
    if j == 0 { 4 } else if j == 1 { 9 } else if j == 2 { 1 } else if j == 3 { 4 } else if j == 4 { 1 } else if j == 5 { 7 } else if j == 6 { 0 } else if j == 7 { 8 } else if j == 8 { 1 } else if j == 9 { 8 } else if j == 10 { 7 } else if j == 11 { 1 } else if j == 12 { -1 } else if j == 13 { -1 } else if j == 14 { -1 } else { -1 }
}

pub open spec fn tri_row_238(j: int) -> int {
    if j == 0 { 4 } else if j == 1 { 0 } else if j == 2 { 3 } else if j == 3 { 7 } else if j == 4 { 4 } else if j == 5 { 3 } else if j == 6 { -1 } else if j == 7 { -1 } else if j == 8 { -1 } else if j == 9 { -1 } else if j == 10 { -1 } else if j == 11 { -1 } else if j == 12 { -1 } else if j == 13 { -1 } else if j == 14 { -1 } else { -1 }
}

pub open spec fn tri_row_239(j: int) -> int {
    if j == 0 { 4 } else if j == 1 { 8 } else if j == 2 { 7 } else if j == 3 { -1 } else if j == 4 { -1 } else if j == 5 { -1 } else if j == 6 { -1 } else if j == 7 { -1 } else if j == 8 { -1 } else if j == 9 { -1 } else if j == 10 { -1 } else if j == 11 { -1 } else if j == 12 { -1 } else if j == 13 { -1 } else if j == 14 { -1 } else { -1 }
}

pub open spec fn tri_row_240(j: int) -> int {
    if j == 0 { 9 } else if j == 1 { 10 } else if j == 2 { 8 } else if j == 3 { 10 } else if j == 4 { 11 } else if j == 5 { 8 } else if j == 6 { -1 } else if j == 7 { -1 } else if j == 8 { -1 } else if j == 9 { -1 } else if j == 10 { -1 } else if j == 11 { -1 } else if j == 12 { -1 } else if j == 13 { -1 } else if j == 14 { -1 } else { -1 }
}

pub open spec fn tri_row_241(j: int) -> int {
    if j == 0 { 3 } else if j == 1 { 0 } else if j == 2 { 9 } else if j == 3 { 3 } else if j == 4 { 9 } else if j == 5 { 11 } else if j == 6 { 11 } else if j == 7 { 9 } else if j == 8 { 10 } else if j == 9 { -1 } else if j == 10 { -1 } else if j == 11 { -1 } else if j == 12 { -1 } else if j == 13 { -1 } else if j == 14 { -1 } else { -1 }
}

pub open spec fn tri_row_242(j: int) -> int {
    if j == 0 { 0 } else if j == 1 { 1 } else if j == 2 { 10 } else if j == 3 { 0 } else if j == 4 { 10 } else if j == 5 { 8 } else if j == 6 { 8 } else if j == 7 { 10 } else if j == 8 { 11 } else if j == 9 { -1 } else if j == 10 { -1 } else if j == 11 { -1 } else if j == 12 { -1 } else if j == 13 { -1 } else if j == 14 { -1 } else { -1 }
}

pub open spec fn tri_row_243(j: int) -> int {
    if j == 0 { 3 } else if j == 1 { 1 } else if j == 2 { 10 } else if j == 3 { 11 } else if j == 4 { 3 } else if j == 5 { 10 } else if j == 6 { -1 } else if j == 7 { -1 } else if j == 8 { -1 } else if j == 9 { -1 } else if j == 10 { -1 } else if j == 11 { -1 } else if j == 12 { -1 } else if j == 13 { -1 } else if j == 14 { -1 } else { -1 }
}

pub open spec fn tri_row_244(j: int) -> int {
    if j == 0 { 1 } else if j == 1 { 2 } else if j == 2 { 11 } else if j == 3 { 1 } else if j == 4 { 11 } else if j == 5 { 9 } else if j == 6 { 9 } else if j == 7 { 11 } else if j == 8 { 8 } else if j == 9 { -1 } else if j == 10 { -1 } else if j == 11 { -1 } else if j == 12 { -1 } else if j == 13 { -1 } else if j == 14 { -1 } else { -1 }
}

pub open spec fn tri_row_245(j: int) -> int {
    if j == 0 { 3 } else if j == 1 { 0 } else if j == 2 { 9 } else if j == 3 { 3 } else if j == 4 { 9 } else if j == 5 { 11 } else if j == 6 { 1 } else if j == 7 { 2 } else if j == 8 { 9 } else if j == 9 { 2 } else if j == 10 { 11 } else if j == 11 { 9 } else if j == 12 { -1 } else if j == 13 { -1 } else if j == 14 { -1 } else { -1 }
}

pub open spec fn tri_row_246(j: int) -> int {
    if j == 0 { 0 } else if j == 1 { 2 } else if j == 2 { 11 } else if j == 3 { 8 } else if j == 4 { 0 } else if j == 5 { 11 } else if j == 6 { -1 } else if j == 7 { -1 } else if j == 8 { -1 } else if j == 9 { -1 } else if j == 10 { -1 } else if j == 11 { -1 } else if j == 12 { -1 } else if j == 13 { -1 } else if j == 14 { -1 } else { -1 }
}

pub open spec fn tri_row_247(j: int) -> int {
    if j == 0 { 3 } else if j == 1 { 2 } else if j == 2 { 11 } else if j == 3 { -1 } else if j == 4 { -1 } else if j == 5 { -1 } else if j == 6 { -1 } else if j == 7 { -1 } else if j == 8 { -1 } else if j == 9 { -1 } else if j == 10 { -1 } else if j == 11 { -1 } else if j == 12 { -1 } else if j == 13 { -1 } else if j == 14 { -1 } else { -1 }
}

pub open spec fn tri_row_248(j: int) -> int {
    if j == 0 { 2 } else if j == 1 { 3 } else if j == 2 { 8 } else if j == 3 { 2 } else if j == 4 { 8 } else if j == 5 { 10 } else if j == 6 { 10 } else if j == 7 { 8 } else if j == 8 { 9 } else if j == 9 { -1 } else if j == 10 { -1 } else if j == 11 { -1 } else if j == 12 { -1 } else if j == 13 { -1 } else if j == 14 { -1 } else { -1 }
}

pub open spec fn tri_row_249(j: int) -> int {
    if j == 0 { 9 } else if j == 1 { 10 } else if j == 2 { 2 } else if j == 3 { 0 } else if j == 4 { 9 } else if j == 5 { 2 } else if j == 6 { -1 } else if j == 7 { -1 } else if j == 8 { -1 } else if j == 9 { -1 } else if j == 10 { -1 } else if j == 11 { -1 } else if j == 12 { -1 } else if j == 13 { -1 } else if j == 14 { -1 } else { -1 }
}

pub open spec fn tri_row_250(j: int) -> int {
    if j == 0 { 2 } else if j == 1 { 3 } else if j == 2 { 8 } else if j == 3 { 2 } else if j == 4 { 8 } else if j == 5 { 10 } else if j == 6 { 0 } else if j == 7 { 1 } else if j == 8 { 8 } else if j == 9 { 1 } else if j == 10 { 10 } else if j == 11 { 8 } else if j == 12 { -1 } else if j == 13 { -1 } else if j == 14 { -1 } else { -1 }
}

pub open spec fn tri_row_251(j: int) -> int {
    if j == 0 { 1 } else if j == 1 { 10 } else if j == 2 { 2 } else if j == 3 { -1 } else if j == 4 { -1 } else if j == 5 { -1 } else if j == 6 { -1 } else if j == 7 { -1 } else if j == 8 { -1 } else if j == 9 { -1 } else if j == 10 { -1 } else if j == 11 { -1 } else if j == 12 { -1 } else if j == 13 { -1 } else if j == 14 { -1 } else { -1 }
}

pub open spec fn tri_row_252(j: int) -> int {
    if j == 0 { 1 } else if j == 1 { 3 } else if j == 2 { 8 } else if j == 3 { 9 } else if j == 4 { 1 } else if j == 5 { 8 } else if j == 6 { -1 } else if j == 7 { -1 } else if j == 8 { -1 } else if j == 9 { -1 } else if j == 10 { -1 } else if j == 11 { -1 } else if j == 12 { -1 } else if j == 13 { -1 } else if j == 14 { -1 } else { -1 }
}

pub open spec fn tri_row_253(j: int) -> int {
    if j == 0 { 0 } else if j == 1 { 9 } else if j == 2 { 1 } else if j == 3 { -1 } else if j == 4 { -1 } else if j == 5 { -1 } else if j == 6 { -1 } else if j == 7 { -1 } else if j == 8 { -1 } else if j == 9 { -1 } else if j == 10 { -1 } else if j == 11 { -1 } else if j == 12 { -1 } else if j == 13 { -1 } else if j == 14 { -1 } else { -1 }
}

pub open spec fn tri_row_254(j: int) -> int {
    if j == 0 { 0 } else if j == 1 { 3 } else if j == 2 { 8 } else if j == 3 { -1 } else if j == 4 { -1 } else if j == 5 { -1 } else if j == 6 { -1 } else if j == 7 { -1 } else if j == 8 { -1 } else if j == 9 { -1 } else if j == 10 { -1 } else if j == 11 { -1 } else if j == 12 { -1 } else if j == 13 { -1 } else if j == 14 { -1 } else { -1 }
}

pub open spec fn tri_row_255(j: int) -> int {
    if j == 0 { -1 } else if j == 1 { -1 } else if j == 2 { -1 } else if j == 3 { -1 } else if j == 4 { -1 } else if j == 5 { -1 } else if j == 6 { -1 } else if j == 7 { -1 } else if j == 8 { -1 } else if j == 9 { -1 } else if j == 10 { -1 } else if j == 11 { -1 } else if j == 12 { -1 } else if j == 13 { -1 } else if j == 14 { -1 } else { -1 }
}

pub open spec fn tri_block_0(m: int, j: int) -> int {
    if m == 0 { tri_row_0(j) } else if m == 1 { tri_row_1(j) } else if m == 2 { tri_row_2(j) } else if m == 3 { tri_row_3(j) } else if m == 4 { tri_row_4(j) } else if m == 5 { tri_row_5(j) } else if m == 6 { tri_row_6(j) } else if m == 7 { tri_row_7(j) } else if m == 8 { tri_row_8(j) } else if m == 9 { tri_row_9(j) } else if m == 10 { tri_row_10(j) } else if m == 11 { tri_row_11(j) } else if m == 12 { tri_row_12(j) } else if m == 13 { tri_row_13(j) } else if m == 14 { tri_row_14(j) } else { tri_row_15(j) }
}

pub open spec fn tri_block_1(m: int, j: int) -> int {
    if m == 16 { tri_row_16(j) } else if m == 17 { tri_row_17(j) } else if m == 18 { tri_row_18(j) } else if m == 19 { tri_row_19(j) } else if m == 20 { tri_row_20(j) } else if m == 21 { tri_row_21(j) } else if m == 22 { tri_row_22(j) } else if m == 23 { tri_row_23(j) } else if m == 24 { tri_row_24(j) } else if m == 25 { tri_row_25(j) } else if m == 26 { tri_row_26(j) } else if m == 27 { tri_row_27(j) } else if m == 28 { tri_row_28(j) } else if m == 29 { tri_row_29(j) } else if m == 30 { tri_row_30(j) } else { tri_row_31(j) }
}

pub open spec fn tri_block_2(m: int, j: int) -> int {
    if m == 32 { tri_row_32(j) } else if m == 33 { tri_row_33(j) } else if m == 34 { tri_row_34(j) } else if m == 35 { tri_row_35(j) } else if m == 36 { tri_row_36(j) } else if m == 37 { tri_row_37(j) } else if m == 38 { tri_row_38(j) } else if m == 39 { tri_row_39(j) } else if m == 40 { tri_row_40(j) } else if m == 41 { tri_row_41(j) } else if m == 42 { tri_row_42(j) } else if m == 43 { tri_row_43(j) } else if m == 44 { tri_row_44(j) } else if m == 45 { tri_row_45(j) } else if m == 46 { tri_row_46(j) } else { tri_row_47(j) }
}

pub open spec fn tri_block_3(m: int, j: int) -> int {
    if m == 48 { tri_row_48(j) } else if m == 49 { tri_row_49(j) } else if m == 50 { tri_row_50(j) } else if m == 51 { tri_row_51(j) } else if m == 52 { tri_row_52(j) } else if m == 53 { tri_row_53(j) } else if m == 54 { tri_row_54(j) } else if m == 55 { tri_row_55(j) } else if m == 56 { tri_row_56(j) } else if m == 57 { tri_row_57(j) } else if m == 58 { tri_row_58(j) } else if m == 59 { tri_row_59(j) } else if m == 60 { tri_row_60(j) } else if m == 61 { tri_row_61(j) } else if m == 62 { tri_row_62(j) } else { tri_row_63(j) }
}

pub open spec fn tri_block_4(m: int, j: int) -> int {
    if m == 64 { tri_row_64(j) } else if m == 65 { tri_row_65(j) } else if m == 66 { tri_row_66(j) } else if m == 67 { tri_row_67(j) } else if m == 68 { tri_row_68(j) } else if m == 69 { tri_row_69(j) } else if m == 70 { tri_row_70(j) } else if m == 71 { tri_row_71(j) } else if m == 72 { tri_row_72(j) } else if m == 73 { tri_row_73(j) } else if m == 74 { tri_row_74(j) } else if m == 75 { tri_row_75(j) } else if m == 76 { tri_row_76(j) } else if m == 77 { tri_row_77(j) } else if m == 78 { tri_row_78(j) } else { tri_row_79(j) }
}

pub open spec fn tri_block_5(m: int, j: int) -> int {
    if m == 80 { tri_row_80(j) } else if m == 81 { tri_row_81(j) } else if m == 82 { tri_row_82(j) } else if m == 83 { tri_row_83(j) } else if m == 84 { tri_row_84(j) } else if m == 85 { tri_row_85(j) } else if m == 86 { tri_row_86(j) } else if m == 87 { tri_row_87(j) } else if m == 88 { tri_row_88(j) } else if m == 89 { tri_row_89(j) } else if m == 90 { tri_row_90(j) } else if m == 91 { tri_row_91(j) } else if m == 92 { tri_row_92(j) } else if m == 93 { tri_row_93(j) } else if m == 94 { tri_row_94(j) } else { tri_row_95(j) }
}

pub open spec fn tri_block_6(m: int, j: int) -> int {
    if m == 96 { tri_row_96(j) } else if m == 97 { tri_row_97(j) } else if m == 98 { tri_row_98(j) } else if m == 99 { tri_row_99(j) } else if m == 100 { tri_row_100(j) } else if m == 101 { tri_row_101(j) } else if m == 102 { tri_row_102(j) } else if m == 103 { tri_row_103(j) } else if m == 104 { tri_row_104(j) } else if m == 105 { tri_row_105(j) } else if m == 106 { tri_row_106(j) } else if m == 107 { tri_row_107(j) } else if m == 108 { tri_row_108(j) } else if m == 109 { tri_row_109(j) } else if m == 110 { tri_row_110(j) } else { tri_row_111(j) }
}

pub open spec fn tri_block_7(m: int, j: int) -> int {
    if m == 112 { tri_row_112(j) } else if m == 113 { tri_row_113(j) } else if m == 114 { tri_row_114(j) } else if m == 115 { tri_row_115(j) } else if m == 116 { tri_row_116(j) } else if m == 117 { tri_row_117(j) } else if m == 118 { tri_row_118(j) } else if m == 119 { tri_row_119(j) } else if m == 120 { tri_row_120(j) } else if m == 121 { tri_row_121(j) } else if m == 122 { tri_row_122(j) } else if m == 123 { tri_row_123(j) } else if m == 124 { tri_row_124(j) } else if m == 125 { tri_row_125(j) } else if m == 126 { tri_row_126(j) } else { tri_row_127(j) }
}

pub open spec fn tri_block_8(m: int, j: int) -> int {
    if m == 128 { tri_row_128(j) } else if m == 129 { tri_row_129(j) } else if m == 130 { tri_row_130(j) } else if m == 131 { tri_row_131(j) } else if m == 132 { tri_row_132(j) } else if m == 133 { tri_row_133(j) } else if m == 134 { tri_row_134(j) } else if m == 135 { tri_row_135(j) } else if m == 136 { tri_row_136(j) } else if m == 137 { tri_row_137(j) } else if m == 138 { tri_row_138(j) } else if m == 139 { tri_row_139(j) } else if m == 140 { tri_row_140(j) } else if m == 141 { tri_row_141(j) } else if m == 142 { tri_row_142(j) } else { tri_row_143(j) }
}

pub open spec fn tri_block_9(m: int, j: int) -> int {
    if m == 144 { tri_row_144(j) } else if m == 145 { tri_row_145(j) } else if m == 146 { tri_row_146(j) } else if m == 147 { tri_row_147(j) } else if m == 148 { tri_row_148(j) } else if m == 149 { tri_row_149(j) } else if m == 150 { tri_row_150(j) } else if m == 151 { tri_row_151(j) } else if m == 152 { tri_row_152(j) } else if m == 153 { tri_row_153(j) } else if m == 154 { tri_row_154(j) } else if m == 155 { tri_row_155(j) } else if m == 156 { tri_row_156(j) } else if m == 157 { tri_row_157(j) } else if m == 158 { tri_row_158(j) } else { tri_row_159(j) }
}

pub open spec fn tri_block_10(m: int, j: int) -> int {
    if m == 160 { tri_row_160(j) } else if m == 161 { tri_row_161(j) } else if m == 162 { tri_row_162(j) } else if m == 163 { tri_row_163(j) } else if m == 164 { tri_row_164(j) } else if m == 165 { tri_row_165(j) } else if m == 166 { tri_row_166(j) } else if m == 167 { tri_row_167(j) } else if m == 168 { tri_row_168(j) } else if m == 169 { tri_row_169(j) } else if m == 170 { tri_row_170(j) } else if m == 171 { tri_row_171(j) } else if m == 172 { tri_row_172(j) } else if m == 173 { tri_row_173(j) } else if m == 174 { tri_row_174(j) } else { tri_row_175(j) }
}

pub open spec fn tri_block_11(m: int, j: int) -> int {
    if m == 176 { tri_row_176(j) } else if m == 177 { tri_row_177(j) } else if m == 178 { tri_row_178(j) } else if m == 179 { tri_row_179(j) } else if m == 180 { tri_row_180(j) } else if m == 181 { tri_row_181(j) } else if m == 182 { tri_row_182(j) } else if m == 183 { tri_row_183(j) } else if m == 184 { tri_row_184(j) } else if m == 185 { tri_row_185(j) } else if m == 186 { tri_row_186(j) } else if m == 187 { tri_row_187(j) } else if m == 188 { tri_row_188(j) } else if m == 189 { tri_row_189(j) } else if m == 190 { tri_row_190(j) } else { tri_row_191(j) }
}

pub open spec fn tri_block_12(m: int, j: int) -> int {
    if m == 192 { tri_row_192(j) } else if m == 193 { tri_row_193(j) } else if m == 194 { tri_row_194(j) } else if m == 195 { tri_row_195(j) } else if m == 196 { tri_row_196(j) } else if m == 197 { tri_row_197(j) } else if m == 198 { tri_row_198(j) } else if m == 199 { tri_row_199(j) } else if m == 200 { tri_row_200(j) } else if m == 201 { tri_row_201(j) } else if m == 202 { tri_row_202(j) } else if m == 203 { tri_row_203(j) } else if m == 204 { tri_row_204(j) } else if m == 205 { tri_row_205(j) } else if m == 206 { tri_row_206(j) } else { tri_row_207(j) }
}

pub open spec fn tri_block_13(m: int, j: int) -> int {
    if m == 208 { tri_row_208(j) } else if m == 209 { tri_row_209(j) } else if m == 210 { tri_row_210(j) } else if m == 211 { tri_row_211(j) } else if m == 212 { tri_row_212(j) } else if m == 213 { tri_row_213(j) } else if m == 214 { tri_row_214(j) } else if m == 215 { tri_row_215(j) } else if m == 216 { tri_row_216(j) } else if m == 217 { tri_row_217(j) } else if m == 218 { tri_row_218(j) } else if m == 219 { tri_row_219(j) } else if m == 220 { tri_row_220(j) } else if m == 221 { tri_row_221(j) } else if m == 222 { tri_row_222(j) } else { tri_row_223(j) }
}

pub open spec fn tri_block_14(m: int, j: int) -> int {
    if m == 224 { tri_row_224(j) } else if m == 225 { tri_row_225(j) } else if m == 226 { tri_row_226(j) } else if m == 227 { tri_row_227(j) } else if m == 228 { tri_row_228(j) } else if m == 229 { tri_row_229(j) } else if m == 230 { tri_row_230(j) } else if m == 231 { tri_row_231(j) } else if m == 232 { tri_row_232(j) } else if m == 233 { tri_row_233(j) } else if m == 234 { tri_row_234(j) } else if m == 235 { tri_row_235(j) } else if m == 236 { tri_row_236(j) } else if m == 237 { tri_row_237(j) } else if m == 238 { tri_row_238(j) } else { tri_row_239(j) }
}

pub open spec fn tri_block_15(m: int, j: int) -> int {
    if m == 240 { tri_row_240(j) } else if m == 241 { tri_row_241(j) } else if m == 242 { tri_row_242(j) } else if m == 243 { tri_row_243(j) } else if m == 244 { tri_row_244(j) } else if m == 245 { tri_row_245(j) } else if m == 246 { tri_row_246(j) } else if m == 247 { tri_row_247(j) } else if m == 248 { tri_row_248(j) } else if m == 249 { tri_row_249(j) } else if m == 250 { tri_row_250(j) } else if m == 251 { tri_row_251(j) } else if m == 252 { tri_row_252(j) } else if m == 253 { tri_row_253(j) } else if m == 254 { tri_row_254(j) } else { tri_row_255(j) }
}

/// Entry `j` of triangulation-table row `m`; `-1` is the sentinel.
///
/// Kept opaque so that symbolic reasoning about the extractor never unfolds
/// the table data; facts about rows come from `tables::lemma_row_ok`.
#[verifier::opaque]
pub open spec fn tri_entry(m: int, j: int) -> int {
    if m < 16 { tri_block_0(m, j) } else if m < 32 { tri_block_1(m, j) } else if m < 48 { tri_block_2(m, j) } else if m < 64 { tri_block_3(m, j) } else if m < 80 { tri_block_4(m, j) } else if m < 96 { tri_block_5(m, j) } else if m < 112 { tri_block_6(m, j) } else if m < 128 { tri_block_7(m, j) } else if m < 144 { tri_block_8(m, j) } else if m < 160 { tri_block_9(m, j) } else if m < 176 { tri_block_10(m, j) } else if m < 192 { tri_block_11(m, j) } else if m < 208 { tri_block_12(m, j) } else if m < 224 { tri_block_13(m, j) } else if m < 240 { tri_block_14(m, j) } else { tri_block_15(m, j) }
}

fn tri_lookup_block_0(m: u8, j: usize) -> (r: i8)
    requires
        0 <= m < 16,
        j < 16,
    ensures
        r as int == tri_entry(m as int, j as int),
{
    proof {
        reveal(tri_entry);
    }
    match m {
        0 => {
            let row: [i8; 16] = [-1, -1, -1, -1, -1, -1, -1, -1, -1, -1, -1, -1, -1, -1, -1, -1];
            row[j]
        },
        1 => {
            let row: [i8; 16] = [0, 8, 3, -1, -1, -1, -1, -1, -1, -1, -1, -1, -1, -1, -1, -1];
            row[j]
        },
        2 => {
            let row: [i8; 16] = [0, 1, 9, -1, -1, -1, -1, -1, -1, -1, -1, -1, -1, -1, -1, -1];
            row[j]
        },
        3 => {
            let row: [i8; 16] = [1, 8, 3, 9, 8, 1, -1, -1, -1, -1, -1, -1, -1, -1, -1, -1];
            row[j]
        },
        4 => {
            let row: [i8; 16] = [1, 2, 10, -1, -1, -1, -1, -1, -1, -1, -1, -1, -1, -1, -1, -1];
            row[j]
        },
        5 => {
            let row: [i8; 16] = [0, 8, 3, 1, 2, 10, -1, -1, -1, -1, -1, -1, -1, -1, -1, -1];
            row[j]
        },
        6 => {
            let row: [i8; 16] = [9, 2, 10, 0, 2, 9, -1, -1, -1, -1, -1, -1, -1, -1, -1, -1];
            row[j]
        },
        7 => {
            let row: [i8; 16] = [2, 8, 3, 2, 10, 8, 10, 9, 8, -1, -1, -1, -1, -1, -1, -1];
            row[j]
        },
        8 => {
            let row: [i8; 16] = [3, 11, 2, -1, -1, -1, -1, -1, -1, -1, -1, -1, -1, -1, -1, -1];
            row[j]
        },
        9 => {
            let row: [i8; 16] = [0, 11, 2, 8, 11, 0, -1, -1, -1, -1, -1, -1, -1, -1, -1, -1];
            row[j]
        },
        10 => {
            let row: [i8; 16] = [1, 9, 0, 2, 3, 11, -1, -1, -1, -1, -1, -1, -1, -1, -1, -1];
            row[j]
        },
        11 => {
            let row: [i8; 16] = [1, 11, 2, 1, 9, 11, 9, 8, 11, -1, -1, -1, -1, -1, -1, -1];
            row[j]
        },
        12 => {
            let row: [i8; 16] = [3, 10, 1, 11, 10, 3, -1, -1, -1, -1, -1, -1, -1, -1, -1, -1];
            row[j]
        },
        13 => {
            let row: [i8; 16] = [0, 10, 1, 0, 8, 10, 8, 11, 10, -1, -1, -1, -1, -1, -1, -1];
            row[j]
        },
        14 => {
            let row: [i8; 16] = [3, 9, 0, 3, 11, 9, 11, 10, 9, -1, -1, -1, -1, -1, -1, -1];
            row[j]
        },
        _ => {
            let row: [i8; 16] = [9, 8, 10, 10, 8, 11, -1, -1, -1, -1, -1, -1, -1, -1, -1, -1];
            row[j]
        },
    }
}

fn tri_lookup_block_1(m: u8, j: usize) -> (r: i8)
    requires
        16 <= m < 32,
        j < 16,
    ensures
        r as int == tri_entry(m as int, j as int),
{
    proof {
        reveal(tri_entry);
    }
    match m {
        16 => {
            let row: [i8; 16] = [4, 7, 8, -1, -1, -1, -1, -1, -1, -1, -1, -1, -1, -1, -1, -1];
            row[j]
        },
        17 => {
            let row: [i8; 16] = [4, 3, 0, 7, 3, 4, -1, -1, -1, -1, -1, -1, -1, -1, -1, -1];
            row[j]
        },
        18 => {
            let row: [i8; 16] = [0, 1, 9, 8, 4, 7, -1, -1, -1, -1, -1, -1, -1, -1, -1, -1];
            row[j]
        },
        19 => {
            let row: [i8; 16] = [4, 1, 9, 4, 7, 1, 7, 3, 1, -1, -1, -1, -1, -1, -1, -1];
            row[j]
        },
        20 => {
            let row: [i8; 16] = [1, 2, 10, 8, 4, 7, -1, -1, -1, -1, -1, -1, -1, -1, -1, -1];
            row[j]
        },
        21 => {
            let row: [i8; 16] = [3, 4, 7, 3, 0, 4, 1, 2, 10, -1, -1, -1, -1, -1, -1, -1];
            row[j]
        },
        22 => {
            let row: [i8; 16] = [9, 2, 10, 9, 0, 2, 8, 4, 7, -1, -1, -1, -1, -1, -1, -1];
            row[j]
        },
        23 => {
            let row: [i8; 16] = [2, 10, 9, 2, 9, 7, 2, 7, 3, 7, 9, 4, -1, -1, -1, -1];
            row[j]
        },
        24 => {
            let row: [i8; 16] = [8, 4, 7, 3, 11, 2, -1, -1, -1, -1, -1, -1, -1, -1, -1, -1];
            row[j]
        },
        25 => {
            let row: [i8; 16] = [11, 4, 7, 11, 2, 4, 2, 0, 4, -1, -1, -1, -1, -1, -1, -1];
            row[j]
        },
        26 => {
            let row: [i8; 16] = [9, 0, 1, 8, 4, 7, 2, 3, 11, -1, -1, -1, -1, -1, -1, -1];
            row[j]
        },
        27 => {
            let row: [i8; 16] = [4, 7, 11, 9, 4, 11, 9, 11, 2, 9, 2, 1, -1, -1, -1, -1];
            row[j]
        },
        28 => {
            let row: [i8; 16] = [3, 10, 1, 3, 11, 10, 7, 8, 4, -1, -1, -1, -1, -1, -1, -1];
            row[j]
        },
        29 => {
            let row: [i8; 16] = [1, 11, 10, 1, 4, 11, 1, 0, 4, 7, 11, 4, -1, -1, -1, -1];
            row[j]
        },
        30 => {
            let row: [i8; 16] = [4, 7, 8, 9, 0, 11, 9, 11, 10, 11, 0, 3, -1, -1, -1, -1];
            row[j]
        },
        _ => {
            let row: [i8; 16] = [4, 7, 11, 4, 11, 9, 9, 11, 10, -1, -1, -1, -1, -1, -1, -1];
            row[j]
        },
    }
}

fn tri_lookup_block_2(m: u8, j: usize) -> (r: i8)
    requires
        32 <= m < 48,
        j < 16,
    ensures
        r as int == tri_entry(m as int, j as int),
{
    proof {
        reveal(tri_entry);
    }
    match m {
        32 => {
            let row: [i8; 16] = [9, 5, 4, -1, -1, -1, -1, -1, -1, -1, -1, -1, -1, -1, -1, -1];
            row[j]
        },
        33 => {
            let row: [i8; 16] = [9, 5, 4, 0, 8, 3, -1, -1, -1, -1, -1, -1, -1, -1, -1, -1];
            row[j]
        },
        34 => {
            let row: [i8; 16] = [0, 5, 4, 1, 5, 0, -1, -1, -1, -1, -1, -1, -1, -1, -1, -1];
            row[j]
        },
        35 => {
            let row: [i8; 16] = [8, 5, 4, 8, 3, 5, 3, 1, 5, -1, -1, -1, -1, -1, -1, -1];
            row[j]
        },
        36 => {
            let row: [i8; 16] = [1, 2, 10, 9, 5, 4, -1, -1, -1, -1, -1, -1, -1, -1, -1, -1];
            row[j]
        },
        37 => {
            let row: [i8; 16] = [3, 0, 8, 1, 2, 10, 4, 9, 5, -1, -1, -1, -1, -1, -1, -1];
            row[j]
        },
        38 => {
            let row: [i8; 16] = [5, 2, 10, 5, 4, 2, 4, 0, 2, -1, -1, -1, -1, -1, -1, -1];
            row[j]
        },
        39 => {
            let row: [i8; 16] = [2, 10, 5, 3, 2, 5, 3, 5, 4, 3, 4, 8, -1, -1, -1, -1];
            row[j]
        },
        40 => {
            let row: [i8; 16] = [9, 5, 4, 2, 3, 11, -1, -1, -1, -1, -1, -1, -1, -1, -1, -1];
            row[j]
        },
        41 => {
            let row: [i8; 16] = [0, 11, 2, 0, 8, 11, 4, 9, 5, -1, -1, -1, -1, -1, -1, -1];
            row[j]
        },
        42 => {
            let row: [i8; 16] = [0, 5, 4, 0, 1, 5, 2, 3, 11, -1, -1, -1, -1, -1, -1, -1];
            row[j]
        },
        43 => {
            let row: [i8; 16] = [2, 1, 5, 2, 5, 8, 2, 8, 11, 4, 8, 5, -1, -1, -1, -1];
            row[j]
        },
        44 => {
            let row: [i8; 16] = [10, 3, 11, 10, 1, 3, 9, 5, 4, -1, -1, -1, -1, -1, -1, -1];
            row[j]
        },
        45 => {
            let row: [i8; 16] = [4, 9, 5, 0, 8, 1, 8, 10, 1, 8, 11, 10, -1, -1, -1, -1];
            row[j]
        },
        46 => {
            let row: [i8; 16] = [5, 4, 0, 5, 0, 11, 5, 11, 10, 11, 0, 3, -1, -1, -1, -1];
            row[j]
        },
        _ => {
            let row: [i8; 16] = [5, 4, 8, 5, 8, 10, 10, 8, 11, -1, -1, -1, -1, -1, -1, -1];
            row[j]
        },
    }
}

fn tri_lookup_block_3(m: u8, j: usize) -> (r: i8)
    requires
        48 <= m < 64,
        j < 16,
    ensures
        r as int == tri_entry(m as int, j as int),
{
    proof {
        reveal(tri_entry);
    }
    match m {
        48 => {
            let row: [i8; 16] = [9, 7, 8, 5, 7, 9, -1, -1, -1, -1, -1, -1, -1, -1, -1, -1];
            row[j]
        },
        49 => {
            let row: [i8; 16] = [9, 3, 0, 9, 5, 3, 5, 7, 3, -1, -1, -1, -1, -1, -1, -1];
            row[j]
        },
        50 => {
            let row: [i8; 16] = [0, 7, 8, 0, 1, 7, 1, 5, 7, -1, -1, -1, -1, -1, -1, -1];
            row[j]
        },
        51 => {
            let row: [i8; 16] = [1, 5, 3, 3, 5, 7, -1, -1, -1, -1, -1, -1, -1, -1, -1, -1];
            row[j]
        },
        52 => {
            let row: [i8; 16] = [9, 7, 8, 9, 5, 7, 10, 1, 2, -1, -1, -1, -1, -1, -1, -1];
            row[j]
        },
        53 => {
            let row: [i8; 16] = [10, 1, 2, 9, 5, 0, 5, 3, 0, 5, 7, 3, -1, -1, -1, -1];
            row[j]
        },
        54 => {
            let row: [i8; 16] = [8, 0, 2, 8, 2, 5, 8, 5, 7, 10, 5, 2, -1, -1, -1, -1];
            row[j]
        },
        55 => {
            let row: [i8; 16] = [2, 10, 5, 2, 5, 3, 3, 5, 7, -1, -1, -1, -1, -1, -1, -1];
            row[j]
        },
        56 => {
            let row: [i8; 16] = [7, 9, 5, 7, 8, 9, 3, 11, 2, -1, -1, -1, -1, -1, -1, -1];
            row[j]
        },
        57 => {
            let row: [i8; 16] = [9, 5, 7, 9, 7, 2, 9, 2, 0, 2, 7, 11, -1, -1, -1, -1];
            row[j]
        },
        58 => {
            let row: [i8; 16] = [2, 3, 11, 0, 1, 8, 1, 7, 8, 1, 5, 7, -1, -1, -1, -1];
            row[j]
        },
        59 => {
            let row: [i8; 16] = [11, 2, 1, 11, 1, 7, 7, 1, 5, -1, -1, -1, -1, -1, -1, -1];
            row[j]
        },
        60 => {
            let row: [i8; 16] = [9, 5, 8, 8, 5, 7, 10, 1, 3, 10, 3, 11, -1, -1, -1, -1];
            row[j]
        },
        61 => {
            let row: [i8; 16] = [5, 7, 0, 5, 0, 9, 7, 11, 0, 1, 0, 10, 11, 10, 0, -1];
            row[j]
        },
        62 => {
            let row: [i8; 16] = [11, 10, 0, 11, 0, 3, 10, 5, 0, 8, 0, 7, 5, 7, 0, -1];
            row[j]
        },
        _ => {
            let row: [i8; 16] = [11, 10, 5, 7, 11, 5, -1, -1, -1, -1, -1, -1, -1, -1, -1, -1];
            row[j]
        },
    }
}

fn tri_lookup_block_4(m: u8, j: usize) -> (r: i8)
    requires
        64 <= m < 80,
        j < 16,
    ensures
        r as int == tri_entry(m as int, j as int),
{
    proof {
        reveal(tri_entry);
    }
    match m {
        64 => {
            let row: [i8; 16] = [10, 6, 5, -1, -1, -1, -1, -1, -1, -1, -1, -1, -1, -1, -1, -1];
            row[j]
        },
        65 => {
            let row: [i8; 16] = [0, 8, 3, 5, 10, 6, -1, -1, -1, -1, -1, -1, -1, -1, -1, -1];
            row[j]
        },
        66 => {
            let row: [i8; 16] = [9, 0, 1, 5, 10, 6, -1, -1, -1, -1, -1, -1, -1, -1, -1, -1];
            row[j]
        },
        67 => {
            let row: [i8; 16] = [1, 8, 3, 1, 9, 8, 5, 10, 6, -1, -1, -1, -1, -1, -1, -1];
            row[j]
        },
        68 => {
            let row: [i8; 16] = [1, 6, 5, 2, 6, 1, -1, -1, -1, -1, -1, -1, -1, -1, -1, -1];
            row[j]
        },
        69 => {
            let row: [i8; 16] = [1, 6, 5, 1, 2, 6, 3, 0, 8, -1, -1, -1, -1, -1, -1, -1];
            row[j]
        },
        70 => {
            let row: [i8; 16] = [9, 6, 5, 9, 0, 6, 0, 2, 6, -1, -1, -1, -1, -1, -1, -1];
            row[j]
        },
        71 => {
            let row: [i8; 16] = [5, 9, 8, 5, 8, 2, 5, 2, 6, 3, 2, 8, -1, -1, -1, -1];
            row[j]
        },
        72 => {
            let row: [i8; 16] = [2, 3, 11, 10, 6, 5, -1, -1, -1, -1, -1, -1, -1, -1, -1, -1];
            row[j]
        },
        73 => {
            let row: [i8; 16] = [11, 0, 8, 11, 2, 0, 10, 6, 5, -1, -1, -1, -1, -1, -1, -1];
            row[j]
        },
        74 => {
            let row: [i8; 16] = [0, 1, 9, 2, 3, 11, 5, 10, 6, -1, -1, -1, -1, -1, -1, -1];
            row[j]
        },
        75 => {
            let row: [i8; 16] = [5, 10, 6, 1, 9, 2, 9, 11, 2, 9, 8, 11, -1, -1, -1, -1];
            row[j]
        },
        76 => {
            let row: [i8; 16] = [6, 3, 11, 6, 5, 3, 5, 1, 3, -1, -1, -1, -1, -1, -1, -1];
            row[j]
        },
        77 => {
            let row: [i8; 16] = [0, 8, 11, 0, 11, 5, 0, 5, 1, 5, 11, 6, -1, -1, -1, -1];
            row[j]
        },
        78 => {
            let row: [i8; 16] = [3, 11, 6, 0, 3, 6, 0, 6, 5, 0, 5, 9, -1, -1, -1, -1];
            row[j]
        },
        _ => {
            let row: [i8; 16] = [6, 5, 9, 6, 9, 11, 11, 9, 8, -1, -1, -1, -1, -1, -1, -1];
            row[j]
        },
    }
}

fn tri_lookup_block_5(m: u8, j: usize) -> (r: i8)
    requires
        80 <= m < 96,
        j < 16,
    ensures
        r as int == tri_entry(m as int, j as int),
{
    proof {
        reveal(tri_entry);
    }
    match m {
        80 => {
            let row: [i8; 16] = [5, 10, 6, 4, 7, 8, -1, -1, -1, -1, -1, -1, -1, -1, -1, -1];
            row[j]
        },
        81 => {
            let row: [i8; 16] = [4, 3, 0, 4, 7, 3, 6, 5, 10, -1, -1, -1, -1, -1, -1, -1];
            row[j]
        },
        82 => {
            let row: [i8; 16] = [1, 9, 0, 5, 10, 6, 8, 4, 7, -1, -1, -1, -1, -1, -1, -1];
            row[j]
        },
        83 => {
            let row: [i8; 16] = [10, 6, 5, 1, 9, 7, 1, 7, 3, 7, 9, 4, -1, -1, -1, -1];
            row[j]
        },
        84 => {
            let row: [i8; 16] = [6, 1, 2, 6, 5, 1, 4, 7, 8, -1, -1, -1, -1, -1, -1, -1];
            row[j]
        },
        85 => {
            let row: [i8; 16] = [1, 2, 5, 5, 2, 6, 3, 0, 4, 3, 4, 7, -1, -1, -1, -1];
            row[j]
        },
        86 => {
            let row: [i8; 16] = [8, 4, 7, 9, 0, 5, 0, 6, 5, 0, 2, 6, -1, -1, -1, -1];
            row[j]
        },
        87 => {
            let row: [i8; 16] = [7, 3, 9, 7, 9, 4, 3, 2, 9, 5, 9, 6, 2, 6, 9, -1];
            row[j]
        },
        88 => {
            let row: [i8; 16] = [3, 11, 2, 7, 8, 4, 10, 6, 5, -1, -1, -1, -1, -1, -1, -1];
            row[j]
        },
        89 => {
            let row: [i8; 16] = [5, 10, 6, 4, 7, 2, 4, 2, 0, 2, 7, 11, -1, -1, -1, -1];
            row[j]
        },
        90 => {
            let row: [i8; 16] = [0, 1, 9, 4, 7, 8, 2, 3, 11, 5, 10, 6, -1, -1, -1, -1];
            row[j]
        },
        91 => {
            let row: [i8; 16] = [9, 2, 1, 9, 11, 2, 9, 4, 11, 7, 11, 4, 5, 10, 6, -1];
            row[j]
        },
        92 => {
            let row: [i8; 16] = [8, 4, 7, 3, 11, 5, 3, 5, 1, 5, 11, 6, -1, -1, -1, -1];
            row[j]
        },
        93 => {
            let row: [i8; 16] = [5, 1, 11, 5, 11, 6, 1, 0, 11, 7, 11, 4, 0, 4, 11, -1];
            row[j]
        },
        94 => {
            let row: [i8; 16] = [0, 5, 9, 0, 6, 5, 0, 3, 6, 11, 6, 3, 8, 4, 7, -1];
            row[j]
        },
        _ => {
            let row: [i8; 16] = [6, 5, 9, 6, 9, 11, 4, 7, 9, 7, 11, 9, -1, -1, -1, -1];
            row[j]
        },
    }
}

fn tri_lookup_block_6(m: u8, j: usize) -> (r: i8)
    requires
        96 <= m < 112,
        j < 16,
    ensures
        r as int == tri_entry(m as int, j as int),
{
    proof {
        reveal(tri_entry);
    }
    match m {
        96 => {
            let row: [i8; 16] = [10, 4, 9, 6, 4, 10, -1, -1, -1, -1, -1, -1, -1, -1, -1, -1];
            row[j]
        },
        97 => {
            let row: [i8; 16] = [4, 10, 6, 4, 9, 10, 0, 8, 3, -1, -1, -1, -1, -1, -1, -1];
            row[j]
        },
        98 => {
            let row: [i8; 16] = [10, 0, 1, 10, 6, 0, 6, 4, 0, -1, -1, -1, -1, -1, -1, -1];
            row[j]
        },
        99 => {
            let row: [i8; 16] = [8, 3, 1, 8, 1, 6, 8, 6, 4, 6, 1, 10, -1, -1, -1, -1];
            row[j]
        },
        100 => {
            let row: [i8; 16] = [1, 4, 9, 1, 2, 4, 2, 6, 4, -1, -1, -1, -1, -1, -1, -1];
            row[j]
        },
        101 => {
            let row: [i8; 16] = [3, 0, 8, 1, 2, 9, 2, 4, 9, 2, 6, 4, -1, -1, -1, -1];
            row[j]
        },
        102 => {
            let row: [i8; 16] = [0, 2, 4, 4, 2, 6, -1, -1, -1, -1, -1, -1, -1, -1, -1, -1];
            row[j]
        },
        103 => {
            let row: [i8; 16] = [8, 3, 2, 8, 2, 4, 4, 2, 6, -1, -1, -1, -1, -1, -1, -1];
            row[j]
        },
        104 => {
            let row: [i8; 16] = [10, 4, 9, 10, 6, 4, 11, 2, 3, -1, -1, -1, -1, -1, -1, -1];
            row[j]
        },
        105 => {
            let row: [i8; 16] = [0, 8, 2, 2, 8, 11, 4, 9, 10, 4, 10, 6, -1, -1, -1, -1];
            row[j]
        },
        106 => {
            let row: [i8; 16] = [3, 11, 2, 0, 1, 6, 0, 6, 4, 6, 1, 10, -1, -1, -1, -1];
            row[j]
        },
        107 => {
            let row: [i8; 16] = [6, 4, 1, 6, 1, 10, 4, 8, 1, 2, 1, 11, 8, 11, 1, -1];
            row[j]
        },
        108 => {
            let row: [i8; 16] = [9, 6, 4, 9, 3, 6, 9, 1, 3, 11, 6, 3, -1, -1, -1, -1];
            row[j]
        },
        109 => {
            let row: [i8; 16] = [8, 11, 1, 8, 1, 0, 11, 6, 1, 9, 1, 4, 6, 4, 1, -1];
            row[j]
        },
        110 => {
            let row: [i8; 16] = [3, 11, 6, 3, 6, 0, 0, 6, 4, -1, -1, -1, -1, -1, -1, -1];
            row[j]
        },
        _ => {
            let row: [i8; 16] = [6, 4, 8, 11, 6, 8, -1, -1, -1, -1, -1, -1, -1, -1, -1, -1];
            row[j]
        },
    }
}

fn tri_lookup_block_7(m: u8, j: usize) -> (r: i8)
    requires
        112 <= m < 128,
        j < 16,
    ensures
        r as int == tri_entry(m as int, j as int),
{
    proof {
        reveal(tri_entry);
    }
    match m {
        112 => {
            let row: [i8; 16] = [7, 10, 6, 7, 8, 10, 8, 9, 10, -1, -1, -1, -1, -1, -1, -1];
            row[j]
        },
        113 => {
            let row: [i8; 16] = [0, 7, 3, 0, 10, 7, 0, 9, 10, 6, 7, 10, -1, -1, -1, -1];
            row[j]
        },
        114 => {
            let row: [i8; 16] = [10, 6, 7, 1, 10, 7, 1, 7, 8, 1, 8, 0, -1, -1, -1, -1];
            row[j]
        },
        115 => {
            let row: [i8; 16] = [10, 6, 7, 10, 7, 1, 1, 7, 3, -1, -1, -1, -1, -1, -1, -1];
            row[j]
        },
        116 => {
            let row: [i8; 16] = [1, 2, 6, 1, 6, 8, 1, 8, 9, 8, 6, 7, -1, -1, -1, -1];
            row[j]
        },
        117 => {
            let row: [i8; 16] = [2, 6, 9, 2, 9, 1, 6, 7, 9, 0, 9, 3, 7, 3, 9, -1];
            row[j]
        },
        118 => {
            let row: [i8; 16] = [7, 8, 0, 7, 0, 6, 6, 0, 2, -1, -1, -1, -1, -1, -1, -1];
            row[j]
        },
        119 => {
            let row: [i8; 16] = [7, 3, 2, 6, 7, 2, -1, -1, -1, -1, -1, -1, -1, -1, -1, -1];
            row[j]
        },
        120 => {
            let row: [i8; 16] = [2, 3, 11, 10, 6, 8, 10, 8, 9, 8, 6, 7, -1, -1, -1, -1];
            row[j]
        },
        121 => {
            let row: [i8; 16] = [2, 0, 7, 2, 7, 11, 0, 9, 7, 6, 7, 10, 9, 10, 7, -1];
            row[j]
        },
        122 => {
            let row: [i8; 16] = [1, 8, 0, 1, 7, 8, 1, 10, 7, 6, 7, 10, 2, 3, 11, -1];
            row[j]
        },
        123 => {
            let row: [i8; 16] = [11, 2, 1, 11, 1, 7, 10, 6, 1, 6, 7, 1, -1, -1, -1, -1];
            row[j]
        },
        124 => {
            let row: [i8; 16] = [8, 9, 6, 8, 6, 7, 9, 1, 6, 11, 6, 3, 1, 3, 6, -1];
            row[j]
        },
        125 => {
            let row: [i8; 16] = [0, 9, 1, 11, 6, 7, -1, -1, -1, -1, -1, -1, -1, -1, -1, -1];
            row[j]
        },
        126 => {
            let row: [i8; 16] = [7, 8, 0, 7, 0, 6, 3, 11, 0, 11, 6, 0, -1, -1, -1, -1];
            row[j]
        },
        _ => {
            let row: [i8; 16] = [7, 11, 6, -1, -1, -1, -1, -1, -1, -1, -1, -1, -1, -1, -1, -1];
            row[j]
        },
    }
}

fn tri_lookup_block_8(m: u8, j: usize) -> (r: i8)
    requires
        128 <= m < 144,
        j < 16,
    ensures
        r as int == tri_entry(m as int, j as int),
{
    proof {
        reveal(tri_entry);
    }
    match m {
        128 => {
            let row: [i8; 16] = [7, 6, 11, -1, -1, -1, -1, -1, -1, -1, -1, -1, -1, -1, -1, -1];
            row[j]
        },
        129 => {
            let row: [i8; 16] = [3, 0, 8, 11, 7, 6, -1, -1, -1, -1, -1, -1, -1, -1, -1, -1];
            row[j]
        },
        130 => {
            let row: [i8; 16] = [0, 1, 9, 11, 7, 6, -1, -1, -1, -1, -1, -1, -1, -1, -1, -1];
            row[j]
        },
        131 => {
            let row: [i8; 16] = [8, 1, 9, 8, 3, 1, 11, 7, 6, -1, -1, -1, -1, -1, -1, -1];
            row[j]
        },
        132 => {
            let row: [i8; 16] = [10, 1, 2, 6, 11, 7, -1, -1, -1, -1, -1, -1, -1, -1, -1, -1];
            row[j]
        },
        133 => {
            let row: [i8; 16] = [1, 2, 10, 3, 0, 8, 6, 11, 7, -1, -1, -1, -1, -1, -1, -1];
            row[j]
        },
        134 => {
            let row: [i8; 16] = [2, 9, 0, 2, 10, 9, 6, 11, 7, -1, -1, -1, -1, -1, -1, -1];
            row[j]
        },
        135 => {
            let row: [i8; 16] = [6, 11, 7, 2, 10, 3, 10, 8, 3, 10, 9, 8, -1, -1, -1, -1];
            row[j]
        },
        136 => {
            let row: [i8; 16] = [7, 2, 3, 6, 2, 7, -1, -1, -1, -1, -1, -1, -1, -1, -1, -1];
            row[j]
        },
        137 => {
            let row: [i8; 16] = [7, 0, 8, 7, 6, 0, 6, 2, 0, -1, -1, -1, -1, -1, -1, -1];
            row[j]
        },
        138 => {
            let row: [i8; 16] = [2, 7, 6, 2, 3, 7, 0, 1, 9, -1, -1, -1, -1, -1, -1, -1];
            row[j]
        },
        139 => {
            let row: [i8; 16] = [1, 6, 2, 1, 8, 6, 1, 9, 8, 8, 7, 6, -1, -1, -1, -1];
            row[j]
        },
        140 => {
            let row: [i8; 16] = [10, 7, 6, 10, 1, 7, 1, 3, 7, -1, -1, -1, -1, -1, -1, -1];
            row[j]
        },
        141 => {
            let row: [i8; 16] = [10, 7, 6, 1, 7, 10, 1, 8, 7, 1, 0, 8, -1, -1, -1, -1];
            row[j]
        },
        142 => {
            let row: [i8; 16] = [0, 3, 7, 0, 7, 10, 0, 10, 9, 6, 10, 7, -1, -1, -1, -1];
            row[j]
        },
        _ => {
            let row: [i8; 16] = [7, 6, 10, 7, 10, 8, 8, 10, 9, -1, -1, -1, -1, -1, -1, -1];
            row[j]
        },
    }
}

fn tri_lookup_block_9(m: u8, j: usize) -> (r: i8)
    requires
        144 <= m < 160,
        j < 16,
    ensures
        r as int == tri_entry(m as int, j as int),
{
    proof {
        reveal(tri_entry);
    }
    match m {
        144 => {
            let row: [i8; 16] = [6, 8, 4, 11, 8, 6, -1, -1, -1, -1, -1, -1, -1, -1, -1, -1];
            row[j]
        },
        145 => {
            let row: [i8; 16] = [3, 6, 11, 3, 0, 6, 0, 4, 6, -1, -1, -1, -1, -1, -1, -1];
            row[j]
        },
        146 => {
            let row: [i8; 16] = [8, 6, 11, 8, 4, 6, 9, 0, 1, -1, -1, -1, -1, -1, -1, -1];
            row[j]
        },
        147 => {
            let row: [i8; 16] = [9, 4, 6, 9, 6, 3, 9, 3, 1, 11, 3, 6, -1, -1, -1, -1];
            row[j]
        },
        148 => {
            let row: [i8; 16] = [6, 8, 4, 6, 11, 8, 2, 10, 1, -1, -1, -1, -1, -1, -1, -1];
            row[j]
        },
        149 => {
            let row: [i8; 16] = [1, 2, 10, 3, 0, 11, 0, 6, 11, 0, 4, 6, -1, -1, -1, -1];
            row[j]
        },
        150 => {
            let row: [i8; 16] = [4, 11, 8, 4, 6, 11, 0, 2, 9, 2, 10, 9, -1, -1, -1, -1];
            row[j]
        },
        151 => {
            let row: [i8; 16] = [10, 9, 3, 10, 3, 2, 9, 4, 3, 11, 3, 6, 4, 6, 3, -1];
            row[j]
        },
        152 => {
            let row: [i8; 16] = [8, 2, 3, 8, 4, 2, 4, 6, 2, -1, -1, -1, -1, -1, -1, -1];
            row[j]
        },
        153 => {
            let row: [i8; 16] = [0, 4, 2, 4, 6, 2, -1, -1, -1, -1, -1, -1, -1, -1, -1, -1];
            row[j]
        },
        154 => {
            let row: [i8; 16] = [1, 9, 0, 2, 3, 4, 2, 4, 6, 4, 3, 8, -1, -1, -1, -1];
            row[j]
        },
        155 => {
            let row: [i8; 16] = [1, 9, 4, 1, 4, 2, 2, 4, 6, -1, -1, -1, -1, -1, -1, -1];
            row[j]
        },
        156 => {
            let row: [i8; 16] = [8, 1, 3, 8, 6, 1, 8, 4, 6, 6, 10, 1, -1, -1, -1, -1];
            row[j]
        },
        157 => {
            let row: [i8; 16] = [10, 1, 0, 10, 0, 6, 6, 0, 4, -1, -1, -1, -1, -1, -1, -1];
            row[j]
        },
        158 => {
            let row: [i8; 16] = [4, 6, 3, 4, 3, 8, 6, 10, 3, 0, 3, 9, 10, 9, 3, -1];
            row[j]
        },
        _ => {
            let row: [i8; 16] = [10, 9, 4, 6, 10, 4, -1, -1, -1, -1, -1, -1, -1, -1, -1, -1];
            row[j]
        },
    }
}

fn tri_lookup_block_10(m: u8, j: usize) -> (r: i8)
    requires
        160 <= m < 176,
        j < 16,
    ensures
        r as int == tri_entry(m as int, j as int),
{
    proof {
        reveal(tri_entry);
    }
    match m {
        160 => {
            let row: [i8; 16] = [4, 9, 5, 7, 6, 11, -1, -1, -1, -1, -1, -1, -1, -1, -1, -1];
            row[j]
        },
        161 => {
            let row: [i8; 16] = [0, 8, 3, 4, 9, 5, 11, 7, 6, -1, -1, -1, -1, -1, -1, -1];
            row[j]
        },
        162 => {
            let row: [i8; 16] = [5, 0, 1, 5, 4, 0, 7, 6, 11, -1, -1, -1, -1, -1, -1, -1];
            row[j]
        },
        163 => {
            let row: [i8; 16] = [11, 7, 6, 8, 3, 4, 3, 5, 4, 3, 1, 5, -1, -1, -1, -1];
            row[j]
        },
        164 => {
            let row: [i8; 16] = [9, 5, 4, 10, 1, 2, 7, 6, 11, -1, -1, -1, -1, -1, -1, -1];
            row[j]
        },
        165 => {
            let row: [i8; 16] = [6, 11, 7, 1, 2, 10, 0, 8, 3, 4, 9, 5, -1, -1, -1, -1];
            row[j]
        },
        166 => {
            let row: [i8; 16] = [7, 6, 11, 5, 4, 10, 4, 2, 10, 4, 0, 2, -1, -1, -1, -1];
            row[j]
        },
        167 => {
            let row: [i8; 16] = [3, 4, 8, 3, 5, 4, 3, 2, 5, 10, 5, 2, 11, 7, 6, -1];
            row[j]
        },
        168 => {
            let row: [i8; 16] = [7, 2, 3, 7, 6, 2, 5, 4, 9, -1, -1, -1, -1, -1, -1, -1];
            row[j]
        },
        169 => {
            let row: [i8; 16] = [9, 5, 4, 0, 8, 6, 0, 6, 2, 6, 8, 7, -1, -1, -1, -1];
            row[j]
        },
        170 => {
            let row: [i8; 16] = [3, 6, 2, 3, 7, 6, 1, 5, 0, 5, 4, 0, -1, -1, -1, -1];
            row[j]
        },
        171 => {
            let row: [i8; 16] = [6, 2, 8, 6, 8, 7, 2, 1, 8, 4, 8, 5, 1, 5, 8, -1];
            row[j]
        },
        172 => {
            let row: [i8; 16] = [9, 5, 4, 10, 1, 6, 1, 7, 6, 1, 3, 7, -1, -1, -1, -1];
            row[j]
        },
        173 => {
            let row: [i8; 16] = [1, 6, 10, 1, 7, 6, 1, 0, 7, 8, 7, 0, 9, 5, 4, -1];
            row[j]
        },
        174 => {
            let row: [i8; 16] = [4, 0, 10, 4, 10, 5, 0, 3, 10, 6, 10, 7, 3, 7, 10, -1];
            row[j]
        },
        _ => {
            let row: [i8; 16] = [7, 6, 10, 7, 10, 8, 5, 4, 10, 4, 8, 10, -1, -1, -1, -1];
            row[j]
        },
    }
}

fn tri_lookup_block_11(m: u8, j: usize) -> (r: i8)
    requires
        176 <= m < 192,
        j < 16,
    ensures
        r as int == tri_entry(m as int, j as int),
{
    proof {
        reveal(tri_entry);
    }
    match m {
        176 => {
            let row: [i8; 16] = [6, 9, 5, 6, 11, 9, 11, 8, 9, -1, -1, -1, -1, -1, -1, -1];
            row[j]
        },
        177 => {
            let row: [i8; 16] = [3, 6, 11, 0, 6, 3, 0, 5, 6, 0, 9, 5, -1, -1, -1, -1];
            row[j]
        },
        178 => {
            let row: [i8; 16] = [0, 11, 8, 0, 5, 11, 0, 1, 5, 5, 6, 11, -1, -1, -1, -1];
            row[j]
        },
        179 => {
            let row: [i8; 16] = [6, 11, 3, 6, 3, 5, 5, 3, 1, -1, -1, -1, -1, -1, -1, -1];
            row[j]
        },
        180 => {
            let row: [i8; 16] = [1, 2, 10, 9, 5, 11, 9, 11, 8, 11, 5, 6, -1, -1, -1, -1];
            row[j]
        },
        181 => {
            let row: [i8; 16] = [0, 11, 3, 0, 6, 11, 0, 9, 6, 5, 6, 9, 1, 2, 10, -1];
            row[j]
        },
        182 => {
            let row: [i8; 16] = [11, 8, 5, 11, 5, 6, 8, 0, 5, 10, 5, 2, 0, 2, 5, -1];
            row[j]
        },
        183 => {
            let row: [i8; 16] = [6, 11, 3, 6, 3, 5, 2, 10, 3, 10, 5, 3, -1, -1, -1, -1];
            row[j]
        },
        184 => {
            let row: [i8; 16] = [5, 8, 9, 5, 2, 8, 5, 6, 2, 3, 8, 2, -1, -1, -1, -1];
            row[j]
        },
        185 => {
            let row: [i8; 16] = [9, 5, 6, 9, 6, 0, 0, 6, 2, -1, -1, -1, -1, -1, -1, -1];
            row[j]
        },
        186 => {
            let row: [i8; 16] = [1, 5, 8, 1, 8, 0, 5, 6, 8, 3, 8, 2, 6, 2, 8, -1];
            row[j]
        },
        187 => {
            let row: [i8; 16] = [1, 5, 6, 2, 1, 6, -1, -1, -1, -1, -1, -1, -1, -1, -1, -1];
            row[j]
        },
        188 => {
            let row: [i8; 16] = [1, 3, 6, 1, 6, 10, 3, 8, 6, 5, 6, 9, 8, 9, 6, -1];
            row[j]
        },
        189 => {
            let row: [i8; 16] = [10, 1, 0, 10, 0, 6, 9, 5, 0, 5, 6, 0, -1, -1, -1, -1];
            row[j]
        },
        190 => {
            let row: [i8; 16] = [0, 3, 8, 5, 6, 10, -1, -1, -1, -1, -1, -1, -1, -1, -1, -1];
            row[j]
        },
        _ => {
            let row: [i8; 16] = [10, 5, 6, -1, -1, -1, -1, -1, -1, -1, -1, -1, -1, -1, -1, -1];
            row[j]
        },
    }
}

fn tri_lookup_block_12(m: u8, j: usize) -> (r: i8)
    requires
        192 <= m < 208,
        j < 16,
    ensures
        r as int == tri_entry(m as int, j as int),
{
    proof {
        reveal(tri_entry);
    }
    match m {
        192 => {
            let row: [i8; 16] = [11, 5, 10, 7, 5, 11, -1, -1, -1, -1, -1, -1, -1, -1, -1, -1];
            row[j]
        },
        193 => {
            let row: [i8; 16] = [11, 5, 10, 11, 7, 5, 8, 3, 0, -1, -1, -1, -1, -1, -1, -1];
            row[j]
        },
        194 => {
            let row: [i8; 16] = [5, 11, 7, 5, 10, 11, 1, 9, 0, -1, -1, -1, -1, -1, -1, -1];
            row[j]
        },
        195 => {
            let row: [i8; 16] = [10, 7, 5, 10, 11, 7, 9, 8, 1, 8, 3, 1, -1, -1, -1, -1];
            row[j]
        },
        196 => {
            let row: [i8; 16] = [11, 1, 2, 11, 7, 1, 7, 5, 1, -1, -1, -1, -1, -1, -1, -1];
            row[j]
        },
        197 => {
            let row: [i8; 16] = [0, 8, 3, 1, 2, 7, 1, 7, 5, 7, 2, 11, -1, -1, -1, -1];
            row[j]
        },
        198 => {
            let row: [i8; 16] = [9, 7, 5, 9, 2, 7, 9, 0, 2, 2, 11, 7, -1, -1, -1, -1];
            row[j]
        },
        199 => {
            let row: [i8; 16] = [7, 5, 2, 7, 2, 11, 5, 9, 2, 3, 2, 8, 9, 8, 2, -1];
            row[j]
        },
        200 => {
            let row: [i8; 16] = [2, 5, 10, 2, 3, 5, 3, 7, 5, -1, -1, -1, -1, -1, -1, -1];
            row[j]
        },
        201 => {
            let row: [i8; 16] = [8, 2, 0, 8, 5, 2, 8, 7, 5, 10, 2, 5, -1, -1, -1, -1];
            row[j]
        },
        202 => {
            let row: [i8; 16] = [9, 0, 1, 5, 10, 3, 5, 3, 7, 3, 10, 2, -1, -1, -1, -1];
            row[j]
        },
        203 => {
            let row: [i8; 16] = [9, 8, 2, 9, 2, 1, 8, 7, 2, 10, 2, 5, 7, 5, 2, -1];
            row[j]
        },
        204 => {
            let row: [i8; 16] = [1, 3, 5, 3, 7, 5, -1, -1, -1, -1, -1, -1, -1, -1, -1, -1];
            row[j]
        },
        205 => {
            let row: [i8; 16] = [0, 8, 7, 0, 7, 1, 1, 7, 5, -1, -1, -1, -1, -1, -1, -1];
            row[j]
        },
        206 => {
            let row: [i8; 16] = [9, 0, 3, 9, 3, 5, 5, 3, 7, -1, -1, -1, -1, -1, -1, -1];
            row[j]
        },
        _ => {
            let row: [i8; 16] = [9, 8, 7, 5, 9, 7, -1, -1, -1, -1, -1, -1, -1, -1, -1, -1];
            row[j]
        },
    }
}

fn tri_lookup_block_13(m: u8, j: usize) -> (r: i8)
    requires
        208 <= m < 224,
        j < 16,
    ensures
        r as int == tri_entry(m as int, j as int),
{
    proof {
        reveal(tri_entry);
    }
    match m {
        208 => {
            let row: [i8; 16] = [5, 8, 4, 5, 10, 8, 10, 11, 8, -1, -1, -1, -1, -1, -1, -1];
            row[j]
        },
        209 => {
            let row: [i8; 16] = [5, 0, 4, 5, 11, 0, 5, 10, 11, 11, 3, 0, -1, -1, -1, -1];
            row[j]
        },
        210 => {
            let row: [i8; 16] = [0, 1, 9, 8, 4, 10, 8, 10, 11, 10, 4, 5, -1, -1, -1, -1];
            row[j]
        },
        211 => {
            let row: [i8; 16] = [10, 11, 4, 10, 4, 5, 11, 3, 4, 9, 4, 1, 3, 1, 4, -1];
            row[j]
        },
        212 => {
            let row: [i8; 16] = [2, 5, 1, 2, 8, 5, 2, 11, 8, 4, 5, 8, -1, -1, -1, -1];
            row[j]
        },
        213 => {
            let row: [i8; 16] = [0, 4, 11, 0, 11, 3, 4, 5, 11, 2, 11, 1, 5, 1, 11, -1];
            row[j]
        },
        214 => {
            let row: [i8; 16] = [0, 2, 5, 0, 5, 9, 2, 11, 5, 4, 5, 8, 11, 8, 5, -1];
            row[j]
        },
        215 => {
            let row: [i8; 16] = [9, 4, 5, 2, 11, 3, -1, -1, -1, -1, -1, -1, -1, -1, -1, -1];
            row[j]
        },
        216 => {
            let row: [i8; 16] = [2, 5, 10, 3, 5, 2, 3, 4, 5, 3, 8, 4, -1, -1, -1, -1];
            row[j]
        },
        217 => {
            let row: [i8; 16] = [5, 10, 2, 5, 2, 4, 4, 2, 0, -1, -1, -1, -1, -1, -1, -1];
            row[j]
        },
        218 => {
            let row: [i8; 16] = [3, 10, 2, 3, 5, 10, 3, 8, 5, 4, 5, 8, 0, 1, 9, -1];
            row[j]
        },
        219 => {
            let row: [i8; 16] = [5, 10, 2, 5, 2, 4, 1, 9, 2, 9, 4, 2, -1, -1, -1, -1];
            row[j]
        },
        220 => {
            let row: [i8; 16] = [8, 4, 5, 8, 5, 3, 3, 5, 1, -1, -1, -1, -1, -1, -1, -1];
            row[j]
        },
        221 => {
            let row: [i8; 16] = [0, 4, 5, 1, 0, 5, -1, -1, -1, -1, -1, -1, -1, -1, -1, -1];
            row[j]
        },
        222 => {
            let row: [i8; 16] = [8, 4, 5, 8, 5, 3, 9, 0, 5, 0, 3, 5, -1, -1, -1, -1];
            row[j]
        },
        _ => {
            let row: [i8; 16] = [9, 4, 5, -1, -1, -1, -1, -1, -1, -1, -1, -1, -1, -1, -1, -1];
            row[j]
        },
    }
}

fn tri_lookup_block_14(m: u8, j: usize) -> (r: i8)
    requires
        224 <= m < 240,
        j < 16,
    ensures
        r as int == tri_entry(m as int, j as int),
{
    proof {
        reveal(tri_entry);
    }
    match m {
        224 => {
            let row: [i8; 16] = [4, 11, 7, 4, 9, 11, 9, 10, 11, -1, -1, -1, -1, -1, -1, -1];
            row[j]
        },
        225 => {
            let row: [i8; 16] = [0, 8, 3, 4, 9, 7, 9, 11, 7, 9, 10, 11, -1, -1, -1, -1];
            row[j]
        },
        226 => {
            let row: [i8; 16] = [1, 10, 11, 1, 11, 4, 1, 4, 0, 7, 4, 11, -1, -1, -1, -1];
            row[j]
        },
        227 => {
            let row: [i8; 16] = [3, 1, 4, 3, 4, 8, 1, 10, 4, 7, 4, 11, 10, 11, 4, -1];
            row[j]
        },
        228 => {
            let row: [i8; 16] = [4, 11, 7, 9, 11, 4, 9, 2, 11, 9, 1, 2, -1, -1, -1, -1];
            row[j]
        },
        229 => {
            let row: [i8; 16] = [9, 7, 4, 9, 11, 7, 9, 1, 11, 2, 11, 1, 0, 8, 3, -1];
            row[j]
        },
        230 => {
            let row: [i8; 16] = [11, 7, 4, 11, 4, 2, 2, 4, 0, -1, -1, -1, -1, -1, -1, -1];
            row[j]
        },
        231 => {
            let row: [i8; 16] = [11, 7, 4, 11, 4, 2, 8, 3, 4, 3, 2, 4, -1, -1, -1, -1];
            row[j]
        },
        232 => {
            let row: [i8; 16] = [2, 9, 10, 2, 7, 9, 2, 3, 7, 7, 4, 9, -1, -1, -1, -1];
            row[j]
        },
        233 => {
            let row: [i8; 16] = [9, 10, 7, 9, 7, 4, 10, 2, 7, 8, 7, 0, 2, 0, 7, -1];
            row[j]
        },
        234 => {
            let row: [i8; 16] = [3, 7, 10, 3, 10, 2, 7, 4, 10, 1, 10, 0, 4, 0, 10, -1];
            row[j]
        },
        235 => {
            let row: [i8; 16] = [1, 10, 2, 8, 7, 4, -1, -1, -1, -1, -1, -1, -1, -1, -1, -1];
            row[j]
        },
        236 => {
            let row: [i8; 16] = [4, 9, 1, 4, 1, 7, 7, 1, 3, -1, -1, -1, -1, -1, -1, -1];
            row[j]
        },
        237 => {
            let row: [i8; 16] = [4, 9, 1, 4, 1, 7, 0, 8, 1, 8, 7, 1, -1, -1, -1, -1];
            row[j]
        },
        238 => {
            let row: [i8; 16] = [4, 0, 3, 7, 4, 3, -1, -1, -1, -1, -1, -1, -1, -1, -1, -1];
            row[j]
        },
        _ => {
            let row: [i8; 16] = [4, 8, 7, -1, -1, -1, -1, -1, -1, -1, -1, -1, -1, -1, -1, -1];
            row[j]
        },
    }
}

fn tri_lookup_block_15(m: u8, j: usize) -> (r: i8)
    requires
        240 <= m < 256,
        j < 16,
    ensures
        r as int == tri_entry(m as int, j as int),
{
    proof {
        reveal(tri_entry);
    }
    match m {
        240 => {
            let row: [i8; 16] = [9, 10, 8, 10, 11, 8, -1, -1, -1, -1, -1, -1, -1, -1, -1, -1];
            row[j]
        },
        241 => {
            let row: [i8; 16] = [3, 0, 9, 3, 9, 11, 11, 9, 10, -1, -1, -1, -1, -1, -1, -1];
            row[j]
        },
        242 => {
            let row: [i8; 16] = [0, 1, 10, 0, 10, 8, 8, 10, 11, -1, -1, -1, -1, -1, -1, -1];
            row[j]
        },
        243 => {
            let row: [i8; 16] = [3, 1, 10, 11, 3, 10, -1, -1, -1, -1, -1, -1, -1, -1, -1, -1];
            row[j]
        },
        244 => {
            let row: [i8; 16] = [1, 2, 11, 1, 11, 9, 9, 11, 8, -1, -1, -1, -1, -1, -1, -1];
            row[j]
        },
        245 => {
            let row: [i8; 16] = [3, 0, 9, 3, 9, 11, 1, 2, 9, 2, 11, 9, -1, -1, -1, -1];
            row[j]
        },
        246 => {
            let row: [i8; 16] = [0, 2, 11, 8, 0, 11, -1, -1, -1, -1, -1, -1, -1, -1, -1, -1];
            row[j]
        },
        247 => {
            let row: [i8; 16] = [3, 2, 11, -1, -1, -1, -1, -1, -1, -1, -1, -1, -1, -1, -1, -1];
            row[j]
        },
        248 => {
            let row: [i8; 16] = [2, 3, 8, 2, 8, 10, 10, 8, 9, -1, -1, -1, -1, -1, -1, -1];
            row[j]
        },
        249 => {
            let row: [i8; 16] = [9, 10, 2, 0, 9, 2, -1, -1, -1, -1, -1, -1, -1, -1, -1, -1];
            row[j]
        },
        250 => {
            let row: [i8; 16] = [2, 3, 8, 2, 8, 10, 0, 1, 8, 1, 10, 8, -1, -1, -1, -1];
            row[j]
        },
        251 => {
            let row: [i8; 16] = [1, 10, 2, -1, -1, -1, -1, -1, -1, -1, -1, -1, -1, -1, -1, -1];
            row[j]
        },
        252 => {
            let row: [i8; 16] = [1, 3, 8, 9, 1, 8, -1, -1, -1, -1, -1, -1, -1, -1, -1, -1];
            row[j]
        },
        253 => {
            let row: [i8; 16] = [0, 9, 1, -1, -1, -1, -1, -1, -1, -1, -1, -1, -1, -1, -1, -1];
            row[j]
        },
        254 => {
            let row: [i8; 16] = [0, 3, 8, -1, -1, -1, -1, -1, -1, -1, -1, -1, -1, -1, -1, -1];
            row[j]
        },
        _ => {
            let row: [i8; 16] = [-1, -1, -1, -1, -1, -1, -1, -1, -1, -1, -1, -1, -1, -1, -1, -1];
            row[j]
        },
    }
}

/// Executable lookup into the triangulation table.
pub fn tri_table_entry(m: u8, j: usize) -> (r: i8)
    requires
        j < 16,
    ensures
        r as int == tri_entry(m as int, j as int),
{
    if m < 16 {
        tri_lookup_block_0(m, j)
    } else if m < 32 {
        tri_lookup_block_1(m, j)
    } else if m < 48 {
        tri_lookup_block_2(m, j)
    } else if m < 64 {
        tri_lookup_block_3(m, j)
    } else if m < 80 {
        tri_lookup_block_4(m, j)
    } else if m < 96 {
        tri_lookup_block_5(m, j)
    } else if m < 112 {
        tri_lookup_block_6(m, j)
    } else if m < 128 {
        tri_lookup_block_7(m, j)
    } else if m < 144 {
        tri_lookup_block_8(m, j)
    } else if m < 160 {
        tri_lookup_block_9(m, j)
    } else if m < 176 {
        tri_lookup_block_10(m, j)
    } else if m < 192 {
        tri_lookup_block_11(m, j)
    } else if m < 208 {
        tri_lookup_block_12(m, j)
    } else if m < 224 {
        tri_lookup_block_13(m, j)
    } else if m < 240 {
        tri_lookup_block_14(m, j)
    } else {
        tri_lookup_block_15(m, j)
    }
}

} // verus!
