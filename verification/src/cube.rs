//! Geometry of a single voxel cell: the numbering of its 8 corners and of the
//! 12 axis-aligned edges connecting them.
//!
//! Corners are numbered with the bottom face (z = 0) as the cycle 0-1-2-3 and
//! the top face (z = 1) as the cycle 4-5-6-7, corner `i + 4` directly above
//! corner `i`:
//!
//! 0:(0,0,0)  1:(1,0,0)  2:(1,1,0)  3:(0,1,0)
//! 4:(0,0,1)  5:(1,0,1)  6:(1,1,1)  7:(0,1,1)
//!
//! Edges 0-3 ring the bottom face, 4-7 the top face, and 8-11 are the
//! verticals. Each edge is oriented from its lower-coordinate corner to its
//! higher-coordinate corner, so that the two cells sharing a grid edge
//! interpolate it in the same direction and therefore produce bit-identical
//! crossing points.

use vstd::prelude::*;

verus! {

/// x offset (0 or 1) of corner `i` within its cell.
pub open spec fn corner_dx(i: int) -> int {
    if i == 1 || i == 2 || i == 5 || i == 6 {
        1
    } else {
        0
    }
}

/// y offset (0 or 1) of corner `i` within its cell.
pub open spec fn corner_dy(i: int) -> int {
    if i == 2 || i == 3 || i == 6 || i == 7 {
        1
    } else {
        0
    }
}

/// z offset (0 or 1) of corner `i` within its cell.
pub open spec fn corner_dz(i: int) -> int {
    if 4 <= i {
        1
    } else {
        0
    }
}

/// Lower-coordinate endpoint of edge `e`.
pub open spec fn edge_corner_a(e: int) -> int {
    if e == 0 {
        0
    } else if e == 1 {
        1
    } else if e == 2 {
        3
    } else if e == 3 {
        0
    } else if e == 4 {
        4
    } else if e == 5 {
        5
    } else if e == 6 {
        7
    } else if e == 7 {
        4
    } else if e == 8 {
        0
    } else if e == 9 {
        1
    } else if e == 10 {
        2
    } else {
        3
    }
}

/// Higher-coordinate endpoint of edge `e`.
pub open spec fn edge_corner_b(e: int) -> int {
    if e == 0 {
        1
    } else if e == 1 {
        2
    } else if e == 2 {
        2
    } else if e == 3 {
        3
    } else if e == 4 {
        5
    } else if e == 5 {
        6
    } else if e == 6 {
        6
    } else if e == 7 {
        7
    } else if e == 8 {
        4
    } else if e == 9 {
        5
    } else if e == 10 {
        6
    } else {
        7
    }
}

/// Corner offsets of corner `i`, as executable values.
pub fn corner_offset(i: u8) -> (r: (u8, u8, u8))
    requires
        i < 8,
    ensures
        r.0 == corner_dx(i as int),
        r.1 == corner_dy(i as int),
        r.2 == corner_dz(i as int),
{
    let dx: u8 = if i == 1 || i == 2 || i == 5 || i == 6 {
        1
    } else {
        0
    };
    let dy: u8 = if i == 2 || i == 3 || i == 6 || i == 7 {
        1
    } else {
        0
    };
    let dz: u8 = if i >= 4 {
        1
    } else {
        0
    };
    (dx, dy, dz)
}

/// Endpoints of edge `e`, as executable values.
pub fn edge_corners(e: u8) -> (r: (u8, u8))
    requires
        e < 12,
    ensures
        r.0 == edge_corner_a(e as int),
        r.1 == edge_corner_b(e as int),
{
    match e {
        0 => (0, 1),
        1 => (1, 2),
        2 => (3, 2),
        3 => (0, 3),
        4 => (4, 5),
        5 => (5, 6),
        6 => (7, 6),
        7 => (4, 7),
        8 => (0, 4),
        9 => (1, 5),
        10 => (2, 6),
        _ => (3, 7),
    }
}

/// Every edge is a unit segment of the corner lattice: its endpoints are
/// valid corners, each coordinate of the higher endpoint is equal to or one
/// more than that of the lower endpoint, and exactly one axis differs.
pub proof fn lemma_edge_shape(e: int)
    requires
        0 <= e < 12,
    ensures
        0 <= edge_corner_a(e) < 8,
        0 <= edge_corner_b(e) < 8,
        edge_corner_a(e) != edge_corner_b(e),
        corner_dx(edge_corner_a(e)) <= corner_dx(edge_corner_b(e)) <= corner_dx(edge_corner_a(e)) + 1,
        corner_dy(edge_corner_a(e)) <= corner_dy(edge_corner_b(e)) <= corner_dy(edge_corner_a(e)) + 1,
        corner_dz(edge_corner_a(e)) <= corner_dz(edge_corner_b(e)) <= corner_dz(edge_corner_a(e)) + 1,
        corner_dx(edge_corner_b(e)) - corner_dx(edge_corner_a(e)) + corner_dy(edge_corner_b(e))
            - corner_dy(edge_corner_a(e)) + corner_dz(edge_corner_b(e)) - corner_dz(
            edge_corner_a(e),
        ) == 1,
{
}

} // verus!
