//! Topology of the seabed heightfield: a square grid of vertices one unit
//! apart in the X/Z plane, centred on the origin, and the triangle list that
//! covers it. Heights come from a noise field and are filled in by the caller.
use vstd::prelude::*;
use vstd::arithmetic::div_mod::lemma_fundamental_div_mod_converse;

verus! {

/// Radius of the seabed grid the game generates.
pub const RADIUS: u32 = 100;

/// Largest radius whose grid vertices can all be addressed by `u32` indices:
/// `(2 * 32766 + 3)^2` is just under `2^32`.
pub const MAX_RADIUS: u32 = 32766;

/// Number of vertices along one side of the grid of the given radius.
pub open spec fn side_of(radius: nat) -> nat {
    2 * radius + 3
}

/// Number of grid cells (quads) along one side of the grid.
pub open spec fn cells_of(radius: nat) -> nat {
    2 * radius + 2
}

/// Number of vertices of the grid.
pub open spec fn vertex_count_of(radius: nat) -> nat {
    side_of(radius) * side_of(radius)
}

/// Number of triangles of the grid: two per cell.
pub open spec fn triangle_count_of(radius: nat) -> nat {
    2 * (cells_of(radius) * cells_of(radius))
}

/// Entry `j` (0..6) of the two triangles that cover cell `(x, z)` of a grid
/// with `side` vertices per row. With `i = x * side + z` the first triangle is
/// `(i, i + 1, i + side + 1)` and the second `(i, i + side + 1, i + side)`.
pub open spec fn quad_entry(side: int, x: int, z: int, j: int) -> int {
    let i = x * side + z;
    if j == 0 {
        i
    } else if j == 1 {
        i + 1
    } else if j == 2 {
        i + side + 1
    } else if j == 3 {
        i
    } else if j == 4 {
        i + side + 1
    } else {
        i + side
    }
}

/// Entry `k` of the index list of the grid: cells are taken in row-major
/// order, six entries each.
pub open spec fn index_entry(radius: nat, k: int) -> int {
    let cells = cells_of(radius) as int;
    let c = k / 6;
    quad_entry(side_of(radius) as int, c / cells, c % cells, k % 6)
}

/// Planar coordinates `(x, z)` of vertex `k` of the grid: vertices are laid
/// out row-major by `x`, and both coordinates run from `-(radius + 1)` to
/// `radius + 1`.
pub open spec fn vertex_coord(radius: nat, k: int) -> (int, int) {
    let side = side_of(radius) as int;
    let half = radius + 1;
    (k / side - half, k % side - half)
}

/// The index list addresses cell `(x, z)` at entries `6 * (x * cells + z)`
/// through `6 * (x * cells + z) + 5`, in the winding of `quad_entry`.
pub proof fn lemma_quad_entries(radius: nat, x: int, z: int, j: int)
    requires
        0 <= x < cells_of(radius),
        0 <= z < cells_of(radius),
        0 <= j < 6,
    ensures
        index_entry(radius, 6 * (x * cells_of(radius) + z) + j) == quad_entry(
            side_of(radius) as int,
            x,
            z,
            j,
        ),
{
    let cells = cells_of(radius) as int;
    let c = x * cells + z;
    lemma_fundamental_div_mod_converse(6 * c + j, 6, c, j);
    lemma_fundamental_div_mod_converse(c, cells, x, z);
}

/// The triangles of cell `(x, z)` join the grid vertices whose planar
/// coordinates are `(x, z)`, `(x, z + 1)`, `(x + 1, z + 1)` and
/// `(x, z)`, `(x + 1, z + 1)`, `(x + 1, z)`, counted from the grid's corner at
/// `(-(radius + 1), -(radius + 1))`: each cell is a unit square split along
/// its diagonal.
pub proof fn lemma_cell_corners(radius: nat, x: int, z: int)
    requires
        0 <= x < cells_of(radius),
        0 <= z < cells_of(radius),
    ensures
        ({
            let s = side_of(radius) as int;
            let h = radius + 1;
            &&& vertex_coord(radius, quad_entry(s, x, z, 0)) == (x - h, z - h)
            &&& vertex_coord(radius, quad_entry(s, x, z, 1)) == (x - h, z + 1 - h)
            &&& vertex_coord(radius, quad_entry(s, x, z, 2)) == (x + 1 - h, z + 1 - h)
            &&& vertex_coord(radius, quad_entry(s, x, z, 3)) == (x - h, z - h)
            &&& vertex_coord(radius, quad_entry(s, x, z, 4)) == (x + 1 - h, z + 1 - h)
            &&& vertex_coord(radius, quad_entry(s, x, z, 5)) == (x + 1 - h, z - h)
        }),
{
    let s = side_of(radius) as int;
    assert((x + 1) * s == x * s + s) by (nonlinear_arith);
    lemma_fundamental_div_mod_converse(x * s + z, s, x, z);
    lemma_fundamental_div_mod_converse(x * s + z + 1, s, x, z + 1);
    lemma_fundamental_div_mod_converse(x * s + z + s + 1, s, x + 1, z + 1);
    lemma_fundamental_div_mod_converse(x * s + z + s, s, x + 1, z);
}

/// Every entry of a cell's triangles addresses a vertex of the grid.
proof fn lemma_quad_entry_bounds(radius: nat, x: int, z: int, j: int)
    requires
        0 <= x < cells_of(radius),
        0 <= z < cells_of(radius),
        0 <= j < 6,
    ensures
        0 <= quad_entry(side_of(radius) as int, x, z, j),
        quad_entry(side_of(radius) as int, x, z, j) < vertex_count_of(radius),
{
    let side = side_of(radius) as int;
    assert(0 <= x * side + z && x * side + z + side + 1 <= side * side - 1) by (nonlinear_arith)
        requires
            0 <= x <= side - 2,
            0 <= z <= side - 2,
            side >= 3,
    ;
}

/// Triangle index list of the grid of the given radius: two triangles per
/// cell, cells in row-major order, as `quad_entry` gives them. There are
/// `2 * (2 * radius + 2)^2` triangles, and every entry addresses one of the
/// `(2 * radius + 3)^2` vertices.
pub fn terrain_indices(radius: u32) -> (r: Vec<u32>)
    requires
        radius <= MAX_RADIUS,
    ensures
        r@.len() == 6 * ((2 * radius + 2) * (2 * radius + 2)),
        forall|k: int| 0 <= k < r@.len() ==> r@[k] == index_entry(radius as nat, k),
        forall|k: int|
            0 <= k < r@.len() ==> r@[k] < (2 * radius + 3) * (2 * radius + 3),
{
    let ghost rad = radius as nat;
    proof {
        let s = side_of(rad) as int;
        assert(s * s <= 0x1_0000_0000) by (nonlinear_arith)
            requires
                0 <= s <= 0xffff,
        ;
    }
    let side: u32 = 2 * radius + 3;
    let cells: u32 = side - 1;
    let ghost ci = cells as int;
    let mut out: Vec<u32> = Vec::new();
    let mut x: u32 = 0;
    while x < cells
        invariant
            side == side_of(rad),
            cells == cells_of(rad),
            ci == cells,
            radius == rad,
            vertex_count_of(rad) <= u32::MAX + 1,
            x <= cells,
            out@.len() == 6 * (x * ci),
            forall|k: int| 0 <= k < out@.len() ==> out@[k] == index_entry(rad, k),
            forall|k: int| 0 <= k < out@.len() ==> out@[k] < vertex_count_of(rad),
        decreases cells - x,
    {
        let mut z: u32 = 0;
        while z < cells
            invariant
                side == side_of(rad),
                cells == cells_of(rad),
                ci == cells,
                radius == rad,
                vertex_count_of(rad) <= u32::MAX + 1,
                    x < cells,
                z <= cells,
                out@.len() == 6 * (x * ci + z),
                forall|k: int| 0 <= k < out@.len() ==> out@[k] == index_entry(rad, k),
                forall|k: int| 0 <= k < out@.len() ==> out@[k] < vertex_count_of(rad),
            decreases cells - z,
        {
            let ghost c = x * ci + z;
            proof {
                assert(x * side + z + side + 1 <= side * side - 1) by (nonlinear_arith)
                    requires
                        x <= side - 2,
                        z <= side - 2,
                        side >= 3,
                ;
            }
            let i: u32 = x * side + z;
            let ghost prev = out@;
            out.push(i);
            out.push(i + 1);
            out.push(i + side + 1);
            out.push(i);
            out.push(i + side + 1);
            out.push(i + side);
            proof {
                assert forall|k: int| 0 <= k < out@.len() implies out@[k] == index_entry(rad, k)
                    && out@[k] < vertex_count_of(rad) by {
                    if k >= 6 * c {
                        let j = k - 6 * c;
                        lemma_quad_entries(rad, x as int, z as int, j);
                        lemma_quad_entry_bounds(rad, x as int, z as int, j);
                        assert(out@ == prev.push(i).push((i + 1) as u32).push(
                            (i + side + 1) as u32,
                        ).push(i).push((i + side + 1) as u32).push((i + side) as u32));
                        assert(out@[k] == quad_entry(side as int, x as int, z as int, j));
                    }
                }
            }
            z = z + 1;
        }
        proof {
            assert((x + 1) * ci == x * ci + ci) by (nonlinear_arith);
        }
        x = x + 1;
    }
    proof {
        assert(6 * (cells * ci) == 6 * ((2 * radius + 2) * (2 * radius + 2)));
        assert(vertex_count_of(rad) == (2 * radius + 3) * (2 * radius + 3));
    }
    out
}

/// Planar coordinates of the grid's vertices, row-major by `x`: entry `k` is
/// `vertex_coord(radius, k)`, and there are `(2 * radius + 3)^2` of them.
pub fn grid_coordinates(radius: u32) -> (r: Vec<(i32, i32)>)
    requires
        radius < i32::MAX,
    ensures
        r@.len() == (2 * radius + 3) * (2 * radius + 3),
        forall|k: int|
            0 <= k < r@.len() ==> (r@[k].0 as int, r@[k].1 as int) == vertex_coord(
                radius as nat,
                k,
            ),
{
    let ghost rad = radius as nat;
    let side: u32 = 2 * radius + 3;
    let ghost si = side as int;
    let half: i32 = (radius + 1) as i32;
    let mut out: Vec<(i32, i32)> = Vec::new();
    let mut x: u32 = 0;
    while x < side
        invariant
            side == side_of(rad),
            si == side,
            half == rad + 1,
            radius == rad,
            rad < i32::MAX,
            x <= side,
            out@.len() == x * si,
            forall|k: int|
                0 <= k < out@.len() ==> (out@[k].0 as int, out@[k].1 as int) == vertex_coord(
                    rad,
                    k,
                ),
        decreases side - x,
    {
        let mut z: u32 = 0;
        while z < side
            invariant
                side == side_of(rad),
                si == side,
                half == rad + 1,
                radius == rad,
                rad < i32::MAX,
                    x < side,
                z <= side,
                out@.len() == x * si + z,
                forall|k: int|
                    0 <= k < out@.len() ==> (out@[k].0 as int, out@[k].1 as int)
                        == vertex_coord(rad, k),
            decreases side - z,
        {
            proof {
                lemma_fundamental_div_mod_converse(x * si + z, si, x as int, z as int);
                assert(x * si + z + 1 <= si * si) by (nonlinear_arith)
                    requires
                        x < si,
                        z < si,
                ;
            }
            let cx: i32 = (x as i64 - half as i64) as i32;
            let cz: i32 = (z as i64 - half as i64) as i32;
            out.push((cx, cz));
            z = z + 1;
        }
        proof {
            assert((x + 1) * si == x * si + si) by (nonlinear_arith);
        }
        x = x + 1;
    }
    out
}

} // verus!
