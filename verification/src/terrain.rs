//! Topology of the terrain mesh: a square grid of `(subdiv + 1)²` vertices
//! laid out row by row (row `iz`, column `ix` at index `iz * (subdiv + 1) +
//! ix`), split into two counter-clockwise triangles per grid cell. The
//! heights and texture coordinates of the vertices are computed elsewhere;
//! the same index buffer feeds both the render mesh and the trimesh collider.

use vstd::prelude::*;

verus! {

/// Number of vertices of a grid with `subdiv` cells per side.
pub open spec fn grid_vertex_count(subdiv: nat) -> nat {
    (subdiv + 1) * (subdiv + 1)
}

/// Index of the vertex in column `ix` and row `iz`.
pub open spec fn grid_vertex(subdiv: nat, ix: nat, iz: nat) -> nat {
    iz * (subdiv + 1) + ix
}

/// The three vertex indices of triangle `k`: cell `q = k / 2` is in row
/// `q / subdiv` and column `q % subdiv`; its corners are `i0` (ix, iz),
/// `i1` (ix + 1, iz), `i2` (ix, iz + 1), `i3` (ix + 1, iz + 1), and the cell
/// is split into `(i0, i2, i1)` and `(i1, i2, i3)`.
pub open spec fn grid_triangle(subdiv: nat, k: nat) -> (nat, nat, nat) {
    let q = k / 2;
    let ix = q % subdiv;
    let iz = q / subdiv;
    let i0 = grid_vertex(subdiv, ix, iz);
    let i1 = i0 + 1;
    let i2 = i0 + subdiv + 1;
    let i3 = i2 + 1;
    if k % 2 == 0 {
        (i0, i2, i1)
    } else {
        (i1, i2, i3)
    }
}

/// Whether `subdiv` cells per side keep every vertex index and the triangle
/// count within `u32`.
pub open spec fn grid_fits(subdiv: nat) -> bool {
    &&& grid_vertex_count(subdiv) <= u32::MAX
    &&& 2 * subdiv * subdiv <= u32::MAX
}

/// `tris` is the triangle list of the grid with `subdiv` cells per side.
pub open spec fn is_grid_triangle_list(subdiv: nat, tris: Seq<[u32; 3]>) -> bool {
    &&& tris.len() == 2 * subdiv * subdiv
    &&& forall|k: int|
        0 <= k < tris.len() ==> {
            let t = grid_triangle(subdiv, k as nat);
            &&& (#[trigger] tris[k])[0] as nat == t.0
            &&& tris[k][1] as nat == t.1
            &&& tris[k][2] as nat == t.2
        }
}

proof fn lemma_cell_coords(subdiv: nat, ix: nat, iz: nat)
    requires
        ix < subdiv,
    ensures
        (iz * subdiv + ix) / subdiv == iz,
        (iz * subdiv + ix) % subdiv == ix,
        (2 * (iz * subdiv + ix)) / 2 == iz * subdiv + ix,
        (2 * (iz * subdiv + ix) + 1) / 2 == iz * subdiv + ix,
        (2 * (iz * subdiv + ix)) % 2 == 0,
        (2 * (iz * subdiv + ix) + 1) % 2 == 1,
{
    vstd::arithmetic::div_mod::lemma_fundamental_div_mod_converse(
        (iz * subdiv + ix) as int,
        subdiv as int,
        iz as int,
        ix as int,
    );
}

/// Builds the triangle list of the terrain grid with `subdiv` cells per
/// side, cell by cell in row-major order.
pub fn grid_triangles(subdiv: u32) -> (tris: Vec<[u32; 3]>)
    requires
        grid_fits(subdiv as nat),
    ensures
        is_grid_triangle_list(subdiv as nat, tris@),
        tris@.len() == 2 * subdiv * subdiv,
        forall|k: int|
            0 <= k < tris@.len() ==> {
                let t = grid_triangle(subdiv as nat, k as nat);
                &&& (#[trigger] tris@[k])[0] as nat == t.0
                &&& tris@[k][1] as nat == t.1
                &&& tris@[k][2] as nat == t.2
            },
{
    let ghost s = subdiv as nat;
    assert(subdiv + 1 <= (subdiv + 1) * (subdiv + 1)) by (nonlinear_arith);
    let verts_per_side: u32 = subdiv + 1;
    let mut tris: Vec<[u32; 3]> = Vec::new();
    let mut row_base: u32 = 0;
    let mut iz: u32 = 0;
    while iz < subdiv
        invariant
            verts_per_side == subdiv + 1,
            grid_fits(s),
            s == subdiv,
            iz <= subdiv,
            row_base == iz * verts_per_side,
            tris@.len() == 2 * (iz * subdiv),
            forall|k: int|
                0 <= k < tris@.len() ==> {
                    let t = grid_triangle(s, k as nat);
                    &&& (#[trigger] tris@[k])[0] as nat == t.0
                    &&& tris@[k][1] as nat == t.1
                    &&& tris@[k][2] as nat == t.2
                },
        decreases subdiv - iz,
    {
        assert((iz + 1) * verts_per_side + verts_per_side <= verts_per_side * verts_per_side)
            by (nonlinear_arith)
            requires
                iz + 1 <= subdiv,
                verts_per_side == subdiv + 1,
        ;
        assert((iz + 1) * verts_per_side == iz * verts_per_side + verts_per_side) by (nonlinear_arith);
        assert((iz + 1) * subdiv == iz * subdiv + subdiv) by (nonlinear_arith);
        let mut ix: u32 = 0;
        while ix < subdiv
            invariant
                verts_per_side == subdiv + 1,
                grid_fits(s),
                s == subdiv,
                iz < subdiv,
                ix <= subdiv,
                row_base == iz * verts_per_side,
                (iz + 1) * verts_per_side + verts_per_side <= verts_per_side * verts_per_side,
                verts_per_side * verts_per_side <= u32::MAX,
                (iz + 1) * verts_per_side == iz * verts_per_side + verts_per_side,
                tris@.len() == 2 * (iz * subdiv + ix),
                forall|k: int|
                    0 <= k < tris@.len() ==> {
                        let t = grid_triangle(s, k as nat);
                        &&& (#[trigger] tris@[k])[0] as nat == t.0
                        &&& tris@[k][1] as nat == t.1
                        &&& tris@[k][2] as nat == t.2
                    },
            decreases subdiv - ix,
        {
            let i0 = row_base + ix;
            let i1 = i0 + 1;
            let i2 = i0 + verts_per_side;
            let i3 = i2 + 1;
            proof {
                lemma_cell_coords(s, ix as nat, iz as nat);
            }
            let ghost k0 = tris@.len();
            tris.push([i0, i2, i1]);
            tris.push([i1, i2, i3]);
            proof {
                assert(k0 == 2 * (iz * subdiv + ix));
                let t0 = grid_triangle(s, k0 as nat);
                let t1 = grid_triangle(s, (k0 + 1) as nat);
                assert(t0 == (i0 as nat, i2 as nat, i1 as nat));
                assert(t1 == (i1 as nat, i2 as nat, i3 as nat));
                assert forall|k: int| 0 <= k < tris@.len() implies {
                    let t = grid_triangle(s, k as nat);
                    &&& (#[trigger] tris@[k])[0] as nat == t.0
                    &&& tris@[k][1] as nat == t.1
                    &&& tris@[k][2] as nat == t.2
                } by {
                    if k == k0 {
                        assert(tris@[k] == [i0, i2, i1]);
                    } else if k == k0 + 1 {
                        assert(tris@[k] == [i1, i2, i3]);
                    }
                }
            }
            ix = ix + 1;
        }
        row_base = row_base + verts_per_side;
        iz = iz + 1;
    }
    assert(2 * (subdiv * subdiv) == 2 * subdiv * subdiv) by (nonlinear_arith);
    tris
}

/// Flattens a triangle list into the index buffer of the render mesh: the
/// three indices of each triangle, triangle after triangle.
pub fn flatten_triangles(tris: &Vec<[u32; 3]>) -> (flat: Vec<u32>)
    requires
        tris@.len() * 3 <= usize::MAX,
    ensures
        flat@.len() == 3 * tris@.len(),
        forall|i: int| 0 <= i < flat@.len() ==> #[trigger] flat@[i] == tris@[i / 3][i % 3],
{
    let mut flat: Vec<u32> = Vec::new();
    let mut k: usize = 0;
    while k < tris.len()
        invariant
            k <= tris@.len(),
            tris@.len() * 3 <= usize::MAX,
            flat@.len() == 3 * k,
            forall|i: int| 0 <= i < flat@.len() ==> #[trigger] flat@[i] == tris@[i / 3][i % 3],
        decreases tris@.len() - k,
    {
        let t = tris[k];
        flat.push(t[0]);
        flat.push(t[1]);
        flat.push(t[2]);
        proof {
            assert forall|i: int| 0 <= i < flat@.len() implies #[trigger] flat@[i] == tris@[i
                / 3][i % 3] by {
                if i >= 3 * k {
                    assert(i / 3 == k);
                }
            }
        }
        k = k + 1;
    }
    flat
}

/// Cell `k / 2` of a grid with `subdiv` cells per side lies in row
/// `k / 2 / subdiv < subdiv` and column `k / 2 % subdiv < subdiv`.
proof fn lemma_cell_in_grid(subdiv: nat, k: nat)
    requires
        k < 2 * subdiv * subdiv,
    ensures
        subdiv > 0,
        (k / 2) / subdiv < subdiv,
        (k / 2) % subdiv < subdiv,
{
    let q = k / 2;
    assert(subdiv > 0 && k < 2 * (subdiv * subdiv)) by (nonlinear_arith)
        requires
            k < 2 * subdiv * subdiv,
    ;
    assert(q < subdiv * subdiv);
    vstd::arithmetic::div_mod::lemma_fundamental_div_mod(q as int, subdiv as int);
    vstd::arithmetic::div_mod::lemma_mod_bound(q as int, subdiv as int);
    let iz = q / subdiv;
    let ix = q % subdiv;
    assert(iz < subdiv) by (nonlinear_arith)
        requires
            q == subdiv * iz + ix,
            ix >= 0,
            q < subdiv * subdiv,
            subdiv > 0,
    ;
}

/// Every index of the grid's triangle list names a vertex of the grid.
pub proof fn lemma_grid_indices_in_bounds(subdiv: nat, k: nat)
    requires
        k < 2 * subdiv * subdiv,
    ensures
        grid_triangle(subdiv, k).0 < grid_vertex_count(subdiv),
        grid_triangle(subdiv, k).1 < grid_vertex_count(subdiv),
        grid_triangle(subdiv, k).2 < grid_vertex_count(subdiv),
{
    lemma_cell_in_grid(subdiv, k);
    let q = k / 2;
    let ix = q % subdiv;
    let iz = q / subdiv;
    assert(iz * (subdiv + 1) + ix + subdiv + 2 < (subdiv + 1) * (subdiv + 1)) by (nonlinear_arith)
        requires
            iz + 1 <= subdiv,
            ix + 1 <= subdiv,
    ;
}

/// The Y component of `(b - a) x (c - a)` for grid points `(x, z)` =
/// `(column, row)` on flat ground: positive when the triangle `a, b, c`
/// faces up (+Y).
pub open spec fn upward_area2(a: (int, int), b: (int, int), c: (int, int)) -> int {
    (b.1 - a.1) * (c.0 - a.0) - (b.0 - a.0) * (c.1 - a.1)
}

/// The grid point `(column, row)` of vertex `v`.
pub open spec fn grid_point(subdiv: nat, v: nat) -> (int, int) {
    ((v % (subdiv + 1)) as int, (v / (subdiv + 1)) as int)
}

/// Every triangle of the grid is a half cell wound so that its normal points
/// up (+Y) on flat ground.
pub proof fn lemma_grid_triangles_face_up(subdiv: nat, k: nat)
    requires
        k < 2 * subdiv * subdiv,
    ensures
        upward_area2(
            grid_point(subdiv, grid_triangle(subdiv, k).0),
            grid_point(subdiv, grid_triangle(subdiv, k).1),
            grid_point(subdiv, grid_triangle(subdiv, k).2),
        ) == 1,
{
    lemma_cell_in_grid(subdiv, k);
    let q = k / 2;
    let ix = q % subdiv;
    let iz = q / subdiv;
    let w = subdiv + 1;
    let i0 = iz * w + ix;
    assert(i0 == grid_vertex(subdiv, ix, iz));
    assert(i0 + w == (iz + 1) * w + ix) by (nonlinear_arith)
        requires
            i0 == iz * w + ix,
    ;
    vstd::arithmetic::div_mod::lemma_fundamental_div_mod_converse(i0 as int, w as int, iz as int, ix as int);
    vstd::arithmetic::div_mod::lemma_fundamental_div_mod_converse(
        (i0 + 1) as int, w as int, iz as int, (ix + 1) as int);
    vstd::arithmetic::div_mod::lemma_fundamental_div_mod_converse(
        (i0 + w) as int, w as int, (iz + 1) as int, ix as int);
    vstd::arithmetic::div_mod::lemma_fundamental_div_mod_converse(
        (i0 + w + 1) as int, w as int, (iz + 1) as int, (ix + 1) as int);
    let p0 = grid_point(subdiv, i0);
    let p1 = grid_point(subdiv, i0 + 1);
    let p2 = grid_point(subdiv, i0 + w);
    let p3 = grid_point(subdiv, i0 + w + 1);
    assert(p0 == (ix as int, iz as int));
    assert(p1 == ((ix + 1) as int, iz as int));
    assert(p2 == (ix as int, (iz + 1) as int));
    assert(p3 == ((ix + 1) as int, (iz + 1) as int));
    if k % 2 == 0 {
        assert(grid_triangle(subdiv, k) == (i0, i0 + w, i0 + 1));
        assert(upward_area2(p0, p2, p1) == 1) by (nonlinear_arith)
            requires
                p0 == (ix as int, iz as int),
                p1 == ((ix + 1) as int, iz as int),
                p2 == (ix as int, (iz + 1) as int),
        ;
    } else {
        assert(grid_triangle(subdiv, k) == (i0 + 1, i0 + w, i0 + w + 1));
        assert(upward_area2(p1, p2, p3) == 1) by (nonlinear_arith)
            requires
                p1 == ((ix + 1) as int, iz as int),
                p2 == (ix as int, (iz + 1) as int),
                p3 == ((ix + 1) as int, (iz + 1) as int),
        ;
    }
}

/// Corner `(ix + dx, iz + dz)` of cell `(ix, iz)`, as a vertex index.
pub open spec fn cell_corner(subdiv: nat, ix: nat, iz: nat, dx: nat, dz: nat) -> nat {
    (iz + dz) * (subdiv + 1) + ix + dx
}

/// The vertices of a triangle, as a set.
pub open spec fn triangle_vertices(t: (nat, nat, nat)) -> Set<nat> {
    set![t.0, t.1, t.2]
}

/// The two triangles of each cell tile it: triangles `2q` and `2q + 1` of
/// cell `q = iz * subdiv + ix` are three distinct corners each, the first
/// holds the cell's (ix, iz) corner and the second its (ix + 1, iz + 1)
/// corner, they share exactly the diagonal between (ix + 1, iz) and
/// (ix, iz + 1), and together they use the cell's four corners.
pub proof fn lemma_cell_tiled_by_two_triangles(subdiv: nat, ix: nat, iz: nat)
    requires
        ix < subdiv,
        iz < subdiv,
    ensures
        ({
            let q = iz * subdiv + ix;
            let a = grid_triangle(subdiv, 2 * q);
            let b = grid_triangle(subdiv, 2 * q + 1);
            let c00 = cell_corner(subdiv, ix, iz, 0, 0);
            let c10 = cell_corner(subdiv, ix, iz, 1, 0);
            let c01 = cell_corner(subdiv, ix, iz, 0, 1);
            let c11 = cell_corner(subdiv, ix, iz, 1, 1);
            &&& a.0 != a.1 && a.1 != a.2 && a.0 != a.2
            &&& b.0 != b.1 && b.1 != b.2 && b.0 != b.2
            &&& triangle_vertices(a) == set![c00, c10, c01]
            &&& triangle_vertices(b) == set![c10, c01, c11]
            &&& triangle_vertices(a).intersect(triangle_vertices(b)) == set![c10, c01]
            &&& triangle_vertices(a) + triangle_vertices(b) == set![c00, c10, c01, c11]
        }),
{
    let q = iz * subdiv + ix;
    lemma_cell_coords(subdiv, ix, iz);
    let c00 = cell_corner(subdiv, ix, iz, 0, 0);
    let c10 = cell_corner(subdiv, ix, iz, 1, 0);
    let c01 = cell_corner(subdiv, ix, iz, 0, 1);
    let c11 = cell_corner(subdiv, ix, iz, 1, 1);
    assert(c01 == c00 + subdiv + 1) by (nonlinear_arith)
        requires
            c01 == (iz + 1) * (subdiv + 1) + ix,
            c00 == iz * (subdiv + 1) + ix,
    ;
    let a = grid_triangle(subdiv, 2 * q);
    let b = grid_triangle(subdiv, 2 * q + 1);
    assert(a == (c00, c01, c10));
    assert(b == (c10, c01, c11));
    assert(triangle_vertices(a) =~= set![c00, c10, c01]);
    assert(triangle_vertices(b) =~= set![c10, c01, c11]);
    assert(triangle_vertices(a).intersect(triangle_vertices(b)) =~= set![c10, c01]);
    assert(triangle_vertices(a) + triangle_vertices(b) =~= set![c00, c10, c01, c11]);
}

} // verus!
