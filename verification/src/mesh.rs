//! The mesh of one patch: its triangulation and its seam-corrected texture
//! coordinates.
//!
//! A patch of resolution `r` has `r * r` vertices, numbered row by row, and
//! two triangles for each of its `(r - 1) * (r - 1)` grid cells. Positions,
//! normals and raw texture coordinates are floating-point work and arrive
//! here as one sample per vertex; this module decides where `u` is forced
//! to 0 and assembles the patch.

use vstd::prelude::*;
use vstd::arithmetic::div_mod::lemma_fundamental_div_mod_converse;
use crate::single::{Single, number, ZERO_BITS};
use crate::geo::GeoDegrees;
use crate::tiling::{PatchSpec, MAX_RESOLUTION};

verus! {

/// A point or direction in space, each coordinate an encoded number.
#[derive(Clone, Copy, Debug, PartialEq, Eq, Structural)]
pub struct Point3 {
    pub x: Single,
    pub y: Single,
    pub z: Single,
}

/// A texture coordinate.
#[derive(Clone, Copy, Debug, PartialEq, Eq, Structural)]
pub struct Uv {
    pub u: Single,
    pub v: Single,
}

/// What the floating-point side computed for one vertex.
#[derive(Clone, Copy, Debug, PartialEq, Eq, Structural)]
pub struct VertexSample {
    /// The vertex on the sphere.
    pub position: Point3,
    /// The vertex normal.
    pub normal: Point3,
    /// Latitude and longitude of the vertex, in degrees.
    pub coordinates: GeoDegrees,
    /// The texture coordinate interpolated from the longitude.
    pub u: Single,
    /// The texture coordinate interpolated from the latitude.
    pub v: Single,
}

/// How far the corner `j` of a cell's two triangles lies from the cell's
/// first vertex `i`: the triangles are `(i, i + r, i + r + 1)` and
/// `(i, i + r + 1, i + 1)`.
pub open spec fn corner_offset(res: int, j: int) -> int {
    if j == 0 || j == 3 {
        0
    } else if j == 1 {
        res
    } else if j == 2 || j == 4 {
        res + 1
    } else {
        1
    }
}

/// The first vertex of the grid cell at place `cell` in row-major order of
/// the `(res - 1) * (res - 1)` cells.
pub open spec fn cell_vertex(res: int, cell: int) -> int {
    cell % (res - 1) + (cell / (res - 1)) * res
}

/// The vertex index at place `k` of the triangle list.
pub open spec fn triangle_index(res: int, k: int) -> int {
    cell_vertex(res, k / 6) + corner_offset(res, k % 6)
}

/// Length of the triangle list: six indices for each grid cell.
pub open spec fn triangle_index_count(res: int) -> int {
    6 * ((res - 1) * (res - 1))
}

/// The six indices of the cell in column `cx` and row `cy` stand together
/// in the triangle list and name the triangles `(i, i + r, i + r + 1)` and
/// `(i, i + r + 1, i + 1)`, where `i = cx + cy * r`; all of them are
/// vertices of the patch.
pub proof fn lemma_triangles_of_cell(res: int, cx: int, cy: int)
    requires
        2 <= res,
        0 <= cx < res - 1,
        0 <= cy < res - 1,
    ensures
        ({
            let base = 6 * (cx + cy * (res - 1));
            let i = cx + cy * res;
            &&& 0 <= base
            &&& base + 6 <= triangle_index_count(res)
            &&& triangle_index(res, base) == i
            &&& triangle_index(res, base + 1) == i + res
            &&& triangle_index(res, base + 2) == i + res + 1
            &&& triangle_index(res, base + 3) == i
            &&& triangle_index(res, base + 4) == i + res + 1
            &&& triangle_index(res, base + 5) == i + 1
            &&& 0 <= i
            &&& i + res + 1 < res * res
        }),
{
    let cell = cx + cy * (res - 1);
    lemma_fundamental_div_mod_converse(cell, res - 1, cy, cx);
    assert(0 <= cy * (res - 1) && (cy + 1) * (res - 1) <= (res - 1) * (res - 1) && (cy + 1) * (res
        - 1) == cy * (res - 1) + (res - 1)) by (nonlinear_arith)
        requires
            0 <= cy < res - 1,
    ;
    assert(0 <= cy * res && cy * res <= (res - 2) * res && (res - 2) * res == res * res - 2 * res)
        by (nonlinear_arith)
        requires
            0 <= cy <= res - 2,
            2 <= res,
    ;
}

/// Every place of the triangle list names a vertex of the patch.
pub proof fn lemma_triangle_index_in_range(res: int, k: int)
    requires
        2 <= res,
        0 <= k < triangle_index_count(res),
    ensures
        0 <= triangle_index(res, k) < res * res,
{
    let cell = k / 6;
    let cells = res - 1;
    let cx = cell % cells;
    let cy = cell / cells;
    vstd::arithmetic::div_mod::lemma_fundamental_div_mod(cell, cells);
    assert(0 <= cy < cells) by (nonlinear_arith)
        requires
            cell == cells * cy + cx,
            0 <= cx < cells,
            0 <= cell < cells * cells,
    ;
    lemma_triangles_of_cell(res, cx, cy);
    assert(cx + cy * cells == cell) by (nonlinear_arith)
        requires
            cell == cells * cy + cx,
    ;
}

/// Twice the signed area of the triangle `(a, b, c)` of vertex indices, in
/// the plane of the grid, where vertex `v` stands in column `v % res` of row
/// `v / res`. The sign tells which way round the triangle winds.
pub open spec fn doubled_area(res: int, a: int, b: int, c: int) -> int {
    (b % res - a % res) * (c / res - a / res) - (b / res - a / res) * (c % res - a % res)
}

/// All triangles wind the same way round: each of the `2 * (res - 1)^2`
/// triangles of the list covers half a grid cell, with the same sign of its
/// area.
pub proof fn lemma_winding_is_consistent(res: int, t: int)
    requires
        2 <= res,
        0 <= t < 2 * ((res - 1) * (res - 1)),
    ensures
        doubled_area(
            res,
            triangle_index(res, 3 * t),
            triangle_index(res, 3 * t + 1),
            triangle_index(res, 3 * t + 2),
        ) == -1,
{
    let cells = res - 1;
    let cell = t / 2;
    let cx = cell % cells;
    let cy = cell / cells;
    vstd::arithmetic::div_mod::lemma_fundamental_div_mod(cell, cells);
    assert(0 <= cy < cells) by (nonlinear_arith)
        requires
            cell == cells * cy + cx,
            0 <= cx < cells,
            0 <= cell < cells * cells,
    ;
    let i = cx + cy * res;
    assert(cell_vertex(res, cell) == i);
    assert((cy + 1) * res == cy * res + res) by (nonlinear_arith);
    lemma_fundamental_div_mod_converse(i, res, cy, cx);
    lemma_fundamental_div_mod_converse(i + 1, res, cy, cx + 1);
    lemma_fundamental_div_mod_converse(i + res, res, cy + 1, cx);
    lemma_fundamental_div_mod_converse(i + res + 1, res, cy + 1, cx + 1);
    let a = triangle_index(res, 3 * t);
    let b = triangle_index(res, 3 * t + 1);
    let c = triangle_index(res, 3 * t + 2);
    assert(a == i);
    if t % 2 == 0 {
        assert(b == i + res && c == i + res + 1);
    } else {
        assert(b == i + res + 1 && c == i + 1);
    }
    let bx = b % res - a % res;
    let by = b / res - a / res;
    let dx = c % res - a % res;
    let dy = c / res - a / res;
    assert(bx * dy - by * dx == -1) by (nonlinear_arith)
        requires
            (bx == 0 && by == 1 && dx == 1 && dy == 1) || (bx == 1 && by == 1 && dx == 1 && dy
                == 0),
    ;
}

/// The triangle list of a patch of the given resolution.
pub fn triangle_indices(resolution: u32) -> (indices: Vec<u32>)
    requires
        2 <= resolution <= MAX_RESOLUTION,
    ensures
        indices@.len() == triangle_index_count(resolution as int),
        forall|k: int|
            0 <= k < indices@.len() ==> #[trigger] indices@[k] == triangle_index(
                resolution as int,
                k,
            ),
        forall|k: int|
            0 <= k < indices@.len() ==> #[trigger] indices@[k] < resolution * resolution,
{
    let res = resolution;
    let cells: u32 = res - 1;
    let mut indices: Vec<u32> = Vec::new();
    let mut y: u32 = 0;
    while y < cells
        invariant
            2 <= res <= MAX_RESOLUTION,
            cells == res - 1,
            y <= cells,
            indices@.len() == 6 * (y * cells),
            forall|k: int|
                0 <= k < indices@.len() ==> #[trigger] indices@[k] == triangle_index(res as int, k),
        decreases cells - y,
    {
        let mut x: u32 = 0;
        while x < cells
            invariant
                2 <= res <= MAX_RESOLUTION,
                cells == res - 1,
                y < cells,
                x <= cells,
                indices@.len() == 6 * (y * cells + x),
                forall|k: int|
                    0 <= k < indices@.len() ==> #[trigger] indices@[k] == triangle_index(
                        res as int,
                        k,
                    ),
            decreases cells - x,
        {
            proof {
                lemma_triangles_of_cell(res as int, x as int, y as int);
                assert(res * res <= 0x1_0000_0000) by (nonlinear_arith)
                    requires
                        0 <= res <= 0x1_0000,
                ;
                assert(0 <= y * res <= x + y * res) by (nonlinear_arith)
                    requires
                        0 <= y,
                        0 <= x,
                        0 <= res,
                ;
            }
            let i: u32 = x + y * res;
            let ghost before = indices@;
            indices.push(i);
            indices.push(i + res);
            indices.push(i + res + 1);
            indices.push(i);
            indices.push(i + res + 1);
            indices.push(i + 1);
            proof {
                let base = before.len() as int;
                assert forall|k: int| 0 <= k < indices@.len() implies #[trigger] indices@[k]
                    == triangle_index(res as int, k) by {
                    if k < base {
                        assert(indices@[k] == before[k]);
                    }
                }
            }
            x = x + 1;
        }
        proof {
            assert((y + 1) * cells == y * cells + cells) by (nonlinear_arith);
        }
        y = y + 1;
    }
    proof {
        assert forall|k: int| 0 <= k < indices@.len() implies #[trigger] indices@[k] < res
            * res by {
            lemma_triangle_index_in_range(res as int, k);
        }
    }
    indices
}

/// The texture coordinate of vertex `i` of a patch after the seam rule:
/// `u` is 0 where the rule forces it, judged against the longitude of the
/// patch's first vertex and the vertex's column `i % res`; `v` is kept.
pub open spec fn corrected_uv(samples: Seq<VertexSample>, res: int, i: int) -> Uv {
    let sample = samples[i];
    Uv {
        u: if sample.coordinates.seam_forces_zero(samples[0].coordinates.longitude, i % res) {
            number(ZERO_BITS)
        } else {
            sample.u
        },
        v: sample.v,
    }
}

/// The triangulated mesh of one patch.
#[derive(Debug)]
pub struct MeshPatch {
    /// Grid side length.
    pub resolution: u32,
    /// Vertex positions, row by row.
    pub positions: Vec<Point3>,
    /// Vertex normals, one for each position.
    pub normals: Vec<Point3>,
    /// Texture coordinates, one for each position.
    pub uvs: Vec<Uv>,
    /// Vertex indices, three for each triangle.
    pub indices: Vec<u32>,
}

impl MeshPatch {
    /// One position, normal and texture coordinate for each grid point, and
    /// the triangle list of the grid.
    pub open spec fn wf(&self) -> bool {
        let res = self.resolution as int;
        &&& 2 <= res <= MAX_RESOLUTION
        &&& self.positions@.len() == res * res
        &&& self.normals@.len() == res * res
        &&& self.uvs@.len() == res * res
        &&& self.indices@.len() == triangle_index_count(res)
        &&& forall|k: int|
            0 <= k < self.indices@.len() ==> #[trigger] self.indices@[k] == triangle_index(res, k)
    }

    /// Number of vertices of the patch.
    pub fn vertex_count(&self) -> (n: usize)
        requires
            self.wf(),
        ensures
            n == self.resolution * self.resolution,
    {
        self.positions.len()
    }

    /// Number of triangles of the patch.
    pub fn triangle_count(&self) -> (n: usize)
        requires
            self.wf(),
        ensures
            n == 2 * ((self.resolution - 1) * (self.resolution - 1)),
    {
        self.indices.len() / 3
    }
}

/// Every index of a well-formed patch names one of its vertices.
pub proof fn lemma_patch_indices_in_range(patch: MeshPatch, k: int)
    requires
        patch.wf(),
        0 <= k < patch.indices@.len(),
    ensures
        0 <= patch.indices@[k] < patch.positions@.len(),
{
    lemma_triangle_index_in_range(patch.resolution as int, k);
}

/// Assembles the mesh of a patch from one sample per grid point, given row
/// by row: positions and normals are taken over, texture coordinates pass
/// through the seam rule, and the grid is triangulated.
pub fn generate_face(spec: &PatchSpec, samples: &Vec<VertexSample>) -> (patch: MeshPatch)
    requires
        spec.wf(),
        samples@.len() == spec.resolution * spec.resolution,
    ensures
        patch.wf(),
        patch.resolution == spec.resolution,
        forall|i: int|
            0 <= i < samples@.len() ==> #[trigger] patch.positions@[i] == samples@[i].position,
        forall|i: int|
            0 <= i < samples@.len() ==> #[trigger] patch.normals@[i] == samples@[i].normal,
        forall|i: int|
            0 <= i < samples@.len() ==> #[trigger] patch.uvs@[i] == corrected_uv(
                samples@,
                spec.resolution as int,
                i,
            ),
        forall|k: int|
            0 <= k < patch.indices@.len() ==> #[trigger] patch.indices@[k]
                < patch.positions@.len(),
{
    let res = spec.resolution;
    let mut positions: Vec<Point3> = Vec::new();
    let mut normals: Vec<Point3> = Vec::new();
    let mut uvs: Vec<Uv> = Vec::new();
    proof {
        assert(0 < res * res) by (nonlinear_arith)
            requires
                2 <= res,
        ;
    }
    let first_longitude = samples[0].coordinates.longitude;
    let mut y: u32 = 0;
    while y < res
        invariant
            2 <= res <= MAX_RESOLUTION,
            samples@.len() == res * res,
            first_longitude == samples@[0].coordinates.longitude,
            y <= res,
            positions@.len() == y * res,
            normals@.len() == y * res,
            uvs@.len() == y * res,
            forall|i: int|
                0 <= i < positions@.len() ==> #[trigger] positions@[i] == samples@[i].position,
            forall|i: int| 0 <= i < normals@.len() ==> #[trigger] normals@[i] == samples@[i].normal,
            forall|i: int|
                0 <= i < uvs@.len() ==> #[trigger] uvs@[i] == corrected_uv(samples@, res as int, i),
        decreases res - y,
    {
        let mut x: u32 = 0;
        while x < res
            invariant
                2 <= res <= MAX_RESOLUTION,
                samples@.len() == res * res,
                first_longitude == samples@[0].coordinates.longitude,
                y < res,
                x <= res,
                positions@.len() == y * res + x,
                normals@.len() == y * res + x,
                uvs@.len() == y * res + x,
                forall|i: int|
                    0 <= i < positions@.len() ==> #[trigger] positions@[i] == samples@[i].position,
                forall|i: int|
                    0 <= i < normals@.len() ==> #[trigger] normals@[i] == samples@[i].normal,
                forall|i: int|
                    0 <= i < uvs@.len() ==> #[trigger] uvs@[i] == corrected_uv(
                        samples@,
                        res as int,
                        i,
                    ),
            decreases res - x,
        {
            proof {
                assert(0 <= y * res && y * res + res <= res * res) by (nonlinear_arith)
                    requires
                        0 <= y < res,
                ;
                lemma_fundamental_div_mod_converse(y * res + x, res as int, y as int, x as int);
            }
            let i: usize = positions.len();
            let sample = samples[i];
            let u = if sample.coordinates.forces_zero_u(first_longitude, x) {
                Single::from_bits(ZERO_BITS)
            } else {
                sample.u
            };
            positions.push(sample.position);
            normals.push(sample.normal);
            uvs.push(Uv { u, v: sample.v });
            x = x + 1;
        }
        proof {
            assert((y + 1) * res == y * res + res) by (nonlinear_arith);
        }
        y = y + 1;
    }
    let indices = triangle_indices(res);
    MeshPatch { resolution: res, positions, normals, uvs, indices }
}

} // verus!
