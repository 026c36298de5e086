//! The tiling of the cube: six faces, each split into four tiles, and the
//! lattice of grid points that a tile lays over its quarter of a face.
//!
//! Everything here is exact integer geometry. A face is the square
//! `[-1, 1] x [-1, 1]` in its two tangent axes; a tile of resolution `r`
//! covers one quadrant of it with an `r x r` grid. Points are kept scaled by
//! `r - 1`, so that every grid point has whole coordinates.

use vstd::prelude::*;
use vstd::arithmetic::div_mod::lemma_fundamental_div_mod_converse;

verus! {

/// Number of cube faces.
pub const FACE_COUNT: usize = 6;

/// Number of tiles on one face.
pub const TILES_PER_FACE: usize = 4;

/// Number of patches that make up the sphere.
pub const PATCH_COUNT: usize = 24;

/// Largest resolution whose vertex indices fit in 32 bits.
pub const MAX_RESOLUTION: u32 = 0x1_0000;

/// Grid side length of a full-detail patch.
pub const FULL_RESOLUTION: u32 = 800;

/// Grid side length of a coarse preview patch.
pub const PREVIEW_RESOLUTION: u32 = 16;

/// A vector of three mathematical integers.
pub struct Int3 {
    pub x: int,
    pub y: int,
    pub z: int,
}

impl Int3 {
    /// Scalar product.
    pub open spec fn dot(self, other: Int3) -> int {
        self.x * other.x + self.y * other.y + self.z * other.z
    }

    /// Vector product.
    pub open spec fn cross(self, other: Int3) -> Int3 {
        Int3 {
            x: self.y * other.z - self.z * other.y,
            y: self.z * other.x - self.x * other.z,
            z: self.x * other.y - self.y * other.x,
        }
    }

    /// Sum of two vectors.
    pub open spec fn plus(self, other: Int3) -> Int3 {
        Int3 { x: self.x + other.x, y: self.y + other.y, z: self.z + other.z }
    }

    /// The vector scaled by `k`.
    pub open spec fn times(self, k: int) -> Int3 {
        Int3 { x: self.x * k, y: self.y * k, z: self.z * k }
    }

    /// Every component is -1, 0 or 1.
    pub open spec fn is_small(self) -> bool {
        -1 <= self.x <= 1 && -1 <= self.y <= 1 && -1 <= self.z <= 1
    }
}

/// A vector of three machine integers.
#[derive(Clone, Copy, Debug, PartialEq, Eq, Structural)]
pub struct Vec3i {
    pub x: i64,
    pub y: i64,
    pub z: i64,
}

impl View for Vec3i {
    type V = Int3;

    open spec fn view(&self) -> Int3 {
        Int3 { x: self.x as int, y: self.y as int, z: self.z as int }
    }
}

impl Vec3i {
    /// Cross product of two vectors with components -1, 0 or 1.
    pub fn cross(self, other: Vec3i) -> (r: Vec3i)
        requires
            self@.is_small(),
            other@.is_small(),
        ensures
            r@ == self@.cross(other@),
    {
        assert(-1 <= self.y * other.z <= 1 && -1 <= self.z * other.y <= 1 && -1 <= self.z
            * other.x <= 1 && -1 <= self.x * other.z <= 1 && -1 <= self.x * other.y <= 1 && -1
            <= self.y * other.x <= 1) by (nonlinear_arith)
            requires
                self@.is_small(),
                other@.is_small(),
        ;
        Vec3i {
            x: self.y * other.z - self.z * other.y,
            y: self.z * other.x - self.x * other.z,
            z: self.x * other.y - self.y * other.x,
        }
    }
}

/// A face of the cube, named by its outward normal.
#[derive(Clone, Copy, Debug, PartialEq, Eq, Structural)]
pub enum Face {
    PosX,
    NegX,
    PosY,
    NegY,
    PosZ,
    NegZ,
}

impl Face {
    /// The outward unit normal of the face.
    pub open spec fn spec_normal(self) -> Int3 {
        match self {
            Face::PosX => Int3 { x: 1, y: 0, z: 0 },
            Face::NegX => Int3 { x: -1, y: 0, z: 0 },
            Face::PosY => Int3 { x: 0, y: 1, z: 0 },
            Face::NegY => Int3 { x: 0, y: -1, z: 0 },
            Face::PosZ => Int3 { x: 0, y: 0, z: 1 },
            Face::NegZ => Int3 { x: 0, y: 0, z: -1 },
        }
    }

    /// The horizontal tangent axis: the normal with its components rotated.
    pub open spec fn spec_axis_a(self) -> Int3 {
        let n = self.spec_normal();
        Int3 { x: n.y, y: n.z, z: n.x }
    }

    /// The vertical tangent axis: the horizontal one crossed with the normal.
    pub open spec fn spec_axis_b(self) -> Int3 {
        self.spec_axis_a().cross(self.spec_normal())
    }

    /// Position of the face in the fixed order of faces.
    pub open spec fn spec_index(self) -> int {
        match self {
            Face::PosX => 0,
            Face::NegX => 1,
            Face::PosY => 2,
            Face::NegY => 3,
            Face::PosZ => 4,
            Face::NegZ => 5,
        }
    }

    /// The face at a position in the fixed order: +X, -X, +Y, -Y, +Z, -Z.
    pub open spec fn spec_at(i: int) -> Face {
        if i == 0 {
            Face::PosX
        } else if i == 1 {
            Face::NegX
        } else if i == 2 {
            Face::PosY
        } else if i == 3 {
            Face::NegY
        } else if i == 4 {
            Face::PosZ
        } else {
            Face::NegZ
        }
    }

    /// The face at position `i` of the fixed order.
    pub fn at(i: usize) -> (r: Face)
        requires
            i < FACE_COUNT,
        ensures
            r == Face::spec_at(i as int),
            r.spec_index() == i,
    {
        if i == 0 {
            Face::PosX
        } else if i == 1 {
            Face::NegX
        } else if i == 2 {
            Face::PosY
        } else if i == 3 {
            Face::NegY
        } else if i == 4 {
            Face::PosZ
        } else {
            Face::NegZ
        }
    }

    /// The outward unit normal of the face.
    pub fn normal(self) -> (r: Vec3i)
        ensures
            r@ == self.spec_normal(),
    {
        match self {
            Face::PosX => Vec3i { x: 1, y: 0, z: 0 },
            Face::NegX => Vec3i { x: -1, y: 0, z: 0 },
            Face::PosY => Vec3i { x: 0, y: 1, z: 0 },
            Face::NegY => Vec3i { x: 0, y: -1, z: 0 },
            Face::PosZ => Vec3i { x: 0, y: 0, z: 1 },
            Face::NegZ => Vec3i { x: 0, y: 0, z: -1 },
        }
    }

    /// The horizontal tangent axis of the face.
    pub fn axis_a(self) -> (r: Vec3i)
        ensures
            r@ == self.spec_axis_a(),
    {
        let n = self.normal();
        Vec3i { x: n.y, y: n.z, z: n.x }
    }

    /// The vertical tangent axis of the face.
    pub fn axis_b(self) -> (r: Vec3i)
        ensures
            r@ == self.spec_axis_b(),
    {
        self.axis_a().cross(self.normal())
    }
}

/// A product with -1, 0 or 1 on either side is the other factor negated,
/// zero, or the other factor itself.
proof fn lemma_unit_products()
    ensures
        forall|c: int, k: int|
            -1 <= c <= 1 ==> #[trigger] (c * k) == (if c == 0 {
                0
            } else if c == 1 {
                k
            } else {
                -k
            }),
        forall|k: int, c: int|
            -1 <= c <= 1 ==> #[trigger] (k * c) == (if c == 0 {
                0
            } else if c == 1 {
                k
            } else {
                -k
            }),
{
    assert forall|c: int, k: int| -1 <= c <= 1 implies #[trigger] (c * k) == (if c == 0 {
        0
    } else if c == 1 {
        k
    } else {
        -k
    }) by {
        assert((c == 0 ==> c * k == 0) && (c == 1 ==> c * k == k) && (c == -1 ==> c * k == -k))
            by (nonlinear_arith);
    }
    assert forall|k: int, c: int| -1 <= c <= 1 implies #[trigger] (k * c) == (if c == 0 {
        0
    } else if c == 1 {
        k
    } else {
        -k
    }) by {
        assert((c == 0 ==> k * c == 0) && (c == 1 ==> k * c == k) && (c == -1 ==> k * c == -k))
            by (nonlinear_arith);
    }
}

/// The normal and the two tangent axes of a face are unit vectors, each
/// orthogonal to the other two, and the vertical axis crossed with the
/// horizontal one gives the normal back: the basis never degenerates.
pub proof fn lemma_face_basis(face: Face)
    ensures
        face.spec_normal().is_small(),
        face.spec_axis_a().is_small(),
        face.spec_axis_b().is_small(),
        face.spec_normal().dot(face.spec_normal()) == 1,
        face.spec_axis_a().dot(face.spec_axis_a()) == 1,
        face.spec_axis_b().dot(face.spec_axis_b()) == 1,
        face.spec_axis_a().dot(face.spec_normal()) == 0,
        face.spec_axis_b().dot(face.spec_normal()) == 0,
        face.spec_axis_a().dot(face.spec_axis_b()) == 0,
        face.spec_axis_b().cross(face.spec_axis_a()) == face.spec_normal(),
{
    lemma_unit_products();
    match face {
        Face::PosX => {},
        Face::NegX => {},
        Face::PosY => {},
        Face::NegY => {},
        Face::PosZ => {},
        Face::NegZ => {},
    }
}

/// Which quadrant of its face a tile covers: each component is 0 or 1.
#[derive(Clone, Copy, Debug, PartialEq, Eq, Structural)]
pub struct TileOffset {
    pub x: u32,
    pub y: u32,
}

impl TileOffset {
    /// Each component is 0 or 1.
    pub open spec fn wf(self) -> bool {
        self.x <= 1 && self.y <= 1
    }

    /// Position of the offset in the fixed order of offsets.
    pub open spec fn spec_index(self) -> int {
        2 * self.x + self.y
    }

    /// The offset at a position in the fixed order: (0,0), (0,1), (1,0), (1,1).
    pub open spec fn spec_at(i: int) -> TileOffset {
        TileOffset { x: (i / 2) as u32, y: (i % 2) as u32 }
    }

    /// The offset at position `i` of the fixed order.
    pub fn at(i: usize) -> (r: TileOffset)
        requires
            i < TILES_PER_FACE,
        ensures
            r == TileOffset::spec_at(i as int),
            r.wf(),
            r.spec_index() == i,
    {
        TileOffset { x: (i / 2) as u32, y: (i % 2) as u32 }
    }
}

/// One unit of work: a tile of a face at a grid resolution.
#[derive(Clone, Copy, Debug, PartialEq, Eq, Structural)]
pub struct PatchSpec {
    pub face: Face,
    pub resolution: u32,
    pub offset: TileOffset,
}

/// The patch at position `k` of the fixed order: faces outside, offsets
/// inside.
pub open spec fn patch_spec_at(resolution: u32, k: int) -> PatchSpec {
    PatchSpec {
        face: Face::spec_at(k / 4),
        resolution,
        offset: TileOffset::spec_at(k % 4),
    }
}

/// Where the patch of a face and an offset stands in the fixed order.
pub open spec fn patch_index(face: Face, offset: TileOffset) -> int {
    4 * face.spec_index() + offset.spec_index()
}

impl PatchSpec {
    /// The grid has at least two points a side, its indices fit in 32 bits,
    /// and the offset names a quadrant.
    pub open spec fn wf(self) -> bool {
        2 <= self.resolution <= MAX_RESOLUTION && self.offset.wf()
    }

    /// The grid point `(x, y)` on the cube face, scaled by `resolution - 1`:
    /// with `s = resolution - 1` and the grid point's share of the face
    /// `(x / s, y / s)`, this is `s` times
    /// `normal + (x / s - offset.x) * axis_a + (y / s - offset.y) * axis_b`.
    pub open spec fn spec_cube_point(self, x: int, y: int) -> Int3 {
        let s = self.resolution - 1;
        self.face.spec_normal().times(s).plus(
            self.face.spec_axis_a().times(x - self.offset.x * s),
        ).plus(self.face.spec_axis_b().times(y - self.offset.y * s))
    }

    /// Whether the patch is well formed.
    pub fn is_valid(&self) -> (r: bool)
        ensures
            r == self.wf(),
    {
        2 <= self.resolution && self.resolution <= MAX_RESOLUTION && self.offset.x <= 1
            && self.offset.y <= 1
    }

    /// The grid point `(x, y)` on the cube face, scaled by `resolution - 1`.
    pub fn cube_point(&self, x: u32, y: u32) -> (p: Vec3i)
        requires
            self.wf(),
            x < self.resolution,
            y < self.resolution,
        ensures
            p@ == self.spec_cube_point(x as int, y as int),
            p@.dot(self.face.spec_normal()) == self.resolution - 1,
            p@.dot(self.face.spec_axis_a()) == x - self.offset.x * (self.resolution - 1),
            p@.dot(self.face.spec_axis_b()) == y - self.offset.y * (self.resolution - 1),
    {
        let s: i64 = (self.resolution - 1) as i64;
        let a: i64 = if self.offset.x == 0 {
            x as i64
        } else {
            x as i64 - s
        };
        let b: i64 = if self.offset.y == 0 {
            y as i64
        } else {
            y as i64 - s
        };
        let n = self.face.normal();
        let u = self.face.axis_a();
        let v = self.face.axis_b();
        proof {
            lemma_face_basis(self.face);
            lemma_cube_point_on_face(self.face, s as int, a as int, b as int);
        }
        let px = small_times(n.x, s) + small_times(u.x, a) + small_times(v.x, b);
        let py = small_times(n.y, s) + small_times(u.y, a) + small_times(v.y, b);
        let pz = small_times(n.z, s) + small_times(u.z, a) + small_times(v.z, b);
        Vec3i { x: px, y: py, z: pz }
    }

    /// All grid points of the patch on the cube face, row by row: the point
    /// `(x, y)` stands at `x + y * resolution`.
    pub fn cube_points(&self) -> (points: Vec<Vec3i>)
        requires
            self.wf(),
        ensures
            points@.len() == self.resolution * self.resolution,
            forall|k: int|
                0 <= k < points@.len() ==> (#[trigger] points@[k])@ == self.spec_cube_point(
                    k % (self.resolution as int),
                    k / (self.resolution as int),
                ),
    {
        let res = self.resolution;
        let mut points: Vec<Vec3i> = Vec::new();
        let mut y: u32 = 0;
        while y < res
            invariant
                self.wf(),
                res == self.resolution,
                y <= res,
                points@.len() == y * res,
                forall|k: int|
                    0 <= k < points@.len() ==> (#[trigger] points@[k])@ == self.spec_cube_point(
                        k % (res as int),
                        k / (res as int),
                    ),
            decreases res - y,
        {
            let mut x: u32 = 0;
            while x < res
                invariant
                    self.wf(),
                    res == self.resolution,
                    y < res,
                    x <= res,
                    points@.len() == y * res + x,
                    forall|k: int|
                        0 <= k < points@.len() ==> (#[trigger] points@[k])@
                            == self.spec_cube_point(k % (res as int), k / (res as int)),
                decreases res - x,
            {
                let p = self.cube_point(x, y);
                proof {
                    lemma_fundamental_div_mod_converse(
                        y * res + x,
                        res as int,
                        y as int,
                        x as int,
                    );
                }
                points.push(p);
                x = x + 1;
            }
            proof {
                assert((y + 1) * res == y * res + res) by (nonlinear_arith);
            }
            y = y + 1;
        }
        points
    }
}

/// Product of a component that is -1, 0 or 1 with a lattice coordinate.
fn small_times(c: i64, k: i64) -> (r: i64)
    requires
        -1 <= c <= 1,
        -0x1_0000 <= k <= 0x1_0000,
    ensures
        r == c * k,
        -0x1_0000 <= r <= 0x1_0000,
{
    assert((c == 0 ==> c * k == 0) && (c == 1 ==> c * k == k) && (c == -1 ==> c * k == -k))
        by (nonlinear_arith);
    if c == 0 {
        0
    } else if c == 1 {
        k
    } else {
        -k
    }
}

/// The point `s * normal + a * axis_a + b * axis_b` has the coordinates
/// `(s, a, b)` in the basis of the face.
pub proof fn lemma_cube_point_on_face(face: Face, s: int, a: int, b: int)
    ensures
        ({
            let p = face.spec_normal().times(s).plus(face.spec_axis_a().times(a)).plus(
                face.spec_axis_b().times(b),
            );
            &&& p.dot(face.spec_normal()) == s
            &&& p.dot(face.spec_axis_a()) == a
            &&& p.dot(face.spec_axis_b()) == b
        }),
{
    lemma_unit_products();
    match face {
        Face::PosX => {},
        Face::NegX => {},
        Face::PosY => {},
        Face::NegY => {},
        Face::PosZ => {},
        Face::NegZ => {},
    }
}

/// The 24 patches of a sphere at one resolution, in the fixed order: faces
/// outside, offsets inside.
pub fn patch_specs(resolution: u32) -> (specs: Vec<PatchSpec>)
    ensures
        specs@.len() == PATCH_COUNT,
        forall|k: int| 0 <= k < PATCH_COUNT ==> specs@[k] == patch_spec_at(resolution, k),
{
    let mut specs: Vec<PatchSpec> = Vec::new();
    let mut f: usize = 0;
    while f < FACE_COUNT
        invariant
            f <= FACE_COUNT,
            specs@.len() == 4 * f,
            forall|k: int| 0 <= k < 4 * f ==> specs@[k] == patch_spec_at(resolution, k),
        decreases FACE_COUNT - f,
    {
        let face = Face::at(f);
        let mut o: usize = 0;
        while o < TILES_PER_FACE
            invariant
                f < FACE_COUNT,
                o <= TILES_PER_FACE,
                face == Face::spec_at(f as int),
                specs@.len() == 4 * f + o,
                forall|k: int| 0 <= k < 4 * f + o ==> specs@[k] == patch_spec_at(resolution, k),
            decreases TILES_PER_FACE - o,
        {
            let offset = TileOffset::at(o);
            specs.push(PatchSpec { face, resolution, offset });
            o = o + 1;
        }
        f = f + 1;
    }
    specs
}

/// Every face and quadrant has its patch in the fixed order, and no other
/// place in the order holds that patch.
pub proof fn lemma_patch_order_is_one_to_one(resolution: u32, face: Face, offset: TileOffset)
    requires
        offset.wf(),
    ensures
        0 <= patch_index(face, offset) < PATCH_COUNT,
        patch_spec_at(resolution, patch_index(face, offset)) == (PatchSpec {
            face,
            resolution,
            offset,
        }),
        forall|k: int|
            0 <= k < PATCH_COUNT && #[trigger] patch_spec_at(resolution, k) == (PatchSpec {
                face,
                resolution,
                offset,
            }) ==> k == patch_index(face, offset),
{
    assert forall|k: int|
        0 <= k < PATCH_COUNT && #[trigger] patch_spec_at(resolution, k) == (PatchSpec {
            face,
            resolution,
            offset,
        }) implies k == patch_index(face, offset) by {
        assert(Face::spec_at(k / 4).spec_index() == k / 4);
        assert(TileOffset::spec_at(k % 4).spec_index() == k % 4);
    }
}

/// The four tiles of a face leave no gap: every lattice point of the face,
/// at coordinates `(a, b)` between `-(resolution - 1)` and `resolution - 1`,
/// is a grid point of the tile that `covering_offset` names.
pub proof fn lemma_tiles_cover_face(face: Face, resolution: u32, a: int, b: int)
    requires
        2 <= resolution <= MAX_RESOLUTION,
        -(resolution - 1) <= a <= resolution - 1,
        -(resolution - 1) <= b <= resolution - 1,
    ensures
        ({
            let s = resolution - 1;
            let spec = PatchSpec { face, resolution, offset: covering_offset(a, b) };
            let x = a + spec.offset.x * s;
            let y = b + spec.offset.y * s;
            &&& spec.wf()
            &&& 0 <= x < resolution
            &&& 0 <= y < resolution
            &&& spec.spec_cube_point(x, y) == face.spec_normal().times(s).plus(
                face.spec_axis_a().times(a),
            ).plus(face.spec_axis_b().times(b))
        }),
{
    lemma_unit_products();
    match face {
        Face::PosX => {},
        Face::NegX => {},
        Face::PosY => {},
        Face::NegY => {},
        Face::PosZ => {},
        Face::NegZ => {},
    }
}

/// The quadrant that holds the lattice coordinates `(a, b)`: a tile at
/// offset 1 covers the negative half of an axis, one at offset 0 the rest.
pub open spec fn covering_offset(a: int, b: int) -> TileOffset {
    TileOffset {
        x: if a < 0 {
            1u32
        } else {
            0u32
        },
        y: if b < 0 {
            1u32
        } else {
            0u32
        },
    }
}

/// Two tiles of a face overlap on their shared border only: a lattice point
/// that two different quadrants both reach has a coordinate of 0.
pub proof fn lemma_tiles_meet_on_borders(
    face: Face,
    resolution: u32,
    first: TileOffset,
    second: TileOffset,
    x1: int,
    y1: int,
    x2: int,
    y2: int,
)
    requires
        2 <= resolution <= MAX_RESOLUTION,
        first.wf(),
        second.wf(),
        first != second,
        0 <= x1 < resolution && 0 <= y1 < resolution,
        0 <= x2 < resolution && 0 <= y2 < resolution,
        (PatchSpec { face, resolution, offset: first }).spec_cube_point(x1, y1) == (PatchSpec {
            face,
            resolution,
            offset: second,
        }).spec_cube_point(x2, y2),
    ensures
        x1 - first.x * (resolution - 1) == 0 || y1 - first.y * (resolution - 1) == 0,
{
    let s = resolution - 1;
    lemma_cube_point_on_face(face, s, x1 - first.x * s, y1 - first.y * s);
    lemma_cube_point_on_face(face, s, x2 - second.x * s, y2 - second.y * s);
}

} // verus!
