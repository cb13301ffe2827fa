use vstd::prelude::*;

verus! {

/// The number of faces of the ship's prism.
pub const PRISM_FACES: usize = 6;

/// The number of vertices of the ship's prism: each face has four of its own.
pub const PRISM_VERTICES: usize = 24;

/// The number of triangle indices of the ship's prism: two triangles per face.
pub const PRISM_INDICES: usize = 36;

/// A small integer vector.
pub type Sign3 = (i8, i8, i8);

/// The topology of the ship's multicolored prism, independent of its size.
///
/// Vertex `4 * f + c` is corner `c` of face `f`. Its position is the
/// component-wise product of its sign vector with the prism's half extents;
/// its normal, texture coordinate and face (which picks its color) are
/// given here as well.
pub struct PrismTopology {
    pub position_signs: Vec<Sign3>,
    pub normals: Vec<Sign3>,
    pub uvs: Vec<(u8, u8)>,
    pub faces: Vec<usize>,
    pub indices: Vec<u32>,
}

pub open spec fn int3(v: Sign3) -> (int, int, int) {
    (v.0 as int, v.1 as int, v.2 as int)
}

/// `x` when `keep` holds, `-x` otherwise.
pub open spec fn signed(keep: bool, x: int) -> int {
    if keep {
        x
    } else {
        -x
    }
}

/// The outward normal of face `f`: front, back, left, right, top, bottom.
pub open spec fn face_normal(f: int) -> (int, int, int) {
    if f == 0 {
        (0, 0, 1)
    } else if f == 1 {
        (0, 0, -1)
    } else if f == 2 {
        (-1, 0, 0)
    } else if f == 3 {
        (1, 0, 0)
    } else if f == 4 {
        (0, 1, 0)
    } else {
        (0, -1, 0)
    }
}

/// The direction in which the texture's first coordinate grows on face `f`.
pub open spec fn face_tangent(f: int) -> (int, int, int) {
    if f == 0 {
        (1, 0, 0)
    } else if f == 1 {
        (-1, 0, 0)
    } else if f == 2 {
        (0, 0, 1)
    } else if f == 3 {
        (0, 0, -1)
    } else {
        (1, 0, 0)
    }
}

/// The direction in which the texture's second coordinate grows on face `f`.
pub open spec fn face_bitangent(f: int) -> (int, int, int) {
    if f <= 3 {
        (0, 1, 0)
    } else if f == 4 {
        (0, 0, -1)
    } else {
        (0, 0, 1)
    }
}

/// The texture coordinate of corner `c` of a face, counter-clockwise from
/// the lower left.
pub open spec fn corner_uv(c: int) -> (int, int) {
    if c == 0 {
        (0, 0)
    } else if c == 1 {
        (1, 0)
    } else if c == 2 {
        (1, 1)
    } else {
        (0, 1)
    }
}

/// The sign vector of corner `c` of face `f`: the face's center plus or
/// minus its tangent and bitangent, as the corner's texture coordinate says.
pub open spec fn corner_position(f: int, c: int) -> (int, int, int) {
    let n = face_normal(f);
    let t = face_tangent(f);
    let b = face_bitangent(f);
    let uv = corner_uv(c);
    (
        n.0 + signed(uv.0 == 1, t.0) + signed(uv.1 == 1, b.0),
        n.1 + signed(uv.0 == 1, t.1) + signed(uv.1 == 1, b.1),
        n.2 + signed(uv.0 == 1, t.2) + signed(uv.1 == 1, b.2),
    )
}

/// The corner of a face at place `k` of the face's six indices: the
/// triangles (0, 1, 2) and (0, 2, 3).
pub open spec fn triangle_corner(k: int) -> int {
    if k == 0 || k == 3 {
        0
    } else if k == 1 {
        1
    } else if k == 2 || k == 4 {
        2
    } else {
        3
    }
}

/// The vertex named at place `k` of the six indices of face `f`.
pub open spec fn face_index(f: int, k: int) -> int {
    4 * f + triangle_corner(k)
}

pub open spec fn dot3(a: (int, int, int), b: (int, int, int)) -> int {
    a.0 * b.0 + a.1 * b.1 + a.2 * b.2
}

pub open spec fn sub3(a: (int, int, int), b: (int, int, int)) -> (int, int, int) {
    (a.0 - b.0, a.1 - b.1, a.2 - b.2)
}

pub open spec fn cross3(a: (int, int, int), b: (int, int, int)) -> (int, int, int) {
    (a.1 * b.2 - a.2 * b.1, a.2 * b.0 - a.0 * b.2, a.0 * b.1 - a.1 * b.0)
}

impl PrismTopology {
    /// The vertices and indices are laid out as `corner_position`,
    /// `face_normal`, `corner_uv` and `triangle_corner` say.
    pub open spec fn matches_model(&self) -> bool {
        &&& self.position_signs@.len() == PRISM_VERTICES
        &&& self.normals@.len() == PRISM_VERTICES
        &&& self.uvs@.len() == PRISM_VERTICES
        &&& self.faces@.len() == PRISM_VERTICES
        &&& self.indices@.len() == PRISM_INDICES
        &&& forall|f: int, c: int|
            0 <= f < 6 && 0 <= c < 4 ==> {
                &&& int3(self.position_signs@[4 * f + c]) == #[trigger] corner_position(f, c)
                &&& int3(self.normals@[4 * f + c]) == face_normal(f)
                &&& (self.uvs@[4 * f + c].0 as int, self.uvs@[4 * f + c].1 as int) == corner_uv(c)
                &&& self.faces@[4 * f + c] == f
            }
        &&& forall|f: int, k: int|
            0 <= f < 6 && 0 <= k < 6 ==> self.indices@[6 * f + k] == #[trigger] face_index(f, k)
    }
}

fn face_frame(f: usize) -> (r: (Sign3, Sign3, Sign3))
    requires
        f < 6,
    ensures
        int3(r.0) == face_normal(f as int),
        int3(r.1) == face_tangent(f as int),
        int3(r.2) == face_bitangent(f as int),
{
    if f == 0 {
        ((0, 0, 1), (1, 0, 0), (0, 1, 0))
    } else if f == 1 {
        ((0, 0, -1), (-1, 0, 0), (0, 1, 0))
    } else if f == 2 {
        ((-1, 0, 0), (0, 0, 1), (0, 1, 0))
    } else if f == 3 {
        ((1, 0, 0), (0, 0, -1), (0, 1, 0))
    } else if f == 4 {
        ((0, 1, 0), (1, 0, 0), (0, 0, -1))
    } else {
        ((0, -1, 0), (1, 0, 0), (0, 0, 1))
    }
}

fn corner_uv_exec(c: usize) -> (r: (u8, u8))
    requires
        c < 4,
    ensures
        (r.0 as int, r.1 as int) == corner_uv(c as int),
{
    if c == 0 {
        (0, 0)
    } else if c == 1 {
        (1, 0)
    } else if c == 2 {
        (1, 1)
    } else {
        (0, 1)
    }
}

fn triangle_corner_exec(k: usize) -> (r: u32)
    requires
        k < 6,
    ensures
        r as int == triangle_corner(k as int),
{
    if k == 0 || k == 3 {
        0
    } else if k == 1 {
        1
    } else if k == 2 || k == 4 {
        2
    } else {
        3
    }
}

fn signed_exec(keep: bool, x: i8) -> (r: i8)
    requires
        -1 <= x <= 1,
    ensures
        r as int == signed(keep, x as int),
{
    if keep {
        x
    } else {
        -x
    }
}

/// Builds the topology of the ship's prism.
pub fn prism_topology() -> (t: PrismTopology)
    ensures
        t.matches_model(),
{
    let mut position_signs: Vec<Sign3> = Vec::new();
    let mut normals: Vec<Sign3> = Vec::new();
    let mut uvs: Vec<(u8, u8)> = Vec::new();
    let mut faces: Vec<usize> = Vec::new();
    let mut indices: Vec<u32> = Vec::new();
    let mut f: usize = 0;
    while f < PRISM_FACES
        invariant
            0 <= f <= 6,
            position_signs@.len() == 4 * f,
            normals@.len() == 4 * f,
            uvs@.len() == 4 * f,
            faces@.len() == 4 * f,
            indices@.len() == 6 * f,
            forall|f2: int, c2: int|
                0 <= f2 < f && 0 <= c2 < 4 ==> {
                    &&& int3(position_signs@[4 * f2 + c2]) == #[trigger] corner_position(f2, c2)
                    &&& int3(normals@[4 * f2 + c2]) == face_normal(f2)
                    &&& (uvs@[4 * f2 + c2].0 as int, uvs@[4 * f2 + c2].1 as int) == corner_uv(c2)
                    &&& faces@[4 * f2 + c2] == f2
                },
            forall|f2: int, k2: int|
                0 <= f2 < f && 0 <= k2 < 6 ==> indices@[6 * f2 + k2] == #[trigger] face_index(f2, k2),
        decreases 6 - f,
    {
        let (n, tg, bt) = face_frame(f);
        let mut c: usize = 0;
        while c < 4
            invariant
                0 <= f < 6,
                0 <= c <= 4,
                int3(n) == face_normal(f as int),
                int3(tg) == face_tangent(f as int),
                int3(bt) == face_bitangent(f as int),
                position_signs@.len() == 4 * f + c,
                normals@.len() == 4 * f + c,
                uvs@.len() == 4 * f + c,
                faces@.len() == 4 * f + c,
                forall|f2: int, c2: int|
                    0 <= f2 <= f && 0 <= c2 < 4 && 4 * f2 + c2 < 4 * f + c ==> {
                        &&& int3(position_signs@[4 * f2 + c2]) == #[trigger] corner_position(f2, c2)
                        &&& int3(normals@[4 * f2 + c2]) == face_normal(f2)
                        &&& (uvs@[4 * f2 + c2].0 as int, uvs@[4 * f2 + c2].1 as int) == corner_uv(
                            c2,
                        )
                        &&& faces@[4 * f2 + c2] == f2
                    },
            decreases 4 - c,
        {
            let uv = corner_uv_exec(c);
            let su = uv.0 == 1;
            let sw = uv.1 == 1;
            let x: i8 = n.0 + signed_exec(su, tg.0) + signed_exec(sw, bt.0);
            let y: i8 = n.1 + signed_exec(su, tg.1) + signed_exec(sw, bt.1);
            let z: i8 = n.2 + signed_exec(su, tg.2) + signed_exec(sw, bt.2);
            assert((x as int, y as int, z as int) == corner_position(f as int, c as int));
            let ghost old_positions = position_signs@;
            let ghost old_normals = normals@;
            let ghost old_uvs = uvs@;
            let ghost old_faces = faces@;
            position_signs.push((x, y, z));
            normals.push(n);
            uvs.push(uv);
            faces.push(f);
            let ghost cur = c as int;
            c = c + 1;
            assert forall|f2: int, c2: int|
                0 <= f2 <= f && 0 <= c2 < 4 && 4 * f2 + c2 < 4 * f + c implies {
                    &&& int3(position_signs@[4 * f2 + c2]) == #[trigger] corner_position(f2, c2)
                    &&& int3(normals@[4 * f2 + c2]) == face_normal(f2)
                    &&& (uvs@[4 * f2 + c2].0 as int, uvs@[4 * f2 + c2].1 as int) == corner_uv(c2)
                    &&& faces@[4 * f2 + c2] == f2
                } by {
                if 4 * f2 + c2 < 4 * f + cur {
                    assert(position_signs@[4 * f2 + c2] == old_positions[4 * f2 + c2]);
                    assert(normals@[4 * f2 + c2] == old_normals[4 * f2 + c2]);
                    assert(uvs@[4 * f2 + c2] == old_uvs[4 * f2 + c2]);
                    assert(faces@[4 * f2 + c2] == old_faces[4 * f2 + c2]);
                } else {
                    assert(f2 == f as int && c2 == cur) by (nonlinear_arith)
                        requires
                            4 * f2 + c2 == 4 * (f as int) + cur,
                            0 <= c2 < 4,
                            0 <= cur < 4,
                    ;
                    assert(position_signs@[4 * f2 + c2] == (x, y, z));
                    assert(normals@[4 * f2 + c2] == n);
                    assert(uvs@[4 * f2 + c2] == uv);
                    assert(faces@[4 * f2 + c2] == f);
                }
            }
        }
        let mut k: usize = 0;
        while k < 6
            invariant
                0 <= f < 6,
                0 <= k <= 6,
                indices@.len() == 6 * f + k,
                forall|f2: int, k2: int|
                    0 <= f2 <= f && 0 <= k2 < 6 && 6 * f2 + k2 < 6 * f + k ==> indices@[6 * f2
                        + k2] == #[trigger] face_index(f2, k2),
            decreases 6 - k,
        {
            let corner = triangle_corner_exec(k);
            let base: u32 = 4 * (f as u32);
            indices.push(base + corner);
            k = k + 1;
        }
        f = f + 1;
    }
    PrismTopology { position_signs, normals, uvs, faces, indices }
}

/// Every vertex lies on the plane of its own face, at a corner of the box.
pub proof fn law_vertices_on_their_faces(f: int, c: int) by (nonlinear_arith)
    requires
        0 <= f < 6,
        0 <= c < 4,
    ensures
        dot3(corner_position(f, c), face_normal(f)) == 1,
        corner_position(f, c).0 == 1 || corner_position(f, c).0 == -1,
        corner_position(f, c).1 == 1 || corner_position(f, c).1 == -1,
        corner_position(f, c).2 == 1 || corner_position(f, c).2 == -1,
{
    if f == 0 {
        assert(dot3(corner_position(0, c), face_normal(0)) == corner_position(0, c).2);
    } else if f == 1 {
        assert(dot3(corner_position(1, c), face_normal(1)) == -corner_position(1, c).2);
    } else if f == 2 {
        assert(dot3(corner_position(2, c), face_normal(2)) == -corner_position(2, c).0);
    } else if f == 3 {
        assert(dot3(corner_position(3, c), face_normal(3)) == corner_position(3, c).0);
    } else if f == 4 {
        assert(dot3(corner_position(4, c), face_normal(4)) == corner_position(4, c).1);
    } else {
        assert(dot3(corner_position(5, c), face_normal(5)) == -corner_position(5, c).1);
    }
}

/// The winding normal of triangle `j` of face `f` is four times the face's
/// outward normal.
pub open spec fn winds_outward(f: int, j: int) -> bool {
    let p0 = corner_position(f, triangle_corner(3 * j));
    let p1 = corner_position(f, triangle_corner(3 * j + 1));
    let p2 = corner_position(f, triangle_corner(3 * j + 2));
    let n = face_normal(f);
    cross3(sub3(p1, p0), sub3(p2, p0)) == (4 * n.0, 4 * n.1, 4 * n.2)
}

/// Both triangles of every face turn counter-clockwise seen from outside:
/// their winding normal points along the face's outward normal.
pub proof fn law_triangles_face_outward(f: int, j: int) by (nonlinear_arith)
    requires
        0 <= f < 6,
        0 <= j < 2,
    ensures
        winds_outward(f, j),
{
    if j == 0 {
        if f == 0 {
            assert(winds_outward(0, 0));
        } else if f == 1 {
            assert(winds_outward(1, 0));
        } else if f == 2 {
            assert(winds_outward(2, 0));
        } else if f == 3 {
            assert(winds_outward(3, 0));
        } else if f == 4 {
            assert(winds_outward(4, 0));
        } else {
            assert(winds_outward(5, 0));
        }
    } else {
        if f == 0 {
            assert(winds_outward(0, 1));
        } else if f == 1 {
            assert(winds_outward(1, 1));
        } else if f == 2 {
            assert(winds_outward(2, 1));
        } else if f == 3 {
            assert(winds_outward(3, 1));
        } else if f == 4 {
            assert(winds_outward(4, 1));
        } else {
            assert(winds_outward(5, 1));
        }
    }
}

/// Every index names a vertex of the face its triangle belongs to.
pub proof fn law_indices_stay_on_their_face(f: int, k: int)
    requires
        0 <= f < 6,
        0 <= k < 6,
    ensures
        0 <= triangle_corner(k) < 4,
        4 * f <= face_index(f, k) < 4 * f + 4,
        face_index(f, k) < PRISM_VERTICES,
{
}

/// The four corners of a face are distinct points.
pub proof fn law_face_corners_distinct(f: int, c1: int, c2: int)
    requires
        0 <= f < 6,
        0 <= c1 < 4,
        0 <= c2 < 4,
        c1 != c2,
    ensures
        corner_position(f, c1) != corner_position(f, c2),
{
}

} // verus!
