use vstd::prelude::*;

verus! {

/// A point or direction on the integer lattice of the unit cube, measured in
/// half edge lengths: a corner of the cube centred at the origin with edge
/// length one sits at coordinates of magnitude one, a face normal is a unit
/// axis vector.
#[derive(Clone, Copy, Debug, PartialEq, Eq)]
pub struct Lattice3 {
    pub x: i8,
    pub y: i8,
    pub z: i8,
}

/// Texture coordinates of a cube corner; each component is zero or one.
#[derive(Clone, Copy, Debug, PartialEq, Eq)]
pub struct TexCoord {
    pub u: u8,
    pub v: u8,
}

/// One vertex of the procedural cube: position, flat face normal and UV.
#[derive(Clone, Copy, Debug, PartialEq, Eq)]
pub struct CubeVertex {
    pub position: Lattice3,
    pub normal: Lattice3,
    pub uv: TexCoord,
}

/// The procedural cube as vertex and index buffers.
pub struct CubeMesh {
    pub vertices: Vec<CubeVertex>,
    pub indices: Vec<u32>,
}

/// Number of faces of the cube.
pub const CUBE_FACES: usize = 6;

/// Each face has its own four vertices so that normals stay flat.
pub const VERTICES_PER_FACE: usize = 4;

/// Each face is drawn as two triangles.
pub const INDICES_PER_FACE: usize = 6;

pub open spec fn lattice(x: int, y: int, z: int) -> Lattice3 {
    Lattice3 { x: x as i8, y: y as i8, z: z as i8 }
}

/// Outward normal of face `f`, in the order +Z, -Z, +X, -X, +Y, -Y.
pub open spec fn face_normal_spec(f: int) -> Lattice3 {
    if f == 0 {
        lattice(0, 0, 1)
    } else if f == 1 {
        lattice(0, 0, -1)
    } else if f == 2 {
        lattice(1, 0, 0)
    } else if f == 3 {
        lattice(-1, 0, 0)
    } else if f == 4 {
        lattice(0, 1, 0)
    } else {
        lattice(0, -1, 0)
    }
}

/// Corner `c` of face `f`, listed counter-clockwise as seen from outside.
pub open spec fn face_corner_spec(f: int, c: int) -> Lattice3 {
    if f == 0 {
        if c == 0 { lattice(-1, -1, 1) } else if c == 1 { lattice(1, -1, 1) }
        else if c == 2 { lattice(1, 1, 1) } else { lattice(-1, 1, 1) }
    } else if f == 1 {
        if c == 0 { lattice(1, -1, -1) } else if c == 1 { lattice(-1, -1, -1) }
        else if c == 2 { lattice(-1, 1, -1) } else { lattice(1, 1, -1) }
    } else if f == 2 {
        if c == 0 { lattice(1, -1, 1) } else if c == 1 { lattice(1, -1, -1) }
        else if c == 2 { lattice(1, 1, -1) } else { lattice(1, 1, 1) }
    } else if f == 3 {
        if c == 0 { lattice(-1, -1, -1) } else if c == 1 { lattice(-1, -1, 1) }
        else if c == 2 { lattice(-1, 1, 1) } else { lattice(-1, 1, -1) }
    } else if f == 4 {
        if c == 0 { lattice(-1, 1, 1) } else if c == 1 { lattice(1, 1, 1) }
        else if c == 2 { lattice(1, 1, -1) } else { lattice(-1, 1, -1) }
    } else {
        if c == 0 { lattice(-1, -1, -1) } else if c == 1 { lattice(1, -1, -1) }
        else if c == 2 { lattice(1, -1, 1) } else { lattice(-1, -1, 1) }
    }
}

/// UV of corner `c` of any face: (0,0), (1,0), (1,1), (0,1).
pub open spec fn corner_uv_spec(c: int) -> TexCoord {
    if c == 0 {
        TexCoord { u: 0, v: 0 }
    } else if c == 1 {
        TexCoord { u: 1, v: 0 }
    } else if c == 2 {
        TexCoord { u: 1, v: 1 }
    } else {
        TexCoord { u: 0, v: 1 }
    }
}

/// Vertex `i` of the cube: corner `i % 4` of face `i / 4`.
pub open spec fn cube_vertex_spec(i: int) -> CubeVertex {
    CubeVertex {
        position: face_corner_spec(i / 4, i % 4),
        normal: face_normal_spec(i / 4),
        uv: corner_uv_spec(i % 4),
    }
}

/// Offset, within its face, of the vertex that index `k` of a face's six
/// indices refers to: the quad is split into triangles (0, 1, 2) and (0, 2, 3).
pub open spec fn quad_offset_spec(k: int) -> int {
    if k == 0 || k == 3 {
        0
    } else if k == 1 {
        1
    } else if k == 2 || k == 4 {
        2
    } else {
        3
    }
}

/// Index `j` of the cube's index buffer.
pub open spec fn cube_index_spec(j: int) -> u32 {
    (4 * (j / 6) + quad_offset_spec(j % 6)) as u32
}

fn face_normal(f: usize) -> (n: Lattice3)
    requires
        f < CUBE_FACES,
    ensures
        n == face_normal_spec(f as int),
{
    match f {
        0 => Lattice3 { x: 0, y: 0, z: 1 },
        1 => Lattice3 { x: 0, y: 0, z: -1 },
        2 => Lattice3 { x: 1, y: 0, z: 0 },
        3 => Lattice3 { x: -1, y: 0, z: 0 },
        4 => Lattice3 { x: 0, y: 1, z: 0 },
        _ => Lattice3 { x: 0, y: -1, z: 0 },
    }
}

fn corner(x: i8, y: i8, z: i8) -> (p: Lattice3)
    ensures
        p == lattice(x as int, y as int, z as int),
{
    Lattice3 { x, y, z }
}

fn face_corners(f: usize) -> (cs: [Lattice3; 4])
    requires
        f < CUBE_FACES,
    ensures
        forall|c: int| 0 <= c < 4 ==> #[trigger] cs@[c] == face_corner_spec(f as int, c),
{
    match f {
        0 => [corner(-1, -1, 1), corner(1, -1, 1), corner(1, 1, 1), corner(-1, 1, 1)],
        1 => [corner(1, -1, -1), corner(-1, -1, -1), corner(-1, 1, -1), corner(1, 1, -1)],
        2 => [corner(1, -1, 1), corner(1, -1, -1), corner(1, 1, -1), corner(1, 1, 1)],
        3 => [corner(-1, -1, -1), corner(-1, -1, 1), corner(-1, 1, 1), corner(-1, 1, -1)],
        4 => [corner(-1, 1, 1), corner(1, 1, 1), corner(1, 1, -1), corner(-1, 1, -1)],
        _ => [corner(-1, -1, -1), corner(1, -1, -1), corner(1, -1, 1), corner(-1, -1, 1)],
    }
}

fn corner_uvs() -> (uvs: [TexCoord; 4])
    ensures
        forall|c: int| 0 <= c < 4 ==> #[trigger] uvs@[c] == corner_uv_spec(c),
{
    [TexCoord { u: 0, v: 0 }, TexCoord { u: 1, v: 0 }, TexCoord { u: 1, v: 1 }, TexCoord { u: 0, v: 1 }]
}

/// Generates the procedural cube with flat per-face normals: six faces of
/// four vertices each, and two counter-clockwise triangles per face.
pub fn generate_cube() -> (mesh: CubeMesh)
    ensures
        mesh.vertices@.len() == CUBE_FACES * VERTICES_PER_FACE,
        mesh.indices@.len() == CUBE_FACES * INDICES_PER_FACE,
        forall|i: int| 0 <= i < mesh.vertices@.len() ==> #[trigger] mesh.vertices@[i] == cube_vertex_spec(i),
        forall|j: int| 0 <= j < mesh.indices@.len() ==> #[trigger] mesh.indices@[j] == cube_index_spec(j),
{
    let uvs = corner_uvs();
    let mut vertices: Vec<CubeVertex> = Vec::new();
    for f in 0..CUBE_FACES
        invariant
            vertices@.len() == f * 4,
            forall|c: int| 0 <= c < 4 ==> #[trigger] uvs@[c] == corner_uv_spec(c),
            forall|i: int| 0 <= i < vertices@.len() ==> #[trigger] vertices@[i] == cube_vertex_spec(i),
    {
        let normal = face_normal(f);
        let corners = face_corners(f);
        for c in 0..VERTICES_PER_FACE
            invariant
                f < CUBE_FACES,
                vertices@.len() == f * 4 + c,
                normal == face_normal_spec(f as int),
                forall|k: int| 0 <= k < 4 ==> #[trigger] uvs@[k] == corner_uv_spec(k),
                forall|k: int| 0 <= k < 4 ==> #[trigger] corners@[k] == face_corner_spec(f as int, k),
                forall|i: int| 0 <= i < vertices@.len() ==> #[trigger] vertices@[i] == cube_vertex_spec(i),
        {
            let v = CubeVertex { position: corners[c], normal, uv: uvs[c] };
            proof {
                let i = f * 4 + c;
                assert(i / 4 == f as int && i % 4 == c as int);
                assert(corners@[c as int] == face_corner_spec(f as int, c as int));
                assert(uvs@[c as int] == corner_uv_spec(c as int));
            }
            vertices.push(v);
        }
    }

    let mut indices: Vec<u32> = Vec::new();
    for face_idx in 0..6u32
        invariant
            indices@.len() == face_idx * 6,
            forall|j: int| 0 <= j < indices@.len() ==> #[trigger] indices@[j] == cube_index_spec(j),
    {
        let base = face_idx * 4;
        let quad: [u32; 6] = [base, base + 1, base + 2, base, base + 2, base + 3];
        for k in 0..INDICES_PER_FACE
            invariant
                face_idx < 6,
                base == face_idx * 4,
                quad@ == seq![base, (base + 1) as u32, (base + 2) as u32, base, (base + 2) as u32, (base + 3) as u32],
                indices@.len() == face_idx * 6 + k,
                forall|j: int| 0 <= j < indices@.len() ==> #[trigger] indices@[j] == cube_index_spec(j),
        {
            proof {
                let j = face_idx * 6 + k;
                assert(j / 6 == face_idx as int && j % 6 == k as int);
            }
            indices.push(quad[k]);
        }
    }

    CubeMesh { vertices, indices }
}


/// Difference `a - b` of two lattice vectors, over the integers.
pub open spec fn sub3(a: Lattice3, b: Lattice3) -> (int, int, int) {
    (a.x - b.x, a.y - b.y, a.z - b.z)
}

/// Cross product of two integer vectors.
pub open spec fn cross3(a: (int, int, int), b: (int, int, int)) -> (int, int, int) {
    (a.1 * b.2 - a.2 * b.1, a.2 * b.0 - a.0 * b.2, a.0 * b.1 - a.1 * b.0)
}

/// Dot product of two lattice vectors.
pub open spec fn dot3(a: Lattice3, b: Lattice3) -> int {
    a.x * b.x + a.y * b.y + a.z * b.z
}

/// `n` is one of the six unit axis vectors.
pub open spec fn is_unit_axis(n: Lattice3) -> bool {
    ||| (n.x == 1 || n.x == -1) && n.y == 0 && n.z == 0
    ||| n.x == 0 && (n.y == 1 || n.y == -1) && n.z == 0
    ||| n.x == 0 && n.y == 0 && (n.z == 1 || n.z == -1)
}

/// `p` is a corner of the cube: every coordinate is plus or minus one.
pub open spec fn is_cube_corner(p: Lattice3) -> bool {
    &&& (p.x == 1 || p.x == -1)
    &&& (p.y == 1 || p.y == -1)
    &&& (p.z == 1 || p.z == -1)
}

/// Every index of the cube's index buffer names one of its vertices.
pub proof fn lemma_cube_indices_in_range(j: int)
    requires
        0 <= j < CUBE_FACES * INDICES_PER_FACE,
    ensures
        cube_index_spec(j) < CUBE_FACES * VERTICES_PER_FACE,
{
}

/// Vertex `v` is among the six indices of face `f`.
pub open spec fn face_indices_contain(f: int, v: int) -> bool {
    exists|k: int| 0 <= k < INDICES_PER_FACE && #[trigger] cube_index_spec(6 * f + k) == v
}

/// Each face of the cube is wholly covered by its two triangles: the six
/// indices of face `f` refer only to the face's own four vertices
/// `4f .. 4f + 3`, every one of those four appears among them, each triangle
/// has three distinct vertices, and the two triangles share exactly the
/// diagonal from the face's first to its third vertex.
pub proof fn lemma_cube_faces_covered(f: int)
    requires
        0 <= f < CUBE_FACES,
    ensures
        forall|k: int|
            0 <= k < INDICES_PER_FACE ==> 4 * f <= #[trigger] cube_index_spec(6 * f + k) < 4 * f + 4,
        forall|v: int| 4 * f <= v < 4 * f + 4 ==> #[trigger] face_indices_contain(f, v),
        forall|t: int, a: int, b: int|
            0 <= t < 2 && 0 <= a < b < 3 ==> #[trigger] cube_index_spec(6 * f + 3 * t + a)
                != #[trigger] cube_index_spec(6 * f + 3 * t + b),
        cube_index_spec(6 * f) == cube_index_spec(6 * f + 3),
        cube_index_spec(6 * f + 2) == cube_index_spec(6 * f + 4),
        cube_index_spec(6 * f + 1) != cube_index_spec(6 * f + 5),
{
    assert forall|k: int| 0 <= k < 6 implies #[trigger] cube_index_spec(6 * f + k) == 4 * f + quad_offset_spec(k) by {
        assert((6 * f + k) / 6 == f && (6 * f + k) % 6 == k);
    }
    assert(cube_index_spec(6 * f) == 4 * f);
    assert(cube_index_spec(6 * f + 1) == 4 * f + 1);
    assert(cube_index_spec(6 * f + 2) == 4 * f + 2);
    assert(cube_index_spec(6 * f + 3) == 4 * f);
    assert(cube_index_spec(6 * f + 4) == 4 * f + 2);
    assert(cube_index_spec(6 * f + 5) == 4 * f + 3);
    assert forall|v: int| 4 * f <= v < 4 * f + 4 implies #[trigger] face_indices_contain(f, v) by {
        if v == 4 * f {
            assert(cube_index_spec(6 * f + 0) == v);
        } else if v == 4 * f + 1 {
            assert(cube_index_spec(6 * f + 1) == v);
        } else if v == 4 * f + 2 {
            assert(cube_index_spec(6 * f + 2) == v);
        } else {
            assert(cube_index_spec(6 * f + 5) == v);
        }
    }
}

/// Every vertex of the cube is a corner of the cube lying on the face that
/// its normal points out of: the normal is a unit axis vector and the
/// corner's coordinate along it is the normal's own, so the normal points
/// away from the centre.
pub proof fn lemma_cube_vertex_on_its_face(i: int)
    requires
        0 <= i < CUBE_FACES * VERTICES_PER_FACE,
    ensures
        is_cube_corner(cube_vertex_spec(i).position),
        is_unit_axis(cube_vertex_spec(i).normal),
        dot3(cube_vertex_spec(i).position, cube_vertex_spec(i).normal) == 1,
{
    let f = i / 4;
    let c = i % 4;
    assert(0 <= f < 6 && 0 <= c < 4);
    if f == 0 { } else if f == 1 { } else if f == 2 { } else if f == 3 { } else if f == 4 { } else { }
}

/// The three vertices of triangle `t` (indices `3t`, `3t + 1`, `3t + 2`).
pub open spec fn triangle_vertex(t: int, k: int) -> CubeVertex {
    cube_vertex_spec(cube_index_spec(3 * t + k) as int)
}

/// The cross product `(b - a) x (c - a)` for three lattice points.
pub open spec fn area_vector(a: Lattice3, b: Lattice3, c: Lattice3) -> (int, int, int) {
    cross3(sub3(b, a), sub3(c, a))
}

/// The normal `n` scaled by four.
pub open spec fn scaled_normal(n: Lattice3) -> (int, int, int) {
    (4 * n.x, 4 * n.y, 4 * n.z)
}

/// Both triangles of face `f`, corners (0, 1, 2) and (0, 2, 3), have area
/// vector four times the face normal.
proof fn lemma_face_winding(f: int)
    requires
        0 <= f < CUBE_FACES,
    ensures
        area_vector(face_corner_spec(f, 0), face_corner_spec(f, 1), face_corner_spec(f, 2))
            == scaled_normal(face_normal_spec(f)),
        area_vector(face_corner_spec(f, 0), face_corner_spec(f, 2), face_corner_spec(f, 3))
            == scaled_normal(face_normal_spec(f)),
{
    assert(area_vector(face_corner_spec(f, 0), face_corner_spec(f, 1), face_corner_spec(f, 2))
        == scaled_normal(face_normal_spec(f))) by (nonlinear_arith)
        requires
            0 <= f < 6,
    ;
    assert(area_vector(face_corner_spec(f, 0), face_corner_spec(f, 2), face_corner_spec(f, 3))
        == scaled_normal(face_normal_spec(f))) by (nonlinear_arith)
        requires
            0 <= f < 6,
    ;
}

/// Every triangle of the cube is flat-shaded and wound counter-clockwise as
/// seen from outside: its three vertices share one normal, and the cross
/// product of its two edges from the first vertex is that normal scaled by
/// four (twice the area of a half face, in half-edge units).
pub proof fn lemma_cube_triangles_face_outward(t: int)
    requires
        0 <= t < CUBE_FACES * INDICES_PER_FACE / 3,
    ensures
        triangle_vertex(t, 1).normal == triangle_vertex(t, 0).normal,
        triangle_vertex(t, 2).normal == triangle_vertex(t, 0).normal,
        area_vector(triangle_vertex(t, 0).position, triangle_vertex(t, 1).position, triangle_vertex(t, 2).position)
            == scaled_normal(triangle_vertex(t, 0).normal),
{
    let f = t / 2;
    lemma_face_winding(f);
    if t % 2 == 0 {
        assert(cube_index_spec(3 * t) == 4 * f);
        assert(cube_index_spec(3 * t + 1) == 4 * f + 1);
        assert(cube_index_spec(3 * t + 2) == 4 * f + 2);
    } else {
        assert(cube_index_spec(3 * t) == 4 * f);
        assert(cube_index_spec(3 * t + 1) == 4 * f + 2);
        assert(cube_index_spec(3 * t + 2) == 4 * f + 3);
    }
    assert((4 * f) / 4 == f && (4 * f) % 4 == 0);
    assert((4 * f + 1) / 4 == f && (4 * f + 1) % 4 == 1);
    assert((4 * f + 2) / 4 == f && (4 * f + 2) % 4 == 2);
    assert((4 * f + 3) / 4 == f && (4 * f + 3) % 4 == 3);
}

} // verus!
