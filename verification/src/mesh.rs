use vstd::prelude::*;

verus! {

/// Format of one vertex attribute as the vertex shader reads it: a vector of
/// two or three 32-bit floating-point components.
#[derive(Clone, Copy, Debug, PartialEq, Eq)]
pub enum AttributeFormat {
    Float32x2,
    Float32x3,
}

/// Whether the vertex buffer advances per vertex or per instance.
#[derive(Clone, Copy, Debug, PartialEq, Eq)]
pub enum StepMode {
    Vertex,
    Instance,
}

/// One attribute of a vertex buffer layout.
#[derive(Clone, Copy, Debug, PartialEq, Eq)]
pub struct AttributeLayout {
    pub offset: u64,
    pub shader_location: u32,
    pub format: AttributeFormat,
}

/// The layout of the vertex buffer as the vertex shader expects it.
pub struct VertexLayout {
    pub array_stride: u64,
    pub step_mode: StepMode,
    pub attributes: Vec<AttributeLayout>,
}

/// Bytes in one vertex component.
pub const COMPONENT_BYTES: u64 = 4;

/// Bytes of one vertex record: a position and a normal of three components
/// each, then a UV pair of two components, laid out without padding.
pub const VERTEX_BYTES: u64 = 32;

/// Byte size of an attribute of format `f`.
pub open spec fn format_size_spec(f: AttributeFormat) -> int {
    match f {
        AttributeFormat::Float32x2 => 2 * COMPONENT_BYTES,
        AttributeFormat::Float32x3 => 3 * COMPONENT_BYTES,
    }
}

impl AttributeFormat {
    /// Byte size of an attribute of this format.
    pub fn size(&self) -> (n: u64)
        ensures
            n == format_size_spec(*self),
    {
        match self {
            AttributeFormat::Float32x2 => 2 * COMPONENT_BYTES,
            AttributeFormat::Float32x3 => 3 * COMPONENT_BYTES,
        }
    }
}

/// The attributes of the vertex layout: position at location 0, normal at
/// location 1, UV at location 2.
pub open spec fn vertex_attributes_spec() -> Seq<AttributeLayout> {
    seq![
        AttributeLayout { offset: 0, shader_location: 0, format: AttributeFormat::Float32x3 },
        AttributeLayout { offset: 12, shader_location: 1, format: AttributeFormat::Float32x3 },
        AttributeLayout { offset: 24, shader_location: 2, format: AttributeFormat::Float32x2 },
    ]
}

/// Describes the vertex buffer layout: one vertex record per step, with the
/// position, normal and UV attributes at byte offsets 0, 12 and 24.
pub fn vertex_layout() -> (layout: VertexLayout)
    ensures
        layout.array_stride == VERTEX_BYTES,
        layout.step_mode == StepMode::Vertex,
        layout.attributes@ == vertex_attributes_spec(),
{
    let mut attributes: Vec<AttributeLayout> = Vec::new();
    attributes.push(AttributeLayout { offset: 0, shader_location: 0, format: AttributeFormat::Float32x3 });
    attributes.push(
        AttributeLayout {
            offset: 3 * COMPONENT_BYTES,
            shader_location: 1,
            format: AttributeFormat::Float32x3,
        },
    );
    attributes.push(
        AttributeLayout {
            offset: 6 * COMPONENT_BYTES,
            shader_location: 2,
            format: AttributeFormat::Float32x2,
        },
    );
    assert(attributes@ =~= vertex_attributes_spec());
    VertexLayout { array_stride: VERTEX_BYTES, step_mode: StepMode::Vertex, attributes }
}

/// The vertex layout is tightly packed and covers the whole record: the
/// first attribute starts at offset zero, each next attribute starts where
/// the one before ends, the last ends at the stride, and the shader
/// locations are 0, 1, 2 in order. So no two attributes overlap and every
/// attribute lies inside one vertex record.
pub proof fn lemma_vertex_layout_packed()
    ensures
        vertex_attributes_spec()[0].offset == 0,
        forall|i: int|
            0 <= i < vertex_attributes_spec().len() - 1 ==> #[trigger] vertex_attributes_spec()[i
                + 1].offset == vertex_attributes_spec()[i].offset + format_size_spec(
                vertex_attributes_spec()[i].format,
            ),
        vertex_attributes_spec().last().offset + format_size_spec(
            vertex_attributes_spec().last().format,
        ) == VERTEX_BYTES,
        forall|i: int|
            0 <= i < vertex_attributes_spec().len() ==> #[trigger] vertex_attributes_spec()[i].shader_location
                == i,
{
    assert forall|i: int| 0 <= i < vertex_attributes_spec().len() - 1 implies #[trigger] vertex_attributes_spec()[i
        + 1].offset == vertex_attributes_spec()[i].offset + format_size_spec(
        vertex_attributes_spec()[i].format,
    ) by {
        if i == 0 {
        } else {
        }
    }
}


/// Why a model file yields no mesh.
#[derive(Clone, Copy, Debug, PartialEq, Eq)]
pub enum LoadError {
    NoMeshes,
    NoPrimitives,
    NoPositions,
    NoIndices,
}

impl LoadError {
    /// The message that reports this error.
    pub fn message(&self) -> (m: &'static str)
        ensures
            m@ == (match *self {
                LoadError::NoMeshes => "glTF file contains no meshes"@,
                LoadError::NoPrimitives => "glTF mesh contains no primitives"@,
                LoadError::NoPositions => "Primitive has no position data"@,
                LoadError::NoIndices => "Primitive has no index data"@,
            }),
    {
        match self {
            LoadError::NoMeshes => "glTF file contains no meshes",
            LoadError::NoPrimitives => "glTF mesh contains no primitives",
            LoadError::NoPositions => "Primitive has no position data",
            LoadError::NoIndices => "Primitive has no index data",
        }
    }
}

/// The first mesh of a model file, the one that is loaded; a file with no
/// mesh is refused with [`LoadError::NoMeshes`].
pub fn first_mesh<M>(meshes: &Vec<M>) -> (r: Result<&M, LoadError>)
    ensures
        meshes@.len() == 0 ==> r == Err::<&M, LoadError>(LoadError::NoMeshes),
        meshes@.len() > 0 ==> r == Ok::<&M, LoadError>(&meshes@[0]),
{
    if meshes.len() == 0 {
        Err(LoadError::NoMeshes)
    } else {
        Ok(&meshes[0])
    }
}

/// The first primitive of the loaded mesh, the one whose streams are read; a
/// mesh with no primitive is refused with [`LoadError::NoPrimitives`].
pub fn first_primitive<P>(primitives: &Vec<P>) -> (r: Result<&P, LoadError>)
    ensures
        primitives@.len() == 0 ==> r == Err::<&P, LoadError>(LoadError::NoPrimitives),
        primitives@.len() > 0 ==> r == Ok::<&P, LoadError>(&primitives@[0]),
{
    if primitives.len() == 0 {
        Err(LoadError::NoPrimitives)
    } else {
        Ok(&primitives[0])
    }
}

/// A mesh whose vertices are (position, normal, UV) triples, with its
/// index buffer.
pub struct InterleavedMesh<P, N, T> {
    pub vertices: Vec<(P, N, T)>,
    pub indices: Vec<u32>,
}

/// Length of an optional attribute stream, where a missing stream stands for
/// one default value per position.
pub open spec fn stream_len<A>(stream: Option<Seq<A>>, positions_len: int) -> int {
    match stream {
        Some(s) => s.len() as int,
        None => positions_len,
    }
}

/// Element `i` of an optional attribute stream, or the default where the
/// stream is missing.
pub open spec fn stream_at<A>(stream: Option<Seq<A>>, default: A, i: int) -> A {
    match stream {
        Some(s) => s[i],
        None => default,
    }
}

pub open spec fn min3(a: int, b: int, c: int) -> int {
    let ab = if a <= b { a } else { b };
    if ab <= c { ab } else { c }
}

pub open spec fn opt_view<A>(v: Option<Vec<A>>) -> Option<Seq<A>> {
    match v {
        Some(x) => Some(x@),
        None => None,
    }
}

/// The interleaved vertices of position, normal and UV streams: as many as
/// the shortest stream holds, vertex `i` made of element `i` of each.
pub open spec fn interleaved_spec<P, N, T>(
    positions: Seq<P>,
    normals: Option<Seq<N>>,
    default_normal: N,
    uvs: Option<Seq<T>>,
    default_uv: T,
) -> Seq<(P, N, T)> {
    Seq::new(
        min3(
            positions.len() as int,
            stream_len(normals, positions.len() as int),
            stream_len(uvs, positions.len() as int),
        ) as nat,
        |i: int| (positions[i], stream_at(normals, default_normal, i), stream_at(uvs, default_uv, i)),
    )
}

/// Interleaving keeps every stream: vertex `i` carries position `i`, and
/// normal and UV `i` of their streams wherever those are present, whatever
/// their lengths; a default stands in only for a missing stream. There are as
/// many vertices as the shortest present stream holds, and as many as
/// positions when both other streams are missing.
pub proof fn lemma_interleave_takes_streams<P, N, T>(
    positions: Seq<P>,
    normals: Option<Seq<N>>,
    default_normal: N,
    uvs: Option<Seq<T>>,
    default_uv: T,
)
    ensures
        ({
            let v = interleaved_spec(positions, normals, default_normal, uvs, default_uv);
            &&& v.len() <= positions.len()
            &&& normals matches Some(ns) ==> v.len() <= ns.len()
            &&& uvs matches Some(us) ==> v.len() <= us.len()
            &&& (v.len() == positions.len() || (normals matches Some(ns) && v.len() == ns.len()) || (
            uvs matches Some(us) && v.len() == us.len()))
            &&& forall|i: int|
                0 <= i < v.len() ==> (#[trigger] v[i]).0 == positions[i] && (match normals {
                    Some(ns) => v[i].1 == ns[i],
                    None => v[i].1 == default_normal,
                }) && (match uvs {
                    Some(us) => v[i].2 == us[i],
                    None => v[i].2 == default_uv,
                })
        }),
{
}

/// Zips the position stream with the normal and UV streams into vertices.
/// A missing normal or UV stream counts as that default repeated once per
/// position; the result stops at the end of the shortest stream.
pub fn interleave<P: Copy, N: Copy, T: Copy>(
    positions: &Vec<P>,
    normals: &Option<Vec<N>>,
    default_normal: N,
    uvs: &Option<Vec<T>>,
    default_uv: T,
) -> (vertices: Vec<(P, N, T)>)
    ensures
        vertices@ == interleaved_spec(positions@, opt_view(*normals), default_normal, opt_view(*uvs), default_uv),
        forall|i: int|
            0 <= i < vertices@.len() ==> (#[trigger] vertices@[i]).0 == positions@[i] && (match *normals {
                Some(ns) => vertices@[i].1 == ns@[i],
                None => vertices@[i].1 == default_normal,
            }) && (match *uvs {
                Some(us) => vertices@[i].2 == us@[i],
                None => vertices@[i].2 == default_uv,
            }),
{
    proof {
        lemma_interleave_takes_streams(positions@, opt_view(*normals), default_normal, opt_view(*uvs), default_uv);
    }
    let mut n: usize = positions.len();
    match normals {
        Some(ns) => {
            if ns.len() < n {
                n = ns.len();
            }
        },
        None => {},
    }
    match uvs {
        Some(us) => {
            if us.len() < n {
                n = us.len();
            }
        },
        None => {},
    }
    let ghost spec_result = interleaved_spec(positions@, opt_view(*normals), default_normal, opt_view(*uvs), default_uv);
    assert(spec_result.len() == n);
    let mut vertices: Vec<(P, N, T)> = Vec::new();
    for i in 0..n
        invariant
            n == spec_result.len(),
            spec_result == interleaved_spec(positions@, opt_view(*normals), default_normal, opt_view(*uvs), default_uv),
            vertices@ == spec_result.take(i as int),
    {
        let p = positions[i];
        let nrm = match normals {
            Some(ns) => ns[i],
            None => default_normal,
        };
        let uv = match uvs {
            Some(us) => us[i],
            None => default_uv,
        };
        vertices.push((p, nrm, uv));
        assert(vertices@ =~= spec_result.take(i + 1));
    }
    assert(vertices@ =~= spec_result);
    vertices
}

/// Builds a mesh from the attribute streams read from a model's primitive.
/// Positions and indices are required, checked in that order; a missing
/// normal or UV stream is filled with the given default.
pub fn assemble_mesh<P: Copy, N: Copy, T: Copy>(
    positions: Option<Vec<P>>,
    normals: Option<Vec<N>>,
    default_normal: N,
    uvs: Option<Vec<T>>,
    default_uv: T,
    indices: Option<Vec<u32>>,
) -> (result: Result<InterleavedMesh<P, N, T>, LoadError>)
    ensures
        positions is None ==> result == Err::<InterleavedMesh<P, N, T>, LoadError>(LoadError::NoPositions),
        positions is Some && indices is None ==> result == Err::<InterleavedMesh<P, N, T>, LoadError>(
            LoadError::NoIndices,
        ),
        positions is Some && indices is Some ==> (result matches Ok(mesh) && mesh.vertices@
            == interleaved_spec(positions.unwrap()@, opt_view(normals), default_normal, opt_view(uvs), default_uv)
            && mesh.indices@ == indices.unwrap()@),
{
    let positions = match positions {
        Some(p) => p,
        None => return Err(LoadError::NoPositions),
    };
    let vertices = interleave(&positions, &normals, default_normal, &uvs, default_uv);
    match indices {
        Some(indices) => Ok(InterleavedMesh { vertices, indices }),
        None => Err(LoadError::NoIndices),
    }
}

} // verus!
