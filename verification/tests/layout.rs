use prism::mesh::{
    assemble_mesh, first_mesh, first_primitive, interleave, vertex_layout, AttributeFormat, AttributeLayout, LoadError, StepMode,
};

#[test]
fn vertex_layout_matches_vertex_record() {
    let layout = vertex_layout();
    assert_eq!(layout.array_stride, 32);
    assert_eq!(layout.step_mode, StepMode::Vertex);
    assert_eq!(
        layout.attributes,
        vec![
            AttributeLayout { offset: 0, shader_location: 0, format: AttributeFormat::Float32x3 },
            AttributeLayout { offset: 12, shader_location: 1, format: AttributeFormat::Float32x3 },
            AttributeLayout { offset: 24, shader_location: 2, format: AttributeFormat::Float32x2 },
        ]
    );
}

#[test]
fn vertex_layout_is_tightly_packed() {
    let layout = vertex_layout();
    let mut end = 0;
    for a in &layout.attributes {
        assert_eq!(a.offset, end);
        end += a.format.size();
    }
    assert_eq!(end, layout.array_stride);
}

#[test]
fn attribute_format_sizes() {
    assert_eq!(AttributeFormat::Float32x2.size(), 8);
    assert_eq!(AttributeFormat::Float32x3.size(), 12);
}

#[test]
fn interleave_uses_defaults_for_missing_streams() {
    let positions = vec![[1.0f32, 2.0, 3.0], [4.0, 5.0, 6.0]];
    let v = interleave(&positions, &None, [0.0f32, 1.0, 0.0], &None, [0.0f32, 0.0]);
    assert_eq!(v, vec![
        ([1.0, 2.0, 3.0], [0.0, 1.0, 0.0], [0.0, 0.0]),
        ([4.0, 5.0, 6.0], [0.0, 1.0, 0.0], [0.0, 0.0]),
    ]);
}

#[test]
fn interleave_stops_at_shortest_stream() {
    let positions = vec![1u8, 2, 3];
    let normals = Some(vec![10u8, 20, 30, 40]);
    let uvs = Some(vec![7u8, 8]);
    let v = interleave(&positions, &normals, 0u8, &uvs, 0u8);
    assert_eq!(v, vec![(1, 10, 7), (2, 20, 8)]);
}

#[test]
fn assemble_mesh_requires_positions_first() {
    let r = assemble_mesh::<u8, u8, u8>(None, None, 0, None, 0, None);
    assert_eq!(r.err(), Some(LoadError::NoPositions));
}

#[test]
fn assemble_mesh_requires_indices() {
    let r = assemble_mesh::<u8, u8, u8>(Some(vec![1]), None, 0, None, 0, None);
    assert_eq!(r.err(), Some(LoadError::NoIndices));
}

#[test]
fn assemble_mesh_keeps_indices() {
    let r = assemble_mesh(Some(vec![1u8, 2]), Some(vec![5u8]), 0, None, 9u8, Some(vec![0, 1, 0]));
    let mesh = r.ok().unwrap();
    assert_eq!(mesh.vertices, vec![(1, 5, 9)]);
    assert_eq!(mesh.indices, vec![0, 1, 0]);
}

#[test]
fn load_error_messages() {
    assert_eq!(LoadError::NoMeshes.message(), "glTF file contains no meshes");
    assert_eq!(LoadError::NoPrimitives.message(), "glTF mesh contains no primitives");
    assert_eq!(LoadError::NoPositions.message(), "Primitive has no position data");
    assert_eq!(LoadError::NoIndices.message(), "Primitive has no index data");
}

#[test]
fn first_mesh_picks_first_or_refuses() {
    let none: Vec<u8> = vec![];
    assert_eq!(first_mesh(&none), Err(LoadError::NoMeshes));
    assert_eq!(first_mesh(&vec![4u8, 5]), Ok(&4));
    assert_eq!(first_primitive(&none), Err(LoadError::NoPrimitives));
    assert_eq!(first_primitive(&vec![9u8]), Ok(&9));
}
