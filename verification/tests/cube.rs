use prism::cube::{generate_cube, CubeVertex, Lattice3, TexCoord};

fn l(x: i8, y: i8, z: i8) -> Lattice3 {
    Lattice3 { x, y, z }
}

#[test]
fn cube_has_24_vertices_and_36_indices() {
    let mesh = generate_cube();
    assert_eq!(mesh.vertices.len(), 24);
    assert_eq!(mesh.indices.len(), 36);
}

#[test]
fn cube_front_face_vertices() {
    let mesh = generate_cube();
    let n = l(0, 0, 1);
    assert_eq!(mesh.vertices[0], CubeVertex { position: l(-1, -1, 1), normal: n, uv: TexCoord { u: 0, v: 0 } });
    assert_eq!(mesh.vertices[1], CubeVertex { position: l(1, -1, 1), normal: n, uv: TexCoord { u: 1, v: 0 } });
    assert_eq!(mesh.vertices[2], CubeVertex { position: l(1, 1, 1), normal: n, uv: TexCoord { u: 1, v: 1 } });
    assert_eq!(mesh.vertices[3], CubeVertex { position: l(-1, 1, 1), normal: n, uv: TexCoord { u: 0, v: 1 } });
}

#[test]
fn cube_bottom_face_is_last() {
    let mesh = generate_cube();
    assert_eq!(mesh.vertices[20].normal, l(0, -1, 0));
    assert_eq!(mesh.vertices[20].position, l(-1, -1, -1));
    assert_eq!(mesh.vertices[23].position, l(-1, -1, 1));
}

#[test]
fn cube_index_pattern() {
    let mesh = generate_cube();
    assert_eq!(&mesh.indices[0..6], &[0, 1, 2, 0, 2, 3]);
    assert_eq!(&mesh.indices[30..36], &[20, 21, 22, 20, 22, 23]);
    assert!(mesh.indices.iter().all(|&i| (i as usize) < mesh.vertices.len()));
}

#[test]
fn cube_triangles_wind_counter_clockwise_outward() {
    let mesh = generate_cube();
    for tri in mesh.indices.chunks(3) {
        let a = mesh.vertices[tri[0] as usize];
        let b = mesh.vertices[tri[1] as usize];
        let c = mesh.vertices[tri[2] as usize];
        let e1 = [(b.position.x - a.position.x) as i32, (b.position.y - a.position.y) as i32, (b.position.z - a.position.z) as i32];
        let e2 = [(c.position.x - a.position.x) as i32, (c.position.y - a.position.y) as i32, (c.position.z - a.position.z) as i32];
        let cross = [
            e1[1] * e2[2] - e1[2] * e2[1],
            e1[2] * e2[0] - e1[0] * e2[2],
            e1[0] * e2[1] - e1[1] * e2[0],
        ];
        let n = [a.normal.x as i32, a.normal.y as i32, a.normal.z as i32];
        assert_eq!(cross, [4 * n[0], 4 * n[1], 4 * n[2]]);
        assert_eq!(a.normal, b.normal);
        assert_eq!(a.normal, c.normal);
    }
}

#[test]
fn cube_vertices_lie_on_their_faces() {
    let mesh = generate_cube();
    for v in &mesh.vertices {
        let dot = v.position.x as i32 * v.normal.x as i32
            + v.position.y as i32 * v.normal.y as i32
            + v.position.z as i32 * v.normal.z as i32;
        assert_eq!(dot, 1);
    }
}
