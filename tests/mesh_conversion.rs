use bevy_prototype_egui_plugin::mesh::{
    convert_paint_jobs, convert_triangles_to_mesh, PrimitiveTopology, Triangles, Vertex, ZERO_BITS,
};

fn vertex(x: f32, y: f32, u: u16, v: u16) -> Vertex {
    Vertex { pos: (x.to_bits(), y.to_bits()), uv: (u, v), color: (255, 255, 255, 255) }
}

#[test]
fn mesh_has_one_entry_per_vertex() {
    let t = Triangles {
        indices: vec![0, 1, 2, 2, 1, 3],
        vertices: vec![
            vertex(0.0, 0.0, 0, 0),
            vertex(10.5, 0.0, 7, 0),
            vertex(0.0, 20.25, 0, 9),
            vertex(10.5, 20.25, 7, 9),
        ],
    };
    let m = convert_triangles_to_mesh(t);
    assert_eq!(m.primitive_topology, PrimitiveTopology::TriangleList);
    assert_eq!(m.positions.len(), 4);
    assert_eq!(m.uvs.len(), 4);
    assert_eq!(m.indices, Some(vec![0, 1, 2, 2, 1, 3]));
    assert_eq!(m.positions[3], (10.5f32.to_bits(), 20.25f32.to_bits(), ZERO_BITS));
    assert_eq!(f32::from_bits(m.positions[1].2), 0.0);
    assert_eq!(m.uvs[2], (0, 9));
}

#[test]
fn empty_triangle_list_gives_empty_mesh() {
    let m = convert_triangles_to_mesh(Triangles { indices: vec![], vertices: vec![] });
    assert!(m.positions.is_empty());
    assert!(m.uvs.is_empty());
    assert_eq!(m.indices, Some(vec![]));
}

#[test]
fn indices_pass_through_unchecked() {
    let t = Triangles { indices: vec![9, 9], vertices: vec![vertex(1.0, 2.0, 3, 4)] };
    let m = convert_triangles_to_mesh(t);
    assert_eq!(m.indices, Some(vec![9, 9]));
    assert_eq!(m.positions, vec![(1.0f32.to_bits(), 2.0f32.to_bits(), 0)]);
}

#[test]
fn paint_jobs_convert_in_order() {
    let a = Triangles { indices: vec![0], vertices: vec![vertex(1.0, 1.0, 1, 1)] };
    let b = Triangles { indices: vec![0, 1], vertices: vec![vertex(2.0, 2.0, 2, 2), vertex(3.0, 3.0, 3, 3)] };
    let meshes = convert_paint_jobs(vec![a, b]);
    assert_eq!(meshes.len(), 2);
    assert_eq!(meshes[0].positions.len(), 1);
    assert_eq!(meshes[1].positions.len(), 2);
    assert_eq!(meshes[1].uvs[1], (3, 3));
    assert_eq!(meshes[1].indices, Some(vec![0, 1]));
}
