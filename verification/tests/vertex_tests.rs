use broth::vertex::{
    build_mesh, dedup_vertices, SpaceDimension, Vertex3, VertexError, COLOR_ONE_BITS,
};

fn vertex(tag: u32) -> Vertex3 {
    Vertex3 {
        pos_x: tag,
        pos_y: tag + 1,
        pos_z: tag + 2,
        color_r: COLOR_ONE_BITS,
        color_g: COLOR_ONE_BITS,
        color_b: COLOR_ONE_BITS,
        tex_u: tag + 3,
        tex_v: tag + 4,
    }
}

#[test]
fn dedup_of_one_repeated_vertex_yields_one_entry() {
    let v = vertex(100);
    let input = vec![v, v, v, v, v];
    let (vertices, indices) = dedup_vertices(&input);
    assert_eq!(vertices, vec![v]);
    assert_eq!(indices, vec![0, 0, 0, 0, 0]);
}

#[test]
fn dedup_keeps_first_occurrences_in_order() {
    let a = vertex(0);
    let b = vertex(10);
    let c = vertex(20);
    let input = vec![a, b, a, c, b, a];
    let (vertices, indices) = dedup_vertices(&input);
    assert_eq!(vertices, vec![a, b, c]);
    assert_eq!(indices, vec![0, 1, 0, 2, 1, 0]);
}

#[test]
fn dedup_of_empty_input_is_empty() {
    let input: Vec<Vertex3> = Vec::new();
    let (vertices, indices) = dedup_vertices(&input);
    assert!(vertices.is_empty());
    assert!(indices.is_empty());
}

#[test]
fn build_mesh_gathers_and_dedups_corners() {
    // Two positions and two texture coordinate pairs; three corners, the
    // first and last identical.
    let positions = vec![1, 2, 3, 4, 5, 6];
    let texcoords = vec![7, 8, 9, 10];
    let pos_indices = vec![0, 1, 0];
    let tex_indices = vec![0, 1, 0];
    let (vertices, indices) = build_mesh(&positions, &texcoords, &pos_indices, &tex_indices)
        .unwrap();
    assert_eq!(vertices.len(), 2);
    assert_eq!(
        vertices[0],
        Vertex3 {
            pos_x: 1,
            pos_y: 2,
            pos_z: 3,
            color_r: COLOR_ONE_BITS,
            color_g: COLOR_ONE_BITS,
            color_b: COLOR_ONE_BITS,
            tex_u: 7,
            tex_v: 8,
        }
    );
    assert_eq!(
        vertices[1],
        Vertex3 {
            pos_x: 4,
            pos_y: 5,
            pos_z: 6,
            color_r: COLOR_ONE_BITS,
            color_g: COLOR_ONE_BITS,
            color_b: COLOR_ONE_BITS,
            tex_u: 9,
            tex_v: 10,
        }
    );
    assert_eq!(indices, vec![0, 1, 0]);
}

#[test]
fn build_mesh_rejects_mismatched_index_lists() {
    let positions = vec![1, 2, 3];
    let texcoords = vec![7, 8];
    let got = build_mesh(&positions, &texcoords, &vec![0, 0], &vec![0]);
    assert!(matches!(got, Err(VertexError::MalformedMesh)));
}

#[test]
fn build_mesh_rejects_out_of_range_indices() {
    let positions = vec![1, 2, 3];
    let texcoords = vec![7, 8];
    let got = build_mesh(&positions, &texcoords, &vec![1], &vec![0]);
    assert!(matches!(got, Err(VertexError::MalformedMesh)));
    let got = build_mesh(&positions, &texcoords, &vec![0], &vec![1]);
    assert!(matches!(got, Err(VertexError::MalformedMesh)));
}

#[test]
fn color_constant_is_the_bits_of_one() {
    assert_eq!(f32::from_bits(COLOR_ONE_BITS), 1.0f32);
}

#[test]
fn space_dimension_defaults_to_3d() {
    assert_eq!(SpaceDimension::default(), SpaceDimension::D3);
}
