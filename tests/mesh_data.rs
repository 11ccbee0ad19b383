use brepview::mesh::Mesh;
use brepview::pipeline::{create_pipeline, DrawCall, ShaderInfo, VertexLayout};

#[test]
fn empty_mesh_has_placeholder_bytes() {
    let m = Mesh::new();
    assert_eq!(m.vertex_contents, vec![0u8]);
    assert_eq!(m.index_contents, vec![0u8]);
    assert_eq!(m.vertex_count, 0);
    assert_eq!(m.index_count, 0);
}

#[test]
fn mesh_indices_become_two_bytes_each() {
    let indices: [u16; 3] = [1, 0x0203, 0xfffe];
    let m = Mesh::from(vec![7u8; 48], 2, &indices);
    assert_eq!(m.vertex_contents, vec![7u8; 48]);
    assert_eq!(m.vertex_count, 2);
    assert_eq!(m.index_count, 3);
    assert_eq!(m.index_contents.len(), 6);
    let back: Vec<u16> = m
        .index_contents
        .chunks(2)
        .map(|c| u16::from_ne_bytes([c[0], c[1]]))
        .collect();
    assert_eq!(back, indices.to_vec());
}

#[test]
fn mesh_pipeline_draws_every_index() {
    let m = Mesh::from(vec![0u8; 72], 3, &[0, 1, 2, 2, 1, 0, 0]);
    let info = m.pipeline_info(
        VertexLayout { array_stride: 24, attributes: vec![] },
        wgpu::FrontFace::Cw,
        Some(wgpu::Face::Front),
        ShaderInfo { label: None, source: String::new(), vertex_entry: None, fragment_entry: None },
    );
    assert!(info.is_drawable());
    assert_eq!(create_pipeline(&info).draw_call(), DrawCall::Indexed { count: 7 });
}
