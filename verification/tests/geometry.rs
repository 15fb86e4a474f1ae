//! Vertex equality, model assembly and vertex encoding.

use render_core::swapchain::ImageViewConfig;
use render_core::swapchain::{create_image_view, create_swapchain_image_views};
use render_core::vertex::{
    dedup_vertices, encode_vertices, gather_vertices, load_model, Vertex, COLOR_WHITE_BITS,
    FORMAT_R32G32B32_SFLOAT,
};

fn vertex(p: u32, c: u32, n: u32) -> Vertex {
    Vertex { px: p, py: p, pz: p, cx: c, cy: c, cz: c, nx: n, ny: n, nz: n }
}

#[test]
fn vertex_equality_ignores_normal() {
    assert_eq!(vertex(1, 2, 3), vertex(1, 2, 99));
    assert_ne!(vertex(1, 2, 3), vertex(1, 4, 3));
    assert_ne!(vertex(5, 2, 3), vertex(1, 2, 3));
}

#[test]
fn dedup_collapses_repeated_vertices() {
    let stream = vec![vertex(1, 1, 0), vertex(2, 1, 0), vertex(1, 1, 7), vertex(3, 1, 0)];
    let (unique, indices) = dedup_vertices(&stream);
    assert_eq!(unique.len(), 3);
    assert_eq!(unique[0], vertex(1, 1, 0));
    assert_eq!(unique[1], vertex(2, 1, 0));
    assert_eq!(unique[2], vertex(3, 1, 0));
    assert_eq!(indices, vec![0, 1, 0, 2]);
}

#[test]
fn dedup_of_empty_stream() {
    let (unique, indices) = dedup_vertices(&vec![]);
    assert!(unique.is_empty());
    assert!(indices.is_empty());
}

#[test]
fn gather_builds_vertices_and_skips_missing_normals() {
    let positions = vec![10, 11, 12, 20, 21, 22];
    let normals = vec![50, 51, 52];
    // Index 1 has no normal data and is skipped.
    let stream = gather_vertices(&positions, &normals, &vec![0, 1, 0]);
    assert_eq!(stream.len(), 2);
    assert_eq!(stream[0].px, 10);
    assert_eq!(stream[0].py, 11);
    assert_eq!(stream[0].pz, 12);
    assert_eq!(stream[0].cx, COLOR_WHITE_BITS);
    assert_eq!(stream[0].nx, 50);
    assert_eq!(stream[0].ny, 51);
    assert_eq!(stream[0].nz, 52);
    assert_eq!(stream[1].px, 10);
}

#[test]
fn load_model_gathers_and_deduplicates() {
    let positions = vec![10, 11, 12, 20, 21, 22];
    let normals = vec![50, 51, 52, 60, 61, 62];
    let (vertices, indices) = load_model(&positions, &normals, &vec![0, 1, 0, 1]);
    assert_eq!(vertices.len(), 2);
    assert_eq!(indices, vec![0, 1, 0, 1]);
    assert_eq!(vertices[0].px, 10);
    assert_eq!(vertices[1].px, 20);
    assert_eq!(vertices[1].nz, 62);
}

#[test]
fn encode_vertices_little_endian_channels() {
    let v = Vertex {
        px: 1,
        py: 2,
        pz: 3,
        cx: 4,
        cy: 5,
        cz: 6,
        nx: 7,
        ny: 8,
        nz: 0x01020304,
    };
    let bytes = encode_vertices(&vec![v]);
    assert_eq!(bytes.len(), 36);
    assert_eq!(&bytes[0..4], &[1, 0, 0, 0]);
    assert_eq!(&bytes[4..8], &[2, 0, 0, 0]);
    assert_eq!(&bytes[32..36], &[0x04, 0x03, 0x02, 0x01]);
    assert_eq!(encode_vertices(&vec![]).len(), 0);
}

#[test]
fn vertex_input_layout() {
    let binding = Vertex::binding_description();
    assert_eq!(binding.binding, 0);
    assert_eq!(binding.stride, 36);
    assert!(binding.per_vertex);
    let attrs = Vertex::attribute_descriptions();
    assert_eq!(attrs.len(), 3);
    for (i, a) in attrs.iter().enumerate() {
        assert_eq!(a.binding, 0);
        assert_eq!(a.location, i as u32);
        assert_eq!(a.format, FORMAT_R32G32B32_SFLOAT);
        assert_eq!(a.offset, 12 * i as u32);
    }
}

#[test]
fn vertex_new_carries_channels() {
    let v = Vertex::new(1, 2, 3, 4, 5, 6, 7, 8, 9);
    assert_eq!(v.px, 1);
    assert_eq!(v.cz, 6);
    assert_eq!(v.nz, 9);
}

#[test]
fn one_view_per_swapchain_image() {
    let views = create_swapchain_image_views(4, 50);
    assert_eq!(views.len(), 4);
    let expected: ImageViewConfig = create_image_view(50, 0x1);
    for v in &views {
        assert_eq!(*v, expected);
    }
    assert_eq!(expected.level_count, 1);
    assert_eq!(expected.layer_count, 1);
}
