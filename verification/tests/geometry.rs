use quad_render::geometry::{
    check_indices_in_range, quad_indices, quad_vertex_layout, quad_vertices,
};
use quad_render::layout::{VertexFormat, VertexLayout};
use quad_render::scalar::Fixed;

fn f(thousandths: i32) -> Fixed {
    Fixed::new(thousandths)
}

#[test]
fn quad_vertex_data_is_five_components_per_vertex() {
    let layout = quad_vertex_layout();
    assert_eq!(layout.stride_components(), 5);
    assert_eq!(layout.stride_bytes(), 20);
    let vertices = quad_vertices();
    assert_eq!(vertices.len(), 20);
    assert_eq!(vertices.len() / layout.stride_components(), 4);
}

#[test]
fn quad_vertex_data_matches_the_four_corners() {
    let vertices = quad_vertices();
    let expected = vec![
        f(1000), f(1000), f(0), f(1000), f(1000),
        f(1000), f(-1000), f(0), f(1000), f(0),
        f(-1000), f(-1000), f(0), f(0), f(0),
        f(-1000), f(1000), f(0), f(0), f(1000),
    ];
    assert_eq!(vertices, expected);
}

#[test]
fn quad_layout_offsets_are_packed() {
    let layout = quad_vertex_layout();
    assert_eq!(layout.offset_components(0), 0);
    assert_eq!(layout.offset_components(1), 3);
}

#[test]
fn layout_builder_accumulates_attributes() {
    let layout = VertexLayout::new()
        .attr(0, VertexFormat::Float32x2)
        .attr(1, VertexFormat::Float32x2)
        .attr(2, VertexFormat::Float32x3);
    assert_eq!(layout.attrs.len(), 3);
    assert_eq!(layout.stride_components(), 7);
    assert_eq!(layout.offset_components(2), 4);
    assert_eq!(layout.attrs[2].location, 2);
}

#[test]
fn quad_indices_are_the_two_triangles() {
    let indices = quad_indices();
    assert_eq!(indices, vec![0, 1, 3, 1, 2, 3]);
}

#[test]
fn quad_indices_stay_in_range_and_touch_every_vertex() {
    let indices = quad_indices();
    assert_eq!(indices.len(), 6);
    assert!(indices.iter().all(|&i| i < 4));
    for v in 0..4u32 {
        assert!(indices.contains(&v));
    }
    assert!(check_indices_in_range(&indices, 4));
    assert!(!check_indices_in_range(&indices, 3));
}

#[test]
fn quad_triangles_share_exactly_the_edge_one_three() {
    let indices = quad_indices();
    let first = &indices[0..3];
    let second = &indices[3..6];
    let shared: Vec<u32> = (0..4u32)
        .filter(|v| first.contains(v) && second.contains(v))
        .collect();
    assert_eq!(shared, vec![1, 3]);
}
