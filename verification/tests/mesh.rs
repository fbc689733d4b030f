use sim2d::mesh::{draw_ranges, pipeline_binds, DrawRange, GeometryIndices};

#[test]
fn triangle_and_quad_indices() {
    let mut mesh = GeometryIndices::new(16);
    assert_eq!(mesh.triangle(), 0);
    assert_eq!(mesh.aligned_quad(), 3);
    assert_eq!(mesh.triangle(), 7);
    assert_eq!(mesh.vertex_count(), 10);
    assert_eq!(mesh.indices(), &[0, 1, 2, 3, 4, 5, 3, 5, 6, 7, 8, 9]);
    for index in mesh.indices() {
        assert!(*index < mesh.vertex_count());
    }
    mesh.clear();
    assert_eq!(mesh.vertex_count(), 0);
    assert!(mesh.indices().is_empty());
    assert_eq!(mesh.aligned_quad(), 0);
}

#[test]
fn draw_ranges_follow_one_another() {
    let ranges = draw_ranges(&vec![(3, 3), (6, 4), (0, 0), (3, 3)]);
    assert_eq!(
        ranges,
        vec![
            DrawRange { index_offset: 0, vertex_offset: 0, index_count: 3 },
            DrawRange { index_offset: 3, vertex_offset: 3, index_count: 6 },
            DrawRange { index_offset: 9, vertex_offset: 7, index_count: 0 },
            DrawRange { index_offset: 9, vertex_offset: 7, index_count: 3 },
        ]
    );
    assert!(draw_ranges(&vec![]).is_empty());
}

#[test]
fn pipelines_are_bound_only_when_they_change() {
    assert_eq!(pipeline_binds(&vec![7, 7, 8, 7, 7]), vec![true, false, true, true, false]);
    assert_eq!(pipeline_binds(&vec![0, 5]), vec![false, true]);
    assert!(pipeline_binds(&vec![]).is_empty());
}
