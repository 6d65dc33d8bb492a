use egor::batch::{
    copy_padding, GeometryBatch, PrimitiveBatch, MAX_INDICES, MAX_INSTANCES, MAX_VERTICES,
};
use egor::primitives::{
    clamp_segments, fan_index_count, fan_indices, offset_indices, polyline_indices,
    polyline_segment_points, polyline_segments, quad_indices, Anchor,
};

#[test]
fn push_offsets_indices_by_held_vertices() {
    let mut b: GeometryBatch<u32, u8> = GeometryBatch::new();
    assert!(b.is_empty());
    assert!(b.push(&[10, 11, 12], &[0, 1, 2]));
    assert!(b.push(&[20, 21, 22, 23], &[0, 1, 2, 2, 3, 0]));
    assert_eq!(b.vertices(), &[10, 11, 12, 20, 21, 22, 23]);
    assert_eq!(b.indices(), &[0, 1, 2, 3, 4, 5, 5, 6, 3]);
    assert!(!b.is_empty());
}

#[test]
fn push_refuses_overflow_and_changes_nothing() {
    let mut b: GeometryBatch<u8, u8> = GeometryBatch::new();
    let big = vec![0u8; MAX_VERTICES];
    assert!(b.push(&big, &[]));
    assert!(b.would_overflow(1, 0));
    assert!(!b.would_overflow(0, MAX_INDICES));
    assert!(!b.push(&[1], &[]));
    assert_eq!(b.vertices().len(), MAX_VERTICES);
}

#[test]
fn try_allocate_reserves_and_reports_offsets() {
    let mut b: GeometryBatch<u32, u8> = GeometryBatch::new();
    assert_eq!(b.try_allocate(4, 6, 7), Some((0, 0, 0)));
    assert_eq!(b.try_allocate(3, 3, 9), Some((4, 6, 4)));
    assert_eq!(b.vertices(), &[7, 7, 7, 7, 9, 9, 9]);
    assert_eq!(b.indices(), &[0; 9]);
    b.set_vertex(5, 1);
    b.set_index(8, 6);
    assert_eq!(b.vertices()[5], 1);
    assert_eq!(b.indices()[8], 6);
    assert_eq!(b.try_allocate(MAX_VERTICES, 0, 0), None);
    assert_eq!(b.vertices().len(), 7);
}

#[test]
fn uploads_only_what_changed_and_is_not_empty() {
    let mut b: GeometryBatch<u32, u32> = GeometryBatch::new();
    assert_eq!(b.take_uploads(), (false, false, false));
    b.push_instance(5);
    assert_eq!(b.take_uploads(), (false, false, true));
    assert_eq!(b.take_uploads(), (false, false, false));
    b.push(&[1, 2], &[0, 1]);
    assert_eq!(b.take_uploads(), (true, true, false));
    b.clear();
    assert!(b.is_empty());
    // cleared parts are marked, but empty parts are not uploaded
    assert_eq!(b.take_uploads(), (false, false, false));
    b.push(&[1], &[0]);
    assert_eq!(b.take_uploads(), (true, true, false));
}

#[test]
fn instances_are_capped() {
    let mut b: GeometryBatch<u8, u32> = GeometryBatch::new();
    for i in 0..MAX_INSTANCES as u32 {
        b.push_instance(i);
    }
    assert!(b.instances_full());
    b.push_instance(99);
    assert_eq!(b.instances().len(), MAX_INSTANCES);
    assert_eq!(b.instances()[MAX_INSTANCES - 1], MAX_INSTANCES as u32 - 1);
}

#[test]
fn draw_plan_needs_data_and_buffers() {
    let mut b: GeometryBatch<u8, u8> = GeometryBatch::new();
    assert_eq!(b.draw_plan(true, true, true), (false, false));
    b.push_instance(1);
    assert_eq!(b.draw_plan(true, true, true), (true, false));
    b.push(&[0], &[0]);
    assert_eq!(b.draw_plan(false, true, false), (false, false));
    assert_eq!(b.draw_plan(true, true, true), (true, true));
}

#[test]
fn index_upload_padding() {
    assert_eq!(copy_padding(12, 4), 0);
    assert_eq!(copy_padding(6, 4), 2);
    assert_eq!(copy_padding(0, 4), 0);
    assert_eq!(copy_padding(7, 4), 1);
}

#[test]
fn primitive_batch_groups_by_texture_and_shader() {
    let mut p: PrimitiveBatch<u8, u8> = PrimitiveBatch::new();
    assert_eq!(p.allocate(4, 6, None, None, 0), Some((0, 0, 0, 0)));
    assert_eq!(p.allocate(4, 6, Some(1), None, 0), Some((1, 0, 0, 0)));
    assert_eq!(p.allocate(4, 6, None, None, 0), Some((0, 4, 6, 4)));
    assert_eq!(p.allocate(4, 6, None, Some(2), 0), Some((2, 0, 0, 0)));
    assert_eq!(p.len(), 3);
    assert_eq!(p.entry(1).texture_id, Some(1));
    assert_eq!(p.entry(2).shader_id, Some(2));
    assert_eq!(p.entry(0).geometry.vertices().len(), 8);
    // a full batch gets a sibling for the same pair
    assert_eq!(p.allocate(MAX_VERTICES - 8, 0, None, None, 0), Some((0, 8, 12, 8)));
    assert_eq!(p.allocate(1, 0, None, None, 0), Some((3, 0, 0, 0)));
    // a request too large for any batch adds an empty entry and fails
    assert_eq!(p.allocate(MAX_VERTICES + 1, 0, Some(9), None, 0), None);
    assert_eq!(p.len(), 5);
    assert!(p.entry(4).geometry.is_empty());
}

#[test]
fn primitive_batch_reset_and_take() {
    let mut p: PrimitiveBatch<u8, u8> = PrimitiveBatch::new();
    p.allocate(3, 3, None, None, 1);
    p.allocate(3, 3, Some(4), None, 1);
    assert_eq!(p.take_uploads(0), (true, true, false));
    p.reset();
    assert_eq!(p.len(), 2);
    assert!(p.entry(0).geometry.is_empty());
    assert_eq!(p.entry(1).texture_id, Some(4));
    let taken = p.take();
    assert_eq!(taken.len(), 2);
    assert_eq!(p.len(), 0);
}

#[test]
fn primitive_batch_writes_reserved_space() {
    let mut p: PrimitiveBatch<u8, u8> = PrimitiveBatch::new();
    p.allocate(2, 2, None, None, 0);
    let (e, v, i, base) = p.allocate(3, 3, None, None, 0).unwrap();
    assert_eq!((e, v, i, base), (0, 2, 2, 2));
    p.set_vertex(e, v, 7);
    p.set_vertex(e, v + 2, 9);
    p.set_index(e, i + 1, base + 1);
    assert_eq!(p.entry(0).geometry.vertices(), &[0, 0, 7, 0, 9]);
    assert_eq!(p.entry(0).geometry.indices(), &[0, 0, 0, 3, 0]);
}

#[test]
fn push_mesh_offsets_indices_in_first_fitting_batch() {
    let mut p: PrimitiveBatch<u8, u8> = PrimitiveBatch::new();
    assert_eq!(p.push_mesh(&[1, 2, 3], &[0, 1, 2], None, None), Some(0));
    assert_eq!(p.push_mesh(&[9], &[0], Some(5), None), Some(1));
    assert_eq!(p.push_mesh(&[4, 5], &[1, 0], None, None), Some(0));
    assert_eq!(p.entry(0).geometry.vertices(), &[1, 2, 3, 4, 5]);
    assert_eq!(p.entry(0).geometry.indices(), &[0, 1, 2, 4, 3]);
    assert_eq!(p.entry(1).geometry.indices(), &[0]);
    let big = vec![0u8; MAX_VERTICES + 1];
    assert_eq!(p.push_mesh(&big, &[], Some(7), None), None);
    assert_eq!(p.len(), 3);
}

#[test]
fn quad_and_fan_indices() {
    assert_eq!(quad_indices(8), [8, 9, 10, 10, 11, 8]);
    assert_eq!(fan_index_count(5), 9);
    assert_eq!(fan_index_count(1), 0);
    assert_eq!(fan_indices(10, 5), vec![10, 11, 12, 10, 12, 13, 10, 13, 14]);
    assert!(fan_indices(0, 2).is_empty());
    assert_eq!(clamp_segments(1), 3);
    assert_eq!(clamp_segments(32), 32);
}

#[test]
fn polyline_geometry() {
    assert_eq!(polyline_segments(1, true), 0);
    assert_eq!(polyline_segments(4, false), 3);
    assert_eq!(polyline_segments(4, true), 4);
    assert_eq!(polyline_segment_points(3, 4), (3, 0));
    assert_eq!(polyline_segment_points(1, 4), (1, 2));
    assert_eq!(
        polyline_indices(2, 2),
        vec![2, 3, 4, 4, 5, 2, 6, 7, 8, 8, 9, 6]
    );
    assert_eq!(offset_indices(5, &[0, 2, 1]), vec![5, 7, 6]);
    assert_ne!(Anchor::Center, Anchor::TopLeft);
}
