use sim2d::dynamic_buffer::plan_write;
use sim2d::mapped_buffer::{size_in_bytes, sprite_vertex_count, write_status, WriteStatus};

#[test]
fn mapped_buffer_sizes() {
    assert_eq!(size_in_bytes(16, 10), 160);
    assert_eq!(size_in_bytes(16, 0), 0);
    assert_eq!(sprite_vertex_count(1000), 6000);
}

#[test]
fn write_reallocates_only_when_the_data_does_not_fit() {
    assert_eq!(write_status(160, 16, 10), WriteStatus::Complete);
    assert_eq!(write_status(159, 16, 10), WriteStatus::CompleteWithReallocation);
    assert_eq!(write_status(0, 16, 0), WriteStatus::Complete);
}

#[test]
fn dynamic_buffer_write_plan() {
    let plan = plan_write(8, &vec![3, 0, 4]);
    assert_eq!(plan.offsets, vec![0, 3, 3]);
    assert_eq!(plan.total, 7);
    assert!(!plan.reallocate);
    let plan = plan_write(8, &vec![5, 4]);
    assert_eq!(plan.offsets, vec![0, 5]);
    assert_eq!(plan.total, 9);
    assert!(plan.reallocate);
    let plan = plan_write(0, &vec![]);
    assert!(plan.offsets.is_empty());
    assert_eq!(plan.total, 0);
    assert!(!plan.reallocate);
}
