use sim2d::NBuffer;

#[derive(Copy, Clone, Debug, Default, Eq, PartialEq, PartialOrd, Ord)]
struct FakeResource(u32);

#[test]
fn create_n_buffered_resources() {
    let resources = (0..3).map(FakeResource).collect::<Vec<_>>();
    let _n_buffered = NBuffer::new(resources);
}

#[test]
fn get_current_should_update_the_current_frame_mask() {
    let resources = (0..3).map(FakeResource).collect::<Vec<_>>();
    let mut n_buffered = NBuffer::new(resources);

    let fake_resource = n_buffered.get_current(1);
    assert_eq!(*fake_resource, FakeResource(2));
    assert!(n_buffered.current_frame_mask().contains(1));
}

#[test]
fn make_current_should_make_the_new_resource_current() {
    let resources = (0..3).map(FakeResource).collect::<Vec<_>>();
    let mut n_buffered = NBuffer::new(resources);

    let writable = n_buffered.try_get_free_resource().unwrap();
    let initially_current = n_buffered.get_current(1);
    assert_ne!(*initially_current, writable);

    n_buffered.make_current(writable);

    assert!(n_buffered.in_use_count() == 1);
    assert!(n_buffered.in_use_frame_mask(0).contains(1));

    n_buffered.get_current(2);
    assert!(n_buffered.current_frame_mask().contains(2));
}

#[test]
fn get_free_should_return_none_when_all_resources_are_in_use() {
    let resources = vec![FakeResource(0), FakeResource(1)];
    let mut double_buffered = NBuffer::new(resources);

    // Frame 0
    {
        let frame0_update = double_buffered.try_get_free_resource().unwrap();
        assert!(frame0_update == FakeResource(0));

        // update frame 0 in some way
        double_buffered.make_current(frame0_update);
        // "draw"
        assert!(*double_buffered.get_current(0) == frame0_update);
        assert!(double_buffered.in_use_count() == 0);
    }

    // Frame 1
    {
        let frame1_update = double_buffered.try_get_free_resource().unwrap();
        assert!(frame1_update == FakeResource(1));

        // update frame 1 in some way
        double_buffered.make_current(frame1_update);
        // "draw"
        assert!(*double_buffered.get_current(1) == frame1_update);
        assert!(double_buffered.in_use_count() == 1);
    }

    // Frame 0
    {
        assert!(double_buffered.try_get_free_resource().is_none());
        // "draw"
        assert!(*double_buffered.get_current(0) == FakeResource(1));
        assert!(double_buffered.in_use_count() == 0);
    }

    // Frame 1
    {
        let frame1_update = double_buffered.try_get_free_resource().unwrap();
        assert!(frame1_update == FakeResource(0));

        // update frame 1 in some way
        double_buffered.make_current(frame1_update);
        // "draw"
        assert!(*double_buffered.get_current(1) == frame1_update);
        assert!(double_buffered.in_use_count() == 1);
    }

    // Frame 0
    {
        assert!(double_buffered.try_get_free_resource().is_none());
        // "draw"
        assert!(*double_buffered.get_current(0) == FakeResource(0));
        assert!(double_buffered.in_use_count() == 0);
    }
}

#[test]
fn new_keeps_the_other_resources_free_in_order() {
    let mut n = NBuffer::new(vec![FakeResource(7), FakeResource(8), FakeResource(9)]);
    assert_eq!(n.free_count(), 2);
    assert_eq!(n.try_get_free_resource(), Some(FakeResource(8)));
    assert_eq!(n.try_get_free_resource(), Some(FakeResource(7)));
    assert_eq!(n.try_get_free_resource(), None);
    assert_eq!(*n.get_current(0), FakeResource(9));
}

#[test]
fn resource_read_by_two_frames_is_freed_after_both_read_again() {
    let mut n = NBuffer::new(vec![FakeResource(0), FakeResource(1)]);
    n.get_current(0);
    n.get_current(1);
    let next = n.try_get_free_resource().unwrap();
    n.make_current(next);
    assert_eq!(n.free_count(), 0);
    n.get_current(0);
    // frame 1 still reads the old resource
    assert_eq!(n.in_use_count(), 1);
    assert!(n.in_use_frame_mask(0).contains(1));
    assert!(!n.in_use_frame_mask(0).contains(0));
    assert_eq!(n.free_count(), 0);
    n.get_current(1);
    assert_eq!(n.in_use_count(), 0);
    assert_eq!(n.try_get_free_resource(), Some(FakeResource(1)));
}

#[test]
fn destroy_forgets_free_and_in_use_resources() {
    let mut n = NBuffer::new(vec![FakeResource(0), FakeResource(1), FakeResource(2)]);
    n.get_current(0);
    let r = n.try_get_free_resource().unwrap();
    n.make_current(r);
    n.destroy();
    assert_eq!(n.in_use_count(), 0);
    assert_eq!(n.try_get_free_resource(), None);
    assert_eq!(*n.get_current(0), FakeResource(1));
}

#[test]
fn mutating_the_current_resource_through_get_current_sticks() {
    let mut n = NBuffer::new(vec![FakeResource(0), FakeResource(1)]);
    *n.get_current(0) = FakeResource(42);
    assert_eq!(*n.get_current(0), FakeResource(42));
}

#[test]
fn destroyed_buffer_never_hands_out_a_resource() {
    let mut n = NBuffer::new(vec![FakeResource(0), FakeResource(1)]);
    n.get_current(0);
    n.destroy();
    assert_eq!(n.try_get_free_resource(), None);
    n.get_current(1);
    assert_eq!(n.try_get_free_resource(), None);
    n.make_current(FakeResource(5));
    // frames 0 and 1 both read resource 1; once both read again it is no
    // longer in use, but a destroyed buffer drops it instead of freeing it
    n.get_current(0);
    assert_eq!(n.try_get_free_resource(), None);
    n.get_current(1);
    assert_eq!(n.in_use_count(), 0);
    assert_eq!(n.free_count(), 0);
    assert_eq!(n.try_get_free_resource(), None);
    assert_eq!(*n.get_current(0), FakeResource(5));
}

#[test]
fn a_resource_is_not_freed_while_a_reader_has_not_read_again() {
    let mut n = NBuffer::new(vec![FakeResource(0), FakeResource(1)]);
    n.get_current(0);
    n.get_current(1);
    let r = n.try_get_free_resource().unwrap();
    n.make_current(r);
    for _ in 0..5 {
        n.get_current(0);
        assert_eq!(n.free_count(), 0);
        assert_eq!(n.in_use_count(), 1);
    }
    n.get_current(1);
    assert_eq!(n.try_get_free_resource(), Some(FakeResource(1)));
}
