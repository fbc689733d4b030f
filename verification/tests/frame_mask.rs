use sim2d::FrameMask;

#[test]
fn test_create_empty() {
    for i in 0..32 {
        assert!(!FrameMask::empty().contains(i));
    }
}

#[test]
fn test_for_frame() {
    for i in 0..32 {
        assert!(FrameMask::for_frame(i).contains(i));
        for j in 0..32 {
            if i == j {
                continue;
            }
            assert!(!FrameMask::for_frame(i).contains(j));
            assert!(!FrameMask::for_frame(j).contains(i));
        }
    }
}

#[test]
fn test_add_frame() {
    let mut frame = FrameMask::empty();
    for j in 0..32 {
        frame.add_frame(j);
    }
    for j in 0..32 {
        assert!(frame.contains(j));
    }
}

#[test]
fn test_remove_frame() {
    let mut frame = FrameMask::empty();
    for j in 0..32 {
        frame.add_frame(j);
    }
    for j in 0..32 {
        assert!(frame.contains(j));
        frame.remove_frame(j);
        assert!(!frame.contains(j));
    }
    assert!(frame.is_empty());
}

#[test]
fn add_then_remove_leaves_other_frames() {
    let mut mask = FrameMask::empty();
    mask.add_frame(3);
    mask.add_frame(7);
    mask.remove_frame(3);
    assert!(!mask.contains(3));
    assert!(mask.contains(7));
    assert!(!mask.is_empty());
    mask.remove_frame(7);
    assert!(mask.is_empty());
}

#[test]
fn removing_an_absent_frame_changes_nothing() {
    let mut mask = FrameMask::for_frame(31);
    let before = mask;
    mask.remove_frame(0);
    assert_eq!(mask, before);
    assert!(mask.contains(31));
}

#[test]
fn adding_twice_is_adding_once() {
    let mut once = FrameMask::empty();
    once.add_frame(5);
    let mut twice = FrameMask::empty();
    twice.add_frame(5);
    twice.add_frame(5);
    assert_eq!(once, twice);
    assert_eq!(once, FrameMask::for_frame(5));
}

#[test]
fn adding_a_frame_twice_is_adding_it_once() {
    let mut once = FrameMask::empty();
    once.add_frame(3);
    let mut twice = once;
    twice.add_frame(3);
    assert_eq!(once, twice);
    let mut removed = FrameMask::empty();
    removed.remove_frame(5);
    assert_eq!(removed, FrameMask::empty());
}
