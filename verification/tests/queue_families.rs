use sim2d::queue_families::{QueueFamilies, QueueFamilyError, QueueFamilyProperties};

fn family(queue_flags: u32) -> QueueFamilyProperties {
    QueueFamilyProperties { queue_flags, queue_count: 1 }
}

#[test]
fn graphics_family_must_support_graphics_and_compute() {
    let families = vec![family(0b1), family(0b10), family(0b11)];
    let selected = QueueFamilies::new(&families, &vec![true, true, true]).unwrap();
    assert_eq!(selected.graphics_family_index, 2);
    assert_eq!(selected.present_family_index, 0);
}

#[test]
fn present_family_prefers_another_family() {
    let families = vec![family(0b11), family(0b100), family(0b100)];
    let selected = QueueFamilies::new(&families, &vec![true, false, true]).unwrap();
    assert_eq!(selected, QueueFamilies { graphics_family_index: 0, present_family_index: 2 });
    assert_eq!(selected.get_queue_create_info(), vec![0, 2]);
}

#[test]
fn present_family_falls_back_to_the_graphics_family() {
    let families = vec![family(0b100), family(0b111)];
    let selected = QueueFamilies::new(&families, &vec![false, true]).unwrap();
    assert_eq!(selected, QueueFamilies { graphics_family_index: 1, present_family_index: 1 });
    assert_eq!(selected.get_queue_create_info(), vec![1]);
}

#[test]
fn queue_family_errors() {
    assert_eq!(
        QueueFamilies::new(&vec![family(0b1), family(0b10)], &vec![true, true]),
        Err(QueueFamilyError::NoGraphicsQueueFamily)
    );
    assert_eq!(
        QueueFamilies::new(&vec![family(0b11)], &vec![false]),
        Err(QueueFamilyError::NoPresentQueueFamily)
    );
    assert_eq!(
        QueueFamilies::new(&vec![family(0b11), family(0)], &vec![]),
        Err(QueueFamilyError::NoPresentQueueFamily)
    );
    assert_eq!(QueueFamilies::new(&vec![], &vec![]), Err(QueueFamilyError::NoGraphicsQueueFamily));
}
