use sim2d::async_n_buffer::free_resource_wait;
use sim2d::{AsyncNBuffer, NBufferError};

#[test]
fn async_n_buffer_hands_out_free_resources_in_order() {
    let (mut buffer, client) = AsyncNBuffer::new(vec![10u32, 11, 12]).unwrap();
    assert_eq!(*buffer.get_current(0).unwrap(), 12);
    assert_eq!(client.try_get_free_resource().unwrap(), Some(10));
    assert_eq!(client.wait_for_free_resource().unwrap(), Some(11));
    assert_eq!(client.try_get_free_resource().unwrap(), None);
    assert_eq!(client.wait_for_free_resource().unwrap(), None);
}

#[test]
fn published_resource_becomes_current_and_old_one_is_freed() {
    let (mut buffer, client) = AsyncNBuffer::new(vec![1u32, 2]).unwrap();
    assert_eq!(*buffer.get_current(0).unwrap(), 2);
    let free = client.try_get_free_resource().unwrap().unwrap();
    assert_eq!(free, 1);
    client.make_resource_current(free).unwrap();
    let (current, _updated) = buffer.get_current_with_update_time(1).unwrap();
    assert_eq!(*current, 1);
    // frame 0 still reads resource 2
    assert_eq!(buffer.in_use_count(), 1);
    assert_eq!(client.try_get_free_resource().unwrap(), None);
    assert_eq!(*buffer.get_current(0).unwrap(), 1);
    assert_eq!(buffer.in_use_count(), 0);
    assert_eq!(client.try_get_free_resource().unwrap(), Some(2));
}

#[test]
fn free_all_releases_every_in_use_resource() {
    let (mut buffer, client) = AsyncNBuffer::new(vec![1u32, 2]).unwrap();
    buffer.get_current(0).unwrap();
    let free = client.try_get_free_resource().unwrap().unwrap();
    buffer.make_current(free);
    assert_eq!(buffer.in_use_count(), 1);
    buffer.free_all().unwrap();
    assert_eq!(buffer.in_use_count(), 0);
    assert_eq!(client.try_get_free_resource().unwrap(), Some(2));
}

#[test]
fn hung_up_ends_are_reported() {
    let (mut buffer, client) = AsyncNBuffer::new(vec![1u32, 2]).unwrap();
    drop(client);
    assert_eq!(buffer.try_receive_published_resource(), Err(NBufferError::ResourceSenderHungUp));
    assert_eq!(buffer.get_current(0).err(), Some(NBufferError::ResourceSenderHungUp));

    let (buffer, client) = AsyncNBuffer::new(vec![1u32, 2]).unwrap();
    drop(buffer);
    assert_eq!(client.try_get_free_resource().unwrap(), Some(1));
    assert_eq!(client.try_get_free_resource(), Err(NBufferError::FreeResourceSenderHungUp));
    assert_eq!(client.wait_for_free_resource(), Err(NBufferError::FreeResourceSenderHungUp));
    assert_eq!(client.make_resource_current(3), Err(NBufferError::UnableToPublishResource));
}

#[test]
fn freed_resource_that_cannot_be_returned_drops_the_in_use_list() {
    let (mut buffer, client) = AsyncNBuffer::new(vec![1u32, 2]).unwrap();
    buffer.get_current(0).unwrap();
    let free = client.try_get_free_resource().unwrap().unwrap();
    buffer.make_current(free);
    assert_eq!(buffer.in_use_count(), 1);
    drop(client);
    assert_eq!(buffer.free_all(), Err(NBufferError::UnableToSendFreedResource));
    assert_eq!(buffer.in_use_count(), 0);
}

#[test]
fn waiting_for_a_free_resource_gives_up_after_a_short_delay() {
    let (_buffer, client) = AsyncNBuffer::new(vec![1u32]).unwrap();
    let start = std::time::Instant::now();
    assert_eq!(client.wait_for_free_resource().unwrap(), None);
    assert!(start.elapsed() >= std::time::Duration::from_millis(100));
}

#[test]
fn free_all_hands_back_in_use_resources_in_order() {
    let (mut buffer, client) = AsyncNBuffer::new(vec![1u32, 2, 3]).unwrap();
    assert_eq!(client.try_get_free_resource().unwrap(), Some(1));
    assert_eq!(client.try_get_free_resource().unwrap(), Some(2));
    buffer.get_current(0).unwrap();
    buffer.make_current(1);
    buffer.get_current(1).unwrap();
    buffer.make_current(2);
    assert_eq!(buffer.in_use_count(), 2);
    assert_eq!(buffer.free_all(), Ok(()));
    assert_eq!(client.try_get_free_resource().unwrap(), Some(3));
    assert_eq!(client.try_get_free_resource().unwrap(), Some(1));
    assert_eq!(client.try_get_free_resource().unwrap(), None);
}

#[test]
fn a_single_resource_buffer_is_always_made() {
    let (mut buffer, client) = AsyncNBuffer::new(vec![7u32]).unwrap();
    assert_eq!(*buffer.get_current(0).unwrap(), 7);
    assert_eq!(buffer.free_all(), Ok(()));
    assert_eq!(client.try_get_free_resource().unwrap(), None);
}

#[test]
fn the_wait_for_a_free_resource_is_a_tenth_of_a_second() {
    assert_eq!(free_resource_wait(), std::time::Duration::from_millis(100));
}

#[test]
fn adopting_a_published_resource_makes_it_current_and_retires_the_old_one() {
    let (mut buffer, client) = AsyncNBuffer::new(vec![1u32, 2]).unwrap();
    buffer.get_current(0).unwrap();
    let adopted_at = std::time::Instant::now();
    let (current, update_time) = buffer.adopt_published(Ok(Some(9)), adopted_at, 1).unwrap();
    assert_eq!(*current, 9);
    assert_eq!(update_time, adopted_at);
    // frame 0 still reads resource 2
    assert_eq!(buffer.in_use_count(), 1);
    let (current, update_time) = buffer.adopt_published(Ok(None), std::time::Instant::now(), 0).unwrap();
    assert_eq!(*current, 9);
    assert_eq!(update_time, adopted_at);
    assert_eq!(buffer.in_use_count(), 0);
    assert_eq!(client.try_get_free_resource().unwrap(), Some(1));
    assert_eq!(client.try_get_free_resource().unwrap(), Some(2));
}

#[test]
fn a_failed_receive_changes_nothing() {
    let (mut buffer, _client) = AsyncNBuffer::new(vec![1u32, 2]).unwrap();
    let result = buffer.adopt_published(
        Err(NBufferError::ResourceSenderHungUp),
        std::time::Instant::now(),
        0,
    );
    assert_eq!(result.err(), Some(NBufferError::ResourceSenderHungUp));
    assert_eq!(*buffer.get_current(0).unwrap(), 2);
}
