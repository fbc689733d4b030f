use crate::frame_mask::MAX_FRAMES;
use crate::time::{duration_from_millis, duration_nanos, instant_now};
use crate::used_by_frames::{self, retire_entries, UsedByFrames};
use std::sync::mpsc::{Receiver, RecvTimeoutError, Sender, SyncSender, TryRecvError};
use std::time::{Duration, Instant};
use vstd::prelude::*;

verus! {

#[verifier::external_type_specification]
#[verifier::external_body]
#[verifier::reject_recursive_types(T)]
pub struct ExSender<T>(Sender<T>);

#[verifier::external_type_specification]
#[verifier::external_body]
#[verifier::reject_recursive_types(T)]
pub struct ExSyncSender<T>(SyncSender<T>);

#[verifier::external_type_specification]
#[verifier::external_body]
#[verifier::reject_recursive_types(T)]
pub struct ExReceiver<T>(Receiver<T>);

/// The ways the N-buffer channels can fail.
#[derive(Copy, Clone, Debug, PartialEq, Eq, Structural)]
pub enum NBufferError {
    /// The buffer side that hands out free resources is gone.
    FreeResourceSenderHungUp,
    /// The client side that publishes resources is gone.
    ResourceSenderHungUp,
    /// A free resource could not be handed to the client.
    UnableToSendFreeResource,
    /// A resource that no frame reads any more could not be handed back.
    UnableToSendFreedResource,
    /// A resource could not be published to the buffer.
    UnableToPublishResource,
}

/// What a non-blocking receive produced.
pub enum TryRecvOutcome<T> {
    Received(T),
    Empty,
    Disconnected,
}

/// What a receive with a deadline produced.
pub enum RecvTimeoutOutcome<T> {
    Received(T),
    Timeout,
    Disconnected,
}

/// `std::sync::mpsc::channel`: a new unbounded channel. Nothing is stated of
/// the pair; that the two ends belong together is not expressed.
#[verifier::external_body]
fn channel<T>() -> (Sender<T>, Receiver<T>) {
    std::sync::mpsc::channel::<T>()
}

/// `std::sync::mpsc::sync_channel`: a new channel holding at most `bound`
/// queued values. Nothing is stated of the pair.
#[verifier::external_body]
fn sync_channel<T>(bound: usize) -> (SyncSender<T>, Receiver<T>) {
    std::sync::mpsc::sync_channel::<T>(bound)
}

/// `Sender::send`: true when the value was queued, false when the receiving
/// end is gone. Which of the two happens depends on the other end, so nothing
/// is stated.
#[verifier::external_body]
fn send<T>(sender: &Sender<T>, value: T) -> bool {
    sender.send(value).is_ok()
}

/// `SyncSender::send`: true when the value was queued, false when the
/// receiving end is gone. Nothing is stated.
#[verifier::external_body]
fn sync_send<T>(sender: &SyncSender<T>, value: T) -> bool {
    sender.send(value).is_ok()
}

/// `Receiver::try_recv`, with its outcome told apart. What arrives depends on
/// the other end, so nothing is stated.
#[verifier::external_body]
fn try_recv<T>(receiver: &Receiver<T>) -> TryRecvOutcome<T> {
    match receiver.try_recv() {
        Ok(value) => TryRecvOutcome::Received(value),
        Err(TryRecvError::Empty) => TryRecvOutcome::Empty,
        Err(TryRecvError::Disconnected) => TryRecvOutcome::Disconnected,
    }
}

/// `Receiver::recv_timeout`, with its outcome told apart. Nothing is stated.
#[verifier::external_body]
fn recv_timeout<T>(receiver: &Receiver<T>, timeout: Duration) -> RecvTimeoutOutcome<T> {
    match receiver.recv_timeout(timeout) {
        Ok(value) => RecvTimeoutOutcome::Received(value),
        Err(RecvTimeoutError::Timeout) => RecvTimeoutOutcome::Timeout,
        Err(RecvTimeoutError::Disconnected) => RecvTimeoutOutcome::Disconnected,
    }
}

/// How long `wait_for_free_resource` waits, in milliseconds.
pub const FREE_RESOURCE_WAIT_MILLIS: u64 = 100;

/// How long `wait_for_free_resource` waits for a free resource: 100 ms.
pub fn free_resource_wait() -> (wait: Duration)
    ensures
        duration_nanos(wait) == 100_000_000,
{
    duration_from_millis(FREE_RESOURCE_WAIT_MILLIS)
}

/// The result of a non-blocking look for a free resource: the resource when
/// one was there, nothing when none was, an error when the buffer is gone.
pub fn free_resource_from<T>(outcome: TryRecvOutcome<T>) -> (result: Result<Option<T>, NBufferError>)
    ensures
        match outcome {
            TryRecvOutcome::Received(value) => result == Ok::<Option<T>, NBufferError>(Some(value)),
            TryRecvOutcome::Empty => result == Ok::<Option<T>, NBufferError>(None),
            TryRecvOutcome::Disconnected => result == Err::<Option<T>, NBufferError>(
                NBufferError::FreeResourceSenderHungUp,
            ),
        },
{
    match outcome {
        TryRecvOutcome::Received(value) => Ok(Some(value)),
        TryRecvOutcome::Empty => Ok(None),
        TryRecvOutcome::Disconnected => Err(NBufferError::FreeResourceSenderHungUp),
    }
}

/// The result of waiting for a free resource: the resource when one came,
/// nothing when the wait timed out, an error when the buffer is gone.
pub fn free_resource_after_wait<T>(outcome: RecvTimeoutOutcome<T>) -> (result: Result<
    Option<T>,
    NBufferError,
>)
    ensures
        match outcome {
            RecvTimeoutOutcome::Received(value) => result == Ok::<Option<T>, NBufferError>(
                Some(value),
            ),
            RecvTimeoutOutcome::Timeout => result == Ok::<Option<T>, NBufferError>(None),
            RecvTimeoutOutcome::Disconnected => result == Err::<Option<T>, NBufferError>(
                NBufferError::FreeResourceSenderHungUp,
            ),
        },
{
    match outcome {
        RecvTimeoutOutcome::Received(value) => Ok(Some(value)),
        RecvTimeoutOutcome::Timeout => Ok(None),
        RecvTimeoutOutcome::Disconnected => Err(NBufferError::FreeResourceSenderHungUp),
    }
}

/// The result of looking for a newly published resource: the resource when
/// one was there, nothing when none was, an error when the client is gone.
pub fn published_resource_from<T>(outcome: TryRecvOutcome<T>) -> (result: Result<
    Option<T>,
    NBufferError,
>)
    ensures
        match outcome {
            TryRecvOutcome::Received(value) => result == Ok::<Option<T>, NBufferError>(Some(value)),
            TryRecvOutcome::Empty => result == Ok::<Option<T>, NBufferError>(None),
            TryRecvOutcome::Disconnected => result == Err::<Option<T>, NBufferError>(
                NBufferError::ResourceSenderHungUp,
            ),
        },
{
    match outcome {
        TryRecvOutcome::Received(value) => Ok(Some(value)),
        TryRecvOutcome::Empty => Ok(None),
        TryRecvOutcome::Disconnected => Err(NBufferError::ResourceSenderHungUp),
    }
}

/// The producer side of an `AsyncNBuffer`: takes free resources, fills them,
/// and publishes them.
#[verifier::reject_recursive_types(T)]
pub struct AsyncNBufferClient<T: Send + Sync> {
    free_resource_reciever: Receiver<T>,
    publish_resource_sender: SyncSender<T>,
}

impl<T: Send + Sync + 'static> AsyncNBufferClient<T> {
    /// Try to get a free resource without blocking. If a resource is not
    /// instantly available, then gives up and returns None.
    pub fn try_get_free_resource(&self) -> (result: Result<Option<T>, NBufferError>)
        ensures
            result matches Err(e) ==> e == NBufferError::FreeResourceSenderHungUp,
    {
        free_resource_from(try_recv(&self.free_resource_reciever))
    }

    /// Best-effort blocks until a resource is available. Gives up after the
    /// delay of `free_resource_wait` and returns None.
    pub fn wait_for_free_resource(&self) -> (result: Result<Option<T>, NBufferError>)
        ensures
            result matches Err(e) ==> e == NBufferError::FreeResourceSenderHungUp,
    {
        let timeout = free_resource_wait();
        free_resource_after_wait(recv_timeout(&self.free_resource_reciever, timeout))
    }

    /// Publish the given resource to become the new current. When the old
    /// current is no-longer in use by any frames, it will be freed to be
    /// used again.
    pub fn make_resource_current(&self, resource: T) -> (result: Result<(), NBufferError>)
        ensures
            result matches Err(e) ==> e == NBufferError::UnableToPublishResource,
    {
        if sync_send(&self.publish_resource_sender, resource) {
            Ok(())
        } else {
            Err(NBufferError::UnableToPublishResource)
        }
    }
}

/// A variant of the NBuffer whose free and published resources travel over
/// channels, so that another thread can fill resources while frames read the
/// current one.
#[verifier::reject_recursive_types(T)]
pub struct AsyncNBuffer<T: Send + Sync> {
    last_update: Instant,
    current: UsedByFrames<T>,
    free: Sender<T>,
    in_use: Vec<UsedByFrames<T>>,
    published_resource_reciever: Receiver<T>,
    sent: Ghost<Seq<T>>,
}

/// `log` grew from `before` by a proper prefix of `batch`: the hand-back
/// stopped before the whole batch went out.
pub open spec fn sent_part_of<T>(log: Seq<T>, before: Seq<T>, batch: Seq<T>) -> bool {
    &&& before.len() <= log.len() < before.len() + batch.len()
    &&& log == before + batch.take(log.len() - before.len())
}

impl<T: Send + Sync + 'static> AsyncNBuffer<T> {
    /// The current resource and the frames that read it.
    pub closed spec fn current(self) -> UsedByFrames<T> {
        self.current
    }

    /// The previously current resources that frames may still read.
    pub closed spec fn in_use(self) -> Seq<UsedByFrames<T>> {
        self.in_use@
    }

    /// Every resource the buffer has handed to its free queue, in the order
    /// it sent them, since it was made.
    pub closed spec fn sent(self) -> Seq<T> {
        self.sent@
    }

    /// When a published resource last became current.
    pub closed spec fn last_update(self) -> Instant {
        self.last_update
    }

    /// Split the resources: the last becomes current, the others are handed
    /// to the client as free, in order.
    pub fn new(resources: Vec<T>) -> (result: Result<(Self, AsyncNBufferClient<T>), NBufferError>)
        requires
            resources.len() >= 1,
        ensures
            resources.len() == 1 ==> result is Ok,
            match result {
                Ok((buffer, _client)) => {
                    &&& buffer.current().resource == resources@.last()
                    &&& buffer.current().frame_mask@ == Set::<u32>::empty()
                    &&& buffer.in_use() == Seq::<UsedByFrames<T>>::empty()
                    &&& buffer.sent() == resources@.drop_last()
                },
                Err(e) => e == NBufferError::UnableToSendFreeResource && resources.len() >= 2,
            },
    {
        let (free_resource_sender, free_resource_reciever) = channel::<T>();
        let (publish_resource_sender, published_resource_reciever) = sync_channel::<T>(1);

        let ghost original = resources@;
        let mut resources = resources;
        let last = resources.pop().unwrap();
        let current = UsedByFrames::new(last);
        let in_use: Vec<UsedByFrames<T>> = Vec::with_capacity(resources.len());
        let ghost free_seq = resources@;
        let mut sent: Ghost<Seq<T>> = Ghost(Seq::empty());
        assert(free_seq.take(0) =~= Seq::<T>::empty());
        #[verifier::loop_isolation(false)]
        for resource in it: resources.into_iter()
            invariant
                it.seq() == free_seq,
                sent@ == free_seq.take(it.index() as int),
                free_seq == original.drop_last(),
                original.len() >= 1,
        {
            let ghost value = resource;
            let ghost i = it.index() as int;
            if !send(&free_resource_sender, resource) {
                return Err(NBufferError::UnableToSendFreeResource);
            }
            proof {
                assert(free_seq.take(i + 1) == free_seq.take(i).push(value));
                sent@ = sent@.push(value);
            }
        }
        assert(free_seq.take(free_seq.len() as int) == free_seq);
        let async_n_buffer = AsyncNBuffer {
            last_update: instant_now(),
            current,
            free: free_resource_sender,
            in_use,
            published_resource_reciever,
            sent,
        };
        let client = AsyncNBufferClient { free_resource_reciever, publish_resource_sender };
        Ok((async_n_buffer, client))
    }

    /// Look for a resource that the client published, without blocking.
    pub fn try_receive_published_resource(&self) -> (result: Result<Option<T>, NBufferError>)
        ensures
            result matches Err(e) ==> e == NBufferError::ResourceSenderHungUp,
    {
        published_resource_from(try_recv(&self.published_resource_reciever))
    }

    /// Make the given resource current. The previously current resource moves
    /// to the end of the in-use list with the frames that read it.
    pub fn make_current(&mut self, resource: T)
        ensures
            final(self).current().resource == resource,
            final(self).current().frame_mask@ == Set::<u32>::empty(),
            final(self).in_use() == old(self).in_use().push(old(self).current()),
            final(self).last_update() == old(self).last_update(),
            final(self).sent() == old(self).sent(),
    {
        let mut new_value = UsedByFrames::new(resource);
        std::mem::swap(&mut self.current, &mut new_value);
        self.in_use.push(new_value);
    }

    /// Record `frame_index` as a reader of the current resource, clear it from
    /// the in-use resources, and hand the ones no frame reads any more back
    /// to the client. When a resource cannot be handed back, the in-use list
    /// is dropped.
    fn retire_frame(&mut self, frame_index: u32) -> (result: Result<(), NBufferError>)
        requires
            frame_index < MAX_FRAMES,
        ensures
            final(self).current().resource == old(self).current().resource,
            final(self).current().frame_mask == old(self).current().frame_mask.with(frame_index),
            final(self).last_update() == old(self).last_update(),
            used_by_frames::retire_frame(old(self).in_use(), frame_index).1.len() == 0 ==> result is Ok,
            match result {
                Ok(()) => {
                    &&& final(self).in_use() == used_by_frames::retire_frame(
                        old(self).in_use(),
                        frame_index,
                    ).0
                    &&& final(self).sent() == old(self).sent() + used_by_frames::retire_frame(
                        old(self).in_use(),
                        frame_index,
                    ).1
                },
                Err(e) => {
                    &&& e == NBufferError::UnableToSendFreedResource
                    &&& final(self).in_use() == Seq::<UsedByFrames<T>>::empty()
                    &&& sent_part_of(
                        final(self).sent(),
                        old(self).sent(),
                        used_by_frames::retire_frame(old(self).in_use(), frame_index).1,
                    )
                },
            },
    {
        self.current.frame_mask.add_frame(frame_index);
        let mut entries: Vec<UsedByFrames<T>> = Vec::new();
        std::mem::swap(&mut entries, &mut self.in_use);
        let (kept, freed) = retire_entries(entries, frame_index);
        let ghost batch = freed@;
        assert(batch.take(0) =~= Seq::<T>::empty());
        for resource in it: freed.into_iter()
            invariant
                it.seq() == batch,
                batch == used_by_frames::retire_frame(old(self).in_use@, frame_index).1,
                self.in_use@ == Seq::<UsedByFrames<T>>::empty(),
                self.current.resource == old(self).current.resource,
                self.current.frame_mask == old(self).current.frame_mask.with(frame_index),
                self.last_update == old(self).last_update,
                self.sent@ == old(self).sent@ + batch.take(it.index() as int),
        {
            let ghost value = resource;
            let ghost i = it.index() as int;
            if !send(&self.free, resource) {
                return Err(NBufferError::UnableToSendFreedResource);
            }
            proof {
                assert(batch.take(i + 1) == batch.take(i).push(value));
                self.sent@ = self.sent@.push(value);
            }
        }
        assert(batch.take(batch.len() as int) == batch);
        self.in_use = kept;
        Ok(())
    }

    /// Read the buffer for `frame_index`, given what was received from the
    /// client: a published resource becomes current first (the old current
    /// joins the in-use list, and `adopted_at` becomes the update time), then
    /// the frame is recorded as a reader of the current resource and the
    /// in-use resources no frame reads any more are handed back to the client.
    /// A failed receive is passed on and changes nothing.
    pub fn adopt_published(
        &mut self,
        published: Result<Option<T>, NBufferError>,
        adopted_at: Instant,
        frame_index: usize,
    ) -> (result: Result<(&mut T, Instant), NBufferError>)
        requires
            frame_index < MAX_FRAMES,
        ensures
            published matches Ok(None) && used_by_frames::retire_frame(
                old(self).in_use(),
                frame_index as u32,
            ).1.len() == 0 ==> result is Ok,
            published matches Ok(Some(r)) && used_by_frames::retire_frame(
                old(self).in_use().push(old(self).current()),
                frame_index as u32,
            ).1.len() == 0 ==> result is Ok,
            published matches Err(e) ==> (result matches Err(e2) && e2 == e) && *final(self)
                == *old(self),
            published matches Ok(None) ==> match result {
                Ok((resource, update_time)) => {
                    &&& *resource == old(self).current().resource
                    &&& final(self).current().resource == *final(resource)
                    &&& final(self).current().frame_mask == old(self).current().frame_mask.with(
                        frame_index as u32,
                    )
                    &&& final(self).in_use() == used_by_frames::retire_frame(
                        old(self).in_use(),
                        frame_index as u32,
                    ).0
                    &&& final(self).sent() == old(self).sent() + used_by_frames::retire_frame(
                        old(self).in_use(),
                        frame_index as u32,
                    ).1
                    &&& final(self).last_update() == old(self).last_update()
                    &&& update_time == old(self).last_update()
                },
                Err(e) => {
                    &&& e == NBufferError::UnableToSendFreedResource
                    &&& final(self).current().resource == old(self).current().resource
                    &&& final(self).current().frame_mask == old(self).current().frame_mask.with(
                        frame_index as u32,
                    )
                    &&& final(self).in_use() == Seq::<UsedByFrames<T>>::empty()
                    &&& sent_part_of(
                        final(self).sent(),
                        old(self).sent(),
                        used_by_frames::retire_frame(old(self).in_use(), frame_index as u32).1,
                    )
                    &&& final(self).last_update() == old(self).last_update()
                },
            },
            published matches Ok(Some(r)) ==> match result {
                Ok((resource, update_time)) => {
                    &&& *resource == r
                    &&& final(self).current().resource == *final(resource)
                    &&& final(self).current().frame_mask@ == Set::<u32>::empty().insert(
                        frame_index as u32,
                    )
                    &&& final(self).in_use() == used_by_frames::retire_frame(
                        old(self).in_use().push(old(self).current()),
                        frame_index as u32,
                    ).0
                    &&& final(self).sent() == old(self).sent() + used_by_frames::retire_frame(
                        old(self).in_use().push(old(self).current()),
                        frame_index as u32,
                    ).1
                    &&& final(self).last_update() == adopted_at
                    &&& update_time == adopted_at
                },
                Err(e) => {
                    &&& e == NBufferError::UnableToSendFreedResource
                    &&& final(self).current().resource == r
                    &&& final(self).current().frame_mask@ == Set::<u32>::empty().insert(
                        frame_index as u32,
                    )
                    &&& final(self).in_use() == Seq::<UsedByFrames<T>>::empty()
                    &&& sent_part_of(
                        final(self).sent(),
                        old(self).sent(),
                        used_by_frames::retire_frame(
                            old(self).in_use().push(old(self).current()),
                            frame_index as u32,
                        ).1,
                    )
                    &&& final(self).last_update() == adopted_at
                },
            },
    {
        match published {
            Err(e) => {
                return Err(e);
            },
            Ok(Some(new_current)) => {
                self.make_current(new_current);
                self.last_update = adopted_at;
            },
            Ok(None) => {},
        }
        let ghost mid = *self;
        proof {
            mid.current.frame_mask.lemma_with_without(frame_index as u32);
        }
        match self.retire_frame(frame_index as u32) {
            Err(e) => {
                return Err(e);
            },
            Ok(()) => {},
        }
        let last_update = self.last_update;
        Ok((&mut self.current.resource, last_update))
    }

    /// Get the current resource for the given frame index, and when it last
    /// changed. A resource the client published since the last call becomes
    /// current first.
    pub fn get_current_with_update_time(&mut self, frame_index: usize) -> (result: Result<
        (&mut T, Instant),
        NBufferError,
    >)
        requires
            frame_index < MAX_FRAMES,
        ensures
            match result {
                Ok((resource, update_time)) => {
                    &&& update_time == final(self).last_update()
                    &&& final(self).current().resource == *final(resource)
                    &&& final(self).current().frame_mask@.contains(frame_index as u32)
                    &&& {
                        ||| {
                            &&& *resource == old(self).current().resource
                            &&& final(self).current().frame_mask == old(
                                self,
                            ).current().frame_mask.with(frame_index as u32)
                            &&& final(self).in_use() == used_by_frames::retire_frame(
                                old(self).in_use(),
                                frame_index as u32,
                            ).0
                            &&& final(self).sent() == old(self).sent()
                                + used_by_frames::retire_frame(
                                old(self).in_use(),
                                frame_index as u32,
                            ).1
                            &&& final(self).last_update() == old(self).last_update()
                        }
                        ||| {
                            &&& final(self).current().frame_mask@ == Set::<u32>::empty().insert(
                                frame_index as u32,
                            )
                            &&& final(self).in_use() == used_by_frames::retire_frame(
                                old(self).in_use().push(old(self).current()),
                                frame_index as u32,
                            ).0
                            &&& final(self).sent() == old(self).sent()
                                + used_by_frames::retire_frame(
                                old(self).in_use().push(old(self).current()),
                                frame_index as u32,
                            ).1
                        }
                    }
                },
                Err(e) => {
                    ||| {
                        &&& e == NBufferError::ResourceSenderHungUp
                        &&& final(self).current() == old(self).current()
                        &&& final(self).in_use() == old(self).in_use()
                        &&& final(self).sent() == old(self).sent()
                        &&& final(self).last_update() == old(self).last_update()
                    }
                    ||| {
                        &&& e == NBufferError::UnableToSendFreedResource
                        &&& final(self).in_use() == Seq::<UsedByFrames<T>>::empty()
                        &&& final(self).current().frame_mask@.contains(frame_index as u32)
                        &&& {
                            ||| sent_part_of(
                                final(self).sent(),
                                old(self).sent(),
                                used_by_frames::retire_frame(
                                    old(self).in_use(),
                                    frame_index as u32,
                                ).1,
                            )
                            ||| sent_part_of(
                                final(self).sent(),
                                old(self).sent(),
                                used_by_frames::retire_frame(
                                    old(self).in_use().push(old(self).current()),
                                    frame_index as u32,
                                ).1,
                            )
                        }
                    }
                },
            },
    {
        let published = self.try_receive_published_resource();
        let now = instant_now();
        proof {
            self.current.frame_mask.lemma_with_without(frame_index as u32);
        }
        self.adopt_published(published, now, frame_index)
    }

    /// Get the current resource for the given frame index. A resource the
    /// client published since the last call becomes current first.
    pub fn get_current(&mut self, frame_index: usize) -> (result: Result<&mut T, NBufferError>)
        requires
            frame_index < MAX_FRAMES,
        ensures
            match result {
                Ok(resource) => {
                    &&& final(self).current().resource == *final(resource)
                    &&& final(self).current().frame_mask@.contains(frame_index as u32)
                    &&& {
                        ||| {
                            &&& *resource == old(self).current().resource
                            &&& final(self).current().frame_mask == old(
                                self,
                            ).current().frame_mask.with(frame_index as u32)
                            &&& final(self).in_use() == used_by_frames::retire_frame(
                                old(self).in_use(),
                                frame_index as u32,
                            ).0
                            &&& final(self).sent() == old(self).sent()
                                + used_by_frames::retire_frame(
                                old(self).in_use(),
                                frame_index as u32,
                            ).1
                            &&& final(self).last_update() == old(self).last_update()
                        }
                        ||| {
                            &&& final(self).current().frame_mask@ == Set::<u32>::empty().insert(
                                frame_index as u32,
                            )
                            &&& final(self).in_use() == used_by_frames::retire_frame(
                                old(self).in_use().push(old(self).current()),
                                frame_index as u32,
                            ).0
                            &&& final(self).sent() == old(self).sent()
                                + used_by_frames::retire_frame(
                                old(self).in_use().push(old(self).current()),
                                frame_index as u32,
                            ).1
                        }
                    }
                },
                Err(e) => {
                    ||| {
                        &&& e == NBufferError::ResourceSenderHungUp
                        &&& final(self).current() == old(self).current()
                        &&& final(self).in_use() == old(self).in_use()
                        &&& final(self).sent() == old(self).sent()
                        &&& final(self).last_update() == old(self).last_update()
                    }
                    ||| {
                        &&& e == NBufferError::UnableToSendFreedResource
                        &&& final(self).in_use() == Seq::<UsedByFrames<T>>::empty()
                        &&& final(self).current().frame_mask@.contains(frame_index as u32)
                        &&& {
                            ||| sent_part_of(
                                final(self).sent(),
                                old(self).sent(),
                                used_by_frames::retire_frame(
                                    old(self).in_use(),
                                    frame_index as u32,
                                ).1,
                            )
                            ||| sent_part_of(
                                final(self).sent(),
                                old(self).sent(),
                                used_by_frames::retire_frame(
                                    old(self).in_use().push(old(self).current()),
                                    frame_index as u32,
                                ).1,
                            )
                        }
                    }
                },
            },
    {
        let published = self.try_receive_published_resource();
        let now = instant_now();
        proof {
            self.current.frame_mask.lemma_with_without(frame_index as u32);
        }
        match self.adopt_published(published, now, frame_index) {
            Ok((resource, _update_time)) => Ok(resource),
            Err(e) => Err(e),
        }
    }

    /// Release all in-use resources.
    ///
    /// This can be useful to call right after waiting for every frame to
    /// complete.
    pub fn free_all(&mut self) -> (result: Result<(), NBufferError>)
        ensures
            final(self).in_use() == Seq::<UsedByFrames<T>>::empty(),
            final(self).current() == old(self).current(),
            final(self).last_update() == old(self).last_update(),
            old(self).in_use().len() == 0 ==> result is Ok,
            match result {
                Ok(()) => final(self).sent() == old(self).sent() + used_by_frames::resources_of(
                    old(self).in_use(),
                ),
                Err(e) => {
                    &&& e == NBufferError::UnableToSendFreedResource
                    &&& sent_part_of(
                        final(self).sent(),
                        old(self).sent(),
                        used_by_frames::resources_of(old(self).in_use()),
                    )
                },
            },
    {
        let mut entries: Vec<UsedByFrames<T>> = Vec::new();
        std::mem::swap(&mut entries, &mut self.in_use);
        let ghost all = entries@;
        let ghost batch = used_by_frames::resources_of(all);
        assert(batch.take(0) =~= Seq::<T>::empty());
        for entry in it: entries.into_iter()
            invariant
                it.seq() == all,
                batch == used_by_frames::resources_of(all),
                all == old(self).in_use@,
                self.in_use@ == Seq::<UsedByFrames<T>>::empty(),
                self.current == old(self).current,
                self.last_update == old(self).last_update,
                self.sent@ == old(self).sent@ + batch.take(it.index() as int),
        {
            let ghost i = it.index() as int;
            let resource = entry.release();
            let ghost value = resource;
            if !send(&self.free, resource) {
                return Err(NBufferError::UnableToSendFreedResource);
            }
            proof {
                assert(batch.take(i + 1) == batch.take(i).push(value));
                self.sent@ = self.sent@.push(value);
            }
        }
        assert(batch.take(batch.len() as int) == batch);
        Ok(())
    }

    /// How many resources are in use by frames.
    pub fn in_use_count(&self) -> (count: usize)
        ensures
            count == self.in_use().len(),
    {
        self.in_use.len()
    }
}

} // verus!
