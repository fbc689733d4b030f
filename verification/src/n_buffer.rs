use crate::frame_mask::{FrameMask, MAX_FRAMES};
use crate::used_by_frames::{self, retire_entries, UsedByFrames};
use vstd::multiset::Multiset;
use vstd::prelude::*;

verus! {

/// An NBuffer is a generalization of the concept of double buffering and
/// triple buffering.
///
/// A N-Buffer is composed of N copies of a resource. When a resource is
/// current, it can be freely read by frames. When a resource is published, it
/// becomes current and the previously-current resource is marked as "in_use".
/// When all of the frames using an in_use resource have completed, then it
/// becomes "free" and can be used as a write target again.
pub struct NBuffer<T> {
    current: UsedByFrames<T>,
    free: Vec<T>,
    in_use: Vec<UsedByFrames<T>>,
    destroyed: bool,
}

impl<T> NBuffer<T> {
    /// The current resource and the frames that read it.
    pub closed spec fn current(self) -> UsedByFrames<T> {
        self.current
    }

    /// The free resources; `try_get_free_resource` hands out the last one.
    pub closed spec fn free(self) -> Seq<T> {
        self.free@
    }

    /// The previously current resources that frames may still read.
    pub closed spec fn in_use(self) -> Seq<UsedByFrames<T>> {
        self.in_use@
    }

    /// Whether `destroy` was called: a destroyed buffer hands out no free
    /// resource any more.
    pub closed spec fn is_destroyed(self) -> bool {
        self.destroyed
    }

    /// Every resource the buffer tracks, counted with multiplicity.
    pub open spec fn held(self) -> Multiset<T> {
        self.free().to_multiset().add(used_by_frames::resources_of(self.in_use()).to_multiset()).insert(
            self.current().resource,
        )
    }

    /// Manage a collection of resources. The last resource becomes current and
    /// the others are free.
    ///
    /// # Ownership
    ///
    /// The NBuffer does not logically own any resources. The caller must keep
    /// track of the full set of resources and destroy them according to
    /// their own strategy.
    ///
    /// The N-Buffer is strictly for managing the bookkeeping associated with
    /// preventing resources from being written while in-flight frames still
    /// reference them.
    pub fn new(resources: Vec<T>) -> (n_buffer: Self)
        requires
            resources.len() >= 2,
        ensures
            n_buffer.current().resource == resources@.last(),
            n_buffer.current().frame_mask@ == Set::<u32>::empty(),
            n_buffer.free() == resources@.drop_last(),
            n_buffer.in_use() == Seq::<UsedByFrames<T>>::empty(),
            !n_buffer.is_destroyed(),
    {
        let mut resources = resources;
        let last = resources.pop().unwrap();
        let current = UsedByFrames::new(last);
        let free = resources;
        let in_use = Vec::with_capacity(free.len());
        NBuffer { current, free, in_use, destroyed: false }
    }

    /// Get the current readable resource for the given frame index.
    ///
    /// The frame is recorded as a reader of the current resource and is
    /// cleared from every in-use resource; in-use resources that no frame
    /// reads any more become free, unless the buffer was destroyed, in which
    /// case they are dropped.
    pub fn get_current(&mut self, frame_index: usize) -> (resource: &mut T)
        requires
            frame_index < MAX_FRAMES,
        ensures
            *resource == old(self).current().resource,
            final(self).current().resource == *final(resource),
            final(self).current().frame_mask == old(self).current().frame_mask.with(
                frame_index as u32,
            ),
            final(self).in_use() == used_by_frames::retire_frame(old(self).in_use(), frame_index as u32).0,
            !old(self).is_destroyed() ==> final(self).free() == old(self).free()
                + used_by_frames::retire_frame(old(self).in_use(), frame_index as u32).1,
            old(self).is_destroyed() ==> final(self).free() == old(self).free(),
            final(self).is_destroyed() == old(self).is_destroyed(),
    {
        let frame = frame_index as u32;
        self.current.frame_mask.add_frame(frame);

        let mut entries: Vec<UsedByFrames<T>> = Vec::new();
        std::mem::swap(&mut entries, &mut self.in_use);
        let (kept, mut freed) = retire_entries(entries, frame);
        if !self.destroyed {
            self.free.append(&mut freed);
        }
        self.in_use = kept;
        &mut self.current.resource
    }

    /// Make the given resource current. The previously current resource moves
    /// to the end of the in-use list with the frames that read it.
    pub fn make_current(&mut self, resource: T)
        ensures
            final(self).current().resource == resource,
            final(self).current().frame_mask@ == Set::<u32>::empty(),
            final(self).in_use() == old(self).in_use().push(old(self).current()),
            final(self).free() == old(self).free(),
            final(self).is_destroyed() == old(self).is_destroyed(),
    {
        let mut new_value = UsedByFrames::new(resource);
        std::mem::swap(&mut self.current, &mut new_value);
        self.in_use.push(new_value);
    }

    /// Attempt to get a free resource. If all resources are in use by frames,
    /// or the buffer was destroyed, then this will return None.
    pub fn try_get_free_resource(&mut self) -> (resource: Option<T>)
        ensures
            old(self).is_destroyed() || old(self).free().len() == 0 ==> resource is None
                && final(self).free() == old(self).free(),
            !old(self).is_destroyed() && old(self).free().len() > 0 ==> resource == Some(
                old(self).free().last(),
            ) && final(self).free() == old(self).free().drop_last(),
            final(self).current() == old(self).current(),
            final(self).in_use() == old(self).in_use(),
            final(self).is_destroyed() == old(self).is_destroyed(),
    {
        if self.destroyed {
            None
        } else {
            self.free.pop()
        }
    }

    /// Clear the tracked resources so `try_get_free_resource` never returns
    /// a resource.
    pub fn destroy(&mut self)
        ensures
            final(self).is_destroyed(),
            final(self).free() == Seq::<T>::empty(),
            final(self).in_use() == Seq::<UsedByFrames<T>>::empty(),
            final(self).current() == old(self).current(),
    {
        self.free.clear();
        self.in_use.clear();
        self.destroyed = true;
    }

    /// The frames that read the current resource.
    pub fn current_frame_mask(&self) -> (mask: FrameMask)
        ensures
            mask == self.current().frame_mask,
    {
        self.current.frame_mask
    }

    /// How many resources are in use by frames.
    pub fn in_use_count(&self) -> (count: usize)
        ensures
            count == self.in_use().len(),
    {
        self.in_use.len()
    }

    /// The frames that read the in-use resource at `index`.
    pub fn in_use_frame_mask(&self, index: usize) -> (mask: FrameMask)
        requires
            index < self.in_use().len(),
        ensures
            mask == self.in_use()[index as int].frame_mask,
    {
        self.in_use[index].frame_mask
    }

    /// How many resources are free.
    pub fn free_count(&self) -> (count: usize)
        ensures
            count == self.free().len(),
    {
        self.free.len()
    }
}


/// Reading the current resource neither loses nor duplicates a tracked
/// resource (when the caller leaves the current resource as it was).
pub proof fn law_get_current_conserves<T>(before: NBuffer<T>, after: NBuffer<T>, frame_index: u32)
    requires
        frame_index < MAX_FRAMES,
        after.current().resource == before.current().resource,
        after.in_use() == used_by_frames::retire_frame(before.in_use(), frame_index).0,
        after.free() == before.free() + used_by_frames::retire_frame(before.in_use(), frame_index).1,
    ensures
        after.held() == before.held(),
{
    broadcast use vstd::seq_lib::lemma_multiset_commutative;
    broadcast use vstd::multiset::group_multiset_axioms;

    used_by_frames::lemma_retire_frame(before.in_use(), frame_index);
    assert(after.held() =~= before.held());
}

/// After a frame reads the buffer, that frame reads the current resource and
/// no in-use resource, and every in-use resource is still read by some other
/// frame.
pub proof fn law_get_current_marks_frame<T>(
    before: NBuffer<T>,
    after: NBuffer<T>,
    frame_index: u32,
)
    requires
        frame_index < MAX_FRAMES,
        after.current().frame_mask == before.current().frame_mask.with(frame_index),
        after.in_use() == used_by_frames::retire_frame(before.in_use(), frame_index).0,
    ensures
        after.current().frame_mask@.contains(frame_index),
        forall|k: int|
            0 <= k < after.in_use().len() ==> !(#[trigger] after.in_use()[k]).frame_mask@.contains(
                frame_index,
            ) && after.in_use()[k].frame_mask@ != Set::<u32>::empty(),
{
    before.current().frame_mask.lemma_with_without(frame_index);
    used_by_frames::lemma_retire_frame(before.in_use(), frame_index);
}

/// Publishing a resource adds exactly that resource to the tracked ones.
pub proof fn law_make_current_adds<T>(before: NBuffer<T>, after: NBuffer<T>, resource: T)
    requires
        after.current().resource == resource,
        after.in_use() == before.in_use().push(before.current()),
        after.free() == before.free(),
    ensures
        after.held() == before.held().insert(resource),
{
    broadcast use vstd::seq_lib::group_to_multiset_ensures;
    broadcast use vstd::multiset::group_multiset_axioms;

    assert(used_by_frames::resources_of(after.in_use()) =~= used_by_frames::resources_of(before.in_use()).push(
        before.current().resource,
    ));
    assert(after.held() =~= before.held().insert(resource));
}

/// Taking a free resource removes exactly that resource from the tracked ones.
pub proof fn law_take_free_removes<T>(before: NBuffer<T>, after: NBuffer<T>, resource: T)
    requires
        before.free().len() > 0,
        resource == before.free().last(),
        after.free() == before.free().drop_last(),
        after.current() == before.current(),
        after.in_use() == before.in_use(),
    ensures
        before.held() == after.held().insert(resource),
{
    broadcast use vstd::seq_lib::group_to_multiset_ensures;
    broadcast use vstd::multiset::group_multiset_axioms;

    assert(before.free() =~= after.free().push(resource));
    assert(before.held() =~= after.held().insert(resource));
}

/// A resource used by exactly one frame becomes free, as the last free
/// resource, once a new resource is published and that frame reads again.
pub proof fn law_retired_resource_becomes_free<T>(
    start: NBuffer<T>,
    published: NBuffer<T>,
    read: NBuffer<T>,
    resource: T,
    frame_index: u32,
)
    requires
        frame_index < MAX_FRAMES,
        start.current().frame_mask@ == Set::<u32>::empty().insert(frame_index),
        published.current().resource == resource,
        published.in_use() == start.in_use().push(start.current()),
        published.free() == start.free(),
        read.free() == published.free() + used_by_frames::retire_frame(published.in_use(), frame_index).1,
    ensures
        read.free().len() > 0,
        read.free().last() == start.current().resource,
{
    start.current().frame_mask.lemma_with_without(frame_index);
    assert(published.in_use().drop_last() =~= start.in_use());
    assert(start.current().frame_mask.without(frame_index)@ =~= Set::<u32>::empty());
}

/// One call made on an `NBuffer`, as the laws over runs of calls see it.
pub enum NBufferCall<T> {
    /// `get_current(frame_index)`, leaving the current resource as it was.
    Read(u32),
    /// `make_current(resource)`.
    Publish(T),
    /// `try_get_free_resource()`, with what it returned.
    TakeFree(Option<T>),
    /// `destroy()`.
    Destroy,
}

/// `after` is what the contract of `call` allows `before` to become.
pub open spec fn call_step<T>(before: NBuffer<T>, after: NBuffer<T>, call: NBufferCall<T>) -> bool {
    match call {
        NBufferCall::Read(frame_index) => {
            &&& frame_index < MAX_FRAMES
            &&& after.current().resource == before.current().resource
            &&& after.current().frame_mask == before.current().frame_mask.with(frame_index)
            &&& after.in_use() == used_by_frames::retire_frame(before.in_use(), frame_index).0
            &&& !before.is_destroyed() ==> after.free() == before.free()
                + used_by_frames::retire_frame(before.in_use(), frame_index).1
            &&& before.is_destroyed() ==> after.free() == before.free()
            &&& after.is_destroyed() == before.is_destroyed()
        },
        NBufferCall::Publish(resource) => {
            &&& after.current().resource == resource
            &&& after.current().frame_mask@ == Set::<u32>::empty()
            &&& after.in_use() == before.in_use().push(before.current())
            &&& after.free() == before.free()
            &&& after.is_destroyed() == before.is_destroyed()
        },
        NBufferCall::TakeFree(taken) => {
            &&& after.current() == before.current()
            &&& after.in_use() == before.in_use()
            &&& after.is_destroyed() == before.is_destroyed()
            &&& before.is_destroyed() || before.free().len() == 0 ==> taken is None
                && after.free() == before.free()
            &&& !before.is_destroyed() && before.free().len() > 0 ==> taken == Some(
                before.free().last(),
            ) && after.free() == before.free().drop_last()
        },
        NBufferCall::Destroy => {
            &&& after.is_destroyed()
            &&& after.free() == Seq::<T>::empty()
            &&& after.in_use() == Seq::<UsedByFrames<T>>::empty()
            &&& after.current() == before.current()
        },
    }
}

/// Each state of `states` is reached from the one before by the call at the
/// same place in `calls`.
pub open spec fn is_run<T>(states: Seq<NBuffer<T>>, calls: Seq<NBufferCall<T>>) -> bool {
    &&& states.len() == calls.len() + 1
    &&& forall|i: int|
        0 <= i < calls.len() ==> #[trigger] call_step(states[i], states[i + 1], calls[i])
}

/// The resources handed to `make_current` in a run of calls.
pub open spec fn published<T>(calls: Seq<NBufferCall<T>>) -> Multiset<T>
    decreases calls.len(),
{
    if calls.len() == 0 {
        Multiset::empty()
    } else {
        let rest = published(calls.drop_last());
        match calls.last() {
            NBufferCall::Publish(resource) => rest.insert(resource),
            _ => rest,
        }
    }
}

/// The resources that `try_get_free_resource` handed out in a run of calls.
pub open spec fn taken<T>(calls: Seq<NBufferCall<T>>) -> Multiset<T>
    decreases calls.len(),
{
    if calls.len() == 0 {
        Multiset::empty()
    } else {
        let rest = taken(calls.drop_last());
        match calls.last() {
            NBufferCall::TakeFree(Some(resource)) => rest.insert(resource),
            _ => rest,
        }
    }
}

/// Over any run of calls without `destroy`, the buffer loses and invents no
/// resource: what it tracks at the end, with what was taken from it, is what
/// it tracked at the start with what was published to it.
pub proof fn law_runs_conserve_resources<T>(states: Seq<NBuffer<T>>, calls: Seq<NBufferCall<T>>)
    requires
        is_run(states, calls),
        !states[0].is_destroyed(),
        forall|i: int| 0 <= i < calls.len() ==> !(#[trigger] calls[i] is Destroy),
    ensures
        !states.last().is_destroyed(),
        states.last().held().add(taken(calls)) == states[0].held().add(published(calls)),
    decreases calls.len(),
{
    broadcast use vstd::multiset::group_multiset_axioms;

    if calls.len() > 0 {
        let n = calls.len() - 1;
        let before_states = states.drop_last();
        let before_calls = calls.drop_last();
        assert forall|i: int| 0 <= i < before_calls.len() implies #[trigger] call_step(
            before_states[i],
            before_states[i + 1],
            before_calls[i],
        ) by {
            assert(call_step(states[i], states[i + 1], calls[i]));
        }
        assert forall|i: int| 0 <= i < before_calls.len() implies !(
        #[trigger] before_calls[i] is Destroy) by {
            assert(!(calls[i] is Destroy));
        }
        law_runs_conserve_resources(before_states, before_calls);
        let b = states[n];
        let a = states[n + 1];
        assert(before_states.last() == b);
        assert(before_states[0] == states[0]);
        assert(states.last() == a);
        assert(calls.last() == calls[n]);
        assert(call_step(b, a, calls[n]));
        let ih_taken = taken(before_calls);
        let ih_published = published(before_calls);
        assert(b.held().add(ih_taken) == states[0].held().add(ih_published));
        assert(!b.is_destroyed());
        match calls[n] {
            NBufferCall::Read(frame_index) => {
                law_get_current_conserves(b, a, frame_index);
                assert(published(calls) == ih_published);
                assert(taken(calls) == ih_taken);
            },
            NBufferCall::Publish(resource) => {
                law_make_current_adds(b, a, resource);
                assert(published(calls) == ih_published.insert(resource));
                assert(taken(calls) == ih_taken);
                assert(a.held().add(ih_taken) =~= b.held().add(ih_taken).insert(resource));
                assert(states[0].held().add(ih_published.insert(resource)) =~= states[0].held().add(
                    ih_published,
                ).insert(resource));
            },
            NBufferCall::TakeFree(t) => {
                assert(published(calls) == ih_published);
                if b.free().len() > 0 {
                    let resource = b.free().last();
                    law_take_free_removes(b, a, resource);
                    assert(t == Some(resource));
                    assert(taken(calls) == ih_taken.insert(resource));
                    assert(a.held().add(taken(calls)) =~= states[0].held().add(
                        published(calls),
                    ));
                } else {
                    assert(a.held() =~= b.held());
                    assert(taken(calls) == ih_taken);
                }
            },
            NBufferCall::Destroy => {},
        }
    }
}

/// The resources that `frame_index` reads, in order: the in-use ones it
/// reads, then the current one when it reads that.
pub open spec fn read_by_frame<T>(buffer: NBuffer<T>, frame_index: u32) -> Seq<T> {
    used_by_frames::read_by(buffer.in_use().push(buffer.current()), frame_index)
}

/// Whether `call` is a read by `frame_index`.
pub open spec fn is_read_by<T>(call: NBufferCall<T>, frame_index: u32) -> bool {
    call matches NBufferCall::Read(f) && f == frame_index
}

/// A resource becomes free only once every frame that read it has read
/// again: over any run of calls without `destroy` in which `frame_index`
/// does not read, the resources that frame reads stay exactly the same, so
/// none of them is freed.
pub proof fn law_unread_resources_are_not_freed<T>(
    states: Seq<NBuffer<T>>,
    calls: Seq<NBufferCall<T>>,
    frame_index: u32,
)
    requires
        is_run(states, calls),
        frame_index < MAX_FRAMES,
        forall|i: int|
            0 <= i < calls.len() ==> !(#[trigger] calls[i] is Destroy) && !is_read_by(
                calls[i],
                frame_index,
            ),
    ensures
        read_by_frame(states.last(), frame_index) == read_by_frame(states[0], frame_index),
    decreases calls.len(),
{
    if calls.len() > 0 {
        let n = calls.len() - 1;
        let before_states = states.drop_last();
        let before_calls = calls.drop_last();
        assert forall|i: int| 0 <= i < before_calls.len() implies #[trigger] call_step(
            before_states[i],
            before_states[i + 1],
            before_calls[i],
        ) by {
            assert(call_step(states[i], states[i + 1], calls[i]));
        }
        assert forall|i: int| 0 <= i < before_calls.len() implies !(
        #[trigger] before_calls[i] is Destroy) && !is_read_by(before_calls[i], frame_index) by {
            assert(!(calls[i] is Destroy) && !is_read_by(calls[i], frame_index));
        }
        law_unread_resources_are_not_freed(before_states, before_calls, frame_index);
        let b = states[n];
        let a = states[n + 1];
        assert(before_states.last() == b);
        assert(before_states[0] == states[0]);
        assert(states.last() == a);
        assert(call_step(b, a, calls[n]));
        assert(!is_read_by(calls[n], frame_index));
        let b_all = b.in_use().push(b.current());
        let a_all = a.in_use().push(a.current());
        assert(b_all.drop_last() == b.in_use());
        assert(a_all.drop_last() == a.in_use());
        match calls[n] {
            NBufferCall::Read(g) => {
                used_by_frames::lemma_retire_keeps_other_readers(b.in_use(), g, frame_index);
                b.current().frame_mask.lemma_with_without(g);
            },
            NBufferCall::Publish(resource) => {
                assert(a.in_use().drop_last() == b.in_use());
            },
            NBufferCall::TakeFree(t) => {},
            NBufferCall::Destroy => {},
        }
    }
}

/// Once a buffer is destroyed it stays destroyed, whatever is called on it.
proof fn lemma_destroyed_persists<T>(
    states: Seq<NBuffer<T>>,
    calls: Seq<NBufferCall<T>>,
    i: int,
    j: int,
)
    requires
        is_run(states, calls),
        0 <= i <= j < states.len(),
        states[i].is_destroyed(),
    ensures
        states[j].is_destroyed(),
    decreases j - i,
{
    if i < j {
        assert(call_step(states[i], states[i + 1], calls[i]));
        lemma_destroyed_persists(states, calls, i + 1, j);
    }
}

/// After `destroy`, `try_get_free_resource` never returns a resource, whatever
/// else is called on the buffer in between.
pub proof fn law_destroyed_buffer_hands_out_nothing<T>(
    states: Seq<NBuffer<T>>,
    calls: Seq<NBufferCall<T>>,
)
    requires
        is_run(states, calls),
    ensures
        forall|i: int, j: int|
            0 <= i < j < calls.len() && #[trigger] calls[i] is Destroy && #[trigger] calls[j] is TakeFree
                ==> calls[j]->TakeFree_0 is None,
        states[0].is_destroyed() ==> forall|j: int|
            0 <= j < calls.len() && #[trigger] calls[j] is TakeFree ==> calls[j]->TakeFree_0 is None,
{
    assert forall|i: int, j: int|
        0 <= i < j < calls.len() && #[trigger] calls[i] is Destroy && #[trigger] calls[j] is TakeFree
            implies calls[j]->TakeFree_0 is None by {
        assert(call_step(states[i], states[i + 1], calls[i]));
        lemma_destroyed_persists(states, calls, i + 1, j);
        assert(call_step(states[j], states[j + 1], calls[j]));
    }
    if states[0].is_destroyed() {
        assert forall|j: int| 0 <= j < calls.len() && #[trigger] calls[j] is TakeFree implies calls[
            j
        ]->TakeFree_0 is None by {
            lemma_destroyed_persists(states, calls, 0, j);
            assert(call_step(states[j], states[j + 1], calls[j]));
        }
    }
}

} // verus!
