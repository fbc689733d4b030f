use crate::frame_mask::{FrameMask, MAX_FRAMES};
use vstd::prelude::*;

verus! {

/// Represents a resource that is being used by frames in flight.
pub struct UsedByFrames<T> {
    pub frame_mask: FrameMask,
    pub resource: T,
}

impl<T> UsedByFrames<T> {
    /// Wrap a resource that no frame uses yet.
    pub fn new(resource: T) -> (used: Self)
        ensures
            used.resource == resource,
            used.frame_mask@ == Set::<u32>::empty(),
    {
        UsedByFrames { resource, frame_mask: FrameMask::empty() }
    }

    /// Give the resource back, forgetting which frames used it.
    pub fn release(self) -> (resource: T)
        ensures
            resource == self.resource,
    {
        self.resource
    }
}

/// Clears `frame_index` from the mask of every entry, in order. An entry whose
/// mask becomes empty is released: its resource lands, in order, in the second
/// component. Every other entry is kept, with its updated mask, in the first.
pub open spec fn retire_frame<T>(entries: Seq<UsedByFrames<T>>, frame_index: u32) -> (Seq<
    UsedByFrames<T>,
>, Seq<T>)
    decreases entries.len(),
{
    if entries.len() == 0 {
        (Seq::empty(), Seq::empty())
    } else {
        let rest = retire_frame(entries.drop_last(), frame_index);
        let last = entries.last();
        let mask = last.frame_mask.without(frame_index);
        if mask@ == Set::<u32>::empty() {
            (rest.0, rest.1.push(last.resource))
        } else {
            (rest.0.push(UsedByFrames { frame_mask: mask, resource: last.resource }), rest.1)
        }
    }
}

/// The resources of a sequence of entries, in order.
pub open spec fn resources_of<T>(entries: Seq<UsedByFrames<T>>) -> Seq<T> {
    entries.map_values(|e: UsedByFrames<T>| e.resource)
}

/// Retiring a frame neither loses nor duplicates a resource: the resources of
/// the entries are those of the kept entries together with the released ones.
/// No kept entry is read by the retired frame, and each is still read by some
/// other frame.
pub proof fn lemma_retire_frame<T>(entries: Seq<UsedByFrames<T>>, frame_index: u32)
    requires
        frame_index < MAX_FRAMES,
    ensures
        resources_of(entries).to_multiset() == resources_of(
            retire_frame(entries, frame_index).0,
        ).to_multiset().add(retire_frame(entries, frame_index).1.to_multiset()),
        retire_frame(entries, frame_index).0.len() + retire_frame(entries, frame_index).1.len()
            == entries.len(),
        forall|k: int|
            0 <= k < retire_frame(entries, frame_index).0.len() ==> {
                let mask = #[trigger] retire_frame(entries, frame_index).0[k].frame_mask;
                !mask@.contains(frame_index) && mask@ != Set::<u32>::empty()
            },
    decreases entries.len(),
{
    broadcast use vstd::seq_lib::group_to_multiset_ensures;
    broadcast use vstd::multiset::group_multiset_axioms;

    if entries.len() > 0 {
        let rest = entries.drop_last();
        let last = entries.last();
        lemma_retire_frame(rest, frame_index);
        last.frame_mask.lemma_with_without(frame_index);
        assert(resources_of(entries) =~= resources_of(rest).push(last.resource));
        let (kept, freed) = retire_frame(rest, frame_index);
        let mask = last.frame_mask.without(frame_index);
        if mask@ != Set::<u32>::empty() {
            let e = UsedByFrames { frame_mask: mask, resource: last.resource };
            assert(resources_of(kept.push(e)) =~= resources_of(kept).push(last.resource));
        }
        assert(resources_of(entries).to_multiset() == resources_of(
            retire_frame(entries, frame_index).0,
        ).to_multiset().add(retire_frame(entries, frame_index).1.to_multiset()));
    } else {
        assert(resources_of(entries) =~= Seq::<T>::empty());
        assert(resources_of(retire_frame(entries, frame_index).0) =~= Seq::<T>::empty());
    }
}


/// The resources, in order, of the entries that `frame_index` reads.
pub open spec fn read_by<T>(entries: Seq<UsedByFrames<T>>, frame_index: u32) -> Seq<T>
    decreases entries.len(),
{
    if entries.len() == 0 {
        Seq::empty()
    } else {
        let rest = read_by(entries.drop_last(), frame_index);
        if entries.last().frame_mask@.contains(frame_index) {
            rest.push(entries.last().resource)
        } else {
            rest
        }
    }
}

/// Retiring one frame changes nothing of what another frame reads: every
/// entry that other frame reads is kept, in order, still read by it.
pub proof fn lemma_retire_keeps_other_readers<T>(
    entries: Seq<UsedByFrames<T>>,
    retired: u32,
    frame_index: u32,
)
    requires
        retired < MAX_FRAMES,
        frame_index < MAX_FRAMES,
        retired != frame_index,
    ensures
        read_by(retire_frame(entries, retired).0, frame_index) == read_by(entries, frame_index),
    decreases entries.len(),
{
    if entries.len() > 0 {
        let rest = entries.drop_last();
        let last = entries.last();
        lemma_retire_keeps_other_readers(rest, retired, frame_index);
        last.frame_mask.lemma_with_without(retired);
        let kept = retire_frame(rest, retired).0;
        let mask = last.frame_mask.without(retired);
        if mask@ != Set::<u32>::empty() {
            let e = UsedByFrames { frame_mask: mask, resource: last.resource };
            assert(kept.push(e).drop_last() == kept);
            assert(kept.push(e).last() == e);
        } else {
            assert(!mask@.contains(frame_index));
        }
    }
}

/// Clears `frame_index` from the mask of every entry, in order, and splits
/// the entries into those some frame still reads and the resources that no
/// frame reads any more.
pub fn retire_entries<T>(entries: Vec<UsedByFrames<T>>, frame_index: u32) -> (split: (
    Vec<UsedByFrames<T>>,
    Vec<T>,
))
    requires
        frame_index < MAX_FRAMES,
    ensures
        split.0@ == retire_frame(entries@, frame_index).0,
        split.1@ == retire_frame(entries@, frame_index).1,
{
    let ghost all = entries@;
    let mut kept: Vec<UsedByFrames<T>> = Vec::with_capacity(entries.len());
    let mut freed: Vec<T> = Vec::new();
    for entry in it: entries.into_iter()
        invariant
            frame_index < MAX_FRAMES,
            it.seq() == all,
            kept@ == retire_frame(all.take(it.index() as int), frame_index).0,
            freed@ == retire_frame(all.take(it.index() as int), frame_index).1,
    {
        let ghost i = it.index() as int;
        assert(all.take(i + 1).drop_last() == all.take(i));
        let mut entry = entry;
        entry.frame_mask.remove_frame(frame_index);
        if entry.frame_mask.is_empty() {
            freed.push(entry.release());
        } else {
            kept.push(entry);
        }
    }
    assert(all.take(all.len() as int) == all);
    (kept, freed)
}
} // verus!
