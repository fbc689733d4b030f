use vstd::prelude::*;

verus! {

/// Number of frame slots that a mask can track.
pub const MAX_FRAMES: u32 = 32;

/// True when bit `i` of `v` is set.
pub open spec fn has_bit(v: u32, i: u32) -> bool {
    v & (1u32 << i) != 0
}

proof fn lemma_bit_facts()
    ensures
        forall|i: u32| #![trigger has_bit(0u32, i)] !has_bit(0u32, i),
        forall|i: u32, j: u32|
            #![trigger has_bit(1u32 << i, j)]
            i < 32 && j < 32 ==> (has_bit(1u32 << i, j) <==> i == j),
        forall|v: u32, i: u32, j: u32|
            #![trigger has_bit(v | (1u32 << i), j)]
            i < 32 && j < 32 ==> (has_bit(v | (1u32 << i), j) <==> (has_bit(v, j) || i == j)),
        forall|v: u32, i: u32, j: u32|
            #![trigger has_bit(v & !(1u32 << i), j)]
            i < 32 && j < 32 ==> (has_bit(v & !(1u32 << i), j) <==> (has_bit(v, j) && i != j)),
{
    assert(forall|i: u32| #![auto] !(0u32 & (1u32 << i) != 0)) by (bit_vector);
    assert(forall|i: u32, j: u32|
        #![auto]
        i < 32 && j < 32 ==> (((1u32 << i) & (1u32 << j) != 0) <==> i == j)) by (bit_vector);
    assert(forall|v: u32, i: u32, j: u32|
        #![auto]
        i < 32 && j < 32 ==> (((v | (1u32 << i)) & (1u32 << j) != 0) <==> ((v & (1u32 << j)
            != 0) || i == j))) by (bit_vector);
    assert(forall|v: u32, i: u32, j: u32|
        #![auto]
        i < 32 && j < 32 ==> (((v & !(1u32 << i)) & (1u32 << j) != 0) <==> ((v & (1u32 << j)
            != 0) && i != j))) by (bit_vector);
}

/// The mask of the `k` lowest bits.
spec fn low_mask(k: u32) -> u32 {
    if k >= 32 {
        0xffff_ffffu32
    } else {
        ((1u32 << k) - 1u32) as u32
    }
}

/// When none of the `k` lowest bits of `v` is set, `v` has nothing under the
/// mask of those bits.
proof fn lemma_low_bits_zero(v: u32, k: u32)
    requires
        k <= 32,
        forall|i: u32| i < k ==> !has_bit(v, i),
    ensures
        v & low_mask(k) == 0,
    decreases k,
{
    if k == 0 {
        assert(v & low_mask(0) == 0) by (bit_vector);
    } else {
        let j = (k - 1) as u32;
        lemma_low_bits_zero(v, j);
        assert(!has_bit(v, j));
        assert(v & low_mask(k) == 0) by (bit_vector)
            requires
                k == j + 1,
                j < 32,
                v & low_mask(j) == 0,
                v & (1u32 << j) == 0,
        ;
    }
}

/// A mask with no bit below 32 set is zero.
pub(crate) proof fn lemma_no_bits_is_zero(v: u32)
    requires
        forall|i: u32| i < 32 ==> !has_bit(v, i),
    ensures
        v == 0,
{
    lemma_low_bits_zero(v, 32);
    assert(v & low_mask(32) == v) by (bit_vector);
}

/// A bitmask used to indicate which frame or frames are currently in flight.
///
/// This is typically paired with a resource to keep track of its usage in a
/// frame. The mask is viewed as the set of frame indices (each below 32)
/// whose bit is set.
#[derive(Copy, Clone, Debug, PartialEq, Eq, Structural, PartialOrd, Ord)]
pub struct FrameMask(u32);

impl View for FrameMask {
    type V = Set<u32>;

    closed spec fn view(&self) -> Set<u32> {
        Set::new(|i: u32| i < MAX_FRAMES && has_bit(self.0, i))
    }
}

impl FrameMask {
    /// The raw bits of the mask.
    pub closed spec fn bits(self) -> u32 {
        self.0
    }

    /// The mask with the bit of `frame_index` set.
    pub closed spec fn with(self, frame_index: u32) -> FrameMask {
        FrameMask(self.0 | (1u32 << frame_index))
    }

    /// The mask with the bit of `frame_index` cleared.
    pub closed spec fn without(self, frame_index: u32) -> FrameMask {
        FrameMask(self.0 & !(1u32 << frame_index))
    }

    /// Setting and clearing a frame's bit insert and remove that frame.
    pub proof fn lemma_with_without(self, frame_index: u32)
        requires
            frame_index < MAX_FRAMES,
        ensures
            self.with(frame_index)@ == self@.insert(frame_index),
            self.without(frame_index)@ == self@.remove(frame_index),
    {
        lemma_bit_facts();
        assert(self.with(frame_index)@ =~= self@.insert(frame_index));
        assert(self.without(frame_index)@ =~= self@.remove(frame_index));
    }

    /// Adding a frame that the mask does not hold and removing it again gives
    /// back the same mask; removing a frame and adding it back gives back a
    /// mask that held it.
    pub proof fn law_add_remove_frame(self, frame_index: u32)
        requires
            frame_index < MAX_FRAMES,
        ensures
            !self@.contains(frame_index) ==> self.with(frame_index).without(frame_index) == self,
            self@.contains(frame_index) ==> self.without(frame_index).with(frame_index) == self,
    {
        let v = self.0;
        let i = frame_index;
        assert(v & (1u32 << i) == 0 ==> (v | (1u32 << i)) & !(1u32 << i) == v) by (bit_vector);
        assert(v & (1u32 << i) != 0 ==> (v & !(1u32 << i)) | (1u32 << i) == v) by (bit_vector);
    }

    /// Every frame index in a mask is below 32, and the mask is zero exactly
    /// when it holds no frame.
    pub proof fn lemma_view_wf(self)
        ensures
            forall|i: u32| #[trigger] self@.contains(i) ==> i < MAX_FRAMES,
            self.bits() == 0 <==> self@ == Set::<u32>::empty(),
    {
        lemma_bit_facts();
        if self@ == Set::<u32>::empty() {
            assert forall|i: u32| i < 32 implies !has_bit(self.0, i) by {
                assert(!self@.contains(i));
            }
            lemma_no_bits_is_zero(self.0);
        }
        if self.0 == 0 {
            assert(self@ =~= Set::<u32>::empty());
        }
    }

    /// Two masks holding the same frames are the same mask.
    pub proof fn lemma_view_determines_mask(self, other: FrameMask)
        ensures
            self@ == other@ ==> self == other,
    {
        if self@ == other@ {
            let a = self.0;
            let b = other.0;
            assert forall|i: u32| i < 32 implies !has_bit(a ^ b, i) by {
                assert(self@.contains(i) == other@.contains(i));
                assert((a ^ b) & (1u32 << i) != 0 <==> ((a & (1u32 << i) != 0) != (b & (1u32
                    << i) != 0))) by (bit_vector);
            }
            lemma_no_bits_is_zero(a ^ b);
            assert(a ^ b == 0 ==> a == b) by (bit_vector);
        }
    }

    /// Create a mask containing no frames.
    pub fn empty() -> (mask: Self)
        ensures
            mask@ == Set::<u32>::empty(),
    {
        proof {
            lemma_bit_facts();
        }
        let mask = FrameMask(0);
        assert(mask@ =~= Set::<u32>::empty());
        mask
    }

    /// Create a mask for the given frame index, which must be below 32.
    pub fn for_frame(frame_index: u32) -> (mask: Self)
        requires
            frame_index < MAX_FRAMES,
        ensures
            mask@ == Set::<u32>::empty().insert(frame_index),
            mask.bits() == 1u32 << frame_index,
    {
        proof {
            lemma_bit_facts();
        }
        let mask = FrameMask(1u32 << frame_index);
        assert(mask@ =~= Set::<u32>::empty().insert(frame_index));
        mask
    }

    /// Check if the mask contains the bit for the given frame index.
    pub fn contains(&self, frame_index: u32) -> (b: bool)
        requires
            frame_index < MAX_FRAMES,
        ensures
            b == self@.contains(frame_index),
    {
        let other = Self::for_frame(frame_index);
        self.0 & other.0 != 0
    }

    /// Add a frame index to the mask.
    pub fn add_frame(&mut self, frame_index: u32)
        requires
            frame_index < MAX_FRAMES,
        ensures
            final(self)@ == old(self)@.insert(frame_index),
            *final(self) == old(self).with(frame_index),
            old(self)@.contains(frame_index) ==> *final(self) == *old(self),
    {
        proof {
            lemma_bit_facts();
        }
        let other = Self::for_frame(frame_index);
        self.0 = self.0 | other.0;
        assert(self@ =~= old(self)@.insert(frame_index));
        proof {
            if old(self)@.contains(frame_index) {
                assert(old(self)@.insert(frame_index) =~= old(self)@);
            }
            self.lemma_view_determines_mask(*old(self));
        }
    }

    /// Remove a frame index from the mask.
    pub fn remove_frame(&mut self, frame_index: u32)
        requires
            frame_index < MAX_FRAMES,
        ensures
            final(self)@ == old(self)@.remove(frame_index),
            *final(self) == old(self).without(frame_index),
            !old(self)@.contains(frame_index) ==> *final(self) == *old(self),
    {
        proof {
            lemma_bit_facts();
        }
        let other = Self::for_frame(frame_index);
        self.0 = self.0 & !other.0;
        assert(self@ =~= old(self)@.remove(frame_index));
        proof {
            if !old(self)@.contains(frame_index) {
                assert(old(self)@.remove(frame_index) =~= old(self)@);
            }
            self.lemma_view_determines_mask(*old(self));
        }
    }

    /// Returns true when the frame mask is entirely empty.
    pub fn is_empty(&self) -> (b: bool)
        ensures
            b == (self@ == Set::<u32>::empty()),
    {
        proof {
            self.lemma_view_wf();
        }
        self.0 == 0
    }
}

} // verus!
