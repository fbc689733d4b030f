use crate::frame_mask::{has_bit, lemma_no_bits_is_zero};
use vstd::prelude::*;

verus! {

pub const KB: u64 = 1024;

pub const MB: u64 = 1048576;

pub const GB: u64 = 1073741824;

/// `VK_MAX_MEMORY_TYPES`: a device lists at most this many memory types.
pub const MAX_MEMORY_TYPES: usize = 32;

/// `VK_MEMORY_PROPERTY_HOST_VISIBLE_BIT`.
pub const MEMORY_PROPERTY_HOST_VISIBLE: u32 = 2;

/// All the bits of `wanted` are set in `flags`.
pub open spec fn flags_contain(flags: u32, wanted: u32) -> bool {
    flags & wanted == wanted
}

/// Memory type `index` is allowed by `memory_type_bits` and has every one of
/// the `required` property flags.
pub open spec fn is_suitable_memory_type(
    property_flags: u32,
    index: u32,
    memory_type_bits: u32,
    required: u32,
) -> bool {
    (1u32 << index) & memory_type_bits != 0 && flags_contain(property_flags, required)
}

/// A memory type is suitable exactly when the requirements allow its index
/// and every property bit that is required is one of its property flags:
/// having some of the required bits is not enough.
pub proof fn law_suitable_type_has_every_required_bit(
    property_flags: u32,
    index: u32,
    memory_type_bits: u32,
    required: u32,
)
    ensures
        is_suitable_memory_type(property_flags, index, memory_type_bits, required) <==> {
            &&& (1u32 << index) & memory_type_bits != 0
            &&& forall|bit: u32|
                bit < 32 ==> (has_bit(required, bit) ==> #[trigger] has_bit(property_flags, bit))
        },
{
    let f = property_flags;
    let r = required;
    if f & r == r {
        assert forall|bit: u32| bit < 32 implies (has_bit(r, bit) ==> #[trigger] has_bit(f, bit)) by {
            assert(f & r == r ==> (r & (1u32 << bit) != 0 ==> f & (1u32 << bit) != 0))
                by (bit_vector);
        }
    }
    if forall|bit: u32| bit < 32 ==> (has_bit(r, bit) ==> #[trigger] has_bit(f, bit)) {
        let missing = r & !f;
        assert forall|bit: u32| bit < 32 implies !has_bit(missing, bit) by {
            assert(has_bit(r, bit) ==> has_bit(f, bit));
            assert((r & !f) & (1u32 << bit) != 0 <==> (r & (1u32 << bit) != 0 && f & (1u32
                << bit) == 0)) by (bit_vector);
        }
        lemma_no_bits_is_zero(missing);
        assert(r & !f == 0 ==> f & r == r) by (bit_vector);
    }
}

/// The first memory type, by index, that the requirements allow and that has
/// all the required property flags. `memory_type_flags[i]` holds the property
/// flags of memory type `i`.
pub fn find_memory_type_index(
    memory_type_flags: &Vec<u32>,
    memory_type_bits: u32,
    required_properties: u32,
) -> (index: Option<usize>)
    requires
        memory_type_flags.len() <= MAX_MEMORY_TYPES,
    ensures
        match index {
            Some(i) => {
                &&& i < memory_type_flags.len()
                &&& memory_type_flags@[i as int] & required_properties == required_properties
                &&& is_suitable_memory_type(
                    memory_type_flags@[i as int],
                    i as u32,
                    memory_type_bits,
                    required_properties,
                )
                &&& forall|j: int|
                    0 <= j < i ==> !is_suitable_memory_type(
                        #[trigger] memory_type_flags@[j],
                        j as u32,
                        memory_type_bits,
                        required_properties,
                    )
            },
            None => forall|j: int|
                0 <= j < memory_type_flags.len() ==> !is_suitable_memory_type(
                    #[trigger] memory_type_flags@[j],
                    j as u32,
                    memory_type_bits,
                    required_properties,
                ),
        },
{
    let mut i: usize = 0;
    while i < memory_type_flags.len()
        invariant
            i <= memory_type_flags.len() <= MAX_MEMORY_TYPES,
            forall|j: int|
                0 <= j < i ==> !is_suitable_memory_type(
                    #[trigger] memory_type_flags@[j],
                    j as u32,
                    memory_type_bits,
                    required_properties,
                ),
        decreases memory_type_flags.len() - i,
    {
        let index = i as u32;
        let type_bits: u32 = 1u32 << index;
        let is_required_type = type_bits & memory_type_bits != 0;
        let flags = memory_type_flags[i];
        let has_required_properties = flags & required_properties == required_properties;
        if is_required_type && has_required_properties {
            return Some(i);
        }
        i = i + 1;
    }
    None
}

/// Memory with these property flags is visible to the host, so it gets
/// mapped when allocated.
pub fn is_host_visible(property_flags: u32) -> (visible: bool)
    ensures
        visible == flags_contain(property_flags, MEMORY_PROPERTY_HOST_VISIBLE),
{
    property_flags & MEMORY_PROPERTY_HOST_VISIBLE == MEMORY_PROPERTY_HOST_VISIBLE
}

/// Allocation counters kept by a decorating allocator: how many allocations
/// were made in total, how many are live, and the most that were ever live at
/// once.
pub struct StatsCollector {
    description: String,
    total_allocations: u64,
    max_concurrent_allocations: u64,
    concurrent_allocations: u64,
}

impl StatsCollector {
    /// Live allocations never outnumber the most ever live, which never
    /// outnumber the allocations made.
    pub closed spec fn wf(self) -> bool {
        self.concurrent_allocations <= self.max_concurrent_allocations <= self.total_allocations
    }

    pub closed spec fn spec_description(self) -> Seq<char> {
        self.description@
    }

    pub closed spec fn spec_total_allocations(self) -> u64 {
        self.total_allocations
    }

    pub closed spec fn spec_max_concurrent_allocations(self) -> u64 {
        self.max_concurrent_allocations
    }

    pub closed spec fn spec_concurrent_allocations(self) -> u64 {
        self.concurrent_allocations
    }

    /// Counters for the allocator described by `description`, all zero.
    pub fn new(description: String) -> (stats: Self)
        ensures
            stats.wf(),
            stats.spec_description() == description@,
            stats.spec_total_allocations() == 0,
            stats.spec_max_concurrent_allocations() == 0,
            stats.spec_concurrent_allocations() == 0,
    {
        StatsCollector {
            description,
            total_allocations: 0,
            max_concurrent_allocations: 0,
            concurrent_allocations: 0,
        }
    }

    /// Count an allocation about to be made.
    pub fn record_allocation(&mut self)
        requires
            old(self).wf(),
            old(self).spec_total_allocations() < u64::MAX,
        ensures
            final(self).wf(),
            final(self).spec_description() == old(self).spec_description(),
            final(self).spec_total_allocations() == old(self).spec_total_allocations() + 1,
            final(self).spec_concurrent_allocations() == old(self).spec_concurrent_allocations()
                + 1,
            final(self).spec_max_concurrent_allocations() == if old(
                self,
            ).spec_max_concurrent_allocations() >= old(self).spec_concurrent_allocations() + 1 {
                old(self).spec_max_concurrent_allocations() as int
            } else {
                old(self).spec_concurrent_allocations() + 1
            },
    {
        self.total_allocations = self.total_allocations + 1;
        self.concurrent_allocations = self.concurrent_allocations + 1;
        if self.concurrent_allocations > self.max_concurrent_allocations {
            self.max_concurrent_allocations = self.concurrent_allocations;
        }
    }

    /// Count an allocation being freed. There must be a live allocation.
    pub fn record_free(&mut self)
        requires
            old(self).wf(),
            old(self).spec_concurrent_allocations() > 0,
        ensures
            final(self).wf(),
            final(self).spec_description() == old(self).spec_description(),
            final(self).spec_total_allocations() == old(self).spec_total_allocations(),
            final(self).spec_concurrent_allocations() == old(self).spec_concurrent_allocations()
                - 1,
            final(self).spec_max_concurrent_allocations() == old(
                self,
            ).spec_max_concurrent_allocations(),
    {
        self.concurrent_allocations = self.concurrent_allocations - 1;
    }

    /// The text that describes the counted allocator.
    pub fn description(&self) -> (description: &str)
        ensures
            description@ == self.spec_description(),
    {
        self.description.as_str()
    }

    /// How many allocations were made.
    pub fn total_allocations(&self) -> (count: u64)
        ensures
            count == self.spec_total_allocations(),
    {
        self.total_allocations
    }

    /// How many allocations are live.
    pub fn concurrent_allocations(&self) -> (count: u64)
        ensures
            count == self.spec_concurrent_allocations(),
    {
        self.concurrent_allocations
    }

    /// The most allocations that were ever live at once.
    pub fn max_concurrent_allocations(&self) -> (count: u64)
        ensures
            count == self.spec_max_concurrent_allocations(),
    {
        self.max_concurrent_allocations
    }

    /// Live allocations never outnumber the most ever live, which never
    /// outnumber the allocations made.
    pub proof fn law_counts_are_ordered(self)
        requires
            self.wf(),
        ensures
            self.spec_concurrent_allocations() <= self.spec_max_concurrent_allocations()
                <= self.spec_total_allocations(),
    {
    }
}

} // verus!
