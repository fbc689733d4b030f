use crate::memory::flags_contain;
use vstd::prelude::*;

verus! {

/// `VK_QUEUE_GRAPHICS_BIT`.
pub const QUEUE_GRAPHICS: u32 = 1;

/// `VK_QUEUE_COMPUTE_BIT`.
pub const QUEUE_COMPUTE: u32 = 2;

/// The parts of a queue family's properties that the setup reads.
#[derive(Copy, Clone, Debug, PartialEq, Eq, Structural)]
pub struct QueueFamilyProperties {
    pub queue_flags: u32,
    pub queue_count: u32,
}

/// Why no queue families could be chosen.
#[derive(Copy, Clone, Debug, PartialEq, Eq, Structural)]
pub enum QueueFamilyError {
    /// No family supports both graphics and compute.
    NoGraphicsQueueFamily,
    /// No family can present to the surface.
    NoPresentQueueFamily,
}

/// The family supports both graphics and compute work.
pub open spec fn is_graphics_family(properties: QueueFamilyProperties) -> bool {
    flags_contain(properties.queue_flags, QUEUE_GRAPHICS | QUEUE_COMPUTE)
}

/// Family `index` can present to the surface; `present_support[i]` is the
/// surface's answer for family `i`, and a family without an answer cannot.
pub open spec fn can_present(present_support: Seq<bool>, index: int) -> bool {
    0 <= index < present_support.len() && present_support[index]
}

/// Represents all of the Queue Families required by the application.
#[derive(Copy, Clone, Debug, PartialEq, Eq, Structural)]
pub struct QueueFamilies {
    pub graphics_family_index: u32,
    pub present_family_index: u32,
}

impl QueueFamilies {
    /// Select queue families: the first family that supports graphics and
    /// compute, and for presentation the first other family that can present,
    /// or else the graphics family itself when it can present.
    pub fn new(
        queue_family_properties: &Vec<QueueFamilyProperties>,
        present_support: &Vec<bool>,
    ) -> (families: Result<Self, QueueFamilyError>)
        requires
            queue_family_properties.len() <= u32::MAX,
        ensures
            (forall|i: int|
                0 <= i < queue_family_properties.len() ==> !is_graphics_family(
                    #[trigger] queue_family_properties@[i],
                )) <==> families == Err::<Self, QueueFamilyError>(
                QueueFamilyError::NoGraphicsQueueFamily,
            ),
            families matches Ok(f) ==> {
                let g = f.graphics_family_index as int;
                let p = f.present_family_index as int;
                &&& 0 <= g < queue_family_properties.len()
                &&& is_graphics_family(queue_family_properties@[g])
                &&& forall|j: int|
                    0 <= j < g ==> !is_graphics_family(#[trigger] queue_family_properties@[j])
                &&& 0 <= p < queue_family_properties.len()
                &&& can_present(present_support@, p)
                &&& (p != g ==> forall|j: int|
                    0 <= j < p && j != g ==> !can_present(present_support@, j))
                &&& (p == g ==> forall|j: int|
                    0 <= j < queue_family_properties.len() && j != g ==> !can_present(
                        present_support@,
                        j,
                    ))
            },
            families matches Err(e) && e == QueueFamilyError::NoPresentQueueFamily ==> forall|
                j: int,
            |
                0 <= j < queue_family_properties.len() ==> !can_present(present_support@, j),
    {
        let count = queue_family_properties.len();
        let mut graphics: usize = 0;
        while graphics < count
            invariant
                count == queue_family_properties.len(),
                graphics <= count,
                forall|j: int|
                    0 <= j < graphics ==> !is_graphics_family(#[trigger] queue_family_properties@[j]),
            ensures
                graphics <= count,
                graphics < count ==> is_graphics_family(queue_family_properties@[graphics as int]),
                forall|j: int|
                    0 <= j < graphics ==> !is_graphics_family(#[trigger] queue_family_properties@[j]),
            decreases count - graphics,
        {
            let flags = queue_family_properties[graphics].queue_flags;
            let wanted = QUEUE_GRAPHICS | QUEUE_COMPUTE;
            if flags & wanted == wanted {
                break;
            }
            graphics = graphics + 1;
        }
        if graphics == count {
            return Err(QueueFamilyError::NoGraphicsQueueFamily);
        }
        // A family other than the graphics one that can present.

        let mut present: usize = 0;
        while present < count
            invariant
                count == queue_family_properties.len(),
                graphics < count,
                present <= count,
                forall|j: int|
                    0 <= j < present && j != graphics ==> !can_present(present_support@, j),
            ensures
                present <= count,
                present < count ==> present != graphics && can_present(
                    present_support@,
                    present as int,
                ),
                forall|j: int|
                    0 <= j < present && j != graphics ==> !can_present(present_support@, j),
            decreases count - present,
        {
            if present != graphics && present < present_support.len() && present_support[present] {
                break;
            }
            present = present + 1;
        }
        if present < count {
            return Ok(QueueFamilies {
                graphics_family_index: graphics as u32,
                present_family_index: present as u32,
            });
        }
        // Otherwise the first family that can present, which can only be the
        // graphics family.

        if graphics < present_support.len() && present_support[graphics] {
            Ok(QueueFamilies {
                graphics_family_index: graphics as u32,
                present_family_index: graphics as u32,
            })
        } else {
            Err(QueueFamilyError::NoPresentQueueFamily)
        }
    }

    /// The family index of each queue to create: the graphics family, then
    /// the present family when it is another one.
    pub fn get_queue_create_info(&self) -> (family_indices: Vec<u32>)
        ensures
            self.present_family_index == self.graphics_family_index ==> family_indices@ == seq![
                self.graphics_family_index,
            ],
            self.present_family_index != self.graphics_family_index ==> family_indices@ == seq![
                self.graphics_family_index,
                self.present_family_index,
            ],
    {
        let mut family_indices: Vec<u32> = Vec::new();
        family_indices.push(self.graphics_family_index);
        if self.present_family_index != self.graphics_family_index {
            family_indices.push(self.present_family_index);
        }
        family_indices
    }
}

} // verus!
