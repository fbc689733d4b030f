use vstd::prelude::*;

verus! {

/// How a write into a mapped buffer went.
#[derive(Debug, Copy, Clone, Eq, PartialEq, Structural, Ord, PartialOrd)]
pub enum WriteStatus {
    Complete,
    /// The buffer was too small and was replaced by a larger one; anything
    /// that refers to the old buffer must be updated.
    CompleteWithReallocation,
}

/// The size in bytes of `count` elements of `element_size` bytes each.
pub fn size_in_bytes(element_size: usize, count: usize) -> (size: u64)
    requires
        element_size * count <= usize::MAX,
    ensures
        size == element_size * count,
{
    (element_size * count) as u64
}

/// Writing `count` elements of `element_size` bytes reallocates the buffer
/// exactly when they do not fit in its capacity.
pub fn write_status(capacity_in_bytes: u64, element_size: usize, count: usize) -> (status:
    WriteStatus)
    requires
        element_size * count <= usize::MAX,
    ensures
        capacity_in_bytes < element_size * count ==> status == WriteStatus::CompleteWithReallocation,
        capacity_in_bytes >= element_size * count ==> status == WriteStatus::Complete,
{
    let data_size = (element_size * count) as u64;
    if capacity_in_bytes < data_size {
        WriteStatus::CompleteWithReallocation
    } else {
        WriteStatus::Complete
    }
}

/// Each sprite is drawn as two triangles: six vertices.
pub fn sprite_vertex_count(sprite_count: usize) -> (vertex_count: u32)
    requires
        sprite_count * 6 <= u32::MAX,
    ensures
        vertex_count == sprite_count * 6,
{
    sprite_count as u32 * 6
}

} // verus!
