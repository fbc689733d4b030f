//! Frame-in-flight bookkeeping, resource N-buffering, and the device, queue,
//! memory and swapchain selection rules of a small Vulkan 2D renderer.

pub mod async_n_buffer;
pub mod debug_logging;
pub mod dynamic_buffer;
pub mod frame_mask;
pub mod frames_in_flight;
pub mod mapped_buffer;
pub mod memory;
pub mod mesh;
pub mod n_buffer;
pub mod physical_device;
pub mod queue_families;
pub mod swapchain;
pub mod texture;
pub mod time;
pub mod timer;
pub mod used_by_frames;
pub mod window_state;

pub use async_n_buffer::{AsyncNBuffer, AsyncNBufferClient, NBufferError};
pub use frame_mask::FrameMask;
pub use n_buffer::NBuffer;
pub use used_by_frames::UsedByFrames;
