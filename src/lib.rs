//! Device selection, swapchain planning and the per-frame synchronisation
//! protocol of a small Vulkan renderer, with the native objects held as
//! opaque `ash` values.
pub mod commands;
pub mod context;
pub mod device_select;
pub mod error;
pub mod frame_ring;
pub mod instance;
pub mod lifecycle;
pub mod native;
pub mod pipeline;
pub mod render_loop;
pub mod swapchain;
