//! The verified core of a small Vulkan renderer: asset storage, the frame loop's decisions,
//! swapchain and device selection, descriptor and command planning, mesh assembly, and the
//! shader compiler's command line.
pub mod dense_storage;
pub mod rendering;
pub mod shaders;
