//! Presentation and shader-pipeline setup for a Vulkan renderer: the choices
//! that decide how a swapchain is configured and how a shader source is
//! prepared for compilation, stated and proved over plain values.

pub mod pipeline;
pub mod swapchain;
