//! Frame-lifecycle and resource-ownership engine of a voxel-terrain renderer.
//!
//! The modules here hold the decisions of the renderer as plain values: which
//! frame slot and which swapchain image a frame uses, the order in which GPU
//! objects are made and destroyed, how a frame's command buffer is laid out,
//! and how mesh data is staged for upload. The graphics API calls that carry
//! those decisions out live outside this library and follow its plans.
pub mod descriptor;
pub mod device;
pub mod engine;
pub mod record;
pub mod shader;
pub mod sky;
pub mod swapchain;
pub mod upload;
pub mod view;

pub use descriptor::{
    draw_image_pool_ratios, pool_sizes, DescriptorLayoutBuilder, LayoutBinding, PoolRatio, PoolSize,
    DESCRIPTOR_MAX_SETS, STORAGE_IMAGE,
};
pub use device::{
    graphics_queue_family, select_physical_device, DeviceInfo, DeviceKind, QueueFamily,
    MIN_API_VERSION,
};
pub use engine::{
    ActionView, FenceState, FrameAction, FrameData, FrameEvent, FrameSubmission, Phase, RenderError,
    Rebuilt, Renderer, RendererView, ResizeError, ResizeStep, TeardownStep, FRAME_SLOTS,
    WAIT_TIMEOUT_NS,
};
pub use record::{
    blit_region, record_frame, transition_aspect, Aspect, BlitRegion, Extent2D, FrameCommand,
    ImageRef, Layout, MAX_SIDE,
};
pub use shader::{shader_code, ShaderCodeError};
pub use sky::{sky_cube_indices, SKY_CORNER_COUNT, SKY_INDEX_COUNT};
pub use swapchain::{
    choose_surface_format, swapchain_image_count, SwapchainData, SwapchainError, SwapchainPart,
    PREFERRED_IMAGE_COUNT, PREFERRED_SURFACE_FORMAT,
};
pub use upload::{
    apply_copy, pack_staging, split_staging, BufferCopy, StagingLayout,
};
pub use view::{Pitch, ViewDirection, Yaw};
