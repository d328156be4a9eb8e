//! Verified core of an image scaling engine: geometry, buffer validation, option handling,
//! passthrough transfer and the decisions that drive the hardware backends.
pub mod types;
pub mod desc;
pub mod aligned;
pub mod options;
pub mod backend;
pub mod buffer;
pub mod dma;
pub mod capi;
pub mod engine;
pub mod profiler;

pub use aligned::AlignedBuffer;
pub use backend::passthrough::PassthroughBackend;
pub use backend::Backend;
pub use backend::pipeline::VulkanPipeline;
pub use backend::strategy::{GlOptions, GlStrategy, OpenClOptions, OpenClStrategy, VulkanOptions, VulkanStrategy};
pub use buffer::OwnedImage;
pub use desc::{ImageDesc, ImageDescMut};
pub use dma::{DmaAllocatorType, DmaSyncFlags};
pub use engine::EngineConfig;
pub use options::{BackendOptions, ResizeOptions};
pub use profiler::NoopProfiler;
pub use types::{
    BackendType, FilterMode, ImageDimensions, ImageGeometry, PixelFormat, Result, ScalixError,
    REQUIRED_MEMORY_ALIGNMENT,
};
pub mod task;
pub mod c_task;
