//! Interface of pluggable Vulkan execution pipelines.
use vstd::prelude::*;

use crate::backend::strategy::VulkanStrategy;
use crate::desc::{ImageDesc, ImageDescMut};
use crate::options::ResizeOptions;
use crate::types::Result;

verus! {

/// A Vulkan execution pipeline that a backend can route requests to.
pub trait VulkanPipeline {
    /// Human-readable name of the pipeline.
    fn name(&self) -> &'static str;

    /// Strategy this pipeline implements.
    fn strategy(&self) -> VulkanStrategy;

    /// Resizes `src` into `dst`.
    fn process(&self, src: &ImageDesc, dst: &mut ImageDescMut, options: &ResizeOptions) -> Result<()>;
}

} // verus!
