//! Backend interface, the passthrough backend, and the verified decision logic behind the
//! hardware pipelines.
use vstd::prelude::*;

use crate::desc::{ImageDesc, ImageDescMut};
use crate::options::ResizeOptions;
use crate::types::{BackendType, Result};

pub mod strategy;
pub mod passthrough;
pub mod host_convert;
pub mod staging;
pub mod lod;
pub mod compute;
pub mod formats;
pub mod pipeline;
pub mod shader;
pub mod memory;
pub mod programs;
pub mod blit;
pub mod device;

verus! {

/// Common interface of hardware and software backends.
pub trait Backend: Send + Sync {
    /// Human-readable name of the backend.
    fn name(&self) -> &'static str;

    /// The backend type.
    fn backend_type(&self) -> BackendType;

    /// Whether the backend is usable on this system.
    fn is_available(&self) -> bool;

    /// Resizes `src` into `dst` with `options`; both descriptors must describe their buffers.
    fn process(&self, src: &ImageDesc, dst: &mut ImageDescMut, options: &ResizeOptions) -> (r: Result<
        (),
    >)
        requires
            src.spec_layout_ok(),
            old(dst).spec_layout_ok(),
    ;
}

} // verus!
