//! Per-request resize options.
use vstd::prelude::*;

use crate::backend::strategy::{
    GlOptions, GlStrategy, OpenClOptions, OpenClStrategy, VulkanOptions, VulkanStrategy,
};
use crate::types::FilterMode;

verus! {

/// Backend-specific execution options carried by a request.
#[derive(Debug, Clone, Copy, PartialEq, Eq, Structural)]
pub enum BackendOptions {
    Unspecified,
    Vulkan(VulkanOptions),
    Gl(GlOptions),
    OpenCl(OpenClOptions),
}

impl Default for BackendOptions {
    fn default() -> (r: Self)
        ensures
            r == BackendOptions::Unspecified,
    {
        BackendOptions::Unspecified
    }
}

/// Filter and backend options of one resize request.
#[derive(Debug, Clone, Copy, PartialEq, Eq, Structural)]
pub struct ResizeOptions {
    pub filter: FilterMode,
    pub backend_options: BackendOptions,
}

impl Default for ResizeOptions {
    /// Bilinear filtering with no backend options.
    fn default() -> (r: Self)
        ensures
            r == (ResizeOptions { filter: FilterMode::Bilinear, backend_options: BackendOptions::Unspecified }),
    {
        ResizeOptions { filter: FilterMode::Bilinear, backend_options: BackendOptions::Unspecified }
    }
}

impl From<FilterMode> for ResizeOptions {
    fn from(filter: FilterMode) -> (r: Self) {
        ResizeOptions { filter, backend_options: BackendOptions::Unspecified }
    }
}

impl vstd::std_specs::convert::FromSpecImpl<FilterMode> for ResizeOptions {
    open spec fn obeys_from_spec() -> bool {
        true
    }

    open spec fn from_spec(filter: FilterMode) -> Self {
        ResizeOptions { filter, backend_options: BackendOptions::Unspecified }
    }
}

impl ResizeOptions {
    /// The Vulkan options in effect: the carried ones, or the defaults.
    pub open spec fn spec_vulkan_options(&self) -> VulkanOptions {
        match self.backend_options {
            BackendOptions::Vulkan(v) => v,
            _ => VulkanOptions { strategy: VulkanStrategy::Auto, max_mip_levels: 0 },
        }
    }

    /// The OpenGL options in effect: the carried ones, or the defaults.
    pub open spec fn spec_gl_options(&self) -> GlOptions {
        match self.backend_options {
            BackendOptions::Gl(g) => g,
            _ => GlOptions { strategy: GlStrategy::Auto, max_mip_levels: 0 },
        }
    }

    /// The OpenCL options in effect: the carried ones, or the defaults.
    pub open spec fn spec_opencl_options(&self) -> OpenClOptions {
        match self.backend_options {
            BackendOptions::OpenCl(c) => c,
            _ => OpenClOptions { strategy: OpenClStrategy::Auto },
        }
    }

    /// `self` with its Vulkan strategy set to `strategy`.
    pub open spec fn spec_with_vulkan_strategy(self, strategy: VulkanStrategy) -> Self {
        ResizeOptions {
            filter: self.filter,
            backend_options: BackendOptions::Vulkan(
                VulkanOptions { strategy, ..self.spec_vulkan_options() },
            ),
        }
    }

    /// `self` with its OpenGL strategy set to `strategy`.
    pub open spec fn spec_with_gl_strategy(self, strategy: GlStrategy) -> Self {
        ResizeOptions {
            filter: self.filter,
            backend_options: BackendOptions::Gl(GlOptions { strategy, ..self.spec_gl_options() }),
        }
    }

    /// `self` with its mip level cap set to `max_levels`.
    pub open spec fn spec_with_max_mip_levels(self, max_levels: u32) -> Self {
        ResizeOptions {
            filter: self.filter,
            backend_options: match self.backend_options {
                BackendOptions::Vulkan(v) => BackendOptions::Vulkan(
                    VulkanOptions { max_mip_levels: max_levels, ..v },
                ),
                BackendOptions::Gl(g) => BackendOptions::Gl(GlOptions { max_mip_levels: max_levels, ..g }),
                _ => BackendOptions::Vulkan(
                    VulkanOptions { strategy: VulkanStrategy::Auto, max_mip_levels: max_levels },
                ),
            },
        }
    }

    /// Options for `filter` with no backend options.
    pub fn new(filter: FilterMode) -> (r: Self)
        ensures
            r == (ResizeOptions { filter, backend_options: BackendOptions::Unspecified }),
    {
        ResizeOptions { filter, backend_options: BackendOptions::Unspecified }
    }

    /// Replaces the backend options by `opts`.
    pub fn with_vulkan_options(self, opts: VulkanOptions) -> (r: Self)
        ensures
            r == (ResizeOptions { filter: self.filter, backend_options: BackendOptions::Vulkan(opts) }),
    {
        ResizeOptions { filter: self.filter, backend_options: BackendOptions::Vulkan(opts) }
    }

    /// Sets the Vulkan strategy, keeping carried Vulkan options and defaulting the rest.
    pub fn with_vulkan_strategy(self, strategy: VulkanStrategy) -> (r: Self)
        ensures
            r == self.spec_with_vulkan_strategy(strategy),
    {
        let mut opts = match self.backend_options {
            BackendOptions::Vulkan(v) => v,
            _ => VulkanOptions::default(),
        };
        opts.strategy = strategy;
        ResizeOptions { filter: self.filter, backend_options: BackendOptions::Vulkan(opts) }
    }

    /// Replaces the backend options by `opts`.
    pub fn with_gl_options(self, opts: GlOptions) -> (r: Self)
        ensures
            r == (ResizeOptions { filter: self.filter, backend_options: BackendOptions::Gl(opts) }),
    {
        ResizeOptions { filter: self.filter, backend_options: BackendOptions::Gl(opts) }
    }

    /// Sets the OpenGL strategy, keeping carried OpenGL options and defaulting the rest.
    pub fn with_gl_strategy(self, strategy: GlStrategy) -> (r: Self)
        ensures
            r == self.spec_with_gl_strategy(strategy),
    {
        let mut opts = match self.backend_options {
            BackendOptions::Gl(g) => g,
            _ => GlOptions::default(),
        };
        opts.strategy = strategy;
        ResizeOptions { filter: self.filter, backend_options: BackendOptions::Gl(opts) }
    }

    /// Replaces the backend options by `opts`.
    pub fn with_opencl_options(self, opts: OpenClOptions) -> (r: Self)
        ensures
            r == (ResizeOptions { filter: self.filter, backend_options: BackendOptions::OpenCl(opts) }),
    {
        ResizeOptions { filter: self.filter, backend_options: BackendOptions::OpenCl(opts) }
    }

    /// Sets the OpenCL strategy.
    pub fn with_opencl_strategy(self, strategy: OpenClStrategy) -> (r: Self)
        ensures
            r == (ResizeOptions {
                filter: self.filter,
                backend_options: BackendOptions::OpenCl(OpenClOptions { strategy }),
            }),
    {
        let mut opts = match self.backend_options {
            BackendOptions::OpenCl(c) => c,
            _ => OpenClOptions::default(),
        };
        opts.strategy = strategy;
        ResizeOptions { filter: self.filter, backend_options: BackendOptions::OpenCl(opts) }
    }

    /// Caps mip levels on carried Vulkan or OpenGL options; otherwise installs Vulkan options
    /// with the automatic strategy and this cap.
    pub fn with_max_mip_levels(self, max_levels: u32) -> (r: Self)
        ensures
            r == self.spec_with_max_mip_levels(max_levels),
    {
        let backend_options = match self.backend_options {
            BackendOptions::Vulkan(v) => {
                let mut v = v;
                v.max_mip_levels = max_levels;
                BackendOptions::Vulkan(v)
            },
            BackendOptions::Gl(g) => {
                let mut g = g;
                g.max_mip_levels = max_levels;
                BackendOptions::Gl(g)
            },
            BackendOptions::OpenCl(_) | BackendOptions::Unspecified => BackendOptions::Vulkan(
                VulkanOptions { strategy: VulkanStrategy::Auto, max_mip_levels: max_levels },
            ),
        };
        ResizeOptions { filter: self.filter, backend_options }
    }

    /// The Vulkan options in effect.
    pub fn vulkan_options(&self) -> (r: VulkanOptions)
        ensures
            r == self.spec_vulkan_options(),
    {
        match self.backend_options {
            BackendOptions::Vulkan(v) => v,
            _ => VulkanOptions::default(),
        }
    }

    /// The OpenGL options in effect.
    pub fn gl_options(&self) -> (r: GlOptions)
        ensures
            r == self.spec_gl_options(),
    {
        match self.backend_options {
            BackendOptions::Gl(g) => g,
            _ => GlOptions::default(),
        }
    }

    /// The OpenCL options in effect.
    pub fn opencl_options(&self) -> (r: OpenClOptions)
        ensures
            r == self.spec_opencl_options(),
    {
        match self.backend_options {
            BackendOptions::OpenCl(c) => c,
            _ => OpenClOptions::default(),
        }
    }
}

/// Law: setting a strategy is what the backend then reads, and keeps the mip level cap the
/// options already carried for that backend.
pub proof fn lemma_strategy_setters_read_back(o: ResizeOptions, vs: VulkanStrategy, gs: GlStrategy)
    ensures
        o.spec_with_vulkan_strategy(vs).spec_vulkan_options() == (VulkanOptions {
            strategy: vs,
            max_mip_levels: o.spec_vulkan_options().max_mip_levels,
        }),
        o.spec_with_gl_strategy(gs).spec_gl_options() == (GlOptions {
            strategy: gs,
            max_mip_levels: o.spec_gl_options().max_mip_levels,
        }),
        o.spec_with_vulkan_strategy(vs).filter == o.filter,
        o.spec_with_gl_strategy(gs).filter == o.filter,
{
}

/// Law: a mip level cap reaches the backend that will honour it: the OpenGL options when the
/// request carries OpenGL options, the Vulkan options otherwise; and a later strategy choice
/// for that backend keeps the cap.
pub proof fn lemma_mip_cap_reaches_backend(o: ResizeOptions, n: u32, vs: VulkanStrategy, gs: GlStrategy)
    ensures
        o.backend_options is Gl ==> o.spec_with_max_mip_levels(n).spec_gl_options().max_mip_levels == n,
        o.backend_options is Gl ==> o.spec_with_max_mip_levels(n).spec_with_gl_strategy(gs).spec_gl_options().max_mip_levels == n,
        !(o.backend_options is Gl) ==> o.spec_with_max_mip_levels(n).spec_vulkan_options().max_mip_levels == n,
        !(o.backend_options is Gl) ==> o.spec_with_max_mip_levels(n).spec_with_vulkan_strategy(vs).spec_vulkan_options().max_mip_levels == n,
{
}

} // verus!
