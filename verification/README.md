# scalix

Core of an image scaling engine, written in Verus: image geometry and buffer validation,
resize options, the passthrough backend, and the decisions that drive the hardware pipelines
(pipeline routing, staging buffer sizing, mip pass planning, compute dispatch sizing, DMA
allocator selection and layouts, thread naming, the C interface's value conversions and task
states). Functions in `src/` carry contracts that Verus proves, except where what they return is
another thread's doing (whether a queued task has finished, which outcome a wait observes); the
laws of the library are stated as public proof functions
beside the code they are about.

What is not here: the GPU execution itself. The Vulkan, OpenGL/EGL and OpenCL driver calls are
unsafe foreign calls and are provided neither by the library nor by `app/`. The engine in `app/`
therefore reports the Vulkan and OpenGL backends unavailable (OpenCL is not offered), and
automatic backend selection always ends on the passthrough backend, which copies the region
both images cover without resampling. The planning logic of those pipelines is in `src/` and
verified, ready for a runtime that drives a GPU. Profiling timings are floating point and live
in `app/`.

An `AlignedBuffer` records the address of its storage when it allocates it and places its
contents at the first boundary after it; its contracts state that the contents' start address
is a multiple of the alignment. The descriptors check the address of any slice they are given,
which is whatever the allocator chose: their contracts say what each outcome of that check
gives, not which slices pass it.

Layout:

- `src/types.rs`, `src/desc.rs`, `src/aligned.rs`, `src/buffer.rs`: geometry, formats, errors,
  image descriptors, 64-byte aligned buffers and owned images.
- `src/options.rs`, `src/backend/`: resize options, the backend trait, the passthrough backend,
  and the planning logic of the GPU pipelines (`strategy`, `staging`, `lod`, `compute`, `blit`,
  `formats`, `programs`, `shader`, `memory`, `device`, `host_convert`).
- `src/dma.rs`: DMA buffer layouts, allocator plans and cache synchronisation flags.
- `src/engine.rs`, `src/task.rs`, `src/c_task.rs`, `src/capi.rs`: engine configuration, backend
  bring-up order, thread names, task handles and the C interface's value types.
- `app/`: the runtime around the core (worker threads, the engine, kernel DMA allocators,
  profilers with floating-point timings, and the `extern "C"` entry points).
- `tests/`: tests of the library through its public interface.
