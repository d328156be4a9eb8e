use std::sync::atomic::{AtomicBool, Ordering};
use std::sync::Arc;
use std::time::Duration;

use scalix::capi::{
    backend_display_name, backend_record_kind, backend_type_to_c, extract_image_desc,
    map_error_to_code, pixel_format_to_c, task_output_status, task_wait_disposition, task_wait_timeout,
    BackendRecordKind,
    ScalixAllocatorType, ScalixBackendOptions, ScalixBackendRecord, ScalixBackendType,
    ScalixFilterMode, ScalixGlOptions, ScalixPixelFormat, ScalixResizeOptions, ScalixStrategy,
    ScalixVulkanOptions, SCALIX_BACKEND_RECORD_SIZE, SCALIX_ERR_BUFFER_TOO_SMALL, SCALIX_ERR_FAILED,
    SCALIX_ERR_TIMEOUT, SCALIX_ERR_UNALIGNED_POINTER, SCALIX_SUCCESS,
};
use scalix::dma::{
    ahb_format_code, ahb_layout, auto_allocation_failure, drm_dumb_request, plan_dma_allocation,
    raw_dma_buf_layout, sync_ioctl_flags, tight_layout, AndroidAhbAllocator, DmaPlatform,
    LinuxDmaHeapAllocator, LinuxDrmAllocator,
};
use scalix::engine::{backend_init_step, sanitize_thread_prefix, worker_thread_name, BackendInitStep};
use scalix::c_task::ScalixTask;
use scalix::task::TaskHandle;
use scalix::{
    AlignedBuffer, BackendOptions, OwnedImage, BackendType, DmaAllocatorType, DmaSyncFlags, EngineConfig,
    FilterMode, GlOptions, GlStrategy, ImageDimensions, NoopProfiler, PixelFormat, ScalixError,
    VulkanOptions, VulkanStrategy,
};

#[test]
fn dma_sync_flags() {
    assert_eq!(sync_ioctl_flags(DmaSyncFlags::Read, false), 1);
    assert_eq!(sync_ioctl_flags(DmaSyncFlags::Write, true), 2 | 4);
    assert_eq!(sync_ioctl_flags(DmaSyncFlags::ReadWrite, true), 7);
    assert_eq!(sync_ioctl_flags(DmaSyncFlags::ReadWrite, false), 3);
}

#[test]
fn dma_layouts() {
    let d = ImageDimensions::new(64, 48);
    assert_eq!(tight_layout(d, PixelFormat::Rgba8888), Ok((256, 256 * 48)));
    assert_eq!(tight_layout(d, PixelFormat::Nv12), Ok((64, 64 * 48 * 3 / 2)));
    assert_eq!(
        raw_dma_buf_layout(3, ImageDimensions::new(0, 4), PixelFormat::R8, None),
        Err(ScalixError::InvalidDimensions { width: 0, height: 4 })
    );
    assert_eq!(
        raw_dma_buf_layout(-1, d, PixelFormat::R8, None),
        Err(ScalixError::DmaAllocationFailed("Invalid negative DMA-BUF file descriptor".to_string()))
    );
    assert_eq!(
        raw_dma_buf_layout(3, d, PixelFormat::Rgb888, Some(100)),
        Err(ScalixError::InvalidStride { stride: 100, min_stride: 192 })
    );
    assert_eq!(raw_dma_buf_layout(3, d, PixelFormat::R8, Some(128)), Ok((128, 128 * 47 + 64)));
    assert_eq!(drm_dumb_request(48, PixelFormat::Rgb888), (24, 48));
    assert_eq!(drm_dumb_request(48, PixelFormat::Yuv420p), (8, 72));
    assert_eq!(ahb_format_code(PixelFormat::Nv12), Ok(0x23));
    assert_eq!(ahb_format_code(PixelFormat::Rgba8888), Ok(1));
    assert_eq!(
        ahb_format_code(PixelFormat::Bgra8888),
        Err(ScalixError::UnsupportedFormat(PixelFormat::Bgra8888))
    );
    // The described pitch is used when it is at least the tightest one.
    assert_eq!(ahb_layout(d, PixelFormat::Rgba8888, 80), Ok((320, 320 * 47 + 256)));
    assert_eq!(ahb_layout(d, PixelFormat::Rgba8888, 10), Ok((256, 256 * 48)));
}

#[test]
fn dma_allocation_plans() {
    let d = ImageDimensions::new(32, 32);
    assert_eq!(
        plan_dma_allocation(d, DmaAllocatorType::Auto, DmaPlatform::Linux),
        Ok(vec![DmaAllocatorType::DmaHeap, DmaAllocatorType::DrmDumb])
    );
    assert_eq!(
        plan_dma_allocation(d, DmaAllocatorType::Auto, DmaPlatform::Android),
        Ok(vec![DmaAllocatorType::AndroidAhb, DmaAllocatorType::DmaHeap])
    );
    assert_eq!(
        plan_dma_allocation(d, DmaAllocatorType::HostAligned, DmaPlatform::Other),
        Ok(vec![DmaAllocatorType::HostAligned])
    );
    assert_eq!(
        plan_dma_allocation(d, DmaAllocatorType::DrmDumb, DmaPlatform::Android),
        Err(ScalixError::DmaUnavailable("DRM Dumb allocator is only available on Linux".to_string()))
    );
    assert_eq!(
        plan_dma_allocation(ImageDimensions::new(0, 0), DmaAllocatorType::Auto, DmaPlatform::Linux),
        Err(ScalixError::InvalidDimensions { width: 0, height: 0 })
    );
    assert_eq!(
        auto_allocation_failure(DmaPlatform::Linux, "a", "b"),
        ScalixError::DmaUnavailable("All Linux DMA allocators failed. DMA-Heap: [a], DRM: [b]".to_string())
    );
    assert_eq!(
        auto_allocation_failure(DmaPlatform::Android, "x", "y"),
        ScalixError::DmaUnavailable(
            "All Android DMA allocators failed. AHB: [x], DMA-Heap: [y]".to_string()
        )
    );
    assert_eq!(LinuxDmaHeapAllocator.name(), "linux_dma_heap");
    assert_eq!(LinuxDrmAllocator.name(), "linux_drm");
    assert_eq!(AndroidAhbAllocator.name(), "android_ahb");
    assert!(AndroidAhbAllocator::is_available());
    assert_eq!(DmaAllocatorType::default(), DmaAllocatorType::Auto);
}

#[test]
fn c_error_codes() {
    assert_eq!(map_error_to_code(ScalixError::Timeout), SCALIX_ERR_TIMEOUT);
    assert_eq!(
        map_error_to_code(ScalixError::UnalignedPointer { address: 1, alignment: 64 }),
        SCALIX_ERR_UNALIGNED_POINTER
    );
    assert_eq!(map_error_to_code(ScalixError::ChannelClosed), SCALIX_ERR_FAILED);
    assert_eq!(map_error_to_code(ScalixError::NullPointer), -1);
    assert_eq!(map_error_to_code(ScalixError::DmaSyncFailed(String::new())), -11);
    assert_eq!(map_error_to_code(ScalixError::ExecutionFailed("x".to_string())), -99);
}

#[test]
fn c_enum_conversions() {
    assert_eq!(BackendType::from(ScalixBackendType::Hw2d), BackendType::Hw2d);
    assert_eq!(backend_type_to_c(BackendType::OpenCL), ScalixBackendType::Auto);
    assert_eq!(backend_type_to_c(BackendType::Cpu), ScalixBackendType::Cpu);
    assert_eq!(backend_display_name(BackendType::Cpu), "CPU (Fallback)");
    assert_eq!(backend_display_name(BackendType::Hw2d), "Hardware 2D");
    assert_eq!(DmaAllocatorType::from(ScalixAllocatorType::DrmDumb), DmaAllocatorType::DrmDumb);
    assert_eq!(ScalixAllocatorType::from(DmaAllocatorType::HostAligned), ScalixAllocatorType::HostAligned);
    assert_eq!(FilterMode::from(ScalixFilterMode::Area), FilterMode::Area);
    assert_eq!(PixelFormat::from(ScalixPixelFormat::Yuv420p), PixelFormat::Yuv420p);
    assert_eq!(pixel_format_to_c(PixelFormat::Rg88), ScalixPixelFormat::Rg88);
    assert_eq!(VulkanStrategy::from(ScalixStrategy::LodPyramid), VulkanStrategy::LodPyramid);
    assert_eq!(GlStrategy::from(ScalixStrategy::Raster), GlStrategy::Raster);
}

#[test]
fn c_backend_records_and_options() {
    let vk = ScalixVulkanOptions::default();
    assert_eq!(vk.header.struct_size, SCALIX_BACKEND_RECORD_SIZE);
    assert_eq!(backend_record_kind(&vk.header), BackendRecordKind::Vulkan);
    let short = ScalixBackendOptions { backend_type: ScalixBackendType::OpenGL, struct_size: 8 };
    assert_eq!(backend_record_kind(&short), BackendRecordKind::Ignored);
    let gl = ScalixGlOptions::default();
    assert_eq!(backend_record_kind(&gl.header), BackendRecordKind::Gl);

    let req = ScalixResizeOptions {
        filter: ScalixFilterMode::Bicubic,
        backend_options: ScalixBackendRecord::Vulkan(ScalixVulkanOptions {
            strategy: ScalixStrategy::Compute,
            max_mip_levels: 3,
            ..ScalixVulkanOptions::default()
        }),
    };
    let core = req.to_core();
    assert_eq!(core.filter, FilterMode::Bicubic);
    assert_eq!(
        core.backend_options,
        BackendOptions::Vulkan(VulkanOptions { strategy: VulkanStrategy::Compute, max_mip_levels: 3 })
    );
    let gl_req = ScalixResizeOptions {
        filter: ScalixFilterMode::Nearest,
        backend_options: ScalixBackendRecord::Gl(ScalixGlOptions {
            strategy: ScalixStrategy::Blit,
            max_mip_levels: 0,
            ..ScalixGlOptions::default()
        }),
    };
    assert_eq!(
        gl_req.to_core().backend_options,
        BackendOptions::Gl(GlOptions { strategy: GlStrategy::Blit, max_mip_levels: 0 })
    );
    let bare = ScalixResizeOptions {
        filter: ScalixFilterMode::Area,
        backend_options: ScalixBackendRecord::Ignored,
    };
    assert_eq!(bare.to_core().backend_options, BackendOptions::Unspecified);
}

#[test]
fn c_task_helpers_and_descriptors() {
    assert_eq!(task_wait_timeout(0), None);
    assert_eq!(task_wait_timeout(u32::MAX), None);
    assert_eq!(task_wait_timeout(1000), Some(1000));
    assert_eq!(task_output_status(10, 11), SCALIX_ERR_BUFFER_TOO_SMALL);
    assert_eq!(task_output_status(11, 11), SCALIX_SUCCESS);
    assert_eq!(task_wait_disposition::<u8>(&Ok(3)), (SCALIX_SUCCESS, false));
    assert_eq!(task_wait_disposition::<u8>(&Err(ScalixError::Timeout)), (SCALIX_ERR_TIMEOUT, true));
    assert_eq!(task_wait_disposition::<u8>(&Err(ScalixError::ChannelClosed)), (SCALIX_ERR_FAILED, false));

    let buf = AlignedBuffer::new(64).unwrap();
    let d = extract_image_desc(4, 4, 16, ScalixPixelFormat::Rgba8888, buf.as_slice(), 5).unwrap();
    assert_eq!(d.dma_buf_fd, Some(5));
    let d = extract_image_desc(4, 4, 16, ScalixPixelFormat::Rgba8888, buf.as_slice(), -1).unwrap();
    assert_eq!(d.dma_buf_fd, None);
    assert!(matches!(
        extract_image_desc(4, 4, 16, ScalixPixelFormat::Rgba8888, &buf.as_slice()[..32], -1),
        Err(ScalixError::BufferTooSmall { required: 64, actual: 32 })
    ));
}

#[test]
fn engine_configuration() {
    let c = EngineConfig::new(Some(8));
    assert_eq!(c.num_hw_threads, 1);
    assert_eq!(c.num_callback_workers, 8);
    assert_eq!(c.worker_queue_capacity, 1024);
    assert!(c.thread_prefix.is_none());
    assert_eq!(EngineConfig::new(Some(1)).num_callback_workers, 2);
    assert_eq!(EngineConfig::new(None).num_callback_workers, 4);
    let c = c
        .with_thread_prefix("cfg_eng")
        .with_hw_threads(0)
        .with_callback_workers(0)
        .with_queue_capacity(512);
    assert_eq!(c.thread_prefix.as_deref(), Some("cfg_eng"));
    assert_eq!(c.hw_pool_threads(), 1);
    assert_eq!(c.callback_pool_threads(), 1);
    assert_eq!(c.worker_queue_capacity, 512);
}

#[test]
fn backend_bring_up_order() {
    assert_eq!(backend_init_step(BackendType::Auto, None), BackendInitStep::Try(BackendType::Vulkan));
    assert_eq!(
        backend_init_step(BackendType::Auto, Some(BackendType::Vulkan)),
        BackendInitStep::Try(BackendType::OpenGL)
    );
    assert_eq!(
        backend_init_step(BackendType::Auto, Some(BackendType::OpenGL)),
        BackendInitStep::Try(BackendType::Passthrough)
    );
    assert_eq!(
        backend_init_step(BackendType::Vulkan, Some(BackendType::Vulkan)),
        BackendInitStep::GiveUp
    );
    assert_eq!(
        backend_init_step(BackendType::Cpu, None),
        BackendInitStep::Try(BackendType::Passthrough)
    );
    assert_eq!(
        backend_init_step(BackendType::Npu, None),
        BackendInitStep::Reject(ScalixError::BackendUnavailable(BackendType::Npu))
    );
}

#[test]
fn thread_prefix_sanitising() {
    assert_eq!(sanitize_thread_prefix(Some("  cfg_eng  "), 1), "cfg_eng");
    assert_eq!(sanitize_thread_prefix(Some("cam_pipeline"), 1), "cam_pip");
    assert_eq!(sanitize_thread_prefix(Some("   "), 4242), "4242");
    assert_eq!(sanitize_thread_prefix(None, 123_456_789), "1234567");
    // The cut never splits a character: five two-byte letters keep three.
    assert_eq!(sanitize_thread_prefix(Some("ééééé"), 1), "ééé");
    assert_eq!(sanitize_thread_prefix(Some("ab€cd"), 1), "ab€cd");
    assert_eq!(sanitize_thread_prefix(Some("abcdef€"), 1), "abcdef");
    assert_eq!(worker_thread_name("app/scx-w", 1, 0), "app/scx-w");
    assert_eq!(worker_thread_name("app/scx-w", 4, 12), "app/scx-w12");
}

#[test]
fn task_handle_waits() {
    let (tx, rx) = crossbeam_channel::bounded(1);
    let done = Arc::new(AtomicBool::new(false));
    let handle: TaskHandle<u32> = TaskHandle::new(rx, Arc::clone(&done));
    assert!(!handle.is_ready());
    assert_eq!(handle.wait(Some(Duration::from_millis(10))), Err(ScalixError::Timeout));
    tx.send(Ok(42)).unwrap();
    done.store(true, Ordering::Release);
    assert!(handle.is_ready());
    assert_eq!(handle.wait(None), Ok(42));
    drop(tx);
    assert_eq!(handle.wait(None), Err(ScalixError::ChannelClosed));
}

#[test]
fn noop_profiler_is_disabled() {
    assert!(!NoopProfiler.is_enabled());
}

#[test]
fn c_task_lifecycle() {
    // A resize into the caller's buffers: a timed-out wait keeps it pending.
    let (tx, rx) = crossbeam_channel::bounded(1);
    let done = Arc::new(AtomicBool::new(false));
    let mut raw = ScalixTask::from_raw(TaskHandle::new(rx, Arc::clone(&done)));
    assert!(!raw.is_ready());
    assert_eq!(raw.wait(Some(Duration::from_millis(10))), SCALIX_ERR_TIMEOUT);
    tx.send(Ok(())).unwrap();
    done.store(true, Ordering::Release);
    assert!(raw.is_ready());
    assert_eq!(raw.wait(None), SCALIX_SUCCESS);
    assert!(raw.result().is_none());
    // Nothing left to wait for.
    assert_eq!(raw.wait(None), SCALIX_ERR_FAILED);
    assert!(!raw.is_ready());

    // A resize into an owned image: the image is kept once received.
    let (tx, rx) = crossbeam_channel::bounded(1);
    let mut owned = ScalixTask::from_owned(TaskHandle::new(rx, Arc::new(AtomicBool::new(false))));
    let img = OwnedImage::from_vec(1, 1, 4, PixelFormat::Rgba8888, vec![9, 8, 7, 6]).unwrap();
    tx.send(Ok(img.clone())).unwrap();
    assert_eq!(owned.wait(None), SCALIX_SUCCESS);
    assert_eq!(owned.result(), Some(&img));
    assert!(owned.is_ready());
    assert_eq!(owned.wait(Some(Duration::from_millis(1))), SCALIX_SUCCESS);

    // A failed resize ends the task with the error's code.
    let (tx, rx) = crossbeam_channel::bounded(1);
    let mut failed = ScalixTask::from_owned(TaskHandle::new(rx, Arc::new(AtomicBool::new(true))));
    tx.send(Err(ScalixError::BufferTooSmall { required: 4, actual: 1 })).unwrap();
    assert_eq!(failed.wait(None), SCALIX_ERR_BUFFER_TOO_SMALL);
    assert!(failed.result().is_none());
    assert_eq!(failed.wait(None), SCALIX_ERR_FAILED);
}

#[test]
fn c_enum_round_trips() {
    let formats = [
        PixelFormat::Rgba8888,
        PixelFormat::Bgra8888,
        PixelFormat::Rgb888,
        PixelFormat::Bgr888,
        PixelFormat::R8,
        PixelFormat::Rg88,
        PixelFormat::Nv12,
        PixelFormat::Yuv420p,
        PixelFormat::Rgba16f,
        PixelFormat::Rgba32f,
    ];
    for f in formats {
        assert_eq!(PixelFormat::from(pixel_format_to_c(f)), f);
    }
    let allocators = [
        DmaAllocatorType::Auto,
        DmaAllocatorType::DmaHeap,
        DmaAllocatorType::DrmDumb,
        DmaAllocatorType::AndroidAhb,
        DmaAllocatorType::HostAligned,
    ];
    for a in allocators {
        assert_eq!(DmaAllocatorType::from(ScalixAllocatorType::from(a)), a);
    }
    let backends = [
        ScalixBackendType::Auto,
        ScalixBackendType::Vulkan,
        ScalixBackendType::OpenGL,
        ScalixBackendType::Npu,
        ScalixBackendType::Hw2d,
        ScalixBackendType::Cpu,
        ScalixBackendType::Passthrough,
    ];
    for b in backends {
        assert_eq!(backend_type_to_c(BackendType::from(b)), b);
    }
    let errors = [
        ScalixError::InvalidDimensions { width: 0, height: 0 },
        ScalixError::BufferTooSmall { required: 2, actual: 1 },
        ScalixError::Timeout,
        ScalixError::ChannelClosed,
        ScalixError::DmaMapFailed(String::new()),
    ];
    for e in errors {
        assert!(map_error_to_code(e) < 0);
    }
}
