use scalix::backend::host_convert::{cpu_repack_rgb888, cpu_unpack_rgb888};
use scalix::engine::{callback_thread_prefix, hw_thread_name, sanitize_thread_prefix, worker_thread_name};
use scalix::task::TaskHandle;
use scalix::{BackendType, EngineConfig};
use std::sync::atomic::{AtomicBool, Ordering};
use std::sync::Arc;
use std::time::Duration;
use scalix::{
    AlignedBuffer, FilterMode, ImageDesc, ImageDescMut, ImageDimensions, ImageGeometry, OwnedImage,
    PassthroughBackend, PixelFormat, ResizeOptions, ScalixError, VulkanPipeline, VulkanStrategy,
};

#[test]
fn test_sync_passthrough_memory_transfer() {
    let backend = PassthroughBackend::new();

    let width = 64;
    let height = 64;
    let format = PixelFormat::Rgba8888;
    let stride = format.min_stride(width).unwrap();

    let mut src_data = AlignedBuffer::new(stride * (height as usize)).unwrap();
    for (i, byte) in src_data.as_mut_slice().iter_mut().enumerate() {
        *byte = (i % 255) as u8;
    }

    let mut dst_data = AlignedBuffer::new(stride * (height as usize)).unwrap();

    let src_desc = ImageDesc::new(width, height, stride, format, src_data.as_slice()).unwrap();
    let mut dst_desc =
        ImageDescMut::new(width, height, stride, format, dst_data.as_mut_slice()).unwrap();

    backend
        .process(&src_desc, &mut dst_desc, &ResizeOptions::from(FilterMode::Passthrough))
        .expect("Resize sync failed");

    assert_eq!(
        src_data.as_slice(),
        dst_data.as_slice(),
        "Destination data must match source data"
    );
}

#[test]
fn test_buffer_bounds_and_error_handling() {
    // 1. Zero dimension error
    let zero_res = PixelFormat::Rgba8888.min_buffer_size(0, 100, 100);
    assert!(matches!(
        zero_res,
        Err(ScalixError::InvalidDimensions { .. })
    ));

    // 2. Undersized stride error
    let stride_res = PixelFormat::Rgba8888.min_buffer_size(100, 100, 100); // 100 < 400
    assert!(matches!(stride_res, Err(ScalixError::InvalidStride { .. })));

    // 3. Buffer too small error
    let raw_data = AlignedBuffer::new(10).unwrap();
    let img_res = ImageDesc::new(100, 100, 400, PixelFormat::Rgba8888, raw_data.as_slice());
    assert!(matches!(img_res, Err(ScalixError::BufferTooSmall { .. })));

    // 4. Unaligned pointer error
    let unaligned_raw = [0u8; 128];
    let unaligned_offset = if (unaligned_raw.as_ptr() as usize) % 64 == 0 { 1 } else { 0 };
    let unaligned_slice = &unaligned_raw[unaligned_offset..unaligned_offset + 64];
    let unaligned_res = ImageDesc::new(4, 4, 16, PixelFormat::Rgba8888, unaligned_slice);
    assert!(matches!(
        unaligned_res,
        Err(ScalixError::UnalignedPointer { alignment: 64, .. })
    ));
}

#[test]
fn test_thread_names_format_and_length_limit() {
    let pid: u32 = 48213;

    // 1. Default PID prefix: <pid>/scx-hw and <pid>/scx-w<id>
    {
        let prefix = sanitize_thread_prefix(None, pid);
        let expected_hw_name = format!("{}/scx-hw", pid);
        let expected_cb_prefix = format!("{}/scx-w", pid);
        let hw_name = hw_thread_name(&prefix);
        let cb_name = worker_thread_name(&callback_thread_prefix(&prefix), 4, 0);

        assert_eq!(hw_name, expected_hw_name);
        assert!(
            expected_hw_name.len() <= 15,
            "HW thread name '{}' exceeds Linux 15-char limit (len={})",
            expected_hw_name,
            expected_hw_name.len()
        );
        assert!(
            cb_name.len() <= 15,
            "CB thread name '{}' exceeds Linux 15-char limit (len={})",
            cb_name,
            cb_name.len()
        );
        assert!(
            cb_name.starts_with(&expected_cb_prefix),
            "CB thread name '{}' should start with '{}'",
            cb_name,
            expected_cb_prefix
        );
    }

    // 2. Custom Prefix with truncation: "cam_pipeline" -> truncated to 7 chars: "cam_pip"
    {
        let prefix = sanitize_thread_prefix(Some("cam_pipeline"), pid);
        let expected_hw_name = "cam_pip/scx-hw";
        let expected_cb_prefix = "cam_pip/scx-w";

        assert_eq!(expected_hw_name.len(), 14); // <= 15
        assert_eq!(hw_thread_name(&prefix), expected_hw_name);

        let cb_name = worker_thread_name(&callback_thread_prefix(&prefix), 4, 3);
        assert!(
            cb_name.starts_with(expected_cb_prefix),
            "CB thread name '{}' should start with '{}'",
            cb_name,
            expected_cb_prefix
        );
    }
}

#[test]
fn test_image_dimensions_and_geometry() {
    let dims = ImageDimensions::new(64, 48);
    assert!(!dims.is_empty());
    assert_eq!(dims.checked_area(), Some(64 * 48));
    assert!(dims.validate_even().is_ok());

    let empty_dims = ImageDimensions::new(0, 100);
    assert!(empty_dims.is_empty());

    let odd_dims = ImageDimensions::new(63, 48);
    assert!(matches!(
        odd_dims.validate_even(),
        Err(ScalixError::InvalidDimensions { .. })
    ));

    let geom = ImageGeometry::new(dims, PixelFormat::Rgba8888).unwrap();
    assert_eq!(geom.dimensions, dims);
    assert_eq!(geom.stride, 64 * 4);
    assert_eq!(geom.min_buffer_size().unwrap(), 64 * 48 * 4);

    let owned = OwnedImage::allocate_geometry(geom).unwrap();
    assert_eq!(owned.dimensions(), dims);
    assert_eq!(owned.stride(), 64 * 4);
    assert_eq!(owned.format(), PixelFormat::Rgba8888);
    assert_eq!(owned.geometry(), geom);

    // Vec storage gives no 64-byte alignment guarantee; validate through an aligned copy.
    let aligned = AlignedBuffer::from_slice(owned.data()).unwrap();
    let desc = ImageDesc::from_geometry(geom, aligned.as_slice()).unwrap();
    assert_eq!(desc.dimensions(), dims);
    assert_eq!(desc.stride, geom.stride);

    let owned_mut = owned.clone();
    let mut aligned_mut = AlignedBuffer::from_slice(owned_mut.data()).unwrap();
    let desc_mut = ImageDescMut::from_geometry(geom, aligned_mut.as_mut_slice()).unwrap();
    assert_eq!(desc_mut.dimensions(), dims);
}

#[test]
fn test_vulkan_pipeline_trait_and_dma_allocator() {
    {
        let heap_alloc = scalix::dma::LinuxDmaHeapAllocator;
        assert_eq!(heap_alloc.name(), "linux_dma_heap");

        let drm_alloc = scalix::dma::LinuxDrmAllocator;
        assert_eq!(drm_alloc.name(), "linux_drm");
    }

    struct MockPipeline;
    impl VulkanPipeline for MockPipeline {
        fn name(&self) -> &'static str {
            "MockPipeline"
        }
        fn strategy(&self) -> VulkanStrategy {
            VulkanStrategy::Blit
        }
        fn process(
            &self,
            _src: &ImageDesc,
            _dst: &mut ImageDescMut,
            _options: &ResizeOptions,
        ) -> scalix::Result<()> {
            Ok(())
        }
    }

    let pipeline: Box<dyn VulkanPipeline> = Box::new(MockPipeline);
    assert_eq!(pipeline.name(), "MockPipeline");
    assert_eq!(pipeline.strategy(), VulkanStrategy::Blit);
}

#[test]
fn test_cpu_rgb888_unpack_and_repack_4byte_masked() {
    for num_pixels in [1, 2, 3, 4, 5, 7, 8, 15, 16, 33, 1024] {
        let mut original_rgb = AlignedBuffer::new(num_pixels * 3).unwrap();
        {
            let rgb_slice = original_rgb.as_mut_slice();
            for p in 0..num_pixels {
                rgb_slice[p * 3] = (p * 7 % 256) as u8;
                rgb_slice[p * 3 + 1] = (p * 13 % 256) as u8;
                rgb_slice[p * 3 + 2] = (p * 29 % 256) as u8;
            }
        }

        let mut rgba = AlignedBuffer::new(num_pixels * 4).unwrap();
        cpu_unpack_rgb888(original_rgb.as_slice(), rgba.as_mut_slice(), num_pixels);

        let rgba_slice = rgba.as_slice();
        let rgb_slice = original_rgb.as_slice();
        for p in 0..num_pixels {
            assert_eq!(rgba_slice[p * 4], rgb_slice[p * 3], "R mismatch at pixel {p}");
            assert_eq!(rgba_slice[p * 4 + 1], rgb_slice[p * 3 + 1], "G mismatch at pixel {p}");
            assert_eq!(rgba_slice[p * 4 + 2], rgb_slice[p * 3 + 2], "B mismatch at pixel {p}");
            assert_eq!(rgba_slice[p * 4 + 3], 255, "Alpha mismatch at pixel {p}");
        }

        let mut repacked_rgb = AlignedBuffer::new(num_pixels * 3).unwrap();
        cpu_repack_rgb888(rgba.as_slice(), repacked_rgb.as_mut_slice(), num_pixels);

        assert_eq!(
            repacked_rgb.as_slice(),
            original_rgb.as_slice(),
            "Roundtrip mismatch for {num_pixels} pixels"
        );
    }
}

#[test]
fn test_engine_config_and_worker_pool() {
    let config = EngineConfig::new(Some(4))
        .with_thread_prefix("cfg_eng")
        .with_hw_threads(1)
        .with_callback_workers(2)
        .with_queue_capacity(512);
    assert_eq!(config.hw_pool_threads(), 1);
    assert_eq!(config.callback_pool_threads(), 2);
    assert_eq!(config.worker_queue_capacity, 512);

    let backend = PassthroughBackend::new();
    assert!(backend.name().contains("Passthrough"));
    assert_eq!(backend.backend_type(), BackendType::Passthrough);

    let dims = ImageDimensions::new(16, 16);
    let geom = ImageGeometry::new(dims, PixelFormat::Rgba8888).unwrap();
    let mut src = OwnedImage::allocate_geometry(geom).unwrap();
    src.data_mut().fill(0x7F);
    let mut dst = OwnedImage::allocate_geometry(geom).unwrap();

    // The resize a hardware worker runs for `resize_async`, reported through a task handle.
    let (tx, rx) = crossbeam_channel::bounded(1);
    let done = Arc::new(AtomicBool::new(false));
    let res = backend
        .process(&src.as_desc(), &mut dst.as_desc_mut(), &ResizeOptions::from(FilterMode::Passthrough))
        .map(|_| dst);
    tx.send(res).unwrap();
    done.store(true, Ordering::Release);
    let task = TaskHandle::new(rx, done);
    let completed = task.wait(Some(Duration::from_secs(2))).unwrap();
    assert_eq!(completed.data()[0], 0x7F);

    // Worker threads of a two-thread pool named "tst-p".
    let p = sanitize_thread_prefix(config.thread_prefix.as_deref(), 1);
    assert_eq!(p, "cfg_eng");
    assert_eq!(worker_thread_name("tst-p", 2, 0), "tst-p0");
    assert_eq!(worker_thread_name("tst-p", 2, 1), "tst-p1");
}
