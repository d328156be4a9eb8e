use scalix::aligned::{align_offset, AlignedBuffer};
use scalix::backend::blit::{plan_blit, stage_ticks, BlitPlan};
use scalix::backend::compute::{
    check_opencl_request, check_vulkan_compute_request, compute_workgroups, grid_groups_16,
    repack_groups, saturating_mul_u32, saturating_mul_usize, select_compute_kernel,
};
use scalix::backend::device::{pick_opencl_platform, pick_physical_device, pick_queue_family};
use scalix::backend::formats::{get_gl_format_tuple, to_gl_filter, to_vk_filter, to_vk_format_info};
use scalix::backend::host_convert::{cpu_repack_rgb888, cpu_unpack_rgb888};
use scalix::backend::lod::plan_lod_passes;
use scalix::backend::memory::find_memory_type;
use scalix::backend::programs::{
    gl_compute_shader_header, gl_shader_header, gl_version_is_gles, next_gl_context_attempt,
    opencl_kernel_name, raster_program_for, uses_gles_api, GlContextAttempt, RasterProgram,
};
use scalix::backend::shader::parse_spirv_module;
use scalix::backend::staging::{padded_staging_size, staging_plan, RingCursor, SlotSync};
use scalix::backend::strategy::{select_gl_route, select_opencl_route, select_vulkan_route, PipelineRoute};
use scalix::desc::check_image_buffer;
use scalix::{
    Backend, BackendOptions, BackendType, FilterMode, GlStrategy, ImageDesc, ImageDescMut, ImageDimensions, ImageGeometry,
    OwnedImage, PassthroughBackend, PixelFormat, ResizeOptions, ScalixError, VulkanOptions,
    VulkanStrategy,
};

fn aligned_with(bytes: &[u8]) -> AlignedBuffer {
    AlignedBuffer::from_slice(bytes).unwrap()
}

#[test]
fn dimensions_area_and_parity() {
    let d = ImageDimensions::new(64, 48);
    assert!(!d.is_empty());
    assert_eq!(d.checked_area(), Some(3072));
    assert!(d.validate_even().is_ok());
    assert!(ImageDimensions::new(0, 5).is_empty());
    assert_eq!(
        ImageDimensions::new(63, 48).validate_even(),
        Err(ScalixError::InvalidDimensions { width: 63, height: 48 })
    );
    assert_eq!(ImageDimensions::default(), ImageDimensions::new(0, 0));
}

#[test]
fn pixel_format_sizes() {
    assert_eq!(PixelFormat::Rgba8888.bytes_per_pixel(), Some(4));
    assert_eq!(PixelFormat::Rgb888.bytes_per_pixel(), Some(3));
    assert_eq!(PixelFormat::Rgba32f.bytes_per_pixel(), Some(16));
    assert_eq!(PixelFormat::Nv12.bytes_per_pixel(), None);
    assert_eq!(PixelFormat::Rgb888.min_stride(10), Ok(30));
    assert_eq!(
        PixelFormat::Rgb888.min_stride(0),
        Err(ScalixError::InvalidDimensions { width: 0, height: 0 })
    );
    // Packed: every row but the last takes a full stride.
    assert_eq!(PixelFormat::Rgba8888.min_buffer_size(10, 3, 64), Ok(64 * 2 + 40));
    // Planar 4:2:0: luma plane plus half as many chroma bytes.
    assert_eq!(PixelFormat::Nv12.min_buffer_size(64, 48, 64), Ok(64 * 48 * 3 / 2));
    assert_eq!(
        PixelFormat::Yuv420p.min_buffer_size(63, 48, 64),
        Err(ScalixError::InvalidDimensions { width: 63, height: 48 })
    );
    assert_eq!(
        PixelFormat::Rgba8888.min_buffer_size(100, 100, 100),
        Err(ScalixError::InvalidStride { stride: 100, min_stride: 400 })
    );
    assert_eq!(
        PixelFormat::Rgba8888.min_buffer_size_dims(ImageDimensions::new(2, 2), 8),
        Ok(16)
    );
}

#[test]
fn geometry_uses_tightest_stride() {
    let g = ImageGeometry::new(ImageDimensions::new(7, 3), PixelFormat::Rgb888).unwrap();
    assert_eq!(g.stride, 21);
    assert_eq!(g.min_buffer_size(), Ok(63));
    assert!(ImageGeometry::new(ImageDimensions::new(0, 3), PixelFormat::Rgb888).is_err());
}

#[test]
fn aligned_buffer_allocation() {
    let b = AlignedBuffer::new(0).unwrap();
    assert_eq!(b.len(), 1);
    assert!(!b.is_empty());
    assert_eq!(b.as_slice(), &[0u8][..]);
    assert_eq!(b.as_slice().as_ptr() as usize % 64, 0);

    let big = AlignedBuffer::with_alignment(100, 4096).unwrap();
    assert_eq!(big.len(), 100);
    assert_eq!(big.as_slice().as_ptr() as usize % 4096, 0);
    assert!(big.as_slice().iter().all(|&x| x == 0));

    match AlignedBuffer::with_alignment(10, 3) {
        Err(ScalixError::ExecutionFailed(m)) => {
            assert_eq!(m, "Invalid layout: invalid parameters to Layout::from_size_align")
        }
        other => panic!("unexpected {other:?}"),
    }
    assert!(matches!(AlignedBuffer::new(usize::MAX), Err(ScalixError::ExecutionFailed(_))));

    let mut c = aligned_with(&[1, 2, 3]);
    c.as_mut_slice()[1] = 9;
    let d = c.clone();
    assert_eq!(d.as_slice(), &[1, 9, 3][..]);
    assert_eq!(d.as_slice().as_ptr() as usize % 64, 0);
    assert_eq!(d, c);
    assert_ne!(d, aligned_with(&[1, 9, 4]));
    assert_ne!(d, aligned_with(&[1, 9]));
    assert_eq!(&d[..], &[1, 9, 3][..]);
    assert_eq!(d.iter().map(|&x| x as u32).sum::<u32>(), 13);
}

#[test]
fn alignment_offsets_reach_the_next_boundary() {
    assert_eq!(align_offset(0, 64), 0);
    assert_eq!(align_offset(128, 64), 0);
    assert_eq!(align_offset(65, 64), 63);
    assert_eq!(align_offset(100, 64), 28);
    assert_eq!(align_offset(7, 1), 0);
    assert_eq!(align_offset(4097, 4096), 4095);
}

#[test]
fn aligned_buffer_start_address_is_on_a_boundary() {
    let b = AlignedBuffer::new(10).unwrap();
    assert_eq!(b.start_address(), b.as_slice().as_ptr() as usize);
    assert_eq!(b.start_address() % 64, 0);
    let mut big = AlignedBuffer::with_alignment(3, 4096).unwrap();
    let before = big.start_address();
    big.as_mut_slice()[0] = 5;
    assert_eq!(big.start_address(), before);
    assert_eq!(big.start_address(), big.as_slice().as_ptr() as usize);
    assert_eq!(before % 4096, 0);
    let c = AlignedBuffer::from_slice(&[1, 2, 3]).unwrap().clone();
    assert_eq!(c.start_address(), c.as_slice().as_ptr() as usize);
    assert_eq!(c.start_address() % 64, 0);
}

#[test]
fn read_only_and_writable_descriptors_agree() {
    let a = AlignedBuffer::new(63).unwrap();
    let mut m = a.clone();
    let shared = ImageDesc::new(4, 4, 16, PixelFormat::Rgba8888, a.as_slice()).unwrap_err();
    let writable = ImageDescMut::new(4, 4, 16, PixelFormat::Rgba8888, m.as_mut_slice()).unwrap_err();
    assert_eq!(shared, writable);
    assert_eq!(shared, ScalixError::BufferTooSmall { required: 64, actual: 63 });
    let b = AlignedBuffer::new(64).unwrap();
    let mut n = b.clone();
    assert!(ImageDesc::new(4, 4, 16, PixelFormat::Rgba8888, b.as_slice()).is_ok());
    assert!(ImageDescMut::new(4, 4, 16, PixelFormat::Rgba8888, n.as_mut_slice()).is_ok());
}

#[test]
fn image_buffer_checks() {
    assert_eq!(
        check_image_buffer(4, 4, 16, PixelFormat::Rgba8888, 65, 64),
        Err(ScalixError::UnalignedPointer { address: 65, alignment: 64 })
    );
    assert_eq!(
        check_image_buffer(4, 4, 16, PixelFormat::Rgba8888, 128, 63),
        Err(ScalixError::BufferTooSmall { required: 64, actual: 63 })
    );
    assert_eq!(check_image_buffer(4, 4, 16, PixelFormat::Rgba8888, 128, 64), Ok(()));
    assert_eq!(
        check_image_buffer(4, 4, 15, PixelFormat::Rgba8888, 128, 64),
        Err(ScalixError::InvalidStride { stride: 15, min_stride: 16 })
    );
}

#[test]
fn descriptors_keep_layout_and_dma_fd() {
    let buf = AlignedBuffer::new(64).unwrap();
    let desc = ImageDesc::new(4, 4, 16, PixelFormat::Rgba8888, buf.as_slice()).unwrap();
    assert_eq!(desc.dma_buf_fd, None);
    let desc = desc.with_dma_buf(7);
    assert_eq!(desc.dma_buf_fd, Some(7));
    assert_eq!(desc.dimensions(), ImageDimensions::new(4, 4));
    let geom = ImageGeometry::new(ImageDimensions::new(4, 4), PixelFormat::Rgba8888).unwrap();
    assert!(ImageDesc::from_geometry(geom, buf.as_slice()).is_ok());
}

#[test]
fn resize_options_builders_read_back() {
    let o = ResizeOptions::new(FilterMode::Bicubic).with_vulkan_strategy(VulkanStrategy::Compute);
    assert_eq!(o.vulkan_options().strategy, VulkanStrategy::Compute);
    assert_eq!(o.vulkan_options().max_mip_levels, 0);
    let o = o.with_max_mip_levels(3);
    assert_eq!(o.vulkan_options().max_mip_levels, 3);
    assert_eq!(o.vulkan_options().strategy, VulkanStrategy::Compute);

    let g = ResizeOptions::default().with_gl_strategy(GlStrategy::Raster).with_max_mip_levels(2);
    assert_eq!(g.gl_options().strategy, GlStrategy::Raster);
    assert_eq!(g.gl_options().max_mip_levels, 2);
    assert_eq!(g.vulkan_options().strategy, VulkanStrategy::Auto);

    // A mip cap on options without backend options lands in Vulkan options.
    let m = ResizeOptions::from(FilterMode::Area).with_max_mip_levels(4);
    assert_eq!(
        m.backend_options,
        BackendOptions::Vulkan(VulkanOptions { strategy: VulkanStrategy::Auto, max_mip_levels: 4 })
    );
    assert_eq!(ResizeOptions::default().filter, FilterMode::Bilinear);
}

#[test]
fn pipeline_route_selection() {
    let auto = ResizeOptions::new(FilterMode::Bilinear);
    assert_eq!(
        select_vulkan_route(PixelFormat::Rgb888, PixelFormat::Rgb888, &auto),
        PipelineRoute::Compute
    );
    assert_eq!(
        select_vulkan_route(PixelFormat::Rgba8888, PixelFormat::Rgba8888, &auto),
        PipelineRoute::Blit
    );
    let cubic = ResizeOptions::new(FilterMode::Bicubic);
    assert_eq!(
        select_vulkan_route(PixelFormat::Rgba8888, PixelFormat::Rgba8888, &cubic),
        PipelineRoute::Compute
    );
    let forced = cubic.with_vulkan_strategy(VulkanStrategy::LodPyramid);
    assert_eq!(
        select_vulkan_route(PixelFormat::Rgba8888, PixelFormat::Rgba8888, &forced),
        PipelineRoute::LodPyramid
    );
    let pass = ResizeOptions::new(FilterMode::Passthrough).with_vulkan_strategy(VulkanStrategy::Blit);
    assert_eq!(
        select_vulkan_route(PixelFormat::Rgba8888, PixelFormat::Rgba8888, &pass),
        PipelineRoute::Passthrough
    );
    assert_eq!(select_gl_route(&cubic), PipelineRoute::Raster);
    assert_eq!(select_gl_route(&auto), PipelineRoute::Blit);
    assert_eq!(select_gl_route(&auto.with_gl_strategy(GlStrategy::Compute)), PipelineRoute::Compute);
    assert_eq!(select_opencl_route(&auto), PipelineRoute::Compute);
    assert_eq!(select_opencl_route(&pass), PipelineRoute::Passthrough);
}

#[test]
fn passthrough_copies_overlap_with_different_strides() {
    let mut src_bytes = vec![0u8; 2 * 16 + 12];
    for (i, b) in src_bytes.iter_mut().enumerate() {
        *b = i as u8;
    }
    let src_buf = aligned_with(&src_bytes);
    let src = ImageDesc::new(3, 3, 16, PixelFormat::Rgba8888, src_buf.as_slice()).unwrap();
    let mut dst_buf = AlignedBuffer::new(2 * 8 + 8).unwrap();
    let mut dst = ImageDescMut::new(2, 3, 8, PixelFormat::Rgba8888, dst_buf.as_mut_slice()).unwrap();
    assert!(PassthroughBackend::layout_fits(&src, &dst));
    PassthroughBackend::new()
        .process(&src, &mut dst, &ResizeOptions::default())
        .unwrap();
    let out = dst_buf.as_slice();
    assert_eq!(&out[0..8], &src_bytes[0..8]);
    assert_eq!(&out[8..16], &src_bytes[16..24]);
    assert_eq!(&out[16..24], &src_bytes[32..40]);
}

#[test]
fn passthrough_rejects_format_changes_and_planar() {
    let a = AlignedBuffer::new(64).unwrap();
    let src = ImageDesc::new(4, 4, 16, PixelFormat::Rgba8888, a.as_slice()).unwrap();
    let mut b = AlignedBuffer::new(64).unwrap();
    let mut dst = ImageDescMut::new(4, 4, 16, PixelFormat::Bgra8888, b.as_mut_slice()).unwrap();
    let backend = PassthroughBackend::new();
    match backend.process(&src, &mut dst, &ResizeOptions::default()) {
        Err(ScalixError::ExecutionFailed(m)) => assert_eq!(
            m,
            "Format conversion not supported in passthrough mode (src: Rgba8888, dst: Bgra8888)"
        ),
        other => panic!("unexpected {other:?}"),
    }
    let p = AlignedBuffer::new(24).unwrap();
    let psrc = ImageDesc::new(4, 4, 4, PixelFormat::Nv12, p.as_slice()).unwrap();
    let mut q = AlignedBuffer::new(24).unwrap();
    let mut pdst = ImageDescMut::new(4, 4, 4, PixelFormat::Nv12, q.as_mut_slice()).unwrap();
    assert_eq!(
        backend.process(&psrc, &mut pdst, &ResizeOptions::default()),
        Err(ScalixError::UnsupportedFormat(PixelFormat::Nv12))
    );
    assert!(backend.is_available());
    assert_eq!(backend.name(), "Passthrough / Memory Transfer Backend");
}

#[test]
fn rgb_unpack_repack_exact_bytes() {
    let rgb = [1u8, 2, 3, 4, 5, 6];
    let mut rgba = [0u8; 9];
    rgba[8] = 77;
    cpu_unpack_rgb888(&rgb, &mut rgba, 2);
    assert_eq!(rgba, [1, 2, 3, 255, 4, 5, 6, 255, 77]);
    let mut back = [9u8; 7];
    cpu_repack_rgb888(&rgba, &mut back, 2);
    assert_eq!(&back[..6], &rgb[..]);
}

#[test]
fn staging_buffer_hysteresis() {
    assert_eq!(staging_plan(None, 10), Some(65536));
    assert_eq!(staging_plan(Some(65536), 100_000), Some(100_000));
    assert_eq!(staging_plan(Some(200_000), 100_001), None);
    assert_eq!(staging_plan(Some(200_000), 99_999), Some(99_999));
    // A 64 KiB buffer serves every small request without reallocating.
    assert_eq!(staging_plan(Some(65536), 10), None);
    assert_eq!(staging_plan(Some(65536), 1), None);
    assert_eq!(staging_plan(Some(65536), 40_000), None);
    assert_eq!(staging_plan(Some(131_074), 10), Some(65536));
    assert_eq!(staging_plan(Some(131_073), 10), None);
    assert_eq!(staging_plan(Some(131_072), 10), None);
    // Serving the same request twice allocates once.
    let first = staging_plan(None, 1).unwrap();
    assert_eq!(staging_plan(Some(first), 1), None);
    assert_eq!(padded_staging_size(100), 116);
    assert_eq!(padded_staging_size(u64::MAX - 3), u64::MAX);
}

#[test]
fn ring_cursor_round_robin() {
    let mut ring = RingCursor::new(3);
    assert_eq!(ring.slots(), 3);
    let seen: Vec<usize> = (0..7).map(|_| ring.acquire()).collect();
    assert_eq!(seen, vec![0, 1, 2, 0, 1, 2, 0]);
    let mut single = RingCursor::new(0);
    assert_eq!(single.slots(), 1);
    assert_eq!(single.acquire(), 0);
    assert_eq!(single.acquire(), 0);
}

#[test]
fn lod_pass_plans() {
    assert_eq!(plan_lod_passes(128, 128, 16, 16, 0), vec![(64, 64), (32, 32), (16, 16)]);
    assert_eq!(plan_lod_passes(128, 128, 16, 16, 1), vec![(64, 64), (16, 16)]);
    assert_eq!(plan_lod_passes(30, 30, 16, 16, 0), vec![(16, 16)]);
    assert_eq!(plan_lod_passes(100, 40, 30, 30, 0), vec![(50, 30), (30, 30)]);
}

#[test]
fn compute_request_checks() {
    let a = AlignedBuffer::new(64 * 4).unwrap();
    let src = ImageDesc::new(8, 8, 24, PixelFormat::Rgb888, a.as_slice()).unwrap();
    let mut b = AlignedBuffer::new(64 * 4).unwrap();
    let mut dst = ImageDescMut::new(4, 4, 12, PixelFormat::Rgb888, b.as_mut_slice()).unwrap();
    assert_eq!(check_vulkan_compute_request(&src, &dst), Ok(()));
    assert_eq!(check_opencl_request(&src, &dst), Ok(3));
    dst.format = PixelFormat::Bgr888;
    match check_vulkan_compute_request(&src, &dst) {
        Err(ScalixError::ExecutionFailed(m)) => assert_eq!(
            m,
            "Compute direct resizer expects identical src and dst formats: Rgb888 -> Bgr888"
        ),
        other => panic!("unexpected {other:?}"),
    }
    let c = AlignedBuffer::new(64 * 4).unwrap();
    let rgba = ImageDesc::new(8, 8, 32, PixelFormat::Rgba8888, c.as_slice()).unwrap();
    let mut d = AlignedBuffer::new(64 * 4).unwrap();
    let rgba_dst = ImageDescMut::new(4, 4, 16, PixelFormat::Rgba8888, d.as_mut_slice()).unwrap();
    assert_eq!(check_vulkan_compute_request(&rgba, &rgba_dst), Ok(()));
    assert_eq!(check_opencl_request(&rgba, &rgba_dst), Ok(4));
    // 32-bit RGBA needs four bytes per pixel of pitch.
    let narrow = ImageDesc { stride: 24, ..rgba.clone() };
    assert_eq!(
        check_vulkan_compute_request(&narrow, &rgba_dst),
        Err(ScalixError::InvalidStride { stride: 24, min_stride: 32 })
    );
    let e = AlignedBuffer::new(64).unwrap();
    let r8 = ImageDesc::new(8, 8, 8, PixelFormat::R8, e.as_slice()).unwrap();
    let mut f = AlignedBuffer::new(16).unwrap();
    let r8_dst = ImageDescMut::new(4, 4, 4, PixelFormat::R8, f.as_mut_slice()).unwrap();
    assert_eq!(
        check_vulkan_compute_request(&r8, &r8_dst),
        Err(ScalixError::UnsupportedFormat(PixelFormat::R8))
    );
}

#[test]
fn compute_kernel_and_workgroups() {
    let registered = [FilterMode::Nearest, FilterMode::Bilinear];
    assert_eq!(select_compute_kernel(FilterMode::Nearest, &registered), Some(FilterMode::Nearest));
    assert_eq!(select_compute_kernel(FilterMode::Lanczos3, &registered), Some(FilterMode::Bilinear));
    assert_eq!(select_compute_kernel(FilterMode::Passthrough, &registered), None);
    assert_eq!(select_compute_kernel(FilterMode::Area, &[FilterMode::Nearest]), None);
    assert_eq!(compute_workgroups(64, 32, 64, 4), Ok(8));
    assert_eq!(compute_workgroups(65, 1, 64, 1), Ok(2));
    assert_eq!(compute_workgroups(0, 0, 64, 1), Ok(1));
    match compute_workgroups(64, 32, 0, 4) {
        Err(ScalixError::ExecutionFailed(m)) => {
            assert_eq!(m, "Compute kernel workgroup layout must be non-zero")
        }
        other => panic!("unexpected {other:?}"),
    }
    assert_eq!(saturating_mul_u32(70_000, 70_000), u32::MAX);
    assert_eq!(saturating_mul_usize(3, 7), 21);
}

#[test]
fn api_format_tables() {
    assert_eq!(get_gl_format_tuple(PixelFormat::Bgra8888), Ok((0x8058, 0x80E1, 0x1401)));
    assert_eq!(
        get_gl_format_tuple(PixelFormat::R8),
        Err(ScalixError::UnsupportedFormat(PixelFormat::R8))
    );
    assert_eq!(to_vk_format_info(PixelFormat::Rgb888), Ok((37, true)));
    assert_eq!(to_vk_format_info(PixelFormat::Rgba16f), Ok((97, false)));
    assert_eq!(
        to_vk_format_info(PixelFormat::Nv12),
        Err(ScalixError::UnsupportedFormat(PixelFormat::Nv12))
    );
    assert_eq!(to_vk_filter(FilterMode::Nearest), 0);
    assert_eq!(to_vk_filter(FilterMode::Bicubic), 1);
    assert_eq!(to_gl_filter(FilterMode::Nearest), 0x2600);
    assert_eq!(to_gl_filter(FilterMode::Area), 0x2601);
}

#[test]
fn spirv_modules_decode_in_either_byte_order() {
    let le = [0x03u8, 0x02, 0x23, 0x07, 0x01, 0x00, 0x00, 0x00];
    assert_eq!(parse_spirv_module(&le), Ok(vec![0x0723_0203, 1]));
    let be = [0x07u8, 0x23, 0x02, 0x03, 0x00, 0x00, 0x00, 0x02];
    assert_eq!(parse_spirv_module(&be), Ok(vec![0x0723_0203, 2]));
    for bad in [&[0x03u8, 0x02, 0x23][..], &[][..], &[1u8, 2, 3, 4][..]] {
        match parse_spirv_module(bad) {
            Err(ScalixError::ExecutionFailed(m)) => {
                assert!(m.starts_with("Failed to parse SPIR-V byte stream: "))
            }
            other => panic!("unexpected {other:?}"),
        }
    }
}

#[test]
fn memory_type_choice() {
    let flags = [0x1u32, 0x6, 0x7, 0x6];
    assert_eq!(find_memory_type(0b1111, 0x6, &flags), Ok(1));
    assert_eq!(find_memory_type(0b1101, 0x6, &flags), Ok(2));
    assert_eq!(find_memory_type(0b1111, 0x0, &flags), Ok(0));
    match find_memory_type(0b0001, 0x6, &flags) {
        Err(ScalixError::ExecutionFailed(m)) => assert_eq!(m, "Failed to find suitable memory type"),
        other => panic!("unexpected {other:?}"),
    }
}

#[test]
fn gpu_program_choice() {
    assert_eq!(gl_shader_header(true), "#version 300 es\nprecision highp float;\n");
    assert_eq!(gl_shader_header(false), "#version 330 core\n");
    assert_eq!(gl_compute_shader_header(true), "#version 310 es\nprecision highp float;\n");
    assert_eq!(gl_compute_shader_header(false), "#version 430 core\n");
    assert_eq!(raster_program_for(FilterMode::Lanczos3), RasterProgram::Bicubic);
    assert_eq!(raster_program_for(FilterMode::Area), RasterProgram::Area);
    assert_eq!(raster_program_for(FilterMode::Nearest), RasterProgram::Bilinear);
    assert_eq!(opencl_kernel_name(FilterMode::Passthrough), "resize_nearest");
    assert_eq!(opencl_kernel_name(FilterMode::Lanczos3), "resize_lanczos3");
}

#[test]
fn owned_image_constructors() {
    let img = OwnedImage::allocate(3, 2, PixelFormat::Rgb888).unwrap();
    assert_eq!(img.stride(), 9);
    assert_eq!(img.data().len(), 18);
    assert_eq!(
        OwnedImage::from_vec(3, 2, 9, PixelFormat::Rgb888, vec![0; 17]).unwrap_err(),
        ScalixError::BufferTooSmall { required: 18, actual: 17 }
    );
    let copy = OwnedImage::from_slice(1, 1, 4, PixelFormat::Rgba8888, &[1, 2, 3, 4]).unwrap();
    assert_eq!(copy.data(), &[1, 2, 3, 4][..]);
    assert_eq!(copy.geometry().stride, 4);
    assert_eq!(copy.dimensions(), ImageDimensions::new(1, 1));
    assert_eq!(copy.format(), PixelFormat::Rgba8888);
}

#[test]
fn blit_plans() {
    let plan = plan_blit(PixelFormat::Rgb888, PixelFormat::Rgb888, 10, 10, 300, 5, 5, 75, false).unwrap();
    assert_eq!(
        plan,
        BlitPlan {
            vk_format: 37,
            expands_rgb: true,
            gpu_convert: false,
            src_staging_bytes: 400,
            dst_staging_bytes: 100,
        }
    );
    let gpu = plan_blit(PixelFormat::Bgr888, PixelFormat::Bgr888, 10, 10, 300, 5, 5, 75, true).unwrap();
    assert_eq!((gpu.vk_format, gpu.gpu_convert), (44, true));
    assert_eq!((gpu.src_staging_bytes, gpu.dst_staging_bytes), (316, 91));
    let plain = plan_blit(PixelFormat::R8, PixelFormat::R8, 8, 8, 64, 4, 4, 16, true).unwrap();
    assert_eq!((plain.expands_rgb, plain.gpu_convert, plain.src_staging_bytes), (false, false, 64));
    match plan_blit(PixelFormat::Rgba8888, PixelFormat::Rgb888, 1, 1, 4, 1, 1, 3, false) {
        Err(ScalixError::ExecutionFailed(m)) => {
            assert_eq!(m, "Blit format conversion not supported directly: Rgba8888 -> Rgb888")
        }
        other => panic!("unexpected {other:?}"),
    }
    assert_eq!(
        plan_blit(PixelFormat::Nv12, PixelFormat::Rgb888, 2, 2, 6, 1, 1, 3, false),
        Err(ScalixError::UnsupportedFormat(PixelFormat::Nv12))
    );
    assert_eq!(
        plan_blit(PixelFormat::R8, PixelFormat::Yuv420p, 2, 2, 4, 2, 2, 6, false),
        Err(ScalixError::UnsupportedFormat(PixelFormat::Yuv420p))
    );
    assert_eq!(stage_ticks(10, 25, 20, 40), (15, 0, 20));
}

#[test]
fn dispatch_sizes() {
    assert_eq!(grid_groups_16(33, 16), (3, 1));
    assert_eq!(grid_groups_16(0, 1), (0, 1));
    assert_eq!(repack_groups(16, 16), 1);
    assert_eq!(repack_groups(17, 16), 2);
    assert_eq!(repack_groups(1, 1), 1);
    assert_eq!(repack_groups(0, 5), 0);
}

#[test]
fn vulkan_device_and_queue_choice() {
    // Integrated, discrete, virtual, discrete: the last discrete GPU wins.
    assert_eq!(pick_physical_device(&[1, 2, 3, 2]), Some(3));
    assert_eq!(pick_physical_device(&[4, 0]), Some(1));
    assert_eq!(pick_physical_device(&[3, 1]), Some(1));
    assert_eq!(pick_physical_device(&[]), None);
    assert_eq!(pick_queue_family(&[0x4, 0x2, 0x1]), Ok(1));
    match pick_queue_family(&[0x4, 0x8]) {
        Err(ScalixError::ExecutionFailed(m)) => assert_eq!(m, "No suitable Vulkan queue family found"),
        other => panic!("unexpected {other:?}"),
    }
}

#[test]
fn gles_version_detection() {
    assert!(gl_version_is_gles("OpenGL ES 3.2 Mesa 24.0"));
    assert!(!gl_version_is_gles("4.6 (Core Profile) Mesa 24.0"));
    assert!(gl_version_is_gles("ES"));
    assert!(!gl_version_is_gles("E"));
    assert!(!gl_version_is_gles(""));
}

#[test]
fn mutable_descriptor_from_geometry() {
    let geom = ImageGeometry::new(ImageDimensions::new(4, 4), PixelFormat::Rgba8888).unwrap();
    let mut buf = AlignedBuffer::new(64).unwrap();
    let desc = ImageDescMut::from_geometry(geom, buf.as_mut_slice()).unwrap().with_dma_buf(9);
    assert_eq!(desc.dma_buf_fd, Some(9));
    desc.data[0] = 5;
    assert_eq!(buf.as_slice()[0], 5);
    let mut small = AlignedBuffer::new(10).unwrap();
    assert_eq!(
        ImageDescMut::from_geometry(geom, small.as_mut_slice()).unwrap_err(),
        ScalixError::BufferTooSmall { required: 64, actual: 10 }
    );
}

#[test]
fn passthrough_through_backend_trait() {
    fn run(b: &dyn Backend, src: &ImageDesc, dst: &mut ImageDescMut) -> scalix::Result<()> {
        assert!(src.is_consistent() && dst.is_consistent());
        b.process(src, dst, &ResizeOptions::new(FilterMode::Nearest))
    }
    let backend = PassthroughBackend::new();
    let b: &dyn Backend = &backend;
    assert_eq!(b.name(), "Passthrough / Memory Transfer Backend");
    assert_eq!(b.backend_type(), BackendType::Passthrough);
    assert!(b.is_available());
    let src_buf = aligned_with(&[7u8; 32]);
    let src = ImageDesc::new(2, 4, 4, PixelFormat::Rg88, src_buf.as_slice()).unwrap();
    let mut dst_buf = AlignedBuffer::new(16).unwrap();
    let mut dst = ImageDescMut::new(2, 4, 4, PixelFormat::Rg88, dst_buf.as_mut_slice()).unwrap();
    run(b, &src, &mut dst).unwrap();
    assert_eq!(dst_buf.as_slice(), &[7u8; 16][..]);
    let short = ImageDesc { data: &src_buf.as_slice()[..3], ..src.clone() };
    assert!(!short.is_consistent());
}

#[test]
fn opencl_platform_choice() {
    assert_eq!(pick_opencl_platform(&[0, 2, 1], &[1, 2, 1]), Some((1, true)));
    assert_eq!(pick_opencl_platform(&[0, 0], &[0, 3]), Some((1, false)));
    assert_eq!(pick_opencl_platform(&[0], &[0]), None);
    assert_eq!(pick_opencl_platform(&[], &[]), None);
}

#[test]
fn gl_context_attempt_order() {
    let mut seen = Vec::new();
    let mut next = next_gl_context_attempt(None);
    while let Some(a) = next {
        seen.push(a);
        next = next_gl_context_attempt(Some(a));
    }
    assert_eq!(
        seen,
        vec![
            GlContextAttempt::DesktopGl43,
            GlContextAttempt::DesktopGl33,
            GlContextAttempt::Gles31,
            GlContextAttempt::Gles30,
            GlContextAttempt::GlesDefault,
        ]
    );
    assert!(!uses_gles_api(GlContextAttempt::DesktopGl33));
    assert!(uses_gles_api(GlContextAttempt::Gles30));
}

#[test]
fn staging_slot_waits_only_when_in_flight() {
    let mut slot = SlotSync::new();
    assert!(!slot.is_in_flight());
    assert!(!slot.begin_reuse());
    slot.mark_submitted();
    assert!(slot.is_in_flight());
    assert!(slot.begin_reuse());
    assert!(!slot.begin_reuse());
}

#[test]
fn aligned_buffer_from_empty_slice_is_refused() {
    match AlignedBuffer::from_slice(&[]) {
        Err(ScalixError::ExecutionFailed(m)) => {
            assert_eq!(m, "Cannot create an aligned buffer from an empty slice")
        }
        other => panic!("unexpected {other:?}"),
    }
    assert!(!AlignedBuffer::new(0).unwrap().is_empty());
}
