use glacian::{
    apply_copy, blit_region, choose_surface_format, draw_image_pool_ratios, graphics_queue_family,
    pack_staging, pool_sizes, select_physical_device, shader_code, sky_cube_indices, split_staging,
    swapchain_image_count, transition_aspect, Aspect, BufferCopy, DescriptorLayoutBuilder,
    DeviceInfo, DeviceKind, Extent2D, Layout, LayoutBinding, PoolRatio, PoolSize, QueueFamily,
    ShaderCodeError, StagingLayout, SwapchainData, SwapchainError, SwapchainPart, MIN_API_VERSION,
    PREFERRED_SURFACE_FORMAT, STORAGE_IMAGE,
};

#[test]
fn image_count_prefers_three_within_bounds() {
    assert_eq!(swapchain_image_count(2, 8), 3);
    assert_eq!(swapchain_image_count(4, 8), 4);
    assert_eq!(swapchain_image_count(1, 2), 2);
    assert_eq!(swapchain_image_count(2, 0), 3);
    assert_eq!(swapchain_image_count(5, 0), 5);
}

#[test]
fn surface_format_is_first_preferred() {
    assert_eq!(PREFERRED_SURFACE_FORMAT, 44);
    assert_eq!(choose_surface_format(&vec![50, 44, 44]), Some(1));
    assert_eq!(choose_surface_format(&vec![50, 37]), None);
    assert_eq!(choose_surface_format(&vec![]), None);
}

#[test]
fn swapchain_description_is_checked() {
    let e = Extent2D { width: 800, height: 600 };
    assert_eq!(SwapchainData::new(e, 3), Ok(SwapchainData { extent: e, image_count: 3 }));
    assert_eq!(SwapchainData::new(e, 0), Err(SwapchainError::NoImages));
    assert_eq!(
        SwapchainData::new(Extent2D { width: 0, height: 600 }, 3),
        Err(SwapchainError::ZeroExtent)
    );
    assert_eq!(
        SwapchainData::new(Extent2D { width: 800, height: u32::MAX }, 3),
        Err(SwapchainError::ExtentTooLarge)
    );
}

#[test]
fn swapchain_parts_destroyed_views_first_surface_last() {
    let sc = SwapchainData { extent: Extent2D { width: 1, height: 1 }, image_count: 3 };
    assert_eq!(
        sc.flush(),
        vec![
            SwapchainPart::ImageViews,
            SwapchainPart::RenderSemaphores,
            SwapchainPart::Swapchain,
            SwapchainPart::Surface,
        ]
    );
}

#[test]
fn device_selection_prefers_discrete() {
    let v13 = MIN_API_VERSION;
    let old = MIN_API_VERSION - 1;
    let devices = vec![
        DeviceInfo { kind: DeviceKind::IntegratedGpu, api_version: v13 },
        DeviceInfo { kind: DeviceKind::DiscreteGpu, api_version: old },
        DeviceInfo { kind: DeviceKind::DiscreteGpu, api_version: v13 },
    ];
    assert_eq!(select_physical_device(&devices), Some(2));
    let devices = vec![
        DeviceInfo { kind: DeviceKind::Cpu, api_version: v13 },
        DeviceInfo { kind: DeviceKind::DiscreteGpu, api_version: old },
        DeviceInfo { kind: DeviceKind::IntegratedGpu, api_version: v13 },
    ];
    assert_eq!(select_physical_device(&devices), Some(2));
    let devices = vec![DeviceInfo { kind: DeviceKind::IntegratedGpu, api_version: old }];
    assert_eq!(select_physical_device(&devices), None);
    assert_eq!(MIN_API_VERSION, 4_206_592);
}

#[test]
fn queue_family_is_last_graphics_capable() {
    let families = vec![
        QueueFamily { queue_count: 1, graphics: true },
        QueueFamily { queue_count: 0, graphics: true },
        QueueFamily { queue_count: 2, graphics: true },
        QueueFamily { queue_count: 4, graphics: false },
    ];
    assert_eq!(graphics_queue_family(&families), Some(2));
    assert_eq!(graphics_queue_family(&families[3..].to_vec()), None);
}

#[test]
fn layout_builder_adds_stages_on_build() {
    let mut b = DescriptorLayoutBuilder::new();
    b.add_binding(0, STORAGE_IMAGE);
    b.add_binding(1, 7);
    let built = b.build(0x20);
    assert_eq!(
        built,
        vec![
            LayoutBinding { binding: 0, descriptor_type: STORAGE_IMAGE, count: 1, stage_flags: 0x20 },
            LayoutBinding { binding: 1, descriptor_type: 7, count: 1, stage_flags: 0x20 },
        ]
    );
    let again = b.build(0x1);
    assert_eq!(again[0].stage_flags, 0x21);
    b.clear();
    assert!(b.bindings.is_empty());
}

#[test]
fn pool_sizes_scale_by_set_count() {
    let ratios = draw_image_pool_ratios();
    assert_eq!(ratios.len(), 10);
    let sizes = pool_sizes(10, &ratios).unwrap();
    assert_eq!(sizes.len(), 10);
    assert!(sizes.iter().all(|s| *s == PoolSize { descriptor_type: STORAGE_IMAGE, count: 10 }));
    let big = vec![PoolRatio { descriptor_type: 1, per_set: u32::MAX }];
    assert_eq!(pool_sizes(2, &big), None);
    assert_eq!(pool_sizes(1, &big), Some(vec![PoolSize { descriptor_type: 1, count: u32::MAX }]));
}

#[test]
fn sky_cube_has_36_indices_over_8_corners() {
    let idx = sky_cube_indices();
    assert_eq!(idx.len(), 36);
    assert!(idx.iter().all(|i| *i < 8));
    assert_eq!(&idx[0..6], &[0, 1, 2, 0, 2, 3]);
    assert_eq!(&idx[30..36], &[4, 5, 1, 4, 1, 0]);
}

#[test]
fn shader_code_checks_length() {
    assert_eq!(shader_code(&vec![]), Err(ShaderCodeError::Length(0)));
    assert_eq!(shader_code(&vec![1, 2, 3, 4, 5]), Err(ShaderCodeError::Length(5)));
    let bytes = vec![0x03, 0x02, 0x23, 0x07, 1, 0, 0, 0];
    let words = shader_code(&bytes).unwrap();
    assert_eq!(words.len(), 2);
    assert_eq!(words[0], u32::from_ne_bytes([0x03, 0x02, 0x23, 0x07]));
    assert_eq!(words[1], u32::from_ne_bytes([1, 0, 0, 0]));
}

#[test]
fn transition_aspect_depth_only_for_depth() {
    assert_eq!(transition_aspect(Layout::DepthAttachment), Aspect::Depth);
    assert_eq!(transition_aspect(Layout::PresentSrc), Aspect::Color);
    assert_eq!(transition_aspect(Layout::ColorAttachment), Aspect::Color);
}

#[test]
fn blit_region_spans_both_images() {
    let r = blit_region(Extent2D { width: 1920, height: 1080 }, Extent2D { width: 800, height: 600 });
    assert_eq!((r.src_x, r.src_y, r.dst_x, r.dst_y), (1920, 1080, 800, 600));
}

#[test]
fn staging_layout_and_copies() {
    assert_eq!(StagingLayout::new(u64::MAX, 1), None);
    let l = StagingLayout::new(12, 8).unwrap();
    assert_eq!(l.total_size(), 20);
    assert_eq!(l.vertex_upload(), BufferCopy { src_offset: 0, dst_offset: 0, size: 12 });
    assert_eq!(l.index_upload(), BufferCopy { src_offset: 12, dst_offset: 0, size: 8 });
    assert_eq!(l.vertex_readback(), BufferCopy { src_offset: 0, dst_offset: 0, size: 12 });
    assert_eq!(l.index_readback(), BufferCopy { src_offset: 0, dst_offset: 12, size: 8 });
}

#[test]
fn mesh_upload_round_trip_is_byte_identical() {
    let vertices: Vec<u8> = (0u8..24).map(|b| b.wrapping_mul(7)).collect();
    let indices: Vec<u32> = vec![0, 1, 2, 2, 3, 0];
    let index_bytes: Vec<u8> = indices.iter().flat_map(|i| i.to_ne_bytes()).collect();
    let l = StagingLayout::new(vertices.len() as u64, index_bytes.len() as u64).unwrap();
    let staging = pack_staging(&vertices, &index_bytes);
    assert_eq!(staging.len() as u64, l.total_size());
    let mut vertex_buffer = vec![0xAA; vertices.len()];
    let mut index_buffer = vec![0x55; index_bytes.len()];
    apply_copy(&staging, &mut vertex_buffer, l.vertex_upload());
    apply_copy(&staging, &mut index_buffer, l.index_upload());
    let mut readback = vec![0u8; staging.len()];
    apply_copy(&vertex_buffer, &mut readback, l.vertex_readback());
    apply_copy(&index_buffer, &mut readback, l.index_readback());
    let (v, i) = split_staging(&readback, l);
    assert_eq!(v, vertices);
    assert_eq!(i, index_bytes);
    assert_eq!(readback, staging);
}

#[test]
fn empty_mesh_round_trip() {
    let l = StagingLayout::new(0, 0).unwrap();
    let staging = pack_staging(&vec![], &vec![]);
    assert!(staging.is_empty());
    let (v, i) = split_staging(&staging, l);
    assert!(v.is_empty() && i.is_empty());
}
