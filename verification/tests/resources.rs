use paracosm_gpu::descriptor::DescriptorCache;
use paracosm_gpu::device::QueueProperties;
use paracosm_gpu::image::{
    aspect_from_format, is_depth_format, is_stencil_format, plan_image, ImageError, ImageInfo, SamplerInfo,
    ASPECT_COLOR, ASPECT_DEPTH, ASPECT_STENCIL, IMAGE_TYPE_1D, IMAGE_TYPE_2D, IMAGE_TYPE_3D,
    IMAGE_VIEW_TYPE_1D, IMAGE_VIEW_TYPE_1D_ARRAY, IMAGE_VIEW_TYPE_2D, IMAGE_VIEW_TYPE_2D_ARRAY, IMAGE_VIEW_TYPE_3D,
};
use paracosm_gpu::resource::{host_mapped, plan_buffer, BufferInfo, TransferMode};
use ash::vk::{Format, ImageAspectFlags, ImageCreateFlags, ImageType, ImageUsageFlags, ImageViewType};

#[test]
fn descriptor_slots_are_fresh_and_reused_last_first() {
    let mut cache = DescriptorCache::new();
    assert!(cache.can_allocate());
    assert_eq!(cache.allocate(), 0);
    assert_eq!(cache.allocate(), 1);
    assert_eq!(cache.allocate(), 2);
    cache.release(0);
    cache.release(2);
    assert_eq!(cache.allocate(), 2);
    assert_eq!(cache.allocate(), 0);
    assert_eq!(cache.allocate(), 3);
}

#[test]
fn format_aspects() {
    assert_eq!(aspect_from_format(Format::R8G8B8A8_UNORM.as_raw()), ImageAspectFlags::COLOR.as_raw());
    assert_eq!(aspect_from_format(Format::D32_SFLOAT.as_raw()), ImageAspectFlags::DEPTH.as_raw());
    assert_eq!(aspect_from_format(Format::S8_UINT.as_raw()), ImageAspectFlags::STENCIL.as_raw());
    assert_eq!(
        aspect_from_format(Format::D24_UNORM_S8_UINT.as_raw()),
        (ImageAspectFlags::DEPTH | ImageAspectFlags::STENCIL).as_raw()
    );
    assert!(is_depth_format(Format::X8_D24_UNORM_PACK32.as_raw()));
    assert!(is_depth_format(Format::D16_UNORM.as_raw()));
    assert!(!is_depth_format(Format::S8_UINT.as_raw()));
    assert!(is_stencil_format(Format::D16_UNORM_S8_UINT.as_raw()));
    assert!(is_stencil_format(Format::D32_SFLOAT_S8_UINT.as_raw()));
    assert!(!is_stencil_format(Format::D32_SFLOAT.as_raw()));
    assert_eq!(ASPECT_COLOR | ASPECT_DEPTH | ASPECT_STENCIL, 7);
}

fn image(format: Format, extent: [u32; 3], array_layers: u32) -> ImageInfo {
    ImageInfo { format: format.as_raw(), extent, mip_levels: 1, array_layers, ..Default::default() }
}

#[test]
fn image_plans() {
    let base_usage = ImageUsageFlags::STORAGE | ImageUsageFlags::SAMPLED | ImageUsageFlags::TRANSFER_SRC | ImageUsageFlags::TRANSFER_DST;

    let p = plan_image(&image(Format::R32_SFLOAT, [320, 180, 0], 1)).unwrap();
    assert_eq!(p.image_type, ImageType::TYPE_2D.as_raw());
    assert_eq!(p.extent, (320, 180, 1));
    assert_eq!(p.usage, (base_usage | ImageUsageFlags::COLOR_ATTACHMENT).as_raw());
    assert_eq!(p.create_flags, 0);
    assert_eq!(p.aspect, ImageAspectFlags::COLOR.as_raw());
    assert_eq!(p.view_type, ImageViewType::TYPE_2D_ARRAY.as_raw());

    let p = plan_image(&image(Format::D32_SFLOAT, [64, 64, 0], 0)).unwrap();
    assert_eq!(p.usage, (base_usage | ImageUsageFlags::DEPTH_STENCIL_ATTACHMENT).as_raw());
    assert_eq!(p.view_type, IMAGE_VIEW_TYPE_2D);
    assert_eq!(p.image_type, IMAGE_TYPE_2D);

    let p = plan_image(&image(Format::R8G8B8A8_UNORM, [16, 0, 0], 0)).unwrap();
    assert_eq!(p.image_type, IMAGE_TYPE_1D);
    assert_eq!(p.extent, (16, 1, 1));
    assert_eq!(p.view_type, IMAGE_VIEW_TYPE_1D);
    let p = plan_image(&image(Format::R8G8B8A8_UNORM, [16, 0, 0], 4)).unwrap();
    assert_eq!(p.view_type, IMAGE_VIEW_TYPE_1D_ARRAY);
    assert_eq!(IMAGE_VIEW_TYPE_1D_ARRAY, ImageViewType::TYPE_1D_ARRAY.as_raw());

    let p = plan_image(&image(Format::R8G8B8A8_UNORM, [8, 8, 8], 0)).unwrap();
    assert_eq!(p.image_type, ImageType::TYPE_3D.as_raw());
    assert_eq!(p.image_type, IMAGE_TYPE_3D);
    assert_eq!(p.extent, (8, 8, 8));
    assert_eq!(p.create_flags, ImageCreateFlags::CUBE_COMPATIBLE.as_raw());
    assert_eq!(p.view_type, IMAGE_VIEW_TYPE_3D);

    let p = plan_image(&image(Format::R8G8B8A8_UNORM, [8, 0, 2], 0)).unwrap();
    assert_eq!(p.image_type, IMAGE_TYPE_3D);
    assert_eq!(p.extent, (8, 0, 2));
    assert_eq!(IMAGE_VIEW_TYPE_2D_ARRAY, 5);
}

#[test]
fn image_plan_errors() {
    assert_eq!(plan_image(&image(Format::R8G8B8A8_UNORM, [0, 4, 4], 0)), Err(ImageError::ZeroWidth));
    assert_eq!(plan_image(&image(Format::R8G8B8A8_UNORM, [4, 4, 4], 2)), Err(ImageError::ArrayLayersOn3D));
    assert_eq!(ImageError::ZeroWidth.message(), "Image width must be greater than 0.");
    assert_eq!(ImageError::ArrayLayersOn3D.message(), "3D images cannot have array layers.");
}

#[test]
fn image_info_default_is_empty() {
    let info = ImageInfo::default();
    assert_eq!(info.format, Format::UNDEFINED.as_raw());
    assert_eq!(info.extent, [0, 0, 0]);
    assert_eq!(info.transfer_mode, TransferMode::Auto);
    assert!(!info.shader_mutable);
    assert!(plan_image(&info).is_err());
    let _ = SamplerInfo::default();
}

#[test]
fn buffer_plans() {
    let q = QueueProperties { graphics_family: 0, compute_family: 2, transfer_family: 1, compute_count: 8, transfer_count: 2 };
    let info = BufferInfo { transfer_mode: TransferMode::Stream, size: 256, shader_mutable: true, debug_name: "b" };
    let p = plan_buffer(&info, &q);
    assert_eq!(p.size, 256);
    assert_eq!(
        p.usage,
        (ash::vk::BufferUsageFlags::TRANSFER_SRC | ash::vk::BufferUsageFlags::TRANSFER_DST | ash::vk::BufferUsageFlags::STORAGE_BUFFER).as_raw()
    );
    assert_eq!(p.queue_families, [0, 2, 1]);
    assert!(p.host_mapped);
    assert!(!plan_buffer(&BufferInfo::default(), &q).host_mapped);
    assert!(!host_mapped(TransferMode::AutoUpload));
    assert!(!host_mapped(TransferMode::AutoDownload));
    assert!(host_mapped(TransferMode::Stream));
    assert_eq!(TransferMode::default(), TransferMode::Auto);
}
