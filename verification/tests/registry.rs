use paracosm_gpu::image::ImageInfo;
use paracosm_gpu::registry::{ResourceError, ResourceHandle, ResourceRegistry};
use paracosm_gpu::resource::{BufferInfo, TransferMode};

fn buffer_info(size: usize, shader_mutable: bool, transfer_mode: TransferMode) -> BufferInfo {
    BufferInfo { transfer_mode, size, shader_mutable, debug_name: "test" }
}

fn image_info(shader_mutable: bool) -> ImageInfo {
    ImageInfo { extent: [4, 4, 0], mip_levels: 1, array_layers: 1, shader_mutable, ..Default::default() }
}

type Registry = ResourceRegistry<&'static str, &'static str, u32>;

#[test]
fn created_buffer_is_found() {
    let mut reg: Registry = ResourceRegistry::new();
    assert!(reg.can_create_buffer());
    let a = reg.create_buffer(buffer_info(16, true, TransferMode::Auto), "a");
    let b = reg.create_buffer(buffer_info(32, false, TransferMode::Auto), "b");
    assert_eq!(a.host_entity(), 0);
    assert_eq!(b.host_entity(), 1);
    let found = reg.get_buffer(&a).unwrap();
    assert_eq!(found.payload, "a");
    assert_eq!(found.info.size, 16);
    assert_eq!(found.descriptor_index, 0);
    assert_eq!(reg.get_buffer(&b).unwrap().descriptor_index, 1);
    assert!(reg.is_live(0));
    assert!(!reg.is_live(2));
}

#[test]
fn destroyed_buffer_frees_its_slot() {
    let mut reg: Registry = ResourceRegistry::new();
    let a = reg.create_buffer(buffer_info(16, true, TransferMode::Auto), "a");
    let b = reg.create_buffer(buffer_info(16, true, TransferMode::Auto), "b");
    let removed = reg.destroy_buffer(a).unwrap();
    assert_eq!(removed.payload, "a");
    assert_eq!(removed.descriptor_index, 0);
    assert!(!reg.is_live(0));
    let c = reg.create_buffer(buffer_info(8, true, TransferMode::Auto), "c");
    assert_eq!(c.host_entity(), 2);
    assert_eq!(reg.get_buffer(&c).unwrap().descriptor_index, 0);
    assert_eq!(reg.get_buffer(&b).unwrap().payload, "b");
}

#[test]
fn images_and_buffers_are_told_apart() {
    let mut reg: Registry = ResourceRegistry::new();
    let img = reg.create_image(image_info(true), "img", 7);
    let buf = reg.create_buffer(buffer_info(16, true, TransferMode::Auto), "buf");
    let image = reg.get_image(&img).unwrap();
    assert_eq!(image.payload, "img");
    assert_eq!(image.image_views.len(), 1);
    assert_eq!(image.view(0).descriptor_index, 0);
    assert_eq!(image.view(0).inner, 7);
    assert_eq!(reg.get_buffer(&buf).unwrap().descriptor_index, 0);
    let removed = reg.destroy_image(img).unwrap();
    assert_eq!(removed.payload, "img");
    let img2 = reg.create_image(image_info(false), "img2", 9);
    assert_eq!(reg.get_image(&img2).unwrap().view(0).descriptor_index, 0);
    assert_eq!(ResourceError::NotAnImage.message(), "Resource is not an Image.");
    assert_eq!(ResourceError::ImageNotFound.message(), "Image not found.");
    assert_eq!(ResourceError::BufferNotFound.message(), "Buffer not found.");
}

#[test]
fn labels_move_between_resources() {
    let mut reg: Registry = ResourceRegistry::new();
    let a = reg.create_buffer(buffer_info(16, true, TransferMode::Auto), "a");
    let b = reg.create_buffer(buffer_info(16, true, TransferMode::Auto), "b");
    let fixed = reg.create_buffer(buffer_info(16, false, TransferMode::Auto), "fixed");
    let img = reg.create_image(image_info(true), "img", 1);
    const LABEL: u64 = 11;
    const OTHER: u64 = 12;

    assert_eq!(reg.label_owner(LABEL), None);
    assert_eq!(reg.set_buffer_label(LABEL, &a), Ok(()));
    assert_eq!(reg.label_owner(LABEL), Some(a.host_entity()));
    assert_eq!(reg.labeled_buffer(LABEL).unwrap().payload, "a");

    assert_eq!(reg.set_buffer_label(OTHER, &a), Err(ResourceError::BufferAlreadySynchronized));
    assert_eq!(reg.set_buffer_label(LABEL, &fixed), Err(ResourceError::BufferNotShaderMutable));
    assert_eq!(reg.set_image_label(OTHER, &img), Ok(()));
    assert_eq!(reg.labeled_image(OTHER).unwrap().payload, "img");
    assert!(reg.labeled_buffer(OTHER).is_none());

    assert_eq!(reg.set_buffer_label(LABEL, &b), Ok(()));
    assert_eq!(reg.label_owner(LABEL), Some(b.host_entity()));
    assert_eq!(reg.set_buffer_label(OTHER, &a), Ok(()));
    assert_eq!(reg.label_owner(OTHER), Some(a.host_entity()));
    assert!(reg.labeled_image(OTHER).is_none());

    reg.destroy_buffer(b).unwrap();
    assert_eq!(reg.label_owner(LABEL), None);
    assert!(reg.labeled_buffer(LABEL).is_none());

    assert_eq!(ResourceError::BufferAlreadySynchronized.message(), "Buffer resource already synchronized.");
    assert_eq!(ResourceError::BufferNotShaderMutable.message(), "Buffer resource must be created with shader mutability enabled.");
}

#[test]
fn image_label_errors() {
    let mut reg: Registry = ResourceRegistry::new();
    let img = reg.create_image(image_info(false), "img", 1);
    assert_eq!(reg.set_image_label(3, &img), Err(ResourceError::ImageNotShaderMutable));
    let img2 = reg.create_image(image_info(true), "img2", 2);
    assert_eq!(reg.set_image_label(3, &img2), Ok(()));
    assert_eq!(reg.set_image_label(4, &img2), Err(ResourceError::ImageAlreadySynchronized));
    assert_eq!(ResourceError::ImageAlreadySynchronized.message(), "Image resource already synchronized.");
    assert_eq!(ResourceError::ImageNotShaderMutable.message(), "Image resource must be created with shader mutability enabled.");
}

#[test]
fn mapped_buffer_checks_size() {
    let mut reg: Registry = ResourceRegistry::new();
    let s = reg.create_buffer(buffer_info(16, true, TransferMode::Stream), "s");
    assert_eq!(reg.mapped_buffer(&s, 16).unwrap().payload, "s");
    assert_eq!(reg.mapped_buffer(&s, 8).err(), Some(ResourceError::BufferSizeMismatch));
    assert_eq!(ResourceError::BufferSizeMismatch.message(), "does not match buffer size.");
}

#[test]
fn drain_hands_out_everything_in_order() {
    let mut reg: Registry = ResourceRegistry::new();
    let _a = reg.create_buffer(buffer_info(16, true, TransferMode::Auto), "a");
    let _i = reg.create_image(image_info(true), "i", 5);
    let b = reg.create_buffer(buffer_info(16, true, TransferMode::Auto), "b");
    let _c = reg.create_buffer(buffer_info(16, true, TransferMode::Auto), "c");
    reg.destroy_buffer(b).unwrap();
    let (buffers, images) = reg.drain();
    let names: Vec<&str> = buffers.iter().map(|b| b.payload).collect();
    assert_eq!(names, vec!["a", "c"]);
    assert_eq!(images.len(), 1);
    assert_eq!(images[0].payload, "i");
    assert!(!reg.is_live(0));
}
