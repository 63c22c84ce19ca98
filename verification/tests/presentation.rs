use paracosm_gpu::commands::{blit_region, CommandCursor, REMAINING_ARRAY_LAYERS};
use paracosm_gpu::mesh::{Mesh, MeshError};
use paracosm_gpu::shader::{ShaderAsset, ShaderAssetError, ShaderLoader};
use paracosm_gpu::surface::{
    default_format_selector, select_surface_format, select_surface_format_default, PrimarySurface, SurfaceError,
    SurfaceFormat, SurfaceLabel, SurfaceState, MAX_FRAMES_IN_FLIGHT,
};
use paracosm_gpu::validation::classify_message;
use paracosm_gpu::window::WindowFrameState;
use ash::vk::{ColorSpaceKHR, DebugUtilsMessageSeverityFlagsEXT as Sev, DebugUtilsMessageTypeFlagsEXT as Ty, Format};

fn fmt(f: Format) -> SurfaceFormat {
    SurfaceFormat { format: f.as_raw(), color_space: ColorSpaceKHR::SRGB_NONLINEAR.as_raw() }
}

fn takes_surface_label<L: SurfaceLabel>(_l: L) {}

#[test]
fn default_selector_prefers_rgba_srgb() {
    assert_eq!(default_format_selector(fmt(Format::R8G8B8A8_SRGB)), 90);
    assert_eq!(default_format_selector(fmt(Format::R8G8B8A8_UNORM)), 80);
    assert_eq!(default_format_selector(fmt(Format::B8G8R8A8_SRGB)), 70);
    assert_eq!(default_format_selector(fmt(Format::B8G8R8A8_UNORM)), 60);
    assert_eq!(default_format_selector(fmt(Format::R16G16B16A16_SFLOAT)), 0);
    let formats = vec![fmt(Format::B8G8R8A8_UNORM), fmt(Format::B8G8R8A8_SRGB), fmt(Format::A2B10G10R10_UNORM_PACK32)];
    assert_eq!(select_surface_format_default(&formats), Ok(fmt(Format::B8G8R8A8_SRGB)));
    assert_eq!(select_surface_format_default(&vec![]), Err(SurfaceError::NoFormats));
    assert_eq!(SurfaceError::NoFormats.message(), "Physical device has no available surface formats.");
    takes_surface_label(PrimarySurface);
}

#[test]
fn custom_scores_pick_the_last_best() {
    let formats = vec![fmt(Format::R8G8B8A8_SRGB), fmt(Format::B8G8R8A8_SRGB), fmt(Format::R8G8B8A8_UNORM)];
    assert_eq!(select_surface_format(&formats, &vec![3, 7, 7]), Ok(fmt(Format::R8G8B8A8_UNORM)));
    assert_eq!(select_surface_format(&formats, &vec![9, 7, 7]), Ok(fmt(Format::R8G8B8A8_SRGB)));
}

#[test]
fn surface_frames_alternate() {
    let mut s = SurfaceState::new();
    s.configure(3);
    assert_eq!(s.acquire(2), (0, 2));
    assert_eq!(s.image_index(), 2);
    assert_eq!(s.present(), 2);
    assert_eq!(s.frame_index(), 1);
    assert_eq!(s.acquire(0), (1, 0));
    assert_eq!(s.present(), 0);
    assert_eq!(s.frame_index(), 0);
    assert_eq!(MAX_FRAMES_IN_FLIGHT, 2);
}

#[test]
fn validation_messages_are_tagged() {
    let r = classify_message(Sev::ERROR.as_raw(), Ty::VALIDATION.as_raw());
    assert_eq!((r.severity, r.message_type, r.failure), ("[Error]", "[Validation]", true));
    let r = classify_message(Sev::WARNING.as_raw(), Ty::PERFORMANCE.as_raw());
    assert_eq!((r.severity, r.message_type, r.failure), ("[Warning]", "[Performance]", true));
    let r = classify_message(Sev::INFO.as_raw(), Ty::GENERAL.as_raw());
    assert_eq!((r.severity, r.message_type, r.failure), ("[Info]", "[General]", false));
    let r = classify_message(Sev::VERBOSE.as_raw(), (Ty::GENERAL | Ty::VALIDATION).as_raw());
    assert_eq!((r.severity, r.message_type, r.failure), ("[Verbose]", "[Unknown]", false));
    let r = classify_message((Sev::ERROR | Sev::INFO).as_raw(), 0);
    assert_eq!((r.severity, r.message_type, r.failure), ("[Unknown]", "[Unknown]", false));
}

#[test]
fn command_cursor_moves_per_submission() {
    let mut c = CommandCursor::new(vec![5u64, 6, 7]);
    assert_eq!(c.command_buffer(), 5);
    c.advance();
    assert_eq!(c.command_buffer(), 6);
    c.advance();
    assert_eq!(c.command_buffer(), 7);
}

#[test]
fn blit_covers_image_and_surface() {
    let r = blit_region(Format::R32_SFLOAT.as_raw(), [320, 180, 0], (1280, 720));
    assert_eq!(r.aspect, ash::vk::ImageAspectFlags::COLOR.as_raw());
    assert_eq!(r.src_corner, (320, 180, 1));
    assert_eq!(r.dst_corner, (1280, 720, 1));
    assert_eq!(r.layer_count, ash::vk::REMAINING_ARRAY_LAYERS);
    assert_eq!(REMAINING_ARRAY_LAYERS, u32::MAX);
    let r = blit_region(Format::D32_SFLOAT.as_raw(), [u32::MAX, 1, 0], (1, 1));
    assert_eq!(r.aspect, ash::vk::ImageAspectFlags::DEPTH.as_raw());
    assert_eq!(r.src_corner, (-1, 1, 1));
}

#[test]
fn meshes_bind_only_after_upload() {
    let mut m: Mesh<[u32; 9], &str> = Mesh::new(vec![[0; 9]; 4], vec![0, 1, 2, 2, 3, 0]);
    assert_eq!(m.index_count(), 6);
    assert_eq!(m.upload_sizes(36), (144, 12));
    assert_eq!(m.bind().err(), Some(MeshError::NotUploaded));
    assert_eq!(MeshError::NotUploaded.message(), "Attempt to bind mesh not uploaded to GPU");
    m.set_buffers("v", "i");
    assert_eq!(m.bind().ok(), Some((&"v", &"i")));
    assert_eq!(m.vertices_slice().len(), 4);
    assert_eq!(m.indices_slice(), &[0, 1, 2, 2, 3, 0]);
    assert_eq!(m.take_buffers(), (Some("v"), Some("i")));
    assert!(m.bind().is_err());
}

#[test]
fn windows_track_resizes() {
    let mut w = WindowFrameState::new(0, 720);
    assert_eq!((w.width, w.height, w.resized, w.configured), (1, 720, false, false));
    assert!(w.prepare(true));
    assert!(w.configured);
    w.set_swapchain_image(2);
    assert_eq!(w.swapchain_image_index, Some(2));
    w.extract(0, 720);
    assert_eq!(w.swapchain_image_index, None);
    assert!(!w.resized);
    assert!(!w.prepare(false));
    w.extract(1280, 720);
    assert!(w.resized);
    assert_eq!((w.width, w.height), (1280, 720));
    assert!(w.prepare(false));
}

#[test]
fn shader_loader_accepts_spirv_only() {
    let loader = ShaderLoader::default();
    assert_eq!(loader.load("spv", &[3, 2, 35, 7]), Ok(ShaderAsset::SpirV(vec![3, 2, 35, 7])));
    assert_eq!(loader.load("wgsl", &[1]), Err(ShaderAssetError::UnsupportedExtension("wgsl".to_string())));
}
