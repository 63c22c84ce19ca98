use vstd::prelude::*;
use crate::resource::TransferMode;

verus! {

/// Raw values of the `VkFormat`s that the image logic tells apart.
pub const FORMAT_UNDEFINED: i32 = 0;
pub const FORMAT_D16_UNORM: i32 = 124;
pub const FORMAT_X8_D24_UNORM_PACK32: i32 = 125;
pub const FORMAT_D32_SFLOAT: i32 = 126;
pub const FORMAT_S8_UINT: i32 = 127;
pub const FORMAT_D16_UNORM_S8_UINT: i32 = 128;
pub const FORMAT_D24_UNORM_S8_UINT: i32 = 129;
pub const FORMAT_D32_SFLOAT_S8_UINT: i32 = 130;

/// Raw bits of `VkImageAspectFlags`.
pub const ASPECT_COLOR: u32 = 1;
pub const ASPECT_DEPTH: u32 = 2;
pub const ASPECT_STENCIL: u32 = 4;

/// Raw bits of `VkImageUsageFlags`.
pub const IMAGE_USAGE_TRANSFER_SRC: u32 = 1;
pub const IMAGE_USAGE_TRANSFER_DST: u32 = 2;
pub const IMAGE_USAGE_SAMPLED: u32 = 4;
pub const IMAGE_USAGE_STORAGE: u32 = 8;
pub const IMAGE_USAGE_COLOR_ATTACHMENT: u32 = 16;
pub const IMAGE_USAGE_DEPTH_STENCIL_ATTACHMENT: u32 = 32;

/// Raw bit `VK_IMAGE_CREATE_CUBE_COMPATIBLE_BIT`.
pub const IMAGE_CREATE_CUBE_COMPATIBLE: u32 = 16;

/// Raw values of `VkImageType`.
pub const IMAGE_TYPE_1D: i32 = 0;
pub const IMAGE_TYPE_2D: i32 = 1;
pub const IMAGE_TYPE_3D: i32 = 2;

/// Raw values of `VkImageViewType`.
pub const IMAGE_VIEW_TYPE_1D: i32 = 0;
pub const IMAGE_VIEW_TYPE_2D: i32 = 1;
pub const IMAGE_VIEW_TYPE_3D: i32 = 2;
pub const IMAGE_VIEW_TYPE_1D_ARRAY: i32 = 4;
pub const IMAGE_VIEW_TYPE_2D_ARRAY: i32 = 5;

pub open spec fn spec_is_depth_format(format: i32) -> bool {
    format == FORMAT_D16_UNORM || format == FORMAT_D16_UNORM_S8_UINT || format
        == FORMAT_D24_UNORM_S8_UINT || format == FORMAT_D32_SFLOAT || format
        == FORMAT_D32_SFLOAT_S8_UINT || format == FORMAT_X8_D24_UNORM_PACK32
}

pub open spec fn spec_is_stencil_format(format: i32) -> bool {
    format == FORMAT_S8_UINT || format == FORMAT_D16_UNORM_S8_UINT || format
        == FORMAT_D24_UNORM_S8_UINT || format == FORMAT_D32_SFLOAT_S8_UINT
}

/// Whether a format has a depth component.
pub fn is_depth_format(format: i32) -> (r: bool)
    ensures
        r == spec_is_depth_format(format),
{
    format == FORMAT_D16_UNORM || format == FORMAT_D16_UNORM_S8_UINT || format
        == FORMAT_D24_UNORM_S8_UINT || format == FORMAT_D32_SFLOAT || format
        == FORMAT_D32_SFLOAT_S8_UINT || format == FORMAT_X8_D24_UNORM_PACK32
}

/// Whether a format has a stencil component.
pub fn is_stencil_format(format: i32) -> (r: bool)
    ensures
        r == spec_is_stencil_format(format),
{
    format == FORMAT_S8_UINT || format == FORMAT_D16_UNORM_S8_UINT || format
        == FORMAT_D24_UNORM_S8_UINT || format == FORMAT_D32_SFLOAT_S8_UINT
}

/// The aspect of a format: color when it has neither depth nor stencil,
/// otherwise depth, stencil, or both.
pub open spec fn spec_aspect_from_format(format: i32) -> u32 {
    if spec_is_depth_format(format) && spec_is_stencil_format(format) {
        ASPECT_DEPTH | ASPECT_STENCIL
    } else if spec_is_depth_format(format) {
        ASPECT_DEPTH
    } else if spec_is_stencil_format(format) {
        ASPECT_STENCIL
    } else {
        ASPECT_COLOR
    }
}

/// The raw `VkImageAspectFlags` of a format.
pub fn aspect_from_format(format: i32) -> (r: u32)
    ensures
        r == spec_aspect_from_format(format),
{
    match (is_depth_format(format), is_stencil_format(format)) {
        (false, false) => ASPECT_COLOR,
        (true, false) => ASPECT_DEPTH,
        (false, true) => ASPECT_STENCIL,
        (true, true) => ASPECT_DEPTH | ASPECT_STENCIL,
    }
}

/// `ash::vk::ImageAspectFlags::contains`: whether every bit of `other` is set
/// in `flags` (`flags & other == other`).
#[verifier::external_body]
fn aspect_flags_contains(flags: u32, other: u32) -> (r: bool)
    ensures
        r == (flags & other == other),
{
    ash::vk::ImageAspectFlags::from_raw(flags).contains(ash::vk::ImageAspectFlags::from_raw(other))
}

/// What an image is created with.
#[derive(Clone, Copy, Debug)]
pub struct ImageInfo {
    /// Raw `VkFormat`.
    pub format: i32,
    /// Image extent with format \[width, height, depth\]
    pub extent: [u32; 3],
    pub mip_levels: u32,
    pub array_layers: u32,
    /// Raw `VkSampleCountFlags`.
    pub samples: u32,
    pub shared: bool,
    pub transfer_mode: TransferMode,
    pub shader_mutable: bool,
    pub debug_name: &'static str,
}

impl Default for ImageInfo {
    fn default() -> (r: Self)
        ensures
            r.format == FORMAT_UNDEFINED,
            r.extent@ == seq![0u32, 0u32, 0u32],
            r.mip_levels == 0,
            r.array_layers == 0,
            r.samples == 0,
            !r.shared,
            r.transfer_mode == TransferMode::Auto,
            !r.shader_mutable,
            r.debug_name@ == ""@,
    {
        ImageInfo {
            format: FORMAT_UNDEFINED,
            extent: [0, 0, 0],
            mip_levels: 0,
            array_layers: 0,
            samples: 0,
            shared: false,
            transfer_mode: TransferMode::Auto,
            shader_mutable: false,
            debug_name: "",
        }
    }
}

/// Why an image cannot be created.
#[derive(Clone, Copy, Debug, PartialEq, Eq, Structural)]
pub enum ImageError {
    ZeroWidth,
    ArrayLayersOn3D,
}

impl ImageError {
    pub fn message(&self) -> (r: &'static str)
        ensures
            *self == ImageError::ZeroWidth ==> r@ == "Image width must be greater than 0."@,
            *self == ImageError::ArrayLayersOn3D ==> r@ == "3D images cannot have array layers."@,
    {
        match self {
            ImageError::ZeroWidth => "Image width must be greater than 0.",
            ImageError::ArrayLayersOn3D => "3D images cannot have array layers.",
        }
    }
}

/// The Vulkan parameters of an image and of its view, all raw values.
#[derive(Clone, Copy, Debug, PartialEq, Eq)]
pub struct ImagePlan {
    pub image_type: i32,
    /// The Vulkan extent (width, height, depth), with unused dimensions 1.
    pub extent: (u32, u32, u32),
    pub usage: u32,
    pub create_flags: u32,
    pub aspect: u32,
    pub view_type: i32,
}

/// The image type and extent: a width and nothing else is 1D, a width and
/// height is 2D, and anything with a depth is 3D.
pub open spec fn spec_image_type_extent(e: Seq<u32>) -> (i32, (u32, u32, u32)) {
    if e[1] == 0 && e[2] == 0 {
        (IMAGE_TYPE_1D, (e[0], 1u32, 1u32))
    } else if e[2] == 0 {
        (IMAGE_TYPE_2D, (e[0], e[1], 1u32))
    } else {
        (IMAGE_TYPE_3D, (e[0], e[1], e[2]))
    }
}

/// Storage, sampled and transfer usage always; a color image is also a color
/// attachment, and a depth or stencil image a depth-stencil attachment.
pub open spec fn spec_image_usage(aspect: u32) -> u32 {
    let base = IMAGE_USAGE_STORAGE | IMAGE_USAGE_SAMPLED | IMAGE_USAGE_TRANSFER_SRC
        | IMAGE_USAGE_TRANSFER_DST;
    if aspect & ASPECT_COLOR == ASPECT_COLOR {
        base | IMAGE_USAGE_COLOR_ATTACHMENT
    } else if aspect & ASPECT_DEPTH == ASPECT_DEPTH || aspect & ASPECT_STENCIL == ASPECT_STENCIL {
        base | IMAGE_USAGE_DEPTH_STENCIL_ATTACHMENT
    } else {
        base
    }
}

/// The view type: 1D or 2D images are arrays when they have array layers;
/// a 3D image has none.
pub open spec fn spec_view_type(e: Seq<u32>, layers: u32) -> Option<i32> {
    if e[1] == 0 && e[2] == 0 {
        if layers == 0 { Some(IMAGE_VIEW_TYPE_1D) } else { Some(IMAGE_VIEW_TYPE_1D_ARRAY) }
    } else if e[2] == 0 {
        if layers == 0 { Some(IMAGE_VIEW_TYPE_2D) } else { Some(IMAGE_VIEW_TYPE_2D_ARRAY) }
    } else {
        if layers == 0 { Some(IMAGE_VIEW_TYPE_3D) } else { None }
    }
}

/// Plans an image: an error for a zero width, or for a 3D image with array
/// layers; otherwise the type, extent, usage, flags (cube compatible for 3D),
/// aspect and view type that the image and its view are created with.
pub fn plan_image(info: &ImageInfo) -> (r: Result<ImagePlan, ImageError>)
    ensures
        info.extent@[0] == 0 ==> r == Err::<ImagePlan, ImageError>(ImageError::ZeroWidth),
        info.extent@[0] != 0 && spec_view_type(info.extent@, info.array_layers) is None ==> r
            == Err::<ImagePlan, ImageError>(ImageError::ArrayLayersOn3D),
        info.extent@[0] != 0 && spec_view_type(info.extent@, info.array_layers) is Some ==> r
            == Ok::<ImagePlan, ImageError>(
            ImagePlan {
                image_type: spec_image_type_extent(info.extent@).0,
                extent: spec_image_type_extent(info.extent@).1,
                usage: spec_image_usage(spec_aspect_from_format(info.format)),
                create_flags: if spec_image_type_extent(info.extent@).0 == IMAGE_TYPE_3D {
                    IMAGE_CREATE_CUBE_COMPATIBLE
                } else {
                    0u32
                },
                aspect: spec_aspect_from_format(info.format),
                view_type: spec_view_type(info.extent@, info.array_layers)->0,
            },
        ),
{
    let width = info.extent[0];
    let height = info.extent[1];
    let depth = info.extent[2];
    if width == 0 {
        return Err(ImageError::ZeroWidth);
    }
    let (image_type, extent) = if height == 0 && depth == 0 {
        (IMAGE_TYPE_1D, (width, 1u32, 1u32))
    } else if depth == 0 {
        (IMAGE_TYPE_2D, (width, height, 1u32))
    } else {
        (IMAGE_TYPE_3D, (width, height, depth))
    };
    let aspect = aspect_from_format(info.format);
    let mut usage = IMAGE_USAGE_STORAGE | IMAGE_USAGE_SAMPLED | IMAGE_USAGE_TRANSFER_SRC
        | IMAGE_USAGE_TRANSFER_DST;
    if aspect_flags_contains(aspect, ASPECT_COLOR) {
        usage = usage | IMAGE_USAGE_COLOR_ATTACHMENT;
    } else if aspect_flags_contains(aspect, ASPECT_DEPTH) || aspect_flags_contains(
        aspect,
        ASPECT_STENCIL,
    ) {
        usage = usage | IMAGE_USAGE_DEPTH_STENCIL_ATTACHMENT;
    }
    let create_flags = if image_type == IMAGE_TYPE_3D {
        IMAGE_CREATE_CUBE_COMPATIBLE
    } else {
        0u32
    };
    let layers = info.array_layers;
    let view_type = if height == 0 && depth == 0 {
        if layers == 0 { IMAGE_VIEW_TYPE_1D } else { IMAGE_VIEW_TYPE_1D_ARRAY }
    } else if depth == 0 {
        if layers == 0 { IMAGE_VIEW_TYPE_2D } else { IMAGE_VIEW_TYPE_2D_ARRAY }
    } else {
        if layers == 0 { IMAGE_VIEW_TYPE_3D } else { return Err(ImageError::ArrayLayersOn3D) }
    };
    Ok(ImagePlan { image_type, extent, usage, create_flags, aspect, view_type })
}

/// What a sampler is created with.
#[derive(Clone, Copy, Debug, Default)]
pub struct SamplerInfo {}


/// The aspect of every format: a combined depth-stencil format
/// (`D16_UNORM_S8_UINT` 128, `D24_UNORM_S8_UINT` 129, `D32_SFLOAT_S8_UINT`
/// 130) is depth and stencil (6); a depth-only format (`D16_UNORM` 124,
/// `X8_D24_UNORM_PACK32` 125, `D32_SFLOAT` 126) is depth (2); `S8_UINT`
/// (127) is stencil (4); every other format is color (1). So every format
/// with a depth component has the depth bit.
pub proof fn law_aspect_of_format(format: i32)
    ensures
        format == 128 || format == 129 || format == 130 ==> spec_aspect_from_format(format) == 6,
        format == 124 || format == 125 || format == 126 ==> spec_aspect_from_format(format) == 2,
        format == 127 ==> spec_aspect_from_format(format) == 4,
        format < 124 || format > 130 ==> spec_aspect_from_format(format) == 1,
        124 <= format <= 130 && format != 127 ==> spec_aspect_from_format(format) & 2 == 2,
{
    assert(2u32 | 4u32 == 6u32) by (bit_vector);
    assert(6u32 & 2u32 == 2u32) by (bit_vector);
    assert(2u32 & 2u32 == 2u32) by (bit_vector);
}

/// An image plan's aspect is the aspect of its format: a planned depth
/// image (formats 124 to 130 but 127) can serve as a depth attachment.
pub proof fn law_planned_aspect(info: ImageInfo, p: ImagePlan)
    requires
        p.aspect == spec_aspect_from_format(info.format),
        p.usage == spec_image_usage(p.aspect),
    ensures
        124 <= info.format <= 130 && info.format != 127 ==> p.aspect & 2 == 2
            && p.usage & IMAGE_USAGE_DEPTH_STENCIL_ATTACHMENT == IMAGE_USAGE_DEPTH_STENCIL_ATTACHMENT,
{
    law_aspect_of_format(info.format);
    assert(6u32 & 1u32 == 0u32 && 2u32 & 1u32 == 0u32 && 6u32 & 2u32 == 2u32) by (bit_vector);
    assert((8u32 | 4u32 | 1u32 | 2u32 | 32u32) & 32u32 == 32u32) by (bit_vector);
}

} // verus!
