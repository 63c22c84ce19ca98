use vstd::prelude::*;
use crate::resource::SyncLabel;
use crate::selection::{is_last_max, last_max_index};

verus! {

/// A label that names a surface.
pub trait SurfaceLabel: SyncLabel {}

/// The label of the surface of the primary window.
pub struct PrimarySurface;

impl SyncLabel for PrimarySurface {}

impl SurfaceLabel for PrimarySurface {}

/// Raw values of the `VkFormat`s that the default format selector prefers.
pub const FORMAT_R8G8B8A8_UNORM: i32 = 37;
pub const FORMAT_R8G8B8A8_SRGB: i32 = 43;
pub const FORMAT_B8G8R8A8_UNORM: i32 = 44;
pub const FORMAT_B8G8R8A8_SRGB: i32 = 50;

/// The number of frames a surface has in flight; its acquire semaphores
/// rotate through this many.
pub const MAX_FRAMES_IN_FLIGHT: u32 = 2;

/// The least number of images that a swapchain is asked for.
pub const MIN_SWAPCHAIN_IMAGES: u32 = 3;

/// Raw `VkImageUsageFlags` of swapchain images: color attachment and
/// transfer destination.
pub const SWAPCHAIN_IMAGE_USAGE: u32 = 18;

/// A `VkSurfaceFormatKHR`: raw format and color space.
#[derive(Clone, Copy, Debug, PartialEq, Eq, Structural)]
pub struct SurfaceFormat {
    pub format: i32,
    pub color_space: i32,
}

pub open spec fn spec_default_format_score(f: SurfaceFormat) -> i32 {
    if f.format == FORMAT_R8G8B8A8_SRGB {
        90
    } else if f.format == FORMAT_R8G8B8A8_UNORM {
        80
    } else if f.format == FORMAT_B8G8R8A8_SRGB {
        70
    } else if f.format == FORMAT_B8G8R8A8_UNORM {
        60
    } else {
        0
    }
}

/// The default preference among surface formats: 8-bit RGBA sRGB, then
/// RGBA unorm, then BGRA sRGB, then BGRA unorm, then anything else.
pub fn default_format_selector(f: SurfaceFormat) -> (r: i32)
    ensures
        r == spec_default_format_score(f),
{
    if f.format == FORMAT_R8G8B8A8_SRGB {
        90
    } else if f.format == FORMAT_R8G8B8A8_UNORM {
        80
    } else if f.format == FORMAT_B8G8R8A8_SRGB {
        70
    } else if f.format == FORMAT_B8G8R8A8_UNORM {
        60
    } else {
        0
    }
}

/// Why a surface request is refused.
#[derive(Clone, Copy, Debug, PartialEq, Eq, Structural)]
pub enum SurfaceError {
    NoFormats,
}

impl SurfaceError {
    pub fn message(&self) -> (r: &'static str)
        ensures
            r@ == "Physical device has no available surface formats."@,
    {
        match self {
            SurfaceError::NoFormats => "Physical device has no available surface formats.",
        }
    }
}

/// Picks the surface format with the highest score, the last one on ties;
/// refused when the device offers no format. `scores[i]` is the selector's
/// score of `formats[i]`.
pub fn select_surface_format(formats: &Vec<SurfaceFormat>, scores: &Vec<i32>) -> (r: Result<SurfaceFormat, SurfaceError>)
    requires
        formats@.len() == scores@.len(),
    ensures
        formats@.len() == 0 ==> r == Err::<SurfaceFormat, SurfaceError>(SurfaceError::NoFormats),
        formats@.len() > 0 ==> exists|i: int| is_last_max(scores@, i) && r == Ok::<SurfaceFormat, SurfaceError>(formats@[i]),
{
    match last_max_index(scores) {
        Some(i) => Ok(formats[i]),
        None => Err(SurfaceError::NoFormats),
    }
}

/// The scores of the default selector.
pub open spec fn default_scores(formats: Seq<SurfaceFormat>) -> Seq<i32> {
    formats.map_values(|f: SurfaceFormat| spec_default_format_score(f))
}

/// Picks a surface format with the default selector.
pub fn select_surface_format_default(formats: &Vec<SurfaceFormat>) -> (r: Result<SurfaceFormat, SurfaceError>)
    ensures
        formats@.len() == 0 ==> r == Err::<SurfaceFormat, SurfaceError>(SurfaceError::NoFormats),
        formats@.len() > 0 ==> exists|i: int| is_last_max(default_scores(formats@), i) && r == Ok::<SurfaceFormat, SurfaceError>(formats@[i]),
{
    let mut scores: Vec<i32> = Vec::new();
    let mut i: usize = 0;
    while i < formats.len()
        invariant
            i <= formats@.len(),
            scores@ =~= default_scores(formats@.take(i as int)),
        decreases formats.len() - i,
    {
        scores.push(default_format_selector(formats[i]));
        i = i + 1;
    }
    assert(formats@.take(i as int) =~= formats@);
    select_surface_format(formats, &scores)
}

/// The presentation state of a surface: which frame slot it is in, which
/// swapchain image it holds, and how many images its swapchain has.
pub struct SurfaceState {
    frame_index: u32,
    image_index: u32,
    image_count: usize,
}

/// The abstract state of a surface.
pub struct SurfaceModel {
    pub frame_index: u32,
    pub image_index: u32,
    pub image_count: usize,
}

impl View for SurfaceState {
    type V = SurfaceModel;

    closed spec fn view(&self) -> SurfaceModel {
        SurfaceModel { frame_index: self.frame_index, image_index: self.image_index, image_count: self.image_count }
    }
}

/// The frame slot after a presentation.
pub open spec fn next_frame_index(frame_index: u32) -> u32 {
    ((frame_index + 1) % (MAX_FRAMES_IN_FLIGHT as int)) as u32
}

impl SurfaceState {
    /// A surface before its first swapchain.
    pub fn new() -> (r: Self)
        ensures
            r@ == (SurfaceModel { frame_index: 0, image_index: 0, image_count: 0 }),
    {
        SurfaceState { frame_index: 0, image_index: 0, image_count: 0 }
    }

    /// A new swapchain with `image_count` images, each with its own present
    /// semaphore; the frame slot and image index stay.
    pub fn configure(&mut self, image_count: usize)
        ensures
            final(self)@ == (SurfaceModel { image_count, ..old(self)@ }),
    {
        self.image_count = image_count;
    }

    /// The frame slot: the acquire semaphore that the next acquisition uses.
    pub fn frame_index(&self) -> (r: u32)
        ensures
            r == self@.frame_index,
    {
        self.frame_index
    }

    /// The swapchain image that the surface holds.
    pub fn image_index(&self) -> (r: u32)
        ensures
            r == self@.image_index,
    {
        self.image_index
    }

    /// Takes the image that the swapchain handed out. Answers the acquire
    /// semaphore of the frame slot and the present semaphore of the image.
    pub fn acquire(&mut self, image_index: u32) -> (r: (usize, usize))
        requires
            (image_index as int) < old(self)@.image_count,
        ensures
            r == (old(self)@.frame_index as usize, image_index as usize),
            final(self)@ == (SurfaceModel { image_index, ..old(self)@ }),
    {
        self.image_index = image_index;
        (self.frame_index as usize, image_index as usize)
    }

    /// Presents the held image: answers the image and its present semaphore,
    /// and moves to the next frame slot.
    pub fn present(&mut self) -> (r: usize)
        requires
            old(self)@.frame_index < MAX_FRAMES_IN_FLIGHT,
        ensures
            r == old(self)@.image_index as usize,
            final(self)@ == (SurfaceModel { frame_index: next_frame_index(old(self)@.frame_index), ..old(self)@ }),
            final(self)@.frame_index < MAX_FRAMES_IN_FLIGHT,
    {
        self.frame_index = (self.frame_index + 1) % MAX_FRAMES_IN_FLIGHT;
        self.image_index as usize
    }
}

/// Frame slots alternate: two presentations bring a surface back to the
/// slot it started in, and one moves it to the other slot.
pub proof fn law_frame_slots_alternate(frame_index: u32)
    requires
        frame_index < MAX_FRAMES_IN_FLIGHT,
    ensures
        next_frame_index(frame_index) != frame_index,
        next_frame_index(frame_index) < MAX_FRAMES_IN_FLIGHT,
        next_frame_index(next_frame_index(frame_index)) == frame_index,
{
}

} // verus!
