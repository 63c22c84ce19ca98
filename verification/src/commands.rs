use vstd::prelude::*;
use crate::image::spec_aspect_from_format;
use crate::image::aspect_from_format;

verus! {

/// The command buffers that the nodes of one run record into, one per
/// submission, and the submission that is recording now. Between the
/// submissions of a run, the cursor moves on by one.
pub struct CommandCursor<C> {
    index: u32,
    command_buffers: Vec<C>,
}

impl<C: Copy> CommandCursor<C> {
    /// A cursor at the first submission.
    pub fn new(command_buffers: Vec<C>) -> (r: Self)
        ensures
            r.index() == 0,
            r.command_buffers() == command_buffers@,
    {
        CommandCursor { index: 0, command_buffers }
    }

    pub closed spec fn index(&self) -> u32 {
        self.index
    }

    pub closed spec fn command_buffers(&self) -> Seq<C> {
        self.command_buffers@
    }

    /// The command buffer that is recording now.
    pub fn command_buffer(&self) -> (r: C)
        requires
            (self.index() as int) < self.command_buffers().len(),
        ensures
            r == self.command_buffers()[self.index() as int],
    {
        self.command_buffers[self.index as usize]
    }

    /// Moves on to the next submission's command buffer.
    pub fn advance(&mut self)
        requires
            old(self).index() < u32::MAX,
        ensures
            final(self).index() == old(self).index() + 1,
            final(self).command_buffers() == old(self).command_buffers(),
    {
        self.index = self.index + 1;
    }
}

/// `VK_REMAINING_ARRAY_LAYERS`.
pub const REMAINING_ARRAY_LAYERS: u32 = 0xffff_ffff;

/// An `VkImageBlit` of the whole first mip level: aspect, then the far
/// corner of the source and of the destination region (the near corners are
/// the origin).
#[derive(Clone, Copy, Debug, PartialEq, Eq)]
pub struct BlitRegion {
    pub aspect: u32,
    pub src_corner: (i32, i32, i32),
    pub dst_corner: (i32, i32, i32),
    pub layer_count: u32,
}

/// The blit of an image onto a surface image: the whole image, stretched
/// over the whole surface, the extents taken as signed offsets.
pub fn blit_region(format: i32, image_extent: [u32; 3], surface_extent: (u32, u32)) -> (r: BlitRegion)
    ensures
        r.aspect == spec_aspect_from_format(format),
        r.src_corner == (image_extent@[0] as i32, image_extent@[1] as i32, 1i32),
        r.dst_corner == (surface_extent.0 as i32, surface_extent.1 as i32, 1i32),
        r.layer_count == REMAINING_ARRAY_LAYERS,
{
    BlitRegion {
        aspect: aspect_from_format(format),
        src_corner: (image_extent[0] as i32, image_extent[1] as i32, 1),
        dst_corner: (surface_extent.0 as i32, surface_extent.1 as i32, 1),
        layer_count: REMAINING_ARRAY_LAYERS,
    }
}

} // verus!
