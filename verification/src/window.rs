use vstd::prelude::*;

verus! {

/// What the renderer keeps of a window between frames: its extent, the
/// swapchain image it holds this frame, and whether it was resized or has a
/// configured surface.
#[derive(Clone, Copy, Debug, PartialEq, Eq, Structural)]
pub struct WindowFrameState {
    pub width: u32,
    pub height: u32,
    pub swapchain_image_index: Option<u32>,
    pub resized: bool,
    pub configured: bool,
}

pub open spec fn at_least_one(x: u32) -> u32 {
    if x >= 1 { x } else { 1 }
}

impl WindowFrameState {
    /// A window seen for the first time, with its physical size, each
    /// dimension at least 1.
    pub fn new(physical_width: u32, physical_height: u32) -> (r: Self)
        ensures
            r == (WindowFrameState {
                width: at_least_one(physical_width),
                height: at_least_one(physical_height),
                swapchain_image_index: None,
                resized: false,
                configured: false,
            }),
    {
        WindowFrameState {
            width: physical_width.max(1),
            height: physical_height.max(1),
            swapchain_image_index: None,
            resized: false,
            configured: false,
        }
    }

    /// Takes the window's size for a new frame: the frame's swapchain image
    /// is dropped, and the window is resized when the extent changed.
    pub fn extract(&mut self, physical_width: u32, physical_height: u32)
        ensures
            final(self).swapchain_image_index is None,
            final(self).resized == (at_least_one(physical_width) != old(self).width
                || at_least_one(physical_height) != old(self).height),
            final(self).width == at_least_one(physical_width),
            final(self).height == at_least_one(physical_height),
            final(self).configured == old(self).configured,
    {
        let width = physical_width.max(1);
        let height = physical_height.max(1);
        self.swapchain_image_index = None;
        self.resized = width != self.width || height != self.height;
        if self.resized {
            self.width = width;
            self.height = height;
        }
    }

    /// Whether the window's surface must be configured: when the surface is
    /// new, or the window was resized. Marks the window configured if so.
    pub fn prepare(&mut self, surface_is_new: bool) -> (r: bool)
        ensures
            r == (surface_is_new || old(self).resized),
            r ==> final(self).configured,
            !r ==> final(self).configured == old(self).configured,
            final(self).width == old(self).width,
            final(self).height == old(self).height,
            final(self).resized == old(self).resized,
            final(self).swapchain_image_index == old(self).swapchain_image_index,
    {
        let configure = surface_is_new || self.resized;
        if configure {
            self.configured = true;
        }
        configure
    }

    /// Records the swapchain image acquired for this frame.
    pub fn set_swapchain_image(&mut self, image_index: u32)
        ensures
            *final(self) == (WindowFrameState { swapchain_image_index: Some(image_index), ..*old(self) }),
    {
        self.swapchain_image_index = Some(image_index);
    }
}

} // verus!
