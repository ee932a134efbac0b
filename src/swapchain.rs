use vstd::prelude::*;

verus! {

/// The swapchain-dependent state: the surface size and, for each
/// presentable image, its image, view and framebuffer handles, plus the
/// render pass they were built against. Handles are the device's 64-bit
/// object handles.
#[derive(Debug)]
pub struct Vw {
    pub width: u32,
    pub height: u32,
    /// 1 for single buffering, 2 for double buffering; fixed when the
    /// device is first queried.
    pub image_count: u32,
    pub present_images: Vec<u64>,
    pub present_image_views: Vec<u64>,
    pub frame_buffers: Vec<u64>,
    pub render_pass: u64,
}

impl Vw {
    pub open spec fn wf(self) -> bool {
        &&& self.image_count >= 1
        &&& self.present_images@.len() == self.image_count
        &&& self.present_image_views@.len() == self.image_count
        &&& self.frame_buffers@.len() == self.image_count
    }

    /// Whether `handle` is one of the image, view, framebuffer or render
    /// pass handles of this swapchain.
    pub open spec fn owns(self, handle: u64) -> bool {
        ||| self.present_images@.contains(handle)
        ||| self.present_image_views@.contains(handle)
        ||| self.frame_buffers@.contains(handle)
        ||| self.render_pass == handle
    }

    /// Collects a freshly built swapchain. Every per-image array must hold
    /// one handle per presentable image.
    pub fn new(
        width: u32,
        height: u32,
        present_images: Vec<u64>,
        present_image_views: Vec<u64>,
        frame_buffers: Vec<u64>,
        render_pass: u64,
    ) -> (r: Vw)
        requires
            1 <= present_images@.len() <= u32::MAX,
            present_image_views@.len() == present_images@.len(),
            frame_buffers@.len() == present_images@.len(),
        ensures
            r.wf(),
            r.width == width,
            r.height == height,
            r.image_count == present_images@.len(),
            r.present_images == present_images,
            r.present_image_views == present_image_views,
            r.frame_buffers == frame_buffers,
            r.render_pass == render_pass,
    {
        let image_count = present_images.len() as u32;
        Vw { width, height, image_count, present_images, present_image_views, frame_buffers, render_pass }
    }
}

} // verus!
