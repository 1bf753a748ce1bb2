use vstd::prelude::*;
use crate::render::vulkano_objects::framebuffers::Extent;

verus! {

/// What the renderer asks of a new swapchain.
#[derive(Clone, Copy, Debug, PartialEq, Eq, Structural)]
pub struct SwapchainRequest {
    /// The least number of images that the swapchain may have.
    pub min_image_count: u32,
    /// Size of the images.
    pub image_extent: Extent,
}

/// The request for the first swapchain of a surface that needs at least
/// `supported_min_image_count` images, in a window of size `window_size`: one
/// image more than the surface needs, so that one can be drawn to while the
/// others are shown or wait, and images of the size of the window.
pub fn create(supported_min_image_count: u32, window_size: Extent) -> (request: SwapchainRequest)
    requires
        supported_min_image_count < u32::MAX,
    ensures
        request == (SwapchainRequest {
            min_image_count: (supported_min_image_count + 1) as u32,
            image_extent: window_size,
        }),
{
    SwapchainRequest { min_image_count: supported_min_image_count + 1, image_extent: window_size }
}

} // verus!
