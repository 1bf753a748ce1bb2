use vstd::prelude::*;

verus! {

/// A size in pixels.
#[derive(Clone, Copy, Debug, PartialEq, Eq, Structural)]
pub struct Extent {
    pub width: u32,
    pub height: u32,
}

/// A render target: one image of the swapchain with the attachments that go
/// with it. Two framebuffers are the same target only if they come from the
/// same generation of the swapchain.
#[derive(Clone, Copy, Debug, PartialEq, Eq, Structural)]
pub struct Framebuffer {
    /// Which image of the swapchain this target draws into.
    pub image_i: usize,
    /// Size of that image.
    pub extent: Extent,
    /// Generation of the swapchain that the image belongs to.
    pub generation: u64,
}

/// The render targets of a swapchain of `image_count` images of size `extent`
/// in its generation `generation`: one per image, in image order.
pub open spec fn framebuffers_of(image_count: nat, extent: Extent, generation: u64) -> Seq<
    Framebuffer,
> {
    Seq::new(image_count, |i: int| Framebuffer { image_i: i as usize, extent, generation })
}

/// One render target for each image of the swapchain.
pub fn create(image_count: usize, extent: Extent, generation: u64) -> (framebuffers: Vec<
    Framebuffer,
>)
    ensures
        framebuffers@ == framebuffers_of(image_count as nat, extent, generation),
{
    let mut framebuffers: Vec<Framebuffer> = Vec::new();
    let mut i: usize = 0;
    while i < image_count
        invariant
            i <= image_count,
            framebuffers@ == framebuffers_of(i as nat, extent, generation),
        decreases image_count - i,
    {
        framebuffers.push(Framebuffer { image_i: i, extent, generation });
        i = i + 1;
        assert(framebuffers@ =~= framebuffers_of(i as nat, extent, generation));
    }
    framebuffers
}

} // verus!
