use vstd::prelude::*;
use crate::render::vulkano_objects::framebuffers;
use crate::render::vulkano_objects::framebuffers::{framebuffers_of, Extent, Framebuffer};

verus! {

/// Why the device did not create a swapchain.
#[derive(Clone, Copy, Debug, PartialEq, Eq, Structural)]
pub enum SwapchainCreationError {
    /// The surface cannot have images of the size asked for, as when the
    /// window is minimised. The next resize will ask again.
    ImageExtentNotSupported,
    /// Anything else. The renderer cannot go on.
    Other,
}

/// The generation after `generation`. Generations only tell one swapchain from
/// the one before it, so the count may start over.
pub open spec fn next_generation(generation: u64) -> u64 {
    if generation == u64::MAX {
        0
    } else {
        (generation + 1) as u64
    }
}

/// Everything that depends on the swapchain: the size and number of its
/// images, and the render targets made of them.
pub struct SwapchainContainer {
    image_extent: Extent,
    image_count: usize,
    generation: u64,
    framebuffers: Vec<Framebuffer>,
}

/// The contents of a [`SwapchainContainer`].
pub struct SwapchainContainerView {
    pub image_extent: Extent,
    pub image_count: nat,
    pub generation: u64,
    /// The render targets, one per image.
    pub framebuffers: Seq<Framebuffer>,
}

impl SwapchainContainerView {
    /// There is at least one image, and the render targets are those of the
    /// current generation, one per image.
    pub open spec fn wf(self) -> bool {
        &&& 1 <= self.image_count <= usize::MAX
        &&& self.framebuffers == framebuffers_of(
            self.image_count,
            self.image_extent,
            self.generation,
        )
    }

    /// The swapchain of generation `generation` with `image_count` images of
    /// size `image_extent`.
    pub open spec fn of_generation(image_extent: Extent, image_count: nat, generation: u64) -> Self {
        SwapchainContainerView {
            image_extent,
            image_count,
            generation,
            framebuffers: framebuffers_of(image_count, image_extent, generation),
        }
    }

    /// This swapchain after the device has answered a request to recreate it
    /// with images of size `image_extent`: with the number of images of the
    /// new swapchain, or with the reason why there is none.
    ///
    /// A new swapchain has images of the size asked for and is a new
    /// generation: every render target made before is void, and there is one
    /// new target for each of its images. Where the size is not supported
    /// nothing changes. On any other failure nothing changes either, and the
    /// renderer stops.
    pub open spec fn recreate_swapchain(
        self,
        image_extent: Extent,
        created: Result<usize, SwapchainCreationError>,
    ) -> Self {
        match created {
            Ok(image_count) => Self::of_generation(
                image_extent,
                image_count as nat,
                next_generation(self.generation),
            ),
            Err(_) => self,
        }
    }
}

impl View for SwapchainContainer {
    type V = SwapchainContainerView;

    closed spec fn view(&self) -> SwapchainContainerView {
        SwapchainContainerView {
            image_extent: self.image_extent,
            image_count: self.image_count as nat,
            generation: self.generation,
            framebuffers: self.framebuffers@,
        }
    }
}

impl SwapchainContainer {
    /// The first generation of a swapchain of `image_count` images of size
    /// `image_extent`.
    pub fn new(image_extent: Extent, image_count: usize) -> (container: Self)
        requires
            image_count >= 1,
        ensures
            container@.wf(),
            container@ == SwapchainContainerView::of_generation(
                image_extent,
                image_count as nat,
                0,
            ),
    {
        SwapchainContainer {
            image_extent,
            image_count,
            generation: 0,
            framebuffers: framebuffers::create(image_count, image_extent, 0),
        }
    }

    /// Takes in what the device answered to a request for a new swapchain with
    /// images of size `image_extent`: how many images the new swapchain has,
    /// or why there is none. Says whether there is a new one.
    ///
    /// A size that the surface does not support is no error: the old
    /// swapchain stays. Any other failure is handed on. A swapchain has at
    /// least one image.
    pub fn recreate_swapchain(
        &mut self,
        image_extent: Extent,
        created: Result<usize, SwapchainCreationError>,
    ) -> (recreated: Result<bool, SwapchainCreationError>)
        requires
            old(self)@.wf(),
            created matches Ok(image_count) ==> image_count >= 1,
        ensures
            final(self)@.wf(),
            final(self)@ == old(self)@.recreate_swapchain(image_extent, created),
            recreated == match created {
                Ok(_) => Ok::<bool, SwapchainCreationError>(true),
                Err(SwapchainCreationError::ImageExtentNotSupported) => Ok(false),
                Err(SwapchainCreationError::Other) => Err(SwapchainCreationError::Other),
            },
    {
        let image_count: usize = match created {
            Ok(image_count) => image_count,
            Err(SwapchainCreationError::ImageExtentNotSupported) => {
                return Ok(false);
            },
            Err(SwapchainCreationError::Other) => {
                return Err(SwapchainCreationError::Other);
            },
        };
        self.image_extent = image_extent;
        self.image_count = image_count;
        self.generation = if self.generation == u64::MAX {
            0
        } else {
            self.generation + 1
        };
        self.framebuffers = framebuffers::create(image_count, image_extent, self.generation);
        Ok(true)
    }

    /// The render targets, one per image.
    pub fn get_framebuffers(&self) -> (framebuffers: &Vec<Framebuffer>)
        ensures
            framebuffers@ == self@.framebuffers,
    {
        &self.framebuffers
    }

    /// How many images the swapchain has.
    pub fn image_count(&self) -> (image_count: usize)
        ensures
            image_count == self@.image_count,
    {
        self.image_count
    }

    /// Size of the images.
    pub fn image_extent(&self) -> (image_extent: Extent)
        ensures
            image_extent == self@.image_extent,
    {
        self.image_extent
    }
}

} // verus!
