use vstd::prelude::*;
use crate::render::buffer_container::{
    max_instances, scene_fits_draws, BufferContainer, BufferContainerView,
};
use crate::render::renderable_scene::scene_instances;
use crate::render::swapchain_container::{
    SwapchainContainer, SwapchainContainerView, SwapchainCreationError,
};
use crate::render::vulkano_objects::buffers::{index_lists, total_len, vertex_lists, ModelData};
use crate::render::vulkano_objects::framebuffers::Extent;
use crate::render::vulkano_objects::pipeline;
use crate::render::vulkano_objects::pipeline::GraphicsPipeline;
use crate::scene::{Scene, SceneView};

verus! {

/// A failure of the device that the renderer cannot recover from.
#[derive(Clone, Copy, Debug, PartialEq, Eq, Structural)]
pub enum RenderError {
    /// The swapchain could not be recreated, and not for want of a supported
    /// size.
    RecreateSwapchain,
    /// No image could be acquired, and not because the swapchain is out of
    /// date.
    AcquireNextImage,
}

/// The device objects of the renderer and what changes them. It keeps no
/// fences: in what order these changes and the device's work may happen is the
/// render loop's business.
pub struct Renderer<Vert, Inst> {
    swapchain_container: SwapchainContainer,
    viewport: Extent,
    graphics_pipeline: GraphicsPipeline,
    buffer_container: BufferContainer<Vert, Inst>,
}

/// The contents of a [`Renderer`].
pub struct RendererView<Vert, Inst> {
    pub swapchain_container: SwapchainContainerView,
    pub viewport: Extent,
    pub graphics_pipeline: GraphicsPipeline,
    pub buffer_container: BufferContainerView<Vert, Inst>,
}

impl<Vert, Inst> RendererView<Vert, Inst> {
    /// The swapchain is well formed, the pipeline is the one for the
    /// viewport, there is one instance region and one command sequence per
    /// image, and every command sequence is built for the current pipeline,
    /// the current render targets and the current instance counts.
    pub open spec fn wf(self) -> bool {
        &&& self.swapchain_container.wf()
        &&& self.graphics_pipeline == (GraphicsPipeline { viewport: self.viewport })
        &&& self.buffer_container.wf()
        &&& self.buffer_container.buffers.instance_source_models.len()
            == self.swapchain_container.image_count
        &&& self.buffer_container.built_for(
            self.graphics_pipeline,
            self.swapchain_container.framebuffers,
        )
    }

    /// The renderer for a window of size `window_size` whose swapchain has
    /// `image_count` images: the first generation of the swapchain with
    /// images of the size of the window, a viewport of that size and the
    /// pipeline for it, buffers for `models` with one instance region per
    /// image, and command sequences that draw `scene`.
    pub open spec fn initialize(
        window_size: Extent,
        image_count: nat,
        scene: SceneView<Inst>,
        models: Seq<ModelData<Vert>>,
        generate_cubes: Option<usize>,
        fill: Inst,
    ) -> Self {
        let swapchain_container = SwapchainContainerView::of_generation(
            window_size,
            image_count,
            0,
        );
        let graphics_pipeline = GraphicsPipeline { viewport: window_size };
        RendererView {
            swapchain_container,
            viewport: window_size,
            graphics_pipeline,
            buffer_container: BufferContainerView::new(
                graphics_pipeline,
                swapchain_container.framebuffers,
                scene,
                models,
                generate_cubes,
                fill,
            ),
        }
    }

    /// How many frame slots there are: one per image of the swapchain.
    pub open spec fn image_count(self) -> nat {
        self.swapchain_container.image_count
    }

    /// How many instances a region holds.
    pub open spec fn instance_capacity(self) -> nat {
        self.buffer_container.buffers.main.instance_capacity
    }

    /// This renderer after the device has answered a request for a new
    /// swapchain of the size of the window. With a new swapchain come new
    /// render targets, one instance region per image, and command sequences
    /// rebuilt for the new targets with the instance counts of `scene`.
    pub open spec fn recreate_swapchain(
        self,
        window_size: Extent,
        created: Result<usize, SwapchainCreationError>,
        scene: SceneView<Inst>,
    ) -> Self {
        if created is Ok {
            let swapchain_container = self.swapchain_container.recreate_swapchain(
                window_size,
                created,
            );
            RendererView {
                swapchain_container,
                buffer_container: self.buffer_container.handle_window_resize(
                    self.graphics_pipeline,
                    swapchain_container.framebuffers,
                    scene,
                ),
                ..self
            }
        } else {
            self
        }
    }

    /// This renderer after a resize of the window to `window_size`, the device
    /// having answered the request for a new swapchain of that size.
    ///
    /// Unless the device failed for good, the viewport takes the size of the
    /// window, the pipeline is replaced by one for that viewport, and every
    /// command sequence is rebuilt with the instance counts of `scene`, for
    /// the new render targets if there are any and else for the old.
    pub open spec fn handle_window_resize(
        self,
        window_size: Extent,
        created: Result<usize, SwapchainCreationError>,
        scene: SceneView<Inst>,
    ) -> Self {
        if created == Err::<usize, SwapchainCreationError>(SwapchainCreationError::Other) {
            self
        } else {
            let swapchain_container = self.swapchain_container.recreate_swapchain(
                window_size,
                created,
            );
            let graphics_pipeline = GraphicsPipeline { viewport: window_size };
            RendererView {
                swapchain_container,
                viewport: window_size,
                graphics_pipeline,
                buffer_container: self.buffer_container.handle_window_resize(
                    graphics_pipeline,
                    swapchain_container.framebuffers,
                    scene,
                ),
            }
        }
    }

    /// This renderer once the instance data of `scene` has been written to
    /// the region of slot `buffer_i`.
    pub open spec fn update_buffer_models(self, buffer_i: int, scene: SceneView<Inst>) -> Self {
        RendererView {
            buffer_container: self.buffer_container.update_buffer_models(
                buffer_i,
                scene,
                self.graphics_pipeline,
                self.swapchain_container.framebuffers,
            ),
            ..self
        }
    }
}

impl<Vert, Inst> View for Renderer<Vert, Inst> {
    type V = RendererView<Vert, Inst>;

    closed spec fn view(&self) -> RendererView<Vert, Inst> {
        RendererView {
            swapchain_container: self.swapchain_container@,
            viewport: self.viewport,
            graphics_pipeline: self.graphics_pipeline,
            buffer_container: self.buffer_container@,
        }
    }
}

impl<Vert: Copy, Inst: Copy> Renderer<Vert, Inst> {
    /// The renderer for a window of size `window_size` whose swapchain has
    /// `image_count` images: a viewport and images of the size of the window,
    /// buffers for `models`, and command sequences that draw `scene`.
    pub fn initialize(
        window_size: Extent,
        image_count: usize,
        scene: &Scene<Inst>,
        models: &Vec<ModelData<Vert>>,
        generate_cubes: Option<usize>,
        fill: Inst,
    ) -> (renderer: Self)
        requires
            image_count >= 1,
            total_len(index_lists(models@), models@.len() as int) <= u32::MAX,
            total_len(vertex_lists(models@), models@.len() as int) <= i32::MAX,
            max_instances(generate_cubes) <= usize::MAX,
            scene_fits_draws(scene@),
        ensures
            renderer@.wf(),
            renderer@ == RendererView::initialize(
                window_size,
                image_count as nat,
                scene@,
                models@,
                generate_cubes,
                fill,
            ),
    {
        let swapchain_container = SwapchainContainer::new(window_size, image_count);
        let viewport = window_size;
        let graphics_pipeline = pipeline::create(viewport);
        let buffer_container = BufferContainer::new(
            graphics_pipeline,
            swapchain_container.get_framebuffers(),
            scene,
            models,
            generate_cubes,
            fill,
        );
        Renderer { swapchain_container, viewport, graphics_pipeline, buffer_container }
    }

    /// Takes in what the device answered to a request for a new swapchain of
    /// the size of the window: how many images it has, or why there is none.
    /// Says whether there is a new one. If so, there is one instance region
    /// per image of it, and the command sequences are rebuilt for its render
    /// targets with the instance counts of `scene`.
    pub fn recreate_swapchain(
        &mut self,
        window_size: Extent,
        created: Result<usize, SwapchainCreationError>,
        scene: &Scene<Inst>,
    ) -> (recreated: Result<bool, RenderError>)
        requires
            old(self)@.wf(),
            created matches Ok(image_count) ==> image_count >= 1,
            created is Ok ==> scene_fits_draws(scene@),
        ensures
            final(self)@.wf(),
            final(self)@ == old(self)@.recreate_swapchain(window_size, created, scene@),
            recreated == match created {
                Ok(_) => Ok::<bool, RenderError>(true),
                Err(SwapchainCreationError::ImageExtentNotSupported) => Ok(false),
                Err(SwapchainCreationError::Other) => Err(RenderError::RecreateSwapchain),
            },
    {
        match self.swapchain_container.recreate_swapchain(window_size, created) {
            Ok(true) => {
                self.buffer_container.handle_window_resize(
                    self.graphics_pipeline,
                    self.swapchain_container.get_framebuffers(),
                    scene,
                );
                Ok(true)
            },
            Ok(false) => Ok(false),
            Err(_) => Err(RenderError::RecreateSwapchain),
        }
    }

    /// Recreates the swapchain, the pipeline and everything that depends on
    /// them after a resize of the window to `window_size`, given what the
    /// device answered to the request for a new swapchain of that size: how
    /// many images it has, or why there is none. Says whether there is a new
    /// swapchain.
    pub fn handle_window_resize(
        &mut self,
        window_size: Extent,
        created: Result<usize, SwapchainCreationError>,
        scene: &Scene<Inst>,
    ) -> (recreated: Result<bool, RenderError>)
        requires
            old(self)@.wf(),
            created matches Ok(image_count) ==> image_count >= 1,
            created != Err::<usize, SwapchainCreationError>(SwapchainCreationError::Other)
                ==> scene_fits_draws(scene@),
        ensures
            final(self)@.wf(),
            final(self)@ == old(self)@.handle_window_resize(window_size, created, scene@),
            recreated == match created {
                Ok(_) => Ok::<bool, RenderError>(true),
                Err(SwapchainCreationError::ImageExtentNotSupported) => Ok(false),
                Err(SwapchainCreationError::Other) => Err(RenderError::RecreateSwapchain),
            },
    {
        let recreated = match self.swapchain_container.recreate_swapchain(window_size, created) {
            Ok(recreated) => recreated,
            Err(_) => {
                return Err(RenderError::RecreateSwapchain);
            },
        };
        self.viewport = window_size;
        self.graphics_pipeline = pipeline::create(self.viewport);
        self.buffer_container.handle_window_resize(
            self.graphics_pipeline,
            self.swapchain_container.get_framebuffers(),
            scene,
        );
        Ok(recreated)
    }

    /// How many images the swapchain has, which is how many frame slots
    /// there are.
    pub fn get_image_count(&self) -> (image_count: usize)
        ensures
            image_count == self@.image_count(),
    {
        self.swapchain_container.image_count()
    }

    /// Writes the instance data of `scene` to the region of slot `buffer_i`,
    /// and says whether the command sequences had to be rebuilt for new
    /// instance counts.
    pub fn update_buffer_models(&mut self, buffer_i: usize, scene: &Scene<Inst>) -> (rebuilt: bool)
        requires
            old(self)@.wf(),
            buffer_i < old(self)@.image_count(),
            scene_instances(scene@).len() <= old(self)@.instance_capacity(),
            scene_fits_draws(scene@),
        ensures
            final(self)@.wf(),
            final(self)@ == old(self)@.update_buffer_models(buffer_i as int, scene@),
            rebuilt == (final(self)@.buffer_container.instance_count_per_model_cache != old(
                self,
            )@.buffer_container.instance_count_per_model_cache),
    {
        self.buffer_container.update_buffer_models(
            buffer_i,
            scene,
            self.graphics_pipeline,
            self.swapchain_container.get_framebuffers(),
        )
    }

    /// Everything that depends on the swapchain.
    pub fn swapchain_container(&self) -> (swapchain_container: &SwapchainContainer)
        ensures
            swapchain_container@ == self@.swapchain_container,
    {
        &self.swapchain_container
    }

    /// The buffers and the command sequences that read them.
    pub fn buffer_container(&self) -> (buffer_container: &BufferContainer<Vert, Inst>)
        ensures
            buffer_container@ == self@.buffer_container,
    {
        &self.buffer_container
    }

    /// Size of the viewport that the pipeline draws into.
    pub fn viewport(&self) -> (viewport: Extent)
        ensures
            viewport == self@.viewport,
    {
        self.viewport
    }

    /// The graphics pipeline.
    pub fn graphics_pipeline(&self) -> (graphics_pipeline: GraphicsPipeline)
        ensures
            graphics_pipeline == self@.graphics_pipeline,
    {
        self.graphics_pipeline
    }
}

} // verus!
