use vstd::prelude::*;
use crate::render::vulkano_objects::framebuffers::Extent;

verus! {

/// The graphics pipeline, as far as the renderer has to tell one from
/// another: the viewport is fixed in it, so a new window size needs a new
/// pipeline.
#[derive(Clone, Copy, Debug, PartialEq, Eq, Structural)]
pub struct GraphicsPipeline {
    pub viewport: Extent,
}

/// The pipeline that draws into a viewport of the given size.
pub fn create(viewport: Extent) -> (pipeline: GraphicsPipeline)
    ensures
        pipeline == (GraphicsPipeline { viewport }),
{
    GraphicsPipeline { viewport }
}

} // verus!
