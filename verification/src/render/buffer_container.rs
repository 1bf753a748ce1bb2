use vstd::prelude::*;
use crate::render::renderable_scene::{
    instances_of, registered_models, scene_instance_counts, scene_instances, RenderableScene,
};
use crate::render::vulkano_objects::buffers::{
    index_lists, index_offset, instance_offset, lemma_instance_offset_monotonic, lengths_of,
    overwritten, total_len, vertex_lists, vertex_offset, Buffers, BuffersView, MainBuffersView,
    ModelData,
};
use crate::render::vulkano_objects::command_buffers;
use crate::render::vulkano_objects::command_buffers::{
    draw_calls, draw_count, instance_counts_fit, instances_read, instances_read_by,
    lemma_draws_are_contiguous, lemma_draws_read_region_in_order, main_sequences, sequence_views,
    CommandSequence, CommandSequenceView,
};
use crate::render::vulkano_objects::framebuffers::Framebuffer;
use crate::render::vulkano_objects::pipeline::GraphicsPipeline;
use crate::scene::{Scene, SceneView};

verus! {

/// The command sequences of the renderer, one per frame slot.
pub struct CommandBuffers {
    pub main: Vec<CommandSequence>,
}

impl View for CommandBuffers {
    type V = Seq<CommandSequenceView>;

    open spec fn view(&self) -> Seq<CommandSequenceView> {
        sequence_views(self.main@)
    }
}

impl CommandBuffers {
    /// The command sequences for `framebuffers`.
    pub fn create<Vert: Copy, Inst: Copy>(
        pipeline: GraphicsPipeline,
        framebuffers: &Vec<Framebuffer>,
        buffers: &Buffers<Vert, Inst>,
        instance_count_per_model: &Vec<u32>,
    ) -> (command_buffers: Self)
        requires
            buffers@.wf(),
            instance_counts_fit(buffers@.main.model_lengths, instance_count_per_model@),
        ensures
            command_buffers@ == main_sequences(
                pipeline,
                framebuffers@,
                buffers@.main.model_lengths,
                instance_count_per_model@,
            ),
    {
        let main = command_buffers::create_main(
            pipeline,
            framebuffers,
            buffers,
            instance_count_per_model,
        );
        CommandBuffers { main }
    }

    /// Replaces every command sequence by one built for `framebuffers`.
    pub fn recreate_main<Vert: Copy, Inst: Copy>(
        &mut self,
        pipeline: GraphicsPipeline,
        framebuffers: &Vec<Framebuffer>,
        buffers: &Buffers<Vert, Inst>,
        instance_count_per_model: &Vec<u32>,
    )
        requires
            buffers@.wf(),
            instance_counts_fit(buffers@.main.model_lengths, instance_count_per_model@),
        ensures
            final(self)@ == main_sequences(
                pipeline,
                framebuffers@,
                buffers@.main.model_lengths,
                instance_count_per_model@,
            ),
    {
        self.main = command_buffers::create_main(
            pipeline,
            framebuffers,
            buffers,
            instance_count_per_model,
        );
    }
}

/// Instances that every region has room for, whatever the scene.
pub const BASE_INSTANCES: usize = 256;

/// How many instances a region holds: room for a generated block of
/// `generate_cubes` cubes along each of its three edges, where one is asked
/// for, and [`BASE_INSTANCES`] more.
pub open spec fn max_instances(generate_cubes: Option<usize>) -> int {
    match generate_cubes {
        Some(edge) => edge * edge * edge + BASE_INSTANCES,
        None => BASE_INSTANCES as int,
    }
}

/// The instance counts of `scene` as the draw calls take them.
pub open spec fn draw_instance_counts<Inst>(scene: SceneView<Inst>) -> Seq<u32> {
    seq![scene.cubes.len() as u32, scene.squares.len() as u32]
}

/// Whether `scene` can be drawn at all: a draw call counts instances in
/// `u32`.
pub open spec fn scene_fits_draws<Inst>(scene: SceneView<Inst>) -> bool {
    scene.cubes.len() + scene.squares.len() <= u32::MAX
}

/// A scene that can be drawn has instance counts that fit the draws, whatever
/// the models are.
pub proof fn lemma_scene_counts_fit<Inst>(scene: SceneView<Inst>, model_lengths: Seq<(u32, i32)>)
    requires
        scene_fits_draws(scene),
    ensures
        instance_counts_fit(model_lengths, draw_instance_counts(scene)),
        instance_offset(draw_instance_counts(scene), 2) == scene_instances(scene).len(),
        instance_offset(draw_instance_counts(scene), 1) == scene.cubes.len(),
{
    let counts = draw_instance_counts(scene);
    assert(instance_offset(counts, 0) == 0);
    assert(instance_offset(counts, 1) == scene.cubes.len()) by {
        reveal_with_fuel(instance_offset, 2);
    }
    assert(instance_offset(counts, 2) == scene.cubes.len() + scene.squares.len()) by {
        reveal_with_fuel(instance_offset, 3);
    }
    lemma_instance_offset_monotonic(counts, draw_count(model_lengths, counts) as int, 2);
}

/// Owns the buffers and the command sequences that read them, and keeps the
/// two in step.
pub struct BufferContainer<Vert, Inst> {
    command_buffers: CommandBuffers,
    buffers: Buffers<Vert, Inst>,
    instance_count_per_model_cache: Vec<u32>,
}

/// The contents of a [`BufferContainer`].
pub struct BufferContainerView<Vert, Inst> {
    pub command_buffers: Seq<CommandSequenceView>,
    pub buffers: BuffersView<Vert, Inst>,
    pub instance_count_per_model_cache: Seq<u32>,
}

impl<Vert, Inst> BufferContainerView<Vert, Inst> {
    /// The buffers are well formed and the instance counts fit the draws.
    pub open spec fn wf(self) -> bool {
        &&& self.buffers.wf()
        &&& instance_counts_fit(self.buffers.main.model_lengths, self.instance_count_per_model_cache)
    }

    /// The container for `models` with one instance region per render target
    /// of `framebuffers`, every place of a region holding `fill`, and the
    /// command sequences that draw `scene` into those targets.
    pub open spec fn new(
        pipeline: GraphicsPipeline,
        framebuffers: Seq<Framebuffer>,
        scene: SceneView<Inst>,
        models: Seq<ModelData<Vert>>,
        generate_cubes: Option<usize>,
        fill: Inst,
    ) -> Self {
        BufferContainerView {
            command_buffers: main_sequences(
                pipeline,
                framebuffers,
                lengths_of(models),
                draw_instance_counts(scene),
            ),
            buffers: BuffersView::initialize(
                framebuffers.len(),
                models,
                max_instances(generate_cubes) as nat,
                fill,
            ),
            instance_count_per_model_cache: draw_instance_counts(scene),
        }
    }

    /// The command sequences that belong to these buffers, for the given
    /// pipeline and render targets.
    pub open spec fn sequences_for(
        self,
        pipeline: GraphicsPipeline,
        framebuffers: Seq<Framebuffer>,
    ) -> Seq<CommandSequenceView> {
        main_sequences(
            pipeline,
            framebuffers,
            self.buffers.main.model_lengths,
            self.instance_count_per_model_cache,
        )
    }

    /// Whether every command sequence is the one that belongs to these
    /// buffers for the given pipeline and render targets.
    pub open spec fn built_for(
        self,
        pipeline: GraphicsPipeline,
        framebuffers: Seq<Framebuffer>,
    ) -> bool {
        self.command_buffers == self.sequences_for(pipeline, framebuffers)
    }

    /// This container with every command sequence rebuilt for the given
    /// pipeline and render targets.
    pub open spec fn with_sequences_for(
        self,
        pipeline: GraphicsPipeline,
        framebuffers: Seq<Framebuffer>,
    ) -> Self {
        BufferContainerView {
            command_buffers: self.sequences_for(pipeline, framebuffers),
            ..self
        }
    }

    /// This container after a resize: there is one instance region per
    /// render target, the instance counts are those of `scene` as it is now,
    /// and every command sequence is rebuilt for the given pipeline and render
    /// targets with those counts.
    pub open spec fn handle_window_resize(
        self,
        pipeline: GraphicsPipeline,
        framebuffers: Seq<Framebuffer>,
        scene: SceneView<Inst>,
    ) -> Self {
        BufferContainerView {
            buffers: self.buffers.resized(framebuffers.len()),
            instance_count_per_model_cache: draw_instance_counts(scene),
            ..self
        }.with_sequences_for(pipeline, framebuffers)
    }

    /// This container once the instance data of `scene` has been written to
    /// the region of slot `buffer_i`.
    ///
    /// The region takes the data of every object, in draw order. Where the
    /// scene has other instance counts than the command sequences were built
    /// with, all of them are rebuilt with the new counts.
    pub open spec fn update_buffer_models(
        self,
        buffer_i: int,
        scene: SceneView<Inst>,
        pipeline: GraphicsPipeline,
        framebuffers: Seq<Framebuffer>,
    ) -> Self {
        let written = BufferContainerView {
            buffers: self.buffers.update_instance_source_models(buffer_i, scene_instances(scene)),
            instance_count_per_model_cache: draw_instance_counts(scene),
            ..self
        };
        if draw_instance_counts(scene) == self.instance_count_per_model_cache {
            written
        } else {
            written.with_sequences_for(pipeline, framebuffers)
        }
    }
}

impl<Vert, Inst> View for BufferContainer<Vert, Inst> {
    type V = BufferContainerView<Vert, Inst>;

    closed spec fn view(&self) -> BufferContainerView<Vert, Inst> {
        BufferContainerView {
            command_buffers: self.command_buffers@,
            buffers: self.buffers@,
            instance_count_per_model_cache: self.instance_count_per_model_cache@,
        }
    }
}

/// The instance counts of `scene` as the draw calls take them.
fn count_instances<Inst>(scene: &Scene<Inst>) -> (counts: Vec<u32>)
    requires
        scene_fits_draws(scene@),
    ensures
        counts@ == draw_instance_counts(scene@),
{
    let per_model = RenderableScene::instance_count_per_model(scene);
    let mut counts: Vec<u32> = Vec::new();
    let mut k: usize = 0;
    while k < per_model.len()
        invariant
            k <= per_model.len(),
            per_model@ == scene_instance_counts(scene@),
            scene_fits_draws(scene@),
            counts@.len() == k,
            forall|m: int| 0 <= m < k ==> #[trigger] counts@[m] == per_model@[m] as u32,
        decreases per_model.len() - k,
    {
        counts.push(per_model[k] as u32);
        k = k + 1;
    }
    assert(counts@ =~= draw_instance_counts(scene@));
    counts
}

/// Whether two lists of counts are the same.
fn same_counts(left: &Vec<u32>, right: &Vec<u32>) -> (same: bool)
    ensures
        same == (left@ == right@),
{
    if left.len() != right.len() {
        return false;
    }
    let mut k: usize = 0;
    while k < left.len()
        invariant
            k <= left.len(),
            left.len() == right.len(),
            forall|m: int| 0 <= m < k ==> left@[m] == right@[m],
        decreases left.len() - k,
    {
        if left[k] != right[k] {
            return false;
        }
        k = k + 1;
    }
    assert(left@ =~= right@);
    true
}

impl<Vert: Copy, Inst: Copy> BufferContainer<Vert, Inst> {
    /// Buffers for `models` with one instance region per render target, every
    /// place of it holding `fill`, and the command sequences that draw `scene`
    /// into `framebuffers`.
    pub fn new(
        pipeline: GraphicsPipeline,
        framebuffers: &Vec<Framebuffer>,
        scene: &Scene<Inst>,
        models: &Vec<ModelData<Vert>>,
        generate_cubes: Option<usize>,
        fill: Inst,
    ) -> (container: Self)
        requires
            total_len(index_lists(models@), models@.len() as int) <= u32::MAX,
            total_len(vertex_lists(models@), models@.len() as int) <= i32::MAX,
            max_instances(generate_cubes) <= usize::MAX,
            scene_fits_draws(scene@),
        ensures
            container@ == BufferContainerView::new(
                pipeline,
                framebuffers@,
                scene@,
                models@,
                generate_cubes,
                fill,
            ),
            container@.wf(),
            container@.built_for(pipeline, framebuffers@),
    {
        let max_instances: usize = match generate_cubes {
            Some(edge) => {
                assert(edge * edge * edge + BASE_INSTANCES <= usize::MAX);
                assert(0 <= edge * edge <= edge * edge * edge) by (nonlinear_arith)
                    requires
                        0 <= edge,
                ;
                edge * edge * edge + BASE_INSTANCES
            },
            None => BASE_INSTANCES,
        };
        let buffers = Buffers::<Vert, Inst>::initialize(
            framebuffers.len(),
            models,
            max_instances,
            fill,
        );
        let instance_count_per_model = count_instances(scene);
        proof {
            lemma_scene_counts_fit(scene@, buffers@.main.model_lengths);
        }
        let command_buffers = CommandBuffers::create(
            pipeline,
            framebuffers,
            &buffers,
            &instance_count_per_model,
        );
        BufferContainer {
            buffers,
            command_buffers,
            instance_count_per_model_cache: instance_count_per_model,
        }
    }

    /// Rebuilds every command sequence for a new pipeline and new render
    /// targets, with the instance counts that `scene` has now, and makes the
    /// number of instance regions that of the render targets.
    pub fn handle_window_resize(
        &mut self,
        pipeline: GraphicsPipeline,
        framebuffers: &Vec<Framebuffer>,
        scene: &Scene<Inst>,
    )
        requires
            old(self)@.wf(),
            scene_fits_draws(scene@),
        ensures
            final(self)@ == old(self)@.handle_window_resize(pipeline, framebuffers@, scene@),
            final(self)@.wf(),
            final(self)@.built_for(pipeline, framebuffers@),
            final(self)@.buffers.instance_source_models.len() == framebuffers@.len(),
    {
        self.buffers.resize(framebuffers.len());
        self.instance_count_per_model_cache = count_instances(scene);
        proof {
            lemma_scene_counts_fit(scene@, self@.buffers.main.model_lengths);
        }
        self.command_buffers.recreate_main(
            pipeline,
            framebuffers,
            &self.buffers,
            &self.instance_count_per_model_cache,
        )
    }

    /// Writes the instance data of every object of `scene` to the region of
    /// slot `buffer_i`, in draw order, and says whether the command sequences
    /// had to be rebuilt, which they are where the scene has other instance
    /// counts than they were built with.
    ///
    /// Nothing here waits for the device: the caller has made sure that no
    /// submitted work still reads the region, nor, where the sequences are
    /// rebuilt, any of them.
    pub fn update_buffer_models(
        &mut self,
        buffer_i: usize,
        scene: &Scene<Inst>,
        pipeline: GraphicsPipeline,
        framebuffers: &Vec<Framebuffer>,
    ) -> (rebuilt: bool)
        requires
            old(self)@.wf(),
            buffer_i < old(self)@.buffers.instance_source_models.len(),
            scene_instances(scene@).len() <= old(self)@.buffers.main.instance_capacity,
            scene_fits_draws(scene@),
        ensures
            final(self)@ == old(self)@.update_buffer_models(
                buffer_i as int,
                scene@,
                pipeline,
                framebuffers@,
            ),
            final(self)@.wf(),
            rebuilt == (draw_instance_counts(scene@) != old(self)@.instance_count_per_model_cache),
            old(self)@.built_for(pipeline, framebuffers@) ==> final(self)@.built_for(
                pipeline,
                framebuffers@,
            ),
    {
        self.buffers.update_instance_source_models(
            buffer_i,
            RenderableScene::into_matrices(scene),
        );
        let instance_count_per_model = count_instances(scene);
        proof {
            lemma_scene_counts_fit(scene@, self@.buffers.main.model_lengths);
        }
        if same_counts(&instance_count_per_model, &self.instance_count_per_model_cache) {
            false
        } else {
            self.instance_count_per_model_cache = instance_count_per_model;
            self.command_buffers.recreate_main(
                pipeline,
                framebuffers,
                &self.buffers,
                &self.instance_count_per_model_cache,
            );
            true
        }
    }

    /// The command sequences, one per frame slot.
    pub fn command_buffers(&self) -> (command_buffers: &CommandBuffers)
        ensures
            command_buffers@ == self@.command_buffers,
    {
        &self.command_buffers
    }

    /// The buffers.
    pub fn buffers(&self) -> (buffers: &Buffers<Vert, Inst>)
        ensures
            buffers@ == self@.buffers,
    {
        &self.buffers
    }
}

/// Writing the instance data of a scene to a region and then reading what the
/// draws of a command sequence address gives back that data, object by object
/// and in the same order.
///
/// The draw of the cubes reads exactly the cubes and the draw of the squares
/// exactly the squares; the second starts where the first ends, so no
/// instance is read by both; every object lies at the place of its position in
/// draw order; and behind the last object the region is as it was.
pub proof fn lemma_draws_read_what_was_written<Inst>(
    region: Seq<Inst>,
    scene: SceneView<Inst>,
    model_lengths: Seq<(u32, i32)>,
)
    requires
        scene_fits_draws(scene),
        scene_instances(scene).len() <= region.len(),
        model_lengths.len() == registered_models().len(),
        forall|m: int| 0 <= m < model_lengths.len() ==> (#[trigger] model_lengths[m]).1 >= 0,
        index_offset(model_lengths, model_lengths.len() as int) <= u32::MAX,
        vertex_offset(model_lengths, model_lengths.len() as int) <= i32::MAX,
    ensures
        ({
            let written = overwritten(region, scene_instances(scene));
            let draws = draw_calls(model_lengths, draw_instance_counts(scene));
            &&& written.len() == region.len()
            &&& draws.len() == registered_models().len()
            &&& instances_read_by(written, draws, draws.len() as int) == scene_instances(scene)
            &&& instances_read(written, draws[0]) == instances_of(scene, registered_models()[0])
            &&& instances_read(written, draws[1]) == instances_of(scene, registered_models()[1])
            &&& draws[0].first_instance == 0
            &&& draws[0].first_instance + draws[0].instance_count == draws[1].first_instance
            &&& draws[1].first_instance + draws[1].instance_count == scene_instances(scene).len()
            &&& forall|object: int|
                0 <= object < scene_instances(scene).len() ==> written[object] == scene_instances(
                    scene,
                )[object]
            &&& forall|place: int|
                scene_instances(scene).len() <= place < region.len() ==> written[place]
                    == region[place]
        }),
{
    let data = scene_instances(scene);
    let written = overwritten(region, data);
    let counts = draw_instance_counts(scene);
    let draws = draw_calls(model_lengths, counts);
    lemma_scene_counts_fit(scene, model_lengths);
    lemma_draws_are_contiguous(model_lengths, counts, 0);
    lemma_draws_are_contiguous(model_lengths, counts, 1);
    lemma_draws_read_region_in_order(written, model_lengths, counts, 2);
    assert(written.subrange(0, data.len() as int) =~= data);
    assert(instances_read(written, draws[0]) =~= scene.cubes);
    assert(instances_read(written, draws[1]) =~= scene.squares);
}

/// Once the instance data of a scene has been written for a frame slot, the
/// command sequence of that slot draws exactly that scene.
///
/// Take a container whose command sequences are built for its buffers, with
/// the registered models, and write `scene` to the region of slot
/// `buffer_i`. Then the draws of that slot's command sequence, taken in
/// order, read from the region the instance data of every object of the
/// scene, in scene order, each instance once.
pub proof fn lemma_written_scene_is_drawn<Vert, Inst>(
    container: BufferContainerView<Vert, Inst>,
    buffer_i: int,
    scene: SceneView<Inst>,
    pipeline: GraphicsPipeline,
    framebuffers: Seq<Framebuffer>,
)
    requires
        container.wf(),
        container.built_for(pipeline, framebuffers),
        container.buffers.main.model_lengths.len() == registered_models().len(),
        container.buffers.instance_source_models.len() == framebuffers.len(),
        0 <= buffer_i < framebuffers.len(),
        scene_fits_draws(scene),
        scene_instances(scene).len() <= container.buffers.main.instance_capacity,
    ensures
        ({
            let written = container.update_buffer_models(buffer_i, scene, pipeline, framebuffers);
            let region = written.buffers.instance_source_models[buffer_i];
            let draws = written.command_buffers[buffer_i].draws;
            &&& written.wf()
            &&& written.built_for(pipeline, framebuffers)
            &&& written.command_buffers[buffer_i].framebuffer == framebuffers[buffer_i]
            &&& draws == draw_calls(
                container.buffers.main.model_lengths,
                draw_instance_counts(scene),
            )
            &&& instances_read_by(region, draws, draws.len() as int) == scene_instances(scene)
            &&& forall|other: int|
                0 <= other < framebuffers.len() && other != buffer_i
                    ==> written.buffers.instance_source_models[other]
                    == container.buffers.instance_source_models[other]
        }),
{
    let region = container.buffers.instance_source_models[buffer_i];
    lemma_scene_counts_fit(scene, container.buffers.main.model_lengths);
    lemma_draws_read_what_was_written(region, scene, container.buffers.main.model_lengths);
}

} // verus!
