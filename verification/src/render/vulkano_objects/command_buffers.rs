use vstd::prelude::*;
use crate::render::vulkano_objects::buffers::{
    index_lists, index_offset, instance_offset, lemma_flatten_keeps_lists,
    lemma_index_offset_monotonic, lemma_instance_offset_monotonic, lemma_offsets_of_models,
    lemma_vertex_offset_monotonic, lengths_of, total_len, vertex_lists, vertex_offset, Buffers,
    MainBuffersView, ModelData,
};
use crate::render::vulkano_objects::framebuffers::Framebuffer;
use crate::render::vulkano_objects::pipeline::GraphicsPipeline;

verus! {

/// One indexed, instanced draw: which indices, which vertices and which
/// instances of the shared buffers it reads.
#[derive(Clone, Copy, Debug, PartialEq, Eq, Structural)]
pub struct DrawIndexed {
    pub index_count: u32,
    pub instance_count: u32,
    pub first_index: u32,
    pub vertex_offset: i32,
    pub first_instance: u32,
}

/// The commands recorded for one frame slot: into which target they draw,
/// with which pipeline, and the draws, one per model.
pub struct CommandSequence {
    pub framebuffer: Framebuffer,
    pub pipeline: GraphicsPipeline,
    pub draws: Vec<DrawIndexed>,
}

/// The contents of a [`CommandSequence`].
pub struct CommandSequenceView {
    pub framebuffer: Framebuffer,
    pub pipeline: GraphicsPipeline,
    pub draws: Seq<DrawIndexed>,
}

impl View for CommandSequence {
    type V = CommandSequenceView;

    open spec fn view(&self) -> CommandSequenceView {
        CommandSequenceView {
            framebuffer: self.framebuffer,
            pipeline: self.pipeline,
            draws: self.draws@,
        }
    }
}

/// How many models get a draw: those that have both lengths and an instance
/// count.
pub open spec fn draw_count(model_lengths: Seq<(u32, i32)>, instance_counts: Seq<u32>) -> nat {
    if model_lengths.len() <= instance_counts.len() {
        model_lengths.len()
    } else {
        instance_counts.len()
    }
}

/// The draw of model `k`: all of its indices, as many instances as the scene
/// has of it, each starting where the models before it end.
pub open spec fn draw_call(
    model_lengths: Seq<(u32, i32)>,
    instance_counts: Seq<u32>,
    k: int,
) -> DrawIndexed {
    DrawIndexed {
        index_count: model_lengths[k].0,
        instance_count: instance_counts[k],
        first_index: index_offset(model_lengths, k) as u32,
        vertex_offset: vertex_offset(model_lengths, k) as i32,
        first_instance: instance_offset(instance_counts, k) as u32,
    }
}

/// The draws of a command sequence: one per model, in registration order.
pub open spec fn draw_calls(model_lengths: Seq<(u32, i32)>, instance_counts: Seq<u32>) -> Seq<
    DrawIndexed,
> {
    Seq::new(
        draw_count(model_lengths, instance_counts),
        |k: int| draw_call(model_lengths, instance_counts, k),
    )
}

/// The command sequences for `framebuffers`: one per target, all with the same
/// pipeline and the same draws.
pub open spec fn main_sequences(
    pipeline: GraphicsPipeline,
    framebuffers: Seq<Framebuffer>,
    model_lengths: Seq<(u32, i32)>,
    instance_counts: Seq<u32>,
) -> Seq<CommandSequenceView> {
    Seq::new(
        framebuffers.len(),
        |i: int|
            CommandSequenceView {
                framebuffer: framebuffers[i],
                pipeline,
                draws: draw_calls(model_lengths, instance_counts),
            },
    )
}

/// The views of `sequences`, in order.
pub open spec fn sequence_views(sequences: Seq<CommandSequence>) -> Seq<CommandSequenceView> {
    Seq::new(sequences.len(), |i: int| sequences[i]@)
}

/// Whether the instances that the draws read can be counted in `u32`.
pub open spec fn instance_counts_fit(
    model_lengths: Seq<(u32, i32)>,
    instance_counts: Seq<u32>,
) -> bool {
    instance_offset(instance_counts, draw_count(model_lengths, instance_counts) as int) <= u32::MAX
}

/// The draws of one command sequence.
fn record_draws(model_lengths: &Vec<(u32, i32)>, instance_count_per_model: &Vec<u32>) -> (draws:
    Vec<DrawIndexed>)
    requires
        forall|k: int| 0 <= k < model_lengths@.len() ==> (#[trigger] model_lengths@[k]).1 >= 0,
        index_offset(model_lengths@, model_lengths@.len() as int) <= u32::MAX,
        vertex_offset(model_lengths@, model_lengths@.len() as int) <= i32::MAX,
        instance_counts_fit(model_lengths@, instance_count_per_model@),
    ensures
        draws@ == draw_calls(model_lengths@, instance_count_per_model@),
{
    let count: usize = if model_lengths.len() <= instance_count_per_model.len() {
        model_lengths.len()
    } else {
        instance_count_per_model.len()
    };
    let mut draws: Vec<DrawIndexed> = Vec::new();
    let mut index_offset_now: u32 = 0;
    let mut vertex_offset_now: i32 = 0;
    let mut instance_offset_now: u32 = 0;
    let mut k: usize = 0;
    while k < count
        invariant
            k <= count,
            count == draw_count(model_lengths@, instance_count_per_model@),
            forall|m: int| 0 <= m < model_lengths@.len() ==> (#[trigger] model_lengths@[m]).1 >= 0,
            index_offset(model_lengths@, model_lengths@.len() as int) <= u32::MAX,
            vertex_offset(model_lengths@, model_lengths@.len() as int) <= i32::MAX,
            instance_offset(instance_count_per_model@, count as int) <= u32::MAX,
            index_offset_now == index_offset(model_lengths@, k as int),
            vertex_offset_now == vertex_offset(model_lengths@, k as int),
            instance_offset_now == instance_offset(instance_count_per_model@, k as int),
            draws@.len() == k,
            forall|m: int|
                0 <= m < k ==> #[trigger] draws@[m] == draw_call(
                    model_lengths@,
                    instance_count_per_model@,
                    m,
                ),
        decreases count - k,
    {
        let index_len: u32 = model_lengths[k].0;
        let vertex_len: i32 = model_lengths[k].1;
        let instance_count: u32 = instance_count_per_model[k];
        draws.push(
            DrawIndexed {
                index_count: index_len,
                instance_count,
                first_index: index_offset_now,
                vertex_offset: vertex_offset_now,
                first_instance: instance_offset_now,
            },
        );
        proof {
            lemma_index_offset_monotonic(
                model_lengths@,
                k as int + 1,
                model_lengths@.len() as int,
            );
            lemma_vertex_offset_monotonic(
                model_lengths@,
                k as int + 1,
                model_lengths@.len() as int,
            );
            lemma_instance_offset_monotonic(instance_count_per_model@, k as int + 1, count as int);
        }
        index_offset_now = index_offset_now + index_len;
        vertex_offset_now = vertex_offset_now + vertex_len;
        instance_offset_now = instance_offset_now + instance_count;
        k = k + 1;
    }
    assert(draws@ =~= draw_calls(model_lengths@, instance_count_per_model@));
    draws
}

/// A copy of `draws`.
fn copy_draws(draws: &Vec<DrawIndexed>) -> (copy: Vec<DrawIndexed>)
    ensures
        copy@ == draws@,
{
    let mut copy: Vec<DrawIndexed> = Vec::new();
    let mut k: usize = 0;
    while k < draws.len()
        invariant
            k <= draws.len(),
            copy@ == draws@.subrange(0, k as int),
        decreases draws.len() - k,
    {
        copy.push(draws[k]);
        k = k + 1;
    }
    assert(draws@.subrange(0, draws.len() as int) =~= draws@);
    copy
}

/// Builds the command sequence of every frame slot: one per render target,
/// each drawing every model once, in registration order, with the index,
/// vertex and instance offsets that the models before it leave.
///
/// The instance data of a slot has to be written in that same order, model
/// after model, for each draw to find its own instances.
pub fn create_main<Vert: Copy, Inst: Copy>(
    pipeline: GraphicsPipeline,
    framebuffers: &Vec<Framebuffer>,
    buffers: &Buffers<Vert, Inst>,
    instance_count_per_model: &Vec<u32>,
) -> (sequences: Vec<CommandSequence>)
    requires
        buffers@.wf(),
        instance_counts_fit(buffers@.main.model_lengths, instance_count_per_model@),
    ensures
        sequence_views(sequences@) == main_sequences(
            pipeline,
            framebuffers@,
            buffers@.main.model_lengths,
            instance_count_per_model@,
        ),
{
    let model_lengths = buffers.get_main().model_lengths();
    let draws = record_draws(model_lengths, instance_count_per_model);
    let mut sequences: Vec<CommandSequence> = Vec::new();
    let mut i: usize = 0;
    while i < framebuffers.len()
        invariant
            i <= framebuffers.len(),
            draws@ == draw_calls(buffers@.main.model_lengths, instance_count_per_model@),
            sequences@.len() == i,
            forall|m: int|
                0 <= m < i ==> (#[trigger] sequences@[m])@ == (CommandSequenceView {
                    framebuffer: framebuffers@[m],
                    pipeline,
                    draws: draw_calls(buffers@.main.model_lengths, instance_count_per_model@),
                }),
        decreases framebuffers.len() - i,
    {
        sequences.push(
            CommandSequence { framebuffer: framebuffers[i], pipeline, draws: copy_draws(&draws) },
        );
        i = i + 1;
    }
    assert(sequence_views(sequences@) =~= main_sequences(
        pipeline,
        framebuffers@,
        buffers@.main.model_lengths,
        instance_count_per_model@,
    ));
    sequences
}

/// The instances that `draw` reads from `region`.
pub open spec fn instances_read<Inst>(region: Seq<Inst>, draw: DrawIndexed) -> Seq<Inst> {
    region.subrange(draw.first_instance as int, draw.first_instance + draw.instance_count)
}

/// The instances that the first `k` of `draws` read from `region`, draw after
/// draw.
pub open spec fn instances_read_by<Inst>(
    region: Seq<Inst>,
    draws: Seq<DrawIndexed>,
    k: int,
) -> Seq<Inst>
    decreases k,
{
    if k <= 0 {
        Seq::<Inst>::empty()
    } else {
        instances_read_by(region, draws, k - 1) + instances_read(region, draws[k - 1])
    }
}

/// The indices that `draw` reads from the shared index buffer.
pub open spec fn indices_read(index: Seq<u16>, draw: DrawIndexed) -> Seq<u16> {
    index.subrange(draw.first_index as int, draw.first_index + draw.index_count)
}

/// The bytes that instance `instance` takes up in a region whose instances
/// are `stride` bytes each: from the first of the pair up to, not including,
/// the second.
pub open spec fn instance_bytes(instance: int, stride: int) -> (int, int) {
    (instance * stride, (instance + 1) * stride)
}

/// Every draw starts where the one before it ends: each offset of a draw is
/// the offset of the draw before it plus that draw's count.
pub proof fn lemma_draws_are_contiguous(
    model_lengths: Seq<(u32, i32)>,
    instance_counts: Seq<u32>,
    k: int,
)
    requires
        forall|m: int| 0 <= m < model_lengths.len() ==> (#[trigger] model_lengths[m]).1 >= 0,
        index_offset(model_lengths, model_lengths.len() as int) <= u32::MAX,
        vertex_offset(model_lengths, model_lengths.len() as int) <= i32::MAX,
        instance_counts_fit(model_lengths, instance_counts),
        0 <= k < draw_count(model_lengths, instance_counts),
    ensures
        draw_calls(model_lengths, instance_counts)[k].first_index == index_offset(model_lengths, k),
        draw_calls(model_lengths, instance_counts)[k].vertex_offset == vertex_offset(
            model_lengths,
            k,
        ),
        draw_calls(model_lengths, instance_counts)[k].first_instance == instance_offset(
            instance_counts,
            k,
        ),
        k == 0 ==> {
            let first = draw_calls(model_lengths, instance_counts)[0];
            first.first_index == 0 && first.vertex_offset == 0 && first.first_instance == 0
        },
        k > 0 ==> {
            let before = draw_calls(model_lengths, instance_counts)[k - 1];
            let draw = draw_calls(model_lengths, instance_counts)[k];
            &&& draw.first_index == before.first_index + before.index_count
            &&& draw.vertex_offset == before.vertex_offset + model_lengths[k - 1].1
            &&& draw.first_instance == before.first_instance + before.instance_count
        },
{
    let count = draw_count(model_lengths, instance_counts) as int;
    lemma_index_offset_monotonic(model_lengths, k, model_lengths.len() as int);
    lemma_vertex_offset_monotonic(model_lengths, k, model_lengths.len() as int);
    lemma_instance_offset_monotonic(instance_counts, k, count);
    if k > 0 {
        lemma_index_offset_monotonic(model_lengths, k - 1, model_lengths.len() as int);
        lemma_vertex_offset_monotonic(model_lengths, k - 1, model_lengths.len() as int);
        lemma_instance_offset_monotonic(instance_counts, k - 1, count);
    }
}

/// No two draws read the same instance, nor the same index: a draw ends
/// before any later draw starts.
pub proof fn lemma_draws_do_not_overlap(
    model_lengths: Seq<(u32, i32)>,
    instance_counts: Seq<u32>,
    j: int,
    k: int,
)
    requires
        forall|m: int| 0 <= m < model_lengths.len() ==> (#[trigger] model_lengths[m]).1 >= 0,
        index_offset(model_lengths, model_lengths.len() as int) <= u32::MAX,
        vertex_offset(model_lengths, model_lengths.len() as int) <= i32::MAX,
        instance_counts_fit(model_lengths, instance_counts),
        0 <= j < k < draw_count(model_lengths, instance_counts),
    ensures
        ({
            let earlier = draw_calls(model_lengths, instance_counts)[j];
            let later = draw_calls(model_lengths, instance_counts)[k];
            &&& earlier.first_instance + earlier.instance_count <= later.first_instance
            &&& earlier.first_index + earlier.index_count <= later.first_index
        }),
{
    lemma_draws_are_contiguous(model_lengths, instance_counts, j);
    lemma_draws_are_contiguous(model_lengths, instance_counts, k);
    lemma_instance_offset_monotonic(instance_counts, j + 1, k);
    lemma_index_offset_monotonic(model_lengths, j + 1, k);
}

/// Draw after draw, the draws read a region from its start, leaving nothing
/// out and nothing twice: the first `k` draws together read exactly the
/// instances before the offset of draw `k`, in the order of the region.
pub proof fn lemma_draws_read_region_in_order<Inst>(
    region: Seq<Inst>,
    model_lengths: Seq<(u32, i32)>,
    instance_counts: Seq<u32>,
    k: int,
)
    requires
        forall|m: int| 0 <= m < model_lengths.len() ==> (#[trigger] model_lengths[m]).1 >= 0,
        index_offset(model_lengths, model_lengths.len() as int) <= u32::MAX,
        vertex_offset(model_lengths, model_lengths.len() as int) <= i32::MAX,
        instance_counts_fit(model_lengths, instance_counts),
        0 <= k <= draw_count(model_lengths, instance_counts),
        instance_offset(instance_counts, k) <= region.len(),
    ensures
        instances_read_by(region, draw_calls(model_lengths, instance_counts), k)
            == region.subrange(0, instance_offset(instance_counts, k)),
    decreases k,
{
    let draws = draw_calls(model_lengths, instance_counts);
    if k > 0 {
        lemma_instance_offset_monotonic(instance_counts, k - 1, k);
        lemma_draws_read_region_in_order(region, model_lengths, instance_counts, k - 1);
        lemma_draws_are_contiguous(model_lengths, instance_counts, k - 1);
        assert(region.subrange(0, instance_offset(instance_counts, k)) =~= region.subrange(
            0,
            instance_offset(instance_counts, k - 1),
        ) + instances_read(region, draws[k - 1]));
    } else {
        assert(region.subrange(0, 0) =~= Seq::<Inst>::empty());
    }
}

/// Two instances never share a byte of a region.
pub proof fn lemma_instances_do_not_share_bytes(j: int, k: int, stride: int)
    requires
        0 <= j < k,
        0 < stride,
    ensures
        0 <= instance_bytes(j, stride).0 < instance_bytes(j, stride).1 <= instance_bytes(
            k,
            stride,
        ).0,
        instance_bytes(j, stride).1 - instance_bytes(j, stride).0 == stride,
{
    assert(0 <= j * stride < (j + 1) * stride <= k * stride && (j + 1) * stride - j * stride
        == stride) by (nonlinear_arith)
        requires
            0 <= j < k,
            0 < stride,
    ;
}

/// The draw of a model reads that model's indices and no others from the
/// shared index buffer, and its vertex offset is where the model's vertices
/// lie in the shared vertex buffer.
pub proof fn lemma_draw_reads_its_model<Vert>(
    models: Seq<ModelData<Vert>>,
    instance_counts: Seq<u32>,
    k: int,
)
    requires
        total_len(index_lists(models), models.len() as int) <= u32::MAX,
        total_len(vertex_lists(models), models.len() as int) <= i32::MAX,
        instance_counts_fit(lengths_of(models), instance_counts),
        0 <= k < draw_count(lengths_of(models), instance_counts),
    ensures
        ({
            let buffers = MainBuffersView::of_models(models, 0);
            let draw = draw_calls(lengths_of(models), instance_counts)[k];
            &&& indices_read(buffers.index, draw) == models[k].indices@
            &&& buffers.vertex.subrange(
                draw.vertex_offset as int,
                draw.vertex_offset + models[k].vertices@.len(),
            ) == models[k].vertices@
        }),
{
    let n = models.len() as int;
    lemma_offsets_of_models(models, n);
    lemma_offsets_of_models(models, k);
    lemma_offsets_of_models(models, k + 1);
    assert forall|m: int| 0 <= m < n implies (#[trigger] lengths_of(models)[m]).1 >= 0 by {
        lemma_offsets_of_models(models, m);
    }
    lemma_draws_are_contiguous(lengths_of(models), instance_counts, k);
    lemma_flatten_keeps_lists(index_lists(models), k);
    lemma_flatten_keeps_lists(vertex_lists(models), k);
}

} // verus!
