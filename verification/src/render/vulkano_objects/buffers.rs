use vstd::prelude::*;

verus! {

/// Geometry of one model: its vertices, and the indices that pick its
/// triangles out of them.
pub struct ModelData<Vert> {
    pub vertices: Vec<Vert>,
    pub indices: Vec<u16>,
}

/// The vertex lists of `models`, one per model, in registration order.
pub open spec fn vertex_lists<Vert>(models: Seq<ModelData<Vert>>) -> Seq<Seq<Vert>> {
    Seq::new(models.len(), |k: int| models[k].vertices@)
}

/// The index lists of `models`, one per model, in registration order.
pub open spec fn index_lists<Vert>(models: Seq<ModelData<Vert>>) -> Seq<Seq<u16>> {
    Seq::new(models.len(), |k: int| models[k].indices@)
}

/// Length of the first `k` lists of `parts` taken together.
pub open spec fn total_len<T>(parts: Seq<Seq<T>>, k: int) -> int
    decreases k,
{
    if k <= 0 {
        0
    } else {
        total_len(parts, k - 1) + parts[k - 1].len()
    }
}

/// The pair of lengths the draw calls need of each model: how many indices it
/// has and how many vertices.
pub open spec fn lengths_of<Vert>(models: Seq<ModelData<Vert>>) -> Seq<(u32, i32)> {
    Seq::new(
        models.len(),
        |k: int| (models[k].indices@.len() as u32, models[k].vertices@.len() as i32),
    )
}

/// Where the indices of model `k` start in the shared index buffer: the index
/// counts of the models before it, added up.
pub open spec fn index_offset(model_lengths: Seq<(u32, i32)>, k: int) -> int
    decreases k,
{
    if k <= 0 {
        0
    } else {
        index_offset(model_lengths, k - 1) + model_lengths[k - 1].0
    }
}

/// Where the vertices of model `k` start in the shared vertex buffer: the
/// vertex counts of the models before it, added up.
pub open spec fn vertex_offset(model_lengths: Seq<(u32, i32)>, k: int) -> int
    decreases k,
{
    if k <= 0 {
        0
    } else {
        vertex_offset(model_lengths, k - 1) + model_lengths[k - 1].1
    }
}

/// Where the instances of model `k` start in an instance region: the instance
/// counts of the models before it, added up.
pub open spec fn instance_offset(instance_counts: Seq<u32>, k: int) -> int
    decreases k,
{
    if k <= 0 {
        0
    } else {
        instance_offset(instance_counts, k - 1) + instance_counts[k - 1]
    }
}

/// Offsets never shrink as models are added.
pub proof fn lemma_index_offset_monotonic(model_lengths: Seq<(u32, i32)>, j: int, k: int)
    requires
        0 <= j <= k,
    ensures
        0 <= index_offset(model_lengths, j) <= index_offset(model_lengths, k),
    decreases k,
{
    if j < k {
        lemma_index_offset_monotonic(model_lengths, j, k - 1);
    } else {
        lemma_index_offset_nonnegative(model_lengths, j);
    }
}

proof fn lemma_index_offset_nonnegative(model_lengths: Seq<(u32, i32)>, k: int)
    ensures
        0 <= index_offset(model_lengths, k),
    decreases k,
{
    if k > 0 {
        lemma_index_offset_nonnegative(model_lengths, k - 1);
    }
}

/// Instance offsets never shrink as models are added.
pub proof fn lemma_instance_offset_monotonic(instance_counts: Seq<u32>, j: int, k: int)
    requires
        0 <= j <= k,
    ensures
        0 <= instance_offset(instance_counts, j) <= instance_offset(instance_counts, k),
    decreases k,
{
    if j < k {
        lemma_instance_offset_monotonic(instance_counts, j, k - 1);
    } else {
        lemma_instance_offset_nonnegative(instance_counts, j);
    }
}

proof fn lemma_instance_offset_nonnegative(instance_counts: Seq<u32>, k: int)
    ensures
        0 <= instance_offset(instance_counts, k),
    decreases k,
{
    if k > 0 {
        lemma_instance_offset_nonnegative(instance_counts, k - 1);
    }
}

/// Vertex offsets never shrink as models are added, where no model claims a
/// negative number of vertices.
pub proof fn lemma_vertex_offset_monotonic(model_lengths: Seq<(u32, i32)>, j: int, k: int)
    requires
        0 <= j <= k <= model_lengths.len(),
        forall|m: int| 0 <= m < model_lengths.len() ==> (#[trigger] model_lengths[m]).1 >= 0,
    ensures
        0 <= vertex_offset(model_lengths, j) <= vertex_offset(model_lengths, k),
    decreases k,
{
    if j < k {
        lemma_vertex_offset_monotonic(model_lengths, j, k - 1);
    } else if k > 0 {
        lemma_vertex_offset_monotonic(model_lengths, j - 1, k - 1);
    }
}

/// The offsets computed from the lengths of `models` are the lengths of their
/// lists added up, as long as those fit the integer types of a draw call.
pub proof fn lemma_offsets_of_models<Vert>(models: Seq<ModelData<Vert>>, k: int)
    requires
        0 <= k <= models.len(),
        total_len(index_lists(models), models.len() as int) <= u32::MAX,
        total_len(vertex_lists(models), models.len() as int) <= i32::MAX,
    ensures
        index_offset(lengths_of(models), k) == total_len(index_lists(models), k),
        vertex_offset(lengths_of(models), k) == total_len(vertex_lists(models), k),
        k < models.len() ==> lengths_of(models)[k].0 == models[k].indices@.len(),
        k < models.len() ==> lengths_of(models)[k].1 == models[k].vertices@.len(),
    decreases k,
{
    lemma_total_len_monotonic(index_lists(models), k, models.len() as int);
    lemma_total_len_monotonic(vertex_lists(models), k, models.len() as int);
    if k < models.len() {
        lemma_total_len_monotonic(index_lists(models), k + 1, models.len() as int);
        lemma_total_len_monotonic(vertex_lists(models), k + 1, models.len() as int);
        lemma_total_len_monotonic(index_lists(models), 0, k);
        lemma_total_len_monotonic(vertex_lists(models), 0, k);
    }
    if k > 0 {
        lemma_offsets_of_models(models, k - 1);
    }
}

/// The total length never shrinks as lists are added.
pub proof fn lemma_total_len_monotonic<T>(parts: Seq<Seq<T>>, j: int, k: int)
    requires
        0 <= j <= k,
    ensures
        0 <= total_len(parts, j) <= total_len(parts, k),
    decreases k,
{
    if j < k {
        lemma_total_len_monotonic(parts, j, k - 1);
    } else if k > 0 {
        lemma_total_len_monotonic(parts, j - 1, k - 1);
    }
}

/// The first `k` lists of `parts` laid end to end are as long as their
/// lengths added up.
pub proof fn lemma_flatten_prefix_len<T>(parts: Seq<Seq<T>>, k: int)
    requires
        0 <= k <= parts.len(),
    ensures
        parts.subrange(0, k).flatten().len() == total_len(parts, k),
        k < parts.len() ==> parts.subrange(0, k + 1).flatten() == parts.subrange(0, k).flatten()
            + parts[k],
    decreases k,
{
    if k == 0 {
        assert(parts.subrange(0, 0) =~= Seq::<Seq<T>>::empty());
    } else {
        lemma_flatten_prefix_len(parts, k - 1);
    }
    if k < parts.len() {
        assert(parts.subrange(0, k + 1) =~= parts.subrange(0, k).push(parts[k]));
        parts.subrange(0, k).lemma_flatten_push(parts[k]);
    }
}

/// Laid end to end, each list keeps its place: list `k` is found in the whole
/// where the lists before it end.
pub proof fn lemma_flatten_keeps_lists<T>(parts: Seq<Seq<T>>, k: int)
    requires
        0 <= k < parts.len(),
    ensures
        total_len(parts, k + 1) <= parts.flatten().len(),
        parts.flatten().subrange(total_len(parts, k), total_len(parts, k + 1)) == parts[k],
{
    let head = parts.subrange(0, k + 1);
    let tail = parts.subrange(k + 1, parts.len() as int);
    assert(parts =~= head + tail);
    vstd::seq_lib::lemma_flatten_concat(head, tail);
    lemma_flatten_prefix_len(parts, k);
    lemma_flatten_prefix_len(parts, k + 1);
    lemma_total_len_monotonic(parts, 0, k);
    assert(parts.flatten().subrange(total_len(parts, k), total_len(parts, k + 1)) =~= parts[k]);
}

/// Appends a copy of every item of `source` to `target`.
fn extend_copied<T: Copy>(target: &mut Vec<T>, source: &Vec<T>)
    ensures
        final(target)@ == old(target)@ + source@,
{
    let mut i: usize = 0;
    while i < source.len()
        invariant
            i <= source.len(),
            target@ == old(target)@ + source@.subrange(0, i as int),
        decreases source.len() - i,
    {
        target.push(source[i]);
        i = i + 1;
    }
    assert(source@.subrange(0, source.len() as int) =~= source@);
}

/// What the draw calls read from: the vertices and indices of all models laid
/// end to end, the size of the instance buffer they share, and the lengths by
/// which a draw call finds its model in them.
pub struct MainBuffers<Vert> {
    vertex: Vec<Vert>,
    index: Vec<u16>,
    instance_capacity: usize,
    model_lengths: Vec<(u32, i32)>,
}

/// The contents of a [`MainBuffers`].
pub struct MainBuffersView<Vert> {
    pub vertex: Seq<Vert>,
    pub index: Seq<u16>,
    pub instance_capacity: nat,
    pub model_lengths: Seq<(u32, i32)>,
}

impl<Vert> MainBuffersView<Vert> {
    /// The lengths describe the two buffers, and every offset a draw call can
    /// be given fits its integer type.
    pub open spec fn wf(self) -> bool {
        &&& forall|k: int|
            0 <= k < self.model_lengths.len() ==> (#[trigger] self.model_lengths[k]).1 >= 0
        &&& index_offset(self.model_lengths, self.model_lengths.len() as int) <= u32::MAX
        &&& vertex_offset(self.model_lengths, self.model_lengths.len() as int) <= i32::MAX
        &&& self.index.len() == index_offset(self.model_lengths, self.model_lengths.len() as int)
        &&& self.vertex.len() == vertex_offset(
            self.model_lengths,
            self.model_lengths.len() as int,
        )
    }

    /// What is built from `models` for `max_instance_count` instances.
    pub open spec fn of_models(models: Seq<ModelData<Vert>>, max_instance_count: nat) -> Self {
        MainBuffersView {
            vertex: vertex_lists(models).flatten(),
            index: index_lists(models).flatten(),
            instance_capacity: max_instance_count,
            model_lengths: lengths_of(models),
        }
    }
}

impl<Vert> View for MainBuffers<Vert> {
    type V = MainBuffersView<Vert>;

    closed spec fn view(&self) -> MainBuffersView<Vert> {
        MainBuffersView {
            vertex: self.vertex@,
            index: self.index@,
            instance_capacity: self.instance_capacity as nat,
            model_lengths: self.model_lengths@,
        }
    }
}

impl<Vert: Copy> MainBuffers<Vert> {
    /// Lays the vertices and the indices of `models` end to end, in
    /// registration order, and notes the lengths of each model.
    ///
    /// A draw call counts indices in `u32` and vertices in `i32`, so all the
    /// indices together and all the vertices together have to fit those.
    pub fn new(models: &Vec<ModelData<Vert>>, max_instance_count: usize) -> (buffers: Self)
        requires
            total_len(index_lists(models@), models@.len() as int) <= u32::MAX,
            total_len(vertex_lists(models@), models@.len() as int) <= i32::MAX,
        ensures
            buffers@ == MainBuffersView::of_models(models@, max_instance_count as nat),
            buffers@.wf(),
    {
        let mut vertex: Vec<Vert> = Vec::new();
        let mut index: Vec<u16> = Vec::new();
        let mut model_lengths: Vec<(u32, i32)> = Vec::new();
        let mut k: usize = 0;
        proof {
            lemma_flatten_prefix_len(vertex_lists(models@), 0);
            lemma_flatten_prefix_len(index_lists(models@), 0);
        }
        while k < models.len()
            invariant
                k <= models.len(),
                total_len(index_lists(models@), models@.len() as int) <= u32::MAX,
                total_len(vertex_lists(models@), models@.len() as int) <= i32::MAX,
                vertex@ == vertex_lists(models@).subrange(0, k as int).flatten(),
                index@ == index_lists(models@).subrange(0, k as int).flatten(),
                model_lengths@ == lengths_of(models@).subrange(0, k as int),
            decreases models.len() - k,
        {
            let model = &models[k];
            proof {
                lemma_offsets_of_models(models@, k as int);
                lemma_flatten_prefix_len(vertex_lists(models@), k as int);
                lemma_flatten_prefix_len(index_lists(models@), k as int);
            }
            extend_copied(&mut vertex, &model.vertices);
            extend_copied(&mut index, &model.indices);
            model_lengths.push((model.indices.len() as u32, model.vertices.len() as i32));
            k = k + 1;
            assert(model_lengths@ =~= lengths_of(models@).subrange(0, k as int));
        }
        proof {
            let n = models@.len() as int;
            assert(vertex_lists(models@).subrange(0, n) =~= vertex_lists(models@));
            assert(index_lists(models@).subrange(0, n) =~= index_lists(models@));
            assert(lengths_of(models@).subrange(0, n) =~= lengths_of(models@));
            lemma_offsets_of_models(models@, n);
            lemma_flatten_prefix_len(vertex_lists(models@), n);
            lemma_flatten_prefix_len(index_lists(models@), n);
            assert forall|m: int| 0 <= m < n implies (#[trigger] lengths_of(models@)[m]).1
                >= 0 by {
                lemma_offsets_of_models(models@, m);
            }
        }
        MainBuffers { vertex, index, instance_capacity: max_instance_count, model_lengths }
    }

    /// All vertices, model after model.
    pub fn vertex(&self) -> (vertex: &Vec<Vert>)
        ensures
            vertex@ == self@.vertex,
    {
        &self.vertex
    }

    /// All indices, model after model.
    pub fn index(&self) -> (index: &Vec<u16>)
        ensures
            index@ == self@.index,
    {
        &self.index
    }

    /// How many instances the shared instance buffer holds.
    pub fn instance_capacity(&self) -> (capacity: usize)
        ensures
            capacity == self@.instance_capacity,
    {
        self.instance_capacity
    }

    /// Index count and vertex count of each model, in registration order.
    pub fn model_lengths(&self) -> (model_lengths: &Vec<(u32, i32)>)
        ensures
            model_lengths@ == self@.model_lengths,
    {
        &self.model_lengths
    }
}

/// What a region holds once `data` has been written to it: `data` in its first
/// places, and behind it what was there before.
pub open spec fn overwritten<Inst>(region: Seq<Inst>, data: Seq<Inst>) -> Seq<Inst>
    recommends
        data.len() <= region.len(),
{
    data + region.subrange(data.len() as int, region.len() as int)
}

/// Copies `data` over the first places of `region`.
fn overwrite<Inst: Copy>(region: &mut Vec<Inst>, data: &Vec<Inst>)
    requires
        data.len() <= old(region).len(),
    ensures
        final(region)@ == overwritten(old(region)@, data@),
{
    let mut i: usize = 0;
    while i < data.len()
        invariant
            i <= data.len() <= region.len(),
            region.len() == old(region).len(),
            region@ == data@.subrange(0, i as int) + old(region)@.subrange(
                i as int,
                old(region).len() as int,
            ),
        decreases data.len() - i,
    {
        region.set(i, data[i]);
        i = i + 1;
        assert(region@ =~= data@.subrange(0, i as int) + old(region)@.subrange(
            i as int,
            old(region).len() as int,
        ));
    }
    assert(data@.subrange(0, data.len() as int) =~= data@);
}

/// A fresh region: `capacity` places, each holding `fill`.
pub open spec fn fresh_region<Inst>(capacity: nat, fill: Inst) -> Seq<Inst> {
    Seq::new(capacity, |place: int| fill)
}

/// A fresh region.
fn new_region<Inst: Copy>(capacity: usize, fill: Inst) -> (region: Vec<Inst>)
    ensures
        region@ == fresh_region(capacity as nat, fill),
{
    let mut region: Vec<Inst> = Vec::new();
    let mut place: usize = 0;
    while place < capacity
        invariant
            place <= capacity,
            region@ == fresh_region(place as nat, fill),
        decreases capacity - place,
    {
        region.push(fill);
        place = place + 1;
        assert(region@ =~= fresh_region(place as nat, fill));
    }
    region
}

/// All buffers of the renderer: those the draw calls read, and one staging
/// region of instance data per frame slot, so that one slot's region can be
/// written while the device still reads another's.
pub struct Buffers<Vert, Inst> {
    main: MainBuffers<Vert>,
    instance_source_models: Vec<Vec<Inst>>,
    fill: Inst,
}

/// The contents of a [`Buffers`].
pub struct BuffersView<Vert, Inst> {
    pub main: MainBuffersView<Vert>,
    pub instance_source_models: Seq<Seq<Inst>>,
    /// What a region holds in every place before anything is written to it.
    pub fill: Inst,
}

impl<Vert, Inst> BuffersView<Vert, Inst> {
    /// The draw buffers are well formed and every region holds as many
    /// instances as the shared instance buffer.
    pub open spec fn wf(self) -> bool {
        &&& self.main.wf()
        &&& forall|i: int|
            0 <= i < self.instance_source_models.len() ==> (
            #[trigger] self.instance_source_models[i]).len() == self.main.instance_capacity
    }

    /// Buffers for `models`, with `buffer_count` fresh regions of
    /// `max_instance_count` places each.
    pub open spec fn initialize(
        buffer_count: nat,
        models: Seq<ModelData<Vert>>,
        max_instance_count: nat,
        fill: Inst,
    ) -> Self {
        BuffersView {
            main: MainBuffersView::of_models(models, max_instance_count),
            instance_source_models: Seq::new(
                buffer_count,
                |i: int| fresh_region(max_instance_count, fill),
            ),
            fill,
        }
    }

    /// These buffers after `data` has been written to the region of slot
    /// `buffer_i`.
    pub open spec fn update_instance_source_models(self, buffer_i: int, data: Seq<Inst>) -> Self {
        BuffersView {
            instance_source_models: self.instance_source_models.update(
                buffer_i,
                overwritten(self.instance_source_models[buffer_i], data),
            ),
            ..self
        }
    }

    /// These buffers with `buffer_count` regions: the regions of the slots
    /// that stay are kept as they are, those of slots that go are dropped, and
    /// every new slot gets a fresh region.
    pub open spec fn resized(self, buffer_count: nat) -> Self {
        BuffersView {
            instance_source_models: Seq::new(
                buffer_count,
                |i: int|
                    if i < self.instance_source_models.len() {
                        self.instance_source_models[i]
                    } else {
                        fresh_region(self.main.instance_capacity, self.fill)
                    },
            ),
            ..self
        }
    }
}

impl<Vert, Inst> View for Buffers<Vert, Inst> {
    type V = BuffersView<Vert, Inst>;

    closed spec fn view(&self) -> BuffersView<Vert, Inst> {
        BuffersView {
            main: self.main@,
            instance_source_models: Seq::new(
                self.instance_source_models@.len(),
                |i: int| self.instance_source_models@[i]@,
            ),
            fill: self.fill,
        }
    }
}

impl<Vert: Copy, Inst: Copy> Buffers<Vert, Inst> {
    /// Buffers for `models`, with `buffer_count` instance regions of
    /// `max_instance_count` places each, every place holding `fill`.
    pub fn initialize(
        buffer_count: usize,
        models: &Vec<ModelData<Vert>>,
        max_instance_count: usize,
        fill: Inst,
    ) -> (buffers: Self)
        requires
            total_len(index_lists(models@), models@.len() as int) <= u32::MAX,
            total_len(vertex_lists(models@), models@.len() as int) <= i32::MAX,
        ensures
            buffers@.wf(),
            buffers@ == BuffersView::initialize(
                buffer_count as nat,
                models@,
                max_instance_count as nat,
                fill,
            ),
    {
        let mut instance_source_models: Vec<Vec<Inst>> = Vec::new();
        let mut i: usize = 0;
        while i < buffer_count
            invariant
                i <= buffer_count,
                instance_source_models@.len() == i,
                forall|k: int|
                    0 <= k < i ==> (#[trigger] instance_source_models@[k])@ == fresh_region(
                        max_instance_count as nat,
                        fill,
                    ),
            decreases buffer_count - i,
        {
            instance_source_models.push(new_region(max_instance_count, fill));
            i = i + 1;
        }
        let buffers = Buffers {
            main: MainBuffers::new(models, max_instance_count),
            instance_source_models,
            fill,
        };
        assert(buffers@.instance_source_models =~= Seq::new(
            buffer_count as nat,
            |i: int| fresh_region(max_instance_count as nat, fill),
        ));
        buffers
    }

    /// Writes `data` over the first places of the region of slot `buffer_i`.
    /// What lies behind them stays as it was: a draw call reads no further
    /// than its instance counts reach.
    ///
    /// Nothing here waits for the device. The caller has made sure that no
    /// submitted work still reads this region.
    pub fn update_instance_source_models(&mut self, buffer_i: usize, data: Vec<Inst>)
        requires
            old(self)@.wf(),
            buffer_i < old(self)@.instance_source_models.len(),
            data@.len() <= old(self)@.main.instance_capacity,
        ensures
            final(self)@ == old(self)@.update_instance_source_models(buffer_i as int, data@),
            final(self)@.wf(),
    {
        assert(self@.instance_source_models[buffer_i as int].len() == self@.main.instance_capacity);
        overwrite(&mut self.instance_source_models[buffer_i], &data);
        assert(self@.instance_source_models =~= old(self)@.instance_source_models.update(
            buffer_i as int,
            overwritten(old(self)@.instance_source_models[buffer_i as int], data@),
        ));
    }

    /// Makes the number of regions `buffer_count`, one per frame slot of a
    /// new swapchain. No region that stays is touched.
    pub fn resize(&mut self, buffer_count: usize)
        requires
            old(self)@.wf(),
        ensures
            final(self)@ == old(self)@.resized(buffer_count as nat),
            final(self)@.wf(),
    {
        self.instance_source_models.truncate(buffer_count);
        let capacity: usize = self.main.instance_capacity();
        while self.instance_source_models.len() < buffer_count
            invariant
                self.main == old(self).main,
                self.fill == old(self).fill,
                capacity == old(self)@.main.instance_capacity,
                self.instance_source_models@.len() <= buffer_count,
                self.instance_source_models@.len() == buffer_count
                    || self.instance_source_models@.len() >= old(self)@.instance_source_models.len(),
                forall|i: int|
                    0 <= i < self.instance_source_models@.len() ==> (
                    #[trigger] self.instance_source_models@[i])@ == old(self)@.resized(
                        buffer_count as nat,
                    ).instance_source_models[i],
            decreases buffer_count - self.instance_source_models@.len(),
        {
            self.instance_source_models.push(new_region(capacity, self.fill));
        }
        assert(self@.instance_source_models =~= old(self)@.resized(
            buffer_count as nat,
        ).instance_source_models);
    }

    /// The buffers that the draw calls read.
    pub fn get_main(&self) -> (main: &MainBuffers<Vert>)
        ensures
            main@ == self@.main,
    {
        &self.main
    }

    /// The instance region of slot `buffer_i`.
    pub fn get_instance_source_model(&self, buffer_i: usize) -> (region: &Vec<Inst>)
        requires
            buffer_i < self@.instance_source_models.len(),
        ensures
            region@ == self@.instance_source_models[buffer_i as int],
    {
        &self.instance_source_models[buffer_i]
    }
}

} // verus!
