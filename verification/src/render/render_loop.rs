use vstd::prelude::*;
use crate::render::buffer_container::{
    draw_instance_counts, lemma_scene_counts_fit, max_instances, scene_fits_draws,
};
use crate::render::renderable_scene::scene_instances;
use crate::render::renderer::{RenderError, Renderer, RendererView};
use crate::render::swapchain_container::SwapchainCreationError;
use crate::render::vulkano_objects::buffers::{index_lists, total_len, vertex_lists, ModelData};
use crate::render::vulkano_objects::command_buffers::draw_calls;
use crate::render::vulkano_objects::framebuffers::Extent;
use crate::scene::{Scene, SceneView};

verus! {

/// Why the device handed out no image.
#[derive(Clone, Copy, Debug, PartialEq, Eq, Structural)]
pub enum AcquireError {
    /// The swapchain no longer matches the surface. It is recreated before
    /// the next frame.
    OutOfDate,
    /// Anything else. The renderer cannot go on.
    Other,
}

/// Why a frame's work was not handed to the device.
#[derive(Clone, Copy, Debug, PartialEq, Eq, Structural)]
pub enum FlushError {
    /// The swapchain no longer matches the surface. It is recreated before
    /// the next frame.
    OutOfDate,
    /// Anything else. The frame is lost and the next one starts afresh.
    Other,
}

/// What a rebuild has replaced.
#[derive(Clone, Copy, Debug, PartialEq, Eq, Structural)]
pub enum Rebuilt {
    /// Nothing: no rebuild was pending.
    Nothing,
    /// The viewport, the pipeline and the command sequences. The swapchain
    /// and its render targets are the old ones: the surface cannot have
    /// images of the size of the window.
    KeptSwapchain,
    /// The swapchain and its render targets, the viewport, the pipeline and
    /// the command sequences.
    NewSwapchain,
}

/// One thing that the caller does with the device for a frame. The actions of
/// a frame are carried out in the order in which they are handed over.
#[derive(Clone, Copy, Debug, PartialEq, Eq, Structural)]
pub enum Action {
    /// Block until the fence recorded for `slot` is signalled.
    WaitFence { slot: usize },
    /// Upload the instance region of `slot`, which has just been written.
    WriteInstanceData { slot: usize },
    /// Record every command sequence anew: they have been rebuilt for new
    /// instance counts.
    RecordCommandBuffers,
    /// Submit the command sequence of `slot` and present its image, after the
    /// acquisition of the image and after the work behind the fence recorded
    /// for `upstream`, or after nothing where there is none. The compute pass
    /// before it covers `instance_count` instances.
    Submit { slot: usize, upstream: Option<usize>, instance_count: usize },
}

/// How many of `fences` are recorded.
pub open spec fn recorded_fences<Fence>(fences: Seq<Option<Fence>>) -> nat
    decreases fences.len(),
{
    if fences.len() == 0 {
        0
    } else {
        recorded_fences(fences.drop_last()) + if fences.last() is Some {
            1nat
        } else {
            0nat
        }
    }
}

/// The waits for the fences recorded for the first `slots` slots, in slot
/// order.
pub open spec fn recorded_waits<Fence>(fences: Seq<Option<Fence>>, slots: int) -> Seq<Action>
    decreases slots,
{
    if slots <= 0 {
        Seq::<Action>::empty()
    } else if fences[slots - 1] is Some {
        recorded_waits(fences, slots - 1).push(Action::WaitFence { slot: (slots - 1) as usize })
    } else {
        recorded_waits(fences, slots - 1)
    }
}

/// What is kept of `items` where there are `count` slots: the items of the
/// slots that stay, and `fresh` for every new slot.
pub open spec fn kept<T>(items: Seq<T>, count: nat, fresh: T) -> Seq<T> {
    Seq::new(
        count,
        |slot: int|
            if slot < items.len() {
                items[slot]
            } else {
                fresh
            },
    )
}

/// Keeps the fences of the frames in flight and decides, frame by frame, in
/// what order the device is waited for, written to and given work.
///
/// There is one frame slot per image of the swapchain, with its own command
/// sequence, instance region and fence, so there are never more frames in
/// flight than images. The caller drives a frame in three steps. Where
/// [`rebuild_pending`] says so, it carries out [`waits_before_rebuild`], asks
/// the device for a new swapchain and calls [`rebuild`]. Then it calls
/// [`update`] with the image that the device handed out, and at last
/// [`frame_flushed`] with what came of the submission.
///
/// [`rebuild`]: RenderLoop::rebuild
/// [`rebuild_pending`]: RenderLoop::rebuild_pending
/// [`waits_before_rebuild`]: RenderLoop::waits_before_rebuild
/// [`update`]: RenderLoop::update
/// [`frame_flushed`]: RenderLoop::frame_flushed
pub struct RenderLoop<Vert, Inst, Fence> {
    renderer: Renderer<Vert, Inst>,
    resize_flagged: bool,
    fences: Vec<Option<Fence>>,
    previous_fence_i: usize,
    update_buffer_models: Vec<bool>,
    never_written: bool,
    submitting: Option<usize>,
}

/// The contents of a [`RenderLoop`].
pub struct RenderLoopView<Vert, Inst, Fence> {
    pub renderer: RendererView<Vert, Inst>,
    /// The window has been resized, or the swapchain was found out of date
    /// or suboptimal: what depends on the size of the window is rebuilt
    /// before the next frame.
    pub resize_flagged: bool,
    /// The fence of the last frame submitted for each slot, if it was
    /// submitted.
    pub fences: Seq<Option<Fence>>,
    /// The slot that the last frame was submitted for.
    pub previous_fence_i: nat,
    /// Which slots have not yet had their instance region written since the
    /// scene last changed.
    pub update_buffer_models: Seq<bool>,
    /// No frame has begun yet, so no instance region has been written: the
    /// first frame writes the region of its slot, whatever the scene says.
    pub never_written: bool,
    /// The slot of the frame whose submission is under way.
    pub submitting: Option<usize>,
}

impl<Vert, Inst, Fence> RenderLoopView<Vert, Inst, Fence> {
    /// How many frame slots there are.
    pub open spec fn slot_count(self) -> nat {
        self.renderer.image_count()
    }

    /// The renderer is well formed, every slot has its place for a fence and
    /// its refresh flag, and the slots named are slots.
    pub open spec fn wf(self) -> bool {
        &&& self.renderer.wf()
        &&& self.fences.len() == self.slot_count()
        &&& self.update_buffer_models.len() == self.slot_count()
        &&& self.previous_fence_i < self.slot_count()
        &&& (self.submitting matches Some(slot) ==> slot < self.slot_count())
    }

    /// The loop of a renderer that has submitted no frame yet and has nothing
    /// to rebuild: no fence is recorded, no slot owes a refresh for a change
    /// of the scene, and nothing has been written.
    pub open spec fn new(renderer: RendererView<Vert, Inst>) -> Self {
        RenderLoopView {
            renderer,
            resize_flagged: false,
            fences: Seq::new(renderer.image_count(), |slot: int| None::<Fence>),
            previous_fence_i: 0,
            update_buffer_models: Seq::new(renderer.image_count(), |slot: int| false),
            never_written: true,
            submitting: None,
        }
    }

    /// This loop once it has been told that the window was resized.
    pub open spec fn handle_window_resize(self) -> Self {
        RenderLoopView { resize_flagged: true, ..self }
    }

    /// What the caller waits for before a rebuild: while one is pending,
    /// every fence that is recorded, in slot order, so that no command
    /// sequence is replaced and no slot given up while the device may still be
    /// working on its frame.
    pub open spec fn waits_before_rebuild(self) -> Seq<Action> {
        if self.resize_flagged {
            recorded_waits(self.fences, self.fences.len() as int)
        } else {
            Seq::<Action>::empty()
        }
    }

    /// This loop after the rebuild that was pending, the device having
    /// answered the request for a new swapchain of the size of the window
    /// with the number of its images, or with the reason why there is none.
    ///
    /// With no rebuild pending nothing changes, and nothing either where the
    /// device failed for good. Else the flag is cleared, whether or not the
    /// device could make a swapchain of that size, and the renderer rebuilds
    /// what depends on the size of the window, with the instance counts that
    /// `scene` has now. There is one frame slot per image of the swapchain as
    /// it is then. A slot that stays keeps its fence and its refresh flag: a
    /// frame submitted before the rebuild is still waited for when its slot
    /// comes up again. A new slot has no fence and owes no refresh. Where
    /// the slot of the previous frame is given up, the first slot takes its
    /// place, and a frame under way for a slot that is given up is forgotten.
    pub open spec fn rebuild(
        self,
        window_size: Extent,
        created: Result<usize, SwapchainCreationError>,
        scene: SceneView<Inst>,
    ) -> Self {
        if !self.resize_flagged || created == Err::<usize, SwapchainCreationError>(
            SwapchainCreationError::Other,
        ) {
            self
        } else {
            let renderer = self.renderer.handle_window_resize(window_size, created, scene);
            RenderLoopView {
                renderer,
                resize_flagged: false,
                fences: kept(self.fences, renderer.image_count(), None::<Fence>),
                previous_fence_i: if self.previous_fence_i < renderer.image_count() {
                    self.previous_fence_i
                } else {
                    0
                },
                update_buffer_models: kept(
                    self.update_buffer_models,
                    renderer.image_count(),
                    false,
                ),
                never_written: self.never_written,
                submitting: match self.submitting {
                    Some(slot) if slot < renderer.image_count() => Some(slot),
                    _ => None,
                },
            }
        }
    }

    /// What the rebuild that is pending replaces, given what the device
    /// answers to the request for a new swapchain.
    pub open spec fn rebuilt(self, created: Result<usize, SwapchainCreationError>) -> Rebuilt {
        if !self.resize_flagged {
            Rebuilt::Nothing
        } else if created is Ok {
            Rebuilt::NewSwapchain
        } else {
            Rebuilt::KeptSwapchain
        }
    }

    /// Whether a frame for the slot `image_i` writes the instance region of
    /// that slot: the scene has changed just now, or it changed earlier and
    /// this slot has not come up since, or this is the first frame of all, at
    /// which nothing has been written yet.
    pub open spec fn refresh_due(self, image_i: int, scene: SceneView<Inst>) -> bool {
        scene.objects_changed || self.update_buffer_models[image_i] || self.never_written
    }

    /// Whether a frame has been submitted before whose fence is still
    /// recorded. Its fence is the join point of the next submission, and to
    /// wait for it is to wait for all the work submitted so far.
    pub open spec fn previous_fence_exists(self) -> bool {
        self.fences[self.previous_fence_i as int] is Some
    }

    /// Whether a frame for the slot `image_i` waits for the previous fence,
    /// and with it for all submitted work: where it writes instance data, and
    /// where the slot has no fence of its own to wait for.
    pub open spec fn drains(self, image_i: int, scene: SceneView<Inst>) -> bool {
        self.previous_fence_exists() && (self.refresh_due(image_i, scene)
            || self.fences[image_i] is None)
    }

    /// The renderer after a frame for the slot `image_i` has begun.
    pub open spec fn renderer_after(self, image_i: int, scene: SceneView<Inst>) -> RendererView<
        Vert,
        Inst,
    > {
        if self.refresh_due(image_i, scene) {
            self.renderer.update_buffer_models(image_i, scene)
        } else {
            self.renderer
        }
    }

    /// Whether a frame for the slot `image_i` rebuilds the command sequences:
    /// it writes instance data, and the scene has other instance counts than
    /// the sequences were built with.
    pub open spec fn records_commands(self, image_i: int, scene: SceneView<Inst>) -> bool {
        self.refresh_due(image_i, scene) && self.renderer_after(
            image_i,
            scene,
        ).buffer_container.instance_count_per_model_cache
            != self.renderer.buffer_container.instance_count_per_model_cache
    }

    /// The submission of a frame for the slot `image_i`.
    pub open spec fn submission(self, image_i: int, scene: SceneView<Inst>) -> Action {
        Action::Submit {
            slot: image_i as usize,
            upstream: if self.previous_fence_exists() {
                Some(self.previous_fence_i as usize)
            } else {
                None
            },
            instance_count: scene.total_object_count as usize,
        }
    }

    /// What the caller does for a frame for the slot `image_i`, in order:
    /// wait for the slot's own fence if it has one; wait for the previous
    /// fence where the frame drains the device; upload the slot's instance
    /// region where it was written, and record the command sequences anew
    /// where they were rebuilt; at last, submit.
    pub open spec fn plan(self, image_i: int, scene: SceneView<Inst>) -> Seq<Action> {
        (if self.fences[image_i] is Some {
            seq![Action::WaitFence { slot: image_i as usize }]
        } else {
            Seq::<Action>::empty()
        }) + (if self.drains(image_i, scene) {
            seq![Action::WaitFence { slot: self.previous_fence_i as usize }]
        } else {
            Seq::<Action>::empty()
        }) + (if self.refresh_due(image_i, scene) {
            seq![Action::WriteInstanceData { slot: image_i as usize }]
        } else {
            Seq::<Action>::empty()
        }) + (if self.records_commands(image_i, scene) {
            seq![Action::RecordCommandBuffers]
        } else {
            Seq::<Action>::empty()
        }) + seq![self.submission(image_i, scene)]
    }

    /// The refresh flags after a frame for the slot `image_i` has begun: a
    /// change of the scene marks every slot, and the slot of the frame, whose
    /// region has been written, is cleared.
    pub open spec fn flags_after(self, image_i: int, scene: SceneView<Inst>) -> Seq<bool> {
        Seq::new(
            self.update_buffer_models.len(),
            |slot: int| slot != image_i && (scene.objects_changed || self.update_buffer_models[slot]),
        )
    }

    /// This loop after the device has answered the request for the next
    /// image.
    ///
    /// With an image in hand a frame for its slot begins. A suboptimal image
    /// is drawn to all the same, and the swapchain is recreated before the
    /// next frame. Where the swapchain is out of date there is no frame, and
    /// it is recreated before the next. On any other failure nothing changes.
    pub open spec fn update(
        self,
        acquired: Result<(usize, bool), AcquireError>,
        scene: SceneView<Inst>,
    ) -> Self {
        match acquired {
            Ok((image_i, suboptimal)) => RenderLoopView {
                renderer: self.renderer_after(image_i as int, scene),
                resize_flagged: self.resize_flagged || suboptimal,
                update_buffer_models: self.flags_after(image_i as int, scene),
                never_written: false,
                submitting: Some(image_i),
                ..self
            },
            Err(AcquireError::OutOfDate) => RenderLoopView { resize_flagged: true, ..self },
            Err(AcquireError::Other) => self,
        }
    }

    /// What the caller does after the device has answered the request for the
    /// next image: the plan of the frame, or nothing where there is no frame.
    pub open spec fn actions(
        self,
        acquired: Result<(usize, bool), AcquireError>,
        scene: SceneView<Inst>,
    ) -> Seq<Action> {
        match acquired {
            Ok((image_i, _)) => self.plan(image_i as int, scene),
            Err(_) => Seq::<Action>::empty(),
        }
    }

    /// This loop after the submission of the frame under way has come back.
    ///
    /// The fence of a submission that went through is recorded for the slot,
    /// in place of the one that the frame waited for. A submission that
    /// failed leaves the slot without a fence, and where it failed because
    /// the swapchain is out of date, the swapchain is recreated before the
    /// next frame. Either way the slot is now the previous one. With no
    /// frame under way nothing changes.
    pub open spec fn frame_flushed(self, flushed: Result<Fence, FlushError>) -> Self {
        match self.submitting {
            Some(image_i) => RenderLoopView {
                resize_flagged: self.resize_flagged || flushed == Err::<Fence, FlushError>(
                    FlushError::OutOfDate,
                ),
                fences: self.fences.update(
                    image_i as int,
                    match flushed {
                        Ok(fence) => Some(fence),
                        Err(_) => None,
                    },
                ),
                previous_fence_i: image_i as nat,
                submitting: None,
                ..self
            },
            None => self,
        }
    }
}

impl<Vert, Inst, Fence> View for RenderLoop<Vert, Inst, Fence> {
    type V = RenderLoopView<Vert, Inst, Fence>;

    closed spec fn view(&self) -> RenderLoopView<Vert, Inst, Fence> {
        RenderLoopView {
            renderer: self.renderer@,
            resize_flagged: self.resize_flagged,
            fences: self.fences@,
            previous_fence_i: self.previous_fence_i as nat,
            update_buffer_models: self.update_buffer_models@,
            never_written: self.never_written,
            submitting: self.submitting,
        }
    }
}

/// Sets every flag.
fn fill_flags(flags: &mut Vec<bool>)
    ensures
        final(flags)@ == Seq::new(old(flags)@.len(), |slot: int| true),
{
    let mut slot: usize = 0;
    while slot < flags.len()
        invariant
            slot <= flags.len(),
            flags.len() == old(flags).len(),
            forall|k: int| 0 <= k < slot ==> flags@[k],
        decreases flags.len() - slot,
    {
        flags.set(slot, true);
        slot = slot + 1;
    }
    assert(flags@ =~= Seq::new(old(flags)@.len(), |slot: int| true));
}

/// Makes the number of flags `count`: those that stay are kept, new ones are
/// down.
fn resize_flags(flags: &mut Vec<bool>, count: usize)
    ensures
        final(flags)@ == kept(old(flags)@, count as nat, false),
{
    flags.truncate(count);
    while flags.len() < count
        invariant
            flags@.len() <= count,
            flags@.len() == count || flags@.len() >= old(flags)@.len(),
            forall|k: int|
                0 <= k < flags@.len() ==> flags@[k] == kept(old(flags)@, count as nat, false)[k],
        decreases count - flags@.len(),
    {
        flags.push(false);
    }
    assert(flags@ =~= kept(old(flags)@, count as nat, false));
}

/// Makes the number of places for a fence `count`: the fences of the slots
/// that stay are kept, new slots have none.
fn resize_fences<Fence>(fences: &mut Vec<Option<Fence>>, count: usize)
    ensures
        final(fences)@ == kept(old(fences)@, count as nat, None::<Fence>),
{
    fences.truncate(count);
    while fences.len() < count
        invariant
            fences@.len() <= count,
            fences@.len() == count || fences@.len() >= old(fences)@.len(),
            forall|k: int|
                0 <= k < fences@.len() ==> fences@[k] == kept(
                    old(fences)@,
                    count as nat,
                    None::<Fence>,
                )[k],
        decreases count - fences@.len(),
    {
        fences.push(None);
    }
    assert(fences@ =~= kept(old(fences)@, count as nat, None::<Fence>));
}

impl<Vert: Copy, Inst: Copy, Fence> RenderLoop<Vert, Inst, Fence> {
    /// A loop for a window of size `window_size` whose swapchain has
    /// `image_count` images, drawing `scene` with `models`. No frame has been
    /// submitted and nothing is to be rebuilt.
    pub fn new(
        window_size: Extent,
        image_count: usize,
        scene: &Scene<Inst>,
        models: &Vec<ModelData<Vert>>,
        generate_cubes: Option<usize>,
        fill: Inst,
    ) -> (render_loop: Self)
        requires
            image_count >= 1,
            total_len(index_lists(models@), models@.len() as int) <= u32::MAX,
            total_len(vertex_lists(models@), models@.len() as int) <= i32::MAX,
            max_instances(generate_cubes) <= usize::MAX,
            scene_fits_draws(scene@),
        ensures
            render_loop@.wf(),
            render_loop@ == RenderLoopView::<Vert, Inst, Fence>::new(
                RendererView::initialize(
                    window_size,
                    image_count as nat,
                    scene@,
                    models@,
                    generate_cubes,
                    fill,
                ),
            ),
    {
        let renderer = Renderer::initialize(
            window_size,
            image_count,
            scene,
            models,
            generate_cubes,
            fill,
        );
        let frames_in_flight: usize = renderer.get_image_count();
        let mut fences: Vec<Option<Fence>> = Vec::new();
        let mut update_buffer_models: Vec<bool> = Vec::new();
        let mut slot: usize = 0;
        while slot < frames_in_flight
            invariant
                slot <= frames_in_flight,
                fences@ == Seq::new(slot as nat, |k: int| None::<Fence>),
                update_buffer_models@ == Seq::new(slot as nat, |k: int| false),
            decreases frames_in_flight - slot,
        {
            fences.push(None);
            update_buffer_models.push(false);
            slot = slot + 1;
            assert(fences@ =~= Seq::new(slot as nat, |k: int| None::<Fence>));
            assert(update_buffer_models@ =~= Seq::new(slot as nat, |k: int| false));
        }
        RenderLoop {
            renderer,
            resize_flagged: false,
            fences,
            previous_fence_i: 0,
            update_buffer_models,
            never_written: true,
            submitting: None,
        }
    }

    /// Notes that the window has been resized. Everything that depends on its
    /// size is rebuilt before the next frame.
    pub fn handle_window_resize(&mut self)
        requires
            old(self)@.wf(),
        ensures
            final(self)@.wf(),
            final(self)@ == old(self)@.handle_window_resize(),
    {
        self.resize_flagged = true;
    }

    /// Whether something has to be rebuilt before the next image is
    /// acquired.
    pub fn rebuild_pending(&self) -> (pending: bool)
        ensures
            pending == self@.resize_flagged,
    {
        self.resize_flagged
    }

    /// The waits that come before a rebuild: while one is pending, one for
    /// every fence that is recorded, in slot order. The caller carries them
    /// out before it asks the device for a new swapchain and before it records
    /// any command sequence anew.
    pub fn waits_before_rebuild(&self) -> (waits: Vec<Action>)
        ensures
            waits@ == self@.waits_before_rebuild(),
    {
        let mut waits: Vec<Action> = Vec::new();
        if self.resize_flagged {
            let mut slot: usize = 0;
            while slot < self.fences.len()
                invariant
                    slot <= self.fences.len(),
                    waits@ == recorded_waits(self.fences@, slot as int),
                decreases self.fences.len() - slot,
            {
                if self.fences[slot].is_some() {
                    waits.push(Action::WaitFence { slot });
                }
                slot = slot + 1;
            }
        }
        waits
    }

    /// Carries out the rebuild that is pending, given the size of the window
    /// and what the device answered to the request for a new swapchain of
    /// that size: how many images it has, or why there is none. `scene` is
    /// the scene as it is now. Says what was replaced.
    ///
    /// With nothing pending, nothing is rebuilt, whatever the device
    /// answered. A size that the surface does not support is no error: what
    /// does not depend on the new swapchain is rebuilt all the same, and the
    /// next resize asks again. Any other failure of the device is handed on
    /// and leaves the loop as it was.
    ///
    /// A swapchain has at least one image, and the scene must fit a draw
    /// call.
    pub fn rebuild(
        &mut self,
        window_size: Extent,
        created: Result<usize, SwapchainCreationError>,
        scene: &Scene<Inst>,
    ) -> (rebuilt: Result<Rebuilt, RenderError>)
        requires
            old(self)@.wf(),
            old(self)@.resize_flagged ==> {
                &&& created matches Ok(image_count) ==> image_count >= 1
                &&& created != Err::<usize, SwapchainCreationError>(SwapchainCreationError::Other)
                    ==> scene_fits_draws(scene@)
            },
        ensures
            final(self)@.wf(),
            final(self)@ == old(self)@.rebuild(window_size, created, scene@),
            rebuilt == if old(self)@.resize_flagged && created == Err::<
                usize,
                SwapchainCreationError,
            >(SwapchainCreationError::Other) {
                Err::<Rebuilt, RenderError>(RenderError::RecreateSwapchain)
            } else {
                Ok(old(self)@.rebuilt(created))
            },
    {
        if !self.resize_flagged {
            return Ok(Rebuilt::Nothing);
        }
        match self.renderer.handle_window_resize(window_size, created, scene) {
            Ok(recreated) => {
                let slots: usize = self.renderer.get_image_count();
                self.resize_flagged = false;
                resize_fences(&mut self.fences, slots);
                resize_flags(&mut self.update_buffer_models, slots);
                if self.previous_fence_i >= slots {
                    self.previous_fence_i = 0;
                }
                self.submitting = match self.submitting {
                    Some(slot) => if slot < slots {
                        Some(slot)
                    } else {
                        None
                    },
                    None => None,
                };
                Ok(
                    if recreated {
                        Rebuilt::NewSwapchain
                    } else {
                        Rebuilt::KeptSwapchain
                    },
                )
            },
            Err(error) => Err(error),
        }
    }

    /// Whether a frame for the slot `image_i` would write the instance region
    /// of that slot.
    pub fn refresh_due(&self, image_i: usize, scene: &Scene<Inst>) -> (due: bool)
        requires
            self@.wf(),
            image_i < self@.slot_count(),
        ensures
            due == self@.refresh_due(image_i as int, scene@),
    {
        scene.objects_changed || self.update_buffer_models[image_i] || self.never_written
    }

    /// Begins a frame, given what the device answered to the request for the
    /// next image: the index of the image and whether it is suboptimal.
    /// Returns what the caller has to do for the frame, in order.
    ///
    /// Where the swapchain is out of date there is no frame and nothing to
    /// do; the swapchain is recreated before the next frame. Any other
    /// failure to acquire an image is handed on.
    ///
    /// The slot of a frame is the index of its image. Before anything else
    /// the frame waits for the fence of the frame submitted for this slot
    /// before it, so a slot never has two frames in flight, and no fence is
    /// touched before the submission has come back. Instance data is written
    /// after that wait and after a wait for the previous fence, which is a
    /// wait for all the work submitted so far. The submission comes last.
    ///
    /// A rebuild that is pending comes first. The index of the image must be
    /// one of a slot, and where the frame writes instance data, the scene
    /// must fit a region and a draw call.
    pub fn update(
        &mut self,
        acquired: Result<(usize, bool), AcquireError>,
        scene: &Scene<Inst>,
    ) -> (plan: Result<Vec<Action>, RenderError>)
        requires
            old(self)@.wf(),
            !old(self)@.resize_flagged,
            acquired matches Ok((image_i, _)) ==> {
                &&& image_i < old(self)@.slot_count()
                &&& old(self)@.refresh_due(image_i as int, scene@) ==> {
                    &&& scene_instances(scene@).len() <= old(self)@.renderer.instance_capacity()
                    &&& scene_fits_draws(scene@)
                }
            },
        ensures
            final(self)@.wf(),
            final(self)@ == old(self)@.update(acquired, scene@),
            acquired == Err::<(usize, bool), AcquireError>(AcquireError::Other) <==> plan is Err,
            plan matches Err(error) ==> error == RenderError::AcquireNextImage,
            plan matches Ok(actions) ==> actions@ == old(self)@.actions(acquired, scene@),
            final(self)@.fences == old(self)@.fences,
            final(self)@.slot_count() == old(self)@.slot_count(),
            plan matches Ok(actions) ==> (acquired matches Ok((image_i, _)) ==> {
                &&& actions@.len() >= 1
                &&& actions@.last() == old(self)@.submission(image_i as int, scene@)
                &&& forall|k: int|
                    0 <= k < actions@.len() - 1 ==> !(#[trigger] actions@[k] is Submit)
                &&& old(self)@.fences[image_i as int] is Some ==> actions@[0]
                    == (Action::WaitFence { slot: image_i })
            }),
    {
        let (image_i, suboptimal) = match acquired {
            Ok(image) => image,
            Err(AcquireError::OutOfDate) => {
                self.resize_flagged = true;
                return Ok(Vec::new());
            },
            Err(AcquireError::Other) => {
                return Err(RenderError::AcquireNextImage);
            },
        };
        if suboptimal {
            self.resize_flagged = true;
        }
        let mut plan: Vec<Action> = Vec::new();
        let oldest_fence_exists = self.fences[image_i].is_some();
        if oldest_fence_exists {
            plan.push(Action::WaitFence { slot: image_i });
        }
        if scene.objects_changed {
            fill_flags(&mut self.update_buffer_models);
        }
        let update_buffer_models = self.update_buffer_models[image_i] || self.never_written;
        self.update_buffer_models.set(image_i, false);
        self.never_written = false;
        assert(self.update_buffer_models@ =~= old(self)@.flags_after(image_i as int, scene@));
        let previous_fence_exists = self.fences[self.previous_fence_i].is_some();
        if previous_fence_exists && (update_buffer_models || !oldest_fence_exists) {
            // to wait for the fence of the frame flushed last is to wait for all
            // the work that the device has been given
            plan.push(Action::WaitFence { slot: self.previous_fence_i });
        }
        if update_buffer_models {
            let rebuilt = self.renderer.update_buffer_models(image_i, scene);
            plan.push(Action::WriteInstanceData { slot: image_i });
            if rebuilt {
                plan.push(Action::RecordCommandBuffers);
            }
        }
        plan.push(
            Action::Submit {
                slot: image_i,
                upstream: if previous_fence_exists {
                    Some(self.previous_fence_i)
                } else {
                    None
                },
                instance_count: scene.total_object_count,
            },
        );
        self.submitting = Some(image_i);
        proof {
            assert(plan@ =~= old(self)@.plan(image_i as int, scene@));
        }
        Ok(plan)
    }

    /// Takes in what came of the submission of the frame under way: its
    /// fence, or why it failed.
    ///
    /// A fence is recorded for the slot of the frame, in place of the one
    /// that the frame waited for; no other slot's fence is touched. A failure
    /// leaves the slot without a fence, and the next frame starts afresh;
    /// where the swapchain was out of date, it is recreated before then. With
    /// no frame under way nothing happens.
    pub fn frame_flushed(&mut self, flushed: Result<Fence, FlushError>)
        requires
            old(self)@.wf(),
        ensures
            final(self)@.wf(),
            final(self)@ == old(self)@.frame_flushed(flushed),
            final(self)@.fences.len() == old(self)@.fences.len(),
            forall|slot: int|
                0 <= slot < old(self)@.fences.len() && old(self)@.submitting != Some(
                    slot as usize,
                ) ==> final(self)@.fences[slot] == old(self)@.fences[slot],
            recorded_fences(final(self)@.fences) <= final(self)@.slot_count(),
    {
        proof {
            lemma_recorded_fences_bounded(self@.frame_flushed(flushed).fences);
        }
        let image_i: usize = match self.submitting {
            Some(image_i) => image_i,
            None => {
                return ;
            },
        };
        let fence: Option<Fence> = match flushed {
            Ok(fence) => Some(fence),
            Err(FlushError::OutOfDate) => {
                self.resize_flagged = true;
                None
            },
            Err(FlushError::Other) => None,
        };
        self.fences.set(image_i, fence);
        self.previous_fence_i = image_i;
        self.submitting = None;
    }

    /// The fence recorded for `slot`, if there is one.
    pub fn fence(&self, slot: usize) -> (fence: Option<&Fence>)
        ensures
            fence is Some <==> slot < self@.fences.len() && self@.fences[slot as int] is Some,
            fence matches Some(recorded) ==> self@.fences[slot as int] == Some(*recorded),
    {
        if slot < self.fences.len() {
            match &self.fences[slot] {
                Some(recorded) => Some(recorded),
                None => None,
            }
        } else {
            None
        }
    }

    /// The renderer that this loop schedules.
    pub fn renderer(&self) -> (renderer: &Renderer<Vert, Inst>)
        ensures
            renderer@ == self@.renderer,
    {
        &self.renderer
    }

    /// The slot that the last frame was submitted for.
    pub fn previous_fence_i(&self) -> (slot: usize)
        ensures
            slot == self@.previous_fence_i,
    {
        self.previous_fence_i
    }
}

/// No more fences are recorded than there are places for them.
pub proof fn lemma_recorded_fences_bounded<Fence>(fences: Seq<Option<Fence>>)
    ensures
        recorded_fences(fences) <= fences.len(),
    decreases fences.len(),
{
    if fences.len() > 0 {
        lemma_recorded_fences_bounded(fences.drop_last());
    }
}

/// The waits before a rebuild are those for the recorded fences and no
/// others: the fence of a slot is waited for if and only if it is recorded.
pub proof fn lemma_recorded_waits<Fence>(fences: Seq<Option<Fence>>, slots: int, slot: usize)
    requires
        0 <= slots <= fences.len() <= usize::MAX,
    ensures
        recorded_waits(fences, slots).contains(Action::WaitFence { slot }) <==> slot < slots
            && fences[slot as int] is Some,
    decreases slots,
{
    if slots > 0 {
        lemma_recorded_waits(fences, slots - 1, slot);
        let before = recorded_waits(fences, slots - 1);
        let last = Action::WaitFence { slot: (slots - 1) as usize };
        let wanted = Action::WaitFence { slot };
        if fences[slots - 1] is Some {
            let waits = before.push(last);
            assert(waits[before.len() as int] == last);
            if before.contains(wanted) {
                let k = choose|k: int| 0 <= k < before.len() && before[k] == wanted;
                assert(waits[k] == wanted);
            }
            if waits.contains(wanted) {
                let k = choose|k: int| 0 <= k < waits.len() && waits[k] == wanted;
                if k < before.len() {
                    assert(before[k] == wanted);
                }
            }
        }
    }
}

/// Every step of the loop keeps it well formed: whatever the device answers,
/// there is one place for a fence, one refresh flag, one instance region and
/// one command sequence per image of the swapchain as it is then, and every
/// command sequence is built for the current render targets, the current
/// pipeline and the current instance counts. Only a rebuild changes the
/// number of frame slots, to the number of images of the new swapchain.
pub proof fn lemma_steps_keep_well_formed<Vert, Inst, Fence>(
    render_loop: RenderLoopView<Vert, Inst, Fence>,
    window_size: Extent,
    created: Result<usize, SwapchainCreationError>,
    resized_scene: SceneView<Inst>,
    acquired: Result<(usize, bool), AcquireError>,
    scene: SceneView<Inst>,
    flushed: Result<Fence, FlushError>,
)
    requires
        render_loop.wf(),
        created matches Ok(image_count) ==> image_count >= 1,
        scene_fits_draws(resized_scene),
        acquired matches Ok((image_i, _)) ==> {
            &&& image_i < render_loop.slot_count()
            &&& render_loop.refresh_due(image_i as int, scene) ==> {
                &&& scene_instances(scene).len() <= render_loop.renderer.instance_capacity()
                &&& scene_fits_draws(scene)
            }
        },
    ensures
        render_loop.handle_window_resize().wf(),
        render_loop.rebuild(window_size, created, resized_scene).wf(),
        render_loop.update(acquired, scene).wf(),
        render_loop.frame_flushed(flushed).wf(),
        render_loop.handle_window_resize().slot_count() == render_loop.slot_count(),
        render_loop.rebuild(window_size, created, resized_scene).slot_count() == (
        if render_loop.resize_flagged && created is Ok {
            created->Ok_0 as nat
        } else {
            render_loop.slot_count()
        }),
        render_loop.update(acquired, scene).slot_count() == render_loop.slot_count(),
        render_loop.frame_flushed(flushed).slot_count() == render_loop.slot_count(),
{
    lemma_scene_counts_fit(
        resized_scene,
        render_loop.renderer.buffer_container.buffers.main.model_lengths,
    );
    match acquired {
        Ok((image_i, _)) => {
            if render_loop.refresh_due(image_i as int, scene) {
                lemma_scene_counts_fit(
                    scene,
                    render_loop.renderer.buffer_container.buffers.main.model_lengths,
                );
            }
        },
        Err(_) => {},
    }
}

/// With `N` frame slots there are never more than `N` frames in flight, and a
/// slot never has two.
///
/// Every frame in flight has its fence recorded in its own slot, so there are
/// at most as many as slots. A frame for a slot that has a fence recorded
/// waits for that fence before it does anything else, and it submits last.
/// When its own fence comes back it takes the place of the one waited for,
/// and no other slot's fence is touched.
pub proof fn lemma_frames_in_flight_bounded<Vert, Inst, Fence>(
    render_loop: RenderLoopView<Vert, Inst, Fence>,
    image_i: usize,
    suboptimal: bool,
    scene: SceneView<Inst>,
    flushed: Result<Fence, FlushError>,
)
    requires
        render_loop.wf(),
        image_i < render_loop.slot_count(),
    ensures
        render_loop.slot_count() >= 1,
        recorded_fences(render_loop.fences) <= render_loop.slot_count(),
        ({
            let plan = render_loop.plan(image_i as int, scene);
            let begun = render_loop.update(
                Ok::<(usize, bool), AcquireError>((image_i, suboptimal)),
                scene,
            );
            let ended = begun.frame_flushed(flushed);
            &&& plan.len() >= 1
            &&& plan.last() == render_loop.submission(image_i as int, scene)
            &&& forall|k: int| 0 <= k < plan.len() - 1 ==> !(#[trigger] plan[k] is Submit)
            &&& render_loop.fences[image_i as int] is Some ==> plan.len() >= 2 && plan[0]
                == (Action::WaitFence { slot: image_i })
            &&& begun.fences == render_loop.fences
            &&& ended.fences.len() == render_loop.fences.len()
            &&& forall|slot: int|
                0 <= slot < render_loop.slot_count() && slot != image_i ==> ended.fences[slot]
                    == render_loop.fences[slot]
            &&& ended.fences[image_i as int] is Some <==> flushed is Ok
            &&& recorded_fences(ended.fences) <= render_loop.slot_count()
        }),
{
    lemma_recorded_fences_bounded(render_loop.fences);
    let begun = render_loop.update(Ok::<(usize, bool), AcquireError>((image_i, suboptimal)), scene);
    lemma_recorded_fences_bounded(begun.frame_flushed(flushed).fences);
}

/// A frame that begins with no resize flagged and a scene that has not
/// changed rebuilds nothing.
///
/// A rebuild leaves the loop as it is whatever the device says. The frame
/// itself, from the acquisition of its image to the return of its fence,
/// leaves the swapchain, its render targets, the viewport, the pipeline and
/// every command sequence as they were, and asks for no command sequence to be
/// recorded.
///
/// One kind of frame is left out: one that still owes its slot the data of a
/// scene whose instance counts the command sequences have not been rebuilt
/// for. That frame is the rebuild that an earlier change of the scene asked
/// for.
pub proof fn lemma_quiet_update_rebuilds_nothing<Vert, Inst, Fence>(
    render_loop: RenderLoopView<Vert, Inst, Fence>,
    window_size: Extent,
    created: Result<usize, SwapchainCreationError>,
    acquired: Result<(usize, bool), AcquireError>,
    scene: SceneView<Inst>,
    flushed: Result<Fence, FlushError>,
)
    requires
        render_loop.wf(),
        !render_loop.resize_flagged,
        !scene.objects_changed,
        acquired matches Ok((image_i, _)) ==> {
            &&& image_i < render_loop.slot_count()
            &&& render_loop.refresh_due(image_i as int, scene) ==> draw_instance_counts(scene)
                == render_loop.renderer.buffer_container.instance_count_per_model_cache
        },
    ensures
        render_loop.rebuilt(created) == Rebuilt::Nothing,
        render_loop.waits_before_rebuild() == Seq::<Action>::empty(),
        render_loop.rebuild(window_size, created, scene) == render_loop,
        ({
            let begun = render_loop.update(acquired, scene);
            let ended = begun.frame_flushed(flushed);
            &&& begun.renderer.swapchain_container == render_loop.renderer.swapchain_container
            &&& begun.renderer.viewport == render_loop.renderer.viewport
            &&& begun.renderer.graphics_pipeline == render_loop.renderer.graphics_pipeline
            &&& begun.renderer.buffer_container.command_buffers
                == render_loop.renderer.buffer_container.command_buffers
            &&& begun.renderer.buffer_container.instance_count_per_model_cache
                == render_loop.renderer.buffer_container.instance_count_per_model_cache
            &&& !render_loop.actions(acquired, scene).contains(Action::RecordCommandBuffers)
            &&& ended.renderer == begun.renderer
        }),
{
    match acquired {
        Ok((image_i, _)) => {
            let plan = render_loop.plan(image_i as int, scene);
            assert forall|k: int| 0 <= k < plan.len() implies plan[k]
                != Action::RecordCommandBuffers by {}
        },
        Err(_) => {},
    }
}

/// A resize goes through without losing a frame in flight.
///
/// Take a loop with a fence recorded for the slot `slot`. Tell it of a resize
/// and carry out the rebuild that it then asks for, the device making a
/// swapchain of the size of the window with `image_count` images, of which
/// the image of `slot` is one. The waits that come before the rebuild include
/// the one for the fence of `slot`. After the rebuild the render targets are
/// new ones of that size, one per image; the viewport has that size; every
/// slot's command sequence is rebuilt for its new target and the new
/// pipeline, with the instance counts of the scene; and the fence of `slot`
/// is still there, as is that of every slot that stays. The next frame for
/// `slot` waits for the slot's old fence before anything else and submits
/// only at the end.
pub proof fn lemma_resize_keeps_frames_in_flight<Vert, Inst, Fence>(
    render_loop: RenderLoopView<Vert, Inst, Fence>,
    slot: usize,
    window_size: Extent,
    image_count: usize,
    scene: SceneView<Inst>,
)
    requires
        render_loop.wf(),
        slot < render_loop.slot_count(),
        render_loop.fences[slot as int] is Some,
        slot < image_count,
        scene_fits_draws(scene),
    ensures
        ({
            let notified = render_loop.handle_window_resize();
            let created = Ok::<usize, SwapchainCreationError>(image_count);
            let rebuilt = notified.rebuild(window_size, created, scene);
            let targets = rebuilt.renderer.swapchain_container.framebuffers;
            let sequences = rebuilt.renderer.buffer_container.command_buffers;
            let plan = rebuilt.plan(slot as int, scene);
            &&& notified.resize_flagged
            &&& notified.waits_before_rebuild().contains(Action::WaitFence { slot })
            &&& notified.rebuilt(created) == Rebuilt::NewSwapchain
            &&& rebuilt.wf()
            &&& !rebuilt.resize_flagged
            &&& rebuilt.slot_count() == image_count
            &&& rebuilt.renderer.swapchain_container.image_extent == window_size
            &&& rebuilt.renderer.swapchain_container.generation
                != render_loop.renderer.swapchain_container.generation
            &&& rebuilt.renderer.viewport == window_size
            &&& rebuilt.renderer.graphics_pipeline.viewport == window_size
            &&& targets.len() == image_count
            &&& sequences.len() == image_count
            &&& rebuilt.renderer.buffer_container.buffers.instance_source_models.len()
                == image_count
            &&& forall|i: int|
                0 <= i < image_count ==> {
                    &&& (#[trigger] targets[i]).image_i == i
                    &&& targets[i].extent == window_size
                    &&& targets[i].generation
                        != render_loop.renderer.swapchain_container.generation
                }
            &&& forall|i: int|
                0 <= i < image_count ==> {
                    &&& (#[trigger] sequences[i]).framebuffer == targets[i]
                    &&& sequences[i].pipeline == rebuilt.renderer.graphics_pipeline
                    &&& sequences[i].draws == draw_calls(
                        render_loop.renderer.buffer_container.buffers.main.model_lengths,
                        draw_instance_counts(scene),
                    )
                }
            &&& forall|kept_slot: int|
                0 <= kept_slot < image_count && kept_slot < render_loop.slot_count()
                    ==> rebuilt.fences[kept_slot] == render_loop.fences[kept_slot]
            &&& rebuilt.fences[slot as int] == render_loop.fences[slot as int]
            &&& plan[0] == (Action::WaitFence { slot })
            &&& plan.last() == rebuilt.submission(slot as int, scene)
            &&& forall|k: int| 0 <= k < plan.len() - 1 ==> !(#[trigger] plan[k] is Submit)
        }),
{
    lemma_scene_counts_fit(
        scene,
        render_loop.renderer.buffer_container.buffers.main.model_lengths,
    );
    lemma_recorded_waits(render_loop.fences, render_loop.fences.len() as int, slot);
}

} // verus!
