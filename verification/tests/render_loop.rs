use frame_scheduler::render::render_loop::{AcquireError, Action, FlushError, Rebuilt, RenderLoop};
use frame_scheduler::render::renderer::RenderError;
use frame_scheduler::render::swapchain_container::SwapchainCreationError;
use frame_scheduler::render::vulkano_objects::buffers::ModelData;
use frame_scheduler::render::vulkano_objects::command_buffers::DrawIndexed;
use frame_scheduler::render::vulkano_objects::framebuffers::{Extent, Framebuffer};
use frame_scheduler::render::vulkano_objects::pipeline::GraphicsPipeline;
use frame_scheduler::Scene;

type Loop = RenderLoop<u8, u64, u32>;

fn models() -> Vec<ModelData<u8>> {
    vec![
        ModelData { vertices: vec![0; 8], indices: vec![0; 36] },
        ModelData { vertices: vec![0; 4], indices: vec![0; 12] },
    ]
}

fn window() -> Extent {
    Extent { width: 600, height: 600 }
}

fn new_loop(image_count: usize, scene: &Scene<u64>) -> Loop {
    RenderLoop::new(window(), image_count, scene, &models(), None, 0)
}

fn count_writes(plan: &[Action]) -> usize {
    plan.iter().filter(|action| matches!(action, Action::WriteInstanceData { .. })).count()
}

fn count_submits(plan: &[Action]) -> usize {
    plan.iter().filter(|action| matches!(action, Action::Submit { .. })).count()
}

/// Runs one frame whose submission goes through, and returns its plan. The
/// owner of the scene clears its flag once the frame has seen it.
fn tick(render_loop: &mut Loop, scene: &mut Scene<u64>, image_i: usize, fence: u32) -> Vec<Action> {
    assert!(!render_loop.rebuild_pending());
    let plan = render_loop.update(Ok((image_i, false)), scene).unwrap();
    scene.objects_changed = false;
    render_loop.frame_flushed(Ok(fence));
    plan
}

/// A scene that no frame finds changed.
fn quiet_scene(cubes: Vec<u64>, squares: Vec<u64>) -> Scene<u64> {
    let mut scene = Scene::new(cubes, squares);
    scene.objects_changed = false;
    scene
}

fn sequence_targets(render_loop: &Loop) -> Vec<Framebuffer> {
    render_loop
        .renderer()
        .buffer_container()
        .command_buffers()
        .main
        .iter()
        .map(|sequence| sequence.framebuffer)
        .collect()
}

#[test]
fn an_unchanged_scene_is_written_once() {
    let mut scene = quiet_scene(vec![7], vec![]);
    let mut render_loop = new_loop(2, &scene);
    let mut writes = Vec::new();
    let mut submits = 0;
    for frame in 0..5u32 {
        let image_i = (frame % 2) as usize;
        let plan = tick(&mut render_loop, &mut scene, image_i, 100 + frame);
        writes.push(count_writes(&plan));
        submits += count_submits(&plan);
        assert!(matches!(plan.last(), Some(Action::Submit { slot, .. }) if *slot == image_i));
        assert_eq!(render_loop.previous_fence_i(), image_i);
        assert_eq!(render_loop.fence(image_i), Some(&(100 + frame)));
    }
    // One write in all, at first use, before the first submission.
    assert_eq!(writes, vec![1, 0, 0, 0, 0]);
    assert_eq!(submits, 5);
    assert_eq!(render_loop.fence(0), Some(&104));
    assert_eq!(render_loop.fence(1), Some(&103));
    let buffers = render_loop.renderer().buffer_container().buffers();
    assert_eq!(buffers.get_instance_source_model(0)[0], 7);
}

#[test]
fn an_unchanged_scene_is_planned_frame_by_frame() {
    let mut scene = quiet_scene(vec![7], vec![]);
    let mut render_loop = new_loop(2, &scene);
    // The first frame of all writes: nothing has been written before.
    assert!(render_loop.refresh_due(0, &scene));
    assert!(render_loop.refresh_due(1, &scene));
    assert_eq!(
        tick(&mut render_loop, &mut scene, 0, 10),
        vec![
            Action::WriteInstanceData { slot: 0 },
            Action::Submit { slot: 0, upstream: None, instance_count: 1 },
        ]
    );
    assert!(!render_loop.refresh_due(1, &scene));
    // Slot 1 has no fence of its own: it waits for the previous one.
    assert_eq!(
        tick(&mut render_loop, &mut scene, 1, 11),
        vec![
            Action::WaitFence { slot: 0 },
            Action::Submit { slot: 1, upstream: Some(0), instance_count: 1 },
        ]
    );
    assert_eq!(
        tick(&mut render_loop, &mut scene, 0, 12),
        vec![
            Action::WaitFence { slot: 0 },
            Action::Submit { slot: 0, upstream: Some(1), instance_count: 1 },
        ]
    );
    assert_eq!(
        tick(&mut render_loop, &mut scene, 1, 13),
        vec![
            Action::WaitFence { slot: 1 },
            Action::Submit { slot: 1, upstream: Some(0), instance_count: 1 },
        ]
    );
}

#[test]
fn a_fresh_scene_reaches_every_slot() {
    let mut scene = Scene::new(vec![7u64], vec![]);
    assert!(scene.objects_changed);
    let mut render_loop = new_loop(2, &scene);
    assert_eq!(
        tick(&mut render_loop, &mut scene, 0, 10),
        vec![
            Action::WriteInstanceData { slot: 0 },
            Action::Submit { slot: 0, upstream: None, instance_count: 1 },
        ]
    );
    assert_eq!(
        tick(&mut render_loop, &mut scene, 1, 11),
        vec![
            Action::WaitFence { slot: 0 },
            Action::WriteInstanceData { slot: 1 },
            Action::Submit { slot: 1, upstream: Some(0), instance_count: 1 },
        ]
    );
    assert_eq!(count_writes(&tick(&mut render_loop, &mut scene, 0, 12)), 0);
    let buffers = render_loop.renderer().buffer_container().buffers();
    assert_eq!(buffers.get_instance_source_model(0)[0], 7);
    assert_eq!(buffers.get_instance_source_model(1)[0], 7);
}

#[test]
fn an_out_of_date_acquisition_skips_the_frame() {
    let mut scene = Scene::new(vec![7u64], vec![]);
    let mut render_loop = new_loop(2, &scene);
    tick(&mut render_loop, &mut scene, 0, 10);
    tick(&mut render_loop, &mut scene, 1, 11);
    let before = sequence_targets(&render_loop);

    // Tick 3: no frame, and the swapchain is to be recreated.
    assert!(!render_loop.rebuild_pending());
    let plan = render_loop.update(Err(AcquireError::OutOfDate), &scene).unwrap();
    assert_eq!(count_submits(&plan), 0);
    assert!(plan.is_empty());
    render_loop.frame_flushed(Ok(99));
    assert_eq!(render_loop.fence(0), Some(&10));
    assert_eq!(render_loop.fence(1), Some(&11));
    assert_eq!(render_loop.previous_fence_i(), 1);
    assert!(render_loop.rebuild_pending());

    // Tick 4: the waits, the rebuild, then a frame into the new targets.
    assert_eq!(
        render_loop.waits_before_rebuild(),
        vec![Action::WaitFence { slot: 0 }, Action::WaitFence { slot: 1 }]
    );
    let smaller = Extent { width: 300, height: 200 };
    assert_eq!(render_loop.rebuild(smaller, Ok(2), &scene), Ok(Rebuilt::NewSwapchain));
    assert!(render_loop.waits_before_rebuild().is_empty());
    assert!(!render_loop.rebuild_pending());
    assert_eq!(render_loop.renderer().viewport(), smaller);
    let after = sequence_targets(&render_loop);
    assert_eq!(
        after,
        vec![
            Framebuffer { image_i: 0, extent: smaller, generation: 1 },
            Framebuffer { image_i: 1, extent: smaller, generation: 1 },
        ]
    );
    assert_ne!(before, after);
    assert_eq!(render_loop.renderer().swapchain_container().get_framebuffers(), &after);
    let plan = tick(&mut render_loop, &mut scene, 0, 12);
    assert_eq!(
        plan,
        vec![
            Action::WaitFence { slot: 0 },
            Action::Submit { slot: 0, upstream: Some(1), instance_count: 1 },
        ]
    );
    assert_eq!(render_loop.fence(0), Some(&12));
}

#[test]
fn a_changed_scene_is_written_once_per_slot() {
    let mut scene = Scene::new(vec![7u64], vec![3]);
    let mut render_loop = new_loop(2, &scene);
    let mut writes = Vec::new();
    for frame in 1..=6u32 {
        if frame == 4 {
            *scene.get_cube_mut(0) = 8;
            assert!(scene.objects_changed);
        }
        let image_i = ((frame - 1) % 2) as usize;
        let plan = tick(&mut render_loop, &mut scene, image_i, frame);
        writes.push(count_writes(&plan));
        if frame >= 4 {
            let written = plan.contains(&Action::WriteInstanceData { slot: image_i });
            assert_eq!(written, frame < 6);
        }
    }
    assert_eq!(&writes[3..], &[1, 1, 0]);
    let buffers = render_loop.renderer().buffer_container().buffers();
    assert_eq!(&buffers.get_instance_source_model(0)[..3], &[8, 3, 0]);
    assert_eq!(&buffers.get_instance_source_model(1)[..3], &[8, 3, 0]);
}

#[test]
fn a_slot_never_has_two_frames_in_flight() {
    for image_count in 1..=4usize {
        let mut scene = Scene::new(vec![7u64], vec![]);
        let mut render_loop = new_loop(image_count, &scene);
        for frame in 0..(3 * image_count) {
            let image_i = frame % image_count;
            let recorded = render_loop.fence(image_i).copied();
            let plan = tick(&mut render_loop, &mut scene, image_i, frame as u32);
            // The frame waits for the slot's fence before anything else, and submits last.
            assert_eq!(recorded.is_some(), frame >= image_count);
            assert_eq!(plan.first() == Some(&Action::WaitFence { slot: image_i }), recorded.is_some());
            assert_eq!(count_submits(&plan), 1);
            assert!(matches!(plan.last(), Some(Action::Submit { .. })));
            let in_flight = (0..image_count).filter(|slot| render_loop.fence(*slot).is_some()).count();
            assert!(in_flight <= image_count);
            assert_eq!(in_flight, (frame + 1).min(image_count));
        }
        assert_eq!(render_loop.fence(image_count), None);
    }
}

#[test]
fn a_single_slot_waits_for_itself() {
    let mut scene = Scene::new(vec![7u64], vec![]);
    let mut render_loop = new_loop(1, &scene);
    assert_eq!(
        tick(&mut render_loop, &mut scene, 0, 1),
        vec![
            Action::WriteInstanceData { slot: 0 },
            Action::Submit { slot: 0, upstream: None, instance_count: 1 },
        ]
    );
    scene.objects_changed = true;
    assert_eq!(
        tick(&mut render_loop, &mut scene, 0, 2),
        vec![
            Action::WaitFence { slot: 0 },
            Action::WaitFence { slot: 0 },
            Action::WriteInstanceData { slot: 0 },
            Action::Submit { slot: 0, upstream: Some(0), instance_count: 1 },
        ]
    );
}

#[test]
fn a_quiet_frame_rebuilds_nothing() {
    let mut scene = Scene::new(vec![7u64, 9], vec![5]);
    let mut render_loop = new_loop(3, &scene);
    for frame in 0..3 {
        tick(&mut render_loop, &mut scene, frame, frame as u32);
    }
    let targets = sequence_targets(&render_loop);
    let draws: Vec<Vec<DrawIndexed>> = render_loop
        .renderer()
        .buffer_container()
        .command_buffers()
        .main
        .iter()
        .map(|sequence| sequence.draws.clone())
        .collect();
    let pipeline = render_loop.renderer().graphics_pipeline();

    assert!(!render_loop.rebuild_pending());
    assert!(render_loop.waits_before_rebuild().is_empty());
    assert_eq!(
        render_loop.rebuild(Extent { width: 1, height: 1 }, Ok(7), &scene),
        Ok(Rebuilt::Nothing)
    );
    assert_eq!(
        render_loop.rebuild(Extent { width: 1, height: 1 }, Err(SwapchainCreationError::Other), &scene),
        Ok(Rebuilt::Nothing)
    );
    assert_eq!(render_loop.renderer().get_image_count(), 3);
    for frame in 3..9 {
        let plan = tick(&mut render_loop, &mut scene, frame % 3, frame as u32);
        assert!(!plan.contains(&Action::RecordCommandBuffers));
        assert_eq!(count_writes(&plan), 0);
    }
    assert_eq!(sequence_targets(&render_loop), targets);
    assert_eq!(render_loop.renderer().graphics_pipeline(), pipeline);
    assert_eq!(render_loop.renderer().viewport(), window());
    assert_eq!(render_loop.renderer().swapchain_container().image_extent(), window());
    for (slot, sequence) in render_loop.renderer().buffer_container().command_buffers().main.iter().enumerate() {
        assert_eq!(sequence.draws, draws[slot]);
        assert_eq!(sequence.framebuffer.generation, 0);
    }
}

#[test]
fn a_resize_keeps_the_fences_and_rebuilds_every_sequence() {
    let mut scene = Scene::new(vec![7u64, 9], vec![5]);
    let mut render_loop = new_loop(3, &scene);
    tick(&mut render_loop, &mut scene, 0, 40);
    tick(&mut render_loop, &mut scene, 1, 41);

    render_loop.handle_window_resize();
    assert!(render_loop.rebuild_pending());
    assert_eq!(
        render_loop.waits_before_rebuild(),
        vec![Action::WaitFence { slot: 0 }, Action::WaitFence { slot: 1 }]
    );
    let wide = Extent { width: 1280, height: 720 };
    assert_eq!(render_loop.rebuild(wide, Ok(3), &scene), Ok(Rebuilt::NewSwapchain));
    assert!(!render_loop.rebuild_pending());

    assert_eq!(render_loop.renderer().viewport(), wide);
    assert_eq!(render_loop.renderer().graphics_pipeline(), GraphicsPipeline { viewport: wide });
    assert_eq!(render_loop.renderer().swapchain_container().image_extent(), wide);
    let sequences = &render_loop.renderer().buffer_container().command_buffers().main;
    assert_eq!(sequences.len(), 3);
    for (slot, sequence) in sequences.iter().enumerate() {
        assert_eq!(sequence.framebuffer, Framebuffer { image_i: slot, extent: wide, generation: 1 });
        assert_eq!(sequence.pipeline, GraphicsPipeline { viewport: wide });
        assert_eq!(sequence.draws.len(), 2);
    }

    // The fences of the frames in flight are still there, and still waited for.
    assert_eq!(render_loop.fence(0), Some(&40));
    assert_eq!(render_loop.fence(1), Some(&41));
    assert_eq!(render_loop.fence(2), None);
    let plan = render_loop.update(Ok((1, false)), &scene).unwrap();
    assert_eq!(
        plan,
        vec![
            Action::WaitFence { slot: 1 },
            Action::Submit { slot: 1, upstream: Some(1), instance_count: 3 },
        ]
    );
}

#[test]
fn an_unsupported_size_keeps_the_swapchain() {
    let mut scene = Scene::new(vec![7u64], vec![]);
    let mut render_loop = new_loop(2, &scene);
    tick(&mut render_loop, &mut scene, 0, 1);
    render_loop.handle_window_resize();
    let minimised = Extent { width: 0, height: 0 };
    assert_eq!(
        render_loop.rebuild(minimised, Err(SwapchainCreationError::ImageExtentNotSupported), &scene),
        Ok(Rebuilt::KeptSwapchain)
    );
    // The flag is cleared, the swapchain is the old one, the viewport follows the window.
    assert!(!render_loop.rebuild_pending());
    assert_eq!(render_loop.renderer().swapchain_container().image_extent(), window());
    assert_eq!(render_loop.renderer().viewport(), minimised);
    for (slot, target) in sequence_targets(&render_loop).into_iter().enumerate() {
        assert_eq!(target, Framebuffer { image_i: slot, extent: window(), generation: 0 });
    }
    for sequence in &render_loop.renderer().buffer_container().command_buffers().main {
        assert_eq!(sequence.pipeline, GraphicsPipeline { viewport: minimised });
    }

    // The same for a swapchain that was found out of date.
    render_loop.update(Err(AcquireError::OutOfDate), &scene).unwrap();
    assert!(render_loop.rebuild_pending());
    let narrow = Extent { width: 1, height: 600 };
    assert_eq!(
        render_loop.rebuild(narrow, Err(SwapchainCreationError::ImageExtentNotSupported), &scene),
        Ok(Rebuilt::KeptSwapchain)
    );
    assert!(!render_loop.rebuild_pending());
    assert_eq!(render_loop.renderer().viewport(), narrow);
    assert_eq!(render_loop.renderer().swapchain_container().image_extent(), window());
    assert_eq!(sequence_targets(&render_loop)[0].generation, 0);
}

#[test]
fn device_failures_are_handed_on() {
    let scene = Scene::new(vec![7u64], vec![]);
    let mut render_loop = new_loop(2, &scene);
    assert_eq!(render_loop.update(Err(AcquireError::Other), &scene), Err(RenderError::AcquireNextImage));
    assert!(!render_loop.rebuild_pending());

    render_loop.handle_window_resize();
    assert_eq!(
        render_loop.rebuild(window(), Err(SwapchainCreationError::Other), &scene),
        Err(RenderError::RecreateSwapchain)
    );
    // Nothing was done: the rebuild is still pending.
    assert!(render_loop.rebuild_pending());
    assert_eq!(render_loop.renderer().viewport(), window());
    assert_eq!(render_loop.renderer().swapchain_container().get_framebuffers()[0].generation, 0);
}

#[test]
fn a_failed_submission_leaves_the_slot_without_a_fence() {
    let mut scene = Scene::new(vec![7u64], vec![]);
    let mut render_loop = new_loop(2, &scene);
    tick(&mut render_loop, &mut scene, 0, 1);
    tick(&mut render_loop, &mut scene, 1, 2);

    render_loop.update(Ok((0, false)), &scene).unwrap();
    render_loop.frame_flushed(Err(FlushError::Other));
    assert_eq!(render_loop.fence(0), None);
    assert_eq!(render_loop.fence(1), Some(&2));
    assert_eq!(render_loop.previous_fence_i(), 0);
    assert!(!render_loop.rebuild_pending());

    // The next frame has no previous fence to join: it starts afresh, and
    // the refresh that it owes is written all the same.
    scene.objects_changed = true;
    let plan = render_loop.update(Ok((1, false)), &scene).unwrap();
    assert_eq!(
        plan,
        vec![
            Action::WaitFence { slot: 1 },
            Action::WriteInstanceData { slot: 1 },
            Action::Submit { slot: 1, upstream: None, instance_count: 1 },
        ]
    );
    render_loop.frame_flushed(Err(FlushError::OutOfDate));
    assert_eq!(render_loop.fence(1), None);
    assert_eq!(render_loop.previous_fence_i(), 1);
    assert!(render_loop.rebuild_pending());

    // With no frame under way, a fence that comes back is not recorded.
    render_loop.frame_flushed(Ok(77));
    assert_eq!(render_loop.fence(0), None);
    assert_eq!(render_loop.fence(1), None);
}

#[test]
fn a_suboptimal_image_is_drawn_to_and_the_swapchain_recreated() {
    let mut scene = Scene::new(vec![7u64], vec![]);
    let mut render_loop = new_loop(2, &scene);
    let plan = render_loop.update(Ok((1, true)), &scene).unwrap();
    assert_eq!(
        plan,
        vec![
            Action::WriteInstanceData { slot: 1 },
            Action::Submit { slot: 1, upstream: None, instance_count: 1 },
        ]
    );
    render_loop.frame_flushed(Ok(5));
    assert_eq!(render_loop.fence(1), Some(&5));
    assert!(render_loop.rebuild_pending());
    assert_eq!(render_loop.waits_before_rebuild(), vec![Action::WaitFence { slot: 1 }]);
    assert_eq!(render_loop.rebuild(window(), Ok(2), &scene), Ok(Rebuilt::NewSwapchain));
    assert_eq!(render_loop.renderer().viewport(), window());
    assert_eq!(sequence_targets(&render_loop)[1], Framebuffer { image_i: 1, extent: window(), generation: 1 });
    // Slot 0 still owes the refresh that the fresh scene asked for.
    scene.objects_changed = false;
    assert_eq!(
        render_loop.update(Ok((0, false)), &scene).unwrap(),
        vec![
            Action::WaitFence { slot: 1 },
            Action::WriteInstanceData { slot: 0 },
            Action::Submit { slot: 0, upstream: Some(1), instance_count: 1 },
        ]
    );
}

#[test]
fn new_instance_counts_rebuild_the_sequences() {
    let mut scene = Scene::new(vec![7u64], vec![3]);
    let mut render_loop = new_loop(2, &scene);
    tick(&mut render_loop, &mut scene, 0, 1);
    assert!(render_loop.refresh_due(1, &scene));
    tick(&mut render_loop, &mut scene, 1, 2);
    assert!(!render_loop.refresh_due(0, &scene));
    assert!(!render_loop.refresh_due(1, &scene));
    scene.cubes.push(8);
    scene.total_object_count = 3;
    scene.objects_changed = true;
    assert!(render_loop.refresh_due(0, &scene));
    let plan = tick(&mut render_loop, &mut scene, 0, 3);
    assert_eq!(
        plan,
        vec![
            Action::WaitFence { slot: 0 },
            Action::WaitFence { slot: 1 },
            Action::WriteInstanceData { slot: 0 },
            Action::RecordCommandBuffers,
            Action::Submit { slot: 0, upstream: Some(1), instance_count: 3 },
        ]
    );
    for sequence in &render_loop.renderer().buffer_container().command_buffers().main {
        assert_eq!(
            sequence.draws,
            vec![
                DrawIndexed { index_count: 36, instance_count: 2, first_index: 0, vertex_offset: 0, first_instance: 0 },
                DrawIndexed { index_count: 12, instance_count: 1, first_index: 36, vertex_offset: 8, first_instance: 2 },
            ]
        );
    }
    // The other slot catches up with the same counts: written, nothing rebuilt.
    let plan = tick(&mut render_loop, &mut scene, 1, 4);
    assert_eq!(
        plan,
        vec![
            Action::WaitFence { slot: 1 },
            Action::WaitFence { slot: 0 },
            Action::WriteInstanceData { slot: 1 },
            Action::Submit { slot: 1, upstream: Some(0), instance_count: 3 },
        ]
    );
    let buffers = render_loop.renderer().buffer_container().buffers();
    assert_eq!(&buffers.get_instance_source_model(0)[..4], &[7, 8, 3, 0]);
    assert_eq!(&buffers.get_instance_source_model(1)[..4], &[7, 8, 3, 0]);
}

#[test]
fn a_new_swapchain_brings_its_own_number_of_slots() {
    let mut scene = Scene::new(vec![7u64, 9], vec![5]);
    let mut render_loop = new_loop(3, &scene);
    for frame in 0..3 {
        tick(&mut render_loop, &mut scene, frame, 50 + frame as u32);
    }
    assert_eq!(render_loop.previous_fence_i(), 2);

    // Fewer images: the slots that stay keep their fences, the last is given up.
    render_loop.handle_window_resize();
    assert_eq!(render_loop.waits_before_rebuild().len(), 3);
    let small = Extent { width: 100, height: 100 };
    assert_eq!(render_loop.rebuild(small, Ok(2), &scene), Ok(Rebuilt::NewSwapchain));
    assert_eq!(render_loop.renderer().get_image_count(), 2);
    assert_eq!(render_loop.renderer().swapchain_container().image_count(), 2);
    assert_eq!(render_loop.renderer().swapchain_container().get_framebuffers().len(), 2);
    assert_eq!(render_loop.renderer().buffer_container().command_buffers().main.len(), 2);
    assert_eq!(render_loop.fence(0), Some(&50));
    assert_eq!(render_loop.fence(1), Some(&51));
    assert_eq!(render_loop.fence(2), None);
    assert_eq!(render_loop.previous_fence_i(), 0);
    assert_eq!(
        tick(&mut render_loop, &mut scene, 1, 60),
        vec![
            Action::WaitFence { slot: 1 },
            Action::Submit { slot: 1, upstream: Some(0), instance_count: 3 },
        ]
    );

    // More images: the new slots have no fence, a fresh region and owe nothing.
    render_loop.handle_window_resize();
    assert_eq!(render_loop.rebuild(window(), Ok(4), &scene), Ok(Rebuilt::NewSwapchain));
    assert_eq!(render_loop.renderer().get_image_count(), 4);
    assert_eq!(sequence_targets(&render_loop).len(), 4);
    assert_eq!(sequence_targets(&render_loop)[3], Framebuffer { image_i: 3, extent: window(), generation: 2 });
    assert_eq!(render_loop.fence(1), Some(&60));
    assert_eq!(render_loop.fence(3), None);
    assert_eq!(render_loop.previous_fence_i(), 1);
    let buffers = render_loop.renderer().buffer_container().buffers();
    assert_eq!(&buffers.get_instance_source_model(1)[..4], &[7, 9, 5, 0]);
    assert_eq!(&buffers.get_instance_source_model(3)[..4], &[0, 0, 0, 0]);
    assert_eq!(buffers.get_instance_source_model(3).len(), 256);
    assert!(!render_loop.refresh_due(3, &scene));
    assert_eq!(
        tick(&mut render_loop, &mut scene, 3, 70),
        vec![
            Action::WaitFence { slot: 1 },
            Action::Submit { slot: 3, upstream: Some(1), instance_count: 3 },
        ]
    );
}

#[test]
fn a_resize_takes_up_the_counts_of_the_scene() {
    let mut scene = Scene::new(vec![7u64], vec![3]);
    let mut render_loop = new_loop(2, &scene);
    tick(&mut render_loop, &mut scene, 0, 1);
    tick(&mut render_loop, &mut scene, 1, 2);
    scene.cubes.push(8);
    scene.cubes.push(9);
    scene.total_object_count = 4;
    render_loop.handle_window_resize();
    assert_eq!(render_loop.rebuild(window(), Ok(2), &scene), Ok(Rebuilt::NewSwapchain));
    for sequence in &render_loop.renderer().buffer_container().command_buffers().main {
        assert_eq!(sequence.draws[0].instance_count, 3);
        assert_eq!(sequence.draws[1].instance_count, 1);
        assert_eq!(sequence.draws[1].first_instance, 3);
    }
}
