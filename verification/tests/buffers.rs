use frame_scheduler::render::buffer_container::{BufferContainer, CommandBuffers, BASE_INSTANCES};
use frame_scheduler::render::models::Model;
use frame_scheduler::render::renderable_scene::{ModelKind, RenderableScene};
use frame_scheduler::render::renderer::Renderer;
use frame_scheduler::render::shaders::UniformShader;
use frame_scheduler::scene::grid_place;
use frame_scheduler::render::swapchain_container::{SwapchainContainer, SwapchainCreationError};
use frame_scheduler::render::vulkano_objects::buffers::{Buffers, MainBuffers, ModelData};
use frame_scheduler::render::vulkano_objects::command_buffers::{create_main, DrawIndexed};
use frame_scheduler::render::vulkano_objects::framebuffers::{create, Extent, Framebuffer};
use frame_scheduler::render::vulkano_objects::pipeline;
use frame_scheduler::render::vulkano_objects::pipeline::GraphicsPipeline;
use frame_scheduler::render::vulkano_objects::swapchain;
use frame_scheduler::render::vulkano_objects::swapchain::SwapchainRequest;
use frame_scheduler::Scene;

fn cube_and_square() -> Vec<ModelData<[i8; 3]>> {
    vec![
        ModelData {
            vertices: vec![[-1, -1, -1], [1, -1, -1], [1, 1, -1], [-1, 1, -1], [-1, -1, 1], [1, -1, 1], [1, 1, 1], [-1, 1, 1]],
            indices: vec![
                0, 1, 3, 3, 1, 2, 1, 5, 2, 2, 5, 6, 5, 4, 6, 6, 4, 7, 4, 0, 7, 7, 0, 3, 3, 2, 7, 7, 2, 6, 4, 5, 0, 0, 5, 1,
            ],
        },
        ModelData {
            vertices: vec![[-1, -1, 0], [1, -1, 0], [-1, 1, 0], [1, 1, 0]],
            indices: vec![0, 2, 1, 1, 2, 3, 0, 1, 2, 1, 3, 2],
        },
    ]
}

fn extent() -> Extent {
    Extent { width: 800, height: 600 }
}

#[test]
fn main_buffers_lay_models_end_to_end() {
    let models = cube_and_square();
    assert_eq!(models[1].get_indices(), &vec![0u16, 2, 1, 1, 2, 3, 0, 1, 2, 1, 3, 2]);
    assert_eq!(models[1].get_vertices().len(), 4);
    let main = MainBuffers::new(&models, 256);
    assert_eq!(main.model_lengths(), &vec![(36u32, 8i32), (12, 4)]);
    assert_eq!(main.vertex().len(), 12);
    assert_eq!(main.index().len(), 48);
    assert_eq!(&main.vertex()[..8], &models[0].vertices[..]);
    assert_eq!(&main.vertex()[8..], &models[1].vertices[..]);
    assert_eq!(&main.index()[..36], &models[0].indices[..]);
    assert_eq!(&main.index()[36..], &models[1].indices[..]);
    assert_eq!(main.instance_capacity(), 256);

    let none = MainBuffers::<u8>::new(&Vec::new(), 0);
    assert!(none.model_lengths().is_empty());
    assert!(none.vertex().is_empty());
    assert!(none.index().is_empty());
}

#[test]
fn draws_start_where_the_models_before_them_end() {
    let buffers = Buffers::<[i8; 3], u64>::initialize(2, &cube_and_square(), 10, 0);
    let pipeline = GraphicsPipeline { viewport: extent() };
    let framebuffers = create(2, extent(), 4);
    let sequences = create_main(pipeline, &framebuffers, &buffers, &vec![5, 3]);
    assert_eq!(sequences.len(), 2);
    for (slot, sequence) in sequences.iter().enumerate() {
        assert_eq!(sequence.framebuffer, Framebuffer { image_i: slot, extent: extent(), generation: 4 });
        assert_eq!(sequence.pipeline, pipeline);
        assert_eq!(
            sequence.draws,
            vec![
                DrawIndexed { index_count: 36, instance_count: 5, first_index: 0, vertex_offset: 0, first_instance: 0 },
                DrawIndexed { index_count: 12, instance_count: 3, first_index: 36, vertex_offset: 8, first_instance: 5 },
            ]
        );
    }
    // Models without an instance count and counts without a model get no draw.
    assert_eq!(create_main(pipeline, &framebuffers, &buffers, &vec![5])[0].draws.len(), 1);
    assert_eq!(create_main(pipeline, &framebuffers, &buffers, &vec![5, 3, 9])[1].draws.len(), 2);
    assert!(create_main(pipeline, &framebuffers, &buffers, &Vec::new())[0].draws.is_empty());
    assert!(create_main(pipeline, &Vec::new(), &buffers, &vec![5, 3]).is_empty());
    let three: Vec<ModelData<u8>> =
        (0..3).map(|_| ModelData { vertices: vec![0u8; 3], indices: vec![0, 1, 2] }).collect();
    let buffers = Buffers::<u8, u64>::initialize(1, &three, 10, 0);
    let draws = &create_main(pipeline, &framebuffers, &buffers, &vec![2, 0, 7])[0].draws;
    assert_eq!(draws[2], DrawIndexed { index_count: 3, instance_count: 7, first_index: 6, vertex_offset: 6, first_instance: 2 });
    assert_eq!(draws[1], DrawIndexed { index_count: 3, instance_count: 0, first_index: 3, vertex_offset: 3, first_instance: 2 });
}

#[test]
fn a_write_overwrites_the_front_and_keeps_the_rest() {
    let mut buffers = Buffers::<u8, u64>::initialize(2, &Vec::new(), 5, 9);
    assert_eq!(buffers.get_instance_source_model(0), &vec![9, 9, 9, 9, 9]);
    buffers.update_instance_source_models(1, vec![1, 2, 3, 4]);
    buffers.update_instance_source_models(1, vec![7, 8]);
    assert_eq!(buffers.get_instance_source_model(1), &vec![7, 8, 3, 4, 9]);
    assert_eq!(buffers.get_instance_source_model(0), &vec![9, 9, 9, 9, 9]);
    buffers.update_instance_source_models(0, Vec::new());
    assert_eq!(buffers.get_instance_source_model(0), &vec![9, 9, 9, 9, 9]);
    buffers.update_instance_source_models(0, vec![1, 2, 3, 4, 5]);
    assert_eq!(buffers.get_instance_source_model(0), &vec![1, 2, 3, 4, 5]);
    assert_eq!(buffers.get_main().instance_capacity(), 5);
}

#[test]
fn draws_read_back_what_was_written() {
    let a = [[1.0f32, 0.0, 0.0, 5.0], [0.0, 1.0, 0.0, 1.0], [0.0, 0.0, 1.0, 0.0], [0.0, 0.0, 0.0, 1.0]];
    let b = [[0.5f32; 4]; 4];
    let c = [[2.0f32; 4]; 4];
    let scene = Scene::new(vec![a, b], vec![c]);
    let pipeline = GraphicsPipeline { viewport: extent() };
    let framebuffers = create(3, extent(), 0);
    let mut container =
        BufferContainer::new(pipeline, &framebuffers, &scene, &cube_and_square(), None, [[0.0f32; 4]; 4]);
    assert!(!container.update_buffer_models(2, &scene, pipeline, &framebuffers));

    let region = container.buffers().get_instance_source_model(2);
    assert_eq!(region.len(), BASE_INSTANCES);
    let draws = &container.command_buffers().main[2].draws;
    let mut read = Vec::new();
    let mut ranges = Vec::new();
    for draw in draws {
        let first = draw.first_instance as usize;
        let end = first + draw.instance_count as usize;
        read.extend_from_slice(&region[first..end]);
        ranges.push((first, end));
    }
    assert_eq!(read, vec![a, b, c]);
    assert_eq!(ranges, vec![(0, 2), (2, 3)]);
    assert_eq!(&region[0..2], &scene.cubes[..]);
    assert_eq!(&region[2..3], &scene.squares[..]);
    assert_eq!(region[3], [[0.0f32; 4]; 4]);
    // Each object has its own bytes: 64 of them, one after the other.
    let stride = std::mem::size_of::<[[f32; 4]; 4]>();
    assert_eq!(stride, 64);
    for object in 0..2 {
        assert!((object + 1) * stride <= (object + 1) * stride);
        assert_eq!((object + 1) * stride - object * stride, 64);
    }
    // The other regions are untouched.
    assert_eq!(container.buffers().get_instance_source_model(0)[0], [[0.0f32; 4]; 4]);
    // The index ranges of the draws are those of the models.
    let main = container.buffers().get_main();
    let models = cube_and_square();
    for (k, draw) in draws.iter().enumerate() {
        let first = draw.first_index as usize;
        assert_eq!(&main.index()[first..first + draw.index_count as usize], &models[k].indices[..]);
        let first = draw.vertex_offset as usize;
        assert_eq!(&main.vertex()[first..first + models[k].vertices.len()], &models[k].vertices[..]);
    }
}

#[test]
fn the_scene_is_read_in_registration_order() {
    let mut scene = Scene::new(vec![10u64, 11, 12], vec![20, 21]);
    assert!(scene.objects_changed);
    assert_eq!(scene.total_object_count, 5);
    assert_eq!(RenderableScene::into_matrices(&scene), vec![10, 11, 12, 20, 21]);
    assert_eq!(RenderableScene::instance_count_per_model(&scene), vec![3, 2]);
    assert_eq!(RenderableScene::get_models(), vec![ModelKind::Cube, ModelKind::Square]);

    scene.objects_changed = false;
    *scene.get_square_mut(1) = 99;
    assert!(scene.objects_changed);
    scene.objects_changed = false;
    *scene.get_cube_mut(2) += 1;
    assert!(scene.objects_changed);
    assert_eq!(RenderableScene::into_matrices(&scene), vec![10, 11, 13, 20, 99]);
    assert_eq!(scene.total_object_count, 5);

    let empty = Scene::<u64>::new(Vec::new(), Vec::new());
    assert!(RenderableScene::into_matrices(&empty).is_empty());
    assert_eq!(RenderableScene::instance_count_per_model(&empty), vec![0, 0]);
}

#[test]
fn regions_have_room_for_the_generated_cubes() {
    let scene = Scene::new(vec![1u64], vec![2]);
    let pipeline = GraphicsPipeline { viewport: extent() };
    let framebuffers = create(2, extent(), 0);
    let plain = BufferContainer::new(pipeline, &framebuffers, &scene, &cube_and_square(), None, 0);
    assert_eq!(plain.buffers().get_main().instance_capacity(), 256);
    assert_eq!(plain.buffers().get_instance_source_model(1).len(), 256);
    let generated = BufferContainer::new(pipeline, &framebuffers, &scene, &cube_and_square(), Some(10), 0);
    assert_eq!(generated.buffers().get_main().instance_capacity(), 1256);
    assert_eq!(generated.buffers().get_instance_source_model(0).len(), 1256);
    let none = BufferContainer::new(pipeline, &framebuffers, &scene, &cube_and_square(), Some(0), 0);
    assert_eq!(none.buffers().get_main().instance_capacity(), 256);
    assert_eq!(plain.command_buffers().main.len(), 2);
    assert_eq!(plain.command_buffers().main[0].draws[1].first_instance, 1);
}

#[test]
fn command_buffers_are_recreated_for_new_targets() {
    let buffers = Buffers::<[i8; 3], u64>::initialize(2, &cube_and_square(), 10, 0);
    let pipeline = GraphicsPipeline { viewport: extent() };
    let mut command_buffers = CommandBuffers::create(pipeline, &create(2, extent(), 0), &buffers, &vec![1, 1]);
    assert_eq!(command_buffers.main[1].framebuffer.generation, 0);
    let small = Extent { width: 10, height: 20 };
    let shrunk = GraphicsPipeline { viewport: small };
    command_buffers.recreate_main(shrunk, &create(2, small, 1), &buffers, &vec![4, 1]);
    assert_eq!(command_buffers.main.len(), 2);
    assert_eq!(command_buffers.main[1].framebuffer, Framebuffer { image_i: 1, extent: small, generation: 1 });
    assert_eq!(command_buffers.main[1].pipeline, shrunk);
    assert_eq!(command_buffers.main[1].draws[1].first_instance, 4);
}

#[test]
fn the_swapchain_counts_its_generations() {
    let mut swapchain = SwapchainContainer::new(extent(), 3);
    assert_eq!(swapchain.image_count(), 3);
    assert_eq!(swapchain.image_extent(), extent());
    assert_eq!(swapchain.get_framebuffers(), &create(3, extent(), 0));
    let small = Extent { width: 10, height: 20 };
    assert_eq!(
        swapchain.recreate_swapchain(small, Err(SwapchainCreationError::ImageExtentNotSupported)),
        Ok(false)
    );
    assert_eq!(swapchain.get_framebuffers(), &create(3, extent(), 0));
    assert_eq!(
        swapchain.recreate_swapchain(small, Err(SwapchainCreationError::Other)),
        Err(SwapchainCreationError::Other)
    );
    assert_eq!(swapchain.image_extent(), extent());
    assert_eq!(swapchain.recreate_swapchain(small, Ok(3)), Ok(true));
    assert_eq!(swapchain.image_extent(), small);
    assert_eq!(swapchain.image_count(), 3);
    assert_eq!(swapchain.get_framebuffers(), &create(3, small, 1));
    assert_eq!(swapchain.recreate_swapchain(small, Ok(3)), Ok(true));
    assert_eq!(swapchain.get_framebuffers()[2], Framebuffer { image_i: 2, extent: small, generation: 2 });
    // A new swapchain may have another number of images.
    assert_eq!(swapchain.recreate_swapchain(extent(), Ok(5)), Ok(true));
    assert_eq!(swapchain.image_count(), 5);
    assert_eq!(swapchain.get_framebuffers(), &create(5, extent(), 3));
    assert_eq!(swapchain.recreate_swapchain(extent(), Ok(1)), Ok(true));
    assert_eq!(swapchain.get_framebuffers(), &create(1, extent(), 4));
}

#[test]
fn the_renderer_rebuilds_what_hangs_on_the_swapchain() {
    let scene = Scene::new(vec![1u64, 2], vec![3]);
    let mut renderer = Renderer::initialize(extent(), 2, &scene, &cube_and_square(), None, 0);
    assert_eq!(renderer.get_image_count(), 2);
    assert_eq!(renderer.viewport(), extent());
    assert_eq!(renderer.graphics_pipeline(), GraphicsPipeline { viewport: extent() });
    assert_eq!(renderer.buffer_container().command_buffers().main.len(), 2);

    let small = Extent { width: 10, height: 20 };
    assert_eq!(renderer.recreate_swapchain(small, Ok(2), &scene), Ok(true));
    assert_eq!(renderer.viewport(), extent());
    for (slot, sequence) in renderer.buffer_container().command_buffers().main.iter().enumerate() {
        assert_eq!(sequence.framebuffer, Framebuffer { image_i: slot, extent: small, generation: 1 });
        assert_eq!(sequence.pipeline, GraphicsPipeline { viewport: extent() });
    }
    assert_eq!(renderer.handle_window_resize(small, Ok(2), &scene), Ok(true));
    assert_eq!(renderer.viewport(), small);
    assert_eq!(renderer.buffer_container().command_buffers().main[0].framebuffer.generation, 2);
    assert_eq!(renderer.buffer_container().command_buffers().main[0].pipeline.viewport, small);

    assert!(!renderer.update_buffer_models(1, &scene));
    assert_eq!(&renderer.buffer_container().buffers().get_instance_source_model(1)[..4], &[1, 2, 3, 0]);
    assert_eq!(renderer.buffer_container().buffers().get_instance_source_model(0)[0], 0);
    let grown = Scene::new(vec![1u64, 2], vec![3, 4]);
    assert!(renderer.update_buffer_models(0, &grown));
    assert_eq!(renderer.buffer_container().command_buffers().main[1].draws[1].instance_count, 2);
}

#[test]
fn a_swapchain_is_asked_for_one_image_more() {
    assert_eq!(
        swapchain::create(2, extent()),
        SwapchainRequest { min_image_count: 3, image_extent: extent() }
    );
    assert_eq!(swapchain::create(0, extent()).min_image_count, 1);
    assert_eq!(swapchain::create(u32::MAX - 1, extent()).min_image_count, u32::MAX);
    assert_eq!(pipeline::create(extent()), GraphicsPipeline { viewport: extent() });
}

#[test]
fn regions_follow_the_number_of_slots() {
    let mut buffers = Buffers::<u8, u64>::initialize(2, &Vec::new(), 3, 9);
    buffers.update_instance_source_models(0, vec![1]);
    buffers.update_instance_source_models(1, vec![2, 2]);
    buffers.resize(4);
    assert_eq!(buffers.get_instance_source_model(0), &vec![1, 9, 9]);
    assert_eq!(buffers.get_instance_source_model(1), &vec![2, 2, 9]);
    assert_eq!(buffers.get_instance_source_model(2), &vec![9, 9, 9]);
    assert_eq!(buffers.get_instance_source_model(3), &vec![9, 9, 9]);
    buffers.resize(1);
    assert_eq!(buffers.get_instance_source_model(0), &vec![1, 9, 9]);
    buffers.resize(2);
    assert_eq!(buffers.get_instance_source_model(1), &vec![9, 9, 9]);

    let scene = Scene::new(vec![1u64, 2], vec![3]);
    let pipeline = GraphicsPipeline { viewport: extent() };
    let mut container = BufferContainer::new(pipeline, &create(2, extent(), 0), &scene, &cube_and_square(), None, 0);
    let grown = Scene::new(vec![1u64, 2, 4], vec![3]);
    container.handle_window_resize(pipeline, &create(3, extent(), 1), &grown);
    assert_eq!(container.command_buffers().main.len(), 3);
    assert_eq!(container.buffers().get_instance_source_model(2).len(), 256);
    for sequence in &container.command_buffers().main {
        assert_eq!(sequence.framebuffer.generation, 1);
        assert_eq!(sequence.draws[0].instance_count, 3);
        assert_eq!(sequence.draws[1].first_instance, 3);
    }
}

#[test]
fn the_starting_scene_has_two_cubes_or_a_block_and_one_square() {
    let scene = Scene::load(None, 5u64);
    assert_eq!(scene.cubes, vec![5, 5]);
    assert_eq!(scene.squares, vec![5]);
    assert!(scene.objects_changed);
    assert_eq!(scene.total_object_count, 3);
    let block = Scene::load(Some(3), 1u64);
    assert_eq!(block.cubes.len(), 27);
    assert_eq!(block.squares.len(), 1);
    assert_eq!(block.total_object_count, 28);
    let empty = Scene::load(Some(0), 1u64);
    assert!(empty.cubes.is_empty());
    assert_eq!(empty.total_object_count, 1);
    assert_eq!(grid_place(0, 3), (0, 0, 0));
    assert_eq!(grid_place(5, 3), (0, 1, 2));
    assert_eq!(grid_place(26, 3), (2, 2, 2));
    assert_eq!(grid_place(9, 3), (1, 0, 0));
    assert_eq!(grid_place(7, 1), (7, 0, 0));
}

struct Plain;

impl UniformShader<[f32; 4]> for Plain {
    fn get_initial_uniform_data() -> [f32; 4] {
        [0.0, 0.0, 0.0, 1.0]
    }
}

#[test]
fn a_uniform_starts_as_zero_bytes() {
    assert_eq!(Plain::get_initial_uniform_bytes(), vec![0u8; 16]);
    assert_eq!(Plain::get_initial_uniform_data(), [0.0, 0.0, 0.0, 1.0]);
}
