use render_loop::color::{Color, CHANNEL_ONE, CHANNEL_ZERO};
use render_loop::dpi::PhysicalSize;
use render_loop::event::{ElementState, KeyboardInput, VirtualKeyCode, WindowEvent};
use render_loop::pipeline::{
    BlendDescriptor, BlendFactor, BlendOperation, CullMode, FrontFace, IndexFormat,
    PrimitiveTopology,
};
use render_loop::state::{Draw, DrawRange, RenderPass, Scene, State};
use render_loop::swap_chain::{
    PresentMode, SwapChainDescriptor, SwapChainError, TextureFormat, OUTPUT_ATTACHMENT,
};
use render_loop::vertex::{InputStepMode, VertexFormat};

fn size(width: u32, height: u32) -> PhysicalSize {
    PhysicalSize::new(width, height)
}

fn one_instance() -> DrawRange {
    DrawRange { start: 0, end: 1 }
}

#[test]
fn new_state_describes_target_at_surface_size() {
    let state = State::new(size(800, 600), Scene::Clear);
    assert_eq!(state.size(), size(800, 600));
    let descriptor = state.swap_chain_descriptor();
    assert_eq!(descriptor.usage.bits, OUTPUT_ATTACHMENT);
    assert_eq!(descriptor.usage.bits, 16);
    assert_eq!(descriptor.format, TextureFormat::Bgra8UnormSrgb);
    assert_eq!(descriptor.width, 800);
    assert_eq!(descriptor.height, 600);
    assert_eq!(descriptor.present_mode, PresentMode::Fifo);
    assert_eq!(descriptor, SwapChainDescriptor::new(size(800, 600)));
}

#[test]
fn new_state_has_initial_clear_color() {
    let state = State::new(size(800, 600), Scene::Triangle);
    let color = state.clear_color();
    assert_eq!(f64::from_bits(color.r), 0.1);
    assert_eq!(f64::from_bits(color.g), 0.2);
    assert_eq!(f64::from_bits(color.b), 0.3);
    assert_eq!(f64::from_bits(color.a), 0.0);
    assert_eq!(color, Color::default_clear());
}

#[test]
fn new_state_accepts_a_surface_without_area() {
    let state = State::new(size(0, 0), Scene::Clear);
    assert_eq!(state.size(), size(0, 0));
    assert_eq!(state.swap_chain_descriptor().width, 0);
    assert_eq!(state.swap_chain_descriptor().height, 0);
}

#[test]
fn scene_counts() {
    let clear = State::new(size(1, 1), Scene::Clear);
    assert_eq!((clear.num_vertices(), clear.num_indices()), (0, 0));
    let triangle = State::new(size(1, 1), Scene::Triangle);
    assert_eq!((triangle.num_vertices(), triangle.num_indices()), (3, 0));
    let pentagon = State::new(size(1, 1), Scene::Pentagon);
    assert_eq!((pentagon.num_vertices(), pentagon.num_indices()), (5, 9));
    assert_eq!(pentagon.scene(), Scene::Pentagon);
}

#[test]
fn resize_sets_size_and_target_dimensions() {
    let mut state = State::new(size(800, 600), Scene::Pentagon);
    let target = state.resize(size(1024, 768));
    assert_eq!(state.size(), size(1024, 768));
    assert_eq!(state.swap_chain_descriptor().width, 1024);
    assert_eq!(state.swap_chain_descriptor().height, 768);
    assert_eq!(target, Some(SwapChainDescriptor::new(size(1024, 768))));
    assert_eq!(target, Some(state.swap_chain_descriptor()));
}

#[test]
fn resize_keeps_everything_but_the_size() {
    let mut state = State::new(size(800, 600), Scene::Pentagon);
    state.update_clear_color(0.5f64.to_bits(), 0.25f64.to_bits());
    let before = state.render(Ok(()));
    state.resize(size(1, u32::MAX));
    assert_eq!(state.size(), size(1, u32::MAX));
    assert_eq!(state.swap_chain_descriptor().format, TextureFormat::Bgra8UnormSrgb);
    assert_eq!(state.swap_chain_descriptor().present_mode, PresentMode::Fifo);
    assert_eq!(state.swap_chain_descriptor().usage.bits, 16);
    assert_eq!(state.scene(), Scene::Pentagon);
    assert_eq!(state.num_indices(), 9);
    assert_eq!(state.render(Ok(())), before);
}

#[test]
fn render_after_resize_succeeds() {
    let mut state = State::new(size(800, 600), Scene::Triangle);
    state.resize(size(640, 480));
    let pass = state.render(Ok(()));
    assert!(pass.is_ok());
    let descriptor = state.swap_chain_descriptor();
    assert_eq!((descriptor.width, descriptor.height), (640, 480));
    assert_eq!(PhysicalSize::new(descriptor.width, descriptor.height), state.size());
}

#[test]
fn resize_without_width_is_ignored() {
    let mut state = State::new(size(800, 600), Scene::Clear);
    assert_eq!(state.resize(size(0, 600)), None);
    assert_eq!(state.size(), size(800, 600));
    assert_eq!(state.swap_chain_descriptor(), SwapChainDescriptor::new(size(800, 600)));
}

#[test]
fn resize_without_height_is_ignored() {
    let mut state = State::new(size(800, 600), Scene::Clear);
    assert_eq!(state.resize(size(800, 0)), None);
    assert_eq!(state.size(), size(800, 600));
    assert_eq!(state.swap_chain_descriptor(), SwapChainDescriptor::new(size(800, 600)));
}

#[test]
fn resize_to_nothing_is_ignored() {
    let mut state = State::new(size(800, 600), Scene::Clear);
    assert_eq!(state.resize(size(0, 0)), None);
    assert_eq!(state.size(), size(800, 600));
}

#[test]
fn resize_to_current_size_keeps_state() {
    let mut state = State::new(size(800, 600), Scene::Pentagon);
    let before = state.swap_chain_descriptor();
    let current = state.size();
    let target = state.resize(current);
    assert_eq!(target, Some(before));
    assert_eq!(state.size(), size(800, 600));
    assert_eq!(state.swap_chain_descriptor(), before);
}

#[test]
fn presentable_sizes() {
    assert!(size(1, 1).is_presentable());
    assert!(size(u32::MAX, u32::MAX).is_presentable());
    assert!(!size(0, 1).is_presentable());
    assert!(!size(1, 0).is_presentable());
    assert!(!size(0, 0).is_presentable());
}

#[test]
fn input_is_never_handled() {
    let mut state = State::new(size(800, 600), Scene::Triangle);
    let events = [
        WindowEvent::CloseRequested,
        WindowEvent::Resized(size(3, 4)),
        WindowEvent::ScaleFactorChanged { new_inner_size: size(5, 6) },
        WindowEvent::KeyboardInput {
            input: KeyboardInput {
                state: ElementState::Pressed,
                virtual_keycode: Some(VirtualKeyCode::Escape),
            },
        },
        WindowEvent::Other,
    ];
    for event in events.iter() {
        assert!(!state.input(event));
        assert_eq!(state.size(), size(800, 600));
        assert_eq!(state.clear_color(), Color::default_clear());
    }
}

#[test]
fn update_changes_nothing() {
    let mut state = State::new(size(800, 600), Scene::Pentagon);
    let before = state.render(Ok(()));
    state.update();
    state.update();
    assert_eq!(state.size(), size(800, 600));
    assert_eq!(state.swap_chain_descriptor(), SwapChainDescriptor::new(size(800, 600)));
    assert_eq!(state.render(Ok(())), before);
}

#[test]
fn update_clear_color_sets_ratios() {
    let mut state = State::new(size(800, 600), Scene::Triangle);
    state.update_clear_color(0.25f64.to_bits(), 0.75f64.to_bits());
    let color = state.clear_color();
    assert_eq!(f64::from_bits(color.r), 0.25);
    assert_eq!(f64::from_bits(color.g), 0.75);
    assert_eq!(f64::from_bits(color.b), 1.0);
    assert_eq!(f64::from_bits(color.a), 0.0);
    assert_eq!(color, Color::new(0.25f64.to_bits(), 0.75f64.to_bits(), CHANNEL_ONE, CHANNEL_ZERO));
    assert_eq!(color, Color::from_ratios(0.25f64.to_bits(), 0.75f64.to_bits()));
}

#[test]
fn update_clear_color_at_the_corners() {
    let mut state = State::new(size(800, 600), Scene::Clear);
    state.update_clear_color(0.0f64.to_bits(), 0.0f64.to_bits());
    assert_eq!(state.clear_color(), Color::new(0, 0, CHANNEL_ONE, 0));
    state.update_clear_color(1.0f64.to_bits(), 1.0f64.to_bits());
    assert_eq!(state.clear_color(), Color::new(CHANNEL_ONE, CHANNEL_ONE, CHANNEL_ONE, 0));
    assert_eq!(state.size(), size(800, 600));
}

#[test]
fn channel_constants_are_zero_and_one() {
    assert_eq!(f64::from_bits(CHANNEL_ZERO), 0.0);
    assert_eq!(f64::from_bits(CHANNEL_ONE), 1.0);
}

#[test]
fn render_clear_scene_only_clears() {
    let mut state = State::new(size(800, 600), Scene::Clear);
    let pass = state.render(Ok(()));
    assert_eq!(
        pass,
        Ok(RenderPass { clear_color: Color::default_clear(), store: true, draw: None })
    );
}

#[test]
fn render_triangle_draws_three_vertices_once() {
    let mut state = State::new(size(800, 600), Scene::Triangle);
    let pass = state.render(Ok(())).unwrap();
    assert_eq!(
        pass.draw,
        Some(Draw::Vertices {
            vertices: DrawRange { start: 0, end: 3 },
            instances: one_instance(),
        })
    );
    assert!(pass.store);
    assert_eq!(pass.clear_color, Color::default_clear());
}

#[test]
fn render_pentagon_draws_nine_indices_once() {
    let mut state = State::new(size(800, 600), Scene::Pentagon);
    let pass = state.render(Ok(())).unwrap();
    assert_eq!(
        pass.draw,
        Some(Draw::Indexed {
            indices: DrawRange { start: 0, end: 9 },
            base_vertex: 0,
            instances: one_instance(),
        })
    );
}

#[test]
fn render_uses_the_stored_clear_color() {
    let mut state = State::new(size(800, 600), Scene::Triangle);
    state.update_clear_color(0.5f64.to_bits(), 0.125f64.to_bits());
    let pass = state.render(Ok(())).unwrap();
    assert_eq!(f64::from_bits(pass.clear_color.r), 0.5);
    assert_eq!(f64::from_bits(pass.clear_color.g), 0.125);
    assert_eq!(f64::from_bits(pass.clear_color.b), 1.0);
    assert_eq!(f64::from_bits(pass.clear_color.a), 0.0);
}

#[test]
fn render_hands_every_error_back() {
    let mut state = State::new(size(800, 600), Scene::Pentagon);
    assert_eq!(state.render(Err(SwapChainError::Timeout)), Err(SwapChainError::Timeout));
    assert_eq!(state.render(Err(SwapChainError::Outdated)), Err(SwapChainError::Outdated));
    assert_eq!(state.render(Err(SwapChainError::Lost)), Err(SwapChainError::Lost));
    assert_eq!(
        state.render(Err(SwapChainError::OutOfMemory)),
        Err(SwapChainError::OutOfMemory)
    );
    assert_eq!(state.size(), size(800, 600));
}

#[test]
fn clear_scene_has_no_pipeline_and_no_buffers() {
    let state = State::new(size(800, 600), Scene::Clear);
    assert!(state.render_pipeline_descriptor().is_none());
    assert!(state.vertex_buffer_contents().is_none());
    assert!(state.index_buffer_contents().is_none());
}

#[test]
fn triangle_pipeline_reads_no_vertex_buffer() {
    let state = State::new(size(800, 600), Scene::Triangle);
    let pipeline = state.render_pipeline_descriptor().unwrap();
    assert!(pipeline.vertex_state.vertex_buffers.is_empty());
    assert_eq!(pipeline.vertex_state.index_format, IndexFormat::Uint16);
    assert_eq!(pipeline.primitive_topology, PrimitiveTopology::TriangleList);
    assert!(state.vertex_buffer_contents().is_none());
    assert!(state.index_buffer_contents().is_none());
}

#[test]
fn pipeline_state_is_fixed() {
    let state = State::new(size(800, 600), Scene::Pentagon);
    let pipeline = state.render_pipeline_descriptor().unwrap();
    let raster = pipeline.rasterization_state.unwrap();
    assert_eq!(raster.front_face, FrontFace::Ccw);
    assert_eq!(raster.cull_mode, CullMode::Back);
    assert!(!raster.clamp_depth);
    assert_eq!(raster.depth_bias, 0);
    assert_eq!(f32::from_bits(raster.depth_bias_slope_scale), 0.0);
    assert_eq!(f32::from_bits(raster.depth_bias_clamp), 0.0);
    assert_eq!(pipeline.primitive_topology, PrimitiveTopology::TriangleList);
    assert_eq!(pipeline.color_states.len(), 1);
    let color = pipeline.color_states[0];
    assert_eq!(color.format, state.swap_chain_descriptor().format);
    assert_eq!(color.format, TextureFormat::Bgra8UnormSrgb);
    let replace = BlendDescriptor {
        src_factor: BlendFactor::One,
        dst_factor: BlendFactor::Zero,
        operation: BlendOperation::Add,
    };
    assert_eq!(color.color_blend, replace);
    assert_eq!(color.alpha_blend, replace);
    assert_eq!(BlendDescriptor::replace(), replace);
    assert_eq!(color.write_mask.bits, 15);
    assert_eq!(pipeline.vertex_state.index_format, IndexFormat::Uint16);
    assert_eq!(pipeline.sample_count, 1);
    assert_eq!(pipeline.sample_mask, !0u32);
    assert!(!pipeline.alpha_to_coverage_enabled);
}

#[test]
fn pentagon_pipeline_reads_one_vertex_buffer() {
    let state = State::new(size(800, 600), Scene::Pentagon);
    let pipeline = state.render_pipeline_descriptor().unwrap();
    assert_eq!(pipeline.vertex_state.vertex_buffers.len(), 1);
    let buffer = &pipeline.vertex_state.vertex_buffers[0];
    assert_eq!(buffer.stride, 24);
    assert_eq!(buffer.step_mode, InputStepMode::Vertex);
    assert_eq!(buffer.attributes.len(), 2);
    assert_eq!(buffer.attributes[0].format, VertexFormat::Float3);
    assert_eq!(buffer.attributes[1].offset, 12);
}

#[test]
fn index_format_sizes() {
    assert_eq!(IndexFormat::Uint16.size(), 2);
    assert_eq!(IndexFormat::Uint32.size(), 4);
}

#[test]
fn state_is_reachable_from_the_crate_root() {
    let state = render_loop::State::new(size(2, 3), Scene::Clear);
    assert_eq!(state.size(), size(2, 3));
    let vertex = render_loop::Vertex::new([1, 2, 3], [4, 5, 6]);
    assert_eq!(vertex.position, [1, 2, 3]);
    assert_eq!(vertex.color, [4, 5, 6]);
    let driver = render_loop::Driver::new(state);
    assert!(!driver.is_terminated());
}
