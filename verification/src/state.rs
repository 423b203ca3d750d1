//! The render state: what is presented, at which size, and what a frame
//! is made of.

use vstd::prelude::*;
use crate::color::Color;
use crate::dpi::PhysicalSize;
use crate::event::WindowEvent;
use crate::pipeline::{PrimitiveTopology, RenderPipelineDescriptor, RenderPipelineModel};
use crate::swap_chain::{SwapChainDescriptor, SwapChainError};
use crate::vertex::{
    flatten, index_buffer_contents, indices, is_triangle_list, pentagon_indices,
    pentagon_vertices, vertex_buffer_contents, vertices, Vertex, VertexBufferDescriptor,
};
use crate::bytes::{holds_u16s, holds_u32s};

verus! {

/// What the render state draws.
#[derive(Clone, Copy, Debug, PartialEq, Eq, Structural)]
pub enum Scene {
    /// Nothing: a frame is the clear colour.
    Clear,
    /// One triangle whose corners the vertex shader makes up.
    Triangle,
    /// A pentagon of three triangles, read from a vertex and an index
    /// buffer.
    Pentagon,
}

impl Scene {
    /// How many vertices the scene has.
    pub open spec fn vertex_count(self) -> u32 {
        match self {
            Scene::Clear => 0,
            Scene::Triangle => 3,
            Scene::Pentagon => 5,
        }
    }

    /// How many indices the scene has.
    pub open spec fn index_count(self) -> u32 {
        match self {
            Scene::Clear => 0,
            Scene::Triangle => 0,
            Scene::Pentagon => 9,
        }
    }
}

/// A half-open range of vertices, indices or instances.
#[derive(Clone, Copy, Debug, PartialEq, Eq, Structural)]
pub struct DrawRange {
    pub start: u32,
    pub end: u32,
}

impl DrawRange {
    /// How many items the range holds.
    pub open spec fn count(self) -> int {
        if self.start <= self.end {
            self.end - self.start
        } else {
            0
        }
    }
}

/// One draw call.
#[derive(Clone, Copy, Debug, PartialEq, Eq, Structural)]
pub enum Draw {
    /// Consecutive vertices, without buffers.
    Vertices { vertices: DrawRange, instances: DrawRange },
    /// Vertices picked by the indices of the index buffer, from the vertex
    /// buffer in slot 0; `base_vertex` is added to every index.
    Indexed { indices: DrawRange, base_vertex: i32, instances: DrawRange },
}

/// The commands of one frame: a single pass over the frame's image.
#[derive(Clone, Copy, Debug, PartialEq, Eq, Structural)]
pub struct RenderPass {
    /// The colour the image is cleared to when the pass begins.
    pub clear_color: Color,
    /// Whether the image is kept when the pass ends.
    pub store: bool,
    /// The draw call made with the pipeline bound, if the scene has one.
    pub draw: Option<Draw>,
}

/// The render state as a mathematical value.
pub struct StateView {
    pub swap_chain_descriptor: SwapChainDescriptor,
    pub size: PhysicalSize,
    pub clear_color: Color,
    pub scene: Scene,
    pub num_vertices: u32,
    pub num_indices: u32,
}

impl StateView {
    /// The presentation target is described at the surface's size, and the
    /// counts are those of the scene.
    pub open spec fn wf(self) -> bool {
        &&& self.swap_chain_descriptor == SwapChainDescriptor::for_size(self.size)
        &&& self.num_vertices == self.scene.vertex_count()
        &&& self.num_indices == self.scene.index_count()
    }

    /// The state made for a surface of the given size.
    pub open spec fn initial(size: PhysicalSize, scene: Scene) -> StateView {
        StateView {
            swap_chain_descriptor: SwapChainDescriptor::for_size(size),
            size,
            clear_color: Color::initial(),
            scene,
            num_vertices: scene.vertex_count(),
            num_indices: scene.index_count(),
        }
    }

    /// The state after the surface was resized. A size without area is
    /// ignored: no presentation target of that size can exist.
    pub open spec fn resized(self, new_size: PhysicalSize) -> StateView {
        if new_size.has_area() {
            StateView {
                size: new_size,
                swap_chain_descriptor: self.swap_chain_descriptor.with_size(new_size),
                ..self
            }
        } else {
            self
        }
    }

    /// The state after the clear colour was set from two ratios.
    pub open spec fn recolored(self, x: u64, y: u64) -> StateView {
        StateView { clear_color: Color::tracking(x, y), ..self }
    }

    /// The draw call of a frame.
    pub open spec fn draw(self) -> Option<Draw> {
        match self.scene {
            Scene::Clear => None,
            Scene::Triangle => Some(
                Draw::Vertices {
                    vertices: DrawRange { start: 0, end: self.num_vertices },
                    instances: DrawRange { start: 0, end: 1 },
                },
            ),
            Scene::Pentagon => Some(
                Draw::Indexed {
                    indices: DrawRange { start: 0, end: self.num_indices },
                    base_vertex: 0,
                    instances: DrawRange { start: 0, end: 1 },
                },
            ),
        }
    }

    /// The commands of a frame.
    pub open spec fn render_pass(self) -> RenderPass {
        RenderPass { clear_color: self.clear_color, store: true, draw: self.draw() }
    }

    /// The pipeline the scene is drawn with, if it has one.
    pub open spec fn render_pipeline(self) -> Option<RenderPipelineModel> {
        match self.scene {
            Scene::Clear => None,
            Scene::Triangle => Some(
                RenderPipelineModel::triangles(self.swap_chain_descriptor.format, seq![]),
            ),
            Scene::Pentagon => Some(
                RenderPipelineModel::triangles(
                    self.swap_chain_descriptor.format,
                    seq![Vertex::layout()],
                ),
            ),
        }
    }
}

/// The render state.
pub struct State {
    swap_chain_descriptor: SwapChainDescriptor,
    size: PhysicalSize,
    clear_color: Color,
    scene: Scene,
    num_vertices: u32,
    num_indices: u32,
}

impl View for State {
    type V = StateView;

    closed spec fn view(&self) -> StateView {
        StateView {
            swap_chain_descriptor: self.swap_chain_descriptor,
            size: self.size,
            clear_color: self.clear_color,
            scene: self.scene,
            num_vertices: self.num_vertices,
            num_indices: self.num_indices,
        }
    }
}

impl State {
    /// What holds of every render state: its view is well formed.
    #[verifier::type_invariant]
    pub open spec fn inv(self) -> bool {
        self@.wf()
    }

    /// Makes the state for a surface of the given size: the presentation
    /// target is described at that size and the clear colour is the
    /// initial one.
    pub fn new(size: PhysicalSize, scene: Scene) -> (state: State)
        ensures
            state@ == StateView::initial(size, scene),
            state@.wf(),
    {
        let (num_vertices, num_indices): (u32, u32) = match scene {
            Scene::Clear => (0, 0),
            Scene::Triangle => (3, 0),
            Scene::Pentagon => (5, 9),
        };
        State {
            swap_chain_descriptor: SwapChainDescriptor::new(size),
            size,
            clear_color: Color::default_clear(),
            scene,
            num_vertices,
            num_indices,
        }
    }

    /// Follows the surface to a new size. Returns the description to create
    /// the presentation target anew with, or `None` where the size has no
    /// area and the state stays as it is.
    pub fn resize(&mut self, new_size: PhysicalSize) -> (target: Option<SwapChainDescriptor>)
        ensures
            final(self)@ == old(self)@.resized(new_size),
            final(self)@.wf(),
            target == if new_size.has_area() {
                Some(final(self)@.swap_chain_descriptor)
            } else {
                None
            },
        no_unwind
    {
        proof {
            use_type_invariant(&*self);
        }
        if new_size.is_presentable() {
            let descriptor = SwapChainDescriptor {
                width: new_size.width,
                height: new_size.height,
                ..self.swap_chain_descriptor
            };
            *self = State { size: new_size, swap_chain_descriptor: descriptor, ..*self };
            Some(descriptor)
        } else {
            None
        }
    }

    /// Offers a window event to the state. The state takes none: the
    /// result is always `false` and the state stays as it is.
    pub fn input(&mut self, event: &WindowEvent) -> (handled: bool)
        ensures
            !handled,
            final(self)@ == old(self)@,
        no_unwind
    {
        false
    }

    /// Advances what changes with time, which is nothing.
    pub fn update(&mut self)
        ensures
            final(self)@ == old(self)@,
        no_unwind
    {
    }

    /// Decides what a frame is made of, given how acquiring the frame went:
    /// the commands to record where a frame was acquired, the same error
    /// where it was not.
    pub fn render(&mut self, frame: Result<(), SwapChainError>) -> (pass: Result<
        RenderPass,
        SwapChainError,
    >)
        ensures
            final(self)@ == old(self)@,
            pass == match frame {
                Ok(_) => Ok::<RenderPass, SwapChainError>(old(self)@.render_pass()),
                Err(error) => Err(error),
            },
        no_unwind
    {
        match frame {
            Ok(_) => {
                let draw = match self.scene {
                    Scene::Clear => None,
                    Scene::Triangle => Some(
                        Draw::Vertices {
                            vertices: DrawRange { start: 0, end: self.num_vertices },
                            instances: DrawRange { start: 0, end: 1 },
                        },
                    ),
                    Scene::Pentagon => Some(
                        Draw::Indexed {
                            indices: DrawRange { start: 0, end: self.num_indices },
                            base_vertex: 0,
                            instances: DrawRange { start: 0, end: 1 },
                        },
                    ),
                };
                Ok(RenderPass { clear_color: self.clear_color, store: true, draw })
            },
            Err(error) => Err(error),
        }
    }

    /// The size of the surface.
    pub fn size(&self) -> (size: PhysicalSize)
        ensures
            size == self@.size,
    {
        self.size
    }

    /// The description the presentation target was last created with.
    pub fn swap_chain_descriptor(&self) -> (descriptor: SwapChainDescriptor)
        ensures
            descriptor == self@.swap_chain_descriptor,
            descriptor == SwapChainDescriptor::for_size(self@.size),
    {
        proof {
            use_type_invariant(self);
        }
        self.swap_chain_descriptor
    }

    /// The colour a frame is cleared to.
    pub fn clear_color(&self) -> (color: Color)
        ensures
            color == self@.clear_color,
    {
        self.clear_color
    }

    /// What the state draws.
    pub fn scene(&self) -> (scene: Scene)
        ensures
            scene == self@.scene,
    {
        self.scene
    }

    /// How many vertices the scene has.
    pub fn num_vertices(&self) -> (count: u32)
        ensures
            count == self@.num_vertices,
            count == self@.scene.vertex_count(),
    {
        proof {
            use_type_invariant(self);
        }
        self.num_vertices
    }

    /// How many indices the scene has.
    pub fn num_indices(&self) -> (count: u32)
        ensures
            count == self@.num_indices,
            count == self@.scene.index_count(),
    {
        proof {
            use_type_invariant(self);
        }
        self.num_indices
    }

    /// The pipeline to draw the scene with, for a target of the format that
    /// is presented; `None` where the scene draws nothing.
    pub fn render_pipeline_descriptor(&self) -> (pipeline: Option<RenderPipelineDescriptor>)
        ensures
            match self@.render_pipeline() {
                None => pipeline is None,
                Some(model) => pipeline is Some && pipeline->0@ == model,
            },
    {
        match self.scene {
            Scene::Clear => None,
            Scene::Triangle => {
                let buffers: Vec<VertexBufferDescriptor> = Vec::new();
                let pipeline = RenderPipelineDescriptor::triangles(
                    self.swap_chain_descriptor.format,
                    buffers,
                );
                assert(buffers@.map_values(|buffer: VertexBufferDescriptor| buffer@)
                    =~= Seq::<crate::vertex::VertexBufferLayout>::empty());
                Some(pipeline)
            },
            Scene::Pentagon => {
                let mut buffers: Vec<VertexBufferDescriptor> = Vec::new();
                buffers.push(Vertex::descriptor());
                let pipeline = RenderPipelineDescriptor::triangles(
                    self.swap_chain_descriptor.format,
                    buffers,
                );
                assert(buffers@.map_values(|buffer: VertexBufferDescriptor| buffer@)
                    =~= seq![Vertex::layout()]);
                Some(pipeline)
            },
        }
    }

    /// The bytes to fill the vertex buffer with: the corners of the
    /// pentagon in the byte order of the machine. `None` where the scene
    /// reads no vertex buffer.
    pub fn vertex_buffer_contents(&self) -> (contents: Option<Vec<u8>>)
        ensures
            self@.scene != Scene::Pentagon ==> contents is None,
            self@.scene == Scene::Pentagon ==> {
                &&& contents is Some
                &&& holds_u32s(contents->0@, flatten(pentagon_vertices()))
                &&& contents->0@.len() == Vertex::layout().stride * self@.num_vertices
            },
    {
        proof {
            use_type_invariant(self);
        }
        match self.scene {
            Scene::Pentagon => {
                let corners = vertices();
                Some(vertex_buffer_contents(corners.as_slice()))
            },
            _ => None,
        }
    }

    /// The bytes to fill the index buffer with: the indices of the
    /// pentagon's triangles in the byte order of the machine. `None` where
    /// the scene reads no index buffer.
    pub fn index_buffer_contents(&self) -> (contents: Option<Vec<u8>>)
        ensures
            self@.scene != Scene::Pentagon ==> contents is None,
            self@.scene == Scene::Pentagon ==> {
                &&& contents is Some
                &&& holds_u16s(contents->0@, pentagon_indices())
                &&& contents->0@.len() == 2 * self@.num_indices
            },
    {
        proof {
            use_type_invariant(self);
        }
        match self.scene {
            Scene::Pentagon => {
                let triangles = indices();
                Some(index_buffer_contents(triangles.as_slice()))
            },
            _ => None,
        }
    }

    /// Sets the clear colour from two ratios: red is `x_modifier`, green is
    /// `y_modifier`, blue is one and alpha is zero.
    pub fn update_clear_color(&mut self, x_modifier: u64, y_modifier: u64)
        ensures
            final(self)@ == old(self)@.recolored(x_modifier, y_modifier),
            final(self)@.wf(),
        no_unwind
    {
        proof {
            use_type_invariant(&*self);
        }
        *self = State { clear_color: Color::from_ratios(x_modifier, y_modifier), ..*self };
    }
}

/// A resize to a size with area sets the stored size and the dimensions
/// of the presentation target to exactly that size and changes nothing
/// else, so that the frame rendered next is drawn into a target of the
/// surface's size.
pub proof fn lemma_resize_sets_size(state: StateView, new_size: PhysicalSize)
    requires
        state.wf(),
        new_size.has_area(),
    ensures
        state.resized(new_size).size == new_size,
        state.resized(new_size).swap_chain_descriptor.extent() == new_size,
        state.resized(new_size).swap_chain_descriptor == SwapChainDescriptor::for_size(new_size),
        state.resized(new_size).wf(),
        state.resized(new_size).render_pass() == state.render_pass(),
{
}

/// A resize to a size without area changes nothing.
pub proof fn lemma_resize_ignores_empty(state: StateView, new_size: PhysicalSize)
    requires
        !new_size.has_area(),
    ensures
        state.resized(new_size) == state,
{
}

/// The dimensions of the presentation target are those of the surface at
/// the start and after every resize and every change of the clear colour.
pub proof fn lemma_target_matches_surface(
    size: PhysicalSize,
    scene: Scene,
    state: StateView,
    new_size: PhysicalSize,
    x: u64,
    y: u64,
)
    requires
        state.wf(),
    ensures
        StateView::initial(size, scene).wf(),
        state.resized(new_size).wf(),
        state.recolored(x, y).wf(),
        state.swap_chain_descriptor.extent() == state.size,
{
}

/// A resize to the size the state already has leaves the state as it is.
pub proof fn lemma_resize_to_current_size(state: StateView)
    requires
        state.wf(),
    ensures
        state.resized(state.size) == state,
{
}

/// The triangle scene draws exactly three vertices in one instance,
/// whatever size and clear colour the state has.
pub proof fn lemma_triangle_draw(state: StateView)
    requires
        state.wf(),
        state.scene == Scene::Triangle,
    ensures
        state.render_pass().draw == Some(
            Draw::Vertices {
                vertices: DrawRange { start: 0, end: 3 },
                instances: DrawRange { start: 0, end: 1 },
            },
        ),
        state.render_pass().draw->0->vertices.count() == 3,
        state.render_pass().draw->0->Vertices_instances.count() == 1,
{
}

/// The pentagon scene draws exactly nine indices in one instance: the
/// whole index buffer, which makes three triangles and names only
/// vertices that the five-vertex buffer holds.
pub proof fn lemma_pentagon_draw(state: StateView)
    requires
        state.wf(),
        state.scene == Scene::Pentagon,
    ensures
        state.render_pass().draw == Some(
            Draw::Indexed {
                indices: DrawRange { start: 0, end: 9 },
                base_vertex: 0,
                instances: DrawRange { start: 0, end: 1 },
            },
        ),
        state.render_pass().draw->0->indices.count() == 9,
        state.render_pass().draw->0->Indexed_instances.count() == 1,
        state.num_indices == pentagon_indices().len(),
        state.num_vertices == pentagon_vertices().len() == 5,
        is_triangle_list(pentagon_indices(), state.num_vertices as int),
        PrimitiveTopology::TriangleList.draws_whole_primitives(9),
        state.render_pipeline()->0.primitive_topology == PrimitiveTopology::TriangleList,
{
}

/// The scene that draws nothing makes no draw call and has no pipeline.
pub proof fn lemma_clear_draws_nothing(state: StateView)
    requires
        state.scene == Scene::Clear,
    ensures
        state.render_pass().draw is None,
        state.render_pipeline() is None,
{
}

} // verus!
