//! The fixed-function state of the render pipeline.

use vstd::prelude::*;
use crate::swap_chain::TextureFormat;
use crate::vertex::{VertexBufferDescriptor, VertexBufferLayout};

verus! {

/// How consecutive vertices are assembled into primitives.
#[derive(Clone, Copy, Debug, PartialEq, Eq, Structural)]
pub enum PrimitiveTopology {
    PointList,
    LineList,
    LineStrip,
    TriangleList,
    TriangleStrip,
}

impl PrimitiveTopology {
    /// Whether a draw of `count` vertices or indices is made of whole
    /// primitives only.
    pub open spec fn draws_whole_primitives(self, count: int) -> bool {
        match self {
            PrimitiveTopology::PointList => count >= 0,
            PrimitiveTopology::LineList => count >= 0 && count % 2 == 0,
            PrimitiveTopology::LineStrip => count == 0 || count >= 2,
            PrimitiveTopology::TriangleList => count >= 0 && count % 3 == 0,
            PrimitiveTopology::TriangleStrip => count == 0 || count >= 3,
        }
    }
}

/// The winding order of a triangle that faces the viewer.
#[derive(Clone, Copy, Debug, PartialEq, Eq, Structural)]
pub enum FrontFace {
    Ccw,
    Cw,
}

/// Which triangles are dropped before rasterization.
#[derive(Clone, Copy, Debug, PartialEq, Eq, Structural)]
pub enum CullMode {
    /// Nothing is dropped.
    Disabled,
    /// Triangles that face the viewer are dropped.
    Front,
    /// Triangles that face away from the viewer are dropped.
    Back,
}

/// The integer type of the indices in an index buffer.
#[derive(Clone, Copy, Debug, PartialEq, Eq, Structural)]
pub enum IndexFormat {
    Uint16,
    Uint32,
}

impl IndexFormat {
    /// How many bytes one index takes.
    pub open spec fn spec_size(self) -> u64 {
        match self {
            IndexFormat::Uint16 => 2,
            IndexFormat::Uint32 => 4,
        }
    }

    #[verifier::when_used_as_spec(spec_size)]
    pub fn size(self) -> (bytes: u64)
        ensures
            bytes == self.spec_size(),
    {
        match self {
            IndexFormat::Uint16 => 2,
            IndexFormat::Uint32 => 4,
        }
    }
}

/// A factor of the blend equation.
#[derive(Clone, Copy, Debug, PartialEq, Eq, Structural)]
pub enum BlendFactor {
    Zero,
    One,
    SrcColor,
    OneMinusSrcColor,
    SrcAlpha,
    OneMinusSrcAlpha,
    DstColor,
    OneMinusDstColor,
    DstAlpha,
    OneMinusDstAlpha,
    SrcAlphaSaturated,
    BlendColor,
    OneMinusBlendColor,
}

/// The operation of the blend equation.
#[derive(Clone, Copy, Debug, PartialEq, Eq, Structural)]
pub enum BlendOperation {
    Add,
    Subtract,
    ReverseSubtract,
    Min,
    Max,
}

/// How a fragment's output is combined with what the target holds.
#[derive(Clone, Copy, Debug, PartialEq, Eq, Structural)]
pub struct BlendDescriptor {
    pub src_factor: BlendFactor,
    pub dst_factor: BlendFactor,
    pub operation: BlendOperation,
}

impl BlendDescriptor {
    /// The fragment's output replaces what the target holds.
    pub open spec fn spec_replace() -> BlendDescriptor {
        BlendDescriptor {
            src_factor: BlendFactor::One,
            dst_factor: BlendFactor::Zero,
            operation: BlendOperation::Add,
        }
    }

    #[verifier::when_used_as_spec(spec_replace)]
    pub fn replace() -> (blend: BlendDescriptor)
        ensures
            blend == BlendDescriptor::spec_replace(),
    {
        BlendDescriptor {
            src_factor: BlendFactor::One,
            dst_factor: BlendFactor::Zero,
            operation: BlendOperation::Add,
        }
    }
}

/// The channels of the target that a pipeline writes, as a bit set:
/// red is 1, green 2, blue 4 and alpha 8.
#[derive(Clone, Copy, Debug, PartialEq, Eq, Structural)]
pub struct ColorWrite {
    pub bits: u32,
}

/// All four channels.
pub const COLOR_WRITE_ALL: u32 = 15;

/// What a pipeline does to one colour target.
#[derive(Clone, Copy, Debug, PartialEq, Eq, Structural)]
pub struct ColorStateDescriptor {
    pub format: TextureFormat,
    pub alpha_blend: BlendDescriptor,
    pub color_blend: BlendDescriptor,
    pub write_mask: ColorWrite,
}

/// How triangles are turned into fragments.
///
/// The slope scale and the clamp of the depth bias are binary32 numbers
/// in IEEE 754 interchange format, kept as their 32 bits.
#[derive(Clone, Copy, Debug, PartialEq, Eq, Structural)]
pub struct RasterizationStateDescriptor {
    pub front_face: FrontFace,
    pub cull_mode: CullMode,
    pub clamp_depth: bool,
    pub depth_bias: i32,
    pub depth_bias_slope_scale: u32,
    pub depth_bias_clamp: u32,
}

/// The vertex input of a pipeline.
#[derive(Clone, Debug)]
pub struct VertexStateDescriptor {
    pub index_format: IndexFormat,
    pub vertex_buffers: Vec<VertexBufferDescriptor>,
}

/// A render pipeline without depth or stencil state.
#[derive(Clone, Debug)]
pub struct RenderPipelineDescriptor {
    pub rasterization_state: Option<RasterizationStateDescriptor>,
    pub primitive_topology: PrimitiveTopology,
    pub color_states: Vec<ColorStateDescriptor>,
    pub vertex_state: VertexStateDescriptor,
    pub sample_count: u32,
    pub sample_mask: u32,
    pub alpha_to_coverage_enabled: bool,
}

/// A render pipeline as a mathematical value.
pub struct RenderPipelineModel {
    pub rasterization_state: Option<RasterizationStateDescriptor>,
    pub primitive_topology: PrimitiveTopology,
    pub color_states: Seq<ColorStateDescriptor>,
    pub index_format: IndexFormat,
    pub vertex_buffers: Seq<VertexBufferLayout>,
    pub sample_count: u32,
    pub sample_mask: u32,
    pub alpha_to_coverage_enabled: bool,
}

impl View for RenderPipelineDescriptor {
    type V = RenderPipelineModel;

    open spec fn view(&self) -> RenderPipelineModel {
        RenderPipelineModel {
            rasterization_state: self.rasterization_state,
            primitive_topology: self.primitive_topology,
            color_states: self.color_states@,
            index_format: self.vertex_state.index_format,
            vertex_buffers: self.vertex_state.vertex_buffers@.map_values(
                |buffer: VertexBufferDescriptor| buffer@,
            ),
            sample_count: self.sample_count,
            sample_mask: self.sample_mask,
            alpha_to_coverage_enabled: self.alpha_to_coverage_enabled,
        }
    }
}

impl RenderPipelineModel {
    /// The pipeline that draws triangle lists into one target of the given
    /// format: counter-clockwise triangles face the viewer, those that face
    /// away are dropped, there is no depth bias, fragments replace what the
    /// target holds in all four channels, indices are 16 bits wide and
    /// every pixel has one sample.
    pub open spec fn triangles(
        target: TextureFormat,
        vertex_buffers: Seq<VertexBufferLayout>,
    ) -> RenderPipelineModel {
        RenderPipelineModel {
            rasterization_state: Some(
                RasterizationStateDescriptor {
                    front_face: FrontFace::Ccw,
                    cull_mode: CullMode::Back,
                    clamp_depth: false,
                    depth_bias: 0,
                    depth_bias_slope_scale: 0,
                    depth_bias_clamp: 0,
                },
            ),
            primitive_topology: PrimitiveTopology::TriangleList,
            color_states: seq![
                ColorStateDescriptor {
                    format: target,
                    alpha_blend: BlendDescriptor::spec_replace(),
                    color_blend: BlendDescriptor::spec_replace(),
                    write_mask: ColorWrite { bits: COLOR_WRITE_ALL },
                },
            ],
            index_format: IndexFormat::Uint16,
            vertex_buffers,
            sample_count: 1,
            sample_mask: 0xFFFF_FFFF,
            alpha_to_coverage_enabled: false,
        }
    }
}

impl RenderPipelineDescriptor {
    /// The pipeline that draws triangle lists from the given vertex buffers
    /// into one target of the given format.
    pub fn triangles(target: TextureFormat, vertex_buffers: Vec<VertexBufferDescriptor>) -> (pipeline:
        RenderPipelineDescriptor)
        ensures
            pipeline@ == RenderPipelineModel::triangles(
                target,
                vertex_buffers@.map_values(|buffer: VertexBufferDescriptor| buffer@),
            ),
    {
        let mut color_states: Vec<ColorStateDescriptor> = Vec::new();
        color_states.push(
            ColorStateDescriptor {
                format: target,
                alpha_blend: BlendDescriptor::replace(),
                color_blend: BlendDescriptor::replace(),
                write_mask: ColorWrite { bits: COLOR_WRITE_ALL },
            },
        );
        let pipeline = RenderPipelineDescriptor {
            rasterization_state: Some(
                RasterizationStateDescriptor {
                    front_face: FrontFace::Ccw,
                    cull_mode: CullMode::Back,
                    clamp_depth: false,
                    depth_bias: 0,
                    depth_bias_slope_scale: 0,
                    depth_bias_clamp: 0,
                },
            ),
            primitive_topology: PrimitiveTopology::TriangleList,
            color_states,
            vertex_state: VertexStateDescriptor { index_format: IndexFormat::Uint16, vertex_buffers },
            sample_count: 1,
            sample_mask: 0xFFFF_FFFF,
            alpha_to_coverage_enabled: false,
        };
        assert(pipeline@.color_states =~= RenderPipelineModel::triangles(
            target,
            vertex_buffers@.map_values(|buffer: VertexBufferDescriptor| buffer@),
        ).color_states);
        pipeline
    }
}

} // verus!
