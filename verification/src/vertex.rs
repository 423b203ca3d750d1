//! Vertices, the way they are laid out in a vertex buffer, and the
//! pentagon that the indexed scene draws.

use vstd::prelude::*;
use crate::bytes::{
    cast_u16s, cast_u32s, decode_u32, encode_u32s, holds_u16s, holds_u32s,
    lemma_decode_encode_u32s, ByteOrder,
};

verus! {

/// The number format of one vertex attribute.
#[derive(Clone, Copy, Debug, PartialEq, Eq, Structural)]
pub enum VertexFormat {
    /// One 32-bit number.
    Float,
    /// Two 32-bit numbers.
    Float2,
    /// Three 32-bit numbers.
    Float3,
    /// Four 32-bit numbers.
    Float4,
}

impl VertexFormat {
    /// How many 32-bit numbers an attribute of this format has.
    pub open spec fn components(self) -> int {
        match self {
            VertexFormat::Float => 1,
            VertexFormat::Float2 => 2,
            VertexFormat::Float3 => 3,
            VertexFormat::Float4 => 4,
        }
    }

    /// How many bytes an attribute of this format takes.
    pub open spec fn spec_size(self) -> u64 {
        (4 * self.components()) as u64
    }

    #[verifier::when_used_as_spec(spec_size)]
    pub fn size(self) -> (bytes: u64)
        ensures
            bytes == self.spec_size(),
            bytes == 4 * self.components(),
    {
        match self {
            VertexFormat::Float => 4,
            VertexFormat::Float2 => 8,
            VertexFormat::Float3 => 12,
            VertexFormat::Float4 => 16,
        }
    }
}

/// Whether a vertex buffer moves on with every vertex or every instance.
#[derive(Clone, Copy, Debug, PartialEq, Eq, Structural)]
pub enum InputStepMode {
    Vertex,
    Instance,
}

/// Where one input of the vertex shader is found inside a vertex.
#[derive(Clone, Copy, Debug, PartialEq, Eq, Structural)]
pub struct VertexAttributeDescriptor {
    /// Bytes from the start of the vertex to the attribute.
    pub offset: u64,
    pub format: VertexFormat,
    /// The input's location in the shader.
    pub shader_location: u32,
}

impl VertexAttributeDescriptor {
    /// One byte past the attribute, counted from the start of the vertex.
    pub open spec fn end(self) -> int {
        self.offset + self.format.size()
    }
}

/// How a vertex buffer is read, as a mathematical value.
pub struct VertexBufferLayout {
    pub stride: int,
    pub step_mode: InputStepMode,
    pub attributes: Seq<VertexAttributeDescriptor>,
}

impl VertexBufferLayout {
    /// Every attribute lies inside one stride, no two of them share a byte
    /// and no two of them feed the same shader input.
    pub open spec fn wf(self) -> bool {
        &&& forall|i: int|
            0 <= i < self.attributes.len() ==> (#[trigger] self.attributes[i]).end()
                <= self.stride
        &&& forall|i: int, j: int|
            0 <= i < j < self.attributes.len() ==> (#[trigger] self.attributes[i]).end() <= (
            #[trigger] self.attributes[j]).offset
        &&& forall|i: int, j: int|
            0 <= i < j < self.attributes.len() ==> (#[trigger] self.attributes[i]).shader_location
                != (#[trigger] self.attributes[j]).shader_location
    }
}

/// How a vertex buffer is read.
#[derive(Clone, Debug)]
pub struct VertexBufferDescriptor {
    /// Bytes from one vertex to the next.
    pub stride: u64,
    pub step_mode: InputStepMode,
    pub attributes: Vec<VertexAttributeDescriptor>,
}

impl View for VertexBufferDescriptor {
    type V = VertexBufferLayout;

    open spec fn view(&self) -> VertexBufferLayout {
        VertexBufferLayout {
            stride: self.stride as int,
            step_mode: self.step_mode,
            attributes: self.attributes@,
        }
    }
}

/// The 32-bit numbers one vertex is made of.
pub const VERTEX_WORDS: usize = 6;

/// The bytes one vertex takes in a vertex buffer.
pub const VERTEX_STRIDE: u64 = 24;

/// A point of a mesh with its colour.
///
/// Every number is a binary32 in IEEE 754 interchange format, kept as its
/// 32 bits: the library places the numbers in buffers and never computes
/// with them.
#[derive(Clone, Copy, Debug)]
pub struct Vertex {
    pub position: [u32; 3],
    pub color: [u32; 3],
}

impl Vertex {
    /// The `k`-th number of the vertex: the position first, then the colour.
    pub open spec fn word(self, k: int) -> u32 {
        if k < 3 {
            self.position[k]
        } else {
            self.color[k - 3]
        }
    }

    /// The numbers that feed the shader input at `location`.
    pub open spec fn attribute(self, location: u32) -> [u32; 3] {
        if location == 0 {
            self.position
        } else {
            self.color
        }
    }

    /// The layout of a buffer of vertices: the position is input 0 at the
    /// start of the vertex and the colour is input 1 right behind it.
    pub open spec fn layout() -> VertexBufferLayout {
        VertexBufferLayout {
            stride: VERTEX_STRIDE as int,
            step_mode: InputStepMode::Vertex,
            attributes: seq![
                VertexAttributeDescriptor {
                    offset: 0,
                    format: VertexFormat::Float3,
                    shader_location: 0,
                },
                VertexAttributeDescriptor {
                    offset: 12,
                    format: VertexFormat::Float3,
                    shader_location: 1,
                },
            ],
        }
    }

    pub fn new(position: [u32; 3], color: [u32; 3]) -> (vertex: Vertex)
        ensures
            vertex.position == position,
            vertex.color == color,
    {
        Vertex { position, color }
    }

    /// The description of a vertex buffer that holds vertices of this type.
    pub fn descriptor() -> (descriptor: VertexBufferDescriptor)
        ensures
            descriptor@ == Vertex::layout(),
            descriptor@.wf(),
    {
        let mut attributes: Vec<VertexAttributeDescriptor> = Vec::new();
        attributes.push(
            VertexAttributeDescriptor {
                offset: 0,
                format: VertexFormat::Float3,
                shader_location: 0,
            },
        );
        attributes.push(
            VertexAttributeDescriptor {
                offset: VertexFormat::Float3.size(),
                format: VertexFormat::Float3,
                shader_location: 1,
            },
        );
        let descriptor = VertexBufferDescriptor {
            stride: VERTEX_STRIDE,
            step_mode: InputStepMode::Vertex,
            attributes,
        };
        proof {
            assert(descriptor@.attributes =~= Vertex::layout().attributes);
            lemma_layout_wf();
        }
        descriptor
    }
}

/// The layout of a vertex is well formed, and its attributes fill the
/// stride without a gap.
pub proof fn lemma_layout_wf()
    ensures
        Vertex::layout().wf(),
        Vertex::layout().attributes[0].offset == 0,
        Vertex::layout().attributes[0].end() == Vertex::layout().attributes[1].offset,
        Vertex::layout().attributes[1].end() == Vertex::layout().stride,
        Vertex::layout().stride == 4 * VERTEX_WORDS,
{
}

/// The numbers of a run of vertices, one vertex after the other.
pub open spec fn flatten(vertices: Seq<Vertex>) -> Seq<u32> {
    Seq::new(6 * vertices.len(), |i: int| vertices[i / 6].word(i % 6))
}

/// In the bytes of a run of vertices every attribute of every vertex lies
/// where the layout says: `stride` bytes from one vertex to the next, and
/// inside the vertex at the attribute's offset, four bytes a number.
pub proof fn lemma_attribute_placement(
    vertices: Seq<Vertex>,
    order: ByteOrder,
    i: int,
    a: int,
    c: int,
)
    requires
        0 <= i < vertices.len(),
        0 <= a < Vertex::layout().attributes.len(),
        0 <= c < Vertex::layout().attributes[a].format.components(),
    ensures
        encode_u32s(flatten(vertices), order).len() == Vertex::layout().stride * vertices.len(),
        decode_u32(
            encode_u32s(flatten(vertices), order),
            i * Vertex::layout().stride + Vertex::layout().attributes[a].offset + 4 * c,
            order,
        ) == vertices[i].attribute(Vertex::layout().attributes[a].shader_location)[c],
{
    let j = 6 * i + 3 * a + c;
    assert(j / 6 == i && j % 6 == 3 * a + c);
    lemma_decode_encode_u32s(flatten(vertices), order, j);
}

/// The numbers of the given vertices in the order in which a vertex buffer
/// holds them.
pub fn vertex_words(vertices: &[Vertex]) -> (words: Vec<u32>)
    ensures
        words@ == flatten(vertices@),
{
    let mut words: Vec<u32> = Vec::new();
    let mut i: usize = 0;
    while i < vertices.len()
        invariant
            i <= vertices.len(),
            words@.len() == 6 * i,
            forall|k: int| 0 <= k < words@.len() ==> words@[k] == vertices@[k / 6].word(k % 6),
        decreases vertices.len() - i,
    {
        let vertex = vertices[i];
        words.push(vertex.position[0]);
        words.push(vertex.position[1]);
        words.push(vertex.position[2]);
        words.push(vertex.color[0]);
        words.push(vertex.color[1]);
        words.push(vertex.color[2]);
        i += 1;
    }
    assert(words@ =~= flatten(vertices@));
    words
}

/// The contents of a vertex buffer for the given vertices: their numbers
/// in the byte order of the machine.
pub fn vertex_buffer_contents(vertices: &[Vertex]) -> (bytes: Vec<u8>)
    ensures
        holds_u32s(bytes@, flatten(vertices@)),
        bytes@.len() == VERTEX_STRIDE * vertices@.len(),
{
    let words = vertex_words(vertices);
    cast_u32s(words.as_slice())
}

/// The contents of an index buffer for the given indices: the indices in
/// the byte order of the machine.
pub fn index_buffer_contents(indices: &[u16]) -> (bytes: Vec<u8>)
    ensures
        holds_u16s(bytes@, indices@),
        bytes@.len() == 2 * indices@.len(),
{
    cast_u16s(indices)
}

/// The binary32 nearest to one half.
pub const HALF: u32 = 0x3F00_0000;

/// The corners of the pentagon, counter-clockwise from the top, all in one
/// purple.
pub open spec fn pentagon_vertices() -> Seq<Vertex> {
    seq![
        Vertex { position: [0xBDB1_D0D5, 0x3EFC_1C5C, 0], color: [HALF, 0, HALF] },
        Vertex { position: [0xBEFD_8236, 0x3D8E_835A, 0], color: [HALF, 0, HALF] },
        Vertex { position: [0xBE60_7229, 0xBEE6_175F, 0], color: [HALF, 0, HALF] },
        Vertex { position: [0x3EB8_26AA, 0xBEB1_D51F, 0], color: [HALF, 0, HALF] },
        Vertex { position: [0x3EE2_08D8, 0x3E70_5E9C, 0], color: [HALF, 0, HALF] },
    ]
}

/// The three triangles that cover the pentagon, as indices into its
/// corners.
pub open spec fn pentagon_indices() -> Seq<u16> {
    seq![0, 1, 4, 1, 2, 4, 2, 3, 4]
}

/// Every index names a vertex, and the indices come in threes.
pub open spec fn is_triangle_list(indices: Seq<u16>, vertex_count: int) -> bool {
    &&& indices.len() % 3 == 0
    &&& forall|i: int| 0 <= i < indices.len() ==> (#[trigger] indices[i]) < vertex_count
}

/// The pentagon's indices form three triangles over its five corners.
pub proof fn lemma_pentagon_is_triangle_list()
    ensures
        pentagon_vertices().len() == 5,
        pentagon_indices().len() == 9,
        is_triangle_list(pentagon_indices(), 5),
{
}

/// The corners of the pentagon.
pub fn vertices() -> (vertices: Vec<Vertex>)
    ensures
        vertices@ == pentagon_vertices(),
{
    let mut vertices: Vec<Vertex> = Vec::new();
    vertices.push(Vertex { position: [0xBDB1_D0D5, 0x3EFC_1C5C, 0], color: [HALF, 0, HALF] });
    vertices.push(Vertex { position: [0xBEFD_8236, 0x3D8E_835A, 0], color: [HALF, 0, HALF] });
    vertices.push(Vertex { position: [0xBE60_7229, 0xBEE6_175F, 0], color: [HALF, 0, HALF] });
    vertices.push(Vertex { position: [0x3EB8_26AA, 0xBEB1_D51F, 0], color: [HALF, 0, HALF] });
    vertices.push(Vertex { position: [0x3EE2_08D8, 0x3E70_5E9C, 0], color: [HALF, 0, HALF] });
    assert(vertices@ =~= pentagon_vertices());
    vertices
}

/// The indices of the pentagon's triangles.
pub fn indices() -> (indices: Vec<u16>)
    ensures
        indices@ == pentagon_indices(),
{
    let mut indices: Vec<u16> = Vec::new();
    indices.push(0);
    indices.push(1);
    indices.push(4);
    indices.push(1);
    indices.push(2);
    indices.push(4);
    indices.push(2);
    indices.push(3);
    indices.push(4);
    assert(indices@ =~= pentagon_indices());
    indices
}

} // verus!
