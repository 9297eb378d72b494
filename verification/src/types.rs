//! The renderer's vocabulary: pipeline settings, vertex formats, resource handles.
use vstd::prelude::*;

use crate::buffer::Buffer;
use crate::gl::GLuint;

verus! {

/// How many textures one shader can sample.
pub const MAX_SHADERSTAGE_IMAGES: usize = 12;

/// How many vertex attribute slots are driven.
pub const MAX_VERTEX_ATTRIBUTES: usize = 16;

/// Which of the red, green, blue and alpha channels are written.
pub type ColorMask = (bool, bool, bool, bool);

/// A color as the bit patterns of four single-precision channels: red, green, blue, alpha.
pub type ColorBits = (u32, u32, u32, u32);

#[derive(Clone, Copy, Debug, PartialEq, Eq, Structural)]
pub enum UniformType {
    Float1,
    Float2,
    Float3,
    Float4,
    Int1,
    Int2,
    Int3,
    Int4,
    Mat4,
}

impl UniformType {
    /// Bytes that one value of the type takes: four per component.
    pub open spec fn bytes(self) -> usize {
        match self {
            UniformType::Float1 | UniformType::Int1 => 4,
            UniformType::Float2 | UniformType::Int2 => 8,
            UniformType::Float3 | UniformType::Int3 => 12,
            UniformType::Float4 | UniformType::Int4 => 16,
            UniformType::Mat4 => 64,
        }
    }

    /// Bytes that one value of the type takes.
    pub fn size(&self) -> (size: usize)
        ensures
            size == self.bytes(),
    {
        match self {
            UniformType::Float1 => 4,
            UniformType::Float2 => 8,
            UniformType::Float3 => 12,
            UniformType::Float4 => 16,
            UniformType::Int1 => 4,
            UniformType::Int2 => 8,
            UniformType::Int3 => 12,
            UniformType::Int4 => 16,
            UniformType::Mat4 => 64,
        }
    }
}

/// One uniform that a shader declares; `array_count` is 1 for a plain value.
#[derive(Clone, Debug)]
pub struct UniformDesc {
    pub name: String,
    pub uniform_type: UniformType,
    pub array_count: usize,
}

/// The uniforms of a shader, in the order in which they lie in memory.
#[derive(Clone, Debug)]
pub struct UniformBlockLayout {
    pub uniforms: Vec<UniformDesc>,
}

/// What a shader expects from its user: uniforms and sampled images, by name.
#[derive(Clone, Debug)]
pub struct ShaderMeta {
    pub uniforms: UniformBlockLayout,
    pub images: Vec<String>,
}

#[derive(Clone, Copy, Debug, PartialEq, Eq, Structural)]
pub enum VertexFormat {
    /// One 32-bit float
    Float1,
    Float2,
    Float3,
    Float4,
    /// One unsigned byte
    Byte1,
    Byte2,
    Byte3,
    Byte4,
    /// One unsigned 16-bit integer
    Short1,
    Short2,
    Short3,
    Short4,
    /// One unsigned 32-bit integer
    Int1,
    Int2,
    Int3,
    Int4,
    /// A four by four matrix of floats; it takes four attribute slots
    Mat4,
}

#[derive(Clone, Copy, Debug, PartialEq, Eq, Structural)]
pub enum VertexStep {
    PerVertex,
    PerInstance,
}

/// How the elements of one vertex buffer follow each other. A `stride` of 0 asks for tight
/// packing of the attributes that live in the buffer.
#[derive(Clone, Copy, Debug, PartialEq, Eq, Structural)]
pub struct BufferLayout {
    pub stride: i32,
    pub step_func: VertexStep,
    pub step_rate: i32,
}

impl Default for BufferLayout {
    fn default() -> (layout: BufferLayout)
        ensures
            layout == (BufferLayout { stride: 0, step_func: VertexStep::PerVertex, step_rate: 1 }),
    {
        BufferLayout { stride: 0, step_func: VertexStep::PerVertex, step_rate: 1 }
    }
}

/// A named vertex shader input and the buffer that feeds it.
#[derive(Clone, Copy, Debug)]
pub struct VertexAttribute {
    pub name: &'static str,
    pub format: VertexFormat,
    pub buffer_index: usize,
}

#[derive(Clone, Copy, Debug, PartialEq, Eq, Structural)]
pub enum ShaderType {
    Vertex,
    Fragment,
}

/// Handle of a linked shader program.
#[derive(Clone, Copy, Debug, PartialEq, Eq, Structural)]
pub struct Shader(pub usize);

/// Handle of a pipeline.
#[derive(Clone, Copy, Debug, PartialEq, Eq, Structural)]
pub struct Pipeline(pub usize);

/// Handle of an offscreen render pass.
#[derive(Clone, Copy, Debug, PartialEq, Eq, Structural)]
pub struct RenderPass(pub usize);

/// A two-dimensional texture: the driver's name for it, and its size in pixels.
#[derive(Clone, Copy, Debug, PartialEq, Eq, Structural)]
pub struct Texture {
    pub texture: GLuint,
    pub width: u32,
    pub height: u32,
}

/// Pixel arithmetic of the depth test.
#[derive(Clone, Copy, Debug, PartialEq, Eq, Structural)]
pub enum Comparison {
    Never,
    Less,
    LessOrEqual,
    Greater,
    GreaterOrEqual,
    Equal,
    NotEqual,
    Always,
}

/// Which faces are culled.
#[derive(Clone, Copy, Debug, PartialEq, Eq, Structural)]
pub enum CullFace {
    Nothing,
    Front,
    Back,
}

/// The winding order that makes a face a front face.
#[derive(Clone, Copy, Debug, PartialEq, Eq, Structural)]
pub enum FrontFaceOrder {
    Clockwise,
    CounterClockwise,
}

/// How source and destination are combined when blending.
#[derive(Clone, Copy, Debug, PartialEq, Eq, Structural)]
pub enum Equation {
    Add,
    Subtract,
    ReverseSubtract,
}

#[derive(Clone, Copy, Debug, PartialEq, Eq, Structural)]
pub enum BlendValue {
    SourceColor,
    SourceAlpha,
    DestinationColor,
    DestinationAlpha,
}

#[derive(Clone, Copy, Debug, PartialEq, Eq, Structural)]
pub enum BlendFactor {
    Zero,
    One,
    Value(BlendValue),
    OneMinusValue(BlendValue),
    SourceAlphaSaturate,
}

#[derive(Clone, Copy, Debug, PartialEq, Eq, Structural)]
pub struct BlendState {
    pub equation: Equation,
    pub sfactor: BlendFactor,
    pub dfactor: BlendFactor,
}

#[derive(Clone, Copy, Debug, PartialEq, Eq, Structural)]
pub enum StencilOp {
    Keep,
    Zero,
    Replace,
    IncrementClamp,
    DecrementClamp,
    Invert,
    IncrementWrap,
    DecrementWrap,
}

/// Pixel arithmetic of the stencil test.
#[derive(Clone, Copy, Debug, PartialEq, Eq, Structural)]
pub enum CompareFunc {
    Always,
    Never,
    Less,
    Equal,
    LessOrEqual,
    Greater,
    NotEqual,
    GreaterOrEqual,
}

#[derive(Clone, Copy, Debug, PartialEq, Eq, Structural)]
pub struct StencilFaceState {
    /// Operation when the stencil test fails
    pub fail_op: StencilOp,
    /// Operation when the stencil test passes and the depth test fails
    pub depth_fail_op: StencilOp,
    /// Operation when both tests pass
    pub pass_op: StencilOp,
    pub test_func: CompareFunc,
    pub test_ref: i32,
    pub test_mask: u32,
    pub write_mask: u32,
}

#[derive(Clone, Copy, Debug, PartialEq, Eq, Structural)]
pub struct StencilState {
    pub front: StencilFaceState,
    pub back: StencilFaceState,
}

#[derive(Clone, Copy, Debug, PartialEq, Eq, Structural)]
pub enum PrimitiveType {
    Triangles,
    Lines,
}

/// The fixed-function settings of a pipeline.
#[derive(Clone, Copy, Debug)]
pub struct PipelineParams {
    pub cull_face: CullFace,
    pub front_face_order: FrontFaceOrder,
    pub depth_test: Comparison,
    pub depth_write: bool,
    /// Color blending; `None` switches blending off
    pub color_blend: Option<BlendState>,
    /// Alpha blending where it differs from color blending
    pub alpha_blend: Option<BlendState>,
    pub stencil_test: Option<StencilState>,
    pub color_write: ColorMask,
    pub primitive_type: PrimitiveType,
}

impl PipelineParams {
    /// The settings of a pipeline that asks for nothing in particular.
    pub open spec fn plain() -> PipelineParams {
        PipelineParams {
            cull_face: CullFace::Nothing,
            front_face_order: FrontFaceOrder::CounterClockwise,
            depth_test: Comparison::Always,
            depth_write: false,
            color_blend: None,
            alpha_blend: None,
            stencil_test: None,
            color_write: (true, true, true, true),
            primitive_type: PrimitiveType::Triangles,
        }
    }
}

impl Default for PipelineParams {
    fn default() -> (params: PipelineParams)
        ensures
            params == PipelineParams::plain(),
    {
        PipelineParams {
            cull_face: CullFace::Nothing,
            front_face_order: FrontFaceOrder::CounterClockwise,
            depth_test: Comparison::Always,
            depth_write: false,
            color_blend: None,
            alpha_blend: None,
            stencil_test: None,
            color_write: (true, true, true, true),
            primitive_type: PrimitiveType::Triangles,
        }
    }
}

/// What a draw call reads: vertex data, indices and textures.
#[derive(Clone, Debug)]
pub struct Bindings {
    pub vertex_buffers: Vec<Buffer>,
    pub index_buffer: Buffer,
    pub images: Vec<Texture>,
}

#[derive(Clone, Copy, Debug, PartialEq, Eq, Structural)]
pub enum BufferType {
    VertexBuffer,
    IndexBuffer,
}

#[derive(Clone, Copy, Debug, PartialEq, Eq, Structural)]
pub enum Usage {
    Immutable,
    Dynamic,
    Stream,
}

/// What happens to the target when a pass begins. Color and depth are given as the bit patterns
/// of single-precision numbers.
#[derive(Clone, Copy, Debug, PartialEq, Eq)]
pub enum PassAction {
    Nothing,
    Clear { color: Option<ColorBits>, depth: Option<u32>, stencil: Option<i32> },
}

#[derive(Clone, Copy, Debug, PartialEq, Eq, Structural)]
pub enum FilterMode {
    Linear,
    Nearest,
}

} // verus!
