//! Settings as OpenGL enumerants, and the sizes of vertex formats.
use vstd::prelude::*;
use vstd::std_specs::convert::FromSpecImpl;

use crate::gl::{
    GLenum, GLuint, GL_ALWAYS, GL_ARRAY_BUFFER, GL_DECR, GL_DECR_WRAP, GL_DST_ALPHA,
    GL_DST_COLOR, GL_DYNAMIC_DRAW, GL_ELEMENT_ARRAY_BUFFER, GL_EQUAL, GL_FLOAT, GL_FUNC_ADD,
    GL_FUNC_REVERSE_SUBTRACT, GL_FUNC_SUBTRACT, GL_GEQUAL, GL_GREATER, GL_INCR, GL_INCR_WRAP,
    GL_INVERT, GL_KEEP, GL_LEQUAL, GL_LESS, GL_LINEAR, GL_LINES, GL_NEAREST, GL_NEVER,
    GL_NOTEQUAL, GL_ONE, GL_ONE_MINUS_DST_ALPHA, GL_ONE_MINUS_DST_COLOR, GL_ONE_MINUS_SRC_ALPHA,
    GL_ONE_MINUS_SRC_COLOR, GL_REPLACE, GL_SRC_ALPHA, GL_SRC_ALPHA_SATURATE, GL_SRC_COLOR,
    GL_STATIC_DRAW, GL_STREAM_DRAW, GL_TRIANGLES, GL_UNSIGNED_BYTE, GL_UNSIGNED_INT,
    GL_UNSIGNED_SHORT, GL_ZERO,
};
use crate::types::{
    BlendFactor, BlendValue, BufferType, CompareFunc, Comparison, Equation, FilterMode,
    PrimitiveType, StencilOp, Usage, VertexFormat,
};

verus! {

impl Comparison {
    /// The enumerant of a depth comparison.
    pub open spec fn gl_enum(self) -> GLenum {
        match self {
            Comparison::Never => GL_NEVER,
            Comparison::Less => GL_LESS,
            Comparison::LessOrEqual => GL_LEQUAL,
            Comparison::Greater => GL_GREATER,
            Comparison::GreaterOrEqual => GL_GEQUAL,
            Comparison::Equal => GL_EQUAL,
            Comparison::NotEqual => GL_NOTEQUAL,
            Comparison::Always => GL_ALWAYS,
        }
    }
}

impl From<Comparison> for GLenum {
    fn from(comparison: Comparison) -> (code: GLenum) {
        match comparison {
            Comparison::Never => GL_NEVER,
            Comparison::Less => GL_LESS,
            Comparison::LessOrEqual => GL_LEQUAL,
            Comparison::Greater => GL_GREATER,
            Comparison::GreaterOrEqual => GL_GEQUAL,
            Comparison::Equal => GL_EQUAL,
            Comparison::NotEqual => GL_NOTEQUAL,
            Comparison::Always => GL_ALWAYS,
        }
    }
}

impl FromSpecImpl<Comparison> for GLenum {
    open spec fn obeys_from_spec() -> bool {
        true
    }

    open spec fn from_spec(comparison: Comparison) -> GLenum {
        comparison.gl_enum()
    }
}

impl Equation {
    /// The enumerant of a blend equation.
    pub open spec fn gl_enum(self) -> GLenum {
        match self {
            Equation::Add => GL_FUNC_ADD,
            Equation::Subtract => GL_FUNC_SUBTRACT,
            Equation::ReverseSubtract => GL_FUNC_REVERSE_SUBTRACT,
        }
    }
}

impl From<Equation> for GLenum {
    fn from(equation: Equation) -> (code: GLenum) {
        match equation {
            Equation::Add => GL_FUNC_ADD,
            Equation::Subtract => GL_FUNC_SUBTRACT,
            Equation::ReverseSubtract => GL_FUNC_REVERSE_SUBTRACT,
        }
    }
}

impl FromSpecImpl<Equation> for GLenum {
    open spec fn obeys_from_spec() -> bool {
        true
    }

    open spec fn from_spec(equation: Equation) -> GLenum {
        equation.gl_enum()
    }
}

impl BlendFactor {
    /// The enumerant of a blend factor.
    pub open spec fn gl_enum(self) -> GLenum {
        match self {
            BlendFactor::Zero => GL_ZERO,
            BlendFactor::One => GL_ONE,
            BlendFactor::Value(BlendValue::SourceColor) => GL_SRC_COLOR,
            BlendFactor::Value(BlendValue::SourceAlpha) => GL_SRC_ALPHA,
            BlendFactor::Value(BlendValue::DestinationColor) => GL_DST_COLOR,
            BlendFactor::Value(BlendValue::DestinationAlpha) => GL_DST_ALPHA,
            BlendFactor::OneMinusValue(BlendValue::SourceColor) => GL_ONE_MINUS_SRC_COLOR,
            BlendFactor::OneMinusValue(BlendValue::SourceAlpha) => GL_ONE_MINUS_SRC_ALPHA,
            BlendFactor::OneMinusValue(BlendValue::DestinationColor) => GL_ONE_MINUS_DST_COLOR,
            BlendFactor::OneMinusValue(BlendValue::DestinationAlpha) => GL_ONE_MINUS_DST_ALPHA,
            BlendFactor::SourceAlphaSaturate => GL_SRC_ALPHA_SATURATE,
        }
    }
}

impl From<BlendFactor> for GLenum {
    fn from(factor: BlendFactor) -> (code: GLenum) {
        match factor {
            BlendFactor::Zero => GL_ZERO,
            BlendFactor::One => GL_ONE,
            BlendFactor::Value(BlendValue::SourceColor) => GL_SRC_COLOR,
            BlendFactor::Value(BlendValue::SourceAlpha) => GL_SRC_ALPHA,
            BlendFactor::Value(BlendValue::DestinationColor) => GL_DST_COLOR,
            BlendFactor::Value(BlendValue::DestinationAlpha) => GL_DST_ALPHA,
            BlendFactor::OneMinusValue(BlendValue::SourceColor) => GL_ONE_MINUS_SRC_COLOR,
            BlendFactor::OneMinusValue(BlendValue::SourceAlpha) => GL_ONE_MINUS_SRC_ALPHA,
            BlendFactor::OneMinusValue(BlendValue::DestinationColor) => GL_ONE_MINUS_DST_COLOR,
            BlendFactor::OneMinusValue(BlendValue::DestinationAlpha) => GL_ONE_MINUS_DST_ALPHA,
            BlendFactor::SourceAlphaSaturate => GL_SRC_ALPHA_SATURATE,
        }
    }
}

impl FromSpecImpl<BlendFactor> for GLenum {
    open spec fn obeys_from_spec() -> bool {
        true
    }

    open spec fn from_spec(factor: BlendFactor) -> GLenum {
        factor.gl_enum()
    }
}

impl StencilOp {
    /// The enumerant of a stencil operation.
    pub open spec fn gl_enum(self) -> GLenum {
        match self {
            StencilOp::Keep => GL_KEEP,
            StencilOp::Zero => GL_ZERO,
            StencilOp::Replace => GL_REPLACE,
            StencilOp::IncrementClamp => GL_INCR,
            StencilOp::DecrementClamp => GL_DECR,
            StencilOp::Invert => GL_INVERT,
            StencilOp::IncrementWrap => GL_INCR_WRAP,
            StencilOp::DecrementWrap => GL_DECR_WRAP,
        }
    }
}

impl From<StencilOp> for GLenum {
    fn from(op: StencilOp) -> (code: GLenum) {
        match op {
            StencilOp::Keep => GL_KEEP,
            StencilOp::Zero => GL_ZERO,
            StencilOp::Replace => GL_REPLACE,
            StencilOp::IncrementClamp => GL_INCR,
            StencilOp::DecrementClamp => GL_DECR,
            StencilOp::Invert => GL_INVERT,
            StencilOp::IncrementWrap => GL_INCR_WRAP,
            StencilOp::DecrementWrap => GL_DECR_WRAP,
        }
    }
}

impl FromSpecImpl<StencilOp> for GLenum {
    open spec fn obeys_from_spec() -> bool {
        true
    }

    open spec fn from_spec(op: StencilOp) -> GLenum {
        op.gl_enum()
    }
}

impl CompareFunc {
    /// The enumerant of a stencil comparison.
    pub open spec fn gl_enum(self) -> GLenum {
        match self {
            CompareFunc::Always => GL_ALWAYS,
            CompareFunc::Never => GL_NEVER,
            CompareFunc::Less => GL_LESS,
            CompareFunc::Equal => GL_EQUAL,
            CompareFunc::LessOrEqual => GL_LEQUAL,
            CompareFunc::Greater => GL_GREATER,
            CompareFunc::NotEqual => GL_NOTEQUAL,
            CompareFunc::GreaterOrEqual => GL_GEQUAL,
        }
    }
}

impl From<CompareFunc> for GLenum {
    fn from(func: CompareFunc) -> (code: GLenum) {
        match func {
            CompareFunc::Always => GL_ALWAYS,
            CompareFunc::Never => GL_NEVER,
            CompareFunc::Less => GL_LESS,
            CompareFunc::Equal => GL_EQUAL,
            CompareFunc::LessOrEqual => GL_LEQUAL,
            CompareFunc::Greater => GL_GREATER,
            CompareFunc::NotEqual => GL_NOTEQUAL,
            CompareFunc::GreaterOrEqual => GL_GEQUAL,
        }
    }
}

impl FromSpecImpl<CompareFunc> for GLenum {
    open spec fn obeys_from_spec() -> bool {
        true
    }

    open spec fn from_spec(func: CompareFunc) -> GLenum {
        func.gl_enum()
    }
}

impl PrimitiveType {
    /// The enumerant of a primitive type.
    pub open spec fn gl_enum(self) -> GLenum {
        match self {
            PrimitiveType::Triangles => GL_TRIANGLES,
            PrimitiveType::Lines => GL_LINES,
        }
    }
}

impl From<PrimitiveType> for GLenum {
    fn from(primitive_type: PrimitiveType) -> (code: GLenum) {
        match primitive_type {
            PrimitiveType::Triangles => GL_TRIANGLES,
            PrimitiveType::Lines => GL_LINES,
        }
    }
}

impl FromSpecImpl<PrimitiveType> for GLenum {
    open spec fn obeys_from_spec() -> bool {
        true
    }

    open spec fn from_spec(primitive_type: PrimitiveType) -> GLenum {
        primitive_type.gl_enum()
    }
}

/// Bytes that one component of the given enumerant takes.
pub open spec fn component_bytes(type_: GLenum) -> int {
    if type_ == GL_UNSIGNED_BYTE {
        1
    } else if type_ == GL_UNSIGNED_SHORT {
        2
    } else {
        4
    }
}

impl VertexFormat {
    /// The enumerant of the format's components.
    pub open spec fn component_type(self) -> GLenum {
        match self {
            VertexFormat::Byte1
            | VertexFormat::Byte2
            | VertexFormat::Byte3
            | VertexFormat::Byte4 => GL_UNSIGNED_BYTE,
            VertexFormat::Short1
            | VertexFormat::Short2
            | VertexFormat::Short3
            | VertexFormat::Short4 => GL_UNSIGNED_SHORT,
            VertexFormat::Int1
            | VertexFormat::Int2
            | VertexFormat::Int3
            | VertexFormat::Int4 => GL_UNSIGNED_INT,
            _ => GL_FLOAT,
        }
    }

    /// How many components the format has.
    pub open spec fn components(self) -> int {
        match self {
            VertexFormat::Float1
            | VertexFormat::Byte1
            | VertexFormat::Short1
            | VertexFormat::Int1 => 1,
            VertexFormat::Float2
            | VertexFormat::Byte2
            | VertexFormat::Short2
            | VertexFormat::Int2 => 2,
            VertexFormat::Float3
            | VertexFormat::Byte3
            | VertexFormat::Short3
            | VertexFormat::Int3 => 3,
            VertexFormat::Float4
            | VertexFormat::Byte4
            | VertexFormat::Short4
            | VertexFormat::Int4 => 4,
            VertexFormat::Mat4 => 16,
        }
    }

    /// How many bytes one value of the format takes.
    pub open spec fn bytes(self) -> int {
        self.components() * component_bytes(self.component_type())
    }

    /// The enumerant of the format's components.
    pub fn type_(&self) -> (type_: GLuint)
        ensures
            type_ == self.component_type(),
    {
        match self {
            VertexFormat::Float1 => GL_FLOAT,
            VertexFormat::Float2 => GL_FLOAT,
            VertexFormat::Float3 => GL_FLOAT,
            VertexFormat::Float4 => GL_FLOAT,
            VertexFormat::Byte1 => GL_UNSIGNED_BYTE,
            VertexFormat::Byte2 => GL_UNSIGNED_BYTE,
            VertexFormat::Byte3 => GL_UNSIGNED_BYTE,
            VertexFormat::Byte4 => GL_UNSIGNED_BYTE,
            VertexFormat::Short1 => GL_UNSIGNED_SHORT,
            VertexFormat::Short2 => GL_UNSIGNED_SHORT,
            VertexFormat::Short3 => GL_UNSIGNED_SHORT,
            VertexFormat::Short4 => GL_UNSIGNED_SHORT,
            VertexFormat::Int1 => GL_UNSIGNED_INT,
            VertexFormat::Int2 => GL_UNSIGNED_INT,
            VertexFormat::Int3 => GL_UNSIGNED_INT,
            VertexFormat::Int4 => GL_UNSIGNED_INT,
            VertexFormat::Mat4 => GL_FLOAT,
        }
    }

    /// How many components the format has.
    pub fn size(&self) -> (size: i32)
        ensures
            size == self.components(),
    {
        match self {
            VertexFormat::Float1 => 1,
            VertexFormat::Float2 => 2,
            VertexFormat::Float3 => 3,
            VertexFormat::Float4 => 4,
            VertexFormat::Byte1 => 1,
            VertexFormat::Byte2 => 2,
            VertexFormat::Byte3 => 3,
            VertexFormat::Byte4 => 4,
            VertexFormat::Short1 => 1,
            VertexFormat::Short2 => 2,
            VertexFormat::Short3 => 3,
            VertexFormat::Short4 => 4,
            VertexFormat::Int1 => 1,
            VertexFormat::Int2 => 2,
            VertexFormat::Int3 => 3,
            VertexFormat::Int4 => 4,
            VertexFormat::Mat4 => 16,
        }
    }

    /// How many bytes one value of the format takes.
    pub fn byte_len(&self) -> (len: i32)
        ensures
            len == self.bytes(),
    {
        match self {
            VertexFormat::Float1 => 1 * 4,
            VertexFormat::Float2 => 2 * 4,
            VertexFormat::Float3 => 3 * 4,
            VertexFormat::Float4 => 4 * 4,
            VertexFormat::Byte1 => 1,
            VertexFormat::Byte2 => 2,
            VertexFormat::Byte3 => 3,
            VertexFormat::Byte4 => 4,
            VertexFormat::Short1 => 1 * 2,
            VertexFormat::Short2 => 2 * 2,
            VertexFormat::Short3 => 3 * 2,
            VertexFormat::Short4 => 4 * 2,
            VertexFormat::Int1 => 1 * 4,
            VertexFormat::Int2 => 2 * 4,
            VertexFormat::Int3 => 3 * 4,
            VertexFormat::Int4 => 4 * 4,
            VertexFormat::Mat4 => 16 * 4,
        }
    }
}

impl FilterMode {
    /// The enumerant of a texture filter.
    pub open spec fn gl_enum(self) -> GLenum {
        match self {
            FilterMode::Linear => GL_LINEAR,
            FilterMode::Nearest => GL_NEAREST,
        }
    }

    /// The enumerant of the filter.
    pub fn type_(self) -> (type_: GLuint)
        ensures
            type_ == self.gl_enum(),
    {
        match self {
            FilterMode::Linear => GL_LINEAR,
            FilterMode::Nearest => GL_NEAREST,
        }
    }
}

impl BufferType {
    /// The binding point that buffers of the type use.
    pub open spec fn gl_target(self) -> GLenum {
        match self {
            BufferType::VertexBuffer => GL_ARRAY_BUFFER,
            BufferType::IndexBuffer => GL_ELEMENT_ARRAY_BUFFER,
        }
    }
}

/// The binding point that buffers of the type use.
pub fn gl_buffer_target(buffer_type: &BufferType) -> (target: GLenum)
    ensures
        target == buffer_type.gl_target(),
{
    match buffer_type {
        BufferType::VertexBuffer => GL_ARRAY_BUFFER,
        BufferType::IndexBuffer => GL_ELEMENT_ARRAY_BUFFER,
    }
}

impl Usage {
    /// The enumerant of a buffer usage.
    pub open spec fn gl_enum(self) -> GLenum {
        match self {
            Usage::Immutable => GL_STATIC_DRAW,
            Usage::Dynamic => GL_DYNAMIC_DRAW,
            Usage::Stream => GL_STREAM_DRAW,
        }
    }
}

/// The enumerant of a buffer usage.
pub fn gl_usage(usage: &Usage) -> (code: GLenum)
    ensures
        code == usage.gl_enum(),
{
    match usage {
        Usage::Immutable => GL_STATIC_DRAW,
        Usage::Dynamic => GL_DYNAMIC_DRAW,
        Usage::Stream => GL_STREAM_DRAW,
    }
}

} // verus!
