use miniquad::convert::{gl_buffer_target, gl_usage};
use miniquad::gl::GLenum;
use miniquad::types::{
    BlendFactor, BlendValue, BufferType, CompareFunc, Comparison, Equation, FilterMode,
    PrimitiveType, StencilOp, UniformType, Usage, VertexFormat,
};

#[test]
fn vertex_format_sizes() {
    let table = [
        (VertexFormat::Float1, 1, 4, 0x1406),
        (VertexFormat::Float2, 2, 8, 0x1406),
        (VertexFormat::Float3, 3, 12, 0x1406),
        (VertexFormat::Float4, 4, 16, 0x1406),
        (VertexFormat::Byte1, 1, 1, 0x1401),
        (VertexFormat::Byte2, 2, 2, 0x1401),
        (VertexFormat::Byte3, 3, 3, 0x1401),
        (VertexFormat::Byte4, 4, 4, 0x1401),
        (VertexFormat::Short1, 1, 2, 0x1403),
        (VertexFormat::Short2, 2, 4, 0x1403),
        (VertexFormat::Short3, 3, 6, 0x1403),
        (VertexFormat::Short4, 4, 8, 0x1403),
        (VertexFormat::Int1, 1, 4, 0x1405),
        (VertexFormat::Int2, 2, 8, 0x1405),
        (VertexFormat::Int3, 3, 12, 0x1405),
        (VertexFormat::Int4, 4, 16, 0x1405),
        (VertexFormat::Mat4, 16, 64, 0x1406),
    ];
    for (format, size, byte_len, type_) in table {
        assert_eq!(format.size(), size);
        assert_eq!(format.byte_len(), byte_len);
        assert_eq!(format.type_(), type_);
    }
}

#[test]
fn uniform_type_sizes() {
    let table = [
        (UniformType::Float1, 4),
        (UniformType::Float2, 8),
        (UniformType::Float3, 12),
        (UniformType::Float4, 16),
        (UniformType::Int1, 4),
        (UniformType::Int2, 8),
        (UniformType::Int3, 12),
        (UniformType::Int4, 16),
        (UniformType::Mat4, 64),
    ];
    for (uniform_type, size) in table {
        assert_eq!(uniform_type.size(), size);
    }
}

#[test]
fn comparison_enumerants() {
    let table = [
        (Comparison::Never, CompareFunc::Never, 0x0200),
        (Comparison::Less, CompareFunc::Less, 0x0201),
        (Comparison::Equal, CompareFunc::Equal, 0x0202),
        (Comparison::LessOrEqual, CompareFunc::LessOrEqual, 0x0203),
        (Comparison::Greater, CompareFunc::Greater, 0x0204),
        (Comparison::NotEqual, CompareFunc::NotEqual, 0x0205),
        (Comparison::GreaterOrEqual, CompareFunc::GreaterOrEqual, 0x0206),
        (Comparison::Always, CompareFunc::Always, 0x0207),
    ];
    for (depth, stencil, code) in table {
        assert_eq!(GLenum::from(depth), code);
        assert_eq!(GLenum::from(stencil), code);
    }
}

#[test]
fn blending_enumerants() {
    assert_eq!(GLenum::from(Equation::Add), 0x8006);
    assert_eq!(GLenum::from(Equation::Subtract), 0x800A);
    assert_eq!(GLenum::from(Equation::ReverseSubtract), 0x800B);
    let table = [
        (BlendFactor::Zero, 0),
        (BlendFactor::One, 1),
        (BlendFactor::Value(BlendValue::SourceColor), 0x0300),
        (BlendFactor::OneMinusValue(BlendValue::SourceColor), 0x0301),
        (BlendFactor::Value(BlendValue::SourceAlpha), 0x0302),
        (BlendFactor::OneMinusValue(BlendValue::SourceAlpha), 0x0303),
        (BlendFactor::Value(BlendValue::DestinationAlpha), 0x0304),
        (BlendFactor::OneMinusValue(BlendValue::DestinationAlpha), 0x0305),
        (BlendFactor::Value(BlendValue::DestinationColor), 0x0306),
        (BlendFactor::OneMinusValue(BlendValue::DestinationColor), 0x0307),
        (BlendFactor::SourceAlphaSaturate, 0x0308),
    ];
    for (factor, code) in table {
        assert_eq!(GLenum::from(factor), code);
    }
    // No two factors share an enumerant.
    for (i, (_, a)) in table.iter().enumerate() {
        for (j, (_, b)) in table.iter().enumerate() {
            assert_eq!(a == b, i == j);
        }
    }
}

#[test]
fn stencil_enumerants() {
    let table = [
        (StencilOp::Keep, 0x1E00),
        (StencilOp::Zero, 0),
        (StencilOp::Replace, 0x1E01),
        (StencilOp::IncrementClamp, 0x1E02),
        (StencilOp::DecrementClamp, 0x1E03),
        (StencilOp::Invert, 0x150A),
        (StencilOp::IncrementWrap, 0x8507),
        (StencilOp::DecrementWrap, 0x8508),
    ];
    for (op, code) in table {
        assert_eq!(GLenum::from(op), code);
    }
}

#[test]
fn resource_enumerants() {
    assert_eq!(GLenum::from(PrimitiveType::Triangles), 4);
    assert_eq!(GLenum::from(PrimitiveType::Lines), 1);
    assert_eq!(FilterMode::Linear.type_(), 0x2601);
    assert_eq!(FilterMode::Nearest.type_(), 0x2600);
    assert_eq!(gl_buffer_target(&BufferType::VertexBuffer), 0x8892);
    assert_eq!(gl_buffer_target(&BufferType::IndexBuffer), 0x8893);
    assert_eq!(gl_usage(&Usage::Immutable), 0x88E4);
    assert_eq!(gl_usage(&Usage::Dynamic), 0x88E8);
    assert_eq!(gl_usage(&Usage::Stream), 0x88E0);
}
