//! Laws of single values: enumerants and text.
use vstd::prelude::*;
use vstd::utf8::{char_is_scalar, char_u32_cast, encode_scalar, encode_utf8, has_width_1_encoding};

use crate::gl::{
    GL_ARRAY_BUFFER, GL_BACK, GL_BLEND, GL_CCW, GL_COLOR_ATTACHMENT0, GL_COLOR_BUFFER_BIT,
    GL_COMPILE_STATUS, GL_CULL_FACE, GL_CW, GL_DEPTH_ATTACHMENT, GL_DEPTH_BUFFER_BIT,
    GL_DEPTH_TEST, GL_ELEMENT_ARRAY_BUFFER, GL_FALSE, GL_FRAGMENT_SHADER, GL_FRAMEBUFFER,
    GL_FRONT, GL_INFO_LOG_LENGTH, GL_LINK_STATUS, GL_SCISSOR_TEST, GL_STATIC_DRAW,
    GL_STENCIL_BUFFER_BIT, GL_STENCIL_TEST, GL_STREAM_DRAW, GL_TEXTURE0, GL_TEXTURE_2D,
    GL_UNSIGNED_SHORT, GL_VERTEX_SHADER,
};
use crate::text::{has_nul, is_first_nul};
use crate::types::{
    BlendFactor, BufferType, CompareFunc, Comparison, Equation, FilterMode, PrimitiveType,
    StencilOp, Usage,
};

verus! {

/// The driver can tell depth comparisons apart.
pub proof fn law_comparisons_distinct(a: Comparison, b: Comparison)
    ensures
        a.gl_enum() == b.gl_enum() <==> a == b,
{
}

/// The driver can tell stencil comparisons apart.
pub proof fn law_compare_funcs_distinct(a: CompareFunc, b: CompareFunc)
    ensures
        a.gl_enum() == b.gl_enum() <==> a == b,
{
}

/// The driver can tell blend equations apart.
pub proof fn law_equations_distinct(a: Equation, b: Equation)
    ensures
        a.gl_enum() == b.gl_enum() <==> a == b,
{
}

/// The driver can tell blend factors apart.
pub proof fn law_blend_factors_distinct(a: BlendFactor, b: BlendFactor)
    ensures
        a.gl_enum() == b.gl_enum() <==> a == b,
{
}

/// The driver can tell stencil operations apart.
pub proof fn law_stencil_ops_distinct(a: StencilOp, b: StencilOp)
    ensures
        a.gl_enum() == b.gl_enum() <==> a == b,
{
}

/// The driver can tell primitive types, filters, buffer targets and buffer usages apart.
pub proof fn law_resource_enums_distinct(
    primitive: (PrimitiveType, PrimitiveType),
    filter: (FilterMode, FilterMode),
    buffer: (BufferType, BufferType),
    usage: (Usage, Usage),
)
    ensures
        primitive.0.gl_enum() == primitive.1.gl_enum() <==> primitive.0 == primitive.1,
        filter.0.gl_enum() == filter.1.gl_enum() <==> filter.0 == filter.1,
        buffer.0.gl_target() == buffer.1.gl_target() <==> buffer.0 == buffer.1,
        usage.0.gl_enum() == usage.1.gl_enum() <==> usage.0 == usage.1,
{
}

proof fn lemma_scalar_nul(scalar: u32)
    ensures
        scalar == 0 ==> encode_scalar(scalar) == seq![0u8],
        scalar != 0 ==> forall|i: int|
            0 <= i < encode_scalar(scalar).len() ==> encode_scalar(scalar)[i] != 0,
{
    if has_width_1_encoding(scalar) {
        assert(scalar <= 0x7F ==> ((scalar & 0x7F) as u8) as u32 == scalar) by (bit_vector);
    } else {
        assert((0xC0u8 | ((scalar >> 6) & 0x1F) as u8) != 0) by (bit_vector);
        assert((0xE0u8 | ((scalar >> 12) & 0x0F) as u8) != 0) by (bit_vector);
        assert((0xF0u8 | ((scalar >> 18) & 0x7) as u8) != 0) by (bit_vector);
        assert((0x80u8 | (scalar & 0x3F) as u8) != 0) by (bit_vector);
        assert((0x80u8 | ((scalar >> 6) & 0x3F) as u8) != 0) by (bit_vector);
        assert((0x80u8 | ((scalar >> 12) & 0x3F) as u8) != 0) by (bit_vector);
    }
}

/// A string is refused exactly where the zero character occurs in it.
pub proof fn law_nul_is_a_character(text: Seq<char>)
    ensures
        has_nul(text) <==> text.contains('\0'),
    decreases text.len(),
{
    if text.len() > 0 {
        let rest = text.drop_first();
        let head = encode_scalar(text[0] as u32);
        lemma_scalar_nul(text[0] as u32);
        char_is_scalar(text[0]);
        char_u32_cast(text[0], text[0] as u32);
        law_nul_is_a_character(rest);
        assert(encode_utf8(text) == head + encode_utf8(rest));
        if has_nul(text) {
            let i = choose|i: int|
                0 <= i < encode_utf8(text).len() && encode_utf8(text)[i] == 0;
            if i < head.len() {
                assert(head[i] == 0);
                assert(text[0] == '\0');
            } else {
                assert(encode_utf8(rest)[i - head.len()] == 0);
                let k = choose|k: int| 0 <= k < rest.len() && rest[k] == '\0';
                assert(text[k + 1] == '\0');
            }
        }
        if text.contains('\0') {
            let k = choose|k: int| 0 <= k < text.len() && text[k] == '\0';
            if k == 0 {
                assert(encode_utf8(text)[0] == head[0]);
            } else {
                assert(rest[k - 1] == '\0');
                let i = choose|i: int|
                    0 <= i < encode_utf8(rest).len() && encode_utf8(rest)[i] == 0;
                assert(encode_utf8(text)[head.len() + i] == 0);
            }
        }
    } else {
        assert(encode_utf8(text).len() == 0);
    }
}

/// A string that is refused has one first zero byte, and no other place is that byte's.
pub proof fn law_first_nul_unique(text: Seq<char>, a: int, b: int)
    requires
        is_first_nul(text, a),
        is_first_nul(text, b),
    ensures
        a == b,
        has_nul(text),
{
}

/// The enumerants are those of the OpenGL registry.
pub proof fn law_enumerants_registered()
    ensures
        GL_FALSE == 0,
        GL_ARRAY_BUFFER == 0x8892 && GL_ELEMENT_ARRAY_BUFFER == 0x8893,
        GL_STREAM_DRAW == 0x88E0 && GL_STATIC_DRAW == 0x88E4,
        GL_TEXTURE_2D == 0x0DE1 && GL_TEXTURE0 == 0x84C0,
        GL_FRAMEBUFFER == 0x8D40,
        GL_COLOR_ATTACHMENT0 == 0x8CE0 && GL_DEPTH_ATTACHMENT == 0x8D00,
        GL_CULL_FACE == 0x0B44 && GL_DEPTH_TEST == 0x0B71 && GL_STENCIL_TEST == 0x0B90,
        GL_BLEND == 0x0BE2 && GL_SCISSOR_TEST == 0x0C11,
        GL_FRONT == 0x0404 && GL_BACK == 0x0405,
        GL_CW == 0x0900 && GL_CCW == 0x0901,
        GL_DEPTH_BUFFER_BIT == 0x0100 && GL_STENCIL_BUFFER_BIT == 0x0400,
        GL_COLOR_BUFFER_BIT == 0x4000,
        GL_FRAGMENT_SHADER == 0x8B30 && GL_VERTEX_SHADER == 0x8B31,
        GL_COMPILE_STATUS == 0x8B81 && GL_LINK_STATUS == 0x8B82,
        GL_INFO_LOG_LENGTH == 0x8B84,
        GL_UNSIGNED_SHORT == 0x1403,
{
}

} // verus!
