//! The OpenGL scalar types and the enumerants that the renderer hands to the driver.
use vstd::prelude::*;

verus! {

pub type GLenum = u32;

pub type GLuint = u32;

pub type GLint = i32;

pub const GL_FALSE: u8 = 0;

pub const GL_ZERO: GLenum = 0;

pub const GL_ONE: GLenum = 1;

pub const GL_SRC_COLOR: GLenum = 0x0300;

pub const GL_ONE_MINUS_SRC_COLOR: GLenum = 0x0301;

pub const GL_SRC_ALPHA: GLenum = 0x0302;

pub const GL_ONE_MINUS_SRC_ALPHA: GLenum = 0x0303;

pub const GL_DST_ALPHA: GLenum = 0x0304;

pub const GL_ONE_MINUS_DST_ALPHA: GLenum = 0x0305;

pub const GL_DST_COLOR: GLenum = 0x0306;

pub const GL_ONE_MINUS_DST_COLOR: GLenum = 0x0307;

pub const GL_SRC_ALPHA_SATURATE: GLenum = 0x0308;

pub const GL_FUNC_ADD: GLenum = 0x8006;

pub const GL_FUNC_SUBTRACT: GLenum = 0x800A;

pub const GL_FUNC_REVERSE_SUBTRACT: GLenum = 0x800B;

pub const GL_NEVER: GLenum = 0x0200;

pub const GL_LESS: GLenum = 0x0201;

pub const GL_EQUAL: GLenum = 0x0202;

pub const GL_LEQUAL: GLenum = 0x0203;

pub const GL_GREATER: GLenum = 0x0204;

pub const GL_NOTEQUAL: GLenum = 0x0205;

pub const GL_GEQUAL: GLenum = 0x0206;

pub const GL_ALWAYS: GLenum = 0x0207;

pub const GL_KEEP: GLenum = 0x1E00;

pub const GL_REPLACE: GLenum = 0x1E01;

pub const GL_INCR: GLenum = 0x1E02;

pub const GL_DECR: GLenum = 0x1E03;

pub const GL_INVERT: GLenum = 0x150A;

pub const GL_INCR_WRAP: GLenum = 0x8507;

pub const GL_DECR_WRAP: GLenum = 0x8508;

pub const GL_LINES: GLenum = 0x0001;

pub const GL_TRIANGLES: GLenum = 0x0004;

pub const GL_UNSIGNED_BYTE: GLenum = 0x1401;

pub const GL_UNSIGNED_SHORT: GLenum = 0x1403;

pub const GL_UNSIGNED_INT: GLenum = 0x1405;

pub const GL_FLOAT: GLenum = 0x1406;

pub const GL_ARRAY_BUFFER: GLenum = 0x8892;

pub const GL_ELEMENT_ARRAY_BUFFER: GLenum = 0x8893;

pub const GL_STREAM_DRAW: GLenum = 0x88E0;

pub const GL_STATIC_DRAW: GLenum = 0x88E4;

pub const GL_DYNAMIC_DRAW: GLenum = 0x88E8;

pub const GL_NEAREST: GLenum = 0x2600;

pub const GL_LINEAR: GLenum = 0x2601;

pub const GL_TEXTURE_2D: GLenum = 0x0DE1;

pub const GL_TEXTURE0: GLenum = 0x84C0;

pub const GL_FRAMEBUFFER: GLenum = 0x8D40;

pub const GL_COLOR_ATTACHMENT0: GLenum = 0x8CE0;

pub const GL_DEPTH_ATTACHMENT: GLenum = 0x8D00;

pub const GL_CULL_FACE: GLenum = 0x0B44;

pub const GL_DEPTH_TEST: GLenum = 0x0B71;

pub const GL_STENCIL_TEST: GLenum = 0x0B90;

pub const GL_BLEND: GLenum = 0x0BE2;

pub const GL_SCISSOR_TEST: GLenum = 0x0C11;

pub const GL_FRONT: GLenum = 0x0404;

pub const GL_BACK: GLenum = 0x0405;

pub const GL_CW: GLenum = 0x0900;

pub const GL_CCW: GLenum = 0x0901;

pub const GL_DEPTH_BUFFER_BIT: u32 = 0x0100;

pub const GL_STENCIL_BUFFER_BIT: u32 = 0x0400;

pub const GL_COLOR_BUFFER_BIT: u32 = 0x4000;

pub const GL_FRAGMENT_SHADER: GLenum = 0x8B30;

pub const GL_VERTEX_SHADER: GLenum = 0x8B31;

pub const GL_COMPILE_STATUS: GLenum = 0x8B81;

pub const GL_LINK_STATUS: GLenum = 0x8B82;

pub const GL_INFO_LOG_LENGTH: GLenum = 0x8B84;

} // verus!
