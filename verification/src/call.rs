//! The driver calls that the renderer issues, as data.
//!
//! Functions that drive OpenGL append the calls to a list, in the order in which they are to be
//! performed. Memory that a call reads (vertex data, uniform data) stays with the caller: the
//! call says which part of it to read.
use vstd::prelude::*;

use crate::gl::{GLenum, GLint, GLuint};

verus! {

/// One call into the driver, with its arguments. Each variant is named after its entry point.
#[derive(Clone, Copy, Debug, PartialEq, Eq, Structural)]
pub enum GlCall {
    BindVertexArray { array: GLuint },
    BindBuffer { target: GLenum, buffer: GLuint },
    /// Allocates `size` bytes and leaves their contents open
    BufferData { target: GLenum, size: i64, usage: GLenum },
    /// Fills `size` bytes from `offset` on with the caller's data
    BufferSubData { target: GLenum, offset: i64, size: i64 },
    DeleteBuffers { buffer: GLuint },
    ActiveTexture { unit: GLenum },
    BindTexture { target: GLenum, texture: GLuint },
    DeleteTextures { texture: GLuint },
    BindFramebuffer { target: GLenum, framebuffer: GLuint },
    FramebufferTexture2D {
        target: GLenum,
        attachment: GLenum,
        textarget: GLenum,
        texture: GLuint,
        level: GLint,
    },
    DeleteFramebuffers { framebuffer: GLuint },
    UseProgram { program: GLuint },
    Enable { cap: GLenum },
    Disable { cap: GLenum },
    DepthFunc { func: GLenum },
    FrontFace { mode: GLenum },
    CullFace { mode: GLenum },
    ColorMask { r: bool, g: bool, b: bool, a: bool },
    BlendFunc { source: GLenum, destination: GLenum },
    BlendFuncSeparate {
        source_rgb: GLenum,
        destination_rgb: GLenum,
        source_alpha: GLenum,
        destination_alpha: GLenum,
    },
    BlendEquationSeparate { rgb: GLenum, alpha: GLenum },
    StencilOpSeparate { face: GLenum, fail: GLenum, depth_fail: GLenum, pass: GLenum },
    StencilFuncSeparate { face: GLenum, func: GLenum, reference: GLint, mask: u32 },
    StencilMaskSeparate { face: GLenum, mask: u32 },
    Scissor { x: i32, y: i32, width: i32, height: i32 },
    Viewport { x: i32, y: i32, width: i32, height: i32 },
    Uniform1i { location: GLint, value: GLint },
    /// The array forms read `count` values, starting `word` words of four bytes into the
    /// caller's uniform data
    Uniform1fv { location: GLint, count: i32, word: usize },
    Uniform2fv { location: GLint, count: i32, word: usize },
    Uniform3fv { location: GLint, count: i32, word: usize },
    Uniform4fv { location: GLint, count: i32, word: usize },
    Uniform1iv { location: GLint, count: i32, word: usize },
    Uniform2iv { location: GLint, count: i32, word: usize },
    Uniform3iv { location: GLint, count: i32, word: usize },
    Uniform4iv { location: GLint, count: i32, word: usize },
    UniformMatrix4fv { location: GLint, count: i32, transpose: u8, word: usize },
    /// `pointer` is a byte offset into the buffer that is bound to the array target
    VertexAttribPointer {
        index: GLuint,
        components: i32,
        type_: GLenum,
        normalized: u8,
        stride: i32,
        pointer: i64,
    },
    VertexAttribDivisor { index: GLuint, divisor: u32 },
    EnableVertexAttribArray { index: GLuint },
    DisableVertexAttribArray { index: GLuint },
    /// Channels as bit patterns of single-precision numbers
    ClearColor { red_bits: u32, green_bits: u32, blue_bits: u32, alpha_bits: u32 },
    /// Depth as the bit pattern of a single-precision number
    ClearDepthf { depth_bits: u32 },
    ClearStencil { stencil: i32 },
    Clear { mask: u32 },
    /// `indices` is a byte offset into the buffer that is bound to the element array target
    DrawElementsInstanced {
        mode: GLenum,
        count: i32,
        index_type: GLenum,
        indices: i32,
        instances: i32,
    },
}

} // verus!
