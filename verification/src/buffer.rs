//! GPU buffers.
use vstd::layout::size_of;
use vstd::prelude::*;

use crate::cache::{bind_buffer_calls, GlCacheView};
use crate::call::GlCall;
use crate::context::Context;
use crate::convert::{gl_buffer_target, gl_usage};
use crate::gl::{GLenum, GLuint};
use crate::types::{BufferType, Usage};

verus! {

/// A buffer on the GPU: the driver's name for it, what it holds, and its size in bytes.
#[derive(Clone, Copy, Debug, PartialEq, Eq, Structural)]
pub struct Buffer {
    pub gl_buf: GLuint,
    pub buffer_type: BufferType,
    pub size: usize,
}

/// The calls that bind `gl_buf` for a moment: `work` is done on it, then the binding that was
/// there before comes back.
pub open spec fn with_binding_calls(
    cache: GlCacheView,
    target: GLenum,
    gl_buf: GLuint,
    work: Seq<GlCall>,
) -> Seq<GlCall> {
    bind_buffer_calls(cache, target, gl_buf) + work + bind_buffer_calls(
        cache.with_buffer(target, gl_buf),
        target,
        cache.buffer(target),
    )
}

/// The calls that allocate a buffer and fill it.
pub open spec fn immutable_calls(
    cache: GlCacheView,
    target: GLenum,
    gl_buf: GLuint,
    size: usize,
) -> Seq<GlCall> {
    with_binding_calls(
        cache,
        target,
        gl_buf,
        seq![
            GlCall::BufferData { target, size: size as i64, usage: Usage::Immutable.gl_enum() },
            GlCall::BufferSubData { target, offset: 0, size: size as i64 },
        ],
    )
}

/// The calls that allocate a buffer and leave it empty.
pub open spec fn stream_calls(
    cache: GlCacheView,
    target: GLenum,
    gl_buf: GLuint,
    size: usize,
) -> Seq<GlCall> {
    with_binding_calls(
        cache,
        target,
        gl_buf,
        seq![GlCall::BufferData { target, size: size as i64, usage: Usage::Stream.gl_enum() }],
    )
}

/// The calls that overwrite the front of a buffer. Afterwards the binding that was stored last
/// is restored, whatever was bound before.
pub open spec fn update_calls(
    cache: GlCacheView,
    target: GLenum,
    gl_buf: GLuint,
    size: usize,
) -> Seq<GlCall> {
    bind_buffer_calls(cache, target, gl_buf) + seq![
        GlCall::BufferSubData { target, offset: 0, size: size as i64 },
    ] + bind_buffer_calls(
        cache.with_buffer(target, gl_buf),
        target,
        cache.stored_buffer(target),
    )
}

/// The calls that delete a buffer.
pub open spec fn delete_buffer_calls(gl_buf: GLuint) -> Seq<GlCall> {
    seq![GlCall::DeleteBuffers { buffer: gl_buf }]
}

impl Buffer {
    /// Makes a buffer that holds `data` and does not change. `gl_buf` is the name of a buffer
    /// that the driver has just generated. Indices are 16 bits wide.
    pub fn immutable<T>(
        ctx: &mut Context,
        buffer_type: BufferType,
        data: &[T],
        gl_buf: GLuint,
        calls: &mut Vec<GlCall>,
    ) -> (buffer: Buffer)
        requires
            buffer_type is IndexBuffer ==> size_of::<T>() == 2,
        ensures
            buffer.gl_buf == gl_buf,
            buffer.buffer_type == buffer_type,
            buffer.size == data@.len() * size_of::<T>(),
            final(ctx).same_resources(*old(ctx)),
            final(ctx).cache@ == old(ctx).cache@.with_stored_buffer(buffer_type.gl_target()),
            final(calls)@ == old(calls)@ + immutable_calls(
                old(ctx).cache@,
                buffer_type.gl_target(),
                gl_buf,
                buffer.size,
            ),
            old(ctx).wf() ==> final(ctx).wf(),
    {
        broadcast use vstd::layout::layout_of_slices;

        let ghost cache = ctx.cache@;
        let ghost issued = calls@;
        let gl_target = gl_buffer_target(&buffer_type);
        let gl_usage = gl_usage(&Usage::Immutable);
        let bytes = core::mem::size_of_val(data);
        let size = bytes as i64;
        ctx.cache.store_buffer_binding(gl_target);
        ctx.cache.bind_buffer(gl_target, gl_buf, calls);
        calls.push(GlCall::BufferData { target: gl_target, size, usage: gl_usage });
        calls.push(GlCall::BufferSubData { target: gl_target, offset: 0, size });
        ctx.cache.restore_buffer_binding(gl_target, calls);
        assert(calls@ =~= issued + immutable_calls(cache, gl_target, gl_buf, bytes));
        assert(bytes as i64 as usize == bytes) by (bit_vector);
        Buffer { gl_buf, buffer_type, size: size as usize }
    }

    /// Makes a buffer of `size` bytes that is filled anew every frame. `gl_buf` is the name of a
    /// buffer that the driver has just generated.
    pub fn stream(
        ctx: &mut Context,
        buffer_type: BufferType,
        size: usize,
        gl_buf: GLuint,
        calls: &mut Vec<GlCall>,
    ) -> (buffer: Buffer)
        ensures
            buffer == (Buffer { gl_buf, buffer_type, size }),
            final(ctx).same_resources(*old(ctx)),
            final(ctx).cache@ == old(ctx).cache@.with_stored_buffer(buffer_type.gl_target()),
            final(calls)@ == old(calls)@ + stream_calls(
                old(ctx).cache@,
                buffer_type.gl_target(),
                gl_buf,
                size,
            ),
            old(ctx).wf() ==> final(ctx).wf(),
    {
        let ghost cache = ctx.cache@;
        let ghost issued = calls@;
        let gl_target = gl_buffer_target(&buffer_type);
        let gl_usage = gl_usage(&Usage::Stream);
        ctx.cache.store_buffer_binding(gl_target);
        ctx.cache.bind_buffer(gl_target, gl_buf, calls);
        calls.push(GlCall::BufferData { target: gl_target, size: size as i64, usage: gl_usage });
        ctx.cache.restore_buffer_binding(gl_target, calls);
        assert(calls@ =~= issued + stream_calls(cache, gl_target, gl_buf, size));
        Buffer { gl_buf, buffer_type, size }
    }

    /// Overwrites the front of the buffer with `data`.
    pub fn update<T>(&self, ctx: &mut Context, data: &[T], calls: &mut Vec<GlCall>)
        requires
            data@.len() * size_of::<T>() <= self.size,
        ensures
            final(ctx).same_resources(*old(ctx)),
            final(ctx).cache@ == old(ctx).cache@.with_buffer(
                self.buffer_type.gl_target(),
                old(ctx).cache@.stored_buffer(self.buffer_type.gl_target()),
            ),
            final(calls)@ == old(calls)@ + update_calls(
                old(ctx).cache@,
                self.buffer_type.gl_target(),
                self.gl_buf,
                (data@.len() * size_of::<T>()) as usize,
            ),
            old(ctx).wf() ==> final(ctx).wf(),
    {
        broadcast use vstd::layout::layout_of_slices;

        let ghost cache = ctx.cache@;
        let ghost issued = calls@;
        let size = core::mem::size_of_val(data);
        let gl_target = gl_buffer_target(&self.buffer_type);
        ctx.cache.bind_buffer(gl_target, self.gl_buf, calls);
        calls.push(GlCall::BufferSubData { target: gl_target, offset: 0, size: size as i64 });
        ctx.cache.restore_buffer_binding(gl_target, calls);
        assert(calls@ =~= issued + update_calls(cache, gl_target, self.gl_buf, size));
    }

    /// Size of the buffer in bytes.
    pub fn size(&self) -> (size: usize)
        ensures
            size == self.size,
    {
        self.size
    }

    /// Deletes the buffer on the GPU and leaves the handle as it is. Nothing guards against a
    /// later use of the handle.
    pub fn delete(&self, calls: &mut Vec<GlCall>)
        ensures
            final(calls)@ == old(calls)@.push(GlCall::DeleteBuffers { buffer: self.gl_buf }),
            final(calls)@ == old(calls)@ + delete_buffer_calls(self.gl_buf),
    {
        calls.push(GlCall::DeleteBuffers { buffer: self.gl_buf });
    }
}

} // verus!
