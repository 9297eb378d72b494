use miniquad::buffer::Buffer;
use miniquad::call::GlCall;
use miniquad::context::Context;
use miniquad::gl::{
    GL_ARRAY_BUFFER, GL_COLOR_ATTACHMENT0, GL_DEPTH_ATTACHMENT, GL_ELEMENT_ARRAY_BUFFER,
    GL_FRAMEBUFFER, GL_STATIC_DRAW, GL_STREAM_DRAW, GL_TEXTURE_2D,
};
use miniquad::types::{BufferType, RenderPass, Texture};

fn context() -> Context {
    Context::new(6, 1, &mut Vec::new())
}

#[test]
fn an_immutable_buffer_is_filled_at_once() {
    let mut ctx = context();
    let mut calls = Vec::new();
    let vertices = [[0u8; 16]; 4];
    let buffer = Buffer::immutable(&mut ctx, BufferType::VertexBuffer, &vertices, 3, &mut calls);
    assert_eq!(buffer, Buffer { gl_buf: 3, buffer_type: BufferType::VertexBuffer, size: 64 });
    assert_eq!(buffer.size(), 64);
    assert_eq!(
        calls,
        vec![
            GlCall::BindBuffer { target: GL_ARRAY_BUFFER, buffer: 3 },
            GlCall::BufferData { target: GL_ARRAY_BUFFER, size: 64, usage: GL_STATIC_DRAW },
            GlCall::BufferSubData { target: GL_ARRAY_BUFFER, offset: 0, size: 64 },
            GlCall::BindBuffer { target: GL_ARRAY_BUFFER, buffer: 0 },
        ]
    );
}

#[test]
fn a_new_buffer_leaves_the_binding_as_it_was() {
    let mut ctx = context();
    let mut calls = Vec::new();
    ctx.cache.bind_buffer(GL_ELEMENT_ARRAY_BUFFER, 8, &mut calls);
    calls.clear();
    let indices: [u16; 6] = [0, 1, 2, 0, 2, 3];
    let buffer = Buffer::immutable(&mut ctx, BufferType::IndexBuffer, &indices, 9, &mut calls);
    assert_eq!(buffer.size(), 12);
    assert_eq!(calls[0], GlCall::BindBuffer { target: GL_ELEMENT_ARRAY_BUFFER, buffer: 9 });
    assert_eq!(
        calls.last(),
        Some(&GlCall::BindBuffer { target: GL_ELEMENT_ARRAY_BUFFER, buffer: 8 })
    );
    assert_eq!(ctx.cache.index_buffer, 8);
}

#[test]
fn a_stream_buffer_starts_empty() {
    let mut ctx = context();
    let mut calls = Vec::new();
    let buffer = Buffer::stream(&mut ctx, BufferType::VertexBuffer, 100, 4, &mut calls);
    assert_eq!(buffer, Buffer { gl_buf: 4, buffer_type: BufferType::VertexBuffer, size: 100 });
    assert_eq!(
        calls,
        vec![
            GlCall::BindBuffer { target: GL_ARRAY_BUFFER, buffer: 4 },
            GlCall::BufferData { target: GL_ARRAY_BUFFER, size: 100, usage: GL_STREAM_DRAW },
            GlCall::BindBuffer { target: GL_ARRAY_BUFFER, buffer: 0 },
        ]
    );
}

#[test]
fn an_update_ends_on_the_stored_binding() {
    let mut ctx = context();
    let mut calls = Vec::new();
    let buffer = Buffer::stream(&mut ctx, BufferType::VertexBuffer, 100, 4, &mut calls);
    ctx.cache.bind_buffer(GL_ARRAY_BUFFER, 7, &mut calls);
    calls.clear();
    buffer.update(&mut ctx, &[0u32; 5], &mut calls);
    assert_eq!(
        calls,
        vec![
            GlCall::BindBuffer { target: GL_ARRAY_BUFFER, buffer: 4 },
            GlCall::BufferSubData { target: GL_ARRAY_BUFFER, offset: 0, size: 20 },
            GlCall::BindBuffer { target: GL_ARRAY_BUFFER, buffer: 0 },
        ]
    );
    assert_eq!(ctx.cache.vertex_buffer, 0);
}

#[test]
fn deleting_a_buffer_leaves_the_handle() {
    let buffer = Buffer { gl_buf: 4, buffer_type: BufferType::VertexBuffer, size: 100 };
    let mut calls = Vec::new();
    buffer.delete(&mut calls);
    assert_eq!(calls, vec![GlCall::DeleteBuffers { buffer: 4 }]);
    assert_eq!(buffer.size(), 100);
}

#[test]
fn a_render_pass_attaches_its_textures() {
    let color = Texture { texture: 20, width: 64, height: 32 };
    let depth = Texture { texture: 21, width: 64, height: 32 };
    let mut ctx = context();
    let mut calls = Vec::new();
    let first = RenderPass::new(&mut ctx, color, None, 2, &mut calls);
    assert_eq!(first, RenderPass(0));
    assert_eq!(calls.len(), 3);
    calls.clear();
    let second = RenderPass::new(&mut ctx, color, Some(depth), 3, &mut calls);
    assert_eq!(second, RenderPass(1));
    assert_eq!(
        calls,
        vec![
            GlCall::BindFramebuffer { target: GL_FRAMEBUFFER, framebuffer: 3 },
            GlCall::FramebufferTexture2D {
                target: GL_FRAMEBUFFER,
                attachment: GL_COLOR_ATTACHMENT0,
                textarget: GL_TEXTURE_2D,
                texture: 20,
                level: 0,
            },
            GlCall::FramebufferTexture2D {
                target: GL_FRAMEBUFFER,
                attachment: GL_DEPTH_ATTACHMENT,
                textarget: GL_TEXTURE_2D,
                texture: 21,
                level: 0,
            },
            GlCall::BindFramebuffer { target: GL_FRAMEBUFFER, framebuffer: 6 },
        ]
    );
    assert_eq!(second.texture(&mut ctx), color);
}

#[test]
fn deleting_a_pass_deletes_its_textures() {
    let color = Texture { texture: 20, width: 64, height: 32 };
    let depth = Texture { texture: 21, width: 64, height: 32 };
    let mut ctx = context();
    let mut calls = Vec::new();
    let plain = RenderPass::new(&mut ctx, color, None, 2, &mut calls);
    let deep = RenderPass::new(&mut ctx, color, Some(depth), 3, &mut calls);
    calls.clear();
    plain.delete(&mut ctx, &mut calls);
    deep.delete(&mut ctx, &mut calls);
    assert_eq!(
        calls,
        vec![
            GlCall::DeleteFramebuffers { framebuffer: 2 },
            GlCall::DeleteTextures { texture: 20 },
            GlCall::DeleteFramebuffers { framebuffer: 3 },
            GlCall::DeleteTextures { texture: 20 },
            GlCall::DeleteTextures { texture: 21 },
        ]
    );
}
