use miniquad::buffer::Buffer;
use miniquad::call::GlCall;
use miniquad::context::Context;
use miniquad::gl::{GL_ARRAY_BUFFER, GL_ELEMENT_ARRAY_BUFFER, GL_FLOAT, GL_TEXTURE_2D};
use miniquad::shader::{ShaderImage, ShaderInternal, ShaderUniform};
use miniquad::types::{
    Bindings, BufferLayout, BufferType, Pipeline, Shader, Texture, UniformType, VertexAttribute,
    VertexFormat,
};

fn uniform(gl_loc: Option<i32>, uniform_type: UniformType, array_count: i32) -> ShaderUniform {
    ShaderUniform { gl_loc, offset: 0, size: uniform_type.size(), uniform_type, array_count }
}

fn vertex_buffer(gl_buf: u32) -> Buffer {
    Buffer { gl_buf, buffer_type: BufferType::VertexBuffer, size: 64 }
}

fn index_buffer(gl_buf: u32) -> Buffer {
    Buffer { gl_buf, buffer_type: BufferType::IndexBuffer, size: 12 }
}

fn texture(texture: u32) -> Texture {
    Texture { texture, width: 4, height: 4 }
}

fn ready(images: Vec<ShaderImage>, uniforms: Vec<ShaderUniform>) -> Context {
    let mut ctx = Context::new(0, 1, &mut Vec::new());
    let shader = ShaderInternal { program: 12, images, uniforms };
    let shader = Shader::new(&mut ctx, Ok(shader)).unwrap();
    let attributes = [
        VertexAttribute { name: "pos", format: VertexFormat::Float2, buffer_index: 0 },
        VertexAttribute { name: "uv", format: VertexFormat::Float2, buffer_index: 1 },
    ];
    let layouts = [BufferLayout::default(), BufferLayout::default()];
    let pipeline = Pipeline::new(&mut ctx, &layouts, &attributes, shader, &[0, 1]);
    ctx.apply_pipeline(&pipeline, &mut Vec::new());
    ctx
}

fn slot_calls(index: u32) -> Vec<GlCall> {
    vec![
        GlCall::VertexAttribPointer {
            index,
            components: 2,
            type_: GL_FLOAT,
            normalized: 0,
            stride: 8,
            pointer: 0,
        },
        GlCall::VertexAttribDivisor { index, divisor: 0 },
        GlCall::EnableVertexAttribArray { index },
    ]
}

#[test]
fn bindings_are_sent_in_order() {
    let images = vec![ShaderImage { gl_loc: Some(30) }, ShaderImage { gl_loc: None }];
    let mut ctx = ready(images, vec![]);
    let bindings = Bindings {
        vertex_buffers: vec![vertex_buffer(2), vertex_buffer(3)],
        index_buffer: index_buffer(4),
        images: vec![texture(5), texture(6)],
    };
    assert!(ctx.bindings_are_valid(&bindings));
    let mut calls = Vec::new();
    ctx.apply_bindings(&bindings, &mut calls);
    let mut expected = vec![
        GlCall::ActiveTexture { unit: 0x84C0 },
        GlCall::BindTexture { target: GL_TEXTURE_2D, texture: 5 },
        GlCall::Uniform1i { location: 30, value: 0 },
        GlCall::BindBuffer { target: GL_ELEMENT_ARRAY_BUFFER, buffer: 4 },
        GlCall::BindBuffer { target: GL_ARRAY_BUFFER, buffer: 2 },
    ];
    expected.extend(slot_calls(0));
    expected.push(GlCall::BindBuffer { target: GL_ARRAY_BUFFER, buffer: 3 });
    expected.extend(slot_calls(1));
    assert_eq!(calls, expected);
    // The same bindings again only point the sampler at its unit.
    calls.clear();
    ctx.apply_bindings(&bindings, &mut calls);
    assert_eq!(
        calls,
        vec![
            GlCall::ActiveTexture { unit: 0x84C0 },
            GlCall::Uniform1i { location: 30, value: 0 },
        ]
    );
}

#[test]
fn a_changed_buffer_changes_its_slots_alone() {
    let mut ctx = ready(vec![], vec![]);
    let mut bindings = Bindings {
        vertex_buffers: vec![vertex_buffer(2), vertex_buffer(3)],
        index_buffer: index_buffer(4),
        images: vec![],
    };
    let mut calls = Vec::new();
    ctx.apply_bindings(&bindings, &mut calls);
    calls.clear();
    bindings.vertex_buffers[0] = vertex_buffer(7);
    ctx.apply_bindings(&bindings, &mut calls);
    let mut expected = vec![GlCall::BindBuffer { target: GL_ARRAY_BUFFER, buffer: 7 }];
    expected.extend(slot_calls(0));
    assert_eq!(calls, expected);
}

#[test]
fn slots_that_fall_free_are_switched_off() {
    let mut ctx = ready(vec![], vec![]);
    let bindings = Bindings {
        vertex_buffers: vec![vertex_buffer(2), vertex_buffer(3)],
        index_buffer: index_buffer(4),
        images: vec![],
    };
    let mut calls = Vec::new();
    ctx.apply_bindings(&bindings, &mut calls);
    let bare = Pipeline::new(&mut ctx, &[], &[], Shader(0), &[]);
    ctx.apply_pipeline(&bare, &mut calls);
    calls.clear();
    ctx.apply_bindings(&bindings, &mut calls);
    assert_eq!(
        calls,
        vec![
            GlCall::DisableVertexAttribArray { index: 0 },
            GlCall::DisableVertexAttribArray { index: 1 },
        ]
    );
}

#[test]
fn bindings_that_do_not_fit_are_told_apart() {
    let ctx = ready(vec![ShaderImage { gl_loc: None }], vec![]);
    let fitting = Bindings {
        vertex_buffers: vec![vertex_buffer(2), vertex_buffer(3)],
        index_buffer: index_buffer(4),
        images: vec![texture(5)],
    };
    assert!(ctx.bindings_are_valid(&fitting));
    let mut imageless = fitting.clone();
    imageless.images.clear();
    assert!(!ctx.bindings_are_valid(&imageless));
    let mut short = fitting.clone();
    short.vertex_buffers.pop();
    assert!(!ctx.bindings_are_valid(&short));
    let idle = Context::new(0, 1, &mut Vec::new());
    assert!(!idle.bindings_are_valid(&fitting));
}

#[test]
fn too_many_sampled_images_do_not_fit() {
    let bindings = Bindings {
        vertex_buffers: vec![vertex_buffer(2), vertex_buffer(3)],
        index_buffer: index_buffer(4),
        images: vec![texture(5); 13],
    };
    let mut images = vec![ShaderImage { gl_loc: Some(1) }; 12];
    images.push(ShaderImage { gl_loc: None });
    assert!(ready(images, vec![]).bindings_are_valid(&bindings));
    let images = vec![ShaderImage { gl_loc: Some(1) }; 13];
    assert!(!ready(images, vec![]).bindings_are_valid(&bindings));
}

#[test]
fn uniforms_are_read_one_after_the_other() {
    let mut ctx = ready(
        vec![],
        vec![
            uniform(Some(1), UniformType::Float3, 1),
            uniform(None, UniformType::Mat4, 1),
            uniform(Some(2), UniformType::Int2, 3),
            uniform(Some(3), UniformType::Mat4, 1),
        ],
    );
    let data = [0u32; 41];
    assert!(ctx.uniforms_are_valid::<[u32; 41]>());
    let mut calls = Vec::new();
    ctx.apply_uniforms(&data, &mut calls);
    assert_eq!(
        calls,
        vec![
            GlCall::Uniform3fv { location: 1, count: 1, word: 0 },
            GlCall::Uniform2iv { location: 2, count: 3, word: 19 },
            GlCall::UniformMatrix4fv { location: 3, count: 1, transpose: 0, word: 25 },
        ]
    );
}

#[test]
fn each_uniform_type_has_its_call() {
    let types = [
        UniformType::Float1,
        UniformType::Float2,
        UniformType::Float4,
        UniformType::Int1,
        UniformType::Int3,
        UniformType::Int4,
    ];
    let uniforms = types.iter().map(|t| uniform(Some(9), *t, 1)).collect();
    let mut ctx = ready(vec![], uniforms);
    let mut calls = Vec::new();
    ctx.apply_uniforms(&[0u32; 15], &mut calls);
    assert_eq!(
        calls,
        vec![
            GlCall::Uniform1fv { location: 9, count: 1, word: 0 },
            GlCall::Uniform2fv { location: 9, count: 1, word: 1 },
            GlCall::Uniform4fv { location: 9, count: 1, word: 3 },
            GlCall::Uniform1iv { location: 9, count: 1, word: 7 },
            GlCall::Uniform3iv { location: 9, count: 1, word: 8 },
            GlCall::Uniform4iv { location: 9, count: 1, word: 11 },
        ]
    );
}

#[test]
fn uniform_data_that_is_too_small_does_not_fit() {
    let ctx = ready(
        vec![],
        vec![uniform(Some(1), UniformType::Mat4, 2), uniform(Some(2), UniformType::Float4, 1)],
    );
    // The test counts words up to the end of the first value of each uniform.
    assert!(!ctx.uniforms_are_valid::<[u8; 35]>());
    assert!(ctx.uniforms_are_valid::<[u8; 36]>());
    assert!(ctx.uniforms_are_valid::<[u32; 36]>());
    let idle = Context::new(0, 1, &mut Vec::new());
    assert!(!idle.uniforms_are_valid::<[u32; 36]>());
    // Without uniforms, any data fits.
    assert!(ready(vec![], vec![]).uniforms_are_valid::<()>());
}
