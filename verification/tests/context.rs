use miniquad::call::GlCall;
use miniquad::context::Context;
use miniquad::gl::{
    GL_ARRAY_BUFFER, GL_BACK, GL_BLEND, GL_CCW, GL_CULL_FACE, GL_CW, GL_DEPTH_TEST,
    GL_ELEMENT_ARRAY_BUFFER, GL_FRAMEBUFFER, GL_FRONT, GL_SCISSOR_TEST, GL_STENCIL_TEST,
    GL_TEXTURE_2D, GL_UNSIGNED_SHORT,
};
use miniquad::shader::ShaderInternal;
use miniquad::types::{
    BlendFactor, BlendState, BlendValue, CompareFunc, Comparison, CullFace, Equation,
    FrontFaceOrder, PassAction, Pipeline, PipelineParams, PrimitiveType, RenderPass, Shader,
    StencilFaceState, StencilOp, StencilState, Texture,
};

fn context() -> Context {
    Context::new(0, 1, &mut Vec::new())
}

fn with_program(ctx: &mut Context, program: u32) -> Shader {
    let shader = ShaderInternal { program, images: vec![], uniforms: vec![] };
    Shader::new(ctx, Ok(shader)).unwrap()
}

fn blend(equation: Equation, sfactor: BlendFactor, dfactor: BlendFactor) -> BlendState {
    BlendState { equation, sfactor, dfactor }
}

fn face(test_ref: i32) -> StencilFaceState {
    StencilFaceState {
        fail_op: StencilOp::Keep,
        depth_fail_op: StencilOp::IncrementWrap,
        pass_op: StencilOp::Replace,
        test_func: CompareFunc::Less,
        test_ref,
        test_mask: 0xff,
        write_mask: 0x0f,
    }
}

#[test]
fn a_new_context_binds_its_vertex_array() {
    let mut calls = Vec::new();
    let ctx = Context::new(3, 17, &mut calls);
    assert_eq!(calls, vec![GlCall::BindVertexArray { array: 17 }]);
    assert_eq!(ctx.default_framebuffer, 3);
    assert!(ctx.shaders.is_empty() && ctx.pipelines.is_empty() && ctx.passes.is_empty());
}

#[test]
fn culling_is_set_only_where_it_changes() {
    let mut ctx = context();
    let mut calls = Vec::new();
    ctx.set_cull_face(CullFace::Nothing, &mut calls);
    assert!(calls.is_empty());
    ctx.set_cull_face(CullFace::Front, &mut calls);
    ctx.set_cull_face(CullFace::Front, &mut calls);
    ctx.set_cull_face(CullFace::Back, &mut calls);
    ctx.set_cull_face(CullFace::Nothing, &mut calls);
    assert_eq!(
        calls,
        vec![
            GlCall::Enable { cap: GL_CULL_FACE },
            GlCall::CullFace { mode: GL_FRONT },
            GlCall::Enable { cap: GL_CULL_FACE },
            GlCall::CullFace { mode: GL_BACK },
            GlCall::Disable { cap: GL_CULL_FACE },
        ]
    );
}

#[test]
fn written_channels_are_set_only_where_they_change() {
    let mut ctx = context();
    let mut calls = Vec::new();
    ctx.set_color_write((true, true, true, true), &mut calls);
    ctx.set_color_write((true, false, true, false), &mut calls);
    ctx.set_color_write((true, false, true, false), &mut calls);
    assert_eq!(calls, vec![GlCall::ColorMask { r: true, g: false, b: true, a: false }]);
}

#[test]
fn blending_goes_on_and_off() {
    let color = blend(
        Equation::Add,
        BlendFactor::Value(BlendValue::SourceAlpha),
        BlendFactor::OneMinusValue(BlendValue::SourceAlpha),
    );
    let alpha = blend(Equation::Subtract, BlendFactor::Zero, BlendFactor::One);
    let mut ctx = context();
    let mut calls = Vec::new();
    ctx.set_blend(None, None, &mut calls);
    assert!(calls.is_empty());
    ctx.set_blend(Some(color), None, &mut calls);
    assert_eq!(
        calls,
        vec![
            GlCall::Enable { cap: GL_BLEND },
            GlCall::BlendFunc { source: 0x0302, destination: 0x0303 },
            GlCall::BlendEquationSeparate { rgb: 0x8006, alpha: 0x8006 },
        ]
    );
    calls.clear();
    ctx.set_blend(Some(color), Some(alpha), &mut calls);
    assert_eq!(
        calls,
        vec![
            GlCall::BlendFuncSeparate {
                source_rgb: 0x0302,
                destination_rgb: 0x0303,
                source_alpha: 0,
                destination_alpha: 1,
            },
            GlCall::BlendEquationSeparate { rgb: 0x8006, alpha: 0x800A },
        ]
    );
    calls.clear();
    ctx.set_blend(Some(color), Some(alpha), &mut calls);
    assert!(calls.is_empty());
    ctx.set_blend(None, None, &mut calls);
    assert_eq!(calls, vec![GlCall::Disable { cap: GL_BLEND }]);
}

#[test]
fn the_stencil_test_goes_on_and_off() {
    let mut ctx = context();
    let mut calls = Vec::new();
    let state = StencilState { front: face(1), back: face(2) };
    ctx.set_stencil(None, &mut calls);
    assert!(calls.is_empty());
    ctx.set_stencil(Some(state), &mut calls);
    let sides = [(GL_FRONT, 1), (GL_BACK, 2)];
    let mut expected = vec![GlCall::Enable { cap: GL_STENCIL_TEST }];
    for (side, reference) in sides {
        expected.push(GlCall::StencilOpSeparate {
            face: side,
            fail: 0x1E00,
            depth_fail: 0x8507,
            pass: 0x1E01,
        });
        expected.push(GlCall::StencilFuncSeparate {
            face: side,
            func: 0x0201,
            reference,
            mask: 0xff,
        });
        expected.push(GlCall::StencilMaskSeparate { face: side, mask: 0x0f });
    }
    assert_eq!(calls, expected);
    calls.clear();
    ctx.set_stencil(Some(state), &mut calls);
    assert!(calls.is_empty());
    // A change of the state does not switch the test on again.
    ctx.set_stencil(Some(StencilState { front: face(1), back: face(3) }), &mut calls);
    assert_eq!(calls.len(), 6);
    calls.clear();
    ctx.set_stencil(None, &mut calls);
    assert_eq!(calls, vec![GlCall::Disable { cap: GL_STENCIL_TEST }]);
}

#[test]
fn a_plain_pipeline_sends_its_base_settings() {
    let mut ctx = context();
    let shader = with_program(&mut ctx, 40);
    let pipeline = Pipeline::new(&mut ctx, &[], &[], shader, &[]);
    let mut calls = Vec::new();
    ctx.apply_pipeline(&pipeline, &mut calls);
    let base = vec![
        GlCall::UseProgram { program: 40 },
        GlCall::Enable { cap: GL_SCISSOR_TEST },
        GlCall::Disable { cap: GL_DEPTH_TEST },
        GlCall::FrontFace { mode: GL_CCW },
    ];
    assert_eq!(calls, base);
    assert_eq!(ctx.cache.cur_pipeline, Some(pipeline));
    calls.clear();
    ctx.apply_pipeline(&pipeline, &mut calls);
    assert_eq!(calls, base);
}

#[test]
fn a_pipeline_sends_what_differs() {
    let mut ctx = context();
    let shader = with_program(&mut ctx, 41);
    let params = PipelineParams {
        cull_face: CullFace::Back,
        front_face_order: FrontFaceOrder::Clockwise,
        depth_test: Comparison::LessOrEqual,
        depth_write: true,
        color_blend: Some(blend(Equation::Add, BlendFactor::One, BlendFactor::One)),
        alpha_blend: None,
        stencil_test: None,
        color_write: (true, true, true, false),
        primitive_type: PrimitiveType::Lines,
    };
    let pipeline = Pipeline::with_params(&mut ctx, &[], &[], shader, params, &[]);
    let mut calls = Vec::new();
    ctx.apply_pipeline(&pipeline, &mut calls);
    assert_eq!(
        calls,
        vec![
            GlCall::UseProgram { program: 41 },
            GlCall::Enable { cap: GL_SCISSOR_TEST },
            GlCall::Enable { cap: GL_DEPTH_TEST },
            GlCall::DepthFunc { func: 0x0203 },
            GlCall::FrontFace { mode: GL_CW },
            GlCall::Enable { cap: GL_CULL_FACE },
            GlCall::CullFace { mode: GL_BACK },
            GlCall::Enable { cap: GL_BLEND },
            GlCall::BlendFunc { source: 1, destination: 1 },
            GlCall::BlendEquationSeparate { rgb: 0x8006, alpha: 0x8006 },
            GlCall::ColorMask { r: true, g: true, b: true, a: false },
        ]
    );
    // Applied again, only what is not remembered is sent.
    calls.clear();
    ctx.apply_pipeline(&pipeline, &mut calls);
    assert_eq!(calls.len(), 5);
}

#[test]
fn the_scissor_rectangle_is_passed_on() {
    let mut ctx = context();
    let mut calls = Vec::new();
    ctx.apply_scissor_rect(1, -2, 3, 4, &mut calls);
    assert_eq!(calls, vec![GlCall::Scissor { x: 1, y: -2, width: 3, height: 4 }]);
}

#[test]
fn a_clear_touches_the_given_planes() {
    let ctx = context();
    let one = 1.0f32.to_bits();
    let half = 0.5f32.to_bits();
    let mut calls = Vec::new();
    ctx.clear(None, None, None, &mut calls);
    assert!(calls.is_empty());
    ctx.clear(Some((one, 0, half, one)), Some(one), Some(7), &mut calls);
    assert_eq!(
        calls,
        vec![
            GlCall::ClearColor { red_bits: one, green_bits: 0, blue_bits: half, alpha_bits: one },
            GlCall::ClearDepthf { depth_bits: one },
            GlCall::ClearStencil { stencil: 7 },
            GlCall::Clear { mask: 0x4500 },
        ]
    );
    let masks = [
        (true, false, false, 0x4000),
        (false, true, false, 0x0100),
        (false, false, true, 0x0400),
        (true, true, false, 0x4100),
        (true, false, true, 0x4400),
        (false, true, true, 0x0500),
    ];
    for (color, depth, stencil, mask) in masks {
        calls.clear();
        ctx.clear(
            color.then_some((0, 0, 0, 0)),
            depth.then_some(0),
            stencil.then_some(0),
            &mut calls,
        );
        assert_eq!(calls.last(), Some(&GlCall::Clear { mask }));
    }
}

#[test]
fn the_default_pass_covers_the_screen() {
    let mut ctx = Context::new(5, 1, &mut Vec::new());
    let mut calls = Vec::new();
    ctx.begin_default_pass(PassAction::Nothing, 640, 480, &mut calls);
    assert_eq!(
        calls,
        vec![
            GlCall::BindFramebuffer { target: GL_FRAMEBUFFER, framebuffer: 5 },
            GlCall::Viewport { x: 0, y: 0, width: 640, height: 480 },
            GlCall::Scissor { x: 0, y: 0, width: 640, height: 480 },
        ]
    );
}

#[test]
fn a_render_pass_covers_its_texture() {
    let mut ctx = context();
    let mut calls = Vec::new();
    let image = Texture { texture: 8, width: 32, height: 16 };
    let pass = RenderPass::new(&mut ctx, image, None, 2, &mut calls);
    calls.clear();
    let action = PassAction::Clear { color: None, depth: None, stencil: Some(1) };
    ctx.begin_pass(Some(pass), action, 640, 480, &mut calls);
    assert_eq!(
        calls,
        vec![
            GlCall::BindFramebuffer { target: GL_FRAMEBUFFER, framebuffer: 2 },
            GlCall::Viewport { x: 0, y: 0, width: 32, height: 16 },
            GlCall::Scissor { x: 0, y: 0, width: 32, height: 16 },
            GlCall::ClearStencil { stencil: 1 },
            GlCall::Clear { mask: 0x0400 },
        ]
    );
}

#[test]
fn ending_a_pass_goes_back() {
    let mut ctx = Context::new(5, 1, &mut Vec::new());
    let mut calls = Vec::new();
    ctx.cache.bind_buffer(GL_ARRAY_BUFFER, 9, &mut calls);
    calls.clear();
    ctx.end_render_pass(&mut calls);
    assert_eq!(
        calls,
        vec![
            GlCall::BindFramebuffer { target: GL_FRAMEBUFFER, framebuffer: 5 },
            GlCall::BindBuffer { target: GL_ARRAY_BUFFER, buffer: 0 },
        ]
    );
}

#[test]
fn committing_unbinds_everything_once() {
    let mut ctx = context();
    let mut calls = Vec::new();
    ctx.cache.bind_buffer(GL_ARRAY_BUFFER, 9, &mut calls);
    ctx.cache.bind_buffer(GL_ELEMENT_ARRAY_BUFFER, 10, &mut calls);
    ctx.cache.bind_texture(0, 11, &mut calls);
    calls.clear();
    ctx.commit_frame(&mut calls);
    assert_eq!(
        calls,
        vec![
            GlCall::BindBuffer { target: GL_ARRAY_BUFFER, buffer: 0 },
            GlCall::BindBuffer { target: GL_ELEMENT_ARRAY_BUFFER, buffer: 0 },
            GlCall::ActiveTexture { unit: 0x84C0 },
            GlCall::BindTexture { target: GL_TEXTURE_2D, texture: 0 },
        ]
    );
    calls.clear();
    ctx.commit_frame(&mut calls);
    assert!(calls.is_empty());
}

#[test]
fn drawing_uses_the_current_pipeline() {
    let mut ctx = context();
    let shader = with_program(&mut ctx, 40);
    let triangles = Pipeline::new(&mut ctx, &[], &[], shader, &[]);
    let params = PipelineParams { primitive_type: PrimitiveType::Lines, ..Default::default() };
    let lines = Pipeline::with_params(&mut ctx, &[], &[], shader, params, &[]);
    let mut calls = Vec::new();
    ctx.apply_pipeline(&triangles, &mut calls);
    calls.clear();
    ctx.draw(3, 6, 1, &mut calls);
    ctx.apply_pipeline(&lines, &mut Vec::new());
    ctx.draw(0, 2, 10, &mut calls);
    assert_eq!(
        calls,
        vec![
            GlCall::DrawElementsInstanced {
                mode: 4,
                count: 6,
                index_type: GL_UNSIGNED_SHORT,
                indices: 6,
                instances: 1,
            },
            GlCall::DrawElementsInstanced {
                mode: 1,
                count: 2,
                index_type: GL_UNSIGNED_SHORT,
                indices: 0,
                instances: 10,
            },
        ]
    );
}
