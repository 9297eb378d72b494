//! What settings do to the driver, said of the settings themselves.
use vstd::prelude::*;

use crate::cache::GlCacheView;
use crate::call::GlCall;
use crate::contents::{
    all_quiet, lemma_draw, lemma_machine_one, lemma_machine_state, lemma_quiet, Drawn, Machine,
};
use crate::context::{
    blend_allowed, blend_calls, blend_state_calls, color_write_calls, cull_face_calls, draw_calls,
    pipeline_base_calls, pipeline_calls, stencil_calls, stencil_face_calls,
};
use crate::driver::{coherent, DriverStencil, DriverState};
use crate::gl::{
    GLenum, GLuint, GL_BACK, GL_BLEND, GL_CCW, GL_CULL_FACE, GL_CW, GL_DEPTH_TEST, GL_FRONT,
    GL_SCISSOR_TEST, GL_STENCIL_TEST, GL_UNSIGNED_SHORT,
};
use crate::laws::cache::{law_calls_compose, lemma_after_one};
use crate::laws::settings::{
    law_blend, law_color_write, law_cull_face, law_stencil, lemma_base, lemma_base_coherent,
    lemma_blend_effect, lemma_cull_effect, lemma_stencil_effect,
};
use crate::types::{
    BlendState, ColorMask, Comparison, CullFace, FrontFaceOrder, Pipeline, PipelineParams,
    PrimitiveType, StencilFaceState, StencilState,
};

verus! {

/// `after` culls the given faces; with none to cull, the mode stays.
pub open spec fn culls(before: DriverState, after: DriverState, cull_face: CullFace) -> bool {
    &&& after.caps.contains(GL_CULL_FACE) <==> cull_face != CullFace::Nothing
    &&& cull_face == CullFace::Nothing ==> after.cull_mode == before.cull_mode
    &&& cull_face == CullFace::Front ==> after.cull_mode == GL_FRONT
    &&& cull_face == CullFace::Back ==> after.cull_mode == GL_BACK
}

/// `after` blends as asked: color with its factors and equation, and alpha with its own where
/// they are given, else with those of color. With blending off, factors and equations stay.
pub open spec fn blends(
    before: DriverState,
    after: DriverState,
    color_blend: Option<BlendState>,
    alpha_blend: Option<BlendState>,
) -> bool {
    &&& after.caps.contains(GL_BLEND) <==> color_blend is Some
    &&& color_blend matches Some(color) ==> {
        &&& after.blend_func.0 == color.sfactor.gl_enum()
        &&& after.blend_func.1 == color.dfactor.gl_enum()
        &&& after.blend_equation.0 == color.equation.gl_enum()
        &&& alpha_blend matches Some(alpha) ==> {
            &&& after.blend_func.2 == alpha.sfactor.gl_enum()
            &&& after.blend_func.3 == alpha.dfactor.gl_enum()
            &&& after.blend_equation.1 == alpha.equation.gl_enum()
        }
        &&& alpha_blend is None ==> {
            &&& after.blend_func.2 == color.sfactor.gl_enum()
            &&& after.blend_func.3 == color.dfactor.gl_enum()
            &&& after.blend_equation.1 == color.equation.gl_enum()
        }
    }
    &&& color_blend is None ==> {
        &&& after.blend_func == before.blend_func
        &&& after.blend_equation == before.blend_equation
    }
}

/// One face of the stencil test is as asked.
pub open spec fn face_as_asked(driver: DriverStencil, asked: StencilFaceState) -> bool {
    &&& driver.fail == asked.fail_op.gl_enum()
    &&& driver.depth_fail == asked.depth_fail_op.gl_enum()
    &&& driver.pass == asked.pass_op.gl_enum()
    &&& driver.func == asked.test_func.gl_enum()
    &&& driver.reference == asked.test_ref
    &&& driver.mask == asked.test_mask
    &&& driver.write_mask == asked.write_mask
}

/// `after` tests stencils as asked, face by face; with the test off, both faces stay.
pub open spec fn tests_stencil(
    before: DriverState,
    after: DriverState,
    stencil_test: Option<StencilState>,
) -> bool {
    &&& after.caps.contains(GL_STENCIL_TEST) <==> stencil_test is Some
    &&& stencil_test matches Some(asked) ==> {
        &&& face_as_asked(after.stencil_front, asked.front)
        &&& face_as_asked(after.stencil_back, asked.back)
    }
    &&& stencil_test is None ==> {
        &&& after.stencil_front == before.stencil_front
        &&& after.stencil_back == before.stencil_back
    }
}

/// Whatever was culled before, exactly the given faces are culled afterwards, and nothing else of
/// the driver changes.
pub proof fn law_culls_as_asked(machine: Machine, cache: GlCacheView, cull_face: CullFace)
    requires
        coherent(cache, machine.state),
    ensures
        ({
            let after = machine.after_all(cull_face_calls(cache.cull_face, cull_face));
            let before = machine.state;
            &&& after == (Machine { state: after.state, ..machine })
            &&& after.state == (DriverState {
                caps: after.state.caps,
                cull_mode: after.state.cull_mode,
                ..before
            })
            &&& culls(before, after.state, cull_face)
            &&& forall|cap: GLenum|
                cap != GL_CULL_FACE ==> after.state.caps.contains(cap) == before.caps.contains(cap)
        }),
{
    lemma_quiet(machine, cull_face_calls(cache.cull_face, cull_face));
    law_cull_face(cache, machine.state, cull_face);
    lemma_cull_effect(machine.state, cull_face);
}

/// Whatever was written before, exactly the given channels are written afterwards, and nothing
/// else of the driver changes.
pub proof fn law_writes_as_asked(machine: Machine, cache: GlCacheView, color_write: ColorMask)
    requires
        coherent(cache, machine.state),
    ensures
        machine.after_all(color_write_calls(cache.color_write, color_write)) == (Machine {
            state: DriverState { color_mask: color_write, ..machine.state },
            ..machine
        }),
{
    let (r, g, b, a) = color_write;
    lemma_quiet(machine, color_write_calls(cache.color_write, color_write));
    law_color_write(cache, machine.state, color_write);
    lemma_after_one(machine.state, GlCall::ColorMask { r, g, b, a });
}

/// Whatever was blended before, blending is as asked afterwards, and nothing else of the driver
/// changes.
pub proof fn law_blends_as_asked(
    machine: Machine,
    cache: GlCacheView,
    color_blend: Option<BlendState>,
    alpha_blend: Option<BlendState>,
)
    requires
        coherent(cache, machine.state),
        alpha_blend is Some ==> color_blend is Some,
    ensures
        ({
            let after = machine.after_all(
                blend_calls(cache.color_blend, cache.alpha_blend, color_blend, alpha_blend),
            );
            let before = machine.state;
            &&& after == (Machine { state: after.state, ..machine })
            &&& after.state == (DriverState {
                caps: after.state.caps,
                blend_func: after.state.blend_func,
                blend_equation: after.state.blend_equation,
                ..before
            })
            &&& blends(before, after.state, color_blend, alpha_blend)
            &&& forall|cap: GLenum|
                cap != GL_BLEND ==> after.state.caps.contains(cap) == before.caps.contains(cap)
        }),
{
    lemma_blend_quiet(cache, color_blend, alpha_blend);
    lemma_quiet(
        machine,
        blend_calls(cache.color_blend, cache.alpha_blend, color_blend, alpha_blend),
    );
    law_blend(cache, machine.state, color_blend, alpha_blend);
    lemma_blend_effect(machine.state, color_blend, alpha_blend);
}

proof fn lemma_blend_quiet(
    cache: GlCacheView,
    color_blend: Option<BlendState>,
    alpha_blend: Option<BlendState>,
)
    ensures
        all_quiet(blend_calls(cache.color_blend, cache.alpha_blend, color_blend, alpha_blend)),
{
    if let Some(color) = color_blend {
        assert(all_quiet(blend_state_calls(color, alpha_blend)));
    }
}

proof fn lemma_stencil_quiet(cache: GlCacheView, stencil_test: Option<StencilState>)
    ensures
        all_quiet(stencil_calls(cache.stencil, stencil_test)),
{
    if let Some(stencil) = stencil_test {
        assert(all_quiet(stencil_face_calls(GL_FRONT, stencil.front)));
        assert(all_quiet(stencil_face_calls(GL_BACK, stencil.back)));
    }
}

/// Whatever was tested before, the stencil test is as asked afterwards, and nothing else of the
/// driver changes.
pub proof fn law_tests_stencil_as_asked(
    machine: Machine,
    cache: GlCacheView,
    stencil_test: Option<StencilState>,
)
    requires
        coherent(cache, machine.state),
    ensures
        ({
            let after = machine.after_all(stencil_calls(cache.stencil, stencil_test));
            let before = machine.state;
            &&& after == (Machine { state: after.state, ..machine })
            &&& after.state == (DriverState {
                caps: after.state.caps,
                stencil_front: after.state.stencil_front,
                stencil_back: after.state.stencil_back,
                ..before
            })
            &&& tests_stencil(before, after.state, stencil_test)
            &&& forall|cap: GLenum|
                cap != GL_STENCIL_TEST ==> after.state.caps.contains(cap)
                    == before.caps.contains(cap)
        }),
{
    lemma_stencil_quiet(cache, stencil_test);
    lemma_quiet(machine, stencil_calls(cache.stencil, stencil_test));
    law_stencil(cache, machine.state, stencil_test);
    lemma_stencil_effect(machine.state, stencil_test);
}

proof fn lemma_pipeline_quiet(cache: GlCacheView, program: GLuint, params: PipelineParams)
    ensures
        all_quiet(pipeline_calls(cache, program, params)),
{
    lemma_blend_quiet(cache, params.color_blend, params.alpha_blend);
    lemma_stencil_quiet(cache, params.stencil_test);
    assert(all_quiet(pipeline_base_calls(program, params)));
    assert(all_quiet(cull_face_calls(cache.cull_face, params.cull_face)));
    assert(all_quiet(color_write_calls(cache.color_write, params.color_write)));
}

/// Whatever was set before, applying a pipeline makes its program current, switches the scissor
/// test on, and sets depth test, winding order, culling, blending, stencil test and written
/// channels to what the pipeline asks for. Nothing else of the driver changes.
#[verifier::rlimit(40)]
pub proof fn law_pipeline_as_asked(
    machine: Machine,
    cache: GlCacheView,
    program: GLuint,
    params: PipelineParams,
)
    requires
        coherent(cache, machine.state),
        params.alpha_blend is Some ==> params.color_blend is Some,
    ensures
        ({
            let after = machine.after_all(pipeline_calls(cache, program, params));
            let before = machine.state;
            let now = after.state;
            &&& after == (Machine { state: now, ..machine })
            &&& now == (DriverState {
                program,
                caps: now.caps,
                depth_func: now.depth_func,
                front_face: now.front_face,
                cull_mode: now.cull_mode,
                blend_func: now.blend_func,
                blend_equation: now.blend_equation,
                stencil_front: now.stencil_front,
                stencil_back: now.stencil_back,
                color_mask: params.color_write,
                ..before
            })
            &&& now.caps.contains(GL_SCISSOR_TEST)
            &&& now.caps.contains(GL_DEPTH_TEST) <==> params.depth_write
            &&& params.depth_write ==> now.depth_func == params.depth_test.gl_enum()
            &&& !params.depth_write ==> now.depth_func == before.depth_func
            &&& params.front_face_order == FrontFaceOrder::Clockwise ==> now.front_face == GL_CW
            &&& params.front_face_order == FrontFaceOrder::CounterClockwise ==> now.front_face
                == GL_CCW
            &&& culls(before, now, params.cull_face)
            &&& blends(before, now, params.color_blend, params.alpha_blend)
            &&& tests_stencil(before, now, params.stencil_test)
            &&& forall|cap: GLenum|
                cap != GL_SCISSOR_TEST && cap != GL_DEPTH_TEST && cap != GL_CULL_FACE && cap
                    != GL_BLEND && cap != GL_STENCIL_TEST ==> now.caps.contains(cap)
                    == before.caps.contains(cap)
        }),
{
    let base = pipeline_base_calls(program, params);
    let cull = cull_face_calls(cache.cull_face, params.cull_face);
    let blend = blend_calls(
        cache.color_blend,
        cache.alpha_blend,
        params.color_blend,
        params.alpha_blend,
    );
    let stencil = stencil_calls(cache.stencil, params.stencil_test);
    let color = color_write_calls(cache.color_write, params.color_write);
    let driver = machine.state;
    law_calls_compose(driver, base, cull);
    law_calls_compose(driver, base + cull, blend);
    law_calls_compose(driver, base + cull + blend, stencil);
    law_calls_compose(driver, base + cull + blend + stencil, color);
    lemma_pipeline_quiet(cache, program, params);
    lemma_quiet(machine, pipeline_calls(cache, program, params));

    let pipeline = Pipeline(0);
    lemma_base(driver, program, params);
    lemma_base_coherent(cache, driver, pipeline, program, params);
    let cache0 = GlCacheView { cur_pipeline: Some(pipeline), ..cache };
    let m0 = Machine { state: driver.after_all(base), ..machine };
    law_culls_as_asked(m0, cache0, params.cull_face);
    law_cull_face(cache0, m0.state, params.cull_face);
    lemma_machine_state(m0, cull);
    let cache1 = GlCacheView { cull_face: params.cull_face, ..cache0 };
    let m1 = Machine { state: m0.state.after_all(cull), ..machine };
    law_blends_as_asked(m1, cache1, params.color_blend, params.alpha_blend);
    law_blend(cache1, m1.state, params.color_blend, params.alpha_blend);
    lemma_machine_state(m1, blend);
    let cache2 = GlCacheView {
        color_blend: params.color_blend,
        alpha_blend: params.alpha_blend,
        ..cache1
    };
    let m2 = Machine { state: m1.state.after_all(blend), ..machine };
    law_tests_stencil_as_asked(m2, cache2, params.stencil_test);
    law_stencil(cache2, m2.state, params.stencil_test);
    lemma_machine_state(m2, stencil);
    let cache3 = GlCacheView { stencil: params.stencil_test, ..cache2 };
    let m3 = Machine { state: m2.state.after_all(stencil), ..machine };
    law_writes_as_asked(m3, cache3, params.color_write);
    lemma_machine_state(m3, color);
    let now = machine.after_all(pipeline_calls(cache, program, params)).state;
    assert(now == DriverState { color_mask: params.color_write, ..m3.state });
    assert(m3.state.caps.contains(GL_STENCIL_TEST) <==> params.stencil_test is Some);
    assert(m2.state.caps.contains(GL_BLEND) <==> params.color_blend is Some);
    assert(m1.state.caps.contains(GL_CULL_FACE) <==> params.cull_face != CullFace::Nothing);
    assert(m3.state.caps.contains(GL_BLEND) == m2.state.caps.contains(GL_BLEND));
    assert(m3.state.caps.contains(GL_CULL_FACE) == m2.state.caps.contains(GL_CULL_FACE));
    assert(m2.state.caps.contains(GL_CULL_FACE) == m1.state.caps.contains(GL_CULL_FACE));
    assert(culls(driver, now, params.cull_face));
    assert(blends(driver, now, params.color_blend, params.alpha_blend));
    assert(tests_stencil(driver, now, params.stencil_test));
    assert forall|cap: GLenum|
        cap != GL_CULL_FACE && cap != GL_BLEND && cap != GL_STENCIL_TEST implies (
    #[trigger] now.caps.contains(cap)) == m0.state.caps.contains(cap) by {
        assert(m3.state.caps.contains(cap) == m2.state.caps.contains(cap));
        assert(m2.state.caps.contains(cap) == m1.state.caps.contains(cap));
        assert(m1.state.caps.contains(cap) == m0.state.caps.contains(cap));
    }
}

/// A plain pipeline leaves a driver in its initial state as it is, but for the program, the
/// scissor test and nothing else.
pub proof fn law_plain_pipeline(machine: Machine, cache: GlCacheView, program: GLuint)
    requires
        coherent(cache, machine.state),
        machine.state == DriverState::initial(),
    ensures
        machine.after_all(pipeline_calls(cache, program, PipelineParams::plain())) == (Machine {
            state: DriverState {
                program,
                caps: set![GL_SCISSOR_TEST],
                ..DriverState::initial()
            },
            ..machine
        }),
        PipelineParams::plain().depth_test == Comparison::Always,
        PipelineParams::plain().primitive_type == PrimitiveType::Triangles,
{
    let params = PipelineParams::plain();
    law_pipeline_as_asked(machine, cache, program, params);
    let now = machine.after_all(pipeline_calls(cache, program, params)).state;
    assert(now.caps =~= set![GL_SCISSOR_TEST]);
}

/// Drawing draws once, in the state that the driver is in: the primitives of the pipeline, as
/// many indices and instances as asked, each index two bytes wide, from the given index on.
/// Nothing else of the driver changes.
pub proof fn law_draws_as_asked(
    machine: Machine,
    primitive_type: PrimitiveType,
    base_element: i32,
    num_elements: i32,
    num_instances: i32,
)
    requires
        i32::MIN <= 2 * base_element <= i32::MAX,
    ensures
        ({
            let after = machine.after_all(
                draw_calls(primitive_type, base_element, num_elements, num_instances),
            );
            &&& after == (Machine { draws: after.draws, ..machine })
            &&& after.draws.len() == machine.draws.len() + 1
            &&& after.draws.drop_last() == machine.draws
            &&& after.draws.last() == (Drawn {
                state: machine.state,
                mode: match primitive_type {
                    PrimitiveType::Triangles => 4,
                    PrimitiveType::Lines => 1,
                },
                count: num_elements,
                index_type: GL_UNSIGNED_SHORT,
                first_byte: (base_element + base_element) as i32,
                instances: num_instances,
            })
        }),
{
    let call = GlCall::DrawElementsInstanced {
        mode: primitive_type.gl_enum(),
        count: num_elements,
        index_type: GL_UNSIGNED_SHORT,
        indices: (2 * base_element) as i32,
        instances: num_instances,
    };
    lemma_machine_one(machine, call);
    lemma_draw(
        machine,
        primitive_type.gl_enum(),
        num_elements,
        GL_UNSIGNED_SHORT,
        (2 * base_element) as i32,
        num_instances,
    );
    assert(draw_calls(primitive_type, base_element, num_elements, num_instances) =~= seq![call]);
    assert(machine.after(call).draws.drop_last() =~= machine.draws);
}

/// Settings are sent only where they change: no call where the new one is the remembered one,
/// and no more calls than it takes otherwise. Blending and stencil test are switched on only
/// where they were off.
pub proof fn law_settings_sent_sparingly(
    cache: GlCacheView,
    cull_face: CullFace,
    color_write: ColorMask,
    color_blend: Option<BlendState>,
    alpha_blend: Option<BlendState>,
    stencil_test: Option<StencilState>,
)
    requires
        cache.alpha_blend is Some ==> cache.color_blend is Some,
        alpha_blend is Some ==> color_blend is Some,
    ensures
        cull_face_calls(cache.cull_face, cull_face).len() == if cache.cull_face == cull_face {
            0int
        } else if cull_face == CullFace::Nothing {
            1
        } else {
            2
        },
        color_write_calls(cache.color_write, color_write).len() == if cache.color_write
            == color_write {
            0int
        } else {
            1
        },
        blend_calls(cache.color_blend, cache.alpha_blend, color_blend, alpha_blend).len() == if (
        cache.color_blend == color_blend && cache.alpha_blend == alpha_blend) {
            0int
        } else if color_blend is None {
            1
        } else if cache.color_blend is None {
            3
        } else {
            2
        },
        stencil_calls(cache.stencil, stencil_test).len() == if cache.stencil == stencil_test {
            0int
        } else if stencil_test is None {
            1
        } else if cache.stencil is None {
            7
        } else {
            6
        },
{
}

/// Blending can be asked for unless it is asked for alpha alone.
pub proof fn law_alpha_needs_color(
    color_blend: Option<BlendState>,
    alpha_blend: Option<BlendState>,
)
    ensures
        blend_allowed(color_blend, alpha_blend) <==> !(alpha_blend is Some && color_blend is None),
{
}

} // verus!
