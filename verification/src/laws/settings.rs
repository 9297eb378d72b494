//! Settings: applying a pipeline sets the driver to what the pipeline asks for, whatever calls
//! the cache leaves out.
use vstd::prelude::*;

use crate::cache::GlCacheView;
use crate::call::GlCall;
use crate::context::{
    blend_allowed, blend_calls, blend_requests, blend_state_calls, color_write_calls,
    color_write_requests, cull_face_calls, cull_face_requests, pipeline_base_calls,
    pipeline_cache, pipeline_calls, pipeline_requests, stencil_calls, stencil_face_calls,
    stencil_requests,
};
use crate::driver::{
    attribute_set, blend_set, coherent, cull_face_set, stencil_set, unit_holds, DriverState,
    DriverStencil,
};
use crate::gl::{
    GLenum, GLuint, GL_BACK, GL_BLEND, GL_CCW, GL_CULL_FACE, GL_CW, GL_DEPTH_TEST, GL_FRONT,
    GL_SCISSOR_TEST, GL_STENCIL_TEST,
};
use crate::laws::cache::{law_calls_compose, lemma_after_one, lemma_after_three, lemma_after_two};
use crate::types::{
    BlendState, ColorMask, CullFace, FrontFaceOrder, Pipeline, PipelineParams, StencilFaceState,
    StencilState, MAX_SHADERSTAGE_IMAGES, MAX_VERTEX_ATTRIBUTES,
};

verus! {

/// Two drivers with the same buffers, textures and vertex attributes.
pub open spec fn same_bindings(a: DriverState, b: DriverState) -> bool {
    &&& a.array_buffer == b.array_buffer
    &&& a.element_buffer == b.element_buffer
    &&& a.units == b.units
    &&& a.attributes == b.attributes
}

/// The driver is set as the parameters of a pipeline say.
pub open spec fn pipeline_set(
    driver: DriverState,
    program: GLuint,
    params: PipelineParams,
) -> bool {
    &&& driver.program == program
    &&& driver.caps.contains(GL_SCISSOR_TEST)
    &&& driver.caps.contains(GL_DEPTH_TEST) == params.depth_write
    &&& params.depth_write ==> driver.depth_func == params.depth_test.gl_enum()
    &&& driver.front_face == match params.front_face_order {
        FrontFaceOrder::Clockwise => GL_CW,
        FrontFaceOrder::CounterClockwise => GL_CCW,
    }
    &&& cull_face_set(driver, params.cull_face)
    &&& blend_set(driver, params.color_blend, params.alpha_blend)
    &&& stencil_set(driver, params.stencil_test)
    &&& driver.color_mask == params.color_write
}

proof fn lemma_bindings_stay_true(
    cache: GlCacheView,
    driver: DriverState,
    next: GlCacheView,
    after: DriverState,
)
    requires
        coherent(cache, driver),
        same_bindings(driver, after),
        next.vertex_buffer == cache.vertex_buffer,
        next.index_buffer == cache.index_buffer,
        next.textures == cache.textures,
        next.attributes == cache.attributes,
        next.wf(),
        next.color_write == after.color_mask,
        cull_face_set(after, next.cull_face),
        blend_set(after, next.color_blend, next.alpha_blend),
        stencil_set(after, next.stencil),
    ensures
        coherent(next, after),
{
    assert forall|slot: int| 0 <= slot < MAX_SHADERSTAGE_IMAGES implies unit_holds(
        after,
        slot,
        #[trigger] next.textures[slot],
    ) by {
        assert(unit_holds(driver, slot, cache.textures[slot]));
    }
    assert forall|index: int| 0 <= index < MAX_VERTEX_ATTRIBUTES implies attribute_set(
        after.attributes[index as GLuint],
        #[trigger] next.attributes[index],
    ) by {
        assert(attribute_set(driver.attributes[index as GLuint], cache.attributes[index]));
    }
}

/// Setting the culled faces sets the driver as the calls in full would, and what is remembered
/// stays true.
pub proof fn law_cull_face(cache: GlCacheView, driver: DriverState, cull_face: CullFace)
    requires
        coherent(cache, driver),
    ensures
        ({
            let after = driver.after_all(cull_face_calls(cache.cull_face, cull_face));
            &&& after == driver.after_all(cull_face_requests(cull_face))
            &&& cull_face_set(after, cull_face)
            &&& coherent(GlCacheView { cull_face, ..cache }, after)
        }),
{
    let enable = GlCall::Enable { cap: GL_CULL_FACE };
    let full = driver.after_all(cull_face_requests(cull_face));
    lemma_after_one(driver, GlCall::Disable { cap: GL_CULL_FACE });
    lemma_after_two(driver, enable, GlCall::CullFace { mode: GL_FRONT });
    lemma_after_two(driver, enable, GlCall::CullFace { mode: GL_BACK });
    if cache.cull_face == cull_face {
        assert(full.caps =~= driver.caps);
        assert(full =~= driver);
    }
    let next = GlCacheView { cull_face, ..cache };
    lemma_bindings_stay_true(cache, driver, next, full);
}

/// Setting the written channels sets the driver as the call in full would, and what is remembered
/// stays true.
pub proof fn law_color_write(cache: GlCacheView, driver: DriverState, color_write: ColorMask)
    requires
        coherent(cache, driver),
    ensures
        ({
            let after = driver.after_all(color_write_calls(cache.color_write, color_write));
            &&& after == driver.after_all(color_write_requests(color_write))
            &&& after.color_mask == color_write
            &&& coherent(GlCacheView { color_write, ..cache }, after)
        }),
{
    let full = driver.after_all(color_write_requests(color_write));
    lemma_after_one(
        driver,
        GlCall::ColorMask {
            r: color_write.0,
            g: color_write.1,
            b: color_write.2,
            a: color_write.3,
        },
    );
    if cache.color_write == color_write {
        assert(full == driver);
    }
    lemma_bindings_stay_true(cache, driver, GlCacheView { color_write, ..cache }, full);
}

/// The driver after the factors and equations of blending have been set.
spec fn blend_applied(
    driver: DriverState,
    color: BlendState,
    alpha: Option<BlendState>,
) -> DriverState {
    let other = match alpha {
        Some(alpha) => alpha,
        None => color,
    };
    DriverState {
        blend_func: (
            color.sfactor.gl_enum(),
            color.dfactor.gl_enum(),
            other.sfactor.gl_enum(),
            other.dfactor.gl_enum(),
        ),
        blend_equation: (color.equation.gl_enum(), other.equation.gl_enum()),
        ..driver
    }
}

proof fn lemma_blend_state(driver: DriverState, color: BlendState, alpha: Option<BlendState>)
    ensures
        driver.after_all(blend_state_calls(color, alpha)) == blend_applied(driver, color, alpha),
{
    let calls = blend_state_calls(color, alpha);
    lemma_after_two(driver, calls[0], calls[1]);
    assert(calls =~= seq![calls[0], calls[1]]);
}

/// Setting blending sets the driver as the calls in full would, and what is remembered stays
/// true.
pub proof fn law_blend(
    cache: GlCacheView,
    driver: DriverState,
    color_blend: Option<BlendState>,
    alpha_blend: Option<BlendState>,
)
    requires
        coherent(cache, driver),
        blend_allowed(color_blend, alpha_blend),
    ensures
        ({
            let after = driver.after_all(
                blend_calls(cache.color_blend, cache.alpha_blend, color_blend, alpha_blend),
            );
            &&& after == driver.after_all(blend_requests(color_blend, alpha_blend))
            &&& blend_set(after, color_blend, alpha_blend)
            &&& coherent(GlCacheView { color_blend, alpha_blend, ..cache }, after)
        }),
{
    let enable = GlCall::Enable { cap: GL_BLEND };
    let disable = GlCall::Disable { cap: GL_BLEND };
    let calls = blend_calls(cache.color_blend, cache.alpha_blend, color_blend, alpha_blend);
    let full = driver.after_all(blend_requests(color_blend, alpha_blend));
    lemma_after_one(driver, enable);
    lemma_after_one(driver, disable);
    match color_blend {
        Some(color) => {
            let set = blend_state_calls(color, alpha_blend);
            law_calls_compose(driver, seq![enable], set);
            lemma_blend_state(driver.after(enable), color, alpha_blend);
            lemma_blend_state(driver, color, alpha_blend);
            if cache.color_blend is Some {
                assert(driver.caps.insert(GL_BLEND) =~= driver.caps);
                assert(driver.after(enable) == driver);
                assert(Seq::<GlCall>::empty() + set =~= set);
            }
            if cache.color_blend == color_blend && cache.alpha_blend == alpha_blend {
                assert(full == driver);
            }
        },
        None => {
            if cache.color_blend is None {
                assert(driver.caps.remove(GL_BLEND) =~= driver.caps);
                assert(full == driver);
            }
        },
    }
    assert(driver.after_all(calls) == full);
    lemma_bindings_stay_true(
        cache,
        driver,
        GlCacheView { color_blend, alpha_blend, ..cache },
        full,
    );
}

/// What the driver's stencil test of one face becomes.
spec fn stencil_applied(state: StencilFaceState) -> DriverStencil {
    DriverStencil {
        fail: state.fail_op.gl_enum(),
        depth_fail: state.depth_fail_op.gl_enum(),
        pass: state.pass_op.gl_enum(),
        func: state.test_func.gl_enum(),
        reference: state.test_ref,
        mask: state.test_mask,
        write_mask: state.write_mask,
    }
}

proof fn lemma_stencil_face(driver: DriverState, face: GLenum, state: StencilFaceState)
    requires
        face == GL_FRONT || face == GL_BACK,
    ensures
        driver.after_all(stencil_face_calls(face, state)) == driver.with_stencil(
            face,
            stencil_applied(state),
        ),
{
    let calls = stencil_face_calls(face, state);
    lemma_after_three(driver, calls[0], calls[1], calls[2]);
    assert(calls =~= seq![calls[0], calls[1], calls[2]]);
}

/// Setting the stencil test sets the driver as the calls in full would, and what is remembered
/// stays true.
pub proof fn law_stencil(
    cache: GlCacheView,
    driver: DriverState,
    stencil_test: Option<StencilState>,
)
    requires
        coherent(cache, driver),
    ensures
        ({
            let after = driver.after_all(stencil_calls(cache.stencil, stencil_test));
            &&& after == driver.after_all(stencil_requests(stencil_test))
            &&& stencil_set(after, stencil_test)
            &&& coherent(GlCacheView { stencil: stencil_test, ..cache }, after)
        }),
{
    let enable = GlCall::Enable { cap: GL_STENCIL_TEST };
    let disable = GlCall::Disable { cap: GL_STENCIL_TEST };
    let full = driver.after_all(stencil_requests(stencil_test));
    lemma_after_one(driver, enable);
    lemma_after_one(driver, disable);
    match stencil_test {
        Some(stencil) => {
            let front = stencil_face_calls(GL_FRONT, stencil.front);
            let back = stencil_face_calls(GL_BACK, stencil.back);
            let on = driver.after(enable);
            let none = Seq::<GlCall>::empty();
            law_calls_compose(driver, seq![enable], front);
            law_calls_compose(driver, seq![enable] + front, back);
            law_calls_compose(driver, none, front);
            law_calls_compose(driver, none + front, back);
            lemma_stencil_face(on, GL_FRONT, stencil.front);
            lemma_stencil_face(
                on.with_stencil(GL_FRONT, stencil_applied(stencil.front)),
                GL_BACK,
                stencil.back,
            );
            if cache.stencil is Some {
                assert(driver.caps.insert(GL_STENCIL_TEST) =~= driver.caps);
                assert(on == driver);
            }
            if cache.stencil == stencil_test {
                assert(full == driver);
            }
        },
        None => {
            if cache.stencil is None {
                assert(driver.caps.remove(GL_STENCIL_TEST) =~= driver.caps);
                assert(full == driver);
            }
        },
    }
    lemma_bindings_stay_true(
        cache,
        driver,
        GlCacheView { stencil: stencil_test, ..cache },
        full,
    );
}

/// The driver after the settings that are not remembered.
pub open spec fn base_applied(driver: DriverState, program: GLuint, params: PipelineParams) -> DriverState {
    let scissor = driver.caps.insert(GL_SCISSOR_TEST);
    DriverState {
        program,
        caps: if params.depth_write {
            scissor.insert(GL_DEPTH_TEST)
        } else {
            scissor.remove(GL_DEPTH_TEST)
        },
        depth_func: if params.depth_write {
            params.depth_test.gl_enum()
        } else {
            driver.depth_func
        },
        front_face: match params.front_face_order {
            FrontFaceOrder::Clockwise => GL_CW,
            FrontFaceOrder::CounterClockwise => GL_CCW,
        },
        ..driver
    }
}

pub proof fn lemma_base(driver: DriverState, program: GLuint, params: PipelineParams)
    ensures
        driver.after_all(pipeline_base_calls(program, params)) == base_applied(
            driver,
            program,
            params,
        ),
{
    let start = seq![GlCall::UseProgram { program }, GlCall::Enable { cap: GL_SCISSOR_TEST }];
    let begun = driver.after(start[0]).after(start[1]);
    lemma_after_two(driver, start[0], start[1]);
    let depth = if params.depth_write {
        seq![
            GlCall::Enable { cap: GL_DEPTH_TEST },
            GlCall::DepthFunc { func: params.depth_test.gl_enum() },
        ]
    } else {
        seq![GlCall::Disable { cap: GL_DEPTH_TEST }]
    };
    if params.depth_write {
        lemma_after_two(begun, depth[0], depth[1]);
    } else {
        lemma_after_one(begun, depth[0]);
    }
    let mode = match params.front_face_order {
        FrontFaceOrder::Clockwise => GL_CW,
        FrontFaceOrder::CounterClockwise => GL_CCW,
    };
    law_calls_compose(driver, start, depth);
    law_calls_compose(driver, start + depth, seq![GlCall::FrontFace { mode }]);
    lemma_after_one(driver.after_all(start + depth), GlCall::FrontFace { mode });
}

pub proof fn lemma_base_coherent(
    cache: GlCacheView,
    driver: DriverState,
    pipeline: Pipeline,
    program: GLuint,
    params: PipelineParams,
)
    requires
        coherent(cache, driver),
    ensures
        coherent(
            GlCacheView { cur_pipeline: Some(pipeline), ..cache },
            base_applied(driver, program, params),
        ),
{
    lemma_bindings_stay_true(
        cache,
        driver,
        GlCacheView { cur_pipeline: Some(pipeline), ..cache },
        base_applied(driver, program, params),
    );
}

/// Applying a pipeline sets the driver to what the pipeline asks for, as its calls in full would;
/// bindings stay, and what is remembered stays true.
pub proof fn law_apply_pipeline(
    cache: GlCacheView,
    driver: DriverState,
    pipeline: Pipeline,
    program: GLuint,
    params: PipelineParams,
)
    requires
        coherent(cache, driver),
        blend_allowed(params.color_blend, params.alpha_blend),
    ensures
        ({
            let after = driver.after_all(pipeline_calls(cache, program, params));
            &&& after == driver.after_all(pipeline_requests(program, params))
            &&& pipeline_set(after, program, params)
            &&& same_bindings(driver, after)
            &&& coherent(pipeline_cache(cache, pipeline, params), after)
        }),
{
    let base = pipeline_base_calls(program, params);
    let cull = cull_face_calls(cache.cull_face, params.cull_face);
    let blend = blend_calls(
        cache.color_blend,
        cache.alpha_blend,
        params.color_blend,
        params.alpha_blend,
    );
    let stencil = stencil_calls(cache.stencil, params.stencil_test);
    let color = color_write_calls(cache.color_write, params.color_write);
    law_calls_compose(driver, base, cull);
    law_calls_compose(driver, base + cull, blend);
    law_calls_compose(driver, base + cull + blend, stencil);
    law_calls_compose(driver, base + cull + blend + stencil, color);
    let cull_full = cull_face_requests(params.cull_face);
    let blend_full = blend_requests(params.color_blend, params.alpha_blend);
    let stencil_full = stencil_requests(params.stencil_test);
    let color_full = color_write_requests(params.color_write);
    law_calls_compose(driver, base, cull_full);
    law_calls_compose(driver, base + cull_full, blend_full);
    law_calls_compose(driver, base + cull_full + blend_full, stencil_full);
    law_calls_compose(driver, base + cull_full + blend_full + stencil_full, color_full);

    lemma_base(driver, program, params);
    lemma_base_coherent(cache, driver, pipeline, program, params);
    let cache0 = GlCacheView { cur_pipeline: Some(pipeline), ..cache };
    let driver0 = driver.after_all(base);
    law_cull_face(cache0, driver0, params.cull_face);
    let cache1 = GlCacheView { cull_face: params.cull_face, ..cache0 };
    let driver1 = driver0.after_all(cull);
    lemma_cull_effect(driver0, params.cull_face);
    law_blend(cache1, driver1, params.color_blend, params.alpha_blend);
    lemma_blend_effect(driver1, params.color_blend, params.alpha_blend);
    let cache2 = GlCacheView {
        color_blend: params.color_blend,
        alpha_blend: params.alpha_blend,
        ..cache1
    };
    let driver2 = driver1.after_all(blend);
    law_stencil(cache2, driver2, params.stencil_test);
    lemma_stencil_effect(driver2, params.stencil_test);
    let cache3 = GlCacheView { stencil: params.stencil_test, ..cache2 };
    let driver3 = driver2.after_all(stencil);
    law_color_write(cache3, driver3, params.color_write);
    lemma_after_one(driver3, color_full[0]);
    assert(color_full =~= seq![color_full[0]]);
    assert(pipeline_cache(cache, pipeline, params) == GlCacheView {
        color_write: params.color_write,
        ..cache3
    });
}

pub proof fn lemma_cull_effect(driver: DriverState, cull_face: CullFace)
    ensures
        ({
            let after = driver.after_all(cull_face_requests(cull_face));
            after == DriverState { caps: after.caps, cull_mode: after.cull_mode, ..driver }
                && forall|cap: GLenum|
                cap != GL_CULL_FACE ==> after.caps.contains(cap) == driver.caps.contains(cap)
        }),
        cull_face is Nothing ==> driver.after_all(cull_face_requests(cull_face)).cull_mode
            == driver.cull_mode,
{
    let enable = GlCall::Enable { cap: GL_CULL_FACE };
    lemma_after_one(driver, GlCall::Disable { cap: GL_CULL_FACE });
    lemma_after_two(driver, enable, GlCall::CullFace { mode: GL_FRONT });
    lemma_after_two(driver, enable, GlCall::CullFace { mode: GL_BACK });
}

pub proof fn lemma_blend_effect(
    driver: DriverState,
    color_blend: Option<BlendState>,
    alpha_blend: Option<BlendState>,
)
    ensures
        ({
            let after = driver.after_all(blend_requests(color_blend, alpha_blend));
            after == DriverState {
                caps: after.caps,
                blend_func: after.blend_func,
                blend_equation: after.blend_equation,
                ..driver
            } && forall|cap: GLenum|
                cap != GL_BLEND ==> after.caps.contains(cap) == driver.caps.contains(cap)
        }),
        color_blend is None ==> ({
            let after = driver.after_all(blend_requests(color_blend, alpha_blend));
            &&& after.blend_func == driver.blend_func
            &&& after.blend_equation == driver.blend_equation
        }),
{
    let enable = GlCall::Enable { cap: GL_BLEND };
    lemma_after_one(driver, enable);
    lemma_after_one(driver, GlCall::Disable { cap: GL_BLEND });
    if let Some(color) = color_blend {
        law_calls_compose(driver, seq![enable], blend_state_calls(color, alpha_blend));
        lemma_blend_state(driver.after(enable), color, alpha_blend);
    }
}

pub proof fn lemma_stencil_effect(driver: DriverState, stencil_test: Option<StencilState>)
    ensures
        ({
            let after = driver.after_all(stencil_requests(stencil_test));
            after == DriverState {
                caps: after.caps,
                stencil_front: after.stencil_front,
                stencil_back: after.stencil_back,
                ..driver
            } && forall|cap: GLenum|
                cap != GL_STENCIL_TEST ==> after.caps.contains(cap) == driver.caps.contains(cap)
        }),
        stencil_test is None ==> ({
            let after = driver.after_all(stencil_requests(stencil_test));
            &&& after.stencil_front == driver.stencil_front
            &&& after.stencil_back == driver.stencil_back
        }),
{
    let enable = GlCall::Enable { cap: GL_STENCIL_TEST };
    lemma_after_one(driver, enable);
    lemma_after_one(driver, GlCall::Disable { cap: GL_STENCIL_TEST });
    if let Some(stencil) = stencil_test {
        let front = stencil_face_calls(GL_FRONT, stencil.front);
        let back = stencil_face_calls(GL_BACK, stencil.back);
        let on = driver.after(enable);
        law_calls_compose(driver, seq![enable], front);
        law_calls_compose(driver, seq![enable] + front, back);
        lemma_stencil_face(on, GL_FRONT, stencil.front);
        lemma_stencil_face(
            on.with_stencil(GL_FRONT, stencil_applied(stencil.front)),
            GL_BACK,
            stencil.back,
        );
    }
}

/// Applying a pipeline a second time sends only the settings that are not remembered.
pub proof fn law_reapply_pipeline(
    cache: GlCacheView,
    pipeline: Pipeline,
    program: GLuint,
    params: PipelineParams,
)
    ensures
        pipeline_calls(pipeline_cache(cache, pipeline, params), program, params)
            == pipeline_base_calls(program, params),
{
    let base = pipeline_base_calls(program, params);
    let none = Seq::<GlCall>::empty();
    assert(base + none + none + none + none =~= base);
}

} // verus!
