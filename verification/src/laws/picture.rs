//! A whole picture: what the driver draws with, once pipeline, bindings and uniforms are applied.
use vstd::prelude::*;

use crate::bindings::{
    attribute_calls, attributes_cache, attributes_calls, bindings_cache, bindings_calls,
    image_calls, images_cache, images_calls, images_fit, uniforms_calls, wanted_attribute,
};
use crate::buffer::Buffer;
use crate::cache::{bind_buffer_calls, GlCacheView, VertexAttributeInternal};
use crate::call::GlCall;
use crate::context::{blend_allowed, pipeline_cache, pipeline_calls};
use crate::driver::{attribute_set, coherent, unit_holds, DriverState};
use crate::gl::{GLenum, GLuint, GL_ELEMENT_ARRAY_BUFFER};
use crate::laws::cache::{law_calls_compose, lemma_after_one};
use crate::laws::drawing::{law_apply_bindings, law_uniforms_leave_state};
use crate::laws::settings::{law_apply_pipeline, pipeline_set};
use crate::shader::{ShaderImage, ShaderUniform};
use crate::types::{Bindings, Pipeline, PipelineParams, Texture, MAX_VERTEX_ATTRIBUTES};

verus! {

/// Two drivers that differ at most in what is bound.
pub open spec fn same_settings(a: DriverState, b: DriverState) -> bool {
    b == DriverState {
        array_buffer: b.array_buffer,
        element_buffer: b.element_buffer,
        active_unit: b.active_unit,
        units: b.units,
        attributes: b.attributes,
        ..a
    }
}

/// A call that binds something or points a sampler at its unit.
spec fn is_binding_call(call: GlCall) -> bool {
    call is BindBuffer || call is ActiveTexture || call is BindTexture || call is Uniform1i
        || call is VertexAttribPointer || call is VertexAttribDivisor
        || call is EnableVertexAttribArray || call is DisableVertexAttribArray
}

spec fn all_binding_calls(calls: Seq<GlCall>) -> bool {
    forall|i: int| 0 <= i < calls.len() ==> is_binding_call(#[trigger] calls[i])
}

proof fn lemma_binding_calls(driver: DriverState, calls: Seq<GlCall>)
    requires
        all_binding_calls(calls),
    ensures
        same_settings(driver, driver.after_all(calls)),
    decreases calls.len(),
{
    if calls.len() > 0 {
        assert(is_binding_call(calls[calls.len() - 1]));
        assert(all_binding_calls(calls.drop_last()));
        lemma_binding_calls(driver, calls.drop_last());
    }
}

proof fn lemma_images_bind(
    cache: GlCacheView,
    images: Seq<ShaderImage>,
    textures: Seq<Texture>,
    count: nat,
)
    ensures
        all_binding_calls(images_calls(cache, images, textures, count)),
    decreases count,
{
    if count > 0 {
        lemma_images_bind(cache, images, textures, (count - 1) as nat);
        assert(all_binding_calls(image_calls(cache, images, textures, count - 1)));
    }
}

proof fn lemma_attributes_bind(
    cache: GlCacheView,
    layout: Seq<Option<VertexAttributeInternal>>,
    buffers: Seq<Buffer>,
    count: nat,
)
    ensures
        all_binding_calls(attributes_calls(cache, layout, buffers, count)),
    decreases count,
{
    if count > 0 {
        let before = (count - 1) as nat;
        lemma_attributes_bind(cache, layout, buffers, before);
        assert(all_binding_calls(
            attribute_calls(
                attributes_cache(cache, layout, buffers, before),
                count - 1,
                cache.attributes[count - 1],
                wanted_attribute(layout, buffers, count - 1),
            ),
        ));
    }
}

/// Applying bindings leaves the program, the target and every setting of the driver alone.
pub proof fn law_bindings_leave_settings(
    cache: GlCacheView,
    driver: DriverState,
    images: Seq<ShaderImage>,
    layout: Seq<Option<VertexAttributeInternal>>,
    bindings: Bindings,
)
    ensures
        same_settings(driver, driver.after_all(bindings_calls(cache, images, layout, bindings))),
{
    let textures = bindings.images@;
    let index_buffer = bindings.index_buffer.gl_buf;
    lemma_images_bind(cache, images, textures, images.len());
    assert(all_binding_calls(bind_buffer_calls(cache, GL_ELEMENT_ARRAY_BUFFER, index_buffer)));
    lemma_attributes_bind(
        images_cache(cache, images, textures, bindings.index_buffer),
        layout,
        bindings.vertex_buffers@,
        MAX_VERTEX_ATTRIBUTES as nat,
    );
    lemma_binding_calls(driver, bindings_calls(cache, images, layout, bindings));
}

/// Drawing leaves the driver's bindings and settings as they are.
pub proof fn law_draw_leaves_state(
    driver: DriverState,
    mode: GLenum,
    count: i32,
    index_type: GLenum,
    indices: i32,
    instances: i32,
)
    ensures
        driver.after_all(
            seq![GlCall::DrawElementsInstanced { mode, count, index_type, indices, instances }],
        ) == driver,
{
    lemma_after_one(
        driver,
        GlCall::DrawElementsInstanced { mode, count, index_type, indices, instances },
    );
}

/// Setting the scissor rectangle sets that alone.
pub proof fn law_scissor_sets_rectangle(
    driver: DriverState,
    x: i32,
    y: i32,
    width: i32,
    height: i32,
)
    ensures
        driver.after_all(seq![GlCall::Scissor { x, y, width, height }]) == (DriverState {
            scissor: (x, y, width, height),
            ..driver
        }),
{
    lemma_after_one(driver, GlCall::Scissor { x, y, width, height });
}

/// Whatever was drawn before, once a pipeline, bindings and uniforms have been applied the driver
/// is set as the pipeline says and reads what the bindings say; what is remembered is true.
pub proof fn law_picture_as_asked(
    cache: GlCacheView,
    driver: DriverState,
    pipeline: Pipeline,
    program: GLuint,
    params: PipelineParams,
    images: Seq<ShaderImage>,
    layout: Seq<Option<VertexAttributeInternal>>,
    bindings: Bindings,
    uniforms: Seq<ShaderUniform>,
)
    requires
        coherent(cache, driver),
        blend_allowed(params.color_blend, params.alpha_blend),
        images_fit(images, bindings.images@),
    ensures
        ({
            let applied = pipeline_cache(cache, pipeline, params);
            let after = driver.after_all(
                pipeline_calls(cache, program, params) + bindings_calls(
                    applied,
                    images,
                    layout,
                    bindings,
                ) + uniforms_calls(uniforms, uniforms.len()),
            );
            &&& pipeline_set(after, program, params)
            &&& after.element_buffer == bindings.index_buffer.gl_buf
            &&& forall|n: int|
                0 <= n < images.len() && images[n].gl_loc is Some ==> unit_holds(
                    after,
                    n,
                    (#[trigger] bindings.images@[n]).texture,
                )
            &&& forall|index: GLuint|
                index < MAX_VERTEX_ATTRIBUTES ==> attribute_set(
                    #[trigger] after.attributes[index],
                    wanted_attribute(layout, bindings.vertex_buffers@, index as int),
                )
            &&& coherent(bindings_cache(applied, images, layout, bindings), after)
        }),
{
    let applied = pipeline_cache(cache, pipeline, params);
    let first = pipeline_calls(cache, program, params);
    let second = bindings_calls(applied, images, layout, bindings);
    let third = uniforms_calls(uniforms, uniforms.len());
    law_calls_compose(driver, first, second);
    law_calls_compose(driver, first + second, third);
    law_apply_pipeline(cache, driver, pipeline, program, params);
    law_apply_bindings(applied, driver.after_all(first), images, layout, bindings);
    law_bindings_leave_settings(applied, driver.after_all(first), images, layout, bindings);
    law_uniforms_leave_state(driver.after_all(first + second), uniforms, uniforms.len());
}

} // verus!
