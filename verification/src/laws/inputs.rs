//! What a draw reads, said of the bindings and of the pipeline that they are applied to.
use vstd::prelude::*;

use crate::bindings::{
    attribute_calls, attributes_cache, attributes_calls, bindings_calls, enable_attribute_calls,
    image_calls, images_cache, images_calls, images_fit, wanted_attribute,
};
use crate::buffer::Buffer;
use crate::cache::{bind_buffer_calls, bind_texture_calls, GlCacheView, VertexAttributeInternal};
use crate::call::GlCall;
use crate::contents::{
    all_quiet, lemma_machine_compose, lemma_machine_push, lemma_machine_state, lemma_quiet,
    lemma_sampler, Machine, UniformValue,
};
use crate::context::Context;
use crate::driver::{attribute_set, coherent, unit_holds, DriverState};
use crate::gl::{
    GLenum, GLint, GLuint, GL_ARRAY_BUFFER, GL_ELEMENT_ARRAY_BUFFER, GL_TEXTURE_2D,
};
use crate::laws::cache::{
    law_calls_compose, lemma_after_one, lemma_after_push, lemma_after_three,
};
use crate::laws::drawing::law_apply_bindings;
use crate::shader::ShaderImage;
use crate::types::{Bindings, Texture, MAX_SHADERSTAGE_IMAGES, MAX_VERTEX_ATTRIBUTES};

verus! {

/// Image `n` is one that the program samples.
pub open spec fn sampled(images: Seq<ShaderImage>, n: int) -> bool {
    images[n].gl_loc is Some
}

/// The images below `count` are in the units of their numbers and their samplers look there; all
/// other units and uniforms are as they were.
spec fn images_in_place(
    machine: Machine,
    after: Machine,
    images: Seq<ShaderImage>,
    textures: Seq<Texture>,
    count: int,
) -> bool {
    &&& after == (Machine { state: after.state, uniforms: after.uniforms, ..machine })
    &&& after.state == (DriverState {
        active_unit: after.state.active_unit,
        units: after.state.units,
        ..machine.state
    })
    &&& forall|n: int|
        0 <= n < count && #[trigger] sampled(images, n) ==> after.state.units[(0x84C0
            + n) as GLenum] == textures[n].texture
    &&& forall|unit: GLenum|
        (forall|n: int| 0 <= n < count && #[trigger] sampled(images, n) ==> unit != 0x84C0 + n)
            ==> #[trigger] after.state.units[unit] == machine.state.units[unit]
    &&& forall|n: int|
        0 <= n < count && #[trigger] sampled(images, n) && (forall|m: int|
            n < m < count && #[trigger] sampled(images, m) ==> images[m].gl_loc
                != images[n].gl_loc) ==> after.uniforms[(
            machine.state.program,
            images[n].gl_loc->0,
        )] == (UniformValue::Unit { value: n as i32 })
    &&& forall|program: GLuint, location: GLint|
        (program != machine.state.program || forall|n: int|
            0 <= n < count && #[trigger] sampled(images, n) ==> images[n].gl_loc
                != Some(location)) ==> #[trigger] after.uniforms[(program, location)]
            == machine.uniforms[(program, location)]
}

/// One sampled image is bound and its sampler set; all else stays.
proof fn lemma_image_step(
    at: Machine,
    cache: GlCacheView,
    images: Seq<ShaderImage>,
    textures: Seq<Texture>,
    n: int,
)
    requires
        0 <= n < MAX_SHADERSTAGE_IMAGES,
        images[n].gl_loc is Some,
        at.state.units[(0x84C0 + n) as GLenum] == cache.textures[n],
    ensures
        ({
            let after = at.after_all(image_calls(cache, images, textures, n));
            let unit = (0x84C0 + n) as GLenum;
            &&& after == (Machine {
                state: DriverState { active_unit: unit, units: after.state.units, ..at.state },
                uniforms: at.uniforms.insert(
                    (at.state.program, images[n].gl_loc->0),
                    UniformValue::Unit { value: n as i32 },
                ),
                ..at
            })
            &&& after.state.units[unit] == textures[n].texture
            &&& forall|other: GLenum|
                other != unit ==> #[trigger] after.state.units[other] == at.state.units[other]
        }),
{
    let unit = (0x84C0 + n) as GLenum;
    let texture = textures[n].texture;
    let location = images[n].gl_loc->0;
    let bind = bind_texture_calls(cache, n, texture);
    lemma_machine_push(at, bind, GlCall::Uniform1i { location, value: n as i32 });
    lemma_quiet(at, bind);
    lemma_sampler(at.after_all(bind), location, n as i32);
    let activate = GlCall::ActiveTexture { unit };
    lemma_after_one(at.state, activate);
    if cache.textures[n] != texture {
        lemma_after_push(
            at.state,
            seq![activate],
            GlCall::BindTexture { target: GL_TEXTURE_2D, texture },
        );
    }
}

proof fn lemma_images_in_place(
    machine: Machine,
    cache: GlCacheView,
    images: Seq<ShaderImage>,
    textures: Seq<Texture>,
    count: nat,
)
    requires
        coherent(cache, machine.state),
        images_fit(images, textures),
        count <= images.len(),
    ensures
        images_in_place(
            machine,
            machine.after_all(images_calls(cache, images, textures, count)),
            images,
            textures,
            count as int,
        ),
    decreases count,
{
    if count > 0 {
        let n = count - 1;
        let before = images_calls(cache, images, textures, (count - 1) as nat);
        lemma_images_in_place(machine, cache, images, textures, (count - 1) as nat);
        let at = machine.after_all(before);
        let step = image_calls(cache, images, textures, n);
        lemma_machine_compose(machine, before, step);
        match images[n].gl_loc {
            Some(location) => {
                assert(sampled(images, n));
                let unit = (0x84C0 + n) as GLenum;
                assert(unit_holds(machine.state, n, cache.textures[n]));
                assert(at.state.units[unit] == machine.state.units[unit]);
                lemma_image_step(at, cache, images, textures, n);
                let after = at.after_all(step);
                assert forall|other: GLenum|
                    (forall|m: int|
                        0 <= m < count && #[trigger] sampled(images, m) ==> other != 0x84C0
                            + m) implies #[trigger] after.state.units[other]
                    == machine.state.units[other] by {
                    assert(other != 0x84C0 + n);
                    assert(at.state.units[other] == machine.state.units[other]);
                }
                assert forall|m: int|
                    0 <= m < count && #[trigger] sampled(images, m) implies after.state.units[(
                0x84C0 + m) as GLenum] == textures[m].texture by {
                    if m < n {
                        assert(at.state.units[(0x84C0 + m) as GLenum] == textures[m].texture);
                    }
                }
                assert forall|m: int|
                    0 <= m < count && #[trigger] sampled(images, m) && (forall|later: int|
                        m < later < count && #[trigger] sampled(images, later)
                            ==> images[later].gl_loc != images[m].gl_loc) implies after.uniforms[(
                    machine.state.program,
                    images[m].gl_loc->0,
                )] == (UniformValue::Unit { value: m as i32 }) by {
                    if m < n {
                        assert(images[n].gl_loc != images[m].gl_loc);
                    }
                }
                assert forall|program: GLuint, other: GLint|
                    (program != machine.state.program || forall|m: int|
                        0 <= m < count && #[trigger] sampled(images, m) ==> images[m].gl_loc
                            != Some(other)) implies #[trigger] after.uniforms[(program, other)]
                    == machine.uniforms[(program, other)] by {
                    if program == machine.state.program {
                        assert(images[n].gl_loc != Some(other));
                    }
                    assert(at.uniforms[(program, other)] == machine.uniforms[(program, other)]);
                }
            },
            None => {
                assert(step =~= seq![]);
                assert(!sampled(images, n));
            },
        }
    } else {
        assert(images_calls(cache, images, textures, count) =~= seq![]);
    }
}

/// Setting up the slots below `count` touches no contents, no slot from `count` on, and nothing
/// of the state but attributes and the array buffer.
proof fn lemma_slots_frame(
    driver: DriverState,
    cache: GlCacheView,
    layout: Seq<Option<VertexAttributeInternal>>,
    buffers: Seq<Buffer>,
    count: nat,
)
    requires
        count <= MAX_VERTEX_ATTRIBUTES,
    ensures
        all_quiet(attributes_calls(cache, layout, buffers, count)),
        ({
            let after = driver.after_all(attributes_calls(cache, layout, buffers, count));
            &&& after == (DriverState {
                array_buffer: after.array_buffer,
                attributes: after.attributes,
                ..driver
            })
            &&& forall|index: GLuint|
                index >= count ==> #[trigger] after.attributes[index]
                    == driver.attributes[index]
        }),
    decreases count,
{
    if count > 0 {
        let last = (count - 1) as nat;
        let index = count - 1;
        lemma_slots_frame(driver, cache, layout, buffers, last);
        let before = attributes_calls(cache, layout, buffers, last);
        let at = driver.after_all(before);
        let seen = attributes_cache(cache, layout, buffers, last);
        let wanted = wanted_attribute(layout, buffers, index);
        let step = attribute_calls(seen, index, cache.attributes[index], wanted);
        law_calls_compose(driver, before, step);
        if cache.attributes[index] != wanted {
            match wanted {
                Some(wanted) => {
                    let bind = bind_buffer_calls(seen, GL_ARRAY_BUFFER, wanted.gl_vbuf);
                    let enable = enable_attribute_calls(index, wanted.attribute);
                    law_calls_compose(at, bind, enable);
                    lemma_after_one(
                        at,
                        GlCall::BindBuffer { target: GL_ARRAY_BUFFER, buffer: wanted.gl_vbuf },
                    );
                    lemma_after_three(at.after_all(bind), enable[0], enable[1], enable[2]);
                    assert(enable =~= seq![enable[0], enable[1], enable[2]]);
                },
                None => {
                    lemma_after_one(
                        at,
                        GlCall::DisableVertexAttribArray { index: index as GLuint },
                    );
                },
            }
        }
    }
}

/// After bindings have been applied the driver reads exactly what they say. Texture unit `n`
/// holds image `n` wherever the program samples it, and its sampler looks at unit `n`. The index
/// buffer is bound. Each attribute slot that the layout fills is on, and reads the named vertex
/// buffer with the size, type, stride, offset and divisor of the layout; each other slot is off.
/// All other units, uniforms and slots, and everything else of the driver, are as they were.
pub proof fn law_bindings_read_as_given(
    machine: Machine,
    cache: GlCacheView,
    images: Seq<ShaderImage>,
    layout: Seq<Option<VertexAttributeInternal>>,
    bindings: Bindings,
)
    requires
        coherent(cache, machine.state),
        images_fit(images, bindings.images@),
    ensures
        ({
            let after = machine.after_all(bindings_calls(cache, images, layout, bindings));
            &&& after == (Machine { state: after.state, uniforms: after.uniforms, ..machine })
            &&& after.state == (DriverState {
                array_buffer: after.state.array_buffer,
                element_buffer: bindings.index_buffer.gl_buf,
                active_unit: after.state.active_unit,
                units: after.state.units,
                attributes: after.state.attributes,
                ..machine.state
            })
            &&& forall|n: int|
                0 <= n < images.len() && #[trigger] sampled(images, n) ==> after.state.units[(
                0x84C0 + n) as GLenum] == bindings.images@[n].texture
            &&& forall|unit: GLenum|
                (forall|n: int|
                    0 <= n < images.len() && #[trigger] sampled(images, n) ==> unit != 0x84C0
                        + n) ==> #[trigger] after.state.units[unit] == machine.state.units[unit]
            &&& forall|n: int|
                0 <= n < images.len() && #[trigger] sampled(images, n) && (forall|m: int|
                    n < m < images.len() && #[trigger] sampled(images, m) ==> images[m].gl_loc
                        != images[n].gl_loc) ==> after.uniforms[(
                    machine.state.program,
                    images[n].gl_loc->0,
                )] == (UniformValue::Unit { value: n as i32 })
            &&& forall|program: GLuint, location: GLint|
                (program != machine.state.program || forall|n: int|
                    0 <= n < images.len() && #[trigger] sampled(images, n) ==> images[n].gl_loc
                        != Some(location)) ==> #[trigger] after.uniforms[(program, location)]
                    == machine.uniforms[(program, location)]
            &&& forall|index: GLuint|
                index < MAX_VERTEX_ATTRIBUTES && index < layout.len() && layout[index as int]
                    is Some ==> {
                    let slot = #[trigger] after.state.attributes[index];
                    let attribute = layout[index as int]->0;
                    &&& slot.enabled
                    &&& slot.components == attribute.size
                    &&& slot.type_ == attribute.type_
                    &&& slot.normalized == 0
                    &&& slot.stride == attribute.stride
                    &&& slot.pointer == attribute.offset
                    &&& slot.divisor == attribute.divisor as u32
                    &&& slot.buffer == bindings.vertex_buffers@[
                        attribute.buffer_index as int
                    ].gl_buf
                }
            &&& forall|index: GLuint|
                index < MAX_VERTEX_ATTRIBUTES && !(index < layout.len() && layout[index as int]
                    is Some) ==> !(#[trigger] after.state.attributes[index]).enabled
            &&& forall|index: GLuint|
                index >= MAX_VERTEX_ATTRIBUTES ==> #[trigger] after.state.attributes[index]
                    == machine.state.attributes[index]
        }),
{
    let textures = bindings.images@;
    let buffers = bindings.vertex_buffers@;
    let index_buffer = bindings.index_buffer.gl_buf;
    let bind = images_calls(cache, images, textures, images.len());
    let indexed = bind_buffer_calls(cache, GL_ELEMENT_ARRAY_BUFFER, index_buffer);
    let half = images_cache(cache, images, textures, bindings.index_buffer);
    let all = MAX_VERTEX_ATTRIBUTES as nat;
    let fed = attributes_calls(half, layout, buffers, all);
    lemma_machine_compose(machine, bind, indexed);
    lemma_machine_compose(machine, bind + indexed, fed);
    lemma_images_in_place(machine, cache, images, textures, images.len());
    let first = machine.after_all(bind);
    lemma_quiet(first, indexed);
    lemma_after_one(
        first.state,
        GlCall::BindBuffer { target: GL_ELEMENT_ARRAY_BUFFER, buffer: index_buffer },
    );
    let second = first.after_all(indexed);
    lemma_slots_frame(second.state, half, layout, buffers, all);
    lemma_quiet(second, fed);
    let after = machine.after_all(bindings_calls(cache, images, layout, bindings));
    assert(after == second.after_all(fed));
    law_apply_bindings(cache, machine.state, images, layout, bindings);
    lemma_machine_state(machine, bindings_calls(cache, images, layout, bindings));
    assert forall|index: GLuint| index < MAX_VERTEX_ATTRIBUTES implies attribute_set(
        #[trigger] after.state.attributes[index],
        wanted_attribute(layout, buffers, index as int),
    ) by {}
}

/// Bindings fit exactly where a pipeline is current, there is a texture for every image of its
/// shader, every sampled image has one of the twelve units, and every slot that the layout fills
/// has its vertex buffer.
pub proof fn law_which_bindings_fit(ctx: Context, bindings: Bindings)
    ensures
        ctx.bindings_fit(bindings) <==> {
            &&& ctx.cache.cur_pipeline matches Some(current)
            &&& {
                let pipeline = ctx.pipelines@[current.0 as int];
                let images = ctx.shaders@[pipeline.shader.0 as int].images@;
                let layout = pipeline.layout@;
                &&& images.len() <= bindings.images@.len()
                &&& forall|n: int|
                    0 <= n < images.len() && #[trigger] sampled(images, n) ==> n
                        < MAX_SHADERSTAGE_IMAGES
                &&& forall|i: int|
                    0 <= i < layout.len() && i < MAX_VERTEX_ATTRIBUTES && (
                    #[trigger] layout[i]) is Some ==> layout[i]->0.buffer_index
                        < bindings.vertex_buffers@.len()
            }
        },
{
    if let Some(current) = ctx.cache.cur_pipeline {
        let pipeline = ctx.pipelines@[current.0 as int];
        let images = ctx.shaders@[pipeline.shader.0 as int].images@;
        assert(forall|n: int| #[trigger] sampled(images, n) == images[n].gl_loc is Some);
        assert forall|n: int| 0 <= n < images.len() && (#[trigger] images[n]).gl_loc is Some && (
        forall|m: int|
            0 <= m < images.len() && #[trigger] sampled(images, m) ==> m
                < MAX_SHADERSTAGE_IMAGES) implies n < MAX_SHADERSTAGE_IMAGES by {
            assert(sampled(images, n));
        }
    }
}

} // verus!
