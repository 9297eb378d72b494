//! Drawing: after bindings have been applied, the driver reads what they say.
use vstd::prelude::*;

use crate::bindings::{
    attribute_calls, attributes_cache, attributes_calls, bindings_cache, bindings_calls,
    bound_textures, enable_attribute_calls, image_calls, images_cache, images_calls, images_fit,
    uniform_array_call, uniform_word, uniforms_calls, wanted_attribute,
};
use crate::buffer::Buffer;
use crate::cache::{
    bind_buffer_calls, bind_texture_calls, texture_unit, CachedAttribute, GlCacheView,
    VertexAttributeInternal,
};
use crate::call::GlCall;
use crate::driver::{attribute_set, coherent, unit_holds, DriverState};
use crate::gl::{GLint, GLuint, GL_ARRAY_BUFFER, GL_ELEMENT_ARRAY_BUFFER};
use crate::laws::cache::{
    law_bind_buffer, law_bind_texture, law_calls_compose, lemma_after_one, lemma_after_push,
    lemma_after_three,
};
use crate::shader::{ShaderImage, ShaderUniform};
use crate::types::{
    Bindings, Texture, UniformType, MAX_SHADERSTAGE_IMAGES, MAX_VERTEX_ATTRIBUTES,
};

verus! {

proof fn lemma_images(
    cache: GlCacheView,
    driver: DriverState,
    images: Seq<ShaderImage>,
    textures: Seq<Texture>,
    count: nat,
)
    requires
        coherent(cache, driver),
        images_fit(images, textures),
        count <= images.len(),
    ensures
        coherent(
            GlCacheView {
                textures: bound_textures(cache.textures, images, textures, count as int),
                ..cache
            },
            driver.after_all(images_calls(cache, images, textures, count)),
        ),
    decreases count,
{
    let next = GlCacheView {
        textures: bound_textures(cache.textures, images, textures, count as int),
        ..cache
    };
    if count == 0 {
        assert(next =~= cache);
    } else {
        let n = count - 1;
        let before = images_calls(cache, images, textures, n as nat);
        let half = GlCacheView {
            textures: bound_textures(cache.textures, images, textures, n),
            ..cache
        };
        let between = driver.after_all(before);
        lemma_images(cache, driver, images, textures, n as nat);
        law_calls_compose(driver, before, image_calls(cache, images, textures, n));
        match images[n].gl_loc {
            Some(location) => {
                let bind = bind_texture_calls(cache, n, textures[n].texture);
                let send = GlCall::Uniform1i { location, value: n as i32 };
                assert(half.textures[n] == cache.textures[n]);
                law_bind_texture(half, between, n, textures[n].texture);
                lemma_after_push(between, bind, send);
                assert(next =~= half.with_texture(n, textures[n].texture));
            },
            None => {
                assert(next =~= half);
            },
        }
    }
}

/// The driver after one attribute slot has been set up.
proof fn lemma_attribute(
    cache: GlCacheView,
    driver: DriverState,
    index: int,
    wanted: Option<CachedAttribute>,
)
    requires
        coherent(cache, driver),
        0 <= index < MAX_VERTEX_ATTRIBUTES,
    ensures
        ({
            let after = driver.after_all(
                attribute_calls(cache, index, cache.attributes[index], wanted),
            );
            let vertex_buffer = if wanted is Some && cache.attributes[index] != wanted {
                wanted->0.gl_vbuf
            } else {
                cache.vertex_buffer
            };
            coherent(
                GlCacheView {
                    vertex_buffer,
                    attributes: cache.attributes.update(index, wanted),
                    ..cache
                },
                after,
            )
        }),
{
    let cached = cache.attributes[index];
    let calls = attribute_calls(cache, index, cached, wanted);
    let after = driver.after_all(calls);
    let slot = index as GLuint;
    assert(attribute_set(driver.attributes[slot], cached));
    if cached == wanted {
        assert(cache.attributes.update(index, wanted) =~= cache.attributes);
    } else {
        match wanted {
            Some(want) => {
                let bind = bind_buffer_calls(cache, GL_ARRAY_BUFFER, want.gl_vbuf);
                let set = enable_attribute_calls(index, want.attribute);
                law_bind_buffer(cache, driver, GL_ARRAY_BUFFER, want.gl_vbuf);
                let bound = driver.after_all(bind);
                law_calls_compose(driver, bind, set);
                lemma_after_three(bound, set[0], set[1], set[2]);
                assert(set =~= seq![set[0], set[1], set[2]]);
                assert(after.attributes.dom() =~= bound.attributes.dom().insert(slot));
                assert(attribute_set(after.attributes[slot], wanted));
                let next = GlCacheView {
                    vertex_buffer: want.gl_vbuf,
                    attributes: cache.attributes.update(index, wanted),
                    ..cache
                };
                lemma_other_slots(cache, driver, next, after, index, wanted);
            },
            None => {
                lemma_after_one(driver, GlCall::DisableVertexAttribArray { index: slot });
                let next = GlCacheView {
                    attributes: cache.attributes.update(index, wanted),
                    ..cache
                };
                lemma_other_slots(cache, driver, next, after, index, wanted);
            },
        }
    }
}

proof fn lemma_other_slots(
    cache: GlCacheView,
    driver: DriverState,
    next: GlCacheView,
    after: DriverState,
    index: int,
    wanted: Option<CachedAttribute>,
)
    requires
        coherent(cache, driver),
        0 <= index < MAX_VERTEX_ATTRIBUTES,
        next == (GlCacheView {
            vertex_buffer: next.vertex_buffer,
            attributes: cache.attributes.update(index, wanted),
            ..cache
        }),
        after == (DriverState {
            array_buffer: next.vertex_buffer,
            attributes: after.attributes,
            ..driver
        }),
        attribute_set(after.attributes[index as GLuint], wanted),
        forall|slot: GLuint| slot != index ==> after.attributes[slot] == driver.attributes[slot],
    ensures
        coherent(next, after),
{
    assert forall|slot: int| 0 <= slot < MAX_SHADERSTAGE_IMAGES implies unit_holds(
        after,
        slot,
        #[trigger] next.textures[slot],
    ) by {
        assert(unit_holds(driver, slot, cache.textures[slot]));
    }
    assert forall|i: int| 0 <= i < MAX_VERTEX_ATTRIBUTES implies attribute_set(
        after.attributes[i as GLuint],
        #[trigger] next.attributes[i],
    ) by {
        assert(attribute_set(driver.attributes[i as GLuint], cache.attributes[i]));
    }
}

proof fn lemma_attributes(
    cache: GlCacheView,
    driver: DriverState,
    layout: Seq<Option<VertexAttributeInternal>>,
    buffers: Seq<Buffer>,
    count: nat,
)
    requires
        coherent(cache, driver),
        count <= MAX_VERTEX_ATTRIBUTES,
    ensures
        coherent(
            attributes_cache(cache, layout, buffers, count),
            driver.after_all(attributes_calls(cache, layout, buffers, count)),
        ),
    decreases count,
{
    let next = attributes_cache(cache, layout, buffers, count);
    if count == 0 {
        assert(next =~= cache);
    } else {
        let index = count - 1;
        let half = attributes_cache(cache, layout, buffers, index as nat);
        let before = attributes_calls(cache, layout, buffers, index as nat);
        let wanted = wanted_attribute(layout, buffers, index);
        lemma_attributes(cache, driver, layout, buffers, index as nat);
        assert(half.attributes[index] == cache.attributes[index]);
        law_calls_compose(
            driver,
            before,
            attribute_calls(half, index, cache.attributes[index], wanted),
        );
        lemma_attribute(half, driver.after_all(before), index, wanted);
        assert(next.attributes =~= half.attributes.update(index, wanted));
    }
}

/// After bindings have been applied, the driver reads what they say: each sampled image sits in
/// the unit of its number, the index buffer is bound, each attribute slot of the pipeline reads
/// its vertex buffer as the layout says, and no other slot is on. What is remembered stays true.
pub proof fn law_apply_bindings(
    cache: GlCacheView,
    driver: DriverState,
    images: Seq<ShaderImage>,
    layout: Seq<Option<VertexAttributeInternal>>,
    bindings: Bindings,
)
    requires
        coherent(cache, driver),
        images_fit(images, bindings.images@),
    ensures
        ({
            let after = driver.after_all(bindings_calls(cache, images, layout, bindings));
            &&& coherent(bindings_cache(cache, images, layout, bindings), after)
            &&& after.element_buffer == bindings.index_buffer.gl_buf
            &&& forall|n: int|
                0 <= n < images.len() && images[n].gl_loc is Some ==> unit_holds(
                    after,
                    n,
                    (#[trigger] bindings.images@[n]).texture,
                )
            &&& forall|index: GLuint|
                index < MAX_VERTEX_ATTRIBUTES ==> attribute_set(
                    #[trigger] after.attributes[index],
                    wanted_attribute(layout, bindings.vertex_buffers@, index as int),
                )
        }),
{
    let textures = bindings.images@;
    let buffers = bindings.vertex_buffers@;
    let index_buffer = bindings.index_buffer.gl_buf;
    let sampled = images_calls(cache, images, textures, images.len());
    let indexed = bind_buffer_calls(cache, GL_ELEMENT_ARRAY_BUFFER, index_buffer);
    let half = images_cache(cache, images, textures, bindings.index_buffer);
    let fed = attributes_calls(half, layout, buffers, MAX_VERTEX_ATTRIBUTES as nat);
    law_calls_compose(driver, sampled, indexed);
    law_calls_compose(driver, sampled + indexed, fed);
    lemma_images(cache, driver, images, textures, images.len());
    let first = GlCacheView {
        textures: bound_textures(cache.textures, images, textures, images.len() as int),
        ..cache
    };
    assert(bind_buffer_calls(first, GL_ELEMENT_ARRAY_BUFFER, index_buffer) == indexed);
    law_bind_buffer(first, driver.after_all(sampled), GL_ELEMENT_ARRAY_BUFFER, index_buffer);
    assert(first.with_buffer(GL_ELEMENT_ARRAY_BUFFER, index_buffer) == half);
    lemma_attributes(
        half,
        driver.after_all(sampled + indexed),
        layout,
        buffers,
        MAX_VERTEX_ATTRIBUTES as nat,
    );
    let after = driver.after_all(bindings_calls(cache, images, layout, bindings));
    let next = bindings_cache(cache, images, layout, bindings);
    assert(coherent(next, after));
    assert forall|n: int| 0 <= n < images.len() && images[n].gl_loc is Some implies unit_holds(
        after,
        n,
        (#[trigger] textures[n]).texture,
    ) by {
        assert(next.textures[n] == textures[n].texture);
        assert(unit_holds(after, n, next.textures[n]));
    }
    assert forall|index: GLuint| index < MAX_VERTEX_ATTRIBUTES implies attribute_set(
        #[trigger] after.attributes[index],
        wanted_attribute(layout, buffers, index as int),
    ) by {
        assert(next.attributes[index as int] == wanted_attribute(layout, buffers, index as int));
        assert(attribute_set(after.attributes[index as int as GLuint], next.attributes[
            index as int
        ]));
    }
}

proof fn lemma_attributes_settled(
    cache: GlCacheView,
    layout: Seq<Option<VertexAttributeInternal>>,
    buffers: Seq<Buffer>,
    count: nat,
)
    requires
        forall|i: int|
            0 <= i < count ==> #[trigger] cache.attributes[i] == wanted_attribute(
                layout,
                buffers,
                i,
            ),
    ensures
        attributes_calls(cache, layout, buffers, count) == Seq::<GlCall>::empty(),
    decreases count,
{
    if count > 0 {
        lemma_attributes_settled(cache, layout, buffers, (count - 1) as nat);
        assert(cache.attributes[count - 1] == wanted_attribute(layout, buffers, count - 1));
        assert(Seq::<GlCall>::empty() + Seq::<GlCall>::empty() =~= Seq::<GlCall>::empty());
    }
}

/// The calls that point the samplers at their units, and bind nothing.
pub open spec fn sampler_calls(images: Seq<ShaderImage>, count: nat) -> Seq<GlCall>
    decreases count,
{
    if count == 0 {
        seq![]
    } else {
        let before = sampler_calls(images, (count - 1) as nat);
        match images[count - 1].gl_loc {
            Some(location) => before.push(
                GlCall::ActiveTexture { unit: texture_unit(count - 1) },
            ).push(GlCall::Uniform1i { location, value: (count - 1) as i32 }),
            None => before,
        }
    }
}

proof fn lemma_images_settled(
    cache: GlCacheView,
    images: Seq<ShaderImage>,
    textures: Seq<Texture>,
    count: nat,
)
    requires
        forall|n: int|
            0 <= n < count && (#[trigger] images[n]).gl_loc is Some ==> cache.textures[n]
                == textures[n].texture,
    ensures
        images_calls(cache, images, textures, count) == sampler_calls(images, count),
    decreases count,
{
    if count > 0 {
        let n = count - 1;
        lemma_images_settled(cache, images, textures, n as nat);
        let before = sampler_calls(images, n as nat);
        match images[n].gl_loc {
            Some(location) => {
                let activate = GlCall::ActiveTexture { unit: texture_unit(n) };
                let send = GlCall::Uniform1i { location, value: n as i32 };
                assert(before + seq![activate].push(send) =~= before.push(activate).push(send));
            },
            None => {
                assert(before + Seq::<GlCall>::empty() =~= before);
            },
        }
    }
}

/// Applying the same bindings a second time binds nothing: only the samplers are pointed at their
/// units again.
pub proof fn law_reapply_bindings(
    cache: GlCacheView,
    images: Seq<ShaderImage>,
    layout: Seq<Option<VertexAttributeInternal>>,
    bindings: Bindings,
)
    requires
        cache.wf(),
        images_fit(images, bindings.images@),
    ensures
        bindings_calls(
            bindings_cache(cache, images, layout, bindings),
            images,
            layout,
            bindings,
        ) == sampler_calls(images, images.len()),
{
    let textures = bindings.images@;
    let buffers = bindings.vertex_buffers@;
    let next = bindings_cache(cache, images, layout, bindings);
    lemma_images_settled(next, images, textures, images.len());
    let again = images_cache(next, images, textures, bindings.index_buffer);
    assert(again.textures =~= next.textures);
    assert(again =~= next);
    lemma_attributes_settled(next, layout, buffers, MAX_VERTEX_ATTRIBUTES as nat);
    let none = Seq::<GlCall>::empty();
    let samplers = sampler_calls(images, images.len());
    assert(samplers + none + none =~= samplers);
}

proof fn lemma_uniform_leaves_state(driver: DriverState, call: GlCall)
    requires
        exists|uniform_type: UniformType, location: GLint, count: i32, word: usize|
            call == #[trigger] uniform_array_call(uniform_type, location, count, word),
    ensures
        driver.after(call) == driver,
{
}

/// Sending uniforms leaves the driver's bindings and settings as they are.
pub proof fn law_uniforms_leave_state(
    driver: DriverState,
    uniforms: Seq<ShaderUniform>,
    count: nat,
)
    ensures
        driver.after_all(uniforms_calls(uniforms, count)) == driver,
    decreases count,
{
    if count > 0 {
        law_uniforms_leave_state(driver, uniforms, (count - 1) as nat);
        let before = uniforms_calls(uniforms, (count - 1) as nat);
        if let Some(location) = uniforms[count - 1].gl_loc {
            let call = uniform_array_call(
                uniforms[count - 1].uniform_type,
                location,
                uniforms[count - 1].array_count,
                uniform_word(uniforms, (count - 1) as nat) as usize,
            );
            lemma_after_push(driver, before, call);
            lemma_uniform_leaves_state(driver, call);
        }
    }
}

} // verus!
