//! Bindings: leaving a call out changes nothing, and what is remembered stays true.
use vstd::prelude::*;

use crate::cache::{
    bind_buffer_calls, bind_texture_calls, clear_buffer_calls, clear_texture_calls, texture_unit,
    GlCacheView,
};
use crate::call::GlCall;
use crate::driver::{attribute_set, coherent, unit_holds, DriverState};
use crate::gl::{GLenum, GLuint, GL_ARRAY_BUFFER, GL_ELEMENT_ARRAY_BUFFER, GL_TEXTURE_2D};
use crate::types::{MAX_SHADERSTAGE_IMAGES, MAX_VERTEX_ATTRIBUTES};

verus! {

/// Performing two lists of calls one after the other is performing them joined.
pub proof fn law_calls_compose(driver: DriverState, first: Seq<GlCall>, second: Seq<GlCall>)
    ensures
        driver.after_all(first + second) == driver.after_all(first).after_all(second),
    decreases second.len(),
{
    if second.len() == 0 {
        assert(first + second =~= first);
    } else {
        law_calls_compose(driver, first, second.drop_last());
        assert((first + second).drop_last() =~= first + second.drop_last());
    }
}

pub proof fn lemma_after_push(driver: DriverState, calls: Seq<GlCall>, call: GlCall)
    ensures
        driver.after_all(calls.push(call)) == driver.after_all(calls).after(call),
{
    assert(calls.push(call).drop_last() =~= calls);
}

pub proof fn lemma_after_one(driver: DriverState, a: GlCall)
    ensures
        driver.after_all(seq![a]) == driver.after(a),
{
    lemma_after_push(driver, seq![], a);
    assert(seq![a] =~= Seq::<GlCall>::empty().push(a));
}

pub proof fn lemma_after_two(driver: DriverState, a: GlCall, b: GlCall)
    ensures
        driver.after_all(seq![a, b]) == driver.after(a).after(b),
{
    lemma_after_one(driver, a);
    lemma_after_push(driver, seq![a], b);
    assert(seq![a, b] =~= seq![a].push(b));
}

pub proof fn lemma_after_three(driver: DriverState, a: GlCall, b: GlCall, c: GlCall)
    ensures
        driver.after_all(seq![a, b, c]) == driver.after(a).after(b).after(c),
{
    lemma_after_two(driver, a, b);
    lemma_after_push(driver, seq![a, b], c);
    assert(seq![a, b, c] =~= seq![a, b].push(c));
}

/// Both targets that buffers are bound to.
pub open spec fn is_buffer_target(target: GLenum) -> bool {
    target == GL_ARRAY_BUFFER || target == GL_ELEMENT_ARRAY_BUFFER
}

/// A context that has just been made remembers the truth about a driver in its initial state.
pub proof fn law_initial_coherent(array: GLuint)
    ensures
        coherent(
            GlCacheView::initial(),
            DriverState::initial().after(GlCall::BindVertexArray { array }),
        ),
{
}

/// Binding a buffer has the effect of the driver call, whether or not the call is left out, and
/// what is remembered stays true.
pub proof fn law_bind_buffer(
    cache: GlCacheView,
    driver: DriverState,
    target: GLenum,
    buffer: GLuint,
)
    requires
        coherent(cache, driver),
        is_buffer_target(target),
    ensures
        driver.after_all(bind_buffer_calls(cache, target, buffer)) == driver.after(
            GlCall::BindBuffer { target, buffer },
        ),
        coherent(
            cache.with_buffer(target, buffer),
            driver.after_all(bind_buffer_calls(cache, target, buffer)),
        ),
{
    lemma_after_one(driver, GlCall::BindBuffer { target, buffer });
    let after = driver.after(GlCall::BindBuffer { target, buffer });
    if cache.buffer(target) == buffer {
        assert(after == driver);
    }
    assert(coherent(cache.with_buffer(target, buffer), after)) by {
        assert(after.attributes == driver.attributes);
        assert(after.units == driver.units);
        let next = cache.with_buffer(target, buffer);
        assert forall|slot: int| 0 <= slot < MAX_SHADERSTAGE_IMAGES implies unit_holds(
            after,
            slot,
            #[trigger] next.textures[slot],
        ) by {
            assert(unit_holds(driver, slot, cache.textures[slot]));
        }
    }
}

/// Binding a texture has the effect of the two driver calls, whether or not the second is left
/// out, and what is remembered stays true.
pub proof fn law_bind_texture(
    cache: GlCacheView,
    driver: DriverState,
    slot: int,
    texture: GLuint,
)
    requires
        coherent(cache, driver),
        0 <= slot < MAX_SHADERSTAGE_IMAGES,
    ensures
        driver.after_all(bind_texture_calls(cache, slot, texture)) == driver.after(
            GlCall::ActiveTexture { unit: texture_unit(slot) },
        ).after(GlCall::BindTexture { target: GL_TEXTURE_2D, texture }),
        coherent(
            cache.with_texture(slot, texture),
            driver.after_all(bind_texture_calls(cache, slot, texture)),
        ),
{
    let activate = GlCall::ActiveTexture { unit: texture_unit(slot) };
    let bind = GlCall::BindTexture { target: GL_TEXTURE_2D, texture };
    lemma_after_one(driver, activate);
    lemma_after_push(driver, seq![activate], bind);
    let after = driver.after(activate).after(bind);
    assert(unit_holds(driver, slot, cache.textures[slot]));
    if cache.textures[slot] == texture {
        assert(driver.units.insert(texture_unit(slot), texture) =~= driver.units);
        assert(after == driver.after(activate));
    }
    let next = cache.with_texture(slot, texture);
    assert forall|s: int| 0 <= s < MAX_SHADERSTAGE_IMAGES implies unit_holds(
        after,
        s,
        #[trigger] next.textures[s],
    ) by {
        assert(unit_holds(driver, s, cache.textures[s]));
    }
    assert forall|index: int| 0 <= index < MAX_VERTEX_ATTRIBUTES implies attribute_set(
        after.attributes[index as GLuint],
        #[trigger] next.attributes[index],
    ) by {
        assert(attribute_set(driver.attributes[index as GLuint], cache.attributes[index]));
    }
}

/// What was stored is what comes back: after a binding has been stored, a temporary binding can
/// be undone.
pub proof fn law_store_restore(cache: GlCacheView, target: GLenum, buffer: GLuint)
    ensures
        ({
            let bound = cache.with_stored_buffer(target).with_buffer(target, buffer);
            bound.with_buffer(target, bound.stored_buffer(target)) == cache.with_stored_buffer(
                target,
            )
        }),
{
}

/// What was stored is what comes back: after the texture of a slot has been stored, a temporary
/// texture can be undone.
pub proof fn law_store_restore_texture(cache: GlCacheView, slot: int, texture: GLuint)
    requires
        cache.wf(),
        0 <= slot < MAX_SHADERSTAGE_IMAGES,
    ensures
        ({
            let stored = GlCacheView { stored_texture: cache.textures[slot], ..cache };
            let bound = stored.with_texture(slot, texture);
            bound.with_texture(slot, bound.stored_texture) == stored
        }),
{
    let stored = GlCacheView { stored_texture: cache.textures[slot], ..cache };
    let bound = stored.with_texture(slot, texture);
    assert(bound.with_texture(slot, bound.stored_texture).textures =~= stored.textures);
}

/// Unbinding the buffers leaves the driver with none bound, and what is remembered stays true.
pub proof fn law_clear_buffers(cache: GlCacheView, driver: DriverState)
    requires
        coherent(cache, driver),
    ensures
        driver.after_all(clear_buffer_calls(cache)) == (DriverState {
            array_buffer: 0,
            element_buffer: 0,
            ..driver
        }),
        coherent(
            GlCacheView { vertex_buffer: 0, index_buffer: 0, ..cache },
            driver.after_all(clear_buffer_calls(cache)),
        ),
{
    law_calls_compose(
        driver,
        bind_buffer_calls(cache, GL_ARRAY_BUFFER, 0),
        bind_buffer_calls(cache, GL_ELEMENT_ARRAY_BUFFER, 0),
    );
    law_bind_buffer(cache, driver, GL_ARRAY_BUFFER, 0);
    let between = cache.with_buffer(GL_ARRAY_BUFFER, 0);
    let half = driver.after_all(bind_buffer_calls(cache, GL_ARRAY_BUFFER, 0));
    assert(bind_buffer_calls(between, GL_ELEMENT_ARRAY_BUFFER, 0) == bind_buffer_calls(
        cache,
        GL_ELEMENT_ARRAY_BUFFER,
        0,
    ));
    law_bind_buffer(between, half, GL_ELEMENT_ARRAY_BUFFER, 0);
    assert(between.with_buffer(GL_ELEMENT_ARRAY_BUFFER, 0) == GlCacheView {
        vertex_buffer: 0,
        index_buffer: 0,
        ..cache
    });
}

/// The cache with the slots below `count` empty.
spec fn slots_emptied(cache: GlCacheView, count: int) -> GlCacheView {
    GlCacheView {
        textures: Seq::new(
            cache.textures.len(),
            |slot: int| if slot < count { 0 } else { cache.textures[slot] },
        ),
        ..cache
    }
}

proof fn lemma_clear_textures(cache: GlCacheView, driver: DriverState, count: nat)
    requires
        coherent(cache, driver),
        count <= MAX_SHADERSTAGE_IMAGES,
    ensures
        coherent(
            slots_emptied(cache, count as int),
            driver.after_all(clear_texture_calls(cache.textures, count)),
        ),
    decreases count,
{
    if count == 0 {
        assert(slots_emptied(cache, 0) =~= cache);
    } else {
        let slot = count - 1;
        lemma_clear_textures(cache, driver, slot as nat);
        let before = clear_texture_calls(cache.textures, slot as nat);
        let half = slots_emptied(cache, slot);
        let between = driver.after_all(before);
        assert(half.textures[slot] == cache.textures[slot]);
        if cache.textures[slot] == 0 {
            assert(slots_emptied(cache, count as int) =~= half);
        } else {
            law_bind_texture(half, between, slot, 0);
            let activate = GlCall::ActiveTexture { unit: texture_unit(slot) };
            let bind = GlCall::BindTexture { target: GL_TEXTURE_2D, texture: 0 };
            lemma_after_push(driver, before, activate);
            lemma_after_push(driver, before.push(activate), bind);
            assert(slots_emptied(cache, count as int) =~= half.with_texture(slot, 0));
        }
    }
}

/// Unbinding the textures leaves every slot of the driver empty, and what is remembered stays
/// true.
pub proof fn law_clear_textures(cache: GlCacheView, driver: DriverState)
    requires
        coherent(cache, driver),
    ensures
        ({
            let after = driver.after_all(
                clear_texture_calls(cache.textures, MAX_SHADERSTAGE_IMAGES as nat),
            );
            &&& coherent(cache.without_textures(), after)
            &&& forall|slot: int|
                0 <= slot < MAX_SHADERSTAGE_IMAGES ==> #[trigger] after.units[texture_unit(slot)]
                    == 0
        }),
{
    lemma_clear_textures(cache, driver, MAX_SHADERSTAGE_IMAGES as nat);
    let none = cache.without_textures();
    assert(slots_emptied(cache, MAX_SHADERSTAGE_IMAGES as int) =~= none);
    let after = driver.after_all(
        clear_texture_calls(cache.textures, MAX_SHADERSTAGE_IMAGES as nat),
    );
    assert forall|slot: int|
        0 <= slot < MAX_SHADERSTAGE_IMAGES implies #[trigger] after.units[texture_unit(slot)]
        == 0 by {
        assert(unit_holds(after, slot, none.textures[slot]));
    }
}

} // verus!
