//! Frames and resources: passes, buffers, and what is left behind.
use vstd::prelude::*;

use crate::buffer::{immutable_calls, stream_calls, update_calls, with_binding_calls};
use crate::cache::{
    bind_buffer_calls, clear_buffer_calls, clear_texture_calls, texture_unit, GlCacheView,
};
use crate::call::GlCall;
use crate::context::{begin_pass_calls, clear_calls, clear_mask, commit_calls, end_pass_calls};
use crate::driver::{attribute_set, coherent, unit_holds, DriverState};
use crate::gl::{
    GLenum, GLuint, GL_COLOR_BUFFER_BIT, GL_DEPTH_BUFFER_BIT, GL_FRAMEBUFFER,
    GL_STENCIL_BUFFER_BIT,
};
use crate::laws::cache::{
    is_buffer_target, law_bind_buffer, law_calls_compose, law_clear_buffers, law_clear_textures,
    lemma_after_one, lemma_after_push, lemma_after_three, lemma_after_two,
};
use crate::render_pass::{attach_calls, delete_pass_calls, RenderPassInternal};
use crate::types::{
    ColorBits, PassAction, Usage, MAX_SHADERSTAGE_IMAGES, MAX_VERTEX_ATTRIBUTES,
};

verus! {

/// What is remembered stays true of a driver in which only framebuffer, viewport, scissor
/// rectangle or program differ.
proof fn lemma_target_changes(cache: GlCacheView, driver: DriverState, after: DriverState)
    requires
        coherent(cache, driver),
        after == (DriverState {
            framebuffer: after.framebuffer,
            viewport: after.viewport,
            scissor: after.scissor,
            program: after.program,
            active_unit: after.active_unit,
            ..driver
        }),
    ensures
        coherent(cache, after),
{
    assert forall|slot: int| 0 <= slot < MAX_SHADERSTAGE_IMAGES implies unit_holds(
        after,
        slot,
        #[trigger] cache.textures[slot],
    ) by {
        assert(unit_holds(driver, slot, cache.textures[slot]));
    }
    assert forall|index: int| 0 <= index < MAX_VERTEX_ATTRIBUTES implies attribute_set(
        after.attributes[index as GLuint],
        #[trigger] cache.attributes[index],
    ) by {
        assert(attribute_set(driver.attributes[index as GLuint], cache.attributes[index]));
    }
}

/// Clearing leaves the driver's bindings and settings as they are.
pub proof fn law_clear_leaves_state(
    driver: DriverState,
    color: Option<ColorBits>,
    depth: Option<u32>,
    stencil: Option<i32>,
)
    ensures
        driver.after_all(clear_calls(color, depth, stencil)) == driver,
{
    lemma_idle_calls(driver, clear_calls(color, depth, stencil));
}

/// A call that the driver's state does not depend on.
spec fn is_idle(call: GlCall) -> bool {
    call is ClearColor || call is ClearDepthf || call is ClearStencil || call is Clear
}

proof fn lemma_idle_calls(driver: DriverState, calls: Seq<GlCall>)
    requires
        forall|i: int| 0 <= i < calls.len() ==> is_idle(#[trigger] calls[i]),
    ensures
        driver.after_all(calls) == driver,
    decreases calls.len(),
{
    if calls.len() > 0 {
        assert(is_idle(calls[calls.len() - 1]));
        lemma_idle_calls(driver, calls.drop_last());
    }
}

/// A clear touches exactly the planes that a value is given for.
pub proof fn law_clear_planes(color: bool, depth: bool, stencil: bool)
    ensures
        0 <= clear_mask(color, depth, stencil) <= u32::MAX,
        ({
            let mask = clear_mask(color, depth, stencil) as u32;
            &&& (mask & GL_COLOR_BUFFER_BIT != 0) == color
            &&& (mask & GL_DEPTH_BUFFER_BIT != 0) == depth
            &&& (mask & GL_STENCIL_BUFFER_BIT != 0) == stencil
        }),
{
    let mask = clear_mask(color, depth, stencil) as u32;
    let c: u32 = if color {
        0x4000
    } else {
        0
    };
    let d: u32 = if depth {
        0x0100
    } else {
        0
    };
    let s: u32 = if stencil {
        0x0400
    } else {
        0
    };
    assert((mask & 0x4000 != 0) == (c != 0) && (mask & 0x0100 != 0) == (d != 0) && (mask & 0x0400
        != 0) == (s != 0)) by (bit_vector)
        requires
            mask == c + d + s,
            c == 0 || c == 0x4000,
            d == 0 || d == 0x0100,
            s == 0 || s == 0x0400,
    ;
}

/// Beginning a pass makes its framebuffer the target, with viewport and scissor rectangle over
/// all of it; what is remembered stays true.
pub proof fn law_begin_pass(
    cache: GlCacheView,
    driver: DriverState,
    framebuffer: GLuint,
    width: i32,
    height: i32,
    action: PassAction,
)
    requires
        coherent(cache, driver),
    ensures
        ({
            let after = driver.after_all(begin_pass_calls(framebuffer, width, height, action));
            &&& after == DriverState {
                framebuffer,
                viewport: (0, 0, width, height),
                scissor: (0, 0, width, height),
                ..driver
            }
            &&& coherent(cache, after)
        }),
{
    let target = seq![
        GlCall::BindFramebuffer { target: GL_FRAMEBUFFER, framebuffer },
        GlCall::Viewport { x: 0, y: 0, width, height },
        GlCall::Scissor { x: 0, y: 0, width, height },
    ];
    lemma_after_three(driver, target[0], target[1], target[2]);
    if let PassAction::Clear { color, depth, stencil } = action {
        law_calls_compose(driver, target, clear_calls(color, depth, stencil));
        law_clear_leaves_state(driver.after_all(target), color, depth, stencil);
    }
    lemma_target_changes(
        cache,
        driver,
        driver.after_all(begin_pass_calls(framebuffer, width, height, action)),
    );
}

/// Ending a pass goes back to the default framebuffer with no buffer bound; what is remembered
/// stays true.
pub proof fn law_end_pass(cache: GlCacheView, driver: DriverState, default_framebuffer: GLuint)
    requires
        coherent(cache, driver),
    ensures
        ({
            let after = driver.after_all(end_pass_calls(cache, default_framebuffer));
            &&& after == DriverState {
                framebuffer: default_framebuffer,
                array_buffer: 0,
                element_buffer: 0,
                ..driver
            }
            &&& coherent(GlCacheView { vertex_buffer: 0, index_buffer: 0, ..cache }, after)
        }),
{
    let back = GlCall::BindFramebuffer { target: GL_FRAMEBUFFER, framebuffer: default_framebuffer };
    lemma_after_one(driver, back);
    law_calls_compose(driver, seq![back], clear_buffer_calls(cache));
    lemma_target_changes(cache, driver, driver.after(back));
    law_clear_buffers(cache, driver.after(back));
}

/// Committing a frame leaves no buffer and no texture bound; what is remembered stays true.
pub proof fn law_commit_frame(cache: GlCacheView, driver: DriverState)
    requires
        coherent(cache, driver),
    ensures
        ({
            let after = driver.after_all(commit_calls(cache));
            let next = GlCacheView {
                vertex_buffer: 0,
                index_buffer: 0,
                ..cache.without_textures()
            };
            &&& coherent(next, after)
            &&& after.array_buffer == 0
            &&& after.element_buffer == 0
            &&& forall|slot: int|
                0 <= slot < MAX_SHADERSTAGE_IMAGES ==> #[trigger] after.units[texture_unit(slot)]
                    == 0
        }),
{
    let unbound = GlCacheView { vertex_buffer: 0, index_buffer: 0, ..cache };
    law_calls_compose(
        driver,
        clear_buffer_calls(cache),
        clear_texture_calls(cache.textures, MAX_SHADERSTAGE_IMAGES as nat),
    );
    law_clear_buffers(cache, driver);
    law_clear_textures(unbound, driver.after_all(clear_buffer_calls(cache)));
    assert(unbound.without_textures() =~= GlCacheView {
        vertex_buffer: 0,
        index_buffer: 0,
        ..cache.without_textures()
    });
}

proof fn lemma_empty_slots(textures: Seq<GLuint>, count: nat)
    requires
        count <= textures.len(),
        forall|slot: int| 0 <= slot < textures.len() ==> textures[slot] == 0,
    ensures
        clear_texture_calls(textures, count) == Seq::<GlCall>::empty(),
    decreases count,
{
    if count > 0 {
        lemma_empty_slots(textures, (count - 1) as nat);
    }
}

/// Committing again, with nothing bound in between, takes no calls.
pub proof fn law_commit_again(cache: GlCacheView)
    requires
        cache.wf(),
    ensures
        commit_calls(
            GlCacheView { vertex_buffer: 0, index_buffer: 0, ..cache.without_textures() },
        ) == Seq::<GlCall>::empty(),
{
    let next = GlCacheView { vertex_buffer: 0, index_buffer: 0, ..cache.without_textures() };
    lemma_empty_slots(next.textures, MAX_SHADERSTAGE_IMAGES as nat);
    assert(commit_calls(next) =~= Seq::<GlCall>::empty());
}

/// Storing a binding changes nothing that the driver knows of.
proof fn lemma_stored(cache: GlCacheView, driver: DriverState, target: GLenum)
    requires
        coherent(cache, driver),
    ensures
        coherent(cache.with_stored_buffer(target), driver),
{
    let next = cache.with_stored_buffer(target);
    assert(next.textures == cache.textures);
    assert(next.attributes == cache.attributes);
    lemma_same_tables(cache, next, driver);
}

proof fn lemma_same_tables(cache: GlCacheView, next: GlCacheView, driver: DriverState)
    requires
        coherent(cache, driver),
        next == (GlCacheView {
            stored_index_buffer: next.stored_index_buffer,
            stored_vertex_buffer: next.stored_vertex_buffer,
            ..cache
        }),
    ensures
        coherent(next, driver),
{
    assert forall|slot: int| 0 <= slot < MAX_SHADERSTAGE_IMAGES implies unit_holds(
        driver,
        slot,
        #[trigger] next.textures[slot],
    ) by {
        assert(unit_holds(driver, slot, cache.textures[slot]));
    }
    assert forall|index: int| 0 <= index < MAX_VERTEX_ATTRIBUTES implies attribute_set(
        driver.attributes[index as GLuint],
        #[trigger] next.attributes[index],
    ) by {
        assert(attribute_set(driver.attributes[index as GLuint], cache.attributes[index]));
    }
}

/// Work that moves data and leaves the driver's bindings alone.
spec fn is_upload(call: GlCall) -> bool {
    call is BufferData || call is BufferSubData
}

proof fn lemma_uploads(driver: DriverState, calls: Seq<GlCall>)
    requires
        forall|i: int| 0 <= i < calls.len() ==> is_upload(#[trigger] calls[i]),
    ensures
        driver.after_all(calls) == driver,
    decreases calls.len(),
{
    if calls.len() > 0 {
        assert(is_upload(calls[calls.len() - 1]));
        lemma_uploads(driver, calls.drop_last());
    }
}

proof fn lemma_with_binding(
    cache: GlCacheView,
    driver: DriverState,
    target: GLenum,
    gl_buf: GLuint,
    work: Seq<GlCall>,
)
    requires
        coherent(cache, driver),
        is_buffer_target(target),
        forall|i: int| 0 <= i < work.len() ==> is_upload(#[trigger] work[i]),
    ensures
        driver.after_all(with_binding_calls(cache, target, gl_buf, work)) == driver,
{
    let bind = bind_buffer_calls(cache, target, gl_buf);
    let bound = cache.with_buffer(target, gl_buf);
    let back = bind_buffer_calls(bound, target, cache.buffer(target));
    law_calls_compose(driver, bind, work);
    law_calls_compose(driver, bind + work, back);
    law_bind_buffer(cache, driver, target, gl_buf);
    lemma_uploads(driver.after_all(bind), work);
    law_bind_buffer(bound, driver.after_all(bind), target, cache.buffer(target));
}

/// Making a buffer leaves every binding of the driver as it was, and what is remembered stays
/// true.
pub proof fn law_new_buffer_keeps_bindings(
    cache: GlCacheView,
    driver: DriverState,
    target: GLenum,
    gl_buf: GLuint,
    size: usize,
)
    requires
        coherent(cache, driver),
        is_buffer_target(target),
    ensures
        driver.after_all(immutable_calls(cache, target, gl_buf, size)) == driver,
        driver.after_all(stream_calls(cache, target, gl_buf, size)) == driver,
        coherent(cache.with_stored_buffer(target), driver),
{
    let fill = seq![
        GlCall::BufferData { target, size: size as i64, usage: Usage::Immutable.gl_enum() },
        GlCall::BufferSubData { target, offset: 0, size: size as i64 },
    ];
    lemma_with_binding(cache, driver, target, gl_buf, fill);
    let reserve = seq![
        GlCall::BufferData { target, size: size as i64, usage: Usage::Stream.gl_enum() },
    ];
    lemma_with_binding(cache, driver, target, gl_buf, reserve);
    lemma_stored(cache, driver, target);
}

/// Updating a buffer ends with the binding that was stored last; what is remembered stays true.
pub proof fn law_update_binds_stored(
    cache: GlCacheView,
    driver: DriverState,
    target: GLenum,
    gl_buf: GLuint,
    size: usize,
)
    requires
        coherent(cache, driver),
        is_buffer_target(target),
    ensures
        ({
            let after = driver.after_all(update_calls(cache, target, gl_buf, size));
            let stored = cache.stored_buffer(target);
            &&& after == driver.after(GlCall::BindBuffer { target, buffer: stored })
            &&& coherent(cache.with_buffer(target, stored), after)
        }),
{
    let bind = bind_buffer_calls(cache, target, gl_buf);
    let bound = cache.with_buffer(target, gl_buf);
    let fill = seq![GlCall::BufferSubData { target, offset: 0, size: size as i64 }];
    let stored = cache.stored_buffer(target);
    let back = bind_buffer_calls(bound, target, stored);
    law_calls_compose(driver, bind, fill);
    law_calls_compose(driver, bind + fill, back);
    law_bind_buffer(cache, driver, target, gl_buf);
    lemma_uploads(driver.after_all(bind), fill);
    law_bind_buffer(bound, driver.after_all(bind), target, stored);
    assert(bound.with_buffer(target, stored) == cache.with_buffer(target, stored));
}

/// Deleting a buffer that is not bound, and that no attribute slot was set up with, leaves what
/// is remembered true.
pub proof fn law_delete_buffer(cache: GlCacheView, driver: DriverState, buffer: GLuint)
    requires
        coherent(cache, driver),
        cache.vertex_buffer != buffer,
        cache.index_buffer != buffer,
        forall|index: int|
            0 <= index < MAX_VERTEX_ATTRIBUTES ==> ((
            #[trigger] cache.attributes[index]) matches Some(cached) ==> cached.gl_vbuf != buffer),
        forall|index: GLuint| driver.attributes.contains_key(index),
    ensures
        coherent(cache, driver.after(GlCall::DeleteBuffers { buffer })),
{
    let after = driver.after(GlCall::DeleteBuffers { buffer });
    assert forall|slot: int| 0 <= slot < MAX_SHADERSTAGE_IMAGES implies unit_holds(
        after,
        slot,
        #[trigger] cache.textures[slot],
    ) by {
        assert(unit_holds(driver, slot, cache.textures[slot]));
    }
    assert forall|index: int| 0 <= index < MAX_VERTEX_ATTRIBUTES implies attribute_set(
        after.attributes[index as GLuint],
        #[trigger] cache.attributes[index],
    ) by {
        assert(attribute_set(driver.attributes[index as GLuint], cache.attributes[index]));
        assert(driver.attributes.contains_key(index as GLuint));
    }
}

/// Making a render pass ends on the default framebuffer; what is remembered stays true.
pub proof fn law_new_render_pass(
    cache: GlCacheView,
    driver: DriverState,
    pass: RenderPassInternal,
    default_framebuffer: GLuint,
)
    requires
        coherent(cache, driver),
    ensures
        ({
            let after = driver.after_all(attach_calls(pass, default_framebuffer));
            &&& after == DriverState { framebuffer: default_framebuffer, ..driver }
            &&& coherent(cache, after)
        }),
{
    let calls = attach_calls(pass, default_framebuffer);
    let back = GlCall::BindFramebuffer { target: GL_FRAMEBUFFER, framebuffer: default_framebuffer };
    lemma_after_two(driver, calls[0], calls[1]);
    if pass.depth_texture is Some {
        lemma_after_push(driver, seq![calls[0], calls[1]], calls[2]);
        lemma_after_push(driver, seq![calls[0], calls[1]].push(calls[2]), back);
        assert(calls =~= seq![calls[0], calls[1]].push(calls[2]).push(back));
    } else {
        lemma_after_push(driver, seq![calls[0], calls[1]], back);
        assert(calls =~= seq![calls[0], calls[1]].push(back));
    }
    lemma_target_changes(cache, driver, driver.after_all(calls));
}

/// The pass uses a texture that some slot remembers.
pub open spec fn pass_texture_remembered(cache: GlCacheView, pass: RenderPassInternal) -> bool {
    exists|slot: int|
        0 <= slot < MAX_SHADERSTAGE_IMAGES && (#[trigger] cache.textures[slot]
            == pass.texture.texture || (pass.depth_texture is Some && cache.textures[slot]
            == pass.depth_texture->0.texture))
}

proof fn lemma_delete_texture(cache: GlCacheView, driver: DriverState, texture: GLuint)
    requires
        coherent(cache, driver),
        forall|slot: int|
            0 <= slot < MAX_SHADERSTAGE_IMAGES ==> #[trigger] cache.textures[slot] != texture,
    ensures
        coherent(cache, driver.after(GlCall::DeleteTextures { texture })),
{
    let after = driver.after(GlCall::DeleteTextures { texture });
    assert forall|slot: int| 0 <= slot < MAX_SHADERSTAGE_IMAGES implies unit_holds(
        after,
        slot,
        #[trigger] cache.textures[slot],
    ) by {
        assert(unit_holds(driver, slot, cache.textures[slot]));
    }
    assert forall|index: int| 0 <= index < MAX_VERTEX_ATTRIBUTES implies attribute_set(
        after.attributes[index as GLuint],
        #[trigger] cache.attributes[index],
    ) by {
        assert(attribute_set(driver.attributes[index as GLuint], cache.attributes[index]));
    }
}

/// Deleting a pass whose textures are in no slot leaves what is remembered true.
pub proof fn law_delete_render_pass(
    cache: GlCacheView,
    driver: DriverState,
    pass: RenderPassInternal,
)
    requires
        coherent(cache, driver),
        !pass_texture_remembered(cache, pass),
    ensures
        coherent(cache, driver.after_all(delete_pass_calls(pass))),
{
    let framebuffer = GlCall::DeleteFramebuffers { framebuffer: pass.gl_fb };
    let color = GlCall::DeleteTextures { texture: pass.texture.texture };
    lemma_after_two(driver, framebuffer, color);
    let half = driver.after(framebuffer);
    lemma_target_changes(cache, driver, half);
    lemma_delete_texture(cache, half, pass.texture.texture);
    if let Some(depth) = pass.depth_texture {
        lemma_after_push(
            driver,
            seq![framebuffer, color],
            GlCall::DeleteTextures { texture: depth.texture },
        );
        lemma_delete_texture(cache, half.after(color), depth.texture);
    }
}

} // verus!
