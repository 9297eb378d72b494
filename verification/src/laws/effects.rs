//! What each operation makes the driver do, said of the driver and of the operation's inputs.
use vstd::prelude::*;

use crate::buffer::{delete_buffer_calls, immutable_calls, stream_calls, update_calls};
use crate::cache::{
    bind_buffer_calls, clear_buffer_calls, clear_texture_calls, texture_unit, GlCacheView,
};
use crate::call::GlCall;
use crate::contents::{
    all_quiet, lemma_attach, lemma_bind_buffer, lemma_bind_framebuffer, lemma_buffer_data,
    lemma_buffer_sub_data, lemma_clear, lemma_clear_color, lemma_clear_depth, lemma_clear_stencil,
    lemma_delete_buffer, lemma_delete_framebuffer, lemma_delete_texture, lemma_machine_compose,
    lemma_machine_one, lemma_machine_push, lemma_quiet, Attachments, BufferStore, Cleared, Machine,
};
use crate::context::{
    begin_pass_calls, clear_calls, clear_mask, commit_calls, end_pass_calls, pass_target,
    scissor_calls, Context,
};
use crate::driver::{coherent, DriverState};
use crate::gl::{
    GLenum, GLuint, GL_ARRAY_BUFFER, GL_COLOR_ATTACHMENT0, GL_DEPTH_ATTACHMENT, GL_FRAMEBUFFER,
    GL_STATIC_DRAW, GL_STREAM_DRAW, GL_TEXTURE_2D,
};
use crate::laws::cache::{
    is_buffer_target, law_bind_buffer, law_calls_compose, law_clear_buffers, lemma_after_one,
    lemma_after_push, lemma_after_three,
};
use crate::laws::frame::{law_clear_planes, law_commit_frame, law_end_pass};
use crate::render_pass::{attach_calls, delete_pass_calls, RenderPassInternal};
use crate::types::{ColorBits, PassAction, RenderPass, MAX_SHADERSTAGE_IMAGES};

verus! {

/// A clear gives each plane for which there is a value that value, channel by channel, in the
/// current target and within the scissor rectangle, and touches no other plane. Without any
/// value nothing happens.
pub proof fn law_clear(
    machine: Machine,
    color: Option<ColorBits>,
    depth: Option<u32>,
    stencil: Option<i32>,
)
    ensures
        ({
            let after = machine.after_all(clear_calls(color, depth, stencil));
            &&& after == (Machine {
                clear_color: after.clear_color,
                clear_depth: after.clear_depth,
                clear_stencil: after.clear_stencil,
                clears: after.clears,
                ..machine
            })
            &&& color is None && depth is None && stencil is None ==> after == machine
            &&& color is Some || depth is Some || stencil is Some ==> {
                &&& after.clears.len() == machine.clears.len() + 1
                &&& after.clears.drop_last() == machine.clears
                &&& after.clears.last() == (Cleared {
                    framebuffer: machine.state.framebuffer,
                    region: machine.state.scissor,
                    color,
                    depth,
                    stencil,
                })
            }
            &&& color matches Some((red, green, blue, alpha)) ==> {
                &&& after.clear_color.0 == red
                &&& after.clear_color.1 == green
                &&& after.clear_color.2 == blue
                &&& after.clear_color.3 == alpha
            }
            &&& color is None ==> after.clear_color == machine.clear_color
            &&& depth matches Some(depth) ==> after.clear_depth == depth
            &&& depth is None ==> after.clear_depth == machine.clear_depth
            &&& stencil matches Some(stencil) ==> after.clear_stencil == stencil
            &&& stencil is None ==> after.clear_stencil == machine.clear_stencil
        }),
{
    let mask = clear_mask(color is Some, depth is Some, stencil is Some);
    law_clear_planes(color is Some, depth is Some, stencil is Some);
    let mut so_far = Seq::<GlCall>::empty();
    let mut at = machine;
    if let Some((r, g, b, a)) = color {
        let call = GlCall::ClearColor {
            red_bits: r,
            green_bits: g,
            blue_bits: b,
            alpha_bits: a,
        };
        lemma_machine_push(machine, so_far, call);
        lemma_clear_color(at, (r, g, b, a));
        so_far = so_far.push(call);
        at = at.after(call);
    }
    if let Some(v) = depth {
        let call = GlCall::ClearDepthf { depth_bits: v };
        lemma_machine_push(machine, so_far, call);
        lemma_clear_depth(at, v);
        so_far = so_far.push(call);
        at = at.after(call);
    }
    if let Some(v) = stencil {
        let call = GlCall::ClearStencil { stencil: v };
        lemma_machine_push(machine, so_far, call);
        lemma_clear_stencil(at, v);
        so_far = so_far.push(call);
        at = at.after(call);
    }
    if color is Some || depth is Some || stencil is Some {
        let call = GlCall::Clear { mask: mask as u32 };
        lemma_machine_push(machine, so_far, call);
        lemma_clear(at, mask as u32, color is Some, depth is Some, stencil is Some);
        so_far = so_far.push(call);
        at = at.after(call);
        assert(at.clears.drop_last() =~= machine.clears);
    }
    assert(clear_calls(color, depth, stencil) =~= so_far);
    assert(machine.after_all(so_far) == at);
}

/// A pass renders to all of its framebuffer: viewport and scissor rectangle begin at the origin
/// and have the given size. Where it begins with a clear, that clear hits this framebuffer and
/// gives each plane its value.
pub proof fn law_pass_begun(
    machine: Machine,
    framebuffer: GLuint,
    width: i32,
    height: i32,
    action: PassAction,
)
    ensures
        ({
            let after = machine.after_all(begin_pass_calls(framebuffer, width, height, action));
            &&& after == (Machine {
                state: after.state,
                clear_color: after.clear_color,
                clear_depth: after.clear_depth,
                clear_stencil: after.clear_stencil,
                clears: after.clears,
                ..machine
            })
            &&& after.state == (DriverState {
                framebuffer,
                viewport: (0, 0, width, height),
                scissor: (0, 0, width, height),
                ..machine.state
            })
            &&& action is Nothing ==> after == (Machine { state: after.state, ..machine })
            &&& action matches PassAction::Clear { color, depth, stencil } ==> {
                &&& color is None && depth is None && stencil is None ==> after.clears
                    == machine.clears
                &&& color is Some || depth is Some || stencil is Some ==> after.clears
                    == machine.clears.push(
                    Cleared {
                        framebuffer,
                        region: (0, 0, width, height),
                        color,
                        depth,
                        stencil,
                    },
                )
            }
        }),
{
    let bind = GlCall::BindFramebuffer { target: GL_FRAMEBUFFER, framebuffer };
    let view = GlCall::Viewport { x: 0, y: 0, width, height };
    let limit = GlCall::Scissor { x: 0, y: 0, width, height };
    let target = seq![bind, view, limit];
    lemma_quiet(machine, target);
    lemma_after_three(machine.state, bind, view, limit);
    let begun = machine.after_all(target);
    match action {
        PassAction::Nothing => {},
        PassAction::Clear { color, depth, stencil } => {
            lemma_machine_compose(machine, target, clear_calls(color, depth, stencil));
            law_clear(begun, color, depth, stencil);
            let after = begun.after_all(clear_calls(color, depth, stencil));
            if color is Some || depth is Some || stencil is Some {
                assert(after.clears =~= after.clears.drop_last().push(after.clears.last()));
            }
        },
    }
}

proof fn lemma_buffer_calls_quiet(cache: GlCacheView)
    ensures
        all_quiet(clear_buffer_calls(cache)),
{
}

proof fn lemma_texture_calls_quiet(textures: Seq<GLuint>, count: nat)
    ensures
        all_quiet(clear_texture_calls(textures, count)),
    decreases count,
{
    if count > 0 {
        lemma_texture_calls_quiet(textures, (count - 1) as nat);
    }
}

proof fn lemma_slots_emptied(driver: DriverState, textures: Seq<GLuint>, count: nat)
    requires
        count <= MAX_SHADERSTAGE_IMAGES,
    ensures
        ({
            let after = driver.after_all(clear_texture_calls(textures, count));
            &&& after == (DriverState {
                active_unit: after.active_unit,
                units: after.units,
                ..driver
            })
            &&& forall|unit: GLenum|
                unit < 0x84C0 || 0x84C0 + count <= unit ==> #[trigger] after.units[unit]
                    == driver.units[unit]
            &&& forall|n: int|
                0 <= n < count ==> (#[trigger] textures[n] == 0 || after.units[(0x84C0
                    + n) as GLenum] == 0)
        }),
    decreases count,
{
    if count > 0 {
        let before = clear_texture_calls(textures, (count - 1) as nat);
        lemma_slots_emptied(driver, textures, (count - 1) as nat);
        if textures[count - 1] != 0 {
            let activate = GlCall::ActiveTexture { unit: (0x84C0 + count - 1) as GLenum };
            let unbind = GlCall::BindTexture { target: GL_TEXTURE_2D, texture: 0 };
            lemma_after_push(driver, before, activate);
            lemma_after_push(driver, before.push(activate), unbind);
            assert(clear_texture_calls(textures, count) =~= before.push(activate).push(unbind));
        }
    }
}

/// Ending a pass and committing a frame draw nothing, clear nothing and change no contents.
pub proof fn law_ends_touch_nothing(
    machine: Machine,
    cache: GlCacheView,
    default_framebuffer: GLuint,
)
    requires
        coherent(cache, machine.state),
    ensures
        machine.after_all(end_pass_calls(cache, default_framebuffer)) == (Machine {
            state: DriverState {
                framebuffer: default_framebuffer,
                array_buffer: 0,
                element_buffer: 0,
                ..machine.state
            },
            ..machine
        }),
        ({
            let after = machine.after_all(commit_calls(cache));
            &&& after == (Machine { state: after.state, ..machine })
            &&& after.state == (DriverState {
                array_buffer: 0,
                element_buffer: 0,
                active_unit: after.state.active_unit,
                units: after.state.units,
                ..machine.state
            })
            &&& forall|unit: GLenum|
                #![trigger after.state.units[unit]]
                after.state.units[unit] == if 0x84C0 <= unit < 0x84C0 + MAX_SHADERSTAGE_IMAGES {
                    0
                } else {
                    machine.state.units[unit]
                }
        }),
{
    lemma_buffer_calls_quiet(cache);
    lemma_texture_calls_quiet(cache.textures, MAX_SHADERSTAGE_IMAGES as nat);
    lemma_quiet(machine, end_pass_calls(cache, default_framebuffer));
    lemma_quiet(machine, commit_calls(cache));
    law_end_pass(cache, machine.state, default_framebuffer);
    let unbound = machine.state.after_all(clear_buffer_calls(cache));
    let all = MAX_SHADERSTAGE_IMAGES as nat;
    law_calls_compose(
        machine.state,
        clear_buffer_calls(cache),
        clear_texture_calls(cache.textures, all),
    );
    law_clear_buffers(cache, machine.state);
    lemma_slots_emptied(unbound, cache.textures, all);
    let after = machine.after_all(commit_calls(cache)).state;
    law_commit_frame(cache, machine.state);
    assert forall|unit: GLenum| 0x84C0 <= unit < 0x84C0 + MAX_SHADERSTAGE_IMAGES implies
        #[trigger] after.units[unit] == 0 by {
        assert(unit == texture_unit(unit - 0x84C0));
    }
}

proof fn lemma_bind_machine(
    machine: Machine,
    cache: GlCacheView,
    target: GLenum,
    buffer: GLuint,
)
    requires
        coherent(cache, machine.state),
        is_buffer_target(target),
    ensures
        machine.after_all(bind_buffer_calls(cache, target, buffer)) == machine.after(
            GlCall::BindBuffer { target, buffer },
        ),
        coherent(
            cache.with_buffer(target, buffer),
            machine.after(GlCall::BindBuffer { target, buffer }).state,
        ),
{
    law_bind_buffer(cache, machine.state, target, buffer);
    lemma_quiet(machine, bind_buffer_calls(cache, target, buffer));
    lemma_bind_buffer(machine, target, buffer);
}

/// An immutable buffer has storage of its size, for data that is set once, and all of it is
/// filled. Nothing else of the driver changes: no other buffer, and no binding.
pub proof fn law_immutable_filled(
    machine: Machine,
    cache: GlCacheView,
    target: GLenum,
    gl_buf: GLuint,
    size: usize,
)
    requires
        coherent(cache, machine.state),
        is_buffer_target(target),
    ensures
        machine.after_all(immutable_calls(cache, target, gl_buf, size)) == (Machine {
            buffers: machine.buffers.insert(
                gl_buf,
                BufferStore {
                    size: size as i64,
                    usage: GL_STATIC_DRAW,
                    filled: Some((0, size as i64)),
                },
            ),
            ..machine
        }),
{
    let reserve = GlCall::BufferData { target, size: size as i64, usage: GL_STATIC_DRAW };
    let fill = GlCall::BufferSubData { target, offset: 0, size: size as i64 };
    let work = seq![reserve, fill];
    let bind = bind_buffer_calls(cache, target, gl_buf);
    let bound = cache.with_buffer(target, gl_buf);
    let held = if target == GL_ARRAY_BUFFER {
        machine.state.array_buffer
    } else {
        machine.state.element_buffer
    };
    let back = bind_buffer_calls(bound, target, held);
    lemma_machine_compose(machine, bind, work);
    lemma_machine_compose(machine, bind + work, back);
    lemma_bind_machine(machine, cache, target, gl_buf);
    let at = machine.after_all(bind);
    lemma_bind_buffer(machine, target, gl_buf);
    lemma_machine_one(at, reserve);
    lemma_buffer_data(at, target, size as i64, GL_STATIC_DRAW);
    lemma_machine_push(at, seq![reserve], fill);
    lemma_buffer_sub_data(at.after(reserve), target, 0, size as i64);
    assert(work =~= seq![reserve].push(fill));
    lemma_bind_machine(at.after_all(work), bound, target, held);
    lemma_bind_buffer(at.after_all(work), target, held);
    let after = machine.after_all(bind + work + back);
    assert(after.buffers =~= machine.buffers.insert(
        gl_buf,
        BufferStore {
            size: size as i64,
            usage: GL_STATIC_DRAW,
            filled: Some((0, size as i64)),
        },
    ));
    assert(immutable_calls(cache, target, gl_buf, size) =~= bind + work + back);
}

/// A stream buffer has storage of its size, for data that changes every frame, and nothing in it
/// yet. Nothing else of the driver changes: no other buffer, and no binding.
pub proof fn law_stream_reserved(
    machine: Machine,
    cache: GlCacheView,
    target: GLenum,
    gl_buf: GLuint,
    size: usize,
)
    requires
        coherent(cache, machine.state),
        is_buffer_target(target),
    ensures
        machine.after_all(stream_calls(cache, target, gl_buf, size)) == (Machine {
            buffers: machine.buffers.insert(
                gl_buf,
                BufferStore { size: size as i64, usage: GL_STREAM_DRAW, filled: None },
            ),
            ..machine
        }),
{
    let reserve = GlCall::BufferData { target, size: size as i64, usage: GL_STREAM_DRAW };
    let work = seq![reserve];
    let bind = bind_buffer_calls(cache, target, gl_buf);
    let bound = cache.with_buffer(target, gl_buf);
    let held = if target == GL_ARRAY_BUFFER {
        machine.state.array_buffer
    } else {
        machine.state.element_buffer
    };
    let back = bind_buffer_calls(bound, target, held);
    lemma_machine_compose(machine, bind, work);
    lemma_machine_compose(machine, bind + work, back);
    lemma_bind_machine(machine, cache, target, gl_buf);
    let at = machine.after_all(bind);
    lemma_bind_buffer(machine, target, gl_buf);
    lemma_machine_one(at, reserve);
    lemma_buffer_data(at, target, size as i64, GL_STREAM_DRAW);
    lemma_bind_machine(at.after_all(work), bound, target, held);
    lemma_bind_buffer(at.after_all(work), target, held);
    assert(stream_calls(cache, target, gl_buf, size) =~= bind + work + back);
}

/// An update writes its data to the front of the buffer and keeps the buffer's storage. Nothing
/// else of the driver changes but the binding of the target, which becomes the one that was
/// stored last.
pub proof fn law_update_fills_front(
    machine: Machine,
    cache: GlCacheView,
    target: GLenum,
    gl_buf: GLuint,
    size: usize,
)
    requires
        coherent(cache, machine.state),
        is_buffer_target(target),
    ensures
        machine.after_all(update_calls(cache, target, gl_buf, size)) == (Machine {
            state: if target == GL_ARRAY_BUFFER {
                DriverState { array_buffer: cache.stored_vertex_buffer, ..machine.state }
            } else {
                DriverState { element_buffer: cache.stored_index_buffer, ..machine.state }
            },
            buffers: machine.buffers.insert(
                gl_buf,
                BufferStore { filled: Some((0, size as i64)), ..machine.buffers[gl_buf] },
            ),
            ..machine
        }),
{
    let fill = GlCall::BufferSubData { target, offset: 0, size: size as i64 };
    let work = seq![fill];
    let bind = bind_buffer_calls(cache, target, gl_buf);
    let bound = cache.with_buffer(target, gl_buf);
    let stored = if target == GL_ARRAY_BUFFER {
        cache.stored_vertex_buffer
    } else {
        cache.stored_index_buffer
    };
    let back = bind_buffer_calls(bound, target, stored);
    lemma_machine_compose(machine, bind, work);
    lemma_machine_compose(machine, bind + work, back);
    lemma_bind_machine(machine, cache, target, gl_buf);
    let at = machine.after_all(bind);
    lemma_bind_buffer(machine, target, gl_buf);
    lemma_machine_one(at, fill);
    lemma_buffer_sub_data(at, target, 0, size as i64);
    lemma_bind_machine(at.after_all(work), bound, target, stored);
    lemma_bind_buffer(at.after_all(work), target, stored);
    assert(update_calls(cache, target, gl_buf, size) =~= bind + work + back);
}

/// Making a pass attaches the color texture to its framebuffer, and the depth texture where there
/// is one, and goes back to the default framebuffer. Nothing else of the driver changes.
pub proof fn law_pass_attached(
    machine: Machine,
    pass: RenderPassInternal,
    default_framebuffer: GLuint,
)
    ensures
        machine.after_all(attach_calls(pass, default_framebuffer)) == (Machine {
            state: DriverState { framebuffer: default_framebuffer, ..machine.state },
            attachments: machine.attachments.insert(
                pass.gl_fb,
                Attachments {
                    color: pass.texture.texture,
                    depth: match pass.depth_texture {
                        Some(depth_texture) => depth_texture.texture,
                        None => machine.attachments[pass.gl_fb].depth,
                    },
                },
            ),
            ..machine
        }),
{
    let bind = GlCall::BindFramebuffer { target: GL_FRAMEBUFFER, framebuffer: pass.gl_fb };
    let color = GlCall::FramebufferTexture2D {
        target: GL_FRAMEBUFFER,
        attachment: GL_COLOR_ATTACHMENT0,
        textarget: GL_TEXTURE_2D,
        texture: pass.texture.texture,
        level: 0,
    };
    let back = GlCall::BindFramebuffer { target: GL_FRAMEBUFFER, framebuffer: default_framebuffer };
    lemma_machine_one(machine, bind);
    lemma_bind_framebuffer(machine, pass.gl_fb);
    lemma_machine_push(machine, seq![bind], color);
    let colored = machine.after(bind).after(color);
    lemma_attach(machine.after(bind), GL_COLOR_ATTACHMENT0, pass.texture.texture);
    let front = seq![bind].push(color);
    match pass.depth_texture {
        Some(depth_texture) => {
            let depth = GlCall::FramebufferTexture2D {
                target: GL_FRAMEBUFFER,
                attachment: GL_DEPTH_ATTACHMENT,
                textarget: GL_TEXTURE_2D,
                texture: depth_texture.texture,
                level: 0,
            };
            lemma_machine_push(machine, front, depth);
            lemma_attach(colored, GL_DEPTH_ATTACHMENT, depth_texture.texture);
            lemma_machine_push(machine, front.push(depth), back);
            lemma_bind_framebuffer(colored.after(depth), default_framebuffer);
            let calls = front.push(depth).push(back);
            assert(attach_calls(pass, default_framebuffer) =~= calls);
            assert(machine.after_all(calls).attachments =~= machine.attachments.insert(
                pass.gl_fb,
                Attachments { color: pass.texture.texture, depth: depth_texture.texture },
            ));
        },
        None => {
            lemma_machine_push(machine, front, back);
            lemma_bind_framebuffer(colored, default_framebuffer);
            assert(attach_calls(pass, default_framebuffer) =~= front.push(back));
        },
    }
}

/// Deleting a pass deletes its framebuffer, its color texture and its depth texture where it has
/// one, and no other object.
pub proof fn law_pass_deleted(machine: Machine, pass: RenderPassInternal)
    ensures
        ({
            let after = machine.after_all(delete_pass_calls(pass));
            &&& after == (Machine {
                state: after.state,
                deleted_framebuffers: after.deleted_framebuffers,
                deleted_textures: after.deleted_textures,
                ..machine
            })
            &&& forall|framebuffer: GLuint|
                after.deleted_framebuffers.contains(framebuffer) <==> (framebuffer == pass.gl_fb
                    || machine.deleted_framebuffers.contains(framebuffer))
            &&& forall|texture: GLuint|
                after.deleted_textures.contains(texture) <==> (texture == pass.texture.texture
                    || (pass.depth_texture matches Some(depth) && texture == depth.texture)
                    || machine.deleted_textures.contains(texture))
        }),
{
    let frame = GlCall::DeleteFramebuffers { framebuffer: pass.gl_fb };
    let color = GlCall::DeleteTextures { texture: pass.texture.texture };
    lemma_machine_one(machine, frame);
    lemma_machine_push(machine, seq![frame], color);
    lemma_delete_framebuffer(machine, pass.gl_fb);
    lemma_delete_texture(machine.after(frame), pass.texture.texture);
    assert(seq![frame].push(color) =~= seq![frame, color]);
    match pass.depth_texture {
        Some(depth_texture) => {
            let depth = GlCall::DeleteTextures { texture: depth_texture.texture };
            lemma_machine_push(machine, seq![frame, color], depth);
            lemma_delete_texture(machine.after(frame).after(color), depth_texture.texture);
            assert(delete_pass_calls(pass) =~= seq![frame, color].push(depth));
        },
        None => {
            assert(delete_pass_calls(pass) =~= seq![frame, color]);
        },
    }
}

/// Deleting a buffer deletes that buffer and no other object.
pub proof fn law_buffer_deleted(machine: Machine, gl_buf: GLuint)
    ensures
        ({
            let after = machine.after_all(delete_buffer_calls(gl_buf));
            &&& after == (Machine {
                state: after.state,
                deleted_buffers: after.deleted_buffers,
                ..machine
            })
            &&& after.state == machine.state.without_buffer(gl_buf)
            &&& forall|buffer: GLuint|
                after.deleted_buffers.contains(buffer) <==> (buffer == gl_buf
                    || machine.deleted_buffers.contains(buffer))
        }),
{
    lemma_machine_one(machine, GlCall::DeleteBuffers { buffer: gl_buf });
    lemma_delete_buffer(machine, gl_buf);
}

/// Limiting drawing to a rectangle sets the scissor rectangle and nothing else.
pub proof fn law_drawing_limited(machine: Machine, x: i32, y: i32, w: i32, h: i32)
    ensures
        machine.after_all(scissor_calls(x, y, w, h)) == (Machine {
            state: DriverState { scissor: (x, y, w, h), ..machine.state },
            ..machine
        }),
{
    lemma_quiet(machine, scissor_calls(x, y, w, h));
    lemma_after_one(machine.state, GlCall::Scissor { x, y, width: w, height: h });
}

/// A pass renders to its own framebuffer at the size of its color texture; without a pass,
/// rendering goes to the default framebuffer at the size of the screen.
pub proof fn law_pass_targets(
    ctx: Context,
    pass: RenderPass,
    screen_width: i32,
    screen_height: i32,
)
    ensures
        ({
            let screen = pass_target(ctx, None, screen_width, screen_height);
            let offscreen = pass_target(ctx, Some(pass), screen_width, screen_height);
            let made = ctx.passes@[pass.0 as int];
            &&& screen.0 == ctx.default_framebuffer
            &&& screen.1 == screen_width
            &&& screen.2 == screen_height
            &&& offscreen.0 == made.gl_fb
            &&& made.texture.width <= i32::MAX ==> offscreen.1 == made.texture.width
            &&& made.texture.height <= i32::MAX ==> offscreen.2 == made.texture.height
            &&& offscreen.1 == made.texture.width as i32
            &&& offscreen.2 == made.texture.height as i32
        }),
{
}

} // verus!
