//! A model of what the driver holds and has done: clears, draws, uniforms, buffer storage,
//! attachments. Together with the driver's state it says what a list of calls amounts to.
use vstd::prelude::*;

use crate::call::GlCall;
use crate::driver::DriverState;
use crate::gl::{
    GLenum, GLint, GLuint, GL_ARRAY_BUFFER, GL_COLOR_ATTACHMENT0, GL_COLOR_BUFFER_BIT,
    GL_DEPTH_ATTACHMENT, GL_DEPTH_BUFFER_BIT, GL_ELEMENT_ARRAY_BUFFER, GL_FRAMEBUFFER,
    GL_STENCIL_BUFFER_BIT, GL_TEXTURE_2D,
};
use crate::types::ColorBits;

verus! {

/// One clear: the framebuffer and the rectangle it hit, and the value that each plane got.
pub struct Cleared {
    pub framebuffer: GLuint,
    pub region: (i32, i32, i32, i32),
    pub color: Option<ColorBits>,
    pub depth: Option<u32>,
    pub stencil: Option<i32>,
}

/// One draw: the state it was made in, and what was drawn.
pub struct Drawn {
    pub state: DriverState,
    pub mode: GLenum,
    pub count: i32,
    pub index_type: GLenum,
    pub first_byte: i32,
    pub instances: i32,
}

/// Storage of a buffer. `filled` is the part, as offset and length, that was written last.
pub struct BufferStore {
    pub size: i64,
    pub usage: GLenum,
    pub filled: Option<(i64, i64)>,
}

/// Textures of a framebuffer; 0 stands for none.
pub struct Attachments {
    pub color: GLuint,
    pub depth: GLuint,
}

/// What a uniform was last given. Arrays name the first word of the caller's data.
pub enum UniformValue {
    Unit { value: GLint },
    Floats { width: int, count: i32, word: usize },
    Ints { width: int, count: i32, word: usize },
    Matrices { count: i32, transpose: u8, word: usize },
}

/// The driver: its state, what it holds, and what it has done.
#[verifier::ext_equal]
pub struct Machine {
    pub state: DriverState,
    pub clear_color: ColorBits,
    pub clear_depth: u32,
    pub clear_stencil: i32,
    pub clears: Seq<Cleared>,
    pub draws: Seq<Drawn>,
    /// By program and location
    pub uniforms: Map<(GLuint, GLint), UniformValue>,
    pub buffers: Map<GLuint, BufferStore>,
    pub attachments: Map<GLuint, Attachments>,
    pub deleted_buffers: Set<GLuint>,
    pub deleted_textures: Set<GLuint>,
    pub deleted_framebuffers: Set<GLuint>,
}

impl Machine {
    /// The buffer that is bound to `target`.
    pub open spec fn bound(self, target: GLenum) -> GLuint {
        if target == GL_ARRAY_BUFFER {
            self.state.array_buffer
        } else if target == GL_ELEMENT_ARRAY_BUFFER {
            self.state.element_buffer
        } else {
            0
        }
    }

    /// The driver with a uniform of the current program set.
    pub open spec fn with_uniform(self, location: GLint, value: UniformValue) -> Machine {
        Machine {
            uniforms: self.uniforms.insert((self.state.program, location), value),
            ..self
        }
    }

    /// What one call does apart from changing the state.
    pub open spec fn touched(self, call: GlCall) -> Machine {
        match call {
            GlCall::ClearColor { red_bits, green_bits, blue_bits, alpha_bits } => Machine {
                clear_color: (red_bits, green_bits, blue_bits, alpha_bits),
                ..self
            },
            GlCall::ClearDepthf { depth_bits } => Machine { clear_depth: depth_bits, ..self },
            GlCall::ClearStencil { stencil } => Machine { clear_stencil: stencil, ..self },
            GlCall::Clear { mask } => Machine {
                clears: self.clears.push(
                    Cleared {
                        framebuffer: self.state.framebuffer,
                        region: self.state.scissor,
                        color: if mask & GL_COLOR_BUFFER_BIT != 0 {
                            Some(self.clear_color)
                        } else {
                            None
                        },
                        depth: if mask & GL_DEPTH_BUFFER_BIT != 0 {
                            Some(self.clear_depth)
                        } else {
                            None
                        },
                        stencil: if mask & GL_STENCIL_BUFFER_BIT != 0 {
                            Some(self.clear_stencil)
                        } else {
                            None
                        },
                    },
                ),
                ..self
            },
            GlCall::DrawElementsInstanced { mode, count, index_type, indices, instances } => {
                Machine {
                    draws: self.draws.push(
                        Drawn {
                            state: self.state,
                            mode,
                            count,
                            index_type,
                            first_byte: indices,
                            instances,
                        },
                    ),
                    ..self
                }
            },
            GlCall::Uniform1i { location, value } => self.with_uniform(
                location,
                UniformValue::Unit { value },
            ),
            GlCall::Uniform1fv { location, count, word } => self.with_uniform(
                location,
                UniformValue::Floats { width: 1, count, word },
            ),
            GlCall::Uniform2fv { location, count, word } => self.with_uniform(
                location,
                UniformValue::Floats { width: 2, count, word },
            ),
            GlCall::Uniform3fv { location, count, word } => self.with_uniform(
                location,
                UniformValue::Floats { width: 3, count, word },
            ),
            GlCall::Uniform4fv { location, count, word } => self.with_uniform(
                location,
                UniformValue::Floats { width: 4, count, word },
            ),
            GlCall::Uniform1iv { location, count, word } => self.with_uniform(
                location,
                UniformValue::Ints { width: 1, count, word },
            ),
            GlCall::Uniform2iv { location, count, word } => self.with_uniform(
                location,
                UniformValue::Ints { width: 2, count, word },
            ),
            GlCall::Uniform3iv { location, count, word } => self.with_uniform(
                location,
                UniformValue::Ints { width: 3, count, word },
            ),
            GlCall::Uniform4iv { location, count, word } => self.with_uniform(
                location,
                UniformValue::Ints { width: 4, count, word },
            ),
            GlCall::UniformMatrix4fv { location, count, transpose, word } => self.with_uniform(
                location,
                UniformValue::Matrices { count, transpose, word },
            ),
            GlCall::BufferData { target, size, usage } => Machine {
                buffers: self.buffers.insert(
                    self.bound(target),
                    BufferStore { size, usage, filled: None },
                ),
                ..self
            },
            GlCall::BufferSubData { target, offset, size } => Machine {
                buffers: self.buffers.insert(
                    self.bound(target),
                    BufferStore {
                        filled: Some((offset, size)),
                        ..self.buffers[self.bound(target)]
                    },
                ),
                ..self
            },
            GlCall::FramebufferTexture2D { target, attachment, textarget, texture, level } => {
                let held = self.attachments[self.state.framebuffer];
                if target != GL_FRAMEBUFFER || textarget != GL_TEXTURE_2D || level != 0 {
                    self
                } else if attachment == GL_COLOR_ATTACHMENT0 {
                    Machine {
                        attachments: self.attachments.insert(
                            self.state.framebuffer,
                            Attachments { color: texture, ..held },
                        ),
                        ..self
                    }
                } else if attachment == GL_DEPTH_ATTACHMENT {
                    Machine {
                        attachments: self.attachments.insert(
                            self.state.framebuffer,
                            Attachments { depth: texture, ..held },
                        ),
                        ..self
                    }
                } else {
                    self
                }
            },
            GlCall::DeleteBuffers { buffer } => Machine {
                deleted_buffers: self.deleted_buffers.insert(buffer),
                ..self
            },
            GlCall::DeleteTextures { texture } => Machine {
                deleted_textures: self.deleted_textures.insert(texture),
                ..self
            },
            GlCall::DeleteFramebuffers { framebuffer } => Machine {
                deleted_framebuffers: self.deleted_framebuffers.insert(framebuffer),
                ..self
            },
            _ => self,
        }
    }

    /// The driver after one call.
    #[verifier::opaque]
    pub open spec fn after(self, call: GlCall) -> Machine {
        Machine { state: self.state.after(call), ..self.touched(call) }
    }

    /// The driver after a list of calls.
    pub open spec fn after_all(self, calls: Seq<GlCall>) -> Machine
        decreases calls.len(),
    {
        if calls.len() == 0 {
            self
        } else {
            self.after_all(calls.drop_last()).after(calls.last())
        }
    }
}

/// A call that changes the state and nothing else.
pub open spec fn is_quiet(call: GlCall) -> bool {
    match call {
        GlCall::BindVertexArray { .. }
        | GlCall::BindBuffer { .. }
        | GlCall::ActiveTexture { .. }
        | GlCall::BindTexture { .. }
        | GlCall::BindFramebuffer { .. }
        | GlCall::UseProgram { .. }
        | GlCall::Enable { .. }
        | GlCall::Disable { .. }
        | GlCall::DepthFunc { .. }
        | GlCall::FrontFace { .. }
        | GlCall::CullFace { .. }
        | GlCall::ColorMask { .. }
        | GlCall::BlendFunc { .. }
        | GlCall::BlendFuncSeparate { .. }
        | GlCall::BlendEquationSeparate { .. }
        | GlCall::StencilOpSeparate { .. }
        | GlCall::StencilFuncSeparate { .. }
        | GlCall::StencilMaskSeparate { .. }
        | GlCall::Scissor { .. }
        | GlCall::Viewport { .. }
        | GlCall::VertexAttribPointer { .. }
        | GlCall::VertexAttribDivisor { .. }
        | GlCall::EnableVertexAttribArray { .. }
        | GlCall::DisableVertexAttribArray { .. } => true,
        _ => false,
    }
}

/// Calls of which each changes the state and nothing else.
pub open spec fn all_quiet(calls: Seq<GlCall>) -> bool {
    forall|i: int| 0 <= i < calls.len() ==> is_quiet(#[trigger] calls[i])
}

proof fn lemma_quiet_one(machine: Machine, call: GlCall)
    requires
        is_quiet(call),
    ensures
        machine.after(call) == (Machine { state: machine.state.after(call), ..machine }),
{
    reveal(Machine::after);
}

pub proof fn lemma_quiet(machine: Machine, calls: Seq<GlCall>)
    requires
        all_quiet(calls),
    ensures
        machine.after_all(calls) == (Machine {
            state: machine.state.after_all(calls),
            ..machine
        }),
    decreases calls.len(),
{
    if calls.len() > 0 {
        assert(is_quiet(calls[calls.len() - 1]));
        assert(all_quiet(calls.drop_last()));
        lemma_quiet(machine, calls.drop_last());
        lemma_quiet_one(machine.after_all(calls.drop_last()), calls.last());
    }
}

pub proof fn lemma_machine_compose(machine: Machine, first: Seq<GlCall>, second: Seq<GlCall>)
    ensures
        machine.after_all(first + second) == machine.after_all(first).after_all(second),
    decreases second.len(),
{
    if second.len() == 0 {
        assert(first + second =~= first);
    } else {
        lemma_machine_compose(machine, first, second.drop_last());
        assert((first + second).drop_last() =~= first + second.drop_last());
    }
}

pub proof fn lemma_machine_push(machine: Machine, calls: Seq<GlCall>, call: GlCall)
    ensures
        machine.after_all(calls.push(call)) == machine.after_all(calls).after(call),
{
    assert(calls.push(call).drop_last() =~= calls);
}

pub proof fn lemma_machine_one(machine: Machine, call: GlCall)
    ensures
        machine.after_all(seq![call]) == machine.after(call),
{
    lemma_machine_push(machine, seq![], call);
    assert(seq![call] =~= Seq::<GlCall>::empty().push(call));
}

pub proof fn lemma_machine_state(machine: Machine, calls: Seq<GlCall>)
    ensures
        machine.after_all(calls).state == machine.state.after_all(calls),
    decreases calls.len(),
{
    if calls.len() > 0 {
        lemma_machine_state(machine, calls.drop_last());
        lemma_state_one(machine.after_all(calls.drop_last()), calls.last());
    }
}

proof fn lemma_state_one(machine: Machine, call: GlCall)
    ensures
        machine.after(call).state == machine.state.after(call),
{
    reveal(Machine::after);
}

pub proof fn lemma_clear_color(machine: Machine, color: ColorBits)
    ensures
        machine.after(
            GlCall::ClearColor {
                red_bits: color.0,
                green_bits: color.1,
                blue_bits: color.2,
                alpha_bits: color.3,
            },
        ) == (Machine { clear_color: color, ..machine }),
{
    reveal(Machine::after);
}

pub proof fn lemma_clear_depth(machine: Machine, depth: u32)
    ensures
        machine.after(GlCall::ClearDepthf { depth_bits: depth }) == (Machine {
            clear_depth: depth,
            ..machine
        }),
{
    reveal(Machine::after);
}

pub proof fn lemma_clear_stencil(machine: Machine, stencil: i32)
    ensures
        machine.after(GlCall::ClearStencil { stencil }) == (Machine {
            clear_stencil: stencil,
            ..machine
        }),
{
    reveal(Machine::after);
}

pub proof fn lemma_clear(machine: Machine, mask: u32, color: bool, depth: bool, stencil: bool)
    requires
        (mask & GL_COLOR_BUFFER_BIT != 0) == color,
        (mask & GL_DEPTH_BUFFER_BIT != 0) == depth,
        (mask & GL_STENCIL_BUFFER_BIT != 0) == stencil,
    ensures
        machine.after(GlCall::Clear { mask }) == (Machine {
            clears: machine.clears.push(
                Cleared {
                    framebuffer: machine.state.framebuffer,
                    region: machine.state.scissor,
                    color: if color {
                        Some(machine.clear_color)
                    } else {
                        None
                    },
                    depth: if depth {
                        Some(machine.clear_depth)
                    } else {
                        None
                    },
                    stencil: if stencil {
                        Some(machine.clear_stencil)
                    } else {
                        None
                    },
                },
            ),
            ..machine
        }),
{
    reveal(Machine::after);
}

pub proof fn lemma_draw(
    machine: Machine,
    mode: GLenum,
    count: i32,
    index_type: GLenum,
    indices: i32,
    instances: i32,
)
    ensures
        machine.after(
            GlCall::DrawElementsInstanced { mode, count, index_type, indices, instances },
        ) == (Machine {
            draws: machine.draws.push(
                Drawn {
                    state: machine.state,
                    mode,
                    count,
                    index_type,
                    first_byte: indices,
                    instances,
                },
            ),
            ..machine
        }),
{
    reveal(Machine::after);
}

pub proof fn lemma_sampler(machine: Machine, location: GLint, value: GLint)
    ensures
        machine.after(GlCall::Uniform1i { location, value }) == machine.with_uniform(
            location,
            UniformValue::Unit { value },
        ),
{
    reveal(Machine::after);
}

pub proof fn lemma_buffer_data(machine: Machine, target: GLenum, size: i64, usage: GLenum)
    ensures
        machine.after(GlCall::BufferData { target, size, usage }) == (Machine {
            buffers: machine.buffers.insert(
                machine.bound(target),
                BufferStore { size, usage, filled: None },
            ),
            ..machine
        }),
{
    reveal(Machine::after);
}

pub proof fn lemma_buffer_sub_data(machine: Machine, target: GLenum, offset: i64, size: i64)
    ensures
        machine.after(GlCall::BufferSubData { target, offset, size }) == (Machine {
            buffers: machine.buffers.insert(
                machine.bound(target),
                BufferStore {
                    filled: Some((offset, size)),
                    ..machine.buffers[machine.bound(target)]
                },
            ),
            ..machine
        }),
{
    reveal(Machine::after);
}

pub proof fn lemma_bind_buffer(machine: Machine, target: GLenum, buffer: GLuint)
    ensures
        target == GL_ARRAY_BUFFER ==> machine.after(GlCall::BindBuffer { target, buffer }) == (
        Machine { state: DriverState { array_buffer: buffer, ..machine.state }, ..machine }),
        target == GL_ELEMENT_ARRAY_BUFFER ==> machine.after(
            GlCall::BindBuffer { target, buffer },
        ) == (Machine {
            state: DriverState { element_buffer: buffer, ..machine.state },
            ..machine
        }),
{
    reveal(Machine::after);
}

pub proof fn lemma_bind_framebuffer(machine: Machine, framebuffer: GLuint)
    ensures
        machine.after(GlCall::BindFramebuffer { target: GL_FRAMEBUFFER, framebuffer }) == (Machine {
            state: DriverState { framebuffer, ..machine.state },
            ..machine
        }),
{
    reveal(Machine::after);
}

pub proof fn lemma_attach(machine: Machine, attachment: GLenum, texture: GLuint)
    requires
        attachment == GL_COLOR_ATTACHMENT0 || attachment == GL_DEPTH_ATTACHMENT,
    ensures
        machine.after(
            GlCall::FramebufferTexture2D {
                target: GL_FRAMEBUFFER,
                attachment,
                textarget: GL_TEXTURE_2D,
                texture,
                level: 0,
            },
        ) == (Machine {
            attachments: machine.attachments.insert(
                machine.state.framebuffer,
                if attachment == GL_COLOR_ATTACHMENT0 {
                    Attachments {
                        color: texture,
                        ..machine.attachments[machine.state.framebuffer]
                    }
                } else {
                    Attachments {
                        depth: texture,
                        ..machine.attachments[machine.state.framebuffer]
                    }
                },
            ),
            ..machine
        }),
{
    reveal(Machine::after);
}

pub proof fn lemma_delete_buffer(machine: Machine, buffer: GLuint)
    ensures
        machine.after(GlCall::DeleteBuffers { buffer }) == (Machine {
            state: machine.state.without_buffer(buffer),
            deleted_buffers: machine.deleted_buffers.insert(buffer),
            ..machine
        }),
{
    reveal(Machine::after);
}

pub proof fn lemma_delete_texture(machine: Machine, texture: GLuint)
    ensures
        ({
            let after = machine.after(GlCall::DeleteTextures { texture });
            after == (Machine {
                state: after.state,
                deleted_textures: machine.deleted_textures.insert(texture),
                ..machine
            })
        }),
{
    reveal(Machine::after);
}

pub proof fn lemma_delete_framebuffer(machine: Machine, framebuffer: GLuint)
    ensures
        ({
            let after = machine.after(GlCall::DeleteFramebuffers { framebuffer });
            after == (Machine {
                state: after.state,
                deleted_framebuffers: machine.deleted_framebuffers.insert(framebuffer),
                ..machine
            })
        }),
{
    reveal(Machine::after);
}

} // verus!
