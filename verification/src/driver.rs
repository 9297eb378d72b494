//! A model of the driver: the part of its state that rendering depends on, and what each call
//! does to it. It serves to say what the remembered state is worth.
use vstd::prelude::*;

use crate::cache::{texture_unit, CachedAttribute, GlCacheView};
use crate::call::GlCall;
use crate::gl::{
    GLenum, GLint, GLuint, GL_ALWAYS, GL_ARRAY_BUFFER, GL_BACK, GL_BLEND, GL_CCW, GL_CULL_FACE,
    GL_ELEMENT_ARRAY_BUFFER, GL_FALSE, GL_FLOAT, GL_FRAMEBUFFER, GL_FRONT, GL_FUNC_ADD, GL_KEEP,
    GL_LESS, GL_ONE, GL_STENCIL_TEST, GL_TEXTURE0, GL_TEXTURE_2D, GL_ZERO,
};
use crate::types::{
    BlendState, ColorMask, CullFace, StencilFaceState, StencilState, MAX_SHADERSTAGE_IMAGES,
    MAX_VERTEX_ATTRIBUTES,
};

verus! {

/// One vertex attribute of the driver. `buffer` is the array buffer that was bound when the
/// pointer was set.
pub struct DriverAttribute {
    pub enabled: bool,
    pub components: i32,
    pub type_: GLenum,
    pub normalized: u8,
    pub stride: i32,
    pub pointer: i64,
    pub buffer: GLuint,
    pub divisor: u32,
}

/// The stencil test of one face.
pub struct DriverStencil {
    pub fail: GLenum,
    pub depth_fail: GLenum,
    pub pass: GLenum,
    pub func: GLenum,
    pub reference: GLint,
    pub mask: u32,
    pub write_mask: u32,
}

/// The driver's state. `units` maps the enumerant of a texture unit to the texture in it.
#[verifier::ext_equal]
pub struct DriverState {
    pub array_buffer: GLuint,
    pub element_buffer: GLuint,
    pub active_unit: GLenum,
    pub units: Map<GLenum, GLuint>,
    pub caps: Set<GLenum>,
    pub depth_func: GLenum,
    pub front_face: GLenum,
    pub cull_mode: GLenum,
    pub color_mask: ColorMask,
    /// Source and destination factor of the color channels, then of alpha
    pub blend_func: (GLenum, GLenum, GLenum, GLenum),
    /// Equation of the color channels, then of alpha
    pub blend_equation: (GLenum, GLenum),
    pub stencil_front: DriverStencil,
    pub stencil_back: DriverStencil,
    pub program: GLuint,
    pub framebuffer: GLuint,
    pub viewport: (i32, i32, i32, i32),
    pub scissor: (i32, i32, i32, i32),
    pub attributes: Map<GLuint, DriverAttribute>,
}

/// An attribute that nothing has been said about.
pub open spec fn idle_attribute() -> DriverAttribute {
    DriverAttribute {
        enabled: false,
        components: 4,
        type_: GL_FLOAT,
        normalized: GL_FALSE,
        stride: 0,
        pointer: 0,
        buffer: 0,
        divisor: 0,
    }
}

/// A stencil test that lets everything pass.
pub open spec fn idle_stencil() -> DriverStencil {
    DriverStencil {
        fail: GL_KEEP,
        depth_fail: GL_KEEP,
        pass: GL_KEEP,
        func: GL_ALWAYS,
        reference: 0,
        mask: u32::MAX,
        write_mask: u32::MAX,
    }
}

impl DriverState {
    /// The state in which a driver starts.
    pub open spec fn initial() -> DriverState {
        DriverState {
            array_buffer: 0,
            element_buffer: 0,
            active_unit: GL_TEXTURE0,
            units: Map::new(|unit: GLenum| true, |unit: GLenum| 0),
            caps: Set::empty(),
            depth_func: GL_LESS,
            front_face: GL_CCW,
            cull_mode: GL_BACK,
            color_mask: (true, true, true, true),
            blend_func: (GL_ONE, GL_ZERO, GL_ONE, GL_ZERO),
            blend_equation: (GL_FUNC_ADD, GL_FUNC_ADD),
            stencil_front: idle_stencil(),
            stencil_back: idle_stencil(),
            program: 0,
            framebuffer: 0,
            viewport: (0, 0, 0, 0),
            scissor: (0, 0, 0, 0),
            attributes: Map::new(|index: GLuint| true, |index: GLuint| idle_attribute()),
        }
    }

    /// The state with one attribute changed.
    pub open spec fn with_attribute(
        self,
        index: GLuint,
        attribute: DriverAttribute,
    ) -> DriverState {
        DriverState { attributes: self.attributes.insert(index, attribute), ..self }
    }

    /// The state with the stencil test of one face changed.
    pub open spec fn with_stencil(self, face: GLenum, stencil: DriverStencil) -> DriverState {
        if face == GL_FRONT {
            DriverState { stencil_front: stencil, ..self }
        } else {
            DriverState { stencil_back: stencil, ..self }
        }
    }

    /// The stencil test of one face.
    pub open spec fn stencil(self, face: GLenum) -> DriverStencil {
        if face == GL_FRONT {
            self.stencil_front
        } else {
            self.stencil_back
        }
    }

    /// The state after a buffer is gone: nothing refers to it any more.
    pub open spec fn without_buffer(self, buffer: GLuint) -> DriverState {
        DriverState {
            array_buffer: if self.array_buffer == buffer {
                0
            } else {
                self.array_buffer
            },
            element_buffer: if self.element_buffer == buffer {
                0
            } else {
                self.element_buffer
            },
            attributes: self.attributes.map_values(
                |attribute: DriverAttribute|
                    if attribute.buffer == buffer {
                        DriverAttribute { buffer: 0, ..attribute }
                    } else {
                        attribute
                    },
            ),
            ..self
        }
    }

    /// The state after a texture is gone: no unit holds it any more.
    pub open spec fn without_texture(self, texture: GLuint) -> DriverState {
        DriverState {
            units: self.units.map_values(
                |held: GLuint|
                    if held == texture {
                        0
                    } else {
                        held
                    },
            ),
            ..self
        }
    }

    /// The state after one call. Calls that only move data, draw, or set what rendering reads
    /// from outside this state leave it as it is. A vertex array is taken to be a new one.
    pub open spec fn after(self, call: GlCall) -> DriverState {
        match call {
            GlCall::BindVertexArray { .. } => DriverState {
                element_buffer: 0,
                attributes: DriverState::initial().attributes,
                ..self
            },
            GlCall::BindBuffer { target, buffer } => if target == GL_ARRAY_BUFFER {
                DriverState { array_buffer: buffer, ..self }
            } else if target == GL_ELEMENT_ARRAY_BUFFER {
                DriverState { element_buffer: buffer, ..self }
            } else {
                self
            },
            GlCall::DeleteBuffers { buffer } => self.without_buffer(buffer),
            GlCall::ActiveTexture { unit } => DriverState { active_unit: unit, ..self },
            GlCall::BindTexture { target, texture } => if target == GL_TEXTURE_2D {
                DriverState { units: self.units.insert(self.active_unit, texture), ..self }
            } else {
                self
            },
            GlCall::DeleteTextures { texture } => self.without_texture(texture),
            GlCall::BindFramebuffer { target, framebuffer } => if target == GL_FRAMEBUFFER {
                DriverState { framebuffer, ..self }
            } else {
                self
            },
            GlCall::DeleteFramebuffers { framebuffer } => DriverState {
                framebuffer: if self.framebuffer == framebuffer {
                    0
                } else {
                    self.framebuffer
                },
                ..self
            },
            GlCall::UseProgram { program } => DriverState { program, ..self },
            GlCall::Enable { cap } => DriverState { caps: self.caps.insert(cap), ..self },
            GlCall::Disable { cap } => DriverState { caps: self.caps.remove(cap), ..self },
            GlCall::DepthFunc { func } => DriverState { depth_func: func, ..self },
            GlCall::FrontFace { mode } => DriverState { front_face: mode, ..self },
            GlCall::CullFace { mode } => DriverState { cull_mode: mode, ..self },
            GlCall::ColorMask { r, g, b, a } => DriverState { color_mask: (r, g, b, a), ..self },
            GlCall::BlendFunc { source, destination } => DriverState {
                blend_func: (source, destination, source, destination),
                ..self
            },
            GlCall::BlendFuncSeparate {
                source_rgb,
                destination_rgb,
                source_alpha,
                destination_alpha,
            } => DriverState {
                blend_func: (source_rgb, destination_rgb, source_alpha, destination_alpha),
                ..self
            },
            GlCall::BlendEquationSeparate { rgb, alpha } => DriverState {
                blend_equation: (rgb, alpha),
                ..self
            },
            GlCall::StencilOpSeparate { face, fail, depth_fail, pass } => self.with_stencil(
                face,
                DriverStencil { fail, depth_fail, pass, ..self.stencil(face) },
            ),
            GlCall::StencilFuncSeparate { face, func, reference, mask } => self.with_stencil(
                face,
                DriverStencil { func, reference, mask, ..self.stencil(face) },
            ),
            GlCall::StencilMaskSeparate { face, mask } => self.with_stencil(
                face,
                DriverStencil { write_mask: mask, ..self.stencil(face) },
            ),
            GlCall::Scissor { x, y, width, height } => DriverState {
                scissor: (x, y, width, height),
                ..self
            },
            GlCall::Viewport { x, y, width, height } => DriverState {
                viewport: (x, y, width, height),
                ..self
            },
            GlCall::VertexAttribPointer {
                index,
                components,
                type_,
                normalized,
                stride,
                pointer,
            } => self.with_attribute(
                index,
                DriverAttribute {
                    components,
                    type_,
                    normalized,
                    stride,
                    pointer,
                    buffer: self.array_buffer,
                    ..self.attributes[index]
                },
            ),
            GlCall::VertexAttribDivisor { index, divisor } => self.with_attribute(
                index,
                DriverAttribute { divisor, ..self.attributes[index] },
            ),
            GlCall::EnableVertexAttribArray { index } => self.with_attribute(
                index,
                DriverAttribute { enabled: true, ..self.attributes[index] },
            ),
            GlCall::DisableVertexAttribArray { index } => self.with_attribute(
                index,
                DriverAttribute { enabled: false, ..self.attributes[index] },
            ),
            _ => self,
        }
    }

    /// The state after a list of calls.
    pub open spec fn after_all(self, calls: Seq<GlCall>) -> DriverState
        decreases calls.len(),
    {
        if calls.len() == 0 {
            self
        } else {
            self.after_all(calls.drop_last()).after(calls.last())
        }
    }
}

/// The driver's stencil test is the given one.
pub open spec fn stencil_face_set(driver: DriverStencil, state: StencilFaceState) -> bool {
    driver == DriverStencil {
        fail: state.fail_op.gl_enum(),
        depth_fail: state.depth_fail_op.gl_enum(),
        pass: state.pass_op.gl_enum(),
        func: state.test_func.gl_enum(),
        reference: state.test_ref,
        mask: state.test_mask,
        write_mask: state.write_mask,
    }
}

/// The driver culls the given faces.
pub open spec fn cull_face_set(driver: DriverState, cull_face: CullFace) -> bool {
    match cull_face {
        CullFace::Nothing => !driver.caps.contains(GL_CULL_FACE),
        CullFace::Front => driver.caps.contains(GL_CULL_FACE) && driver.cull_mode == GL_FRONT,
        CullFace::Back => driver.caps.contains(GL_CULL_FACE) && driver.cull_mode == GL_BACK,
    }
}

/// The driver blends as asked; without alpha blending, alpha is blended like color.
pub open spec fn blend_set(
    driver: DriverState,
    color_blend: Option<BlendState>,
    alpha_blend: Option<BlendState>,
) -> bool {
    match color_blend {
        Some(color) => {
            let alpha = match alpha_blend {
                Some(alpha) => alpha,
                None => color,
            };
            &&& driver.caps.contains(GL_BLEND)
            &&& driver.blend_func == (
                color.sfactor.gl_enum(),
                color.dfactor.gl_enum(),
                alpha.sfactor.gl_enum(),
                alpha.dfactor.gl_enum(),
            )
            &&& driver.blend_equation == (color.equation.gl_enum(), alpha.equation.gl_enum())
        },
        None => !driver.caps.contains(GL_BLEND),
    }
}

/// The driver's stencil test is as asked.
pub open spec fn stencil_set(driver: DriverState, stencil_test: Option<StencilState>) -> bool {
    match stencil_test {
        Some(stencil) => {
            &&& driver.caps.contains(GL_STENCIL_TEST)
            &&& stencil_face_set(driver.stencil_front, stencil.front)
            &&& stencil_face_set(driver.stencil_back, stencil.back)
        },
        None => !driver.caps.contains(GL_STENCIL_TEST),
    }
}

/// An attribute of the driver reads what it is wanted to read, or nothing.
pub open spec fn attribute_set(driver: DriverAttribute, wanted: Option<CachedAttribute>) -> bool {
    match wanted {
        Some(wanted) => driver == DriverAttribute {
            enabled: true,
            components: wanted.attribute.size,
            type_: wanted.attribute.type_,
            normalized: GL_FALSE,
            stride: wanted.attribute.stride,
            pointer: wanted.attribute.offset,
            buffer: wanted.gl_vbuf,
            divisor: wanted.attribute.divisor as u32,
        },
        None => !driver.enabled,
    }
}

/// A texture unit holds the given texture.
pub open spec fn unit_holds(driver: DriverState, slot: int, texture: GLuint) -> bool {
    driver.units.contains_key(texture_unit(slot)) && driver.units[texture_unit(slot)] == texture
}

/// What the cache remembers is what the driver holds.
pub open spec fn coherent(cache: GlCacheView, driver: DriverState) -> bool {
    &&& cache.wf()
    &&& cache.vertex_buffer == driver.array_buffer
    &&& cache.index_buffer == driver.element_buffer
    &&& cache.color_write == driver.color_mask
    &&& cull_face_set(driver, cache.cull_face)
    &&& blend_set(driver, cache.color_blend, cache.alpha_blend)
    &&& stencil_set(driver, cache.stencil)
    &&& forall|slot: int|
        0 <= slot < MAX_SHADERSTAGE_IMAGES ==> unit_holds(
            driver,
            slot,
            #[trigger] cache.textures[slot],
        )
    &&& forall|index: int|
        0 <= index < MAX_VERTEX_ATTRIBUTES ==> attribute_set(
            driver.attributes[index as GLuint],
            #[trigger] cache.attributes[index],
        )
}

} // verus!
