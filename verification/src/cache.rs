//! What the renderer remembers of the driver's state, so that it can leave out calls that would
//! change nothing.
use vstd::prelude::*;

use crate::call::GlCall;
use crate::gl::{
    GLenum, GLuint, GL_ARRAY_BUFFER, GL_ELEMENT_ARRAY_BUFFER, GL_TEXTURE0, GL_TEXTURE_2D,
};
use crate::types::{
    BlendState, ColorMask, CullFace, Pipeline, StencilState, MAX_SHADERSTAGE_IMAGES,
    MAX_VERTEX_ATTRIBUTES,
};

verus! {

/// One vertex attribute slot of a pipeline: where its data lies and how it is read.
#[derive(Clone, Copy, Debug, PartialEq, Eq, Structural)]
pub struct VertexAttributeInternal {
    pub attr_loc: GLuint,
    pub size: i32,
    pub type_: GLuint,
    pub offset: i64,
    pub stride: i32,
    pub buffer_index: usize,
    pub divisor: i32,
}

/// An attribute slot as it was last set up, with the buffer it reads.
#[derive(Clone, Copy, Debug, PartialEq, Eq, Structural)]
pub struct CachedAttribute {
    pub attribute: VertexAttributeInternal,
    pub gl_vbuf: GLuint,
}

/// The remembered bindings and settings.
pub struct GlCache {
    pub stored_index_buffer: GLuint,
    pub stored_vertex_buffer: GLuint,
    pub stored_texture: GLuint,
    pub index_buffer: GLuint,
    pub vertex_buffer: GLuint,
    pub textures: [GLuint; MAX_SHADERSTAGE_IMAGES],
    pub cur_pipeline: Option<Pipeline>,
    pub color_blend: Option<BlendState>,
    pub alpha_blend: Option<BlendState>,
    pub stencil: Option<StencilState>,
    pub color_write: ColorMask,
    pub cull_face: CullFace,
    pub attributes: [Option<CachedAttribute>; MAX_VERTEX_ATTRIBUTES],
}

/// The cache as a mathematical value.
#[verifier::ext_equal]
pub struct GlCacheView {
    pub stored_index_buffer: GLuint,
    pub stored_vertex_buffer: GLuint,
    pub stored_texture: GLuint,
    pub index_buffer: GLuint,
    pub vertex_buffer: GLuint,
    pub textures: Seq<GLuint>,
    pub cur_pipeline: Option<Pipeline>,
    pub color_blend: Option<BlendState>,
    pub alpha_blend: Option<BlendState>,
    pub stencil: Option<StencilState>,
    pub color_write: ColorMask,
    pub cull_face: CullFace,
    pub attributes: Seq<Option<CachedAttribute>>,
}

impl View for GlCache {
    type V = GlCacheView;

    open spec fn view(&self) -> GlCacheView {
        GlCacheView {
            stored_index_buffer: self.stored_index_buffer,
            stored_vertex_buffer: self.stored_vertex_buffer,
            stored_texture: self.stored_texture,
            index_buffer: self.index_buffer,
            vertex_buffer: self.vertex_buffer,
            textures: self.textures@,
            cur_pipeline: self.cur_pipeline,
            color_blend: self.color_blend,
            alpha_blend: self.alpha_blend,
            stencil: self.stencil,
            color_write: self.color_write,
            cull_face: self.cull_face,
            attributes: self.attributes@,
        }
    }
}

impl GlCacheView {
    /// The cache of a context that has just been made: nothing is bound, every setting is the
    /// driver's own default.
    pub open spec fn initial() -> GlCacheView {
        GlCacheView {
            stored_index_buffer: 0,
            stored_vertex_buffer: 0,
            stored_texture: 0,
            index_buffer: 0,
            vertex_buffer: 0,
            textures: Seq::new(MAX_SHADERSTAGE_IMAGES as nat, |slot: int| 0),
            cur_pipeline: None,
            color_blend: None,
            alpha_blend: None,
            stencil: None,
            color_write: (true, true, true, true),
            cull_face: CullFace::Nothing,
            attributes: Seq::new(MAX_VERTEX_ATTRIBUTES as nat, |index: int| None),
        }
    }

    /// The sizes of the tables are fixed, and alpha blending never stands alone.
    pub open spec fn wf(self) -> bool {
        &&& self.textures.len() == MAX_SHADERSTAGE_IMAGES
        &&& self.attributes.len() == MAX_VERTEX_ATTRIBUTES
        &&& self.alpha_blend is Some ==> self.color_blend is Some
    }

    /// The buffer that is bound to `target`. Every target but the array target counts as the
    /// element array target.
    pub open spec fn buffer(self, target: GLenum) -> GLuint {
        if target == GL_ARRAY_BUFFER {
            self.vertex_buffer
        } else {
            self.index_buffer
        }
    }

    /// The cache with `buffer` bound to `target`.
    pub open spec fn with_buffer(self, target: GLenum, buffer: GLuint) -> GlCacheView {
        if target == GL_ARRAY_BUFFER {
            GlCacheView { vertex_buffer: buffer, ..self }
        } else {
            GlCacheView { index_buffer: buffer, ..self }
        }
    }

    /// The binding of `target` that was stored last.
    pub open spec fn stored_buffer(self, target: GLenum) -> GLuint {
        if target == GL_ARRAY_BUFFER {
            self.stored_vertex_buffer
        } else {
            self.stored_index_buffer
        }
    }

    /// The cache with the binding of `target` stored.
    pub open spec fn with_stored_buffer(self, target: GLenum) -> GlCacheView {
        if target == GL_ARRAY_BUFFER {
            GlCacheView { stored_vertex_buffer: self.vertex_buffer, ..self }
        } else {
            GlCacheView { stored_index_buffer: self.index_buffer, ..self }
        }
    }

    /// The cache with `texture` bound to a slot.
    pub open spec fn with_texture(self, slot: int, texture: GLuint) -> GlCacheView {
        GlCacheView { textures: self.textures.update(slot, texture), ..self }
    }

    /// The cache with no texture bound anywhere.
    pub open spec fn without_textures(self) -> GlCacheView {
        GlCacheView { textures: Seq::new(self.textures.len(), |slot: int| 0), ..self }
    }
}

/// The calls that bind `buffer` to `target`: none where it is bound already.
pub open spec fn bind_buffer_calls(
    cache: GlCacheView,
    target: GLenum,
    buffer: GLuint,
) -> Seq<GlCall> {
    if cache.buffer(target) == buffer {
        seq![]
    } else {
        seq![GlCall::BindBuffer { target, buffer }]
    }
}

/// The enumerant of a texture slot.
pub open spec fn texture_unit(slot: int) -> GLenum {
    (GL_TEXTURE0 + slot) as GLenum
}

/// The calls that bind `texture` to a slot: the slot becomes the active one in any case.
pub open spec fn bind_texture_calls(
    cache: GlCacheView,
    slot: int,
    texture: GLuint,
) -> Seq<GlCall> {
    let activate = seq![GlCall::ActiveTexture { unit: texture_unit(slot) }];
    if cache.textures[slot] == texture {
        activate
    } else {
        activate.push(GlCall::BindTexture { target: GL_TEXTURE_2D, texture })
    }
}

/// The calls that empty the slots below `count`: two for each slot that holds a texture.
pub open spec fn clear_texture_calls(textures: Seq<GLuint>, count: nat) -> Seq<GlCall>
    decreases count,
{
    if count == 0 {
        seq![]
    } else {
        let before = clear_texture_calls(textures, (count - 1) as nat);
        if textures[count - 1] == 0 {
            before
        } else {
            before.push(GlCall::ActiveTexture { unit: texture_unit(count - 1) }).push(
                GlCall::BindTexture { target: GL_TEXTURE_2D, texture: 0 },
            )
        }
    }
}

/// The calls that unbind both buffers.
pub open spec fn clear_buffer_calls(cache: GlCacheView) -> Seq<GlCall> {
    bind_buffer_calls(cache, GL_ARRAY_BUFFER, 0) + bind_buffer_calls(
        cache,
        GL_ELEMENT_ARRAY_BUFFER,
        0,
    )
}

impl GlCache {
    /// A cache for a driver in its initial state.
    pub fn new() -> (cache: GlCache)
        ensures
            cache@ == GlCacheView::initial(),
    {
        let cache = GlCache {
            stored_index_buffer: 0,
            stored_vertex_buffer: 0,
            index_buffer: 0,
            vertex_buffer: 0,
            cur_pipeline: None,
            color_blend: None,
            alpha_blend: None,
            stencil: None,
            color_write: (true, true, true, true),
            cull_face: CullFace::Nothing,
            stored_texture: 0,
            textures: [0; MAX_SHADERSTAGE_IMAGES],
            attributes: [None; MAX_VERTEX_ATTRIBUTES],
        };
        assert(cache@.textures =~= GlCacheView::initial().textures);
        assert(cache@.attributes =~= GlCacheView::initial().attributes);
        cache
    }

    /// Binds `buffer` to `target`.
    pub fn bind_buffer(&mut self, target: GLenum, buffer: GLuint, calls: &mut Vec<GlCall>)
        ensures
            final(self)@ == old(self)@.with_buffer(target, buffer),
            final(calls)@ == old(calls)@ + bind_buffer_calls(old(self)@, target, buffer),
    {
        if target == GL_ARRAY_BUFFER {
            if self.vertex_buffer != buffer {
                self.vertex_buffer = buffer;
                calls.push(GlCall::BindBuffer { target, buffer });
            }
        } else {
            if self.index_buffer != buffer {
                self.index_buffer = buffer;
                calls.push(GlCall::BindBuffer { target, buffer });
            }
        }
    }

    /// Stores the binding of `target`, for `restore_buffer_binding`.
    pub fn store_buffer_binding(&mut self, target: GLenum)
        ensures
            final(self)@ == old(self)@.with_stored_buffer(target),
    {
        if target == GL_ARRAY_BUFFER {
            self.stored_vertex_buffer = self.vertex_buffer;
        } else {
            self.stored_index_buffer = self.index_buffer;
        }
    }

    /// Binds the buffer that was stored last for `target`.
    pub fn restore_buffer_binding(&mut self, target: GLenum, calls: &mut Vec<GlCall>)
        ensures
            final(self)@ == old(self)@.with_buffer(target, old(self)@.stored_buffer(target)),
            final(calls)@ == old(calls)@ + bind_buffer_calls(
                old(self)@,
                target,
                old(self)@.stored_buffer(target),
            ),
    {
        if target == GL_ARRAY_BUFFER {
            self.bind_buffer(target, self.stored_vertex_buffer, calls);
        } else {
            self.bind_buffer(target, self.stored_index_buffer, calls);
        }
    }

    /// Makes a slot the active one and binds `texture` to it.
    pub fn bind_texture(&mut self, slot_index: usize, texture: GLuint, calls: &mut Vec<GlCall>)
        requires
            slot_index < MAX_SHADERSTAGE_IMAGES,
        ensures
            final(self)@ == old(self)@.with_texture(slot_index as int, texture),
            final(calls)@ == old(calls)@ + bind_texture_calls(
                old(self)@,
                slot_index as int,
                texture,
            ),
    {
        calls.push(GlCall::ActiveTexture { unit: GL_TEXTURE0 + slot_index as GLuint });
        if self.textures[slot_index] != texture {
            calls.push(GlCall::BindTexture { target: GL_TEXTURE_2D, texture });
            self.textures[slot_index] = texture;
        }
        assert(self@.textures =~= old(self)@.textures.update(slot_index as int, texture));
    }

    /// Stores the texture of a slot, for `restore_texture_binding`.
    pub fn store_texture_binding(&mut self, slot_index: usize)
        requires
            slot_index < MAX_SHADERSTAGE_IMAGES,
        ensures
            final(self)@ == (GlCacheView {
                stored_texture: old(self)@.textures[slot_index as int],
                ..old(self)@
            }),
    {
        self.stored_texture = self.textures[slot_index];
    }

    /// Binds the texture that was stored last to a slot.
    pub fn restore_texture_binding(&mut self, slot_index: usize, calls: &mut Vec<GlCall>)
        requires
            slot_index < MAX_SHADERSTAGE_IMAGES,
        ensures
            final(self)@ == old(self)@.with_texture(slot_index as int, old(self)@.stored_texture),
            final(calls)@ == old(calls)@ + bind_texture_calls(
                old(self)@,
                slot_index as int,
                old(self)@.stored_texture,
            ),
    {
        self.bind_texture(slot_index, self.stored_texture, calls);
    }

    /// Unbinds the vertex and the index buffer.
    pub fn clear_buffer_bindings(&mut self, calls: &mut Vec<GlCall>)
        ensures
            final(self)@ == (GlCacheView { vertex_buffer: 0, index_buffer: 0, ..old(self)@ }),
            final(calls)@ == old(calls)@ + clear_buffer_calls(old(self)@),
    {
        self.bind_buffer(GL_ARRAY_BUFFER, 0, calls);
        self.vertex_buffer = 0;
        self.bind_buffer(GL_ELEMENT_ARRAY_BUFFER, 0, calls);
        self.index_buffer = 0;
    }

    /// Unbinds the texture of every slot that holds one.
    pub fn clear_texture_bindings(&mut self, calls: &mut Vec<GlCall>)
        ensures
            final(self)@ == old(self)@.without_textures(),
            final(calls)@ == old(calls)@ + clear_texture_calls(
                old(self)@.textures,
                MAX_SHADERSTAGE_IMAGES as nat,
            ),
    {
        let ghost before = self@;
        let ghost issued = calls@;
        for ix in 0..MAX_SHADERSTAGE_IMAGES
            invariant
                before.textures.len() == MAX_SHADERSTAGE_IMAGES,
                self@ == (GlCacheView {
                    textures: Seq::new(
                        before.textures.len(),
                        |slot: int| if slot < ix { 0 } else { before.textures[slot] },
                    ),
                    ..before
                }),
                calls@ == issued + clear_texture_calls(before.textures, ix as nat),
        {
            if self.textures[ix] != 0 {
                self.bind_texture(ix, 0, calls);
                self.textures[ix] = 0;
            }
            assert(self@.textures =~= Seq::new(
                before.textures.len(),
                |slot: int| if slot < ix + 1 { 0 } else { before.textures[slot] },
            ));
        }
        assert(self@.textures =~= before.without_textures().textures);
    }
}

} // verus!
