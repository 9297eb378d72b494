//! What is kept on record: which entry of the cache each operation changes, what handles name,
//! and how few calls are made.
use vstd::prelude::*;

use crate::bindings::{attribute_calls, bindings_cache, image_calls};
use crate::cache::{
    bind_buffer_calls, bind_texture_calls, clear_texture_calls, texture_unit, CachedAttribute,
    GlCache, GlCacheView, VertexAttributeInternal,
};
use crate::context::{clear_calls, pipeline_cache, Context};
use crate::gl::{GLenum, GLuint, GL_ARRAY_BUFFER};
use crate::laws::sums::{lemma_total_grows, total};
use crate::program::{ProgramState, ProgramStep, ProgramStepView};
use crate::shader::{
    BuildCall, CompileState, CompileStep, CompileStepView, ShaderError, ShaderErrorView,
    ShaderImage, ShaderInternal,
};
use crate::text::NulError;
use crate::types::{
    Bindings, ColorBits, CullFace, Pipeline, PipelineParams, ShaderMeta, Texture,
    MAX_SHADERSTAGE_IMAGES, MAX_VERTEX_ATTRIBUTES,
};

verus! {

/// The record speaks of every field of the cache.
pub proof fn law_cache_on_record(cache: GlCache)
    ensures
        cache@.stored_index_buffer == cache.stored_index_buffer,
        cache@.stored_vertex_buffer == cache.stored_vertex_buffer,
        cache@.stored_texture == cache.stored_texture,
        cache@.index_buffer == cache.index_buffer,
        cache@.vertex_buffer == cache.vertex_buffer,
        cache@.textures == cache.textures@,
        cache@.cur_pipeline == cache.cur_pipeline,
        cache@.color_blend == cache.color_blend,
        cache@.alpha_blend == cache.alpha_blend,
        cache@.stencil == cache.stencil,
        cache@.color_write == cache.color_write,
        cache@.cull_face == cache.cull_face,
        cache@.attributes == cache.attributes@,
{
}

/// A fresh record has nothing bound, stored, applied or switched on, and all channels written.
pub proof fn law_fresh_record()
    ensures
        ({
            let fresh = GlCacheView::initial();
            &&& fresh.vertex_buffer == 0 && fresh.index_buffer == 0
            &&& fresh.stored_vertex_buffer == 0 && fresh.stored_index_buffer == 0
            &&& fresh.stored_texture == 0
            &&& fresh.textures.len() == MAX_SHADERSTAGE_IMAGES
            &&& forall|slot: int| 0 <= slot < MAX_SHADERSTAGE_IMAGES ==> fresh.textures[slot] == 0
            &&& fresh.attributes.len() == MAX_VERTEX_ATTRIBUTES
            &&& forall|index: int|
                0 <= index < MAX_VERTEX_ATTRIBUTES ==> fresh.attributes[index] is None
            &&& fresh.cur_pipeline is None
            &&& fresh.color_blend is None && fresh.alpha_blend is None && fresh.stencil is None
            &&& fresh.color_write == (true, true, true, true)
            &&& fresh.cull_face == CullFace::Nothing
        }),
{
}

/// Each of the two targets has its own binding and its own stored binding: binding or storing for
/// one changes that entry of the record alone. Storing keeps the buffer that is bound, and a
/// stored buffer that is bound again is the one that was bound then.
pub proof fn law_targets_on_record(cache: GlCacheView, target: GLenum, buffer: GLuint)
    ensures
        ({
            let array = target == GL_ARRAY_BUFFER;
            let bound = cache.with_buffer(target, buffer);
            let stored = cache.with_stored_buffer(target);
            &&& bound == (GlCacheView {
                vertex_buffer: bound.vertex_buffer,
                index_buffer: bound.index_buffer,
                ..cache
            })
            &&& array ==> bound.vertex_buffer == buffer && bound.index_buffer
                == cache.index_buffer
            &&& !array ==> bound.index_buffer == buffer && bound.vertex_buffer
                == cache.vertex_buffer
            &&& stored == (GlCacheView {
                stored_vertex_buffer: stored.stored_vertex_buffer,
                stored_index_buffer: stored.stored_index_buffer,
                ..cache
            })
            &&& array ==> stored.stored_vertex_buffer == cache.vertex_buffer
                && stored.stored_index_buffer == cache.stored_index_buffer
            &&& !array ==> stored.stored_index_buffer == cache.index_buffer
                && stored.stored_vertex_buffer == cache.stored_vertex_buffer
            &&& array ==> cache.buffer(target) == cache.vertex_buffer && cache.stored_buffer(
                target,
            ) == cache.stored_vertex_buffer
            &&& !array ==> cache.buffer(target) == cache.index_buffer && cache.stored_buffer(
                target,
            ) == cache.stored_index_buffer
        }),
{
}

/// Binding a texture changes its slot of the record alone; unbinding all empties every slot.
pub proof fn law_textures_on_record(cache: GlCacheView, slot: int, texture: GLuint)
    requires
        0 <= slot < cache.textures.len(),
    ensures
        ({
            let bound = cache.with_texture(slot, texture);
            let empty = cache.without_textures();
            &&& bound == (GlCacheView { textures: bound.textures, ..cache })
            &&& bound.textures.len() == cache.textures.len()
            &&& bound.textures[slot] == texture
            &&& forall|other: int|
                0 <= other < cache.textures.len() && other != slot ==> bound.textures[other]
                    == cache.textures[other]
            &&& empty == (GlCacheView { textures: empty.textures, ..cache })
            &&& empty.textures.len() == cache.textures.len()
            &&& forall|other: int| 0 <= other < cache.textures.len() ==> empty.textures[other] == 0
        }),
{
}

/// A pipeline that has been applied is the current one, and its settings are on record; what is
/// bound or stored stays on record as it was.
pub proof fn law_pipeline_on_record(
    cache: GlCacheView,
    pipeline: Pipeline,
    params: PipelineParams,
)
    ensures
        ({
            let after = pipeline_cache(cache, pipeline, params);
            &&& after.cur_pipeline == Some(pipeline)
            &&& after.cull_face == params.cull_face
            &&& after.color_blend == params.color_blend
            &&& after.alpha_blend == params.alpha_blend
            &&& after.stencil == params.stencil_test
            &&& after.color_write == params.color_write
            &&& after.vertex_buffer == cache.vertex_buffer
            &&& after.index_buffer == cache.index_buffer
            &&& after.stored_vertex_buffer == cache.stored_vertex_buffer
            &&& after.stored_index_buffer == cache.stored_index_buffer
            &&& after.stored_texture == cache.stored_texture
            &&& after.textures == cache.textures
            &&& after.attributes == cache.attributes
        }),
{
}

/// Bindings that have been applied are on record: sampled images, index buffer, and each slot
/// that the layout fills with its buffer. The current pipeline, its settings and what is stored
/// stay on record as they were.
pub proof fn law_bindings_on_record(
    cache: GlCacheView,
    images: Seq<ShaderImage>,
    layout: Seq<Option<VertexAttributeInternal>>,
    bindings: Bindings,
)
    requires
        cache.textures.len() == MAX_SHADERSTAGE_IMAGES,
        cache.attributes.len() == MAX_VERTEX_ATTRIBUTES,
    ensures
        ({
            let after = bindings_cache(cache, images, layout, bindings);
            &&& after == (GlCacheView {
                vertex_buffer: after.vertex_buffer,
                index_buffer: bindings.index_buffer.gl_buf,
                textures: after.textures,
                attributes: after.attributes,
                ..cache
            })
            &&& after.textures.len() == MAX_SHADERSTAGE_IMAGES
            &&& after.attributes.len() == MAX_VERTEX_ATTRIBUTES
            &&& forall|slot: int|
                0 <= slot < MAX_SHADERSTAGE_IMAGES ==> #[trigger] after.textures[slot] == if slot
                    < images.len() && images[slot].gl_loc is Some {
                    bindings.images@[slot].texture
                } else {
                    cache.textures[slot]
                }
            &&& forall|index: int|
                0 <= index < MAX_VERTEX_ATTRIBUTES && index < layout.len() && layout[index] is Some
                    ==> #[trigger] after.attributes[index] == Some(
                    CachedAttribute {
                        attribute: layout[index]->0,
                        gl_vbuf: bindings.vertex_buffers@[
                            layout[index]->0.buffer_index as int
                        ].gl_buf,
                    },
                )
            &&& forall|index: int|
                0 <= index < MAX_VERTEX_ATTRIBUTES && !(index < layout.len() && layout[index]
                    is Some) ==> #[trigger] after.attributes[index] is None
        }),
{
}

/// Slot `n` is texture unit `n`: units are numbered from the enumerant of the first one on.
pub proof fn law_units_numbered(slot: int)
    requires
        0 <= slot < MAX_SHADERSTAGE_IMAGES,
    ensures
        texture_unit(slot) == 0x84C0 + slot,
{
}

/// No call is made for what is bound already: one for a buffer that is not, none for one that is;
/// one for a texture that is bound, two for one that is not; none for an image that the program
/// does not sample, else one more than for its texture; none for a slot that is set up as wanted,
/// one to switch it off, and three to set it up, with one more where its buffer is not bound.
pub proof fn law_binds_sparingly(
    cache: GlCacheView,
    target: GLenum,
    buffer: GLuint,
    images: Seq<ShaderImage>,
    textures: Seq<Texture>,
    n: int,
    cached: Option<CachedAttribute>,
    wanted: Option<CachedAttribute>,
)
    ensures
        bind_buffer_calls(cache, target, buffer).len() == if cache.buffer(target) == buffer {
            0int
        } else {
            1
        },
        bind_texture_calls(cache, n, buffer).len() == if cache.textures[n] == buffer {
            1int
        } else {
            2
        },
        image_calls(cache, images, textures, n).len() == if images[n].gl_loc is None {
            0int
        } else if cache.textures[n] == textures[n].texture {
            2
        } else {
            3
        },
        attribute_calls(cache, n, cached, wanted).len() == if cached == wanted {
            0int
        } else if wanted is None {
            1
        } else if cache.vertex_buffer == wanted->0.gl_vbuf {
            3
        } else {
            4
        },
{
}

/// Two calls empty a slot that holds a texture, and none one that is empty.
pub proof fn law_unbinds_sparingly(textures: Seq<GLuint>, count: nat)
    ensures
        clear_texture_calls(textures, count).len() == total(
            Seq::new(
                count,
                |slot: int|
                    if textures[slot] == 0 {
                        0
                    } else {
                        2
                    },
            ),
        ),
    decreases count,
{
    if count > 0 {
        law_unbinds_sparingly(textures, (count - 1) as nat);
        lemma_total_grows(
            count,
            |slot: int|
                if textures[slot] == 0 {
                    0
                } else {
                    2
                },
        );
    }
}

/// A clear takes one call for each value and one to clear, or none at all.
pub proof fn law_clears_sparingly(
    color: Option<ColorBits>,
    depth: Option<u32>,
    stencil: Option<i32>,
)
    ensures
        clear_calls(color, depth, stencil).len() == if color is None && depth is None && stencil
            is None {
            0int
        } else {
            1 + (if color is Some {
                1int
            } else {
                0
            }) + (if depth is Some {
                1int
            } else {
                0
            }) + (if stencil is Some {
                1int
            } else {
                0
            })
        },
{
}

/// A handle names the pipeline of its number, and that pipeline its shader's number. Two contexts
/// have the same resources where all tables and the default framebuffer are the same. A context
/// is in order where every pipeline and the current handle name something that is there, alpha
/// blending does not stand alone, and the tables have their sizes.
pub proof fn law_handles(ctx: Context, other: Context, pipeline: Pipeline)
    ensures
        ctx.has_pipeline(pipeline) <==> pipeline.0 < ctx.pipelines@.len(),
        ctx.pipeline(pipeline) == ctx.pipelines@[pipeline.0 as int],
        ctx.shader_of(pipeline) == ctx.shaders@[ctx.pipelines@[
            pipeline.0 as int
        ].shader.0 as int],
        ctx.same_resources(other) <==> {
            &&& ctx.shaders == other.shaders
            &&& ctx.pipelines == other.pipelines
            &&& ctx.passes == other.passes
            &&& ctx.default_framebuffer == other.default_framebuffer
        },
        ctx.wf() <==> {
            &&& forall|p: int|
                0 <= p < ctx.pipelines@.len() ==> (#[trigger] ctx.pipelines@[p]).shader.0
                    < ctx.shaders@.len()
            &&& ctx.cache.cur_pipeline matches Some(current) ==> current.0
                < ctx.pipelines@.len()
            &&& ctx.cache.alpha_blend is Some ==> ctx.cache.color_blend is Some
            &&& ctx.cache.textures@.len() == MAX_SHADERSTAGE_IMAGES
            &&& ctx.cache.attributes@.len() == MAX_VERTEX_ATTRIBUTES
        },
{
}

/// Declarations, programs and errors say what their parts say.
pub proof fn law_values_on_record(
    meta: ShaderMeta,
    shader: ShaderInternal,
    nul: NulError,
    message: String,
)
    ensures
        meta@.images.len() == meta.images@.len(),
        forall|n: int| 0 <= n < meta.images@.len() ==> meta@.images[n] == meta.images@[n]@,
        meta@.uniforms.len() == meta.uniforms.uniforms@.len(),
        forall|n: int|
            0 <= n < meta.uniforms.uniforms@.len() ==> {
                let declared = meta.uniforms.uniforms@[n];
                &&& (#[trigger] meta@.uniforms[n]).name == declared.name@
                &&& meta@.uniforms[n].uniform_type == declared.uniform_type
                &&& meta@.uniforms[n].array_count == declared.array_count
            },
        shader@.program == shader.program,
        shader@.images == shader.images@,
        shader@.uniforms == shader.uniforms@,
        nul@.position == nul.position,
        nul@.bytes == nul.bytes@,
        ShaderError::LinkError(message)@ == (ShaderErrorView::LinkError {
            error_message: message@,
        }),
        ShaderError::FFINulError(nul)@ == (ShaderErrorView::FFINulError { nul: nul@ }),
{
}

/// A step that asks says what it asks for, in order, and one that is done says what came of it.
pub proof fn law_steps_on_record(
    compile: CompileState,
    compile_calls: Vec<BuildCall>,
    program: ProgramState,
    program_calls: Vec<BuildCall>,
    shader: ShaderInternal,
    name: GLuint,
    error: ShaderError,
    n: int,
)
    requires
        0 <= n < compile_calls@.len(),
        n < program_calls@.len(),
    ensures
        CompileStep::Ask(compile, compile_calls)@ matches CompileStepView::Ask { state, calls }
            && state == compile@ && calls.len() == compile_calls@.len() && calls[n]
            == compile_calls@[n]@,
        ProgramStep::Ask(program, program_calls)@ matches ProgramStepView::Ask { state, calls }
            && state == program@ && calls.len() == program_calls@.len() && calls[n]
            == program_calls@[n]@,
        CompileStep::Done(Ok(name))@ == (CompileStepView::Compiled { shader: name }),
        CompileStep::Done(Err(error))@ == (CompileStepView::Failed { error: error@ }),
        ProgramStep::Done(Ok(shader))@ == (ProgramStepView::Linked { shader: shader@ }),
        ProgramStep::Done(Err(error))@ == (ProgramStepView::Failed { error: error@ }),
{
}

} // verus!
