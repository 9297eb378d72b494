//! Feeding a draw call: textures, buffers, vertex attributes and uniforms.
use vstd::prelude::*;

use crate::buffer::Buffer;
use crate::cache::{
    bind_buffer_calls, bind_texture_calls, CachedAttribute, GlCacheView, VertexAttributeInternal,
};
use crate::call::GlCall;
use crate::context::Context;
use crate::gl::{GLint, GLuint, GL_ARRAY_BUFFER, GL_ELEMENT_ARRAY_BUFFER, GL_FALSE};
use crate::shader::{ShaderImage, ShaderUniform};
use crate::types::{
    Bindings, Texture, UniformType, MAX_SHADERSTAGE_IMAGES, MAX_VERTEX_ATTRIBUTES,
};

verus! {

/// There is a texture for every image of the shader, and those that the program samples fit the
/// texture slots.
pub open spec fn images_fit(images: Seq<ShaderImage>, textures: Seq<Texture>) -> bool {
    &&& images.len() <= textures.len()
    &&& forall|n: int|
        0 <= n < images.len() && (#[trigger] images[n]).gl_loc is Some ==> n
            < MAX_SHADERSTAGE_IMAGES
}

/// The calls for image `n`: none if the program does not sample it.
pub open spec fn image_calls(
    cache: GlCacheView,
    images: Seq<ShaderImage>,
    textures: Seq<Texture>,
    n: int,
) -> Seq<GlCall> {
    match images[n].gl_loc {
        Some(location) => bind_texture_calls(cache, n, textures[n].texture).push(
            GlCall::Uniform1i { location, value: n as i32 },
        ),
        None => seq![],
    }
}

/// The calls for the images below `count`, in order.
pub open spec fn images_calls(
    cache: GlCacheView,
    images: Seq<ShaderImage>,
    textures: Seq<Texture>,
    count: nat,
) -> Seq<GlCall>
    decreases count,
{
    if count == 0 {
        seq![]
    } else {
        images_calls(cache, images, textures, (count - 1) as nat) + image_calls(
            cache,
            images,
            textures,
            count - 1,
        )
    }
}

/// The texture slots after the images below `count` have been bound: each sampled image sits in
/// the slot of its number.
pub open spec fn bound_textures(
    slots: Seq<GLuint>,
    images: Seq<ShaderImage>,
    textures: Seq<Texture>,
    count: int,
) -> Seq<GLuint> {
    Seq::new(
        slots.len(),
        |slot: int|
            if slot < count && images[slot].gl_loc is Some {
                textures[slot].texture
            } else {
                slots[slot]
            },
    )
}

/// Every attribute slot in use names a vertex buffer that is there.
pub open spec fn attributes_fit(
    layout: Seq<Option<VertexAttributeInternal>>,
    buffers: Seq<Buffer>,
) -> bool {
    forall|i: int|
        0 <= i < layout.len() && i < MAX_VERTEX_ATTRIBUTES ==> ((#[trigger] layout[i]) matches Some(
            attribute,
        ) ==> attribute.buffer_index < buffers.len())
}

/// What slot `index` is to be fed with: nothing where the layout leaves it free.
pub open spec fn wanted_attribute(
    layout: Seq<Option<VertexAttributeInternal>>,
    buffers: Seq<Buffer>,
    index: int,
) -> Option<CachedAttribute> {
    if index < layout.len() {
        match layout[index] {
            Some(attribute) => Some(
                CachedAttribute {
                    attribute,
                    gl_vbuf: buffers[attribute.buffer_index as int].gl_buf,
                },
            ),
            None => None,
        }
    } else {
        None
    }
}

/// The calls that set up slot `index` to read the bound vertex buffer.
pub open spec fn enable_attribute_calls(
    index: int,
    attribute: VertexAttributeInternal,
) -> Seq<GlCall> {
    seq![
        GlCall::VertexAttribPointer {
            index: index as GLuint,
            components: attribute.size,
            type_: attribute.type_,
            normalized: GL_FALSE,
            stride: attribute.stride,
            pointer: attribute.offset,
        },
        GlCall::VertexAttribDivisor {
            index: index as GLuint,
            divisor: attribute.divisor as u32,
        },
        GlCall::EnableVertexAttribArray { index: index as GLuint },
    ]
}

/// The calls that bring slot `index` from `cached` to `wanted`, with `cache` telling which
/// vertex buffer is bound.
pub open spec fn attribute_calls(
    cache: GlCacheView,
    index: int,
    cached: Option<CachedAttribute>,
    wanted: Option<CachedAttribute>,
) -> Seq<GlCall> {
    if cached == wanted {
        seq![]
    } else {
        match wanted {
            Some(wanted) => bind_buffer_calls(cache, GL_ARRAY_BUFFER, wanted.gl_vbuf)
                + enable_attribute_calls(index, wanted.attribute),
            None => seq![GlCall::DisableVertexAttribArray { index: index as GLuint }],
        }
    }
}

/// The vertex buffer that is bound after the slots below `count` have been set up: that of the
/// last slot that had to change.
pub open spec fn attributes_vertex_buffer(
    cache: GlCacheView,
    layout: Seq<Option<VertexAttributeInternal>>,
    buffers: Seq<Buffer>,
    count: nat,
) -> GLuint
    decreases count,
{
    if count == 0 {
        cache.vertex_buffer
    } else {
        let wanted = wanted_attribute(layout, buffers, count - 1);
        if wanted is Some && cache.attributes[count - 1] != wanted {
            wanted->0.gl_vbuf
        } else {
            attributes_vertex_buffer(cache, layout, buffers, (count - 1) as nat)
        }
    }
}

/// The cache after the slots below `count` have been set up.
pub open spec fn attributes_cache(
    cache: GlCacheView,
    layout: Seq<Option<VertexAttributeInternal>>,
    buffers: Seq<Buffer>,
    count: nat,
) -> GlCacheView {
    GlCacheView {
        vertex_buffer: attributes_vertex_buffer(cache, layout, buffers, count),
        attributes: Seq::new(
            cache.attributes.len(),
            |i: int|
                if i < count {
                    wanted_attribute(layout, buffers, i)
                } else {
                    cache.attributes[i]
                },
        ),
        ..cache
    }
}

/// The calls that set up the slots below `count`, in order.
pub open spec fn attributes_calls(
    cache: GlCacheView,
    layout: Seq<Option<VertexAttributeInternal>>,
    buffers: Seq<Buffer>,
    count: nat,
) -> Seq<GlCall>
    decreases count,
{
    if count == 0 {
        seq![]
    } else {
        let before = (count - 1) as nat;
        attributes_calls(cache, layout, buffers, before) + attribute_calls(
            attributes_cache(cache, layout, buffers, before),
            count - 1,
            cache.attributes[count - 1],
            wanted_attribute(layout, buffers, count - 1),
        )
    }
}

/// The cache after the textures and the index buffer have been bound.
pub open spec fn images_cache(
    cache: GlCacheView,
    images: Seq<ShaderImage>,
    textures: Seq<Texture>,
    index_buffer: Buffer,
) -> GlCacheView {
    GlCacheView {
        textures: bound_textures(cache.textures, images, textures, images.len() as int),
        index_buffer: index_buffer.gl_buf,
        ..cache
    }
}

/// The cache after bindings have been applied.
pub open spec fn bindings_cache(
    cache: GlCacheView,
    images: Seq<ShaderImage>,
    layout: Seq<Option<VertexAttributeInternal>>,
    bindings: Bindings,
) -> GlCacheView {
    attributes_cache(
        images_cache(cache, images, bindings.images@, bindings.index_buffer),
        layout,
        bindings.vertex_buffers@,
        MAX_VERTEX_ATTRIBUTES as nat,
    )
}

/// The calls that apply bindings: textures, then the index buffer, then the vertex attributes.
pub open spec fn bindings_calls(
    cache: GlCacheView,
    images: Seq<ShaderImage>,
    layout: Seq<Option<VertexAttributeInternal>>,
    bindings: Bindings,
) -> Seq<GlCall> {
    images_calls(cache, images, bindings.images@, images.len()) + bind_buffer_calls(
        cache,
        GL_ELEMENT_ARRAY_BUFFER,
        bindings.index_buffer.gl_buf,
    ) + attributes_calls(
        images_cache(cache, images, bindings.images@, bindings.index_buffer),
        layout,
        bindings.vertex_buffers@,
        MAX_VERTEX_ATTRIBUTES as nat,
    )
}

/// Where the data of uniform `count` begins, in words of four bytes: the uniforms before it lie
/// one after the other.
pub open spec fn uniform_word(uniforms: Seq<ShaderUniform>, count: nat) -> int
    decreases count,
{
    if count == 0 {
        0
    } else {
        uniform_word(uniforms, (count - 1) as nat) + uniform_words(uniforms[count - 1])
    }
}

/// How many words the data of a uniform takes.
pub open spec fn uniform_words(uniform: ShaderUniform) -> int {
    (uniform.uniform_type.bytes() / 4) * (uniform.array_count as usize)
}

/// Uniform data of `size` bytes goes with the given uniforms. The test is a lenient one: it holds
/// the number of words up to the end of each uniform's first value against the number of bytes.
pub open spec fn uniforms_fit(uniforms: Seq<ShaderUniform>, size: nat) -> bool {
    &&& uniform_word(uniforms, uniforms.len()) <= usize::MAX
    &&& forall|n: int|
        0 <= n < uniforms.len() ==> uniform_word(uniforms, n as nat) + (
        #[trigger] uniforms[n]).uniform_type.bytes() / 4 <= size
}

/// The call that sends a uniform array of the given type.
pub open spec fn uniform_array_call(
    uniform_type: UniformType,
    location: GLint,
    count: i32,
    word: usize,
) -> GlCall {
    match uniform_type {
        UniformType::Float1 => GlCall::Uniform1fv { location, count, word },
        UniformType::Float2 => GlCall::Uniform2fv { location, count, word },
        UniformType::Float3 => GlCall::Uniform3fv { location, count, word },
        UniformType::Float4 => GlCall::Uniform4fv { location, count, word },
        UniformType::Int1 => GlCall::Uniform1iv { location, count, word },
        UniformType::Int2 => GlCall::Uniform2iv { location, count, word },
        UniformType::Int3 => GlCall::Uniform3iv { location, count, word },
        UniformType::Int4 => GlCall::Uniform4iv { location, count, word },
        UniformType::Mat4 => GlCall::UniformMatrix4fv { location, count, transpose: 0, word },
    }
}

/// The calls that send the uniforms below `count`: one for each that the program uses.
pub open spec fn uniforms_calls(uniforms: Seq<ShaderUniform>, count: nat) -> Seq<GlCall>
    decreases count,
{
    if count == 0 {
        seq![]
    } else {
        let before = uniforms_calls(uniforms, (count - 1) as nat);
        let uniform = uniforms[count - 1];
        match uniform.gl_loc {
            Some(location) => before.push(
                uniform_array_call(
                    uniform.uniform_type,
                    location,
                    uniform.array_count,
                    uniform_word(uniforms, (count - 1) as nat) as usize,
                ),
            ),
            None => before,
        }
    }
}

/// Uniforms only add to the words.
pub proof fn lemma_uniform_word_monotone(uniforms: Seq<ShaderUniform>, a: nat, b: nat)
    requires
        a <= b,
    ensures
        uniform_word(uniforms, a) <= uniform_word(uniforms, b),
        0 <= uniform_word(uniforms, a),
    decreases b,
{
    if b > 0 {
        let last = uniforms[b - 1];
        assert(0 <= uniform_words(last)) by (nonlinear_arith)
            requires
                uniform_words(last) == (last.uniform_type.bytes() / 4) * (last.array_count as usize),
        ;
        if a < b {
            lemma_uniform_word_monotone(uniforms, a, (b - 1) as nat);
        } else {
            lemma_uniform_word_monotone(uniforms, (a - 1) as nat, (b - 1) as nat);
        }
    }
}

/// Tells whether uniform data of `size` bytes goes with the given uniforms.
fn uniforms_are_fit(list: &Vec<ShaderUniform>, size: usize) -> (fit: bool)
    ensures
        fit == uniforms_fit(list@, size as nat),
{
    let mut offset: usize = 0;
    for n in 0..list.len()
        invariant
            offset == uniform_word(list@, n as nat),
            forall|m: int|
                0 <= m < n ==> uniform_word(list@, m as nat) + (
                #[trigger] list@[m]).uniform_type.bytes() / 4 <= size,
    {
        let uniform = list[n];
        let words = uniform.uniform_type.size() / 4;
        if words > size || offset > size - words {
            assert(list@[n as int] == uniform);
            return false;
        }
        let ghost taken = uniform_words(uniform);
        proof {
            lemma_uniform_word_monotone(list@, (n + 1) as nat, list@.len());
            assert(uniform_word(list@, (n + 1) as nat) == offset + taken);
        }
        match words.checked_mul(uniform.array_count as usize) {
            Some(taken) => match offset.checked_add(taken) {
                Some(next) => {
                    offset = next;
                },
                None => {
                    return false;
                },
            },
            None => {
                return false;
            },
        }
    }
    true
}

/// The call that sends a uniform array of the given type.
fn uniform_array(
    uniform_type: UniformType,
    location: GLint,
    count: i32,
    word: usize,
) -> (call: GlCall)
    ensures
        call == uniform_array_call(uniform_type, location, count, word),
{
    match uniform_type {
        UniformType::Float1 => GlCall::Uniform1fv { location, count, word },
        UniformType::Float2 => GlCall::Uniform2fv { location, count, word },
        UniformType::Float3 => GlCall::Uniform3fv { location, count, word },
        UniformType::Float4 => GlCall::Uniform4fv { location, count, word },
        UniformType::Int1 => GlCall::Uniform1iv { location, count, word },
        UniformType::Int2 => GlCall::Uniform2iv { location, count, word },
        UniformType::Int3 => GlCall::Uniform3iv { location, count, word },
        UniformType::Int4 => GlCall::Uniform4iv { location, count, word },
        UniformType::Mat4 => GlCall::UniformMatrix4fv { location, count, transpose: 0, word },
    }
}

impl Context {
    /// Bindings that the current pipeline can draw with.
    pub open spec fn bindings_fit(self, bindings: Bindings) -> bool {
        &&& self.cache.cur_pipeline is Some
        &&& images_fit(
            self.shader_of(self.cache.cur_pipeline->0).images@,
            bindings.images@,
        )
        &&& attributes_fit(
            self.pipeline(self.cache.cur_pipeline->0).layout@,
            bindings.vertex_buffers@,
        )
    }

    /// Tells whether the current pipeline can draw with `bindings`.
    #[verifier::loop_isolation(false)]
    pub fn bindings_are_valid(&self, bindings: &Bindings) -> (valid: bool)
        requires
            self.wf(),
        ensures
            valid == self.bindings_fit(*bindings),
    {
        let pipeline = match self.cache.cur_pipeline {
            Some(pipeline) => pipeline,
            None => {
                return false;
            },
        };
        let layout = &self.pipelines[pipeline.0].layout;
        let images = &self.shaders[self.pipelines[pipeline.0].shader.0].images;
        if images.len() > bindings.images.len() {
            return false;
        }
        for n in 0..images.len()
            invariant
                forall|m: int|
                    0 <= m < n && (#[trigger] images@[m]).gl_loc is Some ==> m
                        < MAX_SHADERSTAGE_IMAGES,
        {
            if images[n].gl_loc.is_some() && n >= MAX_SHADERSTAGE_IMAGES {
                return false;
            }
        }
        for i in 0..layout.len()
            invariant
                forall|j: int|
                    0 <= j < i && j < MAX_VERTEX_ATTRIBUTES ==> ((
                    #[trigger] layout@[j]) matches Some(attribute) ==> attribute.buffer_index
                        < bindings.vertex_buffers@.len()),
        {
            if i < MAX_VERTEX_ATTRIBUTES {
                if let Some(attribute) = layout[i] {
                    if attribute.buffer_index >= bindings.vertex_buffers.len() {
                        return false;
                    }
                }
            }
        }
        true
    }

    /// Binds what the current pipeline reads: textures, indices, vertex data.
    pub fn apply_bindings(&mut self, bindings: &Bindings, calls: &mut Vec<GlCall>)
        requires
            old(self).wf(),
            old(self).bindings_fit(*bindings),
        ensures
            final(self).wf(),
            final(self).same_resources(*old(self)),
            final(self).cache@ == bindings_cache(
                old(self).cache@,
                old(self).shader_of(old(self).cache.cur_pipeline->0).images@,
                old(self).pipeline(old(self).cache.cur_pipeline->0).layout@,
                *bindings,
            ),
            final(calls)@ == old(calls)@ + bindings_calls(
                old(self).cache@,
                old(self).shader_of(old(self).cache.cur_pipeline->0).images@,
                old(self).pipeline(old(self).cache.cur_pipeline->0).layout@,
                *bindings,
            ),
    {
        let ghost cache = self.cache@;
        let ghost issued = calls@;
        let pipeline = self.cache.cur_pipeline.unwrap();
        let ghost images = self.shader_of(pipeline).images@;
        let ghost layout = self.pipeline(pipeline).layout@;
        self.bind_images(bindings, calls);
        self.cache.bind_buffer(GL_ELEMENT_ARRAY_BUFFER, bindings.index_buffer.gl_buf, calls);
        let ghost between = images_cache(cache, images, bindings.images@, bindings.index_buffer);
        assert(self.cache@ =~= between);
        self.bind_attributes(bindings, calls);
        assert(calls@ =~= issued + bindings_calls(cache, images, layout, *bindings));
    }

    /// Binds the textures that the current shader samples.
    fn bind_images(&mut self, bindings: &Bindings, calls: &mut Vec<GlCall>)
        requires
            old(self).wf(),
            old(self).bindings_fit(*bindings),
        ensures
            final(self).wf(),
            final(self).same_resources(*old(self)),
            final(self).cache@ == (GlCacheView {
                textures: bound_textures(
                    old(self).cache@.textures,
                    old(self).shader_of(old(self).cache.cur_pipeline->0).images@,
                    bindings.images@,
                    old(self).shader_of(old(self).cache.cur_pipeline->0).images@.len() as int,
                ),
                ..old(self).cache@
            }),
            final(calls)@ == old(calls)@ + images_calls(
                old(self).cache@,
                old(self).shader_of(old(self).cache.cur_pipeline->0).images@,
                bindings.images@,
                old(self).shader_of(old(self).cache.cur_pipeline->0).images@.len(),
            ),
    {
        let ghost cache = self.cache@;
        let ghost issued = calls@;
        let pipeline = self.cache.cur_pipeline.unwrap();
        let shader = self.pipelines[pipeline.0].shader;
        let ghost images = self.shaders@[shader.0 as int].images@;
        let ghost textures = bindings.images@;
        let count = self.shaders[shader.0].images.len();
        assert(cache.textures =~= bound_textures(cache.textures, images, textures, 0));
        for n in 0..count
            invariant
                shader.0 < self.shaders@.len(),
                images == self.shaders@[shader.0 as int].images@,
                count == images.len(),
                textures == bindings.images@,
                images_fit(images, textures),
                cache.textures.len() == MAX_SHADERSTAGE_IMAGES,
                self.same_resources(*old(self)),
                self.cache@ == (GlCacheView {
                    textures: bound_textures(cache.textures, images, textures, n as int),
                    ..cache
                }),
                calls@ == issued + images_calls(cache, images, textures, n as nat),
        {
            if let Some(gl_loc) = self.shaders[shader.0].images[n].gl_loc {
                assert(images[n as int].gl_loc is Some);
                self.cache.bind_texture(n, bindings.images[n].texture, calls);
                calls.push(GlCall::Uniform1i { location: gl_loc, value: n as i32 });
            }
            assert(self.cache@.textures =~= bound_textures(
                cache.textures,
                images,
                textures,
                n + 1,
            ));
            assert(calls@ =~= issued + images_calls(cache, images, textures, (n + 1) as nat));
        }
    }

    /// Sets up the vertex attribute slots for the current pipeline.
    fn bind_attributes(&mut self, bindings: &Bindings, calls: &mut Vec<GlCall>)
        requires
            old(self).wf(),
            old(self).bindings_fit(*bindings),
        ensures
            final(self).wf(),
            final(self).same_resources(*old(self)),
            final(self).cache@ == attributes_cache(
                old(self).cache@,
                old(self).pipeline(old(self).cache.cur_pipeline->0).layout@,
                bindings.vertex_buffers@,
                MAX_VERTEX_ATTRIBUTES as nat,
            ),
            final(calls)@ == old(calls)@ + attributes_calls(
                old(self).cache@,
                old(self).pipeline(old(self).cache.cur_pipeline->0).layout@,
                bindings.vertex_buffers@,
                MAX_VERTEX_ATTRIBUTES as nat,
            ),
    {
        let ghost cache = self.cache@;
        let ghost issued = calls@;
        let pipeline = self.cache.cur_pipeline.unwrap();
        let ghost layout = self.pipeline(pipeline).layout@;
        let ghost buffers = bindings.vertex_buffers@;
        assert(cache.attributes =~= attributes_cache(cache, layout, buffers, 0).attributes);
        for attr_index in 0..MAX_VERTEX_ATTRIBUTES
            invariant
                pipeline.0 < self.pipelines@.len(),
                layout == self.pipelines@[pipeline.0 as int].layout@,
                buffers == bindings.vertex_buffers@,
                attributes_fit(layout, buffers),
                cache.attributes.len() == MAX_VERTEX_ATTRIBUTES,
                self.same_resources(*old(self)),
                self.cache@ == attributes_cache(cache, layout, buffers, attr_index as nat),
                calls@ == issued + attributes_calls(cache, layout, buffers, attr_index as nat),
        {
            let ghost before = calls@;
            let ghost wanted = wanted_attribute(layout, buffers, attr_index as int);
            let cached_attr = self.cache.attributes[attr_index];
            assert(cached_attr == cache.attributes[attr_index as int]);
            let mut pip_attribute: Option<VertexAttributeInternal> = None;
            if attr_index < self.pipelines[pipeline.0].layout.len() {
                pip_attribute = self.pipelines[pipeline.0].layout[attr_index];
            }
            if let Some(attribute) = pip_attribute {
                assert(layout[attr_index as int] is Some);
                let vb = bindings.vertex_buffers[attribute.buffer_index];
                let wanted_attr = CachedAttribute { attribute, gl_vbuf: vb.gl_buf };
                let changed = match cached_attr {
                    Some(cached) => attribute != cached.attribute || cached.gl_vbuf != vb.gl_buf,
                    None => true,
                };
                if changed {
                    self.cache.bind_buffer(GL_ARRAY_BUFFER, vb.gl_buf, calls);
                    calls.push(
                        GlCall::VertexAttribPointer {
                            index: attr_index as GLuint,
                            components: attribute.size,
                            type_: attribute.type_,
                            normalized: GL_FALSE,
                            stride: attribute.stride,
                            pointer: attribute.offset,
                        },
                    );
                    calls.push(
                        GlCall::VertexAttribDivisor {
                            index: attr_index as GLuint,
                            divisor: attribute.divisor as u32,
                        },
                    );
                    calls.push(GlCall::EnableVertexAttribArray { index: attr_index as GLuint });
                    self.cache.attributes[attr_index] = Some(wanted_attr);
                }
            } else {
                if cached_attr.is_some() {
                    calls.push(GlCall::DisableVertexAttribArray { index: attr_index as GLuint });
                    self.cache.attributes[attr_index] = None;
                }
            }
            assert(calls@ =~= before + attribute_calls(
                attributes_cache(cache, layout, buffers, attr_index as nat),
                attr_index as int,
                cached_attr,
                wanted,
            ));
            assert(self.cache@.attributes =~= attributes_cache(
                cache,
                layout,
                buffers,
                (attr_index + 1) as nat,
            ).attributes);
            assert(self.cache@ =~= attributes_cache(
                cache,
                layout,
                buffers,
                (attr_index + 1) as nat,
            ));
            assert(calls@ =~= issued + attributes_calls(
                cache,
                layout,
                buffers,
                (attr_index + 1) as nat,
            ));
        }
    }

    /// Uniform data of type `U` goes with the current shader.
    pub open spec fn uniforms_match<U>(self) -> bool {
        &&& self.cache.cur_pipeline is Some
        &&& uniforms_fit(
            self.shader_of(self.cache.cur_pipeline->0).uniforms@,
            vstd::layout::size_of::<U>(),
        )
    }

    /// Tells whether uniform data of type `U` goes with the current shader.
    pub fn uniforms_are_valid<U>(&self) -> (valid: bool)
        requires
            self.wf(),
        ensures
            valid == self.uniforms_match::<U>(),
    {
        match self.cache.cur_pipeline {
            Some(pipeline) => {
                let shader = self.pipelines[pipeline.0].shader;
                uniforms_are_fit(&self.shaders[shader.0].uniforms, core::mem::size_of::<U>())
            },
            None => false,
        }
    }

    /// Sends the uniforms of the current shader; `uniforms` is laid out as the shader's uniform
    /// block says.
    pub fn apply_uniforms<U>(&mut self, uniforms: &U, calls: &mut Vec<GlCall>)
        requires
            old(self).wf(),
            old(self).uniforms_match::<U>(),
        ensures
            *final(self) == *old(self),
            final(calls)@ == old(calls)@ + uniforms_calls(
                old(self).shader_of(old(self).cache.cur_pipeline->0).uniforms@,
                old(self).shader_of(old(self).cache.cur_pipeline->0).uniforms@.len(),
            ),
    {
        let ghost issued = calls@;
        let pipeline = self.cache.cur_pipeline.unwrap();
        let shader = self.pipelines[pipeline.0].shader;
        let list = &self.shaders[shader.0].uniforms;
        let mut offset: usize = 0;
        for n in 0..list.len()
            invariant
                uniform_word(list@, list@.len()) <= usize::MAX,
                offset == uniform_word(list@, n as nat),
                calls@ == issued + uniforms_calls(list@, n as nat),
        {
            let uniform = list[n];
            if let Some(gl_loc) = uniform.gl_loc {
                calls.push(
                    uniform_array(uniform.uniform_type, gl_loc, uniform.array_count, offset),
                );
            }
            proof {
                lemma_uniform_word_monotone(list@, n as nat, (n + 1) as nat);
                lemma_uniform_word_monotone(list@, (n + 1) as nat, list@.len());
            }
            offset += uniform.uniform_type.size() / 4 * uniform.array_count as usize;
        }
    }
}

} // verus!
