//! Laws of uniform data: how declared uniforms lie in memory, and what is read of it.
use vstd::prelude::*;

use crate::bindings::{
    lemma_uniform_word_monotone, uniform_array_call, uniform_word, uniform_words, uniforms_calls,
    uniforms_fit,
};
use crate::call::GlCall;
use crate::context::Context;
use crate::gl::{GLint, GLuint};
use crate::laws::sums::{lemma_total_grows, total};
use crate::program::{
    lemma_uniform_offset_monotone, located_shader, located_uniform, ShaderMetaView,
};
use crate::shader::ShaderUniform;
use crate::types::UniformType;

verus! {

/// Every array of the declared uniforms has a length that the driver can be told.
pub open spec fn array_counts_in_range(meta: ShaderMetaView) -> bool {
    forall|n: int|
        0 <= n < meta.uniforms.len() ==> (#[trigger] meta.uniforms[n]).array_count <= i32::MAX
}

/// The uniforms of a program lie one after the other, in the order of their declaration and
/// without gaps, from the start of the uniform data.
pub proof fn law_uniforms_consecutive(
    program: GLuint,
    meta: ShaderMetaView,
    locations: Seq<GLint>,
    n: int,
)
    requires
        meta.offsets_in_range(),
        0 <= n < meta.uniforms.len(),
    ensures
        ({
            let uniforms = located_shader(program, meta, locations).uniforms;
            let end = uniforms[n].offset + uniforms[n].size * meta.uniforms[n].array_count;
            &&& uniforms[0].offset == 0
            &&& n + 1 < uniforms.len() ==> uniforms[n + 1].offset == end
            &&& n + 1 == uniforms.len() ==> end == meta.uniform_offset(uniforms.len())
        }),
{
    let uniforms = located_shader(program, meta, locations).uniforms;
    let total = meta.uniforms.len();
    lemma_uniform_offset_monotone(meta, n as nat, total);
    lemma_uniform_offset_monotone(meta, (n + 1) as nat, total);
    assert(uniforms[0] == located_uniform(meta, locations, 0));
    assert(uniforms[n] == located_uniform(meta, locations, n));
    if n + 1 < total {
        assert(uniforms[n + 1] == located_uniform(meta, locations, n + 1));
    }
}

/// What is sent for a uniform is read from where the uniform lies: its first word is a quarter of
/// its offset in bytes.
pub proof fn law_uniform_words_match_offsets(
    program: GLuint,
    meta: ShaderMetaView,
    locations: Seq<GLint>,
    n: nat,
)
    requires
        meta.offsets_in_range(),
        array_counts_in_range(meta),
        n <= meta.uniforms.len(),
    ensures
        4 * uniform_word(located_shader(program, meta, locations).uniforms, n)
            == meta.uniform_offset(n),
        n < meta.uniforms.len() ==> 4 * uniform_word(
            located_shader(program, meta, locations).uniforms,
            n,
        ) == located_shader(program, meta, locations).uniforms[n as int].offset,
    decreases n,
{
    let uniforms = located_shader(program, meta, locations).uniforms;
    lemma_uniform_offset_monotone(meta, n, meta.uniforms.len());
    if n < meta.uniforms.len() {
        assert(uniforms[n as int] == located_uniform(meta, locations, n as int));
    }
    if n > 0 {
        law_uniform_words_match_offsets(program, meta, locations, (n - 1) as nat);
        let last = meta.uniforms[n - 1];
        assert(uniforms[n - 1] == located_uniform(meta, locations, n - 1));
        assert(last.array_count <= i32::MAX);
        let count = last.array_count as int;
        let words = last.uniform_type.bytes() as int / 4;
        assert(uniform_words(uniforms[n - 1]) == words * count);
        assert(last.uniform_type.bytes() == 4 * words);
        assert((4 * words) * count == 4 * (words * count)) by (nonlinear_arith);
    }
}

/// Data of the size that the declared uniforms take is accepted, as is any longer data, where
/// every uniform holds at least one value.
pub proof fn law_declared_uniforms_fit(
    program: GLuint,
    meta: ShaderMetaView,
    locations: Seq<GLint>,
    size: nat,
)
    requires
        meta.offsets_in_range(),
        array_counts_in_range(meta),
        forall|n: int|
            0 <= n < meta.uniforms.len() ==> (#[trigger] meta.uniforms[n]).array_count >= 1,
        size >= meta.uniform_offset(meta.uniforms.len()),
    ensures
        uniforms_fit(located_shader(program, meta, locations).uniforms, size),
{
    let uniforms = located_shader(program, meta, locations).uniforms;
    law_uniform_words_match_offsets(program, meta, locations, meta.uniforms.len());
    assert forall|n: int| 0 <= n < uniforms.len() implies uniform_word(uniforms, n as nat) + (
    #[trigger] uniforms[n]).uniform_type.bytes() / 4 <= size by {
        law_uniform_words_match_offsets(program, meta, locations, n as nat);
        lemma_uniform_offset_monotone(meta, n as nat, (n + 1) as nat);
        lemma_uniform_offset_monotone(meta, (n + 1) as nat, meta.uniforms.len());
        let declared = meta.uniforms[n];
        assert(uniforms[n] == located_uniform(meta, locations, n));
        assert(declared.uniform_type.bytes() <= declared.uniform_type.bytes()
            * declared.array_count) by (nonlinear_arith)
            requires
                declared.array_count >= 1,
                declared.uniform_type.bytes() >= 0,
        ;
    }
}

/// Words of four bytes that the uniforms below `count` take: every value of an array takes those
/// of its type.
pub open spec fn words_before(uniforms: Seq<ShaderUniform>, count: nat) -> int {
    total(
        Seq::new(
            count,
            |j: int|
                (uniforms[j].uniform_type.bytes() / 4) * (uniforms[j].array_count as usize),
        ),
    )
}

/// How many of the uniforms below `count` the program has a location for.
pub open spec fn located_before(uniforms: Seq<ShaderUniform>, count: nat) -> int {
    total(
        Seq::new(
            count,
            |j: int|
                if uniforms[j].gl_loc is Some {
                    1
                } else {
                    0
                },
        ),
    )
}

proof fn lemma_words_before(uniforms: Seq<ShaderUniform>, count: nat)
    ensures
        uniform_word(uniforms, count) == words_before(uniforms, count),
    decreases count,
{
    if count > 0 {
        lemma_words_before(uniforms, (count - 1) as nat);
        lemma_total_grows(
            count,
            |j: int|
                (uniforms[j].uniform_type.bytes() / 4) * (uniforms[j].array_count as usize),
        );
    }
}

proof fn lemma_located_before(uniforms: Seq<ShaderUniform>, a: nat, b: nat)
    requires
        a <= b,
    ensures
        0 <= located_before(uniforms, a) <= located_before(uniforms, b),
        a < b && uniforms[a as int].gl_loc is Some ==> located_before(uniforms, a)
            < located_before(uniforms, b),
    decreases b,
{
    if b > 0 {
        lemma_total_grows(
            b,
            |j: int|
                if uniforms[j].gl_loc is Some {
                    1
                } else {
                    0
                },
        );
        if a < b {
            lemma_located_before(uniforms, a, (b - 1) as nat);
        } else {
            lemma_located_before(uniforms, (a - 1) as nat, (b - 1) as nat);
        }
    }
}

proof fn lemma_uniform_call(uniforms: Seq<ShaderUniform>, count: nat, n: int)
    requires
        0 <= n < count,
    ensures
        uniforms_calls(uniforms, count).len() == located_before(uniforms, count),
        0 <= located_before(uniforms, n as nat),
        uniforms[n].gl_loc matches Some(location) ==> {
            &&& located_before(uniforms, n as nat) < located_before(uniforms, count)
            &&& uniforms_calls(uniforms, count)[located_before(uniforms, n as nat)]
                == uniform_array_call(
                uniforms[n].uniform_type,
                location,
                uniforms[n].array_count,
                words_before(uniforms, n as nat) as usize,
            )
        },
    decreases count,
{
    let last = (count - 1) as nat;
    lemma_total_grows(
        count,
        |j: int|
            if uniforms[j].gl_loc is Some {
                1
            } else {
                0
            },
    );
    lemma_located_before(uniforms, n as nat, count);
    lemma_words_before(uniforms, last);
    if last > 0 {
        let m = if n < last {
            n
        } else {
            last - 1
        };
        lemma_uniform_call(uniforms, last, m);
        if n < last {
            lemma_located_before(uniforms, n as nat, last);
        }
    } else {
        assert(uniforms_calls(uniforms, 0).len() == 0);
        assert(located_before(uniforms, 0) == 0);
    }
}

/// Every uniform that the program has a location for, whichever that is, is sent by exactly one
/// call, in the order of the uniforms: the array call of its type, to its location, with all its
/// values, read from behind the data of the uniforms before it. No other call is made.
pub proof fn law_each_uniform_sent(uniforms: Seq<ShaderUniform>, n: int)
    requires
        words_before(uniforms, uniforms.len()) <= usize::MAX,
        0 <= n < uniforms.len(),
    ensures
        uniforms_calls(uniforms, uniforms.len()).len() == located_before(
            uniforms,
            uniforms.len(),
        ),
        uniforms[n].gl_loc matches Some(location) ==> {
            let place = located_before(uniforms, n as nat);
            let count = uniforms[n].array_count;
            let start = words_before(uniforms, n as nat);
            let word = start as usize;
            &&& 0 <= place < uniforms_calls(uniforms, uniforms.len()).len()
            &&& word == start
            &&& uniforms_calls(uniforms, uniforms.len())[place] == match uniforms[n].uniform_type {
                UniformType::Float1 => GlCall::Uniform1fv { location, count, word },
                UniformType::Float2 => GlCall::Uniform2fv { location, count, word },
                UniformType::Float3 => GlCall::Uniform3fv { location, count, word },
                UniformType::Float4 => GlCall::Uniform4fv { location, count, word },
                UniformType::Int1 => GlCall::Uniform1iv { location, count, word },
                UniformType::Int2 => GlCall::Uniform2iv { location, count, word },
                UniformType::Int3 => GlCall::Uniform3iv { location, count, word },
                UniformType::Int4 => GlCall::Uniform4iv { location, count, word },
                UniformType::Mat4 => GlCall::UniformMatrix4fv {
                    location,
                    count,
                    transpose: 0,
                    word,
                },
            }
        },
{
    lemma_uniform_call(uniforms, uniforms.len(), n);
    lemma_words_before(uniforms, n as nat);
    lemma_words_before(uniforms, uniforms.len());
    lemma_uniform_word_monotone(uniforms, n as nat, uniforms.len());
}

/// Two uniforms with locations are sent by two calls, the earlier one first; without uniforms
/// there are no calls.
pub proof fn law_uniforms_in_order(uniforms: Seq<ShaderUniform>, a: int, b: int)
    requires
        0 <= a < b < uniforms.len(),
        uniforms[a].gl_loc is Some,
        uniforms[b].gl_loc is Some,
    ensures
        located_before(uniforms, a as nat) < located_before(uniforms, b as nat),
        uniforms_calls(seq![], 0).len() == 0,
{
    lemma_located_before(uniforms, a as nat, b as nat);
}

/// Uniform data fits exactly where, for every uniform, the words before it and the words of one
/// of its values come to no more than the number of bytes of the data, and all words together
/// can be counted.
pub proof fn law_which_uniforms_fit<U>(ctx: Context)
    ensures
        ctx.uniforms_match::<U>() <==> {
            &&& ctx.cache.cur_pipeline matches Some(current)
            &&& {
                let pipeline = ctx.pipelines@[current.0 as int];
                let uniforms = ctx.shaders@[pipeline.shader.0 as int].uniforms@;
                &&& words_before(uniforms, uniforms.len()) <= usize::MAX
                &&& forall|n: int|
                    0 <= n < uniforms.len() ==> words_before(uniforms, n as nat) + (
                    #[trigger] uniforms[n]).uniform_type.bytes() / 4
                        <= vstd::layout::size_of::<U>()
            }
        },
{
    if let Some(current) = ctx.cache.cur_pipeline {
        let pipeline = ctx.pipelines@[current.0 as int];
        let uniforms = ctx.shaders@[pipeline.shader.0 as int].uniforms@;
        lemma_words_before(uniforms, uniforms.len());
        assert forall|n: int| 0 <= n < uniforms.len() implies uniform_word(uniforms, n as nat) + (
        #[trigger] uniforms[n]).uniform_type.bytes() / 4 == words_before(uniforms, n as nat)
            + uniforms[n].uniform_type.bytes() / 4 by {
            lemma_words_before(uniforms, n as nat);
        }
    }
}

} // verus!
