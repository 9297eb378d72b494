//! What is asked of the driver while shaders and programs are made, and what becomes of its
//! answers, said of the caller's sources and declarations.
use vstd::prelude::*;
use vstd::utf8::encode_utf8;

use crate::gl::{
    GLenum, GLint, GLuint, GL_COMPILE_STATUS, GL_FRAGMENT_SHADER, GL_INFO_LOG_LENGTH,
    GL_LINK_STATUS, GL_VERTEX_SHADER,
};
use crate::laws::building::{
    compile_after, compiled_answers, law_both_compiled, lemma_program_push,
    program_after,
};
use crate::laws::sums::{lemma_total_grows, total};
use crate::laws::values::law_nul_is_a_character;
use crate::program::{
    lemma_uniform_offset_monotone, located_shader, located_uniform, program_accepts,
    program_start, ProgramStateView, ProgramStepView, ShaderMetaView,
};
use crate::shader::{
    compilation_failed, compile_accepts, compile_next, AnswerView, BuildCallView, CompileStateView,
    CompileStepView, ShaderErrorView,
};
use crate::text::{has_nul, is_first_nul, log_text, nul_error, utf8_lossy};
use crate::types::ShaderType;

verus! {

/// The calls that hand a source to the compiler and ask how it went.
pub open spec fn compiles(
    calls: Seq<BuildCallView>,
    shader: GLuint,
    source: Seq<char>,
) -> bool {
    &&& calls.len() == 3
    &&& calls[0] == (BuildCallView::ShaderSource { shader, source })
    &&& calls[1] == (BuildCallView::CompileShader { shader })
    &&& calls[2] == (BuildCallView::GetShaderiv { shader, pname: GL_COMPILE_STATUS })
}

proof fn lemma_compile_push(
    state: CompileStateView,
    answers: Seq<AnswerView>,
    answer: AnswerView,
)
    ensures
        compile_after(state, answers.push(answer)) == match compile_after(state, answers) {
            CompileStepView::Ask { state, .. } => compile_next(state, answer),
            end => end,
        },
{
    assert(answers.push(answer).drop_last() =~= answers);
}

/// A source without a zero character is handed to the compiler as it is, under the name that the
/// driver gave; a failure is followed by a question for the length of the log, and then for a log
/// of that length.
pub proof fn law_source_compiled(
    shader_type: GLenum,
    source: Seq<char>,
    shader: GLuint,
    max_length: i32,
)
    requires
        !source.contains('\0'),
    ensures
        ({
            let start = CompileStateView::Creating { shader_type, source };
            let named = seq![AnswerView::Name { name: shader }];
            let failed = named.push(AnswerView::Value { value: 0 });
            let measured = failed.push(AnswerView::Value { value: max_length });
            &&& compile_after(start, named) matches CompileStepView::Ask { calls, .. } && compiles(
                calls,
                shader,
                source,
            )
            &&& compile_after(start, failed) matches CompileStepView::Ask { calls, .. } && calls
                == seq![BuildCallView::GetShaderiv { shader, pname: GL_INFO_LOG_LENGTH }]
            &&& compile_after(start, measured) matches CompileStepView::Ask { calls, .. } && calls
                == seq![BuildCallView::GetShaderInfoLog { shader, max_length }]
        }),
{
    let start = CompileStateView::Creating { shader_type, source };
    let none = Seq::<AnswerView>::empty();
    let named = seq![AnswerView::Name { name: shader }];
    let failed = named.push(AnswerView::Value { value: 0 });
    law_nul_is_a_character(source);
    lemma_compile_push(start, none, AnswerView::Name { name: shader });
    assert(none.push(AnswerView::Name { name: shader }) =~= named);
    lemma_compile_push(start, named, AnswerView::Value { value: 0 });
    lemma_compile_push(start, failed, AnswerView::Value { value: max_length });
}

/// A source with a zero character is refused with the bytes of the source and the place of the
/// first zero byte among them.
pub proof fn law_nul_error_tells_where(shader_type: GLenum, source: Seq<char>, shader: GLuint)
    requires
        source.contains('\0'),
    ensures
        compile_after(
            CompileStateView::Creating { shader_type, source },
            seq![AnswerView::Name { name: shader }],
        ) matches CompileStepView::Failed { error } && error matches ShaderErrorView::FFINulError {
            nul,
        } && {
            &&& nul.bytes == encode_utf8(source)
            &&& 0 <= nul.position < nul.bytes.len()
            &&& nul.bytes[nul.position] == 0
            &&& forall|i: int| 0 <= i < nul.position ==> nul.bytes[i] != 0
        },
{
    let start = CompileStateView::Creating { shader_type, source };
    let none = Seq::<AnswerView>::empty();
    law_nul_is_a_character(source);
    lemma_compile_push(start, none, AnswerView::Name { name: shader });
    assert(none.push(AnswerView::Name { name: shader }) =~= seq![
        AnswerView::Name { name: shader },
    ]);
    lemma_first_nul(source, encode_utf8(source).len() as int);
    assert(is_first_nul(source, nul_error(source).position));
}

/// A string with a zero byte before `end` has a first one.
proof fn lemma_first_nul(text: Seq<char>, end: int)
    requires
        0 <= end <= encode_utf8(text).len(),
        exists|i: int| 0 <= i < end && encode_utf8(text)[i] == 0,
    ensures
        exists|position: int| is_first_nul(text, position),
    decreases end,
{
    if exists|i: int| 0 <= i < end - 1 && encode_utf8(text)[i] == 0 {
        lemma_first_nul(text, end - 1);
    } else {
        let i = choose|i: int| 0 <= i < end && encode_utf8(text)[i] == 0;
        assert(i == end - 1);
        assert(is_first_nul(text, end - 1));
    }
}

/// A compilation error names the vertex stage for vertex shaders and the fragment stage for all
/// others, and carries the message; a log's message is what the bytes before the last one say.
pub proof fn law_failure_told(
    shader_type: GLenum,
    message: Seq<char>,
    buffer: Seq<u8>,
    length: int,
)
    ensures
        compilation_failed(shader_type, message) matches ShaderErrorView::CompilationError {
            shader_type: stage,
            error_message,
        } && {
            &&& stage == ShaderType::Vertex <==> shader_type == GL_VERTEX_SHADER
            &&& stage == ShaderType::Fragment <==> shader_type != GL_VERTEX_SHADER
            &&& error_message == message
        },
        log_text(buffer, length) == utf8_lossy(buffer.subrange(0, length - 1)),
{
}

/// The answers of a driver that has compiled the vertex shader.
pub open spec fn vertex_answers(shader: GLuint, status: GLint) -> Seq<AnswerView> {
    seq![AnswerView::Name { name: shader }, AnswerView::Value { value: status }]
}

proof fn lemma_vertex_compiled(
    vertex_source: Seq<char>,
    fragment_source: Seq<char>,
    meta: ShaderMetaView,
    vertex_shader: GLuint,
    vertex_status: GLint,
)
    requires
        !has_nul(vertex_source),
        vertex_status != 0,
    ensures
        program_after(
            program_start(vertex_source, fragment_source, meta),
            vertex_answers(vertex_shader, vertex_status),
        ) == (ProgramStepView::Ask {
            state: ProgramStateView::Fragment {
                vertex_shader,
                compile: CompileStateView::Creating {
                    shader_type: GL_FRAGMENT_SHADER,
                    source: fragment_source,
                },
                meta,
            },
            calls: seq![BuildCallView::CreateShader { shader_type: GL_FRAGMENT_SHADER }],
        }),
{
    let start = program_start(vertex_source, fragment_source, meta);
    let none = Seq::<AnswerView>::empty();
    let named = AnswerView::Name { name: vertex_shader };
    let value = AnswerView::Value { value: vertex_status };
    lemma_program_push(start, none, named);
    lemma_program_push(start, none.push(named), value);
    assert(none.push(named).push(value) =~= vertex_answers(vertex_shader, vertex_status));
}

/// Once the vertex shader has compiled, the making of a program goes on as the compilation of the
/// caller's fragment source for the fragment stage: it asks the same questions, and a failure of
/// the one is the failure of the other.
pub proof fn law_fragment_shader_second(
    vertex_source: Seq<char>,
    fragment_source: Seq<char>,
    meta: ShaderMetaView,
    vertex_shader: GLuint,
    vertex_status: GLint,
    answers: Seq<AnswerView>,
)
    requires
        !vertex_source.contains('\0'),
        vertex_status != 0,
    ensures
        ({
            let compile = CompileStateView::Creating {
                shader_type: GL_FRAGMENT_SHADER,
                source: fragment_source,
            };
            let outcome = program_after(
                program_start(vertex_source, fragment_source, meta),
                vertex_answers(vertex_shader, vertex_status) + answers,
            );
            match compile_after(compile, answers) {
                CompileStepView::Ask { state, calls } => {
                    &&& outcome matches ProgramStepView::Ask { state: next, calls: asked }
                    &&& next == (ProgramStateView::Fragment { vertex_shader, compile: state, meta })
                    &&& answers.len() > 0 ==> asked == calls
                    &&& answers.len() == 0 ==> asked == seq![
                        BuildCallView::CreateShader { shader_type: GL_FRAGMENT_SHADER },
                    ]
                },
                CompileStepView::Failed { error } => outcome == (ProgramStepView::Failed {
                    error,
                }),
                CompileStepView::Compiled { .. } => true,
            }
        }),
    decreases answers.len(),
{
    let start = program_start(vertex_source, fragment_source, meta);
    let prefix = vertex_answers(vertex_shader, vertex_status);
    let compile = CompileStateView::Creating {
        shader_type: GL_FRAGMENT_SHADER,
        source: fragment_source,
    };
    law_nul_is_a_character(vertex_source);
    lemma_vertex_compiled(
        vertex_source,
        fragment_source,
        meta,
        vertex_shader,
        vertex_status,
    );
    if answers.len() == 0 {
        assert(prefix + answers =~= prefix);
    } else {
        law_fragment_shader_second(
            vertex_source,
            fragment_source,
            meta,
            vertex_shader,
            vertex_status,
            answers.drop_last(),
        );
        lemma_program_push(start, prefix + answers.drop_last(), answers.last());
        assert((prefix + answers.drop_last()).push(answers.last()) =~= prefix + answers);
        match compile_after(compile, answers.drop_last()) {
            CompileStepView::Compiled { shader } => {
                assert(compile_after(compile, answers) == (CompileStepView::Compiled { shader }));
            },
            _ => {},
        }
    }
}

/// Both sources reach the compiler as the caller wrote them: the vertex source first, under the
/// first name that the driver gives, then the fragment source, under the second. Then one program
/// is made of both shaders and linked.
pub proof fn law_sources_reach_the_compiler(
    vertex_source: Seq<char>,
    fragment_source: Seq<char>,
    meta: ShaderMetaView,
    vertex_shader: GLuint,
    vertex_status: GLint,
    fragment_shader: GLuint,
    fragment_status: GLint,
    program: GLuint,
)
    requires
        !vertex_source.contains('\0'),
        !fragment_source.contains('\0'),
        vertex_status != 0,
        fragment_status != 0,
    ensures
        ({
            let start = program_start(vertex_source, fragment_source, meta);
            let one = seq![AnswerView::Name { name: vertex_shader }];
            let two = one.push(AnswerView::Value { value: vertex_status });
            let three = two.push(AnswerView::Name { name: fragment_shader });
            let four = three.push(AnswerView::Value { value: fragment_status });
            let five = four.push(AnswerView::Name { name: program });
            &&& program_after(start, one) matches ProgramStepView::Ask { calls, .. } && compiles(
                calls,
                vertex_shader,
                vertex_source,
            )
            &&& program_after(start, two) matches ProgramStepView::Ask { calls, .. } && calls
                == seq![BuildCallView::CreateShader { shader_type: GL_FRAGMENT_SHADER }]
            &&& program_after(start, three) matches ProgramStepView::Ask { calls, .. } && compiles(
                calls,
                fragment_shader,
                fragment_source,
            )
            &&& program_after(start, four) matches ProgramStepView::Ask { calls, .. } && calls
                == seq![BuildCallView::CreateProgram]
            &&& program_after(start, five) matches ProgramStepView::Ask { calls, .. } && {
                &&& calls.len() == 4
                &&& calls.contains(BuildCallView::AttachShader { program, shader: vertex_shader })
                &&& calls.contains(
                    BuildCallView::AttachShader { program, shader: fragment_shader },
                )
                &&& calls[2] == (BuildCallView::LinkProgram { program })
                &&& calls[3] == (BuildCallView::GetProgramiv { program, pname: GL_LINK_STATUS })
            }
        }),
{
    let start = program_start(vertex_source, fragment_source, meta);
    let none = Seq::<AnswerView>::empty();
    let one = seq![AnswerView::Name { name: vertex_shader }];
    let two = one.push(AnswerView::Value { value: vertex_status });
    let three = two.push(AnswerView::Name { name: fragment_shader });
    let four = three.push(AnswerView::Value { value: fragment_status });
    let five = four.push(AnswerView::Name { name: program });
    law_nul_is_a_character(vertex_source);
    law_nul_is_a_character(fragment_source);
    lemma_program_push(start, none, AnswerView::Name { name: vertex_shader });
    assert(none.push(AnswerView::Name { name: vertex_shader }) =~= one);
    lemma_program_push(start, one, AnswerView::Value { value: vertex_status });
    lemma_program_push(start, two, AnswerView::Name { name: fragment_shader });
    lemma_program_push(start, three, AnswerView::Value { value: fragment_status });
    lemma_program_push(start, four, AnswerView::Name { name: program });
    let calls = program_after(start, five)->calls;
    assert(calls[0] == BuildCallView::AttachShader { program, shader: vertex_shader });
    assert(calls[1] == BuildCallView::AttachShader { program, shader: fragment_shader });
}

/// A program that has linked is made current, and the driver is asked for every image and then
/// every uniform by the name that it was declared with, in order. One that has not is asked for
/// the length of its log, and then for a log of that length.
pub proof fn law_inputs_looked_up(
    vertex_source: Seq<char>,
    fragment_source: Seq<char>,
    meta: ShaderMetaView,
    vertex_shader: GLuint,
    vertex_status: GLint,
    fragment_shader: GLuint,
    fragment_status: GLint,
    program: GLuint,
    link_status: GLint,
    max_length: i32,
)
    requires
        !vertex_source.contains('\0'),
        !fragment_source.contains('\0'),
        vertex_shader != 0,
        vertex_status != 0,
        fragment_shader != 0,
        fragment_status != 0,
        link_status != 0,
    ensures
        ({
            let start = program_start(vertex_source, fragment_source, meta);
            let compiled = compiled_answers(
                vertex_shader,
                vertex_status,
                fragment_shader,
                fragment_status,
                program,
            );
            let linked = compiled.push(AnswerView::Value { value: link_status });
            let refused = compiled.push(AnswerView::Value { value: 0 });
            let measured = refused.push(AnswerView::Value { value: max_length });
            let images = meta.images;
            let uniforms = meta.uniforms;
            &&& program_after(start, linked) matches ProgramStepView::Ask { calls, .. } && {
                &&& calls.len() == 1 + images.len() + uniforms.len()
                &&& calls[0] == (BuildCallView::UseProgram { program })
                &&& forall|n: int|
                    0 <= n < images.len() ==> calls[1 + n] == (BuildCallView::GetUniformLocation {
                        program,
                        name: #[trigger] images[n],
                    })
                &&& forall|n: int|
                    0 <= n < uniforms.len() ==> calls[1 + images.len() + n] == (
                    BuildCallView::GetUniformLocation {
                        program,
                        name: (#[trigger] uniforms[n]).name,
                    })
            }
            &&& program_after(start, refused) matches ProgramStepView::Ask { calls, .. } && calls
                == seq![BuildCallView::GetProgramiv { program, pname: GL_INFO_LOG_LENGTH }]
            &&& program_after(start, measured) matches ProgramStepView::Ask { calls, .. } && calls
                == seq![BuildCallView::GetProgramInfoLog { program, max_length }]
        }),
{
    let start = program_start(vertex_source, fragment_source, meta);
    let compiled = compiled_answers(
        vertex_shader,
        vertex_status,
        fragment_shader,
        fragment_status,
        program,
    );
    law_nul_is_a_character(vertex_source);
    law_nul_is_a_character(fragment_source);
    law_both_compiled(
        vertex_source,
        fragment_source,
        meta,
        vertex_shader,
        vertex_status,
        fragment_shader,
        fragment_status,
        program,
    );
    let refused = compiled.push(AnswerView::Value { value: 0 });
    lemma_program_push(start, compiled, AnswerView::Value { value: link_status });
    lemma_program_push(start, compiled, AnswerView::Value { value: 0 });
    lemma_program_push(start, refused, AnswerView::Value { value: max_length });
}

/// Bytes that the declared uniforms below `count` take.
pub open spec fn bytes_declared(meta: ShaderMetaView, count: nat) -> int {
    total(
        Seq::new(
            count,
            |j: int|
                meta.uniforms[j].uniform_type.bytes() * meta.uniforms[j].array_count,
        ),
    )
}

proof fn lemma_bytes_declared(meta: ShaderMetaView, count: nat)
    ensures
        meta.uniform_offset(count) == bytes_declared(meta, count),
    decreases count,
{
    if count > 0 {
        lemma_bytes_declared(meta, (count - 1) as nat);
        lemma_total_grows(
            count,
            |j: int|
                meta.uniforms[j].uniform_type.bytes() * meta.uniforms[j].array_count,
        );
    }
}

/// What the program is known to read: one entry for each declared image and uniform, in order.
/// Each has the location that the driver answered, unless the answer was -1; and each uniform has
/// its declared type and array length, and lies behind the bytes of all uniforms before it.
pub proof fn law_inputs_as_declared(
    program: GLuint,
    meta: ShaderMetaView,
    locations: Seq<GLint>,
)
    requires
        bytes_declared(meta, meta.uniforms.len()) <= usize::MAX,
    ensures
        ({
            let shader = located_shader(program, meta, locations);
            &&& shader.program == program
            &&& shader.images.len() == meta.images.len()
            &&& shader.uniforms.len() == meta.uniforms.len()
            &&& forall|n: int|
                0 <= n < meta.images.len() ==> {
                    let found = (#[trigger] shader.images[n]).gl_loc;
                    &&& locations[n] == -1 ==> found is None
                    &&& locations[n] != -1 ==> found == Some(locations[n])
                }
            &&& forall|n: int|
                0 <= n < meta.uniforms.len() ==> {
                    let uniform = #[trigger] shader.uniforms[n];
                    let answer = locations[meta.images.len() + n];
                    &&& answer == -1 ==> uniform.gl_loc is None
                    &&& answer != -1 ==> uniform.gl_loc == Some(answer)
                    &&& uniform.offset == bytes_declared(meta, n as nat)
                    &&& uniform.size == meta.uniforms[n].uniform_type.bytes()
                    &&& uniform.uniform_type == meta.uniforms[n].uniform_type
                    &&& uniform.array_count == meta.uniforms[n].array_count as i32
                }
        }),
{
    let shader = located_shader(program, meta, locations);
    lemma_bytes_declared(meta, meta.uniforms.len());
    assert forall|n: int| 0 <= n < meta.uniforms.len() implies ({
        let uniform = #[trigger] shader.uniforms[n];
        let answer = locations[meta.images.len() + n];
        &&& answer == -1 ==> uniform.gl_loc is None
        &&& answer != -1 ==> uniform.gl_loc == Some(answer)
        &&& uniform.offset == bytes_declared(meta, n as nat)
        &&& uniform.size == meta.uniforms[n].uniform_type.bytes()
        &&& uniform.uniform_type == meta.uniforms[n].uniform_type
        &&& uniform.array_count == meta.uniforms[n].array_count as i32
    }) by {
        assert(shader.uniforms[n] == located_uniform(meta, locations, n));
        lemma_bytes_declared(meta, n as nat);
        lemma_uniform_offset_monotone(meta, n as nat, meta.uniforms.len());
    }
}

/// Exactly these answers take a compilation on: a name other than 0, any status, a length that is
/// not negative, and, for the two stages, a log that the buffer can hold.
pub proof fn law_which_answers_compile(state: CompileStateView, answer: AnswerView)
    ensures
        compile_accepts(state, answer) <==> match (state, answer) {
            (CompileStateView::Creating { .. }, AnswerView::Name { name }) => name != 0,
            (CompileStateView::Compiling { .. }, AnswerView::Value { .. }) => true,
            (CompileStateView::MeasuringLog { .. }, AnswerView::Value { value }) => value >= 0,
            (
                CompileStateView::ReadingLog { shader_type, max_length, .. },
                AnswerView::Log { length, buffer },
            ) => {
                &&& shader_type == GL_VERTEX_SHADER || shader_type == GL_FRAGMENT_SHADER
                &&& buffer.len() == max_length + 1
                &&& 1 <= length <= max_length + 2
            },
            _ => false,
        },
{
}

/// Exactly these answers take the making of a program on: those that take its compilations on,
/// any program name, a link status (a good one only where no declared name has a zero character),
/// a length that is not negative, a log that the buffer can hold, and one location for each
/// declared name where the uniform data can be addressed.
pub proof fn law_which_answers_build(state: ProgramStateView, answer: AnswerView)
    ensures
        program_accepts(state, answer) <==> match (state, answer) {
            (ProgramStateView::Vertex { compile, .. }, _) => compile_accepts(compile, answer),
            (ProgramStateView::Fragment { compile, .. }, _) => compile_accepts(compile, answer),
            (ProgramStateView::Creating { .. }, AnswerView::Name { .. }) => true,
            (ProgramStateView::Linking { meta, .. }, AnswerView::Value { value }) => value == 0 || {
                &&& forall|n: int|
                    0 <= n < meta.images.len() ==> !(#[trigger] meta.images[n]).contains('\0')
                &&& forall|n: int|
                    0 <= n < meta.uniforms.len() ==> !(
                    #[trigger] meta.uniforms[n]).name.contains('\0')
            },
            (ProgramStateView::MeasuringLog { .. }, AnswerView::Value { value }) => value >= 0,
            (
                ProgramStateView::ReadingLog { max_length, .. },
                AnswerView::Log { length, buffer },
            ) => {
                &&& buffer.len() == max_length + 1
                &&& 1 <= length <= max_length + 2
            },
            (ProgramStateView::Locating { meta, .. }, AnswerView::Locations { locations }) => {
                &&& bytes_declared(meta, meta.uniforms.len()) <= usize::MAX
                &&& locations.len() == meta.images.len() + meta.uniforms.len()
            },
            _ => false,
        },
{
    match state {
        ProgramStateView::Linking { meta, .. } => {
            assert forall|n: int| 0 <= n < meta.name_count() implies has_nul(
                #[trigger] meta.name(n),
            ) == meta.name(n).contains('\0') by {
                law_nul_is_a_character(meta.name(n));
            }
            if meta.names_valid() {
                assert forall|n: int| 0 <= n < meta.images.len() implies !(
                #[trigger] meta.images[n]).contains('\0') by {
                    assert(meta.name(n) == meta.images[n]);
                }
                assert forall|n: int| 0 <= n < meta.uniforms.len() implies !(
                #[trigger] meta.uniforms[n]).name.contains('\0') by {
                    assert(meta.name(meta.images.len() + n) == meta.uniforms[n].name);
                }
            } else {
                let n = choose|n: int|
                    0 <= n < meta.name_count() && has_nul(#[trigger] meta.name(n));
                if n < meta.images.len() {
                    assert(meta.images[n].contains('\0'));
                } else {
                    assert(meta.uniforms[n - meta.images.len()].name.contains('\0'));
                }
            }
        },
        ProgramStateView::Locating { meta, .. } => {
            lemma_bytes_declared(meta, meta.uniforms.len());
        },
        _ => {},
    }
}

} // verus!
