//! Laws of the making of shaders and programs: how the conversation with the driver goes and ends.
use vstd::prelude::*;

use crate::gl::{GLint, GLuint, GL_FRAGMENT_SHADER, GL_VERTEX_SHADER};
use crate::program::{
    located_shader, program_accepts, program_next, program_start, ProgramStateView,
    ProgramStepView, ShaderMetaView,
};
use crate::shader::{
    compilation_failed, compile_accepts, compile_next, known_stage, log_readable, AnswerView,
    CompileStateView, CompileStepView, ShaderErrorView,
};
use crate::text::{has_nul, log_text, nul_error};
use crate::types::ShaderType;

verus! {

/// The step that a compilation has taken on the last of the answers; answers after the end change
/// nothing.
pub open spec fn compile_after(
    state: CompileStateView,
    answers: Seq<AnswerView>,
) -> CompileStepView
    decreases answers.len(),
{
    if answers.len() == 0 {
        CompileStepView::Ask { state, calls: seq![] }
    } else {
        match compile_after(state, answers.drop_last()) {
            CompileStepView::Ask { state, .. } => compile_next(state, answers.last()),
            end => end,
        }
    }
}

/// Each of the answers comes to a question that is open, and is one to go on with.
pub open spec fn compile_accepts_all(state: CompileStateView, answers: Seq<AnswerView>) -> bool
    decreases answers.len(),
{
    answers.len() == 0 || {
        &&& compile_accepts_all(state, answers.drop_last())
        &&& compile_after(state, answers.drop_last()) matches CompileStepView::Ask { state, .. }
            && compile_accepts(state, answers.last())
    }
}

/// The step that the making of a program has taken on the last of the answers; answers after the
/// end change nothing.
pub open spec fn program_after(
    state: ProgramStateView,
    answers: Seq<AnswerView>,
) -> ProgramStepView
    decreases answers.len(),
{
    if answers.len() == 0 {
        ProgramStepView::Ask { state, calls: seq![] }
    } else {
        match program_after(state, answers.drop_last()) {
            ProgramStepView::Ask { state, .. } => program_next(state, answers.last()),
            end => end,
        }
    }
}

/// Each of the answers comes to a question that is open, and is one to go on with.
pub open spec fn program_accepts_all(state: ProgramStateView, answers: Seq<AnswerView>) -> bool
    decreases answers.len(),
{
    answers.len() == 0 || {
        &&& program_accepts_all(state, answers.drop_last())
        &&& program_after(state, answers.drop_last()) matches ProgramStepView::Ask { state, .. }
            && program_accepts(state, answers.last())
    }
}

/// How many answers a compilation takes at most from here on.
pub open spec fn compile_rank(state: CompileStateView) -> nat {
    match state {
        CompileStateView::Creating { .. } => 4,
        CompileStateView::Compiling { .. } => 3,
        CompileStateView::MeasuringLog { .. } => 2,
        CompileStateView::ReadingLog { .. } => 1,
    }
}

/// How many answers the making of a program takes at most from here on.
pub open spec fn program_rank(state: ProgramStateView) -> nat {
    match state {
        ProgramStateView::Vertex { compile, .. } => compile_rank(compile) + 8,
        ProgramStateView::Fragment { compile, .. } => compile_rank(compile) + 4,
        ProgramStateView::Creating { .. } => 4,
        ProgramStateView::Linking { .. } => 3,
        ProgramStateView::MeasuringLog { .. } => 2,
        ProgramStateView::ReadingLog { .. } => 1,
        ProgramStateView::Locating { .. } => 1,
    }
}

/// The stage that a compilation is for.
pub open spec fn compile_stage(state: CompileStateView) -> u32 {
    match state {
        CompileStateView::Creating { shader_type, .. } => shader_type,
        CompileStateView::Compiling { shader_type, .. } => shader_type,
        CompileStateView::MeasuringLog { shader_type, .. } => shader_type,
        CompileStateView::ReadingLog { shader_type, .. } => shader_type,
    }
}

/// Each of the two compilations is for its own stage.
pub open spec fn stages_in_order(state: ProgramStateView) -> bool {
    match state {
        ProgramStateView::Vertex { compile, .. } => compile_stage(compile) == GL_VERTEX_SHADER,
        ProgramStateView::Fragment { compile, .. } => compile_stage(compile)
            == GL_FRAGMENT_SHADER,
        _ => true,
    }
}

/// Every step of a compilation ends it or brings its end nearer, and keeps its stage.
pub proof fn law_compilation_ends(state: CompileStateView, answer: AnswerView)
    requires
        compile_accepts(state, answer),
    ensures
        compile_next(state, answer) matches CompileStepView::Ask { state: next, .. } ==> {
            &&& compile_rank(next) < compile_rank(state)
            &&& compile_stage(next) == compile_stage(state)
        },
{
}

/// A program that is made takes at most twelve answers: every step ends the work or brings its
/// end nearer, and each compilation stays with its own stage.
pub proof fn law_building_ends(state: ProgramStateView, answer: AnswerView)
    requires
        program_accepts(state, answer),
        stages_in_order(state),
    ensures
        program_next(state, answer) matches ProgramStepView::Ask { state: next, .. } ==> {
            &&& program_rank(next) < program_rank(state) <= 12
            &&& stages_in_order(next)
        },
{
}

/// A failed step names what went wrong: a zero byte in the source at hand, the stage that does
/// not compile, or, once both stages have, the link.
pub proof fn law_failures_name_their_stage(state: ProgramStateView, answer: AnswerView)
    requires
        program_accepts(state, answer),
        stages_in_order(state),
        program_next(state, answer) is Failed,
    ensures
        ({
            let error = program_next(state, answer)->error;
            match state {
                ProgramStateView::Vertex { .. } => error is FFINulError || (error matches
                    ShaderErrorView::CompilationError { shader_type, .. } && shader_type
                    == ShaderType::Vertex),
                ProgramStateView::Fragment { .. } => error is FFINulError || (error matches
                    ShaderErrorView::CompilationError { shader_type, .. } && shader_type
                    == ShaderType::Fragment),
                _ => error is LinkError,
            }
        }),
{
}

/// A source with a zero byte never reaches the compiler: the compilation ends on the name of the
/// new shader, with the place of the byte.
pub proof fn law_nul_refused(shader_type: u32, source: Seq<char>, shader: GLuint)
    requires
        has_nul(source),
        shader != 0,
    ensures
        ({
            let start = CompileStateView::Creating { shader_type, source };
            let answers = seq![AnswerView::Name { name: shader }];
            &&& compile_accepts_all(start, answers)
            &&& compile_after(start, answers) == (CompileStepView::Failed {
                error: ShaderErrorView::FFINulError { nul: nul_error(source) },
            })
        }),
{
    let answers = seq![AnswerView::Name { name: shader }];
    assert(answers.drop_last() =~= seq![]);
    reveal_with_fuel(compile_after, 2);
    reveal_with_fuel(compile_accepts_all, 2);
}

/// A shader that the driver compiles is the result, under the name that the driver gave it.
pub proof fn law_compiled(shader_type: u32, source: Seq<char>, shader: GLuint, status: GLint)
    requires
        !has_nul(source),
        shader != 0,
        status != 0,
    ensures
        ({
            let start = CompileStateView::Creating { shader_type, source };
            let answers = seq![
                AnswerView::Name { name: shader },
                AnswerView::Value { value: status },
            ];
            &&& compile_accepts_all(start, answers)
            &&& compile_after(start, answers) == (CompileStepView::Compiled { shader })
        }),
{
    let first = seq![AnswerView::Name { name: shader }];
    let answers = seq![AnswerView::Name { name: shader }, AnswerView::Value { value: status }];
    assert(first.drop_last() =~= seq![]);
    assert(answers.drop_last() =~= first);
    reveal_with_fuel(compile_after, 3);
    reveal_with_fuel(compile_accepts_all, 3);
}

/// A shader that the driver refuses gives an error that names the stage and carries the log.
pub proof fn law_compilation_refused(
    shader_type: u32,
    source: Seq<char>,
    shader: GLuint,
    max_length: i32,
    length: int,
    buffer: Seq<u8>,
)
    requires
        known_stage(shader_type),
        !has_nul(source),
        shader != 0,
        0 <= max_length,
        log_readable(max_length, length, buffer),
    ensures
        ({
            let start = CompileStateView::Creating { shader_type, source };
            let answers = seq![
                AnswerView::Name { name: shader },
                AnswerView::Value { value: 0 },
                AnswerView::Value { value: max_length },
                AnswerView::Log { length, buffer },
            ];
            &&& compile_accepts_all(start, answers)
            &&& compile_after(start, answers) == (CompileStepView::Failed {
                error: compilation_failed(shader_type, log_text(buffer, length)),
            })
        }),
{
    let one = seq![AnswerView::Name { name: shader }];
    let two = one.push(AnswerView::Value { value: 0 });
    let three = two.push(AnswerView::Value { value: max_length });
    let four = three.push(AnswerView::Log { length, buffer });
    assert(one.drop_last() =~= seq![]);
    assert(two.drop_last() =~= one);
    assert(three.drop_last() =~= two);
    assert(four.drop_last() =~= three);
    assert(four =~= seq![
        AnswerView::Name { name: shader },
        AnswerView::Value { value: 0 },
        AnswerView::Value { value: max_length },
        AnswerView::Log { length, buffer },
    ]);
    reveal_with_fuel(compile_after, 5);
    reveal_with_fuel(compile_accepts_all, 5);
}

/// While the vertex shader is compiled, the making of a program is that compilation: a failure of
/// it is the failure of the whole, and nothing is asked about a fragment shader.
pub proof fn law_vertex_shader_first(
    vertex_source: Seq<char>,
    fragment_source: Seq<char>,
    meta: ShaderMetaView,
    answers: Seq<AnswerView>,
)
    ensures
        ({
            let compile = CompileStateView::Creating {
                shader_type: GL_VERTEX_SHADER,
                source: vertex_source,
            };
            let outcome = program_after(
                program_start(vertex_source, fragment_source, meta),
                answers,
            );
            match compile_after(compile, answers) {
                CompileStepView::Ask { state, calls } => outcome == (ProgramStepView::Ask {
                    state: ProgramStateView::Vertex { compile: state, fragment_source, meta },
                    calls,
                }),
                CompileStepView::Failed { error } => outcome == (ProgramStepView::Failed {
                    error,
                }),
                CompileStepView::Compiled { .. } => true,
            }
        }),
    decreases answers.len(),
{
    if answers.len() > 0 {
        law_vertex_shader_first(vertex_source, fragment_source, meta, answers.drop_last());
        let compile = CompileStateView::Creating {
            shader_type: GL_VERTEX_SHADER,
            source: vertex_source,
        };
        match compile_after(compile, answers.drop_last()) {
            CompileStepView::Compiled { shader } => {
                assert(compile_after(compile, answers) == (CompileStepView::Compiled { shader }));
            },
            _ => {},
        }
    }
}

/// The answers of a driver that compiles both shaders and makes the program `program`.
pub open spec fn compiled_answers(
    vertex_shader: GLuint,
    vertex_status: GLint,
    fragment_shader: GLuint,
    fragment_status: GLint,
    program: GLuint,
) -> Seq<AnswerView> {
    seq![
        AnswerView::Name { name: vertex_shader },
        AnswerView::Value { value: vertex_status },
        AnswerView::Name { name: fragment_shader },
        AnswerView::Value { value: fragment_status },
        AnswerView::Name { name: program },
    ]
}

pub proof fn lemma_program_push(state: ProgramStateView, answers: Seq<AnswerView>, answer: AnswerView)
    ensures
        program_after(state, answers.push(answer)) == match program_after(state, answers) {
            ProgramStepView::Ask { state, .. } => program_next(state, answer),
            end => end,
        },
        program_accepts_all(state, answers.push(answer)) <==> {
            &&& program_accepts_all(state, answers)
            &&& program_after(state, answers) matches ProgramStepView::Ask { state, .. }
                && program_accepts(state, answer)
        },
{
    assert(answers.push(answer).drop_last() =~= answers);
}

/// Where both shaders compile, the program waits for its link status.
pub proof fn law_both_compiled(
    vertex_source: Seq<char>,
    fragment_source: Seq<char>,
    meta: ShaderMetaView,
    vertex_shader: GLuint,
    vertex_status: GLint,
    fragment_shader: GLuint,
    fragment_status: GLint,
    program: GLuint,
)
    requires
        !has_nul(vertex_source),
        !has_nul(fragment_source),
        vertex_shader != 0,
        vertex_status != 0,
        fragment_shader != 0,
        fragment_status != 0,
    ensures
        program_accepts_all(
            program_start(vertex_source, fragment_source, meta),
            compiled_answers(
                vertex_shader,
                vertex_status,
                fragment_shader,
                fragment_status,
                program,
            ),
        ),
        program_after(
            program_start(vertex_source, fragment_source, meta),
            compiled_answers(
                vertex_shader,
                vertex_status,
                fragment_shader,
                fragment_status,
                program,
            ),
        ) matches ProgramStepView::Ask { state, .. } && state == (ProgramStateView::Linking {
            program,
            meta,
        }),
{
    let start = program_start(vertex_source, fragment_source, meta);
    let zero: Seq<AnswerView> = seq![];
    let one = zero.push(AnswerView::Name { name: vertex_shader });
    let two = one.push(AnswerView::Value { value: vertex_status });
    let three = two.push(AnswerView::Name { name: fragment_shader });
    let four = three.push(AnswerView::Value { value: fragment_status });
    let five = four.push(AnswerView::Name { name: program });
    lemma_program_push(start, zero, AnswerView::Name { name: vertex_shader });
    lemma_program_push(start, one, AnswerView::Value { value: vertex_status });
    lemma_program_push(start, two, AnswerView::Name { name: fragment_shader });
    lemma_program_push(start, three, AnswerView::Value { value: fragment_status });
    lemma_program_push(start, four, AnswerView::Name { name: program });
    assert(five =~= compiled_answers(
        vertex_shader,
        vertex_status,
        fragment_shader,
        fragment_status,
        program,
    ));
}

/// Where both shaders compile and the program links, the result is the program with the locations
/// of everything that it was declared to read.
pub proof fn law_program_built(
    vertex_source: Seq<char>,
    fragment_source: Seq<char>,
    meta: ShaderMetaView,
    vertex_shader: GLuint,
    vertex_status: GLint,
    fragment_shader: GLuint,
    fragment_status: GLint,
    program: GLuint,
    link_status: GLint,
    locations: Seq<GLint>,
)
    requires
        !has_nul(vertex_source),
        !has_nul(fragment_source),
        vertex_shader != 0,
        vertex_status != 0,
        fragment_shader != 0,
        fragment_status != 0,
        link_status != 0,
        meta.names_valid(),
        meta.offsets_in_range(),
        locations.len() == meta.name_count(),
    ensures
        program_accepts_all(
            program_start(vertex_source, fragment_source, meta),
            compiled_answers(
                vertex_shader,
                vertex_status,
                fragment_shader,
                fragment_status,
                program,
            ).push(AnswerView::Value { value: link_status }).push(
                AnswerView::Locations { locations },
            ),
        ),
        program_after(
            program_start(vertex_source, fragment_source, meta),
            compiled_answers(
                vertex_shader,
                vertex_status,
                fragment_shader,
                fragment_status,
                program,
            ).push(AnswerView::Value { value: link_status }).push(
                AnswerView::Locations { locations },
            ),
        ) == (ProgramStepView::Linked { shader: located_shader(program, meta, locations) }),
{
    let start = program_start(vertex_source, fragment_source, meta);
    let compiled = compiled_answers(
        vertex_shader,
        vertex_status,
        fragment_shader,
        fragment_status,
        program,
    );
    let linked = compiled.push(AnswerView::Value { value: link_status });
    law_both_compiled(
        vertex_source,
        fragment_source,
        meta,
        vertex_shader,
        vertex_status,
        fragment_shader,
        fragment_status,
        program,
    );
    lemma_program_push(start, compiled, AnswerView::Value { value: link_status });
    lemma_program_push(start, linked, AnswerView::Locations { locations });
}

/// Where both shaders compile but the program does not link, the result is the link error with
/// the log.
pub proof fn law_link_refused(
    vertex_source: Seq<char>,
    fragment_source: Seq<char>,
    meta: ShaderMetaView,
    vertex_shader: GLuint,
    vertex_status: GLint,
    fragment_shader: GLuint,
    fragment_status: GLint,
    program: GLuint,
    max_length: i32,
    length: int,
    buffer: Seq<u8>,
)
    requires
        !has_nul(vertex_source),
        !has_nul(fragment_source),
        vertex_shader != 0,
        vertex_status != 0,
        fragment_shader != 0,
        fragment_status != 0,
        0 <= max_length,
        log_readable(max_length, length, buffer),
    ensures
        program_accepts_all(
            program_start(vertex_source, fragment_source, meta),
            compiled_answers(
                vertex_shader,
                vertex_status,
                fragment_shader,
                fragment_status,
                program,
            ).push(AnswerView::Value { value: 0 }).push(AnswerView::Value { value: max_length })
                .push(AnswerView::Log { length, buffer }),
        ),
        program_after(
            program_start(vertex_source, fragment_source, meta),
            compiled_answers(
                vertex_shader,
                vertex_status,
                fragment_shader,
                fragment_status,
                program,
            ).push(AnswerView::Value { value: 0 }).push(AnswerView::Value { value: max_length })
                .push(AnswerView::Log { length, buffer }),
        ) == (ProgramStepView::Failed {
            error: ShaderErrorView::LinkError { error_message: log_text(buffer, length) },
        }),
{
    let start = program_start(vertex_source, fragment_source, meta);
    let compiled = compiled_answers(
        vertex_shader,
        vertex_status,
        fragment_shader,
        fragment_status,
        program,
    );
    let refused = compiled.push(AnswerView::Value { value: 0 });
    let measured = refused.push(AnswerView::Value { value: max_length });
    law_both_compiled(
        vertex_source,
        fragment_source,
        meta,
        vertex_shader,
        vertex_status,
        fragment_shader,
        fragment_status,
        program,
    );
    lemma_program_push(start, compiled, AnswerView::Value { value: 0 });
    lemma_program_push(start, refused, AnswerView::Value { value: max_length });
    lemma_program_push(start, measured, AnswerView::Log { length, buffer });
}

} // verus!
