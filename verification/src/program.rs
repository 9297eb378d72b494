//! Linking shaders into a program and finding what it reads.
use vstd::prelude::*;

use crate::context::Context;
use crate::gl::{
    GLint, GLuint, GL_FRAGMENT_SHADER, GL_INFO_LOG_LENGTH, GL_LINK_STATUS, GL_VERTEX_SHADER,
};
use crate::shader::{
    calls_view, compile_accepts, compile_next, load_shader, log_is_readable, log_readable, Answer,
    AnswerView, BuildCall, BuildCallView, CompileState, CompileStateView, CompileStep,
    CompileStepView, ShaderError, ShaderErrorView, ShaderImage, ShaderInternal,
    ShaderInternalView, ShaderUniform, UniformLocation,
};
use crate::text::{find_nul, has_nul, log_text, read_log};
use crate::types::{Shader, ShaderMeta, UniformDesc, UniformType};

verus! {

/// A declared uniform as a mathematical value.
pub struct UniformDescView {
    pub name: Seq<char>,
    pub uniform_type: UniformType,
    pub array_count: usize,
}

impl View for UniformDesc {
    type V = UniformDescView;

    open spec fn view(&self) -> UniformDescView {
        UniformDescView {
            name: self.name@,
            uniform_type: self.uniform_type,
            array_count: self.array_count,
        }
    }
}

/// What a shader expects, as a mathematical value.
#[verifier::ext_equal]
pub struct ShaderMetaView {
    pub uniforms: Seq<UniformDescView>,
    pub images: Seq<Seq<char>>,
}

impl View for ShaderMeta {
    type V = ShaderMetaView;

    open spec fn view(&self) -> ShaderMetaView {
        ShaderMetaView {
            uniforms: self.uniforms.uniforms@.map_values(|uniform: UniformDesc| uniform@),
            images: self.images@.map_values(|name: String| name@),
        }
    }
}

impl ShaderMetaView {
    /// The name of the `n`-th thing to look up: images first, then uniforms.
    pub open spec fn name(self, n: int) -> Seq<char> {
        if n < self.images.len() {
            self.images[n]
        } else {
            self.uniforms[n - self.images.len()].name
        }
    }

    /// How many things there are to look up.
    pub open spec fn name_count(self) -> nat {
        self.images.len() + self.uniforms.len()
    }

    /// Every name is one that the driver can take.
    pub open spec fn names_valid(self) -> bool {
        forall|n: int| 0 <= n < self.name_count() ==> !has_nul(#[trigger] self.name(n))
    }

    /// Where the data of uniform `n` begins, in bytes: the uniforms lie one after the other.
    pub open spec fn uniform_offset(self, n: nat) -> int
        decreases n,
    {
        if n == 0 {
            0
        } else {
            self.uniform_offset((n - 1) as nat) + self.uniforms[n - 1].uniform_type.bytes()
                * self.uniforms[n - 1].array_count
        }
    }

    /// The uniform data can be addressed.
    pub open spec fn offsets_in_range(self) -> bool {
        self.uniform_offset(self.uniforms.len()) <= usize::MAX
    }
}

/// The calls that make a program current and look up everything that it reads.
pub open spec fn locate_calls(program: GLuint, meta: ShaderMetaView) -> Seq<BuildCallView> {
    seq![BuildCallView::UseProgram { program }] + Seq::new(
        meta.name_count(),
        |n: int| BuildCallView::GetUniformLocation { program, name: meta.name(n) },
    )
}

/// What the driver's answer to a location query means.
pub open spec fn uniform_location(location: GLint) -> UniformLocation {
    if location == -1 {
        None
    } else {
        Some(location)
    }
}

/// The program with the locations of what it reads.
pub open spec fn located_shader(
    program: GLuint,
    meta: ShaderMetaView,
    locations: Seq<GLint>,
) -> ShaderInternalView {
    ShaderInternalView {
        program,
        images: Seq::new(
            meta.images.len(),
            |n: int| ShaderImage { gl_loc: uniform_location(locations[n]) },
        ),
        uniforms: Seq::new(
            meta.uniforms.len(),
            |n: int| located_uniform(meta, locations, n),
        ),
    }
}

/// Uniform `n` with its location and its place in the uniform data.
pub open spec fn located_uniform(
    meta: ShaderMetaView,
    locations: Seq<GLint>,
    n: int,
) -> ShaderUniform {
    ShaderUniform {
        gl_loc: uniform_location(locations[meta.images.len() + n]),
        offset: meta.uniform_offset(n as nat) as usize,
        size: meta.uniforms[n].uniform_type.bytes(),
        uniform_type: meta.uniforms[n].uniform_type,
        array_count: meta.uniforms[n].array_count as i32,
    }
}

/// How far the making of a program has come.
pub enum ProgramState {
    /// The vertex shader is being compiled
    Vertex { compile: CompileState, fragment_source: String, meta: ShaderMeta },
    /// The fragment shader is being compiled
    Fragment { vertex_shader: GLuint, compile: CompileState, meta: ShaderMeta },
    /// Waiting for the name of the new program
    Creating { vertex_shader: GLuint, fragment_shader: GLuint, meta: ShaderMeta },
    /// Waiting for the link status
    Linking { program: GLuint, meta: ShaderMeta },
    /// Waiting for the length of the log of a failed link
    MeasuringLog { program: GLuint },
    /// Waiting for that log
    ReadingLog { program: GLuint, max_length: i32 },
    /// Waiting for the locations of images and uniforms
    Locating { program: GLuint, meta: ShaderMeta },
}

/// The state as a mathematical value.
#[verifier::ext_equal]
pub enum ProgramStateView {
    Vertex { compile: CompileStateView, fragment_source: Seq<char>, meta: ShaderMetaView },
    Fragment { vertex_shader: GLuint, compile: CompileStateView, meta: ShaderMetaView },
    Creating { vertex_shader: GLuint, fragment_shader: GLuint, meta: ShaderMetaView },
    Linking { program: GLuint, meta: ShaderMetaView },
    MeasuringLog { program: GLuint },
    ReadingLog { program: GLuint, max_length: i32 },
    Locating { program: GLuint, meta: ShaderMetaView },
}

impl View for ProgramState {
    type V = ProgramStateView;

    open spec fn view(&self) -> ProgramStateView {
        match self {
            ProgramState::Vertex { compile, fragment_source, meta } => {
                ProgramStateView::Vertex {
                    compile: compile@,
                    fragment_source: fragment_source@,
                    meta: meta@,
                }
            },
            ProgramState::Fragment { vertex_shader, compile, meta } => {
                ProgramStateView::Fragment {
                    vertex_shader: *vertex_shader,
                    compile: compile@,
                    meta: meta@,
                }
            },
            ProgramState::Creating { vertex_shader, fragment_shader, meta } => {
                ProgramStateView::Creating {
                    vertex_shader: *vertex_shader,
                    fragment_shader: *fragment_shader,
                    meta: meta@,
                }
            },
            ProgramState::Linking { program, meta } => ProgramStateView::Linking {
                program: *program,
                meta: meta@,
            },
            ProgramState::MeasuringLog { program } => ProgramStateView::MeasuringLog {
                program: *program,
            },
            ProgramState::ReadingLog { program, max_length } => ProgramStateView::ReadingLog {
                program: *program,
                max_length: *max_length,
            },
            ProgramState::Locating { program, meta } => ProgramStateView::Locating {
                program: *program,
                meta: meta@,
            },
        }
    }
}

/// The outcome of a step in the making of a program.
pub enum ProgramStep {
    /// Perform the calls, then go on from the state with the answer
    Ask(ProgramState, Vec<BuildCall>),
    /// The program, or why there is none
    Done(Result<ShaderInternal, ShaderError>),
}

/// The outcome as a mathematical value.
#[verifier::ext_equal]
pub enum ProgramStepView {
    Ask { state: ProgramStateView, calls: Seq<BuildCallView> },
    Linked { shader: ShaderInternalView },
    Failed { error: ShaderErrorView },
}

impl View for ProgramStep {
    type V = ProgramStepView;

    open spec fn view(&self) -> ProgramStepView {
        match self {
            ProgramStep::Ask(state, calls) => ProgramStepView::Ask {
                state: state@,
                calls: calls_view(calls@),
            },
            ProgramStep::Done(Ok(shader)) => ProgramStepView::Linked { shader: shader@ },
            ProgramStep::Done(Err(error)) => ProgramStepView::Failed { error: error@ },
        }
    }
}

/// The state from which a program is made.
pub open spec fn program_start(
    vertex_source: Seq<char>,
    fragment_source: Seq<char>,
    meta: ShaderMetaView,
) -> ProgramStateView {
    ProgramStateView::Vertex {
        compile: CompileStateView::Creating {
            shader_type: GL_VERTEX_SHADER,
            source: vertex_source,
        },
        fragment_source,
        meta,
    }
}

/// Answers with which the making of a program can go on.
pub open spec fn program_accepts(state: ProgramStateView, answer: AnswerView) -> bool {
    match state {
        ProgramStateView::Vertex { compile, .. } => compile_accepts(compile, answer),
        ProgramStateView::Fragment { compile, .. } => compile_accepts(compile, answer),
        ProgramStateView::Creating { .. } => answer is Name,
        ProgramStateView::Linking { meta, .. } => answer matches AnswerView::Value { value } && (
        value != 0 ==> meta.names_valid()),
        ProgramStateView::MeasuringLog { .. } => answer matches AnswerView::Value { value } && 0
            <= value,
        ProgramStateView::ReadingLog { max_length, .. } => answer matches AnswerView::Log {
            length,
            buffer,
        } && log_readable(max_length, length, buffer),
        ProgramStateView::Locating { meta, .. } => {
            &&& meta.offsets_in_range()
            &&& answer matches AnswerView::Locations { locations } && locations.len()
                == meta.name_count()
        },
    }
}

/// The step that the making of a program takes on an answer.
pub open spec fn program_next(state: ProgramStateView, answer: AnswerView) -> ProgramStepView {
    match state {
        ProgramStateView::Vertex { compile, fragment_source, meta } => match compile_next(
            compile,
            answer,
        ) {
            CompileStepView::Ask { state, calls } => ProgramStepView::Ask {
                state: ProgramStateView::Vertex { compile: state, fragment_source, meta },
                calls,
            },
            CompileStepView::Compiled { shader } => ProgramStepView::Ask {
                state: ProgramStateView::Fragment {
                    vertex_shader: shader,
                    compile: CompileStateView::Creating {
                        shader_type: GL_FRAGMENT_SHADER,
                        source: fragment_source,
                    },
                    meta,
                },
                calls: seq![BuildCallView::CreateShader { shader_type: GL_FRAGMENT_SHADER }],
            },
            CompileStepView::Failed { error } => ProgramStepView::Failed { error },
        },
        ProgramStateView::Fragment { vertex_shader, compile, meta } => match compile_next(
            compile,
            answer,
        ) {
            CompileStepView::Ask { state, calls } => ProgramStepView::Ask {
                state: ProgramStateView::Fragment { vertex_shader, compile: state, meta },
                calls,
            },
            CompileStepView::Compiled { shader } => ProgramStepView::Ask {
                state: ProgramStateView::Creating { vertex_shader, fragment_shader: shader, meta },
                calls: seq![BuildCallView::CreateProgram],
            },
            CompileStepView::Failed { error } => ProgramStepView::Failed { error },
        },
        ProgramStateView::Creating { vertex_shader, fragment_shader, meta } => {
            let program = answer->name;
            ProgramStepView::Ask {
                state: ProgramStateView::Linking { program, meta },
                calls: seq![
                    BuildCallView::AttachShader { program, shader: vertex_shader },
                    BuildCallView::AttachShader { program, shader: fragment_shader },
                    BuildCallView::LinkProgram { program },
                    BuildCallView::GetProgramiv { program, pname: GL_LINK_STATUS },
                ],
            }
        },
        ProgramStateView::Linking { program, meta } => if answer->value == 0 {
            ProgramStepView::Ask {
                state: ProgramStateView::MeasuringLog { program },
                calls: seq![BuildCallView::GetProgramiv { program, pname: GL_INFO_LOG_LENGTH }],
            }
        } else {
            ProgramStepView::Ask {
                state: ProgramStateView::Locating { program, meta },
                calls: locate_calls(program, meta),
            }
        },
        ProgramStateView::MeasuringLog { program } => ProgramStepView::Ask {
            state: ProgramStateView::ReadingLog { program, max_length: answer->value },
            calls: seq![BuildCallView::GetProgramInfoLog { program, max_length: answer->value }],
        },
        ProgramStateView::ReadingLog { .. } => ProgramStepView::Failed {
            error: ShaderErrorView::LinkError {
                error_message: log_text(answer->buffer, answer->length),
            },
        },
        ProgramStateView::Locating { program, meta } => ProgramStepView::Linked {
            shader: located_shader(program, meta, answer->locations),
        },
    }
}

/// Reads the driver's answer to a location query.
pub fn get_uniform_location(location: GLint) -> (found: UniformLocation)
    ensures
        found == uniform_location(location),
{
    if location == -1 {
        return None;
    }
    Some(location)
}

/// Looks up everything that a program reads.
fn locate(program: GLuint, meta: &ShaderMeta) -> (calls: Vec<BuildCall>)
    ensures
        calls_view(calls@) == locate_calls(program, meta@),
{
    let ghost all = locate_calls(program, meta@);
    let mut calls: Vec<BuildCall> = Vec::new();
    calls.push(BuildCall::UseProgram { program });
    assert(calls_view(calls@) =~= all.take(1));
    for n in 0..meta.images.len()
        invariant
            all == locate_calls(program, meta@),
            calls_view(calls@) == all.take(n + 1),
    {
        let ghost before = calls@;
        let name = meta.images[n].clone();
        assert(all[n + 1] == (BuildCallView::GetUniformLocation { program, name: name@ }));
        calls.push(BuildCall::GetUniformLocation { program, name });
        assert(calls_view(calls@) =~= calls_view(before).push(all[n + 1]));
        assert(calls_view(calls@) =~= all.take(n + 2));
    }
    let ghost count = meta@.images.len();
    for n in 0..meta.uniforms.uniforms.len()
        invariant
            all == locate_calls(program, meta@),
            count == meta@.images.len(),
            calls_view(calls@) == all.take(count + n + 1),
    {
        let ghost before = calls@;
        let name = meta.uniforms.uniforms[n].name.clone();
        assert(meta@.uniforms[n as int].name == name@);
        assert(all[count + n + 1] == (BuildCallView::GetUniformLocation { program, name: name@ }));
        calls.push(BuildCall::GetUniformLocation { program, name });
        assert(calls_view(calls@) =~= calls_view(before).push(all[count + n + 1]));
        assert(calls_view(calls@) =~= all.take(count + n + 2));
    }
    assert(all.take(all.len() as int) =~= all);
    calls
}

/// Uniforms only add to the data.
pub proof fn lemma_uniform_offset_monotone(meta: ShaderMetaView, a: nat, b: nat)
    requires
        a <= b,
    ensures
        0 <= meta.uniform_offset(a) <= meta.uniform_offset(b),
    decreases b,
{
    if b > 0 {
        let last = meta.uniforms[b - 1];
        assert(0 <= last.uniform_type.bytes() * last.array_count) by (nonlinear_arith);
        if a < b {
            lemma_uniform_offset_monotone(meta, a, (b - 1) as nat);
        } else {
            lemma_uniform_offset_monotone(meta, (a - 1) as nat, (b - 1) as nat);
        }
    }
}

/// Puts a program together from the locations that the driver has found.
fn assemble(program: GLuint, meta: &ShaderMeta, locations: &Vec<GLint>) -> (shader: ShaderInternal)
    requires
        meta@.offsets_in_range(),
        locations@.len() == meta@.name_count(),
    ensures
        shader@ == located_shader(program, meta@, locations@),
{
    let mut images: Vec<ShaderImage> = Vec::new();
    let count = meta.images.len();
    for n in 0..count
        invariant
            count == meta@.images.len(),
            locations@.len() == meta@.name_count(),
            images@ =~= located_shader(program, meta@, locations@).images.take(n as int),
    {
        images.push(ShaderImage { gl_loc: get_uniform_location(locations[n]) });
    }
    let mut uniforms: Vec<ShaderUniform> = Vec::new();
    let mut offset: usize = 0;
    let total = locations.len();
    for n in 0..meta.uniforms.uniforms.len()
        invariant
            count == meta@.images.len(),
            total == locations@.len(),
            locations@.len() == meta@.name_count(),
            meta@.offsets_in_range(),
            offset == meta@.uniform_offset(n as nat),
            uniforms@ =~= located_shader(program, meta@, locations@).uniforms.take(n as int),
    {
        let uniform = &meta.uniforms.uniforms[n];
        uniforms.push(
            ShaderUniform {
                gl_loc: get_uniform_location(locations[count + n]),
                offset,
                size: uniform.uniform_type.size(),
                uniform_type: uniform.uniform_type,
                array_count: uniform.array_count as i32,
            },
        );
        proof {
            lemma_uniform_offset_monotone(meta@, n as nat, (n + 1) as nat);
            lemma_uniform_offset_monotone(meta@, (n + 1) as nat, meta@.uniforms.len());
            assert(meta@.uniforms[n as int] == uniform@);
        }
        offset += uniform.uniform_type.size() * uniform.array_count;
    }
    ShaderInternal { program, images, uniforms }
}

/// Tells whether every name is one that the driver can take.
fn names_are_valid(meta: &ShaderMeta) -> (valid: bool)
    ensures
        valid == meta@.names_valid(),
{
    let count = meta.images.len();
    for n in 0..count
        invariant
            count == meta@.images.len(),
            forall|m: int| 0 <= m < n ==> !has_nul(#[trigger] meta@.name(m)),
    {
        assert(meta@.name(n as int) == meta.images@[n as int]@);
        if find_nul(meta.images[n].as_str()).is_some() {
            return false;
        }
    }
    for n in 0..meta.uniforms.uniforms.len()
        invariant
            count == meta@.images.len(),
            forall|m: int| 0 <= m < count + n ==> !has_nul(#[trigger] meta@.name(m)),
    {
        assert(meta@.name(count + n) == meta.uniforms.uniforms@[n as int].name@);
        if find_nul(meta.uniforms.uniforms[n].name.as_str()).is_some() {
            return false;
        }
    }
    true
}

/// Tells whether the uniform data can be addressed.
fn offsets_are_in_range(meta: &ShaderMeta) -> (in_range: bool)
    ensures
        in_range == meta@.offsets_in_range(),
{
    let mut offset: usize = 0;
    for n in 0..meta.uniforms.uniforms.len()
        invariant
            offset == meta@.uniform_offset(n as nat),
    {
        let uniform = &meta.uniforms.uniforms[n];
        proof {
            lemma_uniform_offset_monotone(meta@, (n + 1) as nat, meta@.uniforms.len());
            assert(meta@.uniforms[n as int] == uniform@);
        }
        match uniform.uniform_type.size().checked_mul(uniform.array_count) {
            Some(bytes) => match offset.checked_add(bytes) {
                Some(next) => {
                    offset = next;
                },
                None => {
                    return false;
                },
            },
            None => {
                return false;
            },
        }
    }
    true
}

impl ProgramState {
    /// The state from which the making of a program starts, and the first call.
    pub fn start(vertex_shader: &str, fragment_shader: &str, meta: ShaderMeta) -> (begun: (
        ProgramState,
        Vec<BuildCall>,
    ))
        ensures
            begun.0@ == program_start(vertex_shader@, fragment_shader@, meta@),
            calls_view(begun.1@) == seq![
                BuildCallView::CreateShader { shader_type: GL_VERTEX_SHADER },
            ],
    {
        let (compile, calls) = CompileState::start(GL_VERTEX_SHADER, vertex_shader);
        (
            ProgramState::Vertex { compile, fragment_source: fragment_shader.to_owned(), meta },
            calls,
        )
    }

    /// Tells whether the making of the program can go on with `answer`.
    pub fn accepts(&self, answer: &Answer) -> (accepted: bool)
        ensures
            accepted == program_accepts(self@, answer@),
    {
        match (self, answer) {
            (ProgramState::Vertex { compile, .. }, _) => compile.accepts(answer),
            (ProgramState::Fragment { compile, .. }, _) => compile.accepts(answer),
            (ProgramState::Creating { .. }, Answer::Name(_)) => true,
            (ProgramState::Linking { meta, .. }, Answer::Value(value)) => *value == 0
                || names_are_valid(meta),
            (ProgramState::MeasuringLog { .. }, Answer::Value(value)) => *value >= 0,
            (
                ProgramState::ReadingLog { max_length, .. },
                Answer::Log { length, buffer },
            ) => log_is_readable(*max_length, *length, buffer),
            (ProgramState::Locating { meta, .. }, Answer::Locations(locations)) => {
                offsets_are_in_range(meta) && locations.len() as u128 == meta.images.len() as u128
                    + meta.uniforms.uniforms.len() as u128
            },
            _ => false,
        }
    }
}

/// Takes one step in the making of a program.
pub fn load_shader_internal(state: ProgramState, answer: Answer) -> (step: ProgramStep)
    requires
        program_accepts(state@, answer@),
    ensures
        step@ == program_next(state@, answer@),
{
    let mut calls: Vec<BuildCall> = Vec::new();
    match (state, answer) {
        (ProgramState::Vertex { compile, fragment_source, meta }, answer) => {
            match load_shader(compile, answer) {
                CompileStep::Ask(compile, calls) => ProgramStep::Ask(
                    ProgramState::Vertex { compile, fragment_source, meta },
                    calls,
                ),
                CompileStep::Done(Ok(vertex_shader)) => {
                    let (compile, calls) = CompileState::start(
                        GL_FRAGMENT_SHADER,
                        fragment_source.as_str(),
                    );
                    ProgramStep::Ask(
                        ProgramState::Fragment { vertex_shader, compile, meta },
                        calls,
                    )
                },
                CompileStep::Done(Err(error)) => ProgramStep::Done(Err(error)),
            }
        },
        (ProgramState::Fragment { vertex_shader, compile, meta }, answer) => {
            match load_shader(compile, answer) {
                CompileStep::Ask(compile, calls) => ProgramStep::Ask(
                    ProgramState::Fragment { vertex_shader, compile, meta },
                    calls,
                ),
                CompileStep::Done(Ok(fragment_shader)) => {
                    calls.push(BuildCall::CreateProgram);
                    assert(calls_view(calls@) =~= seq![BuildCallView::CreateProgram]);
                    ProgramStep::Ask(
                        ProgramState::Creating { vertex_shader, fragment_shader, meta },
                        calls,
                    )
                },
                CompileStep::Done(Err(error)) => ProgramStep::Done(Err(error)),
            }
        },
        (
            ProgramState::Creating { vertex_shader, fragment_shader, meta },
            Answer::Name(program),
        ) => {
            calls.push(BuildCall::AttachShader { program, shader: vertex_shader });
            calls.push(BuildCall::AttachShader { program, shader: fragment_shader });
            calls.push(BuildCall::LinkProgram { program });
            calls.push(BuildCall::GetProgramiv { program, pname: GL_LINK_STATUS });
            assert(calls_view(calls@) =~= seq![
                BuildCallView::AttachShader { program, shader: vertex_shader },
                BuildCallView::AttachShader { program, shader: fragment_shader },
                BuildCallView::LinkProgram { program },
                BuildCallView::GetProgramiv { program, pname: GL_LINK_STATUS },
            ]);
            ProgramStep::Ask(ProgramState::Linking { program, meta }, calls)
        },
        (ProgramState::Linking { program, meta }, Answer::Value(link_status)) => {
            if link_status == 0 {
                calls.push(BuildCall::GetProgramiv { program, pname: GL_INFO_LOG_LENGTH });
                assert(calls_view(calls@) =~= seq![
                    BuildCallView::GetProgramiv { program, pname: GL_INFO_LOG_LENGTH },
                ]);
                ProgramStep::Ask(ProgramState::MeasuringLog { program }, calls)
            } else {
                let calls = locate(program, &meta);
                ProgramStep::Ask(ProgramState::Locating { program, meta }, calls)
            }
        },
        (ProgramState::MeasuringLog { program }, Answer::Value(max_length)) => {
            calls.push(BuildCall::GetProgramInfoLog { program, max_length });
            assert(calls_view(calls@) =~= seq![
                BuildCallView::GetProgramInfoLog { program, max_length },
            ]);
            ProgramStep::Ask(ProgramState::ReadingLog { program, max_length }, calls)
        },
        (ProgramState::ReadingLog { .. }, Answer::Log { length, buffer }) => {
            ProgramStep::Done(Err(ShaderError::LinkError(read_log(&buffer, length))))
        },
        (ProgramState::Locating { program, meta }, Answer::Locations(locations)) => {
            ProgramStep::Done(Ok(assemble(program, &meta, &locations)))
        },
        _ => vstd::pervasive::unreached(),
    }
}

impl Shader {
    /// Takes a finished program into the context; the outcome of a failed one is passed on.
    pub fn new(
        ctx: &mut Context,
        built: Result<ShaderInternal, ShaderError>,
    ) -> (result: Result<Shader, ShaderError>)
        ensures
            built matches Ok(shader) ==> {
                &&& result == Ok::<Shader, ShaderError>(Shader(old(ctx).shaders.len()))
                &&& final(ctx).shaders@ == old(ctx).shaders@.push(shader)
                &&& *final(ctx) == (Context { shaders: final(ctx).shaders, ..*old(ctx) })
            },
            built matches Err(error) ==> {
                &&& result == Err::<Shader, ShaderError>(error)
                &&& *final(ctx) == *old(ctx)
            },
            old(ctx).wf() ==> final(ctx).wf(),
    {
        match built {
            Ok(shader) => {
                ctx.shaders.push(shader);
                Ok(Shader(ctx.shaders.len() - 1))
            },
            Err(error) => Err(error),
        }
    }
}

} // verus!
