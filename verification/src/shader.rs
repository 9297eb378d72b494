//! Compiling shaders.
//!
//! Building a program is a conversation with the driver. Each step takes the driver's answer to
//! the calls of the step before, and either asks for more calls or is done.
use vstd::prelude::*;

use crate::gl::{
    GLenum, GLint, GLuint, GL_COMPILE_STATUS, GL_FRAGMENT_SHADER, GL_INFO_LOG_LENGTH,
    GL_VERTEX_SHADER,
};
use crate::text::{
    has_nul, log_text, nul_error, read_log, reject_nul, NulError, NulErrorView,
};
use crate::types::{ShaderType, UniformType};

verus! {

/// Where a uniform lives in a program; `None` if the program does not use it.
pub type UniformLocation = Option<GLint>;

/// An image that a shader samples.
#[derive(Clone, Copy, Debug, PartialEq, Eq, Structural)]
pub struct ShaderImage {
    pub gl_loc: UniformLocation,
}

/// A uniform of a shader; `offset` is its place in the uniform data, in bytes.
#[derive(Clone, Copy, Debug, PartialEq, Eq, Structural)]
pub struct ShaderUniform {
    pub gl_loc: UniformLocation,
    pub offset: usize,
    pub size: usize,
    pub uniform_type: UniformType,
    pub array_count: i32,
}

/// A linked program with the locations of what it reads.
pub struct ShaderInternal {
    pub program: GLuint,
    pub images: Vec<ShaderImage>,
    pub uniforms: Vec<ShaderUniform>,
}

/// A linked program as a mathematical value.
#[verifier::ext_equal]
pub struct ShaderInternalView {
    pub program: GLuint,
    pub images: Seq<ShaderImage>,
    pub uniforms: Seq<ShaderUniform>,
}

impl View for ShaderInternal {
    type V = ShaderInternalView;

    open spec fn view(&self) -> ShaderInternalView {
        ShaderInternalView {
            program: self.program,
            images: self.images@,
            uniforms: self.uniforms@,
        }
    }
}

/// Why a shader could not be made.
#[derive(Clone, Debug)]
pub enum ShaderError {
    CompilationError { shader_type: ShaderType, error_message: String },
    LinkError(String),
    /// Shader strings should never contain a zero byte in the middle
    FFINulError(NulError),
}

/// The error as a mathematical value.
#[verifier::ext_equal]
pub enum ShaderErrorView {
    CompilationError { shader_type: ShaderType, error_message: Seq<char> },
    LinkError { error_message: Seq<char> },
    FFINulError { nul: NulErrorView },
}

impl View for ShaderError {
    type V = ShaderErrorView;

    open spec fn view(&self) -> ShaderErrorView {
        match self {
            ShaderError::CompilationError { shader_type, error_message } => {
                ShaderErrorView::CompilationError {
                    shader_type: *shader_type,
                    error_message: error_message@,
                }
            },
            ShaderError::LinkError(error_message) => ShaderErrorView::LinkError {
                error_message: error_message@,
            },
            ShaderError::FFINulError(nul) => ShaderErrorView::FFINulError { nul: nul@ },
        }
    }
}

impl From<NulError> for ShaderError {
    fn from(e: NulError) -> (error: ShaderError) {
        ShaderError::FFINulError(e)
    }
}

impl vstd::std_specs::convert::FromSpecImpl<NulError> for ShaderError {
    open spec fn obeys_from_spec() -> bool {
        true
    }

    open spec fn from_spec(e: NulError) -> ShaderError {
        ShaderError::FFINulError(e)
    }
}

/// One call of the conversation with the driver. Each variant is named after its entry point.
#[derive(Clone, Debug)]
pub enum BuildCall {
    CreateShader { shader_type: GLenum },
    ShaderSource { shader: GLuint, source: String },
    CompileShader { shader: GLuint },
    GetShaderiv { shader: GLuint, pname: GLenum },
    /// Asks for at most `max_length` bytes, in a zeroed buffer of one byte more
    GetShaderInfoLog { shader: GLuint, max_length: i32 },
    CreateProgram,
    AttachShader { program: GLuint, shader: GLuint },
    LinkProgram { program: GLuint },
    GetProgramiv { program: GLuint, pname: GLenum },
    /// Asks for at most `max_length` bytes, in a zeroed buffer of one byte more
    GetProgramInfoLog { program: GLuint, max_length: i32 },
    UseProgram { program: GLuint },
    GetUniformLocation { program: GLuint, name: String },
}

/// The call as a mathematical value.
pub enum BuildCallView {
    CreateShader { shader_type: GLenum },
    ShaderSource { shader: GLuint, source: Seq<char> },
    CompileShader { shader: GLuint },
    GetShaderiv { shader: GLuint, pname: GLenum },
    GetShaderInfoLog { shader: GLuint, max_length: i32 },
    CreateProgram,
    AttachShader { program: GLuint, shader: GLuint },
    LinkProgram { program: GLuint },
    GetProgramiv { program: GLuint, pname: GLenum },
    GetProgramInfoLog { program: GLuint, max_length: i32 },
    UseProgram { program: GLuint },
    GetUniformLocation { program: GLuint, name: Seq<char> },
}

impl View for BuildCall {
    type V = BuildCallView;

    open spec fn view(&self) -> BuildCallView {
        match self {
            BuildCall::CreateShader { shader_type } => BuildCallView::CreateShader {
                shader_type: *shader_type,
            },
            BuildCall::ShaderSource { shader, source } => BuildCallView::ShaderSource {
                shader: *shader,
                source: source@,
            },
            BuildCall::CompileShader { shader } => BuildCallView::CompileShader {
                shader: *shader,
            },
            BuildCall::GetShaderiv { shader, pname } => BuildCallView::GetShaderiv {
                shader: *shader,
                pname: *pname,
            },
            BuildCall::GetShaderInfoLog { shader, max_length } => {
                BuildCallView::GetShaderInfoLog { shader: *shader, max_length: *max_length }
            },
            BuildCall::CreateProgram => BuildCallView::CreateProgram,
            BuildCall::AttachShader { program, shader } => BuildCallView::AttachShader {
                program: *program,
                shader: *shader,
            },
            BuildCall::LinkProgram { program } => BuildCallView::LinkProgram {
                program: *program,
            },
            BuildCall::GetProgramiv { program, pname } => BuildCallView::GetProgramiv {
                program: *program,
                pname: *pname,
            },
            BuildCall::GetProgramInfoLog { program, max_length } => {
                BuildCallView::GetProgramInfoLog { program: *program, max_length: *max_length }
            },
            BuildCall::UseProgram { program } => BuildCallView::UseProgram { program: *program },
            BuildCall::GetUniformLocation { program, name } => {
                BuildCallView::GetUniformLocation { program: *program, name: name@ }
            },
        }
    }
}

/// A list of calls as a mathematical value.
pub open spec fn calls_view(calls: Seq<BuildCall>) -> Seq<BuildCallView> {
    calls.map_values(|call: BuildCall| call@)
}

/// What the driver answers to the questions among a step's calls.
#[derive(Clone, Debug)]
pub enum Answer {
    /// The name of a new object
    Name(GLuint),
    /// A status or a length
    Value(GLint),
    /// An information log: how many bytes were written, and the buffer
    Log { length: i32, buffer: Vec<u8> },
    /// Uniform locations, in the order of the questions
    Locations(Vec<GLint>),
}

/// The answer as a mathematical value.
#[verifier::ext_equal]
pub enum AnswerView {
    Name { name: GLuint },
    Value { value: GLint },
    Log { length: int, buffer: Seq<u8> },
    Locations { locations: Seq<GLint> },
}

impl View for Answer {
    type V = AnswerView;

    open spec fn view(&self) -> AnswerView {
        match self {
            Answer::Name(name) => AnswerView::Name { name: *name },
            Answer::Value(value) => AnswerView::Value { value: *value },
            Answer::Log { length, buffer } => AnswerView::Log {
                length: *length as int,
                buffer: buffer@,
            },
            Answer::Locations(locations) => AnswerView::Locations { locations: locations@ },
        }
    }
}

/// A log that the driver may hand over when it was asked for `max_length` bytes.
pub open spec fn log_readable(max_length: i32, length: int, buffer: Seq<u8>) -> bool {
    &&& buffer.len() == max_length + 1
    &&& 1 <= length <= buffer.len() + 1
}

/// How far the compilation of a shader has come.
pub enum CompileState {
    /// Waiting for the name of the new shader
    Creating { shader_type: GLenum, source: String },
    /// Waiting for the compile status
    Compiling { shader_type: GLenum, shader: GLuint },
    /// Waiting for the length of the log of a failed compilation
    MeasuringLog { shader_type: GLenum, shader: GLuint },
    /// Waiting for that log
    ReadingLog { shader_type: GLenum, shader: GLuint, max_length: i32 },
}

/// The state as a mathematical value.
pub enum CompileStateView {
    Creating { shader_type: GLenum, source: Seq<char> },
    Compiling { shader_type: GLenum, shader: GLuint },
    MeasuringLog { shader_type: GLenum, shader: GLuint },
    ReadingLog { shader_type: GLenum, shader: GLuint, max_length: i32 },
}

impl View for CompileState {
    type V = CompileStateView;

    open spec fn view(&self) -> CompileStateView {
        match self {
            CompileState::Creating { shader_type, source } => CompileStateView::Creating {
                shader_type: *shader_type,
                source: source@,
            },
            CompileState::Compiling { shader_type, shader } => CompileStateView::Compiling {
                shader_type: *shader_type,
                shader: *shader,
            },
            CompileState::MeasuringLog { shader_type, shader } => {
                CompileStateView::MeasuringLog { shader_type: *shader_type, shader: *shader }
            },
            CompileState::ReadingLog { shader_type, shader, max_length } => {
                CompileStateView::ReadingLog {
                    shader_type: *shader_type,
                    shader: *shader,
                    max_length: *max_length,
                }
            },
        }
    }
}

/// The outcome of a step of a compilation.
pub enum CompileStep {
    /// Perform the calls, then go on from the state with the answer
    Ask(CompileState, Vec<BuildCall>),
    /// The compiled shader, or why there is none
    Done(Result<GLuint, ShaderError>),
}

/// The outcome as a mathematical value.
#[verifier::ext_equal]
pub enum CompileStepView {
    Ask { state: CompileStateView, calls: Seq<BuildCallView> },
    Compiled { shader: GLuint },
    Failed { error: ShaderErrorView },
}

impl View for CompileStep {
    type V = CompileStepView;

    open spec fn view(&self) -> CompileStepView {
        match self {
            CompileStep::Ask(state, calls) => CompileStepView::Ask {
                state: state@,
                calls: calls_view(calls@),
            },
            CompileStep::Done(Ok(shader)) => CompileStepView::Compiled { shader: *shader },
            CompileStep::Done(Err(error)) => CompileStepView::Failed { error: error@ },
        }
    }
}

/// The shader stages that can be named in an error.
pub open spec fn known_stage(shader_type: GLenum) -> bool {
    shader_type == GL_VERTEX_SHADER || shader_type == GL_FRAGMENT_SHADER
}

/// The error for a shader that does not compile.
pub open spec fn compilation_failed(shader_type: GLenum, message: Seq<char>) -> ShaderErrorView {
    ShaderErrorView::CompilationError {
        shader_type: if shader_type == GL_VERTEX_SHADER {
            ShaderType::Vertex
        } else {
            ShaderType::Fragment
        },
        error_message: message,
    }
}

/// Answers with which a compilation can go on.
pub open spec fn compile_accepts(state: CompileStateView, answer: AnswerView) -> bool {
    match state {
        CompileStateView::Creating { .. } => answer matches AnswerView::Name { name } && name != 0,
        CompileStateView::Compiling { .. } => answer is Value,
        CompileStateView::MeasuringLog { .. } => answer matches AnswerView::Value { value } && 0
            <= value,
        CompileStateView::ReadingLog { shader_type, max_length, .. } => {
            &&& known_stage(shader_type)
            &&& answer matches AnswerView::Log { length, buffer } && log_readable(
                max_length,
                length,
                buffer,
            )
        },
    }
}

/// The step that a compilation takes on an answer.
pub open spec fn compile_next(state: CompileStateView, answer: AnswerView) -> CompileStepView {
    match state {
        CompileStateView::Creating { shader_type, source } => {
            let shader = answer->name;
            if has_nul(source) {
                CompileStepView::Failed {
                    error: ShaderErrorView::FFINulError { nul: nul_error(source) },
                }
            } else {
                CompileStepView::Ask {
                    state: CompileStateView::Compiling { shader_type, shader },
                    calls: seq![
                        BuildCallView::ShaderSource { shader, source },
                        BuildCallView::CompileShader { shader },
                        BuildCallView::GetShaderiv { shader, pname: GL_COMPILE_STATUS },
                    ],
                }
            }
        },
        CompileStateView::Compiling { shader_type, shader } => if answer->value == 0 {
            CompileStepView::Ask {
                state: CompileStateView::MeasuringLog { shader_type, shader },
                calls: seq![BuildCallView::GetShaderiv { shader, pname: GL_INFO_LOG_LENGTH }],
            }
        } else {
            CompileStepView::Compiled { shader }
        },
        CompileStateView::MeasuringLog { shader_type, shader } => CompileStepView::Ask {
            state: CompileStateView::ReadingLog { shader_type, shader, max_length: answer->value },
            calls: seq![BuildCallView::GetShaderInfoLog { shader, max_length: answer->value }],
        },
        CompileStateView::ReadingLog { shader_type, .. } => CompileStepView::Failed {
            error: compilation_failed(shader_type, log_text(answer->buffer, answer->length)),
        },
    }
}

impl CompileState {
    /// The state from which the compilation of `source` starts, and the first call.
    pub fn start(shader_type: GLenum, source: &str) -> (begun: (CompileState, Vec<BuildCall>))
        ensures
            begun.0@ == (CompileStateView::Creating { shader_type, source: source@ }),
            calls_view(begun.1@) == seq![BuildCallView::CreateShader { shader_type }],
    {
        let mut calls: Vec<BuildCall> = Vec::new();
        calls.push(BuildCall::CreateShader { shader_type });
        assert(calls_view(calls@) =~= seq![BuildCallView::CreateShader { shader_type }]);
        (CompileState::Creating { shader_type, source: source.to_owned() }, calls)
    }

    /// Tells whether the compilation can go on with `answer`.
    pub fn accepts(&self, answer: &Answer) -> (accepted: bool)
        ensures
            accepted == compile_accepts(self@, answer@),
    {
        match (self, answer) {
            (CompileState::Creating { .. }, Answer::Name(name)) => *name != 0,
            (CompileState::Compiling { .. }, Answer::Value(_)) => true,
            (CompileState::MeasuringLog { .. }, Answer::Value(value)) => *value >= 0,
            (
                CompileState::ReadingLog { shader_type, max_length, .. },
                Answer::Log { length, buffer },
            ) => (*shader_type == GL_VERTEX_SHADER || *shader_type == GL_FRAGMENT_SHADER)
                && log_is_readable(*max_length, *length, buffer),
            _ => false,
        }
    }
}

/// Tells whether the driver may hand over a log when it was asked for `max_length` bytes.
pub fn log_is_readable(max_length: i32, length: i32, buffer: &Vec<u8>) -> (readable: bool)
    ensures
        readable == log_readable(max_length, length as int, buffer@),
{
    buffer.len() as i128 == max_length as i128 + 1 && 1 <= length && length as i128
        <= buffer.len() as i128 + 1
}

/// The error for a shader that does not compile.
pub fn compilation_error(shader_type: GLenum, error_message: String) -> (error: ShaderError)
    requires
        known_stage(shader_type),
    ensures
        error@ == compilation_failed(shader_type, error_message@),
{
    let shader_type = if shader_type == GL_VERTEX_SHADER {
        ShaderType::Vertex
    } else {
        ShaderType::Fragment
    };
    ShaderError::CompilationError { shader_type, error_message }
}

/// Takes one step of the compilation of a shader.
pub fn load_shader(state: CompileState, answer: Answer) -> (step: CompileStep)
    requires
        compile_accepts(state@, answer@),
    ensures
        step@ == compile_next(state@, answer@),
{
    let mut calls: Vec<BuildCall> = Vec::new();
    match (state, answer) {
        (CompileState::Creating { shader_type, source }, Answer::Name(shader)) => {
            if let Err(error) = reject_nul(source.as_str()) {
                return CompileStep::Done(Err(ShaderError::from(error)));
            }
            let ghost text = source@;
            calls.push(BuildCall::ShaderSource { shader, source });
            calls.push(BuildCall::CompileShader { shader });
            calls.push(BuildCall::GetShaderiv { shader, pname: GL_COMPILE_STATUS });
            assert(calls_view(calls@) =~= seq![
                BuildCallView::ShaderSource { shader, source: text },
                BuildCallView::CompileShader { shader },
                BuildCallView::GetShaderiv { shader, pname: GL_COMPILE_STATUS },
            ]);
            CompileStep::Ask(CompileState::Compiling { shader_type, shader }, calls)
        },
        (CompileState::Compiling { shader_type, shader }, Answer::Value(is_compiled)) => {
            if is_compiled == 0 {
                calls.push(BuildCall::GetShaderiv { shader, pname: GL_INFO_LOG_LENGTH });
                assert(calls_view(calls@) =~= seq![
                    BuildCallView::GetShaderiv { shader, pname: GL_INFO_LOG_LENGTH },
                ]);
                CompileStep::Ask(CompileState::MeasuringLog { shader_type, shader }, calls)
            } else {
                CompileStep::Done(Ok(shader))
            }
        },
        (CompileState::MeasuringLog { shader_type, shader }, Answer::Value(max_length)) => {
            calls.push(BuildCall::GetShaderInfoLog { shader, max_length });
            assert(calls_view(calls@) =~= seq![
                BuildCallView::GetShaderInfoLog { shader, max_length },
            ]);
            CompileStep::Ask(CompileState::ReadingLog { shader_type, shader, max_length }, calls)
        },
        (CompileState::ReadingLog { shader_type, .. }, Answer::Log { length, buffer }) => {
            let error_message = read_log(&buffer, length);
            CompileStep::Done(Err(compilation_error(shader_type, error_message)))
        },
        _ => vstd::pervasive::unreached(),
    }
}

} // verus!
