use miniquad::context::Context;
use miniquad::gl::{
    GL_COMPILE_STATUS, GL_FRAGMENT_SHADER, GL_INFO_LOG_LENGTH, GL_LINK_STATUS, GL_VERTEX_SHADER,
};
use miniquad::program::{get_uniform_location, load_shader_internal, ProgramState, ProgramStep};
use miniquad::shader::{
    compilation_error, load_shader, log_is_readable, Answer, BuildCall, CompileState,
    CompileStep, ShaderError, ShaderImage, ShaderInternal, ShaderUniform,
};
use miniquad::text::reject_nul;
use miniquad::types::{
    Shader, ShaderMeta, ShaderType, UniformBlockLayout, UniformDesc, UniformType,
};

fn meta() -> ShaderMeta {
    let uniform = |name: &str, uniform_type, array_count| UniformDesc {
        name: name.to_string(),
        uniform_type,
        array_count,
    };
    ShaderMeta {
        uniforms: UniformBlockLayout {
            uniforms: vec![
                uniform("offset", UniformType::Float2, 1),
                uniform("bones", UniformType::Mat4, 3),
                uniform("tint", UniformType::Float4, 1),
            ],
        },
        images: vec!["tex".to_string(), "mask".to_string()],
    }
}

/// Takes a compilation through the given answers.
fn compile(shader_type: u32, source: &str, answers: Vec<Answer>) -> CompileStep {
    let (state, calls) = CompileState::start(shader_type, source);
    let mut step = CompileStep::Ask(state, calls);
    for answer in answers {
        match step {
            CompileStep::Ask(state, _) => {
                assert!(state.accepts(&answer));
                step = load_shader(state, answer);
            }
            CompileStep::Done(_) => panic!("an answer came after the end"),
        }
    }
    step
}

/// Takes the making of a program through the given answers.
fn build(vertex: &str, fragment: &str, meta: ShaderMeta, answers: Vec<Answer>) -> ProgramStep {
    let (state, calls) = ProgramState::start(vertex, fragment, meta);
    let mut step = ProgramStep::Ask(state, calls);
    for answer in answers {
        match step {
            ProgramStep::Ask(state, _) => {
                assert!(state.accepts(&answer));
                step = load_shader_internal(state, answer);
            }
            ProgramStep::Done(_) => panic!("an answer came after the end"),
        }
    }
    step
}

fn calls_of(step: ProgramStep) -> String {
    match step {
        ProgramStep::Ask(_, calls) => format!("{:?}", calls),
        ProgramStep::Done(_) => panic!("no more calls"),
    }
}

fn log(text: &str) -> Vec<Answer> {
    // The driver is asked for `max_length` bytes; the buffer has room for one more.
    let max_length = text.len() as i32 + 1;
    let mut buffer = text.as_bytes().to_vec();
    buffer.push(0);
    buffer.push(0);
    vec![Answer::Value(max_length), Answer::Log { length: max_length, buffer }]
}

fn compiled() -> Vec<Answer> {
    vec![
        Answer::Name(5),
        Answer::Value(1),
        Answer::Name(6),
        Answer::Value(1),
        Answer::Name(7),
    ]
}

#[test]
fn a_compilation_asks_for_its_status() {
    let (state, calls) = CompileState::start(GL_VERTEX_SHADER, "void main() {}");
    assert!(matches!(calls[..], [BuildCall::CreateShader { shader_type: GL_VERTEX_SHADER }]));
    assert!(!state.accepts(&Answer::Name(0)));
    match load_shader(state, Answer::Name(5)) {
        CompileStep::Ask(_, calls) => assert!(matches!(
            &calls[..],
            [
                BuildCall::ShaderSource { shader: 5, source },
                BuildCall::CompileShader { shader: 5 },
                BuildCall::GetShaderiv { shader: 5, pname: GL_COMPILE_STATUS },
            ] if source == "void main() {}"
        )),
        CompileStep::Done(_) => panic!("too early"),
    }
}

#[test]
fn a_shader_that_compiles_is_the_result() {
    let step = compile(GL_FRAGMENT_SHADER, "ok", vec![Answer::Name(5), Answer::Value(1)]);
    assert!(matches!(step, CompileStep::Done(Ok(5))));
}

#[test]
fn a_source_with_a_zero_byte_is_refused() {
    let step = compile(GL_VERTEX_SHADER, "a\0b", vec![Answer::Name(5)]);
    match step {
        CompileStep::Done(Err(ShaderError::FFINulError(error))) => {
            assert_eq!(error.position, 1);
            assert_eq!(error.bytes, b"a\0b".to_vec());
        }
        _ => panic!("the zero byte went through"),
    }
}

#[test]
fn a_shader_that_does_not_compile_gives_its_log() {
    let stages =
        [(GL_VERTEX_SHADER, ShaderType::Vertex), (GL_FRAGMENT_SHADER, ShaderType::Fragment)];
    for (stage, expected) in stages {
        let mut answers = vec![Answer::Name(5), Answer::Value(0)];
        answers.extend(log("syntax error"));
        match compile(stage, "bad", answers) {
            CompileStep::Done(Err(ShaderError::CompilationError {
                shader_type,
                error_message,
            })) => {
                assert_eq!(shader_type, expected);
                assert_eq!(error_message, "syntax error");
            }
            _ => panic!("the shader compiled"),
        }
    }
}

#[test]
fn a_log_with_invalid_bytes_is_readable() {
    let answers = vec![
        Answer::Name(5),
        Answer::Value(0),
        Answer::Value(3),
        Answer::Log { length: 3, buffer: vec![0xff, b'!', 0, 0] },
    ];
    match compile(GL_VERTEX_SHADER, "bad", answers) {
        CompileStep::Done(Err(ShaderError::CompilationError { error_message, .. })) => {
            assert_eq!(error_message, "\u{fffd}!");
        }
        _ => panic!("the shader compiled"),
    }
}

#[test]
fn logs_are_asked_for_by_their_length() {
    let step = compile(GL_VERTEX_SHADER, "bad", vec![Answer::Name(5), Answer::Value(0)]);
    match step {
        CompileStep::Ask(state, calls) => {
            assert!(matches!(
                calls[..],
                [BuildCall::GetShaderiv { shader: 5, pname: GL_INFO_LOG_LENGTH }]
            ));
            assert!(!state.accepts(&Answer::Value(-1)));
            match load_shader(state, Answer::Value(9)) {
                CompileStep::Ask(_, calls) => assert!(matches!(
                    calls[..],
                    [BuildCall::GetShaderInfoLog { shader: 5, max_length: 9 }]
                )),
                CompileStep::Done(_) => panic!("too early"),
            }
        }
        CompileStep::Done(_) => panic!("too early"),
    }
    assert!(log_is_readable(3, 1, &vec![0; 4]));
    assert!(log_is_readable(3, 5, &vec![0; 4]));
    assert!(!log_is_readable(3, 6, &vec![0; 4]));
    assert!(!log_is_readable(3, 0, &vec![0; 4]));
    assert!(!log_is_readable(3, 1, &vec![0; 3]));
}

#[test]
fn a_compilation_error_names_its_stage() {
    let error = compilation_error(GL_FRAGMENT_SHADER, "oops".to_string());
    assert_eq!(
        format!("{:?}", error),
        "CompilationError { shader_type: Fragment, error_message: \"oops\" }"
    );
}

#[test]
fn a_zero_byte_becomes_a_shader_error() {
    let nul = reject_nul("\0").unwrap_err();
    assert!(matches!(ShaderError::from(nul), ShaderError::FFINulError(_)));
}

#[test]
fn a_program_is_linked_and_its_inputs_found() {
    let mut answers = compiled();
    let linking = build("v", "f", meta(), answers.clone());
    match linking {
        ProgramStep::Ask(_, calls) => assert!(matches!(
            calls[..],
            [
                BuildCall::AttachShader { program: 7, shader: 5 },
                BuildCall::AttachShader { program: 7, shader: 6 },
                BuildCall::LinkProgram { program: 7 },
                BuildCall::GetProgramiv { program: 7, pname: GL_LINK_STATUS },
            ]
        )),
        ProgramStep::Done(_) => panic!("too early"),
    }
    answers.push(Answer::Value(1));
    let locating = build("v", "f", meta(), answers.clone());
    let names = ["tex", "mask", "offset", "bones", "tint"];
    let mut expected = vec![BuildCall::UseProgram { program: 7 }];
    for name in names {
        expected.push(BuildCall::GetUniformLocation { program: 7, name: name.to_string() });
    }
    assert_eq!(calls_of(locating), format!("{:?}", expected));
    answers.push(Answer::Locations(vec![10, -1, 11, -1, 13]));
    match build("v", "f", meta(), answers) {
        ProgramStep::Done(Ok(shader)) => {
            assert_eq!(shader.program, 7);
            assert_eq!(
                shader.images,
                vec![ShaderImage { gl_loc: Some(10) }, ShaderImage { gl_loc: None }]
            );
            assert_eq!(
                shader.uniforms,
                vec![
                    ShaderUniform {
                        gl_loc: Some(11),
                        offset: 0,
                        size: 8,
                        uniform_type: UniformType::Float2,
                        array_count: 1,
                    },
                    ShaderUniform {
                        gl_loc: None,
                        offset: 8,
                        size: 64,
                        uniform_type: UniformType::Mat4,
                        array_count: 3,
                    },
                    ShaderUniform {
                        gl_loc: Some(13),
                        offset: 200,
                        size: 16,
                        uniform_type: UniformType::Float4,
                        array_count: 1,
                    },
                ]
            );
        }
        _ => panic!("no program"),
    }
}

#[test]
fn a_failed_vertex_shader_ends_the_work() {
    match build("a\0", "f", meta(), vec![Answer::Name(5)]) {
        ProgramStep::Done(Err(ShaderError::FFINulError(error))) => assert_eq!(error.position, 1),
        _ => panic!("the zero byte went through"),
    }
    let mut answers = vec![Answer::Name(5), Answer::Value(0)];
    answers.extend(log("bad vertex"));
    match build("v", "f", meta(), answers) {
        ProgramStep::Done(Err(ShaderError::CompilationError { shader_type, error_message })) => {
            assert_eq!(shader_type, ShaderType::Vertex);
            assert_eq!(error_message, "bad vertex");
        }
        _ => panic!("the shader compiled"),
    }
}

#[test]
fn a_failed_fragment_shader_ends_the_work() {
    let mut answers =
        vec![Answer::Name(5), Answer::Value(1), Answer::Name(6), Answer::Value(0)];
    answers.extend(log("bad fragment"));
    match build("v", "f", meta(), answers) {
        ProgramStep::Done(Err(ShaderError::CompilationError { shader_type, error_message })) => {
            assert_eq!(shader_type, ShaderType::Fragment);
            assert_eq!(error_message, "bad fragment");
        }
        _ => panic!("the shader compiled"),
    }
}

#[test]
fn a_failed_link_gives_its_log() {
    let mut answers = compiled();
    answers.push(Answer::Value(0));
    assert_eq!(
        calls_of(build("v", "f", meta(), answers.clone())),
        format!("{:?}", vec![BuildCall::GetProgramiv { program: 7, pname: GL_INFO_LOG_LENGTH }])
    );
    answers.extend(log("unresolved varying"));
    match build("v", "f", meta(), answers) {
        ProgramStep::Done(Err(ShaderError::LinkError(message))) => {
            assert_eq!(message, "unresolved varying");
        }
        _ => panic!("the program linked"),
    }
}

#[test]
fn a_linked_program_needs_names_that_the_driver_can_take() {
    let mut torn = meta();
    torn.images[1] = "ma\0sk".to_string();
    match build("v", "f", torn, compiled()) {
        ProgramStep::Ask(state, _) => {
            assert!(state.accepts(&Answer::Value(0)));
            assert!(!state.accepts(&Answer::Value(1)));
        }
        ProgramStep::Done(_) => panic!("too early"),
    }
}

#[test]
fn locations_are_missing_where_a_program_does_not_use_them() {
    assert_eq!(get_uniform_location(-1), None);
    assert_eq!(get_uniform_location(0), Some(0));
    assert_eq!(get_uniform_location(12), Some(12));
}

#[test]
fn a_shader_gets_the_next_handle() {
    let mut ctx = Context::new(0, 1, &mut Vec::new());
    let program = |program| ShaderInternal { program, images: vec![], uniforms: vec![] };
    assert_eq!(Shader::new(&mut ctx, Ok(program(3))).unwrap(), Shader(0));
    assert_eq!(Shader::new(&mut ctx, Ok(program(4))).unwrap(), Shader(1));
    assert_eq!(ctx.shaders[1].program, 4);
    let refused = Shader::new(&mut ctx, Err(ShaderError::LinkError("no".to_string())));
    assert!(matches!(refused, Err(ShaderError::LinkError(_))));
    assert_eq!(ctx.shaders.len(), 2);
}
