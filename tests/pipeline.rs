use glshader::assemble::{BuildAction, BuildEvent, ShaderBuild};
use glshader::error::Error;
use glshader::fake::{FakeGpu, Slot};
use glshader::gpu::{log_buffer, GpuAction, GpuEvent};
use glshader::program::{LinkState, Program};
use glshader::shader::{CompileState, Shader};
use glshader::stage::{shader_kind_for_name, ShaderKind};
use glshader::text::{diagnostic_bytes, diagnostic_text, nul_terminated, whitespace_buffer};

fn drive_compile(gpu: &mut FakeGpu, start: (CompileState, GpuAction)) -> Result<Shader, String> {
    let (mut state, mut action) = start;
    for _ in 0..100 {
        if state.is_finished() {
            break;
        }
        let event = gpu.perform(action);
        let next = state.step(event);
        state = next.0;
        action = next.1;
    }
    state.into_result().expect("compilation finishes")
}

fn drive_link(gpu: &mut FakeGpu, start: (LinkState, GpuAction)) -> Result<Program, String> {
    let (mut state, mut action) = start;
    for _ in 0..100 {
        if state.is_finished() {
            break;
        }
        let event = gpu.perform(action);
        let next = state.step(event);
        state = next.0;
        action = next.1;
    }
    state.into_result().expect("linkage finishes")
}

fn compile(gpu: &mut FakeGpu, source: &str, kind: ShaderKind) -> Result<Shader, String> {
    let start = Shader::from_source(source, kind).expect("no NUL in source");
    drive_compile(gpu, start)
}

const VERTEX_SOURCE: &str = "#version 330 core\nlayout (location = 0) in vec3 Position;\nvoid main() { gl_Position = vec4(Position, 1.0); }\n";
const FRAGMENT_SOURCE: &str = "#version 330 core\nout vec4 Color;\nvoid main() { Color = vec4(1.0, 0.5, 0.2, 1.0); }\n";

#[test]
fn suffix_vert_is_vertex() {
    assert_eq!(shader_kind_for_name("triangle.vert").unwrap(), ShaderKind::Vertex);
}

#[test]
fn suffix_frag_is_fragment() {
    assert_eq!(shader_kind_for_name("triangle.frag").unwrap(), ShaderKind::Fragment);
}

#[test]
fn suffix_txt_is_unknown() {
    match shader_kind_for_name("triangle.txt") {
        Err(Error::CanNotDetermineShaderTypeForResource { name }) => assert_eq!(name, "triangle.txt"),
        other => panic!("unexpected {:?}", other),
    }
}

#[test]
fn suffix_alone_and_short_names() {
    assert_eq!(shader_kind_for_name(".vert").unwrap(), ShaderKind::Vertex);
    assert!(shader_kind_for_name("vert").is_err());
    assert!(shader_kind_for_name("").is_err());
    assert!(shader_kind_for_name("a.frag.txt").is_err());
}

#[test]
fn accepted_source_compiles() {
    let mut gpu = FakeGpu::new(true, true, Vec::new());
    let shader = compile(&mut gpu, VERTEX_SOURCE, ShaderKind::Vertex).unwrap();
    assert_eq!(shader.kind(), ShaderKind::Vertex);
    assert_eq!(shader.id(), 1);
    assert!(gpu.is_shader(shader.id()));
    assert!(!gpu.misuse);
}

#[test]
fn compile_hands_nul_terminated_source() {
    let (state, action) = Shader::from_source("void main() {}", ShaderKind::Fragment).unwrap();
    assert!(matches!(action, GpuAction::CreateShader { kind: ShaderKind::Fragment }));
    let (_, action) = state.step(GpuEvent::Created { id: 7 });
    match action {
        GpuAction::CompileShader { shader, source } => {
            assert_eq!(shader, 7);
            assert_eq!(source, b"void main() {}\0".to_vec());
        }
        other => panic!("unexpected {:?}", other),
    }
}

#[test]
fn source_with_nul_is_refused() {
    assert!(Shader::from_source("void\0main", ShaderKind::Vertex).is_none());
}

#[test]
fn rejected_source_reports_diagnostic() {
    let log = b"0:1(1): error: syntax error, unexpected IDENTIFIER".to_vec();
    let mut gpu = FakeGpu::new(false, true, log);
    let message = compile(&mut gpu, "void main( {", ShaderKind::Fragment).unwrap_err();
    assert_eq!(message, "0:1(1): error: syntax error, unexpected IDENTIFIER");
    assert!(!message.is_empty());
    assert!(!gpu.is_shader(1));
    assert!(!gpu.misuse);
}

#[test]
fn compile_ignores_unexpected_reply() {
    let (state, _) = Shader::from_source("x", ShaderKind::Vertex).unwrap();
    let (state, action) = state.step(GpuEvent::Completed);
    assert!(matches!(action, GpuAction::Wait));
    assert!(matches!(state, CompileState::AwaitCreate { .. }));
}

#[test]
fn accepted_pair_links_and_activates() {
    let mut gpu = FakeGpu::new(true, true, Vec::new());
    let vertex = compile(&mut gpu, VERTEX_SOURCE, ShaderKind::Vertex).unwrap();
    let fragment = compile(&mut gpu, FRAGMENT_SOURCE, ShaderKind::Fragment).unwrap();
    let shaders = vec![vertex, fragment];
    let program = drive_link(&mut gpu, Program::from_shaders(&shaders)).unwrap();
    assert_eq!(program.id(), 3);
    assert!(gpu.is_program(program.id()));
    let event = gpu.perform(program.set_used());
    assert!(matches!(event, GpuEvent::Completed));
    assert!(!gpu.misuse);
}

#[test]
fn link_attaches_then_detaches_in_order() {
    let mut gpu = FakeGpu::new(true, true, Vec::new());
    gpu.perform(GpuAction::CreateProgram);
    gpu.perform(GpuAction::CreateProgram);
    gpu.perform(GpuAction::CreateProgram);
    let vertex = compile(&mut gpu, VERTEX_SOURCE, ShaderKind::Vertex).unwrap();
    let fragment = compile(&mut gpu, FRAGMENT_SOURCE, ShaderKind::Fragment).unwrap();
    let shaders = vec![vertex, fragment];
    let (state, action) = Program::from_shaders(&shaders);
    assert!(matches!(action, GpuAction::CreateProgram));
    let (state, action) = state.step(GpuEvent::Created { id: 9 });
    assert!(matches!(action, GpuAction::AttachShader { program: 9, shader: 4 }));
    let (state, action) = state.step(GpuEvent::Completed);
    assert!(matches!(action, GpuAction::AttachShader { program: 9, shader: 5 }));
    let (state, action) = state.step(GpuEvent::Completed);
    assert!(matches!(action, GpuAction::LinkProgram { program: 9 }));
    let (state, action) = state.step(GpuEvent::Completed);
    assert!(matches!(action, GpuAction::QueryLinkStatus { program: 9 }));
    let (state, action) = state.step(GpuEvent::Status { value: 1 });
    assert!(matches!(action, GpuAction::DetachShader { program: 9, shader: 4 }));
    let (state, action) = state.step(GpuEvent::Completed);
    assert!(matches!(action, GpuAction::DetachShader { program: 9, shader: 5 }));
    let (state, action) = state.step(GpuEvent::Completed);
    assert!(matches!(action, GpuAction::Wait));
    assert_eq!(state.into_result().unwrap().unwrap().id(), 9);
}

#[test]
fn vertex_only_link_fails() {
    let log = b"error: no fragment shader in program".to_vec();
    let mut gpu = FakeGpu::new(true, false, log);
    let vertex = compile(&mut gpu, VERTEX_SOURCE, ShaderKind::Vertex).unwrap();
    let shaders = vec![vertex];
    let message = drive_link(&mut gpu, Program::from_shaders(&shaders)).unwrap_err();
    assert_eq!(message, "error: no fragment shader in program");
    assert!(!gpu.is_program(2));
    assert!(gpu.is_shader(1));
    assert!(!gpu.misuse);
}

#[test]
fn program_release_keeps_released_shaders_apart() {
    let mut gpu = FakeGpu::new(true, true, Vec::new());
    let vertex = compile(&mut gpu, VERTEX_SOURCE, ShaderKind::Vertex).unwrap();
    let fragment = compile(&mut gpu, FRAGMENT_SOURCE, ShaderKind::Fragment).unwrap();
    let shaders = vec![vertex, fragment];
    let program = drive_link(&mut gpu, Program::from_shaders(&shaders)).unwrap();
    let program_id = program.id();
    for shader in shaders {
        gpu.perform(shader.release());
    }
    assert!(!gpu.is_shader(1));
    assert!(!gpu.is_shader(2));
    assert!(gpu.is_program(program_id));
    gpu.perform(program.release());
    assert!(!gpu.is_program(program_id));
    assert!(!gpu.misuse);
}

#[test]
fn shader_release_after_program_release() {
    let mut gpu = FakeGpu::new(true, true, Vec::new());
    let vertex = compile(&mut gpu, VERTEX_SOURCE, ShaderKind::Vertex).unwrap();
    let fragment = compile(&mut gpu, FRAGMENT_SOURCE, ShaderKind::Fragment).unwrap();
    let shaders = vec![vertex, fragment];
    let program = drive_link(&mut gpu, Program::from_shaders(&shaders)).unwrap();
    gpu.perform(program.release());
    assert!(gpu.is_shader(1));
    assert!(gpu.is_shader(2));
    for shader in shaders {
        gpu.perform(shader.release());
    }
    assert!(!gpu.is_shader(1));
    assert!(!gpu.is_shader(2));
    assert!(!gpu.misuse);
}

#[test]
fn release_of_dead_handle_is_misuse() {
    let mut gpu = FakeGpu::new(true, true, Vec::new());
    gpu.release(1, Slot::Program);
    assert!(gpu.misuse);
}

#[test]
fn whitespace_buffer_has_len_spaces() {
    assert_eq!(whitespace_buffer(3), b"   ".to_vec());
    assert!(whitespace_buffer(0).is_empty());
}

#[test]
fn log_buffer_of_negative_length_is_empty() {
    assert!(log_buffer(-4).is_empty());
    assert_eq!(log_buffer(2), b"  ".to_vec());
}

#[test]
fn diagnostic_stops_at_nul() {
    assert_eq!(diagnostic_bytes(&b"bad\0  ".to_vec()), b"bad".to_vec());
    assert_eq!(diagnostic_bytes(&b"none".to_vec()), b"none".to_vec());
    assert!(diagnostic_bytes(&b"\0x".to_vec()).is_empty());
}

#[test]
fn diagnostic_text_replaces_invalid_bytes() {
    assert_eq!(diagnostic_text(&b"bad\xff\0 ".to_vec()), "bad\u{FFFD}");
    assert_eq!(diagnostic_text(&b"\0".to_vec()), "");
}

#[test]
fn nul_terminated_appends_nul() {
    assert_eq!(nul_terminated("ab").unwrap(), b"ab\0".to_vec());
    assert!(nul_terminated("a\0b").is_none());
}

#[test]
fn resource_names_of_pair() {
    let names = Program::resource_names("shaders/triangle");
    assert_eq!(names, vec!["shaders/triangle.vert".to_string(), "shaders/triangle.frag".to_string()]);
}

fn drive_shader_build(gpu: &mut FakeGpu, name: &str, text: Result<String, String>) -> Result<Shader, Error> {
    let (mut state, mut action) = Shader::from_resources(name)?;
    let mut text = Some(text);
    for _ in 0..100 {
        if state.is_finished() {
            break;
        }
        let event = match action {
            BuildAction::Load { resource } => {
                assert_eq!(resource, name);
                BuildEvent::Loaded { text: text.take().expect("loaded once") }
            }
            BuildAction::Gpu { action } => BuildEvent::Gpu { event: gpu.perform(action) },
        };
        let next = state.step(event);
        state = next.0;
        action = next.1;
    }
    state.into_result().expect("building finishes")
}

#[test]
fn resource_with_unknown_suffix_fails_before_loading() {
    match Shader::from_resources("triangle.txt") {
        Err(Error::CanNotDetermineShaderTypeForResource { name }) => assert_eq!(name, "triangle.txt"),
        other => panic!("unexpected {:?}", other.map(|_| ())),
    }
}

#[test]
fn resource_asks_for_its_own_text() {
    let (state, action) = Shader::from_resources("triangle.frag").unwrap();
    assert!(matches!(state, ShaderBuild::AwaitLoad { kind: ShaderKind::Fragment, .. }));
    match action {
        BuildAction::Load { resource } => assert_eq!(resource, "triangle.frag"),
        other => panic!("unexpected {:?}", other),
    }
}

#[test]
fn resource_load_error_is_wrapped() {
    let mut gpu = FakeGpu::new(true, true, Vec::new());
    match drive_shader_build(&mut gpu, "triangle.vert", Err("not found".to_string())) {
        Err(Error::ResourceLoad { name, inner }) => {
            assert_eq!(name, "triangle.vert");
            assert_eq!(inner, "not found");
        }
        other => panic!("unexpected {:?}", other.map(|_| ())),
    }
}

#[test]
fn resource_with_nul_is_compile_error() {
    let mut gpu = FakeGpu::new(true, true, Vec::new());
    match drive_shader_build(&mut gpu, "triangle.frag", Ok("a\0b".to_string())) {
        Err(Error::CompileError { name, kind, .. }) => {
            assert_eq!(name, "triangle.frag");
            assert_eq!(kind, ShaderKind::Fragment);
        }
        other => panic!("unexpected {:?}", other.map(|_| ())),
    }
}

#[test]
fn resource_compile_error_is_tagged() {
    let mut gpu = FakeGpu::new(false, true, b"0:1: syntax error".to_vec());
    match drive_shader_build(&mut gpu, "triangle.vert", Ok("void main( {".to_string())) {
        Err(Error::CompileError { name, kind, message }) => {
            assert_eq!(name, "triangle.vert");
            assert_eq!(kind, ShaderKind::Vertex);
            assert_eq!(message, "0:1: syntax error");
        }
        other => panic!("unexpected {:?}", other.map(|_| ())),
    }
    assert!(!gpu.is_shader(1));
}

#[test]
fn resource_compiles_its_stage() {
    let mut gpu = FakeGpu::new(true, true, Vec::new());
    let shader = drive_shader_build(&mut gpu, "triangle.frag", Ok(FRAGMENT_SOURCE.to_string())).unwrap();
    assert_eq!(shader.kind(), ShaderKind::Fragment);
    assert!(gpu.is_shader(shader.id()));
}
