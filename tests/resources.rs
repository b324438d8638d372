use glshader::assemble::{BuildAction, BuildEvent, ProgramBuild, ShaderBuild};
use glshader::error::Error;
use glshader::fake::FakeGpu;
use glshader::program::Program;

const VERTEX_SOURCE: &str = "#version 330 core\nlayout (location = 0) in vec3 Position;\nvoid main() { gl_Position = vec4(Position, 1.0); }\n";
const FRAGMENT_SOURCE: &str = "#version 330 core\nout vec4 Color;\nvoid main() { Color = vec4(1.0, 0.5, 0.2, 1.0); }\n";

fn load(files: &[(&str, &str)], resource: &str) -> Result<String, String> {
    files
        .iter()
        .find(|(name, _)| *name == resource)
        .map(|(_, text)| text.to_string())
        .ok_or_else(|| format!("{} not found", resource))
}

fn drive_build(gpu: &mut FakeGpu, files: &[(&str, &str)], name: &str) -> (Result<Program, Error>, Vec<String>) {
    let (mut state, mut action) = Program::from_resources(name);
    let mut loaded = Vec::new();
    for _ in 0..200 {
        if state.is_finished() {
            break;
        }
        let event = match action {
            BuildAction::Load { resource } => {
                loaded.push(resource.clone());
                BuildEvent::Loaded { text: load(files, &resource) }
            }
            BuildAction::Gpu { action } => BuildEvent::Gpu { event: gpu.perform(action) },
        };
        let next = state.step(event);
        state = next.0;
        action = next.1;
    }
    (state.into_result().expect("building finishes"), loaded)
}

#[test]
fn program_from_resources_builds_pair() {
    let files = [("shaders/triangle.vert", VERTEX_SOURCE), ("shaders/triangle.frag", FRAGMENT_SOURCE)];
    let mut gpu = FakeGpu::new(true, true, Vec::new());
    let (result, loaded) = drive_build(&mut gpu, &files, "shaders/triangle");
    let program = result.unwrap();
    assert_eq!(loaded, vec!["shaders/triangle.vert".to_string(), "shaders/triangle.frag".to_string()]);
    assert_eq!(program.id(), 3);
    assert!(gpu.is_program(3));
    assert!(!gpu.is_shader(1));
    assert!(!gpu.is_shader(2));
    assert!(!gpu.misuse);
}

#[test]
fn program_from_resources_reports_missing_stage() {
    let files = [("shaders/triangle.vert", VERTEX_SOURCE)];
    let mut gpu = FakeGpu::new(true, true, Vec::new());
    let (result, _) = drive_build(&mut gpu, &files, "shaders/triangle");
    match result {
        Err(Error::ResourceLoad { name, inner }) => {
            assert_eq!(name, "shaders/triangle.frag");
            assert_eq!(inner, "shaders/triangle.frag not found");
        }
        other => panic!("unexpected {:?}", other.map(|p| p.id())),
    }
    assert!(!gpu.is_shader(1));
    assert!(!gpu.misuse);
}

#[test]
fn program_from_resources_collapses_compile_error() {
    let files = [("s.vert", "void main( {"), ("s.frag", FRAGMENT_SOURCE)];
    let mut gpu = FakeGpu::new(false, true, b"0:1: syntax error".to_vec());
    let (result, loaded) = drive_build(&mut gpu, &files, "s");
    match result {
        Err(Error::LinkError { name, message }) => {
            assert_eq!(name, "s");
            assert_eq!(message, "0:1: syntax error");
        }
        other => panic!("unexpected {:?}", other.map(|p| p.id())),
    }
    assert_eq!(loaded, vec!["s.vert".to_string()]);
    assert!(!gpu.is_shader(1));
    assert!(!gpu.misuse);
}

#[test]
fn program_from_resources_reports_link_error() {
    let files = [("s.vert", VERTEX_SOURCE), ("s.frag", FRAGMENT_SOURCE)];
    let mut gpu = FakeGpu::new(true, false, b"link failed".to_vec());
    let (result, _) = drive_build(&mut gpu, &files, "s");
    match result {
        Err(Error::LinkError { name, message }) => {
            assert_eq!(name, "s");
            assert_eq!(message, "link failed");
        }
        other => panic!("unexpected {:?}", other.map(|p| p.id())),
    }
    assert!(!gpu.is_program(3));
    assert!(!gpu.is_shader(1));
    assert!(!gpu.is_shader(2));
    assert!(!gpu.misuse);
}

#[test]
fn build_ignores_unexpected_answer() {
    let (state, _) = Program::from_resources("s");
    let (state, action) = state.step(BuildEvent::Gpu { event: glshader::gpu::GpuEvent::Completed });
    assert!(matches!(state, ProgramBuild::AwaitStage { index: 0, stage: ShaderBuild::AwaitLoad { .. }, .. }));
    assert!(matches!(action, BuildAction::Gpu { action: glshader::gpu::GpuAction::Wait }));
}
