use vstd::prelude::*;
use vstd::string::StringSliceAdditionalSpecFns;

use crate::gpu::{log_buffer, log_buffer_len, GpuAction, GpuEvent};
use crate::stage::ShaderKind;
use crate::text::{diagnostic_text, holds_nul, lossy_text_of, nul_terminated, text_end};

verus! {

/// A compiled shader stage: the driver's handle and the stage it was compiled as.
/// Only a compilation that the driver accepted makes one, and it is neither
/// `Copy` nor `Clone`, so its handle is released at most once.
#[derive(Debug)]
pub struct Shader {
    shader_id: u32,
    kind: ShaderKind,
}

impl View for Shader {
    type V = (u32, ShaderKind);

    closed spec fn view(&self) -> (u32, ShaderKind) {
        (self.shader_id, self.kind)
    }
}

/// The text of the diagnostic that a driver wrote into a buffer.
pub open spec fn log_message(buffer: Seq<u8>) -> Seq<char> {
    lossy_text_of(buffer.subrange(0, text_end(buffer) as int))
}

/// Where the compilation of one stage stands, named by the reply it awaits.
#[derive(Debug)]
pub enum CompileState {
    /// Awaits the handle of a new shader object.
    AwaitCreate { kind: ShaderKind, source: Vec<u8> },
    /// Awaits the end of source upload and compilation.
    AwaitCompile { kind: ShaderKind, shader: u32 },
    /// Awaits the compile status.
    AwaitStatus { kind: ShaderKind, shader: u32 },
    /// Awaits the length of the diagnostic.
    AwaitLogLength { shader: u32 },
    /// Awaits the diagnostic text.
    AwaitLog { shader: u32 },
    /// Awaits the release of the rejected shader object.
    AwaitRelease { message: String },
    /// Compilation is over.
    Finished { result: Result<Shader, String> },
}

/// The step of compilation from `s` on the reply `e`: the next state `t`
/// and the driver call `a` to make.
pub open spec fn compile_transition(s: CompileState, e: GpuEvent, t: CompileState, a: GpuAction) -> bool {
    match (s, e) {
        (CompileState::AwaitCreate { kind, source }, GpuEvent::Created { id }) =>
            t == (CompileState::AwaitCompile { kind, shader: id })
            && (a matches GpuAction::CompileShader { shader, source: src }
            && shader == id && src@ == source@),
        (CompileState::AwaitCompile { kind, shader }, GpuEvent::Completed) =>
            t == CompileState::AwaitStatus { kind, shader }
            && a == GpuAction::QueryCompileStatus { shader },
        (CompileState::AwaitStatus { kind, shader }, GpuEvent::Status { value }) =>
            if value != 0 {
                (t matches CompileState::Finished { result: Ok(sh) } && sh@ == (shader, kind))
                && a == GpuAction::Wait
            } else {
                t == CompileState::AwaitLogLength { shader }
                && a == GpuAction::QueryShaderLogLength { shader }
            },
        (CompileState::AwaitLogLength { shader }, GpuEvent::LogLength { len }) =>
            t == (CompileState::AwaitLog { shader })
            && (a matches GpuAction::ReadShaderLog { shader: s2, buffer }
            && s2 == shader && buffer@ == Seq::new(log_buffer_len(len), |i: int| 0x20u8)),
        (CompileState::AwaitLog { shader }, GpuEvent::Log { buffer }) =>
            (t matches CompileState::AwaitRelease { message }
            && message@ == log_message(buffer@)
            && (message@.len() == 0 <==> text_end(buffer@) == 0))
            && a == GpuAction::DeleteShader { shader },
        (CompileState::AwaitRelease { message }, GpuEvent::Completed) =>
            t matches CompileState::Finished { result: Err(m) } && m@ == message@
            && a == GpuAction::Wait,
        _ => t == s && a == GpuAction::Wait,
    }
}

/// When the driver reports a non-zero compile status, compilation ends in a
/// shader of the requested stage under the handle that the driver gave, and
/// never in a diagnostic.
pub proof fn lemma_accepted_source_compiles(
    kind: ShaderKind,
    source: Vec<u8>,
    id: u32,
    value: i32,
    s1: CompileState,
    a1: GpuAction,
    s2: CompileState,
    a2: GpuAction,
    s3: CompileState,
    a3: GpuAction,
)
    requires
        value != 0,
        compile_transition(CompileState::AwaitCreate { kind, source }, GpuEvent::Created { id }, s1, a1),
        compile_transition(s1, GpuEvent::Completed, s2, a2),
        compile_transition(s2, GpuEvent::Status { value }, s3, a3),
    ensures
        s3 matches CompileState::Finished { result: Ok(shader) } && shader@ == (id, kind),
        a3 == GpuAction::Wait,
{
}

/// When the driver reports a zero compile status and writes a diagnostic
/// that does not start with NUL, compilation ends in a non-empty message, and
/// the rejected shader object is released on the way.
pub proof fn lemma_rejected_source_reports(
    kind: ShaderKind,
    id: u32,
    len: i32,
    buffer: Vec<u8>,
    s1: CompileState,
    a1: GpuAction,
    s2: CompileState,
    a2: GpuAction,
    s3: CompileState,
    a3: GpuAction,
    s4: CompileState,
    a4: GpuAction,
)
    requires
        buffer@.len() > 0,
        buffer@[0] != 0,
        compile_transition(CompileState::AwaitStatus { kind, shader: id }, GpuEvent::Status { value: 0 }, s1, a1),
        compile_transition(s1, GpuEvent::LogLength { len }, s2, a2),
        compile_transition(s2, GpuEvent::Log { buffer }, s3, a3),
        compile_transition(s3, GpuEvent::Completed, s4, a4),
    ensures
        a3 == (GpuAction::DeleteShader { shader: id }),
        s4 matches CompileState::Finished { result: Err(message) } && message@.len() > 0
            && message@ == log_message(buffer@),
{
    assert(text_end(buffer@) > 0);
}

impl CompileState {
    /// Whether compilation is over.
    pub fn is_finished(&self) -> (r: bool)
        ensures
            r == (self is Finished),
    {
        matches!(self, CompileState::Finished { .. })
    }

    /// The outcome of a finished compilation: the shader, or the driver's diagnostic.
    pub fn into_result(self) -> (r: Option<Result<Shader, String>>)
        ensures
            self matches CompileState::Finished { result } ==> r == Some(result),
            !(self is Finished) ==> r is None,
    {
        match self {
            CompileState::Finished { result } => Some(result),
            _ => None,
        }
    }

    /// Takes the driver's reply `event` to the last call and gives the next
    /// state with the next call to make.
    pub fn step(self, event: GpuEvent) -> (r: (CompileState, GpuAction))
        ensures
            compile_transition(self, event, r.0, r.1),
    {
        match (self, event) {
            (CompileState::AwaitCreate { kind, source }, GpuEvent::Created { id }) => (
                CompileState::AwaitCompile { kind, shader: id },
                GpuAction::CompileShader { shader: id, source },
            ),
            (CompileState::AwaitCompile { kind, shader }, GpuEvent::Completed) => (
                CompileState::AwaitStatus { kind, shader },
                GpuAction::QueryCompileStatus { shader },
            ),
            (CompileState::AwaitStatus { kind, shader }, GpuEvent::Status { value }) => {
                if value != 0 {
                    (
                        CompileState::Finished { result: Ok(Shader { shader_id: shader, kind }) },
                        GpuAction::Wait,
                    )
                } else {
                    (CompileState::AwaitLogLength { shader }, GpuAction::QueryShaderLogLength { shader })
                }
            },
            (CompileState::AwaitLogLength { shader }, GpuEvent::LogLength { len }) => (
                CompileState::AwaitLog { shader },
                GpuAction::ReadShaderLog { shader, buffer: log_buffer(len) },
            ),
            (CompileState::AwaitLog { shader }, GpuEvent::Log { buffer }) => (
                CompileState::AwaitRelease { message: diagnostic_text(&buffer) },
                GpuAction::DeleteShader { shader },
            ),
            (CompileState::AwaitRelease { message }, GpuEvent::Completed) => (
                CompileState::Finished { result: Err(message) },
                GpuAction::Wait,
            ),
            (state, _) => (state, GpuAction::Wait),
        }
    }
}

impl Shader {
    /// Starts the compilation of `source` as a stage of kind `kind`: the first
    /// state and the first driver call. `None` where the source holds a NUL byte,
    /// which the driver would take for the end of the text.
    pub fn from_source(source: &str, kind: ShaderKind) -> (r: Option<(CompileState, GpuAction)>)
        ensures
            holds_nul(source.spec_bytes()) <==> r is None,
            r matches Some((s, a)) ==> (s matches CompileState::AwaitCreate { kind: k, source: src }
                && k == kind && src@ == source.spec_bytes().push(0u8)
                && a == GpuAction::CreateShader { kind }),
    {
        match nul_terminated(source) {
            Some(bytes) => Some((CompileState::AwaitCreate { kind, source: bytes }, GpuAction::CreateShader { kind })),
            None => None,
        }
    }

    /// The driver's handle of this shader.
    pub fn id(&self) -> (r: u32)
        ensures
            r == self@.0,
    {
        self.shader_id
    }

    /// The stage that this shader was compiled as.
    pub fn kind(&self) -> (r: ShaderKind)
        ensures
            r == self@.1,
    {
        self.kind
    }

    /// Gives up this shader: the driver call that releases its handle.
    pub fn release(self) -> (r: GpuAction)
        ensures
            r == (GpuAction::DeleteShader { shader: self@.0 }),
    {
        GpuAction::DeleteShader { shader: self.shader_id }
    }
}

} // verus!
