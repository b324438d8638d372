use vstd::prelude::*;

use crate::error::Error;
use crate::gpu::{GpuAction, GpuEvent};
use crate::program::{link_transition, LinkState, Program};
use crate::shader::{compile_transition, CompileState, Shader};
use crate::stage::{fragment_suffix, has_suffix, kind_of_name, shader_kind_for_name, vertex_suffix, ShaderKind};
use crate::text::holds_nul;

verus! {

/// What building from resources asks of its caller next.
#[derive(Debug)]
pub enum BuildAction {
    /// Load the source text of `resource`; answered by `Loaded`.
    Load { resource: String },
    /// Make a driver call; answered by `Gpu`.
    Gpu { action: GpuAction },
}

/// What the caller answered to the last `BuildAction`.
#[derive(Debug)]
pub enum BuildEvent {
    /// The source text, or the loader's error.
    Loaded { text: Result<String, String> },
    /// The driver's reply.
    Gpu { event: GpuEvent },
}

/// Where the building of one shader from the resource `name` stands. The
/// stage is known from the name before anything is loaded.
#[derive(Debug)]
pub enum ShaderBuild {
    /// Awaits the source text of the resource.
    AwaitLoad { name: String, kind: ShaderKind },
    /// Compiles the source text.
    AwaitCompile { name: String, kind: ShaderKind, compile: CompileState },
    /// Building is over.
    Finished { result: Result<Shader, Error> },
}

/// How building the shader of resource `name` starts: with a request for its
/// source text where the suffix names a stage, else with the error.
pub open spec fn shader_start(name: Seq<char>, r: Result<(ShaderBuild, BuildAction), Error>) -> bool {
    match kind_of_name(name) {
        None => r matches Err(Error::CanNotDetermineShaderTypeForResource { name: n }) && n@ == name,
        Some(kind) => r matches Ok((ShaderBuild::AwaitLoad { name: n, kind: k }, BuildAction::Load { resource }))
            && n@ == name && k == kind && resource@ == name,
    }
}

/// The step of building a shader from `s` on the answer `e`: the next state
/// `t` and what to ask next, `a`.
pub open spec fn shader_transition(s: ShaderBuild, e: BuildEvent, t: ShaderBuild, a: BuildAction) -> bool {
    match (s, e) {
        (ShaderBuild::AwaitLoad { name, kind: _ }, BuildEvent::Loaded { text: Err(inner) }) =>
            t == (ShaderBuild::Finished { result: Err(Error::ResourceLoad { name, inner }) })
            && a == (BuildAction::Gpu { action: GpuAction::Wait }),
        (ShaderBuild::AwaitLoad { name, kind }, BuildEvent::Loaded { text: Ok(text) }) =>
            if holds_nul(vstd::utf8::encode_utf8(text@)) {
                (t matches ShaderBuild::Finished { result: Err(Error::CompileError { name: n, kind: k, message: _ }) }
                    && n == name && k == kind)
                && a == (BuildAction::Gpu { action: GpuAction::Wait })
            } else {
                (t matches ShaderBuild::AwaitCompile {
                    name: n,
                    kind: k,
                    compile: CompileState::AwaitCreate { kind: k2, source },
                } && n == name && k == kind && k2 == kind
                    && source@ == vstd::utf8::encode_utf8(text@).push(0u8))
                && a == (BuildAction::Gpu { action: GpuAction::CreateShader { kind } })
            },
        (ShaderBuild::AwaitCompile { name, kind, compile }, BuildEvent::Gpu { event }) =>
            exists|c: CompileState, ca: GpuAction|
                compile_transition(compile, event, c, ca) && match c {
                    CompileState::Finished { result: Ok(shader) } =>
                        t == (ShaderBuild::Finished { result: Ok(shader) })
                        && a == (BuildAction::Gpu { action: GpuAction::Wait }),
                    CompileState::Finished { result: Err(message) } =>
                        t == (ShaderBuild::Finished { result: Err(Error::CompileError { name, kind, message }) })
                        && a == (BuildAction::Gpu { action: GpuAction::Wait }),
                    _ =>
                        t == (ShaderBuild::AwaitCompile { name, kind, compile: c })
                        && a == (BuildAction::Gpu { action: ca }),
                },
        _ => t == s && a == (BuildAction::Gpu { action: GpuAction::Wait }),
    }
}

impl ShaderBuild {
    /// Whether building is over.
    pub fn is_finished(&self) -> (r: bool)
        ensures
            r == (self is Finished),
    {
        matches!(self, ShaderBuild::Finished { .. })
    }

    /// The outcome of a finished building.
    pub fn into_result(self) -> (r: Option<Result<Shader, Error>>)
        ensures
            self matches ShaderBuild::Finished { result } ==> r == Some(result),
            !(self is Finished) ==> r is None,
    {
        match self {
            ShaderBuild::Finished { result } => Some(result),
            _ => None,
        }
    }

    /// Takes the answer `event` to the last request and gives the next
    /// state with what to ask next.
    pub fn step(self, event: BuildEvent) -> (r: (ShaderBuild, BuildAction))
        ensures
            shader_transition(self, event, r.0, r.1),
    {
        match (self, event) {
            (ShaderBuild::AwaitLoad { name, kind: _ }, BuildEvent::Loaded { text: Err(inner) }) => (
                ShaderBuild::Finished { result: Err(Error::ResourceLoad { name, inner }) },
                BuildAction::Gpu { action: GpuAction::Wait },
            ),
            (ShaderBuild::AwaitLoad { name, kind }, BuildEvent::Loaded { text: Ok(text) }) => {
                match Shader::from_source(text.as_str(), kind) {
                    Some((compile, action)) => (
                        ShaderBuild::AwaitCompile { name, kind, compile },
                        BuildAction::Gpu { action },
                    ),
                    None => (
                        ShaderBuild::Finished {
                            result: Err(Error::CompileError {
                                name,
                                kind,
                                message: "source text holds a NUL byte".to_owned(),
                            }),
                        },
                        BuildAction::Gpu { action: GpuAction::Wait },
                    ),
                }
            },
            (ShaderBuild::AwaitCompile { name, kind, compile }, BuildEvent::Gpu { event }) => {
                let (c, ca) = compile.step(event);
                match c {
                    CompileState::Finished { result: Ok(shader) } => (
                        ShaderBuild::Finished { result: Ok(shader) },
                        BuildAction::Gpu { action: GpuAction::Wait },
                    ),
                    CompileState::Finished { result: Err(message) } => (
                        ShaderBuild::Finished { result: Err(Error::CompileError { name, kind, message }) },
                        BuildAction::Gpu { action: GpuAction::Wait },
                    ),
                    c => (ShaderBuild::AwaitCompile { name, kind, compile: c }, BuildAction::Gpu { action: ca }),
                }
            },
            (state, _) => (state, BuildAction::Gpu { action: GpuAction::Wait }),
        }
    }
}

impl Shader {
    /// Starts building the shader of the resource `name`. The stage comes
    /// from the suffix of the name and is resolved before the source text is
    /// asked for; a name with no known suffix fails at once.
    pub fn from_resources(name: &str) -> (r: Result<(ShaderBuild, BuildAction), Error>)
        ensures
            shader_start(name@, r),
    {
        match shader_kind_for_name(name) {
            Ok(kind) => Ok((
                ShaderBuild::AwaitLoad { name: name.to_owned(), kind },
                BuildAction::Load { resource: name.to_owned() },
            )),
            Err(e) => Err(e),
        }
    }
}

/// Where the building of the program `name` from its stage resources stands.
/// `shaders` are the stages compiled so far, which are released at the end
/// whatever the outcome.
#[derive(Debug)]
pub enum ProgramBuild {
    /// Builds the shader of `resources[index]`.
    AwaitStage {
        name: String,
        resources: Vec<String>,
        index: usize,
        shaders: Vec<Shader>,
        stage: ShaderBuild,
    },
    /// Links the compiled stages.
    AwaitLink { name: String, shaders: Vec<Shader>, link: LinkState },
    /// Releases the stages one by one, the last first, and then gives `result`.
    AwaitRelease { shaders: Vec<Shader>, result: Result<Program, Error> },
    /// Building is over.
    Finished { result: Result<Program, Error> },
}

/// The outcome that a building state holds once it is decided.
pub open spec fn decided(s: ProgramBuild) -> Option<Result<Program, Error>> {
    match s {
        ProgramBuild::AwaitRelease { shaders: _, result } => Some(result),
        ProgramBuild::Finished { result } => Some(result),
        _ => None,
    }
}

/// The error with which the building of program `name` ends when one of its
/// stages fails with `err`: a rejected stage becomes a failure of the program,
/// tagged with its name and carrying the driver's diagnostic.
pub open spec fn stage_failure(name: String, err: Error) -> Error {
    match err {
        Error::CompileError { name: _, kind: _, message } => Error::LinkError { name, message },
        other => other,
    }
}

fn collapse_stage_error(name: String, err: Error) -> (r: Error)
    ensures
        r == stage_failure(name, err),
{
    match err {
        Error::CompileError { name: _, kind: _, message } => Error::LinkError { name, message },
        other => other,
    }
}

/// The state that releases the stages `shaders`, the last first, or that is
/// over once none is left.
pub open spec fn release_from(shaders: Seq<Shader>, t: ProgramBuild, a: BuildAction) -> bool {
    if shaders.len() > 0 {
        (t matches ProgramBuild::AwaitRelease { shaders: rest, result: _ } && rest@ == shaders.drop_last())
        && a == (BuildAction::Gpu { action: GpuAction::DeleteShader { shader: shaders.last()@.0 } })
    } else {
        t is Finished && a == (BuildAction::Gpu { action: GpuAction::Wait })
    }
}

/// The state that builds the stage of the resource at `next`, or links the
/// stages `shaders` once every resource is compiled.
pub open spec fn stage_from(
    name: String,
    resources: Vec<String>,
    next: int,
    shaders: Seq<Shader>,
    t: ProgramBuild,
    a: BuildAction,
) -> bool {
    if 0 <= next < resources@.len() {
        exists|r: Result<(ShaderBuild, BuildAction), Error>|
            shader_start(resources@[next]@, r) && match r {
                Ok((stage, sa)) =>
                    (t matches ProgramBuild::AwaitStage { name: n, resources: rs, index: i, shaders: s, stage: st }
                        && n == name && rs == resources && i == next && s@ == shaders && st == stage)
                    && a == sa,
                Err(err) => release_from(shaders, t, a) && decided(t) == Some(
                    Err::<Program, Error>(stage_failure(name, err)),
                ),
            }
    } else {
        (t matches ProgramBuild::AwaitLink { name: n, shaders: s, link: LinkState::AwaitCreate { shaders: ids } }
            && n == name && s@ == shaders && ids@ == shaders.map_values(|sh: Shader| sh@.0))
        && a == (BuildAction::Gpu { action: GpuAction::CreateProgram })
    }
}

/// The step of building a program from `s` on the answer `e`: the next state
/// `t` and what to ask next, `a`.
pub open spec fn build_transition(s: ProgramBuild, e: BuildEvent, t: ProgramBuild, a: BuildAction) -> bool {
    match (s, e) {
        (ProgramBuild::AwaitStage { name, resources, index, shaders, stage }, e) =>
            exists|st: ShaderBuild, sa: BuildAction|
                shader_transition(stage, e, st, sa) && match st {
                    ShaderBuild::Finished { result: Ok(shader) } =>
                        stage_from(name, resources, index + 1, shaders@.push(shader), t, a),
                    ShaderBuild::Finished { result: Err(err) } =>
                        release_from(shaders@, t, a)
                        && decided(t) == Some(Err::<Program, Error>(stage_failure(name, err))),
                    _ =>
                        t == (ProgramBuild::AwaitStage { name, resources, index, shaders, stage: st })
                        && a == sa,
                },
        (ProgramBuild::AwaitLink { name, shaders, link }, BuildEvent::Gpu { event }) =>
            exists|l: LinkState, la: GpuAction|
                link_transition(link, event, l, la) && match l {
                    LinkState::Finished { result: Ok(program) } =>
                        release_from(shaders@, t, a) && decided(t) == Some(Ok::<Program, Error>(program)),
                    LinkState::Finished { result: Err(message) } =>
                        release_from(shaders@, t, a)
                        && decided(t) == Some(Err::<Program, Error>(Error::LinkError { name, message })),
                    _ =>
                        t == (ProgramBuild::AwaitLink { name, shaders, link: l })
                        && a == (BuildAction::Gpu { action: la }),
                },
        (ProgramBuild::AwaitRelease { shaders, result }, BuildEvent::Gpu { event: GpuEvent::Completed }) =>
            release_from(shaders@, t, a) && decided(t) == Some(result),
        _ => t == s && a == (BuildAction::Gpu { action: GpuAction::Wait }),
    }
}

/// Once the last detachment of a program built from two stages completes,
/// building releases both stages, the last first, and then ends in the
/// program under the handle that the driver gave; the program is not
/// released on the way.
pub proof fn lemma_build_releases_stages(
    name: String,
    shaders: Vec<Shader>,
    program: u32,
    ids: Vec<u32>,
    next: usize,
    s: Seq<ProgramBuild>,
    a: Seq<BuildAction>,
)
    requires
        shaders@.len() == 2,
        next >= ids@.len(),
        s.len() == 3,
        a.len() == 3,
        build_transition(
            ProgramBuild::AwaitLink { name, shaders, link: LinkState::AwaitDetach { program, shaders: ids, next } },
            BuildEvent::Gpu { event: GpuEvent::Completed },
            s[0],
            a[0],
        ),
        build_transition(s[0], BuildEvent::Gpu { event: GpuEvent::Completed }, s[1], a[1]),
        build_transition(s[1], BuildEvent::Gpu { event: GpuEvent::Completed }, s[2], a[2]),
    ensures
        a[0] == (BuildAction::Gpu { action: GpuAction::DeleteShader { shader: shaders@[1]@.0 } }),
        a[1] == (BuildAction::Gpu { action: GpuAction::DeleteShader { shader: shaders@[0]@.0 } }),
        a[2] == (BuildAction::Gpu { action: GpuAction::Wait }),
        s[2] matches ProgramBuild::Finished { result: Ok(p) } && p@ == program,
{
    let link = LinkState::AwaitDetach { program, shaders: ids, next };
    let (l, la) = choose|l: LinkState, la: GpuAction|
        link_transition(link, GpuEvent::Completed, l, la) && match l {
            LinkState::Finished { result: Ok(program) } =>
                release_from(shaders@, s[0], a[0]) && decided(s[0]) == Some(Ok::<Program, Error>(program)),
            LinkState::Finished { result: Err(message) } =>
                release_from(shaders@, s[0], a[0])
                && decided(s[0]) == Some(Err::<Program, Error>(Error::LinkError { name, message })),
            _ =>
                s[0] == (ProgramBuild::AwaitLink { name, shaders, link: l })
                && a[0] == (BuildAction::Gpu { action: la }),
        };
    assert(shaders@.drop_last().drop_last().len() == 0);
    assert(shaders@.drop_last().last() == shaders@[0]);
}

fn release_next(shaders: Vec<Shader>, result: Result<Program, Error>) -> (r: (ProgramBuild, BuildAction))
    ensures
        release_from(shaders@, r.0, r.1),
        decided(r.0) == Some(result),
{
    let mut rest = shaders;
    match rest.pop() {
        Some(shader) => {
            let action = shader.release();
            (ProgramBuild::AwaitRelease { shaders: rest, result }, BuildAction::Gpu { action })
        },
        None => (ProgramBuild::Finished { result }, BuildAction::Gpu { action: GpuAction::Wait }),
    }
}

fn stage_next(name: String, resources: Vec<String>, next: usize, shaders: Vec<Shader>) -> (r: (ProgramBuild, BuildAction))
    ensures
        stage_from(name, resources, next as int, shaders@, r.0, r.1),
{
    if next < resources.len() {
        let started = Shader::from_resources(resources[next].as_str());
        let ghost witness = started;
        match started {
            Ok((stage, action)) => {
                let r = (ProgramBuild::AwaitStage { name, resources, index: next, shaders, stage }, action);
                assert(shader_start(resources@[next as int]@, witness));
                r
            },
            Err(err) => {
                let r = release_next(shaders, Err(collapse_stage_error(name, err)));
                assert(shader_start(resources@[next as int]@, witness));
                r
            },
        }
    } else {
        let (link, action) = Program::from_shaders(shaders.as_slice());
        (ProgramBuild::AwaitLink { name, shaders, link }, BuildAction::Gpu { action })
    }
}

impl ProgramBuild {
    /// Whether building is over.
    pub fn is_finished(&self) -> (r: bool)
        ensures
            r == (self is Finished),
    {
        matches!(self, ProgramBuild::Finished { .. })
    }

    /// The outcome of a finished building.
    pub fn into_result(self) -> (r: Option<Result<Program, Error>>)
        ensures
            self matches ProgramBuild::Finished { result } ==> r == Some(result),
            !(self is Finished) ==> r is None,
    {
        match self {
            ProgramBuild::Finished { result } => Some(result),
            _ => None,
        }
    }

    /// Takes the answer `event` to the last request and gives the next
    /// state with what to ask next.
    pub fn step(self, event: BuildEvent) -> (r: (ProgramBuild, BuildAction))
        ensures
            build_transition(self, event, r.0, r.1),
    {
        match (self, event) {
            (ProgramBuild::AwaitStage { name, resources, index, shaders, stage }, event) => {
                let ghost stage0 = stage;
                let ghost event0 = event;
                let (st, sa) = stage.step(event);
                let ghost stw = st;
                let ghost saw = sa;
                let r = match st {
                    ShaderBuild::Finished { result: Ok(shader) } => {
                        let mut done = shaders;
                        done.push(shader);
                        let next: usize = if index < resources.len() {
                            index + 1
                        } else {
                            resources.len()
                        };
                        stage_next(name, resources, next, done)
                    },
                    ShaderBuild::Finished { result: Err(err) } =>
                        release_next(shaders, Err(collapse_stage_error(name, err))),
                    st => (ProgramBuild::AwaitStage { name, resources, index, shaders, stage: st }, sa),
                };
                assert(shader_transition(stage0, event0, stw, saw));
                r
            },
            (ProgramBuild::AwaitLink { name, shaders, link }, BuildEvent::Gpu { event }) => {
                let ghost link0 = link;
                let ghost event0 = event;
                let (l, la) = link.step(event);
                let ghost lw = l;
                let ghost law = la;
                assert(link_transition(link0, event0, lw, law));
                match l {
                    LinkState::Finished { result: Ok(program) } => release_next(shaders, Ok(program)),
                    LinkState::Finished { result: Err(message) } =>
                        release_next(shaders, Err(Error::LinkError { name, message })),
                    l => (ProgramBuild::AwaitLink { name, shaders, link: l }, BuildAction::Gpu { action: la }),
                }
            },
            (ProgramBuild::AwaitRelease { shaders, result }, BuildEvent::Gpu { event: GpuEvent::Completed }) =>
                release_next(shaders, result),
            (state, _) => (state, BuildAction::Gpu { action: GpuAction::Wait }),
        }
    }
}

impl Program {
    /// Starts building the program `name` from its two stage resources,
    /// `<name>.vert` and `<name>.frag`: each is loaded and compiled in turn,
    /// then both are linked. A failure to load a stage ends the building with
    /// that error; a stage that the driver rejects, or a failed linkage, ends
    /// it in `LinkError` tagged with `name` and carrying the diagnostic. The
    /// compiled stages are released at the end either way.
    pub fn from_resources(name: &str) -> (r: (ProgramBuild, BuildAction))
        ensures
            r.0 matches ProgramBuild::AwaitStage {
                name: n,
                resources,
                index,
                shaders,
                stage: ShaderBuild::AwaitLoad { name: sn, kind },
            } && n@ == name@ && index == 0 && shaders@.len() == 0
                && resources@.len() == 2
                && resources@[0]@ == name@ + vertex_suffix()
                && resources@[1]@ == name@ + fragment_suffix()
                && sn@ == name@ + vertex_suffix() && kind == ShaderKind::Vertex,
            r.1 matches BuildAction::Load { resource } && resource@ == name@ + vertex_suffix(),
    {
        let resources = Program::resource_names(name);
        proof {
            let v = name@ + vertex_suffix();
            assert(v.subrange(v.len() - vertex_suffix().len(), v.len() as int) =~= vertex_suffix());
            assert(has_suffix(v, vertex_suffix()));
        }
        stage_next(name.to_owned(), resources, 0, Vec::new())
    }
}

} // verus!
