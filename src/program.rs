use vstd::prelude::*;

use crate::gpu::{log_buffer, log_buffer_len, GpuAction, GpuEvent};
use crate::shader::{log_message, Shader};
use crate::stage::{fragment_suffix, vertex_suffix};
use crate::text::{diagnostic_text, text_end};

verus! {

/// A linked program: the driver's handle of it. It is neither `Copy` nor
/// `Clone`, so its handle is released at most once.
#[derive(Debug)]
pub struct Program {
    program_id: u32,
}

impl View for Program {
    type V = u32;

    closed spec fn view(&self) -> u32 {
        self.program_id
    }
}

/// Where the linkage of a program stands, named by the reply it awaits.
/// `shaders` are the handles of the stages, in the order given.
#[derive(Debug)]
pub enum LinkState {
    /// Awaits the handle of a new program object.
    AwaitCreate { shaders: Vec<u32> },
    /// Awaits the attachment of `shaders[next - 1]`.
    AwaitAttach { program: u32, shaders: Vec<u32>, next: usize },
    /// Awaits the end of linkage.
    AwaitLink { program: u32, shaders: Vec<u32> },
    /// Awaits the link status.
    AwaitStatus { program: u32, shaders: Vec<u32> },
    /// Awaits the detachment of `shaders[next - 1]` after a successful link.
    AwaitDetach { program: u32, shaders: Vec<u32>, next: usize },
    /// Awaits the length of the diagnostic.
    AwaitLogLength { program: u32 },
    /// Awaits the diagnostic text.
    AwaitLog { program: u32 },
    /// Awaits the release of the program object that failed to link.
    AwaitRelease { message: String },
    /// Linkage is over.
    Finished { result: Result<Program, String> },
}

/// The state that awaits the attachment at `next`, or the linkage once all are attached.
pub open spec fn attach_from(program: u32, shaders: Vec<u32>, next: int, t: LinkState, a: GpuAction) -> bool {
    if 0 <= next < shaders@.len() {
        (t matches LinkState::AwaitAttach { program: p, shaders: s, next: n }
            && p == program && s@ == shaders@ && n == next + 1)
        && a == (GpuAction::AttachShader { program, shader: shaders@[next] })
    } else {
        (t matches LinkState::AwaitLink { program: p, shaders: s } && p == program && s@ == shaders@)
        && a == (GpuAction::LinkProgram { program })
    }
}

/// The state that awaits the detachment at `next`, or the linked program once all are detached.
pub open spec fn detach_from(program: u32, shaders: Vec<u32>, next: int, t: LinkState, a: GpuAction) -> bool {
    if 0 <= next < shaders@.len() {
        (t matches LinkState::AwaitDetach { program: p, shaders: s, next: n }
            && p == program && s@ == shaders@ && n == next + 1)
        && a == (GpuAction::DetachShader { program, shader: shaders@[next] })
    } else {
        (t matches LinkState::Finished { result: Ok(p) } && p@ == program)
        && a == GpuAction::Wait
    }
}

/// The step of linkage from `s` on the reply `e`: the next state `t` and the
/// driver call `a` to make.
pub open spec fn link_transition(s: LinkState, e: GpuEvent, t: LinkState, a: GpuAction) -> bool {
    match (s, e) {
        (LinkState::AwaitCreate { shaders }, GpuEvent::Created { id }) =>
            attach_from(id, shaders, 0, t, a),
        (LinkState::AwaitAttach { program, shaders, next }, GpuEvent::Completed) =>
            attach_from(program, shaders, next as int, t, a),
        (LinkState::AwaitLink { program, shaders }, GpuEvent::Completed) =>
            (t matches LinkState::AwaitStatus { program: p, shaders: s } && p == program && s@ == shaders@)
            && a == (GpuAction::QueryLinkStatus { program }),
        (LinkState::AwaitStatus { program, shaders }, GpuEvent::Status { value }) =>
            if value != 0 {
                detach_from(program, shaders, 0, t, a)
            } else {
                t == (LinkState::AwaitLogLength { program })
                && a == (GpuAction::QueryProgramLogLength { program })
            },
        (LinkState::AwaitDetach { program, shaders, next }, GpuEvent::Completed) =>
            detach_from(program, shaders, next as int, t, a),
        (LinkState::AwaitLogLength { program }, GpuEvent::LogLength { len }) =>
            t == (LinkState::AwaitLog { program })
            && (a matches GpuAction::ReadProgramLog { program: p, buffer }
            && p == program && buffer@ == Seq::new(log_buffer_len(len), |i: int| 0x20u8)),
        (LinkState::AwaitLog { program }, GpuEvent::Log { buffer }) =>
            (t matches LinkState::AwaitRelease { message } && message@ == log_message(buffer@)
                && (message@.len() == 0 <==> text_end(buffer@) == 0))
            && a == (GpuAction::DeleteProgram { program }),
        (LinkState::AwaitRelease { message }, GpuEvent::Completed) =>
            (t matches LinkState::Finished { result: Err(m) } && m@ == message@)
            && a == GpuAction::Wait,
        _ => t == s && a == GpuAction::Wait,
    }
}

/// Linking a vertex and a fragment shader that the driver accepts together
/// attaches both, links, detaches both, and ends in a program under the handle
/// that the driver gave.
pub proof fn lemma_accepted_pair_links(
    vertex: u32,
    fragment: u32,
    shaders: Vec<u32>,
    id: u32,
    value: i32,
    s: Seq<LinkState>,
    a: Seq<GpuAction>,
)
    requires
        shaders@ == seq![vertex, fragment],
        value != 0,
        s.len() == 7,
        a.len() == 7,
        link_transition(LinkState::AwaitCreate { shaders }, GpuEvent::Created { id }, s[0], a[0]),
        link_transition(s[0], GpuEvent::Completed, s[1], a[1]),
        link_transition(s[1], GpuEvent::Completed, s[2], a[2]),
        link_transition(s[2], GpuEvent::Completed, s[3], a[3]),
        link_transition(s[3], GpuEvent::Status { value }, s[4], a[4]),
        link_transition(s[4], GpuEvent::Completed, s[5], a[5]),
        link_transition(s[5], GpuEvent::Completed, s[6], a[6]),
    ensures
        a[0] == (GpuAction::AttachShader { program: id, shader: vertex }),
        a[1] == (GpuAction::AttachShader { program: id, shader: fragment }),
        a[2] == (GpuAction::LinkProgram { program: id }),
        a[3] == (GpuAction::QueryLinkStatus { program: id }),
        a[4] == (GpuAction::DetachShader { program: id, shader: vertex }),
        a[5] == (GpuAction::DetachShader { program: id, shader: fragment }),
        s[6] matches LinkState::Finished { result: Ok(p) } && p@ == id,
{
}

/// When the driver reports a zero link status, whatever shaders were given,
/// linkage ends in the driver's diagnostic and the program object is released.
pub proof fn lemma_rejected_link_reports(
    program: u32,
    shaders: Vec<u32>,
    len: i32,
    buffer: Vec<u8>,
    s: Seq<LinkState>,
    a: Seq<GpuAction>,
)
    requires
        s.len() == 4,
        a.len() == 4,
        link_transition(LinkState::AwaitStatus { program, shaders }, GpuEvent::Status { value: 0 }, s[0], a[0]),
        link_transition(s[0], GpuEvent::LogLength { len }, s[1], a[1]),
        link_transition(s[1], GpuEvent::Log { buffer }, s[2], a[2]),
        link_transition(s[2], GpuEvent::Completed, s[3], a[3]),
    ensures
        a[2] == (GpuAction::DeleteProgram { program }),
        s[3] matches LinkState::Finished { result: Err(message) } && message@ == log_message(buffer@),
{
}

fn attach_next(program: u32, shaders: Vec<u32>, next: usize) -> (r: (LinkState, GpuAction))
    ensures
        attach_from(program, shaders, next as int, r.0, r.1),
{
    if next < shaders.len() {
        let shader = shaders[next];
        (LinkState::AwaitAttach { program, shaders, next: next + 1 }, GpuAction::AttachShader { program, shader })
    } else {
        (LinkState::AwaitLink { program, shaders }, GpuAction::LinkProgram { program })
    }
}

fn detach_next(program: u32, shaders: Vec<u32>, next: usize) -> (r: (LinkState, GpuAction))
    ensures
        detach_from(program, shaders, next as int, r.0, r.1),
{
    if next < shaders.len() {
        let shader = shaders[next];
        (LinkState::AwaitDetach { program, shaders, next: next + 1 }, GpuAction::DetachShader { program, shader })
    } else {
        (LinkState::Finished { result: Ok(Program { program_id: program }) }, GpuAction::Wait)
    }
}

impl LinkState {
    /// Whether linkage is over.
    pub fn is_finished(&self) -> (r: bool)
        ensures
            r == (self is Finished),
    {
        matches!(self, LinkState::Finished { .. })
    }

    /// The outcome of a finished linkage: the program, or the driver's diagnostic.
    pub fn into_result(self) -> (r: Option<Result<Program, String>>)
        ensures
            self matches LinkState::Finished { result } ==> r == Some(result),
            !(self is Finished) ==> r is None,
    {
        match self {
            LinkState::Finished { result } => Some(result),
            _ => None,
        }
    }

    /// Takes the driver's reply `event` to the last call and gives the next
    /// state with the next call to make.
    pub fn step(self, event: GpuEvent) -> (r: (LinkState, GpuAction))
        ensures
            link_transition(self, event, r.0, r.1),
    {
        match (self, event) {
            (LinkState::AwaitCreate { shaders }, GpuEvent::Created { id }) => attach_next(id, shaders, 0),
            (LinkState::AwaitAttach { program, shaders, next }, GpuEvent::Completed) =>
                attach_next(program, shaders, next),
            (LinkState::AwaitLink { program, shaders }, GpuEvent::Completed) => (
                LinkState::AwaitStatus { program, shaders },
                GpuAction::QueryLinkStatus { program },
            ),
            (LinkState::AwaitStatus { program, shaders }, GpuEvent::Status { value }) => {
                if value != 0 {
                    detach_next(program, shaders, 0)
                } else {
                    (LinkState::AwaitLogLength { program }, GpuAction::QueryProgramLogLength { program })
                }
            },
            (LinkState::AwaitDetach { program, shaders, next }, GpuEvent::Completed) =>
                detach_next(program, shaders, next),
            (LinkState::AwaitLogLength { program }, GpuEvent::LogLength { len }) => (
                LinkState::AwaitLog { program },
                GpuAction::ReadProgramLog { program, buffer: log_buffer(len) },
            ),
            (LinkState::AwaitLog { program }, GpuEvent::Log { buffer }) => (
                LinkState::AwaitRelease { message: diagnostic_text(&buffer) },
                GpuAction::DeleteProgram { program },
            ),
            (LinkState::AwaitRelease { message }, GpuEvent::Completed) => (
                LinkState::Finished { result: Err(message) },
                GpuAction::Wait,
            ),
            (state, _) => (state, GpuAction::Wait),
        }
    }
}

impl Program {
    /// The names of the two stage resources of the program `name`:
    /// `<name>.vert`, then `<name>.frag`.
    pub fn resource_names(name: &str) -> (r: Vec<String>)
        ensures
            r@.len() == 2,
            r@[0]@ == name@ + vertex_suffix(),
            r@[1]@ == name@ + fragment_suffix(),
    {
        proof {
            reveal_strlit(".vert");
            reveal_strlit(".frag");
            assert(".vert"@ =~= vertex_suffix());
            assert(".frag"@ =~= fragment_suffix());
        }
        let mut vertex = name.to_owned();
        vertex.append(".vert");
        let mut fragment = name.to_owned();
        fragment.append(".frag");
        let mut names: Vec<String> = Vec::new();
        names.push(vertex);
        names.push(fragment);
        names
    }

    /// Starts the linkage of `shaders` into one program: the first state and
    /// the first driver call. The shaders stay with the caller.
    pub fn from_shaders(shaders: &[Shader]) -> (r: (LinkState, GpuAction))
        ensures
            r.0 matches LinkState::AwaitCreate { shaders: ids }
                && ids@ == shaders@.map_values(|s: Shader| s@.0),
            r.1 == GpuAction::CreateProgram,
    {
        let mut ids: Vec<u32> = Vec::new();
        let mut i: usize = 0;
        while i < shaders.len()
            invariant
                i <= shaders@.len(),
                ids@ == shaders@.subrange(0, i as int).map_values(|s: Shader| s@.0),
            decreases shaders@.len() - i,
        {
            ids.push(shaders[i].id());
            i = i + 1;
            assert(ids@ =~= shaders@.subrange(0, i as int).map_values(|s: Shader| s@.0));
        }
        assert(shaders@.subrange(0, i as int) =~= shaders@);
        (LinkState::AwaitCreate { shaders: ids }, GpuAction::CreateProgram)
    }

    /// The driver call that makes this program the active one for the draw
    /// calls that follow.
    pub fn set_used(&self) -> (r: GpuAction)
        ensures
            r == (GpuAction::UseProgram { program: self@ }),
    {
        GpuAction::UseProgram { program: self.program_id }
    }

    /// The driver's handle of this program.
    pub fn id(&self) -> (r: u32)
        ensures
            r == self@,
    {
        self.program_id
    }

    /// Gives up this program: the driver call that releases its handle.
    pub fn release(self) -> (r: GpuAction)
        ensures
            r == (GpuAction::DeleteProgram { program: self@ }),
    {
        GpuAction::DeleteProgram { program: self.program_id }
    }
}

} // verus!
