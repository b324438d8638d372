use vstd::prelude::*;

use crate::gpu::{GpuAction, GpuEvent};

verus! {

/// What a handle of the fake driver stands for.
#[derive(Debug, Clone, Copy, PartialEq, Eq, Structural)]
pub enum Slot {
    Shader,
    Program,
    Released,
}

/// Handle `h` names a live object of kind `kind`; handle `h` is slot `h - 1`.
pub open spec fn live(slots: Seq<Slot>, h: u32, kind: Slot) -> bool {
    1 <= h <= slots.len() && slots[h - 1] == kind
}

/// The slots after the object of kind `kind` under `h` is released; a handle
/// that names no such live object changes nothing.
pub open spec fn release(slots: Seq<Slot>, h: u32, kind: Slot) -> Seq<Slot> {
    if live(slots, h, kind) {
        slots.update(h - 1, Slot::Released)
    } else {
        slots
    }
}

/// Releasing a program leaves every shader handle as valid or invalid as it
/// was, releasing a shader does the same to every program handle, and the
/// order of two such releases does not matter.
pub proof fn lemma_releases_independent(slots: Seq<Slot>, program: u32, shader: u32)
    ensures
        forall|h: u32| live(release(slots, program, Slot::Program), h, Slot::Shader)
            == live(slots, h, Slot::Shader),
        forall|h: u32| live(release(slots, shader, Slot::Shader), h, Slot::Program)
            == live(slots, h, Slot::Program),
        release(release(slots, shader, Slot::Shader), program, Slot::Program)
            == release(release(slots, program, Slot::Program), shader, Slot::Shader),
{
    let a = release(release(slots, shader, Slot::Shader), program, Slot::Program);
    let b = release(release(slots, program, Slot::Program), shader, Slot::Shader);
    assert(a =~= b);
}

/// A driver without a GPU that keeps track of which handles are live, for
/// running the state machines in tests. Compilation succeeds when `compiles`
/// holds, linkage when `links` holds; on failure both report `log` as their
/// diagnostic. `misuse` records a call that named no live object of the
/// right kind, as a real driver records an invalid value.
pub struct FakeGpu {
    pub slots: Vec<Slot>,
    pub compiles: bool,
    pub links: bool,
    pub log: Vec<u8>,
    pub misuse: bool,
}

impl View for FakeGpu {
    type V = Seq<Slot>;

    open spec fn view(&self) -> Seq<Slot> {
        self.slots@
    }
}

/// The status that the fake driver reports: 1 for success, 0 for failure.
pub open spec fn status_value(ok: bool) -> i32 {
    if ok {
        1
    } else {
        0
    }
}

/// The reply of the fake driver with diagnostic `log` to a query of a
/// diagnostic's length, or to a read of it into a buffer: the log and its NUL,
/// written as far as they fit, the rest of the buffer kept.
pub open spec fn log_reply(log: Seq<u8>, action: GpuAction, r: GpuEvent) -> bool {
    match action {
        GpuAction::QueryShaderLogLength { shader: _ } | GpuAction::QueryProgramLogLength { program: _ } =>
            log.len() < i32::MAX ==> r == (GpuEvent::LogLength { len: (log.len() + 1) as i32 }),
        GpuAction::ReadShaderLog { shader: _, buffer } | GpuAction::ReadProgramLog { program: _, buffer } =>
            r matches GpuEvent::Log { buffer: b } && b@.len() == buffer@.len()
            && (buffer@.len() > log.len() ==> b@ == log + seq![0u8]
                + buffer@.subrange((log.len() + 1) as int, buffer@.len() as int)),
        _ => true,
    }
}

impl FakeGpu {
    /// A fake driver with no objects yet.
    pub fn new(compiles: bool, links: bool, log: Vec<u8>) -> (r: FakeGpu)
        ensures
            r@ == Seq::<Slot>::empty(),
            r.compiles == compiles,
            r.links == links,
            r.log == log,
            !r.misuse,
    {
        FakeGpu { slots: Vec::new(), compiles, links, log, misuse: false }
    }

    /// Whether `h` names a live object of kind `kind`.
    pub fn is_live(&self, h: u32, kind: Slot) -> (r: bool)
        ensures
            r == live(self@, h, kind),
    {
        1 <= h && (h as usize) <= self.slots.len() && self.slots[(h - 1) as usize] == kind
    }

    /// Whether `h` names a live shader.
    pub fn is_shader(&self, h: u32) -> (r: bool)
        ensures
            r == live(self@, h, Slot::Shader),
    {
        self.is_live(h, Slot::Shader)
    }

    /// Whether `h` names a live program.
    pub fn is_program(&self, h: u32) -> (r: bool)
        ensures
            r == live(self@, h, Slot::Program),
    {
        self.is_live(h, Slot::Program)
    }

    /// Allocates a handle for a new object of kind `kind`; 0, as a driver
    /// answers, once no handle is left.
    fn create(&mut self, kind: Slot) -> (r: u32)
        ensures
            old(self)@.len() < u32::MAX ==> final(self)@ == old(self)@.push(kind)
                && r == final(self)@.len(),
            old(self)@.len() >= u32::MAX ==> final(self)@ == old(self)@ && r == 0,
            final(self).compiles == old(self).compiles,
            final(self).links == old(self).links,
            final(self).log == old(self).log,
            final(self).misuse == old(self).misuse,
    {
        if self.slots.len() < u32::MAX as usize {
            self.slots.push(kind);
            self.slots.len() as u32
        } else {
            0
        }
    }

    /// Releases the object of kind `kind` under `h`; records misuse where
    /// `h` names no such live object.
    pub fn release(&mut self, h: u32, kind: Slot)
        ensures
            final(self)@ == release(old(self)@, h, kind),
            final(self).misuse == (old(self).misuse || !live(old(self)@, h, kind)),
            final(self).compiles == old(self).compiles,
            final(self).links == old(self).links,
            final(self).log == old(self).log,
    {
        if self.is_live(h, kind) {
            self.slots.set((h - 1) as usize, Slot::Released);
        } else {
            self.misuse = true;
        }
    }

    /// Records misuse where `h` names no live object of kind `kind`.
    fn check(&mut self, h: u32, kind: Slot)
        ensures
            final(self)@ == old(self)@,
            final(self).misuse == (old(self).misuse || !live(old(self)@, h, kind)),
            final(self).compiles == old(self).compiles,
            final(self).links == old(self).links,
            final(self).log == old(self).log,
    {
        if !self.is_live(h, kind) {
            self.misuse = true;
        }
    }

    /// The diagnostic length that a query reports: the log and its NUL.
    fn log_length(&self) -> (r: i32)
        ensures
            self.log@.len() < i32::MAX ==> r == self.log@.len() + 1,
    {
        if self.log.len() < i32::MAX as usize {
            (self.log.len() + 1) as i32
        } else {
            i32::MAX
        }
    }

    /// Writes the log into `buffer` as a driver does: as much of it as fits
    /// before a closing NUL.
    fn write_log(&self, buffer: Vec<u8>) -> (r: Vec<u8>)
        ensures
            r@.len() == buffer@.len(),
            buffer@.len() > self.log@.len() ==> r@ == self.log@ + seq![0u8] + buffer@.subrange(
                (self.log@.len() + 1) as int,
                buffer@.len() as int,
            ),
    {
        let mut out = buffer;
        if out.len() == 0 {
            return out;
        }
        let n: usize = if self.log.len() < out.len() - 1 {
            self.log.len()
        } else {
            out.len() - 1
        };
        let ghost start = out@;
        let mut i: usize = 0;
        while i < n
            invariant
                i <= n,
                n < out@.len(),
                n <= self.log@.len(),
                out@.len() == start.len(),
                forall|j: int| 0 <= j < i ==> out@[j] == self.log@[j],
                forall|j: int| i <= j < out@.len() ==> out@[j] == start[j],
            decreases n - i,
        {
            out.set(i, self.log[i]);
            i = i + 1;
        }
        out.set(n, 0u8);
        proof {
            if start.len() > self.log@.len() {
                assert(out@ =~= self.log@ + seq![0u8] + start.subrange(
                    (self.log@.len() + 1) as int,
                    start.len() as int,
                ));
            }
        }
        out
    }

    /// Performs one driver call and gives the driver's reply.
    pub fn perform(&mut self, action: GpuAction) -> (r: GpuEvent)
        ensures
            final(self).compiles == old(self).compiles,
            final(self).links == old(self).links,
            final(self).log == old(self).log,
            match action {
                GpuAction::CreateShader { kind: _ } => old(self)@.len() < u32::MAX ==> (
                    final(self)@ == old(self)@.push(Slot::Shader)
                    && r == (GpuEvent::Created { id: final(self)@.len() as u32 })),
                GpuAction::CreateProgram => old(self)@.len() < u32::MAX ==> (
                    final(self)@ == old(self)@.push(Slot::Program)
                    && r == (GpuEvent::Created { id: final(self)@.len() as u32 })),
                GpuAction::DeleteShader { shader } =>
                    final(self)@ == release(old(self)@, shader, Slot::Shader)
                    && r == GpuEvent::Completed
                    && final(self).misuse == (old(self).misuse || !live(old(self)@, shader, Slot::Shader)),
                GpuAction::DeleteProgram { program } =>
                    final(self)@ == release(old(self)@, program, Slot::Program)
                    && r == GpuEvent::Completed
                    && final(self).misuse == (old(self).misuse || !live(old(self)@, program, Slot::Program)),
                GpuAction::QueryCompileStatus { shader } =>
                    final(self)@ == old(self)@
                    && r == (GpuEvent::Status {
                        value: status_value(old(self).compiles && live(old(self)@, shader, Slot::Shader)),
                    }),
                GpuAction::QueryLinkStatus { program } =>
                    final(self)@ == old(self)@
                    && r == (GpuEvent::Status {
                        value: status_value(old(self).links && live(old(self)@, program, Slot::Program)),
                    }),
                GpuAction::UseProgram { program } | GpuAction::LinkProgram { program } =>
                    final(self)@ == old(self)@ && r == GpuEvent::Completed
                    && final(self).misuse == (old(self).misuse || !live(old(self)@, program, Slot::Program)),
                GpuAction::CompileShader { shader, source: _ } =>
                    final(self)@ == old(self)@ && r == GpuEvent::Completed
                    && final(self).misuse == (old(self).misuse || !live(old(self)@, shader, Slot::Shader)),
                GpuAction::AttachShader { program, shader } | GpuAction::DetachShader { program, shader } =>
                    final(self)@ == old(self)@ && r == GpuEvent::Completed
                    && final(self).misuse == (old(self).misuse || !live(old(self)@, program, Slot::Program)
                        || !live(old(self)@, shader, Slot::Shader)),
                GpuAction::QueryShaderLogLength { shader: h } | GpuAction::ReadShaderLog { shader: h, buffer: _ } =>
                    final(self).misuse == (old(self).misuse || !live(old(self)@, h, Slot::Shader))
                    && final(self)@ == old(self)@ && log_reply(old(self).log@, action, r),
                GpuAction::QueryProgramLogLength { program: h } | GpuAction::ReadProgramLog { program: h, buffer: _ } =>
                    final(self).misuse == (old(self).misuse || !live(old(self)@, h, Slot::Program))
                    && final(self)@ == old(self)@ && log_reply(old(self).log@, action, r),
                GpuAction::Wait => final(self)@ == old(self)@ && r == GpuEvent::Completed,
            },
    {
        match action {
            GpuAction::CreateShader { kind: _ } => {
                let id = self.create(Slot::Shader);
                GpuEvent::Created { id }
            },
            GpuAction::CompileShader { shader, source: _ } => {
                self.check(shader, Slot::Shader);
                GpuEvent::Completed
            },
            GpuAction::QueryCompileStatus { shader } => {
                let ok = self.compiles && self.is_shader(shader);
                GpuEvent::Status { value: if ok { 1 } else { 0 } }
            },
            GpuAction::QueryShaderLogLength { shader } => {
                self.check(shader, Slot::Shader);
                GpuEvent::LogLength { len: self.log_length() }
            },
            GpuAction::ReadShaderLog { shader, buffer } => {
                self.check(shader, Slot::Shader);
                GpuEvent::Log { buffer: self.write_log(buffer) }
            },
            GpuAction::DeleteShader { shader } => {
                self.release(shader, Slot::Shader);
                GpuEvent::Completed
            },
            GpuAction::CreateProgram => {
                let id = self.create(Slot::Program);
                GpuEvent::Created { id }
            },
            GpuAction::AttachShader { program, shader } | GpuAction::DetachShader { program, shader } => {
                self.check(program, Slot::Program);
                self.check(shader, Slot::Shader);
                GpuEvent::Completed
            },
            GpuAction::LinkProgram { program } => {
                self.check(program, Slot::Program);
                GpuEvent::Completed
            },
            GpuAction::QueryLinkStatus { program } => {
                let ok = self.links && self.is_program(program);
                GpuEvent::Status { value: if ok { 1 } else { 0 } }
            },
            GpuAction::QueryProgramLogLength { program } => {
                self.check(program, Slot::Program);
                GpuEvent::LogLength { len: self.log_length() }
            },
            GpuAction::ReadProgramLog { program, buffer } => {
                self.check(program, Slot::Program);
                GpuEvent::Log { buffer: self.write_log(buffer) }
            },
            GpuAction::DeleteProgram { program } => {
                self.release(program, Slot::Program);
                GpuEvent::Completed
            },
            GpuAction::UseProgram { program } => {
                self.check(program, Slot::Program);
                GpuEvent::Completed
            },
            GpuAction::Wait => GpuEvent::Completed,
        }
    }
}

} // verus!
