use vstd::prelude::*;

use crate::stage::ShaderKind;

verus! {

/// One call into the GPU driver that a state machine asks its caller to make
/// against the current rendering context.
#[derive(Debug)]
pub enum GpuAction {
    /// Allocate a shader object of the given stage; answered by `Created`.
    CreateShader { kind: ShaderKind },
    /// Hand the NUL-terminated `source` to `shader` and compile it; answered by `Completed`.
    CompileShader { shader: u32, source: Vec<u8> },
    /// Read the compile status of `shader`; answered by `Status`.
    QueryCompileStatus { shader: u32 },
    /// Read the length of the compile diagnostic of `shader`; answered by `LogLength`.
    QueryShaderLogLength { shader: u32 },
    /// Write the compile diagnostic of `shader` into `buffer`, at most its
    /// length in bytes; answered by `Log` with the buffer.
    ReadShaderLog { shader: u32, buffer: Vec<u8> },
    /// Release `shader`; answered by `Completed`.
    DeleteShader { shader: u32 },
    /// Allocate a program object; answered by `Created`.
    CreateProgram,
    /// Attach `shader` to `program`; answered by `Completed`.
    AttachShader { program: u32, shader: u32 },
    /// Link `program`; answered by `Completed`.
    LinkProgram { program: u32 },
    /// Read the link status of `program`; answered by `Status`.
    QueryLinkStatus { program: u32 },
    /// Read the length of the link diagnostic of `program`; answered by `LogLength`.
    QueryProgramLogLength { program: u32 },
    /// Write the link diagnostic of `program` into `buffer`; answered by `Log`.
    ReadProgramLog { program: u32, buffer: Vec<u8> },
    /// Detach `shader` from `program`; answered by `Completed`.
    DetachShader { program: u32, shader: u32 },
    /// Release `program`; answered by `Completed`.
    DeleteProgram { program: u32 },
    /// Make `program` the active one for the draw calls that follow.
    UseProgram { program: u32 },
    /// Nothing is left to do.
    Wait,
}

/// What the driver answered to the last `GpuAction`.
#[derive(Debug)]
pub enum GpuEvent {
    /// A new object was allocated under `id`.
    Created { id: u32 },
    /// The call returned nothing.
    Completed,
    /// A status query returned `value`; zero means failure.
    Status { value: i32 },
    /// A diagnostic length query returned `len`.
    LogLength { len: i32 },
    /// The diagnostic was written into `buffer`.
    Log { buffer: Vec<u8> },
}

/// The size of the buffer that a reported diagnostic length asks for.
pub open spec fn log_buffer_len(len: i32) -> nat {
    if len > 0 {
        len as nat
    } else {
        0
    }
}

/// A buffer of spaces for a diagnostic whose reported length is `len`.
pub fn log_buffer(len: i32) -> (r: Vec<u8>)
    ensures
        r@ == Seq::new(log_buffer_len(len), |i: int| 0x20u8),
{
    let n: usize = if len > 0 {
        len as usize
    } else {
        0
    };
    crate::text::whitespace_buffer(n)
}

} // verus!
