use vstd::prelude::*;

use crate::stage::ShaderKind;

verus! {

/// The ways in which building a shader or a program can fail.
#[derive(Debug)]
pub enum Error {
    /// The source text of a resource could not be loaded.
    ResourceLoad { name: String, inner: String },
    /// The resource name ends in no known stage suffix.
    CanNotDetermineShaderTypeForResource { name: String },
    /// The driver rejected the source of a stage of kind `kind`; `message`
    /// is its diagnostic.
    CompileError { name: String, kind: ShaderKind, message: String },
    /// The program `name` could not be built: the driver rejected the
    /// linkage, or one of its stages; `message` is the driver's diagnostic.
    LinkError { name: String, message: String },
}

} // verus!
