//! Compilation of shader stages and linkage of GPU programs, written as
//! state machines that decide which GPU call comes next. The caller performs
//! each call against a rendering context and hands the outcome back.
pub mod assemble;
pub mod error;
pub mod fake;
pub mod gpu;
pub mod program;
pub mod shader;
pub mod stage;
pub mod text;
