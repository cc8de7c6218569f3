//! Decision core of a local proving service for a zero-knowledge virtual machine.
//!
//! A caller submits a snippet of program logic. The service wraps it into a guest
//! program, has it built and proved, and keeps the proof only if the guest ended
//! with the success exit status. A kept proof is stored together with the identity
//! of the binary it was produced against and can be checked again later.
//!
//! Everything here is pure: the modules decide and compute, and the caller performs
//! the file access, the toolchain run and the engine calls that the decisions ask for.

pub mod admission;
pub mod bytes;
pub mod error;
pub mod guest;
pub mod isolation;
pub mod pipeline;
pub mod proving;
pub mod record;
pub mod runs;
pub mod text;
pub mod toolchain;
pub mod workspace;
