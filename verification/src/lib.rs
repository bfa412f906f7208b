//! Compile-time embedding pipeline for WGSL shader sources.
//!
//! Given the source file that invokes an embedding operation and a path
//! relative to that file's directory, the library resolves the path, takes the
//! loaded file contents, runs them through naga's WGSL front end (parse, then
//! validate under the full capability set), and either keeps the validated
//! text verbatim or cross-compiles it to SPIR-V bytecode. Every failure
//! becomes a build diagnostic tied back to the invoking location; the pipeline
//! never substitutes a default artifact.
//!
//! The host build tool supplies the call-site location and performs the one
//! file read; everything the pipeline decides from those values is verified.

pub mod diagnostic;
pub mod laws;
pub mod path_resolve;
pub mod pipeline;
pub mod toolchain;
