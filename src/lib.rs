//! Exers compiles untrusted source programs and runs them in a chosen runtime.
//!
//! The library states, and proves, the decisions of that pipeline: which
//! compiler may target which runtime, how each configuration becomes the
//! toolchain's command line, how a runtime's command, standard input and
//! limits are chosen, how captured output becomes an execution result, and
//! how preprocessors compose.
pub mod common;
pub mod compilers;
pub mod runtimes;
