//! Items shared by every compiler and runtime.
pub mod builder;
pub mod compiler;
pub mod preprocessor;
pub mod runtime;
