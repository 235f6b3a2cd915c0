use crate::common::preprocessor::PreprocessorError;
use vstd::prelude::*;

verus! {

/// Optimisation level requested from a toolchain.
#[derive(Debug, Clone)]
pub enum OptLevel {
    /// No optimisations (level 0).
    O0,
    /// Optimise for speed.
    Speed,
    /// Optimise for size.
    Size,
    /// Level 1.
    O1,
    /// Level 2.
    O2,
    /// Level 3.
    O3,
    /// A level given verbatim.
    Custom(String),
}

/// The toolchain-agnostic form of an optimisation level.
pub open spec fn opt_char(level: OptLevel) -> Seq<char> {
    match level {
        OptLevel::O0 => "0"@,
        OptLevel::Speed => "fast"@,
        OptLevel::Size => "z"@,
        OptLevel::O1 => "1"@,
        OptLevel::O2 => "2"@,
        OptLevel::O3 => "3"@,
        OptLevel::Custom(s) => s@,
    }
}

impl OptLevel {
    /// Renders the level as the character form shared by toolchains:
    /// `0`, `fast`, `z`, `1`, `2`, `3`, or the custom text.
    pub fn as_stanard_opt_char(&self) -> (r: String)
        ensures
            r@ == opt_char(*self),
    {
        match self {
            OptLevel::O0 => String::from_str("0"),
            OptLevel::Speed => String::from_str("fast"),
            OptLevel::Size => String::from_str("z"),
            OptLevel::O1 => String::from_str("1"),
            OptLevel::O2 => String::from_str("2"),
            OptLevel::O3 => String::from_str("3"),
            OptLevel::Custom(c) => c.clone(),
        }
    }
}

#[verifier::external_type_specification]
#[verifier::external_body]
pub struct ExIoError(std::io::Error);

/// Errors of a compilation.
#[derive(Debug)]
pub enum CompilationError {
    /// Reading or writing a file, or starting a process, failed.
    IoError(std::io::Error),
    /// The toolchain exited with failure; holds what it wrote to stderr.
    CompilationFailed(String),
    /// A program the compilation needs is not installed; holds its name.
    ProgramNotInstalled(String),
    /// The requested combination is not supported; says which.
    FeatureNotSupported(String),
    /// A preprocessor rejected the source.
    PreprocessorError(PreprocessorError),
}

pub type CompilationResult<T> = Result<T, CompilationError>;

impl From<std::io::Error> for CompilationError {
    fn from(e: std::io::Error) -> (r: Self)
        ensures
            r == CompilationError::IoError(e),
    {
        CompilationError::IoError(e)
    }
}

impl vstd::std_specs::convert::FromSpecImpl<std::io::Error> for CompilationError {
    open spec fn obeys_from_spec() -> bool {
        true
    }

    open spec fn from_spec(e: std::io::Error) -> Self {
        CompilationError::IoError(e)
    }
}

/// The error that names `program` as missing.
pub open spec fn is_not_installed(e: CompilationError, program: Seq<char>) -> bool {
    e matches CompilationError::ProgramNotInstalled(p) && p@ == program
}

/// Relies on `which::which`: whether an executable named `program` is found
/// on `PATH`. The answer depends on the machine, so nothing is stated of it.
#[verifier::external_body]
pub(crate) fn program_on_path(program: &str) -> (found: bool) {
    which::which(program).is_ok()
}

/// The result of the installation check of `program`, given whether it was
/// found.
pub fn installed_result(program: &str, found: bool) -> (r: Result<(), CompilationError>)
    ensures
        found <==> r is Ok,
        !found ==> is_not_installed(r->Err_0, program@),
{
    if found {
        Ok(())
    } else {
        Err(CompilationError::ProgramNotInstalled(String::from_str(program)))
    }
}

/// Checks that `program` is installed: `Ok` when it is found on `PATH`, and
/// an error that names it otherwise.
pub fn check_program_installed(program: &str) -> (r: Result<(), CompilationError>)
    ensures
        r is Err ==> is_not_installed(r->Err_0, program@),
{
    let found = program_on_path(program);
    installed_result(program, found)
}

/// The result of a toolchain run that exited with `success`, having written
/// `stderr`.
pub fn compile_outcome(success: bool, stderr: String) -> (r: Result<(), CompilationError>)
    ensures
        success <==> r is Ok,
        !success ==> (r->Err_0 matches CompilationError::CompilationFailed(s) && s@ == stderr@),
{
    if success {
        Ok(())
    } else {
        Err(CompilationError::CompilationFailed(stderr))
    }
}

} // verus!
