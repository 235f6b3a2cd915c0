//! Compilers, and the plans by which the host turns source into an artifact.
//!
//! A compiler implements [`Compiler<R>`] for each runtime `R` it can target,
//! so an unsupported pair fails to build. Its plan names the scratch
//! directory's prefix, the file the source is written to, the programs that
//! must be installed, the toolchain commands to run in that directory, the
//! executable they leave there, and the data for the runtime.
use vstd::prelude::*;

use crate::common::compiler::{installed_result, is_not_installed, program_on_path, CompilationResult};
use crate::runtimes::CodeRuntime;

pub mod cpp_compiler;
pub mod js_compiler;
pub mod python_compiler;
pub mod rust_compiler;

verus! {

/// Converts a configuration to toolchain arguments.
pub trait IntoArgs: Sized {
    /// The arguments, as texts.
    spec fn spec_args(self) -> Seq<Seq<char>>;

    /// The arguments that this configuration adds to the toolchain's command line.
    fn into_args(self) -> (r: Vec<String>)
        ensures
            r.deep_view() == self.spec_args(),
    ;
}

/// Environment variables of the host that some compilers read.
#[derive(Debug, Clone)]
pub struct HostEnv {
    /// Value of `WASI_SYSROOT`: the WASI sysroot for C++.
    pub wasi_sysroot: Option<String>,
    /// Value of `JAVY_PATH`: the directory holding the `javy` tool.
    pub javy_path: Option<String>,
}

/// A toolchain invocation, run in the scratch directory with stdin closed,
/// stdout discarded and stderr captured.
#[derive(Debug, Clone)]
pub struct ToolCommand {
    /// Program to start.
    pub program: String,
    /// Its arguments.
    pub args: Vec<String>,
}

/// A command as texts: the program, then its arguments.
pub open spec fn command_line(c: ToolCommand) -> Seq<Seq<char>> {
    seq![c.program@] + c.args.deep_view()
}

/// How a compiler turns source into an artifact.
#[derive(Debug, Clone)]
pub struct CompilePlan<D> {
    /// Prefix of the scratch directory's name.
    pub dir_prefix: String,
    /// File, inside the scratch directory, that the source is written to.
    pub source_file: String,
    /// Programs that must be found on `PATH` before anything is run.
    pub required_programs: Vec<String>,
    /// Commands run in order in the scratch directory; the first that fails
    /// ends the compilation.
    pub steps: Vec<ToolCommand>,
    /// File, inside the scratch directory, that is the artifact's executable.
    pub executable: String,
    /// Data for the runtime.
    pub additional_data: D,
}

impl<D> CompilePlan<D> {
    /// The steps as command lines.
    pub open spec fn step_lines(&self) -> Seq<Seq<Seq<char>>> {
        self.steps@.map_values(|c: ToolCommand| command_line(c))
    }

    /// The plan's texts are `prefix`, `source`, `required`, `steps` and `executable`.
    pub open spec fn is(
        &self,
        prefix: Seq<char>,
        source: Seq<char>,
        required: Seq<Seq<char>>,
        steps: Seq<Seq<Seq<char>>>,
        executable: Seq<char>,
    ) -> bool {
        &&& self.dir_prefix@ == prefix
        &&& self.source_file@ == source
        &&& self.required_programs.deep_view() == required
        &&& self.step_lines() == steps
        &&& self.executable@ == executable
    }

    /// Checks that every required program is installed: `Ok` when each is
    /// found on `PATH`, else the error naming the first one that is not.
    /// Whether a program is found depends on the machine; the result is the
    /// verdict of [`tools_outcome`] on what the lookups answered.
    pub fn check_tools(&self) -> (r: CompilationResult<()>)
        ensures
            exists|found: Seq<bool>|
                found.len() == self.required_programs@.len() && #[trigger] tools_verdict(
                    self.required_programs@,
                    found,
                    r,
                ),
    {
        let mut found: Vec<bool> = Vec::new();
        let mut i: usize = 0;
        while i < self.required_programs.len()
            invariant
                i <= self.required_programs@.len(),
                found@.len() == i,
            decreases self.required_programs@.len() - i,
        {
            found.push(program_on_path(self.required_programs[i].as_str()));
            i = i + 1;
        }
        let r = tools_outcome(&self.required_programs, &found);
        assert(tools_verdict(self.required_programs@, found@, r));
        r
    }
}

/// `r` is the verdict on `programs` when the lookup of each answered
/// `found`: `Ok` when every one was found, else the error naming the first
/// one that was not.
pub open spec fn tools_verdict(programs: Seq<String>, found: Seq<bool>, r: CompilationResult<()>) -> bool {
    &&& (r is Ok <==> forall|i: int| 0 <= i < found.len() ==> #[trigger] found[i])
    &&& (r is Err ==> exists|i: int|
        0 <= i < found.len() && !#[trigger] found[i] && (forall|j: int| 0 <= j < i ==> found[j])
            && is_not_installed(r->Err_0, programs[i]@))
}

/// The verdict of the installation checks of `programs`, given whether each
/// was found.
pub fn tools_outcome(programs: &Vec<String>, found: &Vec<bool>) -> (r: CompilationResult<()>)
    requires
        found@.len() == programs@.len(),
    ensures
        tools_verdict(programs@, found@, r),
{
    let mut i: usize = 0;
    while i < found.len()
        invariant
            i <= found@.len(),
            found@.len() == programs@.len(),
            forall|j: int| 0 <= j < i ==> found@[j],
        decreases found@.len() - i,
    {
        if !found[i] {
            let r = installed_result(programs[i].as_str(), false);
            assert(!found@[i as int]);
            return r;
        }
        i = i + 1;
    }
    Ok(())
}

/// A compiler that can target the runtime `R`.
pub trait Compiler<R: CodeRuntime>: Send + Sync + Sized {
    /// Configuration for the compiler.
    type Config: Send + Sync + Sized + Clone + Default + IntoArgs;

    /// `r` is what this compiler plans for `config` in `env`.
    spec fn planned(
        &self,
        config: Self::Config,
        env: HostEnv,
        r: CompilationResult<CompilePlan<R::AdditionalData>>,
    ) -> bool;

    /// The plan that compiles source for `R` under `config`.
    fn plan(&self, config: Self::Config, env: &HostEnv) -> (r: CompilationResult<
        CompilePlan<R::AdditionalData>,
    >)
        ensures
            self.planned(config, *env, r),
    ;
}

/// The decimal digit `d`.
pub open spec fn digit_char(d: nat) -> char {
    if d == 0 {
        '0'
    } else if d == 1 {
        '1'
    } else if d == 2 {
        '2'
    } else if d == 3 {
        '3'
    } else if d == 4 {
        '4'
    } else if d == 5 {
        '5'
    } else if d == 6 {
        '6'
    } else if d == 7 {
        '7'
    } else if d == 8 {
        '8'
    } else {
        '9'
    }
}

/// `n` written in decimal, without leading zeros.
pub open spec fn decimal(n: nat) -> Seq<char>
    decreases n,
{
    if n < 10 {
        seq![digit_char(n)]
    } else {
        decimal(n / 10).push(digit_char(n % 10))
    }
}

fn digit_text(d: u32) -> (r: &'static str)
    requires
        d < 10,
    ensures
        r@ == seq![digit_char(d as nat)],
{
    if d == 0 {
        proof { reveal_strlit("0"); }
        "0"
    } else if d == 1 {
        proof { reveal_strlit("1"); }
        "1"
    } else if d == 2 {
        proof { reveal_strlit("2"); }
        "2"
    } else if d == 3 {
        proof { reveal_strlit("3"); }
        "3"
    } else if d == 4 {
        proof { reveal_strlit("4"); }
        "4"
    } else if d == 5 {
        proof { reveal_strlit("5"); }
        "5"
    } else if d == 6 {
        proof { reveal_strlit("6"); }
        "6"
    } else if d == 7 {
        proof { reveal_strlit("7"); }
        "7"
    } else if d == 8 {
        proof { reveal_strlit("8"); }
        "8"
    } else {
        proof { reveal_strlit("9"); }
        "9"
    }
}

/// Appends `n` in decimal to `s`.
pub fn append_decimal(s: &mut String, n: u32)
    ensures
        final(s)@ == old(s)@ + decimal(n as nat),
    decreases n,
{
    if n >= 10 {
        append_decimal(s, n / 10);
    }
    s.append(digit_text(n % 10));
    assert(s@ =~= old(s)@ + decimal(n as nat));
}

} // verus!
