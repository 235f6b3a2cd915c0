use vstd::prelude::*;

use super::native_runtime::{native_argv, NativeAdditionalData, NativeConfig, NativeRuntime};
use crate::common::compiler::CompilationResult;
use crate::compilers::{CompilePlan, Compiler, HostEnv};
use super::CodeRuntime;

verus! {

/// Runs the executable as the native runtime does, inside a chroot jail set
/// up by a bundled shell script. The host process must run as root.
#[derive(Debug, Clone, Copy)]
pub struct JailedRuntime;

/// Configuration for the jailed runtime.
#[derive(Debug, Clone)]
pub struct JailedConfig {
    /// How the program inside the jail is run.
    pub native_runtime_config: NativeConfig,
}

impl Default for JailedConfig {
    fn default() -> (r: Self)
        ensures
            r.native_runtime_config.stdin is Ignore,
    {
        JailedConfig { native_runtime_config: NativeConfig::default() }
    }
}

/// Errors of the jailed runtime.
#[derive(Debug)]
pub enum JailedError {
    /// Reading or writing a file, or starting a process, failed.
    IOError(std::io::Error),
    /// The host process does not run as root.
    RootRequired,
}

impl From<std::io::Error> for JailedError {
    fn from(e: std::io::Error) -> (r: Self)
        ensures
            r == JailedError::IOError(e),
    {
        JailedError::IOError(e)
    }
}

impl vstd::std_specs::convert::FromSpecImpl<std::io::Error> for JailedError {
    open spec fn obeys_from_spec() -> bool {
        true
    }

    open spec fn from_spec(e: std::io::Error) -> Self {
        JailedError::IOError(e)
    }
}

impl CodeRuntime for JailedRuntime {
    type Config = JailedConfig;
    type AdditionalData = NativeAdditionalData;
}

/// Where the jail script is written inside the scratch directory.
pub open spec fn jail_script(scratch_dir: Seq<char>) -> Seq<char> {
    scratch_dir + "/jail.sh"@
}

/// The root of the jail inside the scratch directory.
pub open spec fn jail_root(scratch_dir: Seq<char>) -> Seq<char> {
    scratch_dir + "/jail"@
}

impl JailedRuntime {
    /// The command line that runs `executable` in the jail: the shell, the
    /// script, the jail root, then the native command line, run by
    /// `interpreter` (the path at which the artifact's interpreter was found)
    /// if there is one. Refused unless the host runs as root.
    pub fn command(
        &self,
        is_root: bool,
        scratch_dir: &str,
        interpreter: Option<String>,
        executable: &str,
    ) -> (r: Result<Vec<String>, JailedError>)
        ensures
            !is_root <==> r is Err,
            !is_root ==> r->Err_0 is RootRequired,
            is_root ==> r->Ok_0.deep_view() == seq!["bash"@, jail_script(scratch_dir@), jail_root(scratch_dir@)]
                + native_argv(NativeAdditionalData { program: interpreter }, executable@),
    {
        if !is_root {
            return Err(JailedError::RootRequired);
        }
        let mut argv: Vec<String> = Vec::new();
        argv.push(String::from_str("bash"));
        argv.push(String::from_str(scratch_dir).concat("/jail.sh"));
        argv.push(String::from_str(scratch_dir).concat("/jail"));
        match interpreter {
            Some(p) => {
                argv.push(p);
            },
            None => {},
        }
        argv.push(String::from_str(executable));
        proof {
            assert(argv.deep_view() =~= seq!["bash"@, jail_script(scratch_dir@), jail_root(scratch_dir@)]
                + native_argv(NativeAdditionalData { program: interpreter }, executable@));
        }
        Ok(argv)
    }
}

/// Every compiler that targets the native runtime targets the jailed one
/// with the same configuration and the same plan.
impl<C: Compiler<NativeRuntime>> Compiler<JailedRuntime> for C {
    type Config = <C as Compiler<NativeRuntime>>::Config;

    open spec fn planned(
        &self,
        config: Self::Config,
        env: HostEnv,
        r: CompilationResult<CompilePlan<NativeAdditionalData>>,
    ) -> bool {
        <C as Compiler<NativeRuntime>>::planned(self, config, env, r)
    }

    fn plan(&self, config: Self::Config, env: &HostEnv) -> (r: CompilationResult<CompilePlan<NativeAdditionalData>>) {
        <C as Compiler<NativeRuntime>>::plan(self, config, env)
    }
}

} // verus!
