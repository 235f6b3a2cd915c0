use vstd::prelude::*;

use crate::common::compiler::{CompilationError, CompilationResult};
use crate::common::preprocessor::{computes, Identity, Preprocessor, PreprocessorBundle, PreprocessorResult, Then};
use crate::compilers::{CompilePlan, Compiler, HostEnv};
use crate::runtimes::CodeRuntime;

verus! {

/// Gathers preprocessors, a compiler and a runtime, with their
/// configurations, and fuses them into a [`CustomRuntime`].
pub struct RuntimeBuilder<C: Compiler<R>, R: CodeRuntime, P = Identity> {
    /// Preprocessors, applied in the order they were added.
    pub preprocessors: PreprocessorBundle<P>,
    /// The compiler, once set.
    pub compiler: Option<C>,
    /// The runtime, once set.
    pub runtime: Option<R>,
    /// Configuration of the compiler; its default when not given.
    pub compiler_config: Option<C::Config>,
    /// Configuration of the runtime; its default when not given.
    pub runtime_config: Option<R::Config>,
}

/// Why a builder cannot build.
#[derive(Debug, Clone, Copy, PartialEq, Eq, Structural)]
pub enum RuntimeBuilderError {
    /// No compiler was set.
    CompilerNotSet,
    /// No runtime was set.
    RuntimeNotSet,
}

pub type RuntimeBuilderResult<T> = Result<T, RuntimeBuilderError>;

impl<C: Compiler<R>, R: CodeRuntime> RuntimeBuilder<C, R, Identity> {
    /// A builder with no preprocessor, compiler or runtime.
    pub fn new() -> (r: Self)
        ensures
            r.compiler is None,
            r.runtime is None,
            r.compiler_config is None,
            r.runtime_config is None,
            r.preprocessors.stages == Identity,
    {
        RuntimeBuilder {
            preprocessors: PreprocessorBundle::new(),
            compiler: None,
            runtime: None,
            compiler_config: None,
            runtime_config: None,
        }
    }
}

impl<C: Compiler<R>, R: CodeRuntime, P: Preprocessor> RuntimeBuilder<C, R, P> {
    /// Appends `preprocessor` after those already added.
    pub fn preprocessor<Q: Preprocessor>(self, preprocessor: Q) -> (r: RuntimeBuilder<C, R, Then<P, Q>>)
        ensures
            r.preprocessors.stages == (Then { first: self.preprocessors.stages, second: preprocessor }),
            r.compiler == self.compiler,
            r.runtime == self.runtime,
            r.compiler_config == self.compiler_config,
            r.runtime_config == self.runtime_config,
    {
        RuntimeBuilder {
            preprocessors: self.preprocessors.add_preprocessor(preprocessor),
            compiler: self.compiler,
            runtime: self.runtime,
            compiler_config: self.compiler_config,
            runtime_config: self.runtime_config,
        }
    }

    /// Sets the compiler and its configuration; `None` stands for the default.
    pub fn compiler(self, compiler: C, config: Option<C::Config>) -> (r: Self)
        ensures
            r.compiler == Some(compiler),
            r.compiler_config == config,
            r.preprocessors == self.preprocessors,
            r.runtime == self.runtime,
            r.runtime_config == self.runtime_config,
    {
        RuntimeBuilder { compiler: Some(compiler), compiler_config: config, ..self }
    }

    /// Sets the runtime and its configuration; `None` stands for the default.
    pub fn runtime(self, runtime: R, config: Option<R::Config>) -> (r: Self)
        ensures
            r.runtime == Some(runtime),
            r.runtime_config == config,
            r.preprocessors == self.preprocessors,
            r.compiler == self.compiler,
            r.compiler_config == self.compiler_config,
    {
        RuntimeBuilder { runtime: Some(runtime), runtime_config: config, ..self }
    }

    /// Fuses what was gathered. Fails with `CompilerNotSet` when no compiler
    /// was set, and otherwise with `RuntimeNotSet` when no runtime was set.
    /// A configuration that was not given is the type's default.
    pub fn build(self) -> (r: RuntimeBuilderResult<CustomRuntime<C, R, P>>)
        ensures
            self.compiler is None ==> r == Err::<CustomRuntime<C, R, P>, RuntimeBuilderError>(
                RuntimeBuilderError::CompilerNotSet,
            ),
            self.compiler is Some && self.runtime is None ==> r == Err::<
                CustomRuntime<C, R, P>,
                RuntimeBuilderError,
            >(RuntimeBuilderError::RuntimeNotSet),
            self.compiler is Some && self.runtime is Some ==> (r matches Ok(e) && {
                &&& e.preprocessors == self.preprocessors
                &&& e.compiler == self.compiler.unwrap()
                &&& e.runtime == self.runtime.unwrap()
                &&& (self.compiler_config matches Some(c) ==> e.compiler_config == c)
                &&& (self.compiler_config is None ==> call_ensures(
                    <C::Config as Default>::default,
                    (),
                    e.compiler_config,
                ))
                &&& (self.runtime_config matches Some(c) ==> e.runtime_config == c)
                &&& (self.runtime_config is None ==> call_ensures(
                    <R::Config as Default>::default,
                    (),
                    e.runtime_config,
                ))
            }),
    {
        let compiler = match self.compiler {
            Some(c) => c,
            None => return Err(RuntimeBuilderError::CompilerNotSet),
        };
        let runtime = match self.runtime {
            Some(r) => r,
            None => return Err(RuntimeBuilderError::RuntimeNotSet),
        };
        let compiler_config = match self.compiler_config {
            Some(c) => c,
            None => C::Config::default(),
        };
        let runtime_config = match self.runtime_config {
            Some(c) => c,
            None => R::Config::default(),
        };
        Ok(CustomRuntime {
            preprocessors: self.preprocessors,
            compiler,
            runtime,
            compiler_config,
            runtime_config,
        })
    }
}

/// Preprocessors, a compiler and a runtime fused into one reusable executor.
/// Each run preprocesses the source, compiles it under a copy of the
/// compiler's configuration, and runs the artifact under a copy of the
/// runtime's; nothing of one run is kept for the next.
pub struct CustomRuntime<C: Compiler<R>, R: CodeRuntime, P> {
    pub preprocessors: PreprocessorBundle<P>,
    pub compiler: C,
    pub runtime: R,
    pub compiler_config: C::Config,
    pub runtime_config: R::Config,
}

/// A failure of a fused run: of the compilation, or of the run.
#[derive(Debug)]
pub enum CustomRuntimeError<E> {
    /// The source could not be preprocessed or compiled.
    CompilationError(CompilationError),
    /// The runtime failed.
    RuntimeError(E),
}

/// `r` is what preprocessing gives for `code`, with a preprocessor's error
/// lifted into a compilation error.
pub open spec fn preprocessed<P: Preprocessor>(
    bundle: PreprocessorBundle<P>,
    code: Seq<char>,
    r: CompilationResult<String>,
) -> bool {
    match r {
        Ok(s) => bundle.gives(code, Ok(s@)),
        Err(CompilationError::PreprocessorError(e)) => bundle.gives(code, Err(e)),
        Err(_) => false,
    }
}

impl<C: Compiler<R>, R: CodeRuntime, P: Preprocessor> CustomRuntime<C, R, P> {
    /// Folds `code` through the preprocessors; a preprocessor's error
    /// becomes a compilation error and ends the run.
    pub fn prepare(&self, code: &str) -> (r: CompilationResult<String>)
        requires
            self.preprocessors.accepts(code@),
        ensures
            preprocessed(self.preprocessors, code@, r),
    {
        match self.preprocessors.preprocess(code) {
            Ok(s) => Ok(s),
            Err(e) => Err(CompilationError::PreprocessorError(e)),
        }
    }

    /// The compiler's plan under a copy of the configuration.
    pub fn plan(&self, env: &HostEnv) -> (r: CompilationResult<CompilePlan<R::AdditionalData>>)
        ensures
            exists|config: C::Config|
                cloned(self.compiler_config, config) && #[trigger] self.compiler.planned(config, *env, r),
    {
        let config = self.compiler_config.clone();
        self.compiler.plan(config, env)
    }

    /// A copy of the runtime's configuration, for one run.
    pub fn run_config(&self) -> (r: R::Config)
        ensures
            cloned(self.runtime_config, r),
    {
        self.runtime_config.clone()
    }

    /// Tags a compilation failure.
    pub fn compilation_failed<E>(&self, e: CompilationError) -> (r: CustomRuntimeError<E>)
        ensures
            r matches CustomRuntimeError::CompilationError(x) && x == e,
    {
        CustomRuntimeError::CompilationError(e)
    }

    /// Tags a failure of the runtime.
    pub fn run_failed<E>(&self, e: E) -> (r: CustomRuntimeError<E>)
        ensures
            r matches CustomRuntimeError::RuntimeError(x) && x == e,
    {
        CustomRuntimeError::RuntimeError(e)
    }
}

/// Runs of one executor are independent: whatever ran before, preparing
/// the same source gives the same text or the same error, when each stage
/// behaves as a function. Preparing takes the executor by shared reference,
/// so no run changes what the next one sees.
pub proof fn lemma_prepare_is_independent<C: Compiler<R>, R: CodeRuntime, P: Preprocessor>(
    rt: CustomRuntime<C, R, P>,
    f: spec_fn(Seq<char>) -> PreprocessorResult<Seq<char>>,
    code: Seq<char>,
    first: CompilationResult<String>,
    second: CompilationResult<String>,
)
    requires
        computes(rt.preprocessors, f),
        preprocessed(rt.preprocessors, code, first),
        preprocessed(rt.preprocessors, code, second),
    ensures
        first is Ok <==> second is Ok,
        first is Ok ==> first->Ok_0@ == second->Ok_0@,
        first is Err ==> (first->Err_0 matches CompilationError::PreprocessorError(e1)
            && second->Err_0 matches CompilationError::PreprocessorError(e2) && e1 == e2),
{
    match first {
        Ok(s) => assert(rt.preprocessors.gives(code, Ok(s@))),
        Err(CompilationError::PreprocessorError(e)) => assert(rt.preprocessors.gives(code, Err(e))),
        Err(_) => {},
    }
    match second {
        Ok(s) => assert(rt.preprocessors.gives(code, Ok(s@))),
        Err(CompilationError::PreprocessorError(e)) => assert(rt.preprocessors.gives(code, Err(e))),
        Err(_) => {},
    }
}

} // verus!
