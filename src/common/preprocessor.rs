use vstd::prelude::*;

verus! {

/// Errors that a preprocessor reports.
#[derive(Debug, Clone)]
pub enum PreprocessorError {
    /// The source text could not be parsed.
    ParserError(String),
    /// Any other failure, with a message.
    Other(String),
}

pub type PreprocessorResult<T> = Result<T, PreprocessorError>;

/// The text view of a preprocessor's result.
pub open spec fn text_of(r: PreprocessorResult<String>) -> PreprocessorResult<Seq<char>> {
    match r {
        Ok(s) => Ok(s@),
        Err(e) => Err(e),
    }
}

/// A transformation of source text applied before compilation.
pub trait Preprocessor: Send + Sync {
    /// Whether the preprocessor may be applied to `code`.
    spec fn accepts(&self, code: Seq<char>) -> bool;

    /// Whether `out` is a result that the preprocessor may give for `code`.
    spec fn gives(&self, code: Seq<char>, out: PreprocessorResult<Seq<char>>) -> bool;

    /// Transforms `code`, or reports why it cannot.
    fn preprocess(&self, code: &str) -> (r: PreprocessorResult<String>)
        requires
            self.accepts(code@),
        ensures
            self.gives(code@, text_of(r)),
    ;
}

impl<F> Preprocessor for F where F: Fn(&str) -> PreprocessorResult<String> + Send + Sync {
    open spec fn accepts(&self, code: Seq<char>) -> bool {
        forall|s: &str| s@ == code ==> call_requires(*self, (s,))
    }

    open spec fn gives(&self, code: Seq<char>, out: PreprocessorResult<Seq<char>>) -> bool {
        exists|s: &str, r: PreprocessorResult<String>|
            s@ == code && call_ensures(*self, (s,), r) && text_of(r) == out
    }

    fn preprocess(&self, code: &str) -> (r: PreprocessorResult<String>) {
        self(code)
    }
}

/// The preprocessor that hands its input back unchanged.
#[derive(Debug, Clone, Copy)]
pub struct Identity;

impl Preprocessor for Identity {
    open spec fn accepts(&self, code: Seq<char>) -> bool {
        true
    }

    open spec fn gives(&self, code: Seq<char>, out: PreprocessorResult<Seq<char>>) -> bool {
        out == Ok::<Seq<char>, PreprocessorError>(code)
    }

    fn preprocess(&self, code: &str) -> (r: PreprocessorResult<String>) {
        Ok(String::from_str(code))
    }
}

/// Two preprocessors applied one after the other: `first`, then `second` on
/// its output. An error of `first` is the result and `second` does not run.
#[derive(Debug, Clone, Copy)]
pub struct Then<A, B> {
    pub first: A,
    pub second: B,
}

/// `out` is a result of running `a` on `code`, then `b` on what `a` gave.
pub open spec fn chained<A: Preprocessor, B: Preprocessor>(
    a: A,
    b: B,
    code: Seq<char>,
    out: PreprocessorResult<Seq<char>>,
) -> bool {
    (exists|mid: Seq<char>| a.gives(code, Ok(mid)) && #[trigger] b.gives(mid, out))
        || (exists|e: PreprocessorError|
        #[trigger] a.gives(code, Err(e)) && out == Err::<Seq<char>, PreprocessorError>(e))
}

impl<A: Preprocessor, B: Preprocessor> Preprocessor for Then<A, B> {
    open spec fn accepts(&self, code: Seq<char>) -> bool {
        &&& self.first.accepts(code)
        &&& forall|mid: Seq<char>| #[trigger]
            self.first.gives(code, Ok(mid)) ==> self.second.accepts(mid)
    }

    open spec fn gives(&self, code: Seq<char>, out: PreprocessorResult<Seq<char>>) -> bool {
        chained(self.first, self.second, code, out)
    }

    fn preprocess(&self, code: &str) -> (r: PreprocessorResult<String>) {
        match self.first.preprocess(code) {
            Ok(mid) => {
                let r = self.second.preprocess(mid.as_str());
                assert(self.first.gives(code@, Ok(mid@)));
                r
            },
            Err(e) => {
                assert(self.first.gives(code@, Err(e)));
                Err(e)
            },
        }
    }
}

/// An ordered sequence of preprocessors, applied from first to last; itself
/// a preprocessor. Each stage added is a type in `S`, so that every stage
/// keeps its own contract.
#[derive(Debug, Clone, Copy)]
pub struct PreprocessorBundle<S = Identity> {
    pub stages: S,
}

impl PreprocessorBundle<Identity> {
    /// Creates a bundle with no stages, which hands its input back.
    pub fn new() -> (r: Self)
        ensures
            forall|code: Seq<char>, out: PreprocessorResult<Seq<char>>|
                r.gives(code, out) <==> out == Ok::<Seq<char>, PreprocessorError>(code),
    {
        PreprocessorBundle { stages: Identity }
    }
}

impl<S: Preprocessor> PreprocessorBundle<S> {
    /// Appends `preprocessor` as the last stage.
    pub fn add_preprocessor<P: Preprocessor>(self, preprocessor: P) -> (r: PreprocessorBundle<
        Then<S, P>,
    >)
        ensures
            r.stages.first == self.stages,
            r.stages.second == preprocessor,
            forall|code: Seq<char>, out: PreprocessorResult<Seq<char>>|
                r.gives(code, out) <==> chained(self.stages, preprocessor, code, out),
    {
        PreprocessorBundle { stages: Then { first: self.stages, second: preprocessor } }
    }
}

impl<S: Preprocessor> Preprocessor for PreprocessorBundle<S> {
    open spec fn accepts(&self, code: Seq<char>) -> bool {
        self.stages.accepts(code)
    }

    open spec fn gives(&self, code: Seq<char>, out: PreprocessorResult<Seq<char>>) -> bool {
        self.stages.gives(code, out)
    }

    /// Folds `code` through the stages in order, stopping at the first error.
    fn preprocess(&self, code: &str) -> (r: PreprocessorResult<String>) {
        self.stages.preprocess(code)
    }
}

/// `p` behaves as the function `f`: for each text, its one possible result
/// is `f` of that text.
pub open spec fn computes<P: Preprocessor>(
    p: P,
    f: spec_fn(Seq<char>) -> PreprocessorResult<Seq<char>>,
) -> bool {
    forall|code: Seq<char>, out: PreprocessorResult<Seq<char>>|
        #[trigger] p.gives(code, out) <==> out == f(code)
}

/// `f`, then `g` on its text; an error of `f` is kept.
pub open spec fn compose(
    f: spec_fn(Seq<char>) -> PreprocessorResult<Seq<char>>,
    g: spec_fn(Seq<char>) -> PreprocessorResult<Seq<char>>,
) -> spec_fn(Seq<char>) -> PreprocessorResult<Seq<char>> {
    |code: Seq<char>|
        match f(code) {
            Ok(mid) => g(mid),
            Err(e) => Err(e),
        }
}

/// The empty bundle is the identity on texts.
pub proof fn lemma_empty_bundle_is_identity()
    ensures
        computes(
            PreprocessorBundle { stages: Identity },
            |code: Seq<char>| Ok::<Seq<char>, PreprocessorError>(code),
        ),
{
}

/// Appending a stage `p` that computes `g` to a bundle that computes `f`
/// gives a bundle that computes `g` after `f`; by induction on the stages,
/// a bundle of `p1, ..., pn` computes `pn(...p1(s))`.
pub proof fn lemma_bundle_composes<S: Preprocessor, P: Preprocessor>(
    bundle: PreprocessorBundle<S>,
    p: P,
    f: spec_fn(Seq<char>) -> PreprocessorResult<Seq<char>>,
    g: spec_fn(Seq<char>) -> PreprocessorResult<Seq<char>>,
)
    requires
        computes(bundle, f),
        computes(p, g),
    ensures
        computes(PreprocessorBundle { stages: Then { first: bundle.stages, second: p } }, compose(f, g)),
{
    let b2 = PreprocessorBundle { stages: Then { first: bundle.stages, second: p } };
    assert forall|code: Seq<char>, out: PreprocessorResult<Seq<char>>|
        #[trigger] b2.gives(code, out) <==> out == compose(f, g)(code) by {
        assert(bundle.gives(code, f(code)));
        if b2.gives(code, out) {
            if exists|m: Seq<char>| bundle.stages.gives(code, Ok(m)) && #[trigger] p.gives(m, out) {
                let m = choose|m: Seq<char>| bundle.stages.gives(code, Ok(m)) && #[trigger] p.gives(m, out);
                assert(bundle.gives(code, Ok(m)));
            } else {
                let e = choose|e: PreprocessorError|
                    #[trigger] bundle.stages.gives(code, Err(e)) && out == Err::<Seq<char>, PreprocessorError>(e);
                assert(bundle.gives(code, Err(e)));
            }
        }
        match f(code) {
            Ok(mid) => {
                if out == g(mid) {
                    assert(p.gives(mid, out));
                }
            },
            Err(e) => {
                if out == Err::<Seq<char>, PreprocessorError>(e) {
                    assert(bundle.stages.gives(code, Err(e)));
                }
            },
        }
    }
}

/// Folds `code` through the functions `fs` from first to last: the result
/// is `fs[n-1](...fs[0](code)...)`, or the first error.
pub open spec fn fold_stages(
    fs: Seq<spec_fn(Seq<char>) -> PreprocessorResult<Seq<char>>>,
    code: Seq<char>,
) -> PreprocessorResult<Seq<char>>
    decreases fs.len(),
{
    if fs.len() == 0 {
        Ok(code)
    } else {
        match fold_stages(fs.drop_last(), code) {
            Ok(mid) => (fs.last())(mid),
            Err(e) => Err(e),
        }
    }
}

/// The empty bundle folds a text through no function.
pub proof fn lemma_empty_bundle_folds()
    ensures
        computes(
            PreprocessorBundle { stages: Identity },
            |code: Seq<char>| fold_stages(Seq::empty(), code),
        ),
{
}

/// A bundle of stages that compute `f1, ..., fn` computes their fold
/// `fn(...f1(s)...)`: appending a stage that computes `g` to a bundle that
/// folds through `fs` gives one that folds through `fs` then `g`.
pub proof fn lemma_bundle_folds<S: Preprocessor, P: Preprocessor>(
    bundle: PreprocessorBundle<S>,
    p: P,
    fs: Seq<spec_fn(Seq<char>) -> PreprocessorResult<Seq<char>>>,
    g: spec_fn(Seq<char>) -> PreprocessorResult<Seq<char>>,
)
    requires
        computes(bundle, |code: Seq<char>| fold_stages(fs, code)),
        computes(p, g),
    ensures
        computes(
            PreprocessorBundle { stages: Then { first: bundle.stages, second: p } },
            |code: Seq<char>| fold_stages(fs.push(g), code),
        ),
{
    let f = |code: Seq<char>| fold_stages(fs, code);
    lemma_bundle_composes(bundle, p, f, g);
    assert(fs.push(g).drop_last() =~= fs);
    assert forall|code: Seq<char>| #[trigger] compose(f, g)(code) == fold_stages(fs.push(g), code) by {
        assert(fs.push(g).last() == g);
    }
}

} // verus!
