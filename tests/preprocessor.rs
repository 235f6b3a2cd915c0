use exers::common::preprocessor::{
    Identity, Preprocessor, PreprocessorBundle, PreprocessorError, PreprocessorResult,
};

#[test]
fn test_preprocessor_bundle() {
    let bundle = PreprocessorBundle::new()
        .add_preprocessor(|code: &str| -> PreprocessorResult<String> { Ok(code.replace("a", "b")) })
        .add_preprocessor(|code: &str| -> PreprocessorResult<String> { Ok(code.replace("b", "c")) });

    let code = "a";
    let code = bundle.preprocess(code).unwrap();
    assert_eq!(code, "c");
}

#[test]
fn empty_bundle_hands_text_back() {
    let bundle = PreprocessorBundle::new();
    assert_eq!(bundle.preprocess("fn main() {}").unwrap(), "fn main() {}");
    assert_eq!(Identity.preprocess("").unwrap(), "");
}

#[test]
fn bundle_applies_stages_in_order() {
    let bundle = PreprocessorBundle::new()
        .add_preprocessor(|code: &str| -> PreprocessorResult<String> { Ok(format!("{}1", code)) })
        .add_preprocessor(|code: &str| -> PreprocessorResult<String> { Ok(format!("{}2", code)) })
        .add_preprocessor(|code: &str| -> PreprocessorResult<String> { Ok(format!("{}3", code)) });
    assert_eq!(bundle.preprocess("x").unwrap(), "x123");
}

#[test]
fn bundle_stops_at_first_error() {
    let bundle = PreprocessorBundle::new()
        .add_preprocessor(|_: &str| -> PreprocessorResult<String> {
            Err(PreprocessorError::ParserError("bad token".to_string()))
        })
        .add_preprocessor(|_: &str| -> PreprocessorResult<String> {
            Err(PreprocessorError::Other("must not run".to_string()))
        });
    match bundle.preprocess("x") {
        Err(PreprocessorError::ParserError(m)) => assert_eq!(m, "bad token"),
        other => panic!("unexpected result {:?}", other),
    }
}

#[test]
fn bundle_is_a_preprocessor() {
    let inner = PreprocessorBundle::new()
        .add_preprocessor(|code: &str| -> PreprocessorResult<String> { Ok(code.replace("$", "")) });
    let outer = PreprocessorBundle::new()
        .add_preprocessor(inner)
        .add_preprocessor(|code: &str| -> PreprocessorResult<String> { Ok(code.to_uppercase()) });
    assert_eq!(outer.preprocess("$a$b").unwrap(), "AB");
}
