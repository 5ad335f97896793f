use code_engine::runner::{
    binary_path, compile_outcome, get_runner, is_supported_lang, source_path, CppRunner,
    LangRunner,
};

#[test]
fn cpp_is_supported() {
    assert!(is_supported_lang("cpp"));
    assert!(!is_supported_lang("java"));
    assert!(!is_supported_lang(""));
}

#[test]
fn get_runner_builds_the_cpp_runner() {
    let r = get_runner("cpp", "int main() {}");
    match r {
        Ok(LangRunner::Cpp(c)) => assert_eq!(c.source(), "int main() {}"),
        _ => panic!("expected the cpp runner"),
    }
}

#[test]
fn get_runner_rejects_unknown_language() {
    let r = get_runner("java", "class A {}");
    match r {
        Err(e) => assert_eq!(e, "Unsupported language: java"),
        _ => panic!("expected an error"),
    }
}

#[test]
fn runner_holds_the_source_text() {
    let c = CppRunner::new("int main() { return 0; }");
    assert_eq!(c.source(), "int main() { return 0; }");
}

#[test]
fn artifact_paths_derive_from_the_task_id() {
    let id = "123e4567-e89b-12d3-a456-426614174000";
    assert_eq!(
        source_path(id, "cpp"),
        "code123e4567-e89b-12d3-a456-426614174000.cpp"
    );
    assert_eq!(binary_path(id), "binary123e4567-e89b-12d3-a456-426614174000");
}

#[test]
fn distinct_task_ids_give_distinct_paths() {
    let a = "123e4567-e89b-12d3-a456-426614174000";
    let b = "123e4567-e89b-12d3-a456-426614174001";
    assert_ne!(source_path(a, "cpp"), source_path(b, "cpp"));
    assert_ne!(binary_path(a), binary_path(b));
}

#[test]
fn successful_compile_returns_the_note() {
    let r = compile_outcome(true, &Vec::new());
    assert_eq!(r, Ok("Compilation successful".to_string()));
}

#[test]
fn failed_compile_returns_stderr_verbatim() {
    let stderr = b"main.cpp:1:1: error: expected unqualified-id".to_vec();
    let r = compile_outcome(false, &stderr);
    assert_eq!(
        r,
        Err("main.cpp:1:1: error: expected unqualified-id".to_string())
    );
}
