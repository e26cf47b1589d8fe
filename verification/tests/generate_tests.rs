use iris_dev_core::generate::{
    compile_check_code, compile_check_passed, extract_class_name, generated_class_name,
    generated_test_class_name, retry_prompt, test_generation_prompt, validate_cls_syntax, LlmClient,
    LlmEnv, GENERATE_CLASS_SYSTEM, GENERATE_TEST_SYSTEM, RETRY_TEMPLATE,
};

fn llm_env(model: Option<&str>, openai: Option<&str>, anthropic: Option<&str>, timeout: Option<&str>) -> LlmEnv {
    LlmEnv {
        model: model.map(|s| s.to_string()),
        openai_api_key: openai.map(|s| s.to_string()),
        anthropic_api_key: anthropic.map(|s| s.to_string()),
        timeout: timeout.map(|s| s.to_string()),
    }
}

#[test]
fn class_syntax_needs_balanced_braces() {
    assert!(validate_cls_syntax("Class A.B Extends %RegisteredObject { Method M() { } }"));
    assert!(!validate_cls_syntax("Class A.B { Method M() { }"));
    assert!(!validate_cls_syntax("no class here {}"));
    assert!(!validate_cls_syntax("Class A.B"));
}

#[test]
fn class_name_is_the_word_after_class() {
    assert_eq!(
        extract_class_name("/// doc\n  Class MyApp.Patient Extends %Persistent\n{\n}"),
        Some("MyApp.Patient".to_string())
    );
    assert_eq!(extract_class_name("Include Foo\nClass\tX.Y {"), None);
    assert_eq!(extract_class_name("nothing"), None);
    assert_eq!(generated_class_name("nothing"), "Generated.Class");
    assert_eq!(generated_test_class_name("nothing", "A.B"), "Test.A.B");
    assert_eq!(generated_test_class_name("Class T.A Extends %UnitTest.TestCase {}", "A"), "T.A");
}

#[test]
fn llm_client_needs_model_and_key() {
    assert!(LlmClient::from_env(&llm_env(None, Some("k"), None, None)).is_none());
    assert!(LlmClient::from_env(&llm_env(Some("gpt-4o"), None, None, None)).is_none());
    let c = LlmClient::from_env(&llm_env(Some("gpt-4o"), None, Some("ak"), Some("15"))).unwrap();
    assert_eq!(c.timeout_secs(), 15);
    assert_eq!(c.authorization(), "Bearer ak");
    let d = LlmClient::from_env(&llm_env(Some("m-2"), Some("ok"), Some("ak"), Some("x"))).unwrap();
    assert_eq!(d.timeout_secs(), 60);
    assert_eq!(d.authorization(), "Bearer ok");
    assert_eq!(d.model(), "m-2");
}

#[test]
fn retry_prompt_fills_the_template() {
    let expected = format!("{}\n\nOriginal: Class X {{}}", RETRY_TEMPLATE.replace("{errors}", "compilation failed"));
    assert_eq!(retry_prompt("Class X {}"), expected);
    assert!(GENERATE_CLASS_SYSTEM.starts_with("You are an InterSystems ObjectScript expert."));
    assert!(GENERATE_TEST_SYSTEM.contains("%UnitTest.TestCase"));
}

#[test]
fn compile_check_reads_one() {
    assert_eq!(
        compile_check_code("A.B"),
        "Set sc=$SYSTEM.OBJ.Compile(\"A.B\",\"ck-d\") Write $System.Status.IsOK(sc)"
    );
    assert!(compile_check_passed(Some(" 1\n")));
    assert!(!compile_check_passed(Some("0")));
    assert!(!compile_check_passed(Some("11")));
    assert!(!compile_check_passed(None));
    assert_eq!(
        test_generation_prompt("Class: A"),
        "Generate tests for the following ObjectScript class:\n\nClass: A"
    );
}
