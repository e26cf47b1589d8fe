use iris_dev_core::iris::connection::{
    docker_container, docker_exec_args, generator_output, insecure_tls, plan_exec_run,
    retry_after_failure, session_input, AtelierVersion, DiscoverySource, IrisConnection,
    next_generator_step, GeneratorStep, RetryDecision, EXEC_ATTEMPTS,
};

fn make_conn(password: &str) -> IrisConnection {
    IrisConnection::new(
        "http://localhost:52773",
        "USER",
        "_SYSTEM",
        password,
        DiscoverySource::ExplicitFlag,
    )
}

#[test]
fn test_password_redacted_in_debug() {
    let conn = make_conn("supersecret123");
    let debug_output = conn.debug_text();
    assert!(
        !debug_output.contains("supersecret123"),
        "password must not appear in Debug output, got: {}",
        debug_output
    );
    assert!(
        debug_output.contains("[redacted]"),
        "debug output should contain [redacted], got: {}",
        debug_output
    );
}

#[test]
fn test_versioned_ns_url_uses_passed_namespace() {
    let conn = make_conn("SYS");
    let url = conn.versioned_ns_url("MYNS", "/action/query");
    assert!(
        url.contains("/MYNS/"),
        "URL should contain the passed namespace MYNS, got: {}",
        url
    );
    assert!(
        !url.contains("/USER/"),
        "URL should NOT contain the connection default USER, got: {}",
        url
    );
}

#[test]
fn test_banner_stripped_from_output() {
    let raw = "Copyright (c) 2024 InterSystems Corporation\nAll rights reserved.\nIRIS for UNIX (Apple Mac OS X for x86-64) 2024.1\nUSER>\n42\nUSER>\n";
    let stripped = iris_dev_core::iris::connection::strip_iris_banner(raw);
    assert_eq!(stripped.trim(), "42", "expected only code output, got: {:?}", stripped);
}

#[test]
fn test_banner_strip_preserves_multiline_output() {
    let raw = "Copyright (c) 2024 InterSystems Corporation\nUSER>\nline1\nline2\nUSER>\n";
    let stripped = iris_dev_core::iris::connection::strip_iris_banner(raw);
    let trimmed = stripped.trim();
    assert!(trimmed.contains("line1"), "should contain line1, got: {:?}", trimmed);
    assert!(trimmed.contains("line2"), "should contain line2, got: {:?}", trimmed);
    assert!(!trimmed.contains("Copyright"), "should not contain Copyright, got: {:?}", trimmed);
}

#[test]
fn test_banner_strip_noop_on_clean_output() {
    let raw = "hello world\n";
    let stripped = iris_dev_core::iris::connection::strip_iris_banner(raw);
    assert_eq!(stripped.trim(), "hello world");
}

#[test]
fn debug_text_lists_every_field_but_the_password() {
    let conn = make_conn("pw");
    assert_eq!(
        conn.debug_text(),
        "IrisConnection { base_url: \"http://localhost:52773\", namespace: \"USER\", username: \"_SYSTEM\", password: \"[redacted]\", version: None, atelier_version: V1, source: ExplicitFlag, port_superserver: None }"
    );
}

#[test]
fn atelier_url_drops_trailing_slashes() {
    let conn = IrisConnection::new("http://h:1/pre//", "USER", "u", "p", DiscoverySource::EnvVar);
    assert_eq!(conn.atelier_url("/v1/x"), "http://h:1/pre/api/atelier/v1/x");
}

#[test]
fn versioned_url_uses_api_version() {
    let mut conn = make_conn("SYS");
    conn.atelier_version = AtelierVersion::V8;
    assert_eq!(
        conn.atelier_url_versioned("/docs"),
        "http://localhost:52773/api/atelier/v8/USER/docs"
    );
    assert_eq!(AtelierVersion::from_api_level(Some(7)), AtelierVersion::V2);
    assert_eq!(AtelierVersion::from_api_level(Some(8)), AtelierVersion::V8);
    assert_eq!(AtelierVersion::from_api_level(None), AtelierVersion::V1);
    assert_eq!(AtelierVersion::V2.version_str(), "v2");
}

#[test]
fn exec_run_names_follow_the_id() {
    let run = plan_exec_run("abc123def456", "write 1");
    assert_eq!(run.class_name, "User.IrisDevRunabc123def456");
    assert_eq!(run.doc_name, "User.IrisDevRunabc123def456.cls");
    assert_eq!(run.sql_func, "User.IrisDevRunabc123def456_Execute");
    assert_eq!(run.tmpfile, "/tmp/irisd_abc123def456.txt");
    assert_eq!(run.sql, "SELECT User.IrisDevRunabc123def456_Execute() AS output");
    assert!(run.content.iter().any(|l| l.contains("write 1")));
}

#[test]
fn fresh_exec_run_has_twelve_hex_digits() {
    let run = iris_dev_core::iris::connection::new_exec_run("write 2");
    assert_eq!(run.id.len(), 12);
    assert!(run.id.chars().all(|c| c.is_ascii_hexdigit() && !c.is_ascii_uppercase()));
    assert_eq!(run.class_name, format!("User.IrisDevRun{}", run.id));
}

#[test]
fn generator_output_restores_newlines() {
    assert_eq!(generator_output(Some("a\u{1}b\u{1}")), "a\nb\n");
    assert_eq!(generator_output(None), "");
}

#[test]
fn retry_policy_backs_off_then_gives_up() {
    assert_eq!(retry_after_failure(0, "HTTP 503"), RetryDecision::RetryAfterMs(100));
    assert_eq!(retry_after_failure(1, "connection refused"), RetryDecision::RetryAfterMs(200));
    assert_eq!(retry_after_failure(2, "timed out"), RetryDecision::RetryAfterMs(400));
    assert_eq!(retry_after_failure(3, "timed out"), RetryDecision::GiveUp);
    assert_eq!(EXEC_ATTEMPTS, 4);
    assert_eq!(retry_after_failure(0, "HTTP 404"), RetryDecision::GiveUp);
}

#[test]
fn docker_exec_needs_a_container() {
    assert_eq!(docker_container(None), Err("DOCKER_REQUIRED".to_string()));
    assert_eq!(docker_container(Some("iris1")), Ok("iris1".to_string()));
    assert_eq!(
        docker_exec_args("iris1", "USER"),
        vec!["exec", "-i", "iris1", "iris", "session", "IRIS", "-U", "USER"]
    );
    assert_eq!(session_input("write 1"), "write 1\nhalt\n");
}

#[test]
fn insecure_only_for_true_or_one() {
    assert!(insecure_tls(Some("true")));
    assert!(insecure_tls(Some("1")));
    assert!(!insecure_tls(Some("yes")));
    assert!(!insecure_tls(None));
}

#[test]
fn bare_prompt_lines_are_recognised() {
    assert!(iris_dev_core::iris::connection::is_bare_prompt_line("USER>"));
    assert!(iris_dev_core::iris::connection::is_bare_prompt_line("%SYS>  "));
    assert!(!iris_dev_core::iris::connection::is_bare_prompt_line("USER> write 1"));
}

#[test]
fn banner_strip_is_idempotent() {
    let raw = "Copyright (c) 2024 InterSystems Corporation\nUSER>\n\nline1\n  line2\n\nUSER>\n";
    let once = iris_dev_core::iris::connection::strip_iris_banner(raw);
    assert_eq!(once, "line1\n  line2");
    assert_eq!(iris_dev_core::iris::connection::strip_iris_banner(&once), once);
}

#[test]
fn generator_run_always_deletes_a_written_class() {
    assert_eq!(next_generator_step(GeneratorStep::Put, false), GeneratorStep::Finished);
    assert_eq!(next_generator_step(GeneratorStep::Put, true), GeneratorStep::Compile);
    assert_eq!(next_generator_step(GeneratorStep::Compile, false), GeneratorStep::Delete);
    assert_eq!(next_generator_step(GeneratorStep::Compile, true), GeneratorStep::Query);
    assert_eq!(next_generator_step(GeneratorStep::Query, false), GeneratorStep::Delete);
    assert_eq!(next_generator_step(GeneratorStep::Query, true), GeneratorStep::Delete);
    assert_eq!(next_generator_step(GeneratorStep::Delete, false), GeneratorStep::Finished);
}

#[test]
fn banner_strip_keeps_a_final_carriage_return() {
    let once = iris_dev_core::iris::connection::strip_iris_banner("a\ny\r");
    assert_eq!(once, "a\ny\r");
    assert_eq!(iris_dev_core::iris::connection::strip_iris_banner(&once), once);
}
