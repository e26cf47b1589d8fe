use iris_dev_core::cli::{
    class_name_for_file, classify_target, compile_all_code, compile_one_code, compile_outcome_of,
    compiled_line, error_line, to_crlf, use_docker_fallback, CompileCommand, CompileOutcome,
    CompileTarget, InstallCommand, McpCommand,
};
use iris_dev_core::iris::connection::DiscoverySource;

fn compile_cmd(host: Option<&str>) -> CompileCommand {
    CompileCommand {
        target: None,
        host: host.map(|s| s.to_string()),
        web_port: 52773,
        namespace: "USER".to_string(),
        username: None,
        password: Some("secret".to_string()),
        flags: "cuk".to_string(),
        force_writable: false,
        format: "text".to_string(),
    }
}

fn mcp_cmd(prefix: &str) -> McpCommand {
    McpCommand {
        transport: "stdio".to_string(),
        port: 8080,
        host: Some("h".to_string()),
        web_port: None,
        web_prefix: prefix.to_string(),
        username: Some("me".to_string()),
        password: None,
        namespace: "APP".to_string(),
        server: None,
        config: None,
        subscribe: vec![],
        workspace: ".".to_string(),
    }
}

#[test]
fn compile_flags_name_the_connection() {
    assert!(compile_cmd(None).explicit_connection().is_none());
    let c = compile_cmd(Some("iris")).explicit_connection().unwrap();
    assert_eq!(c.base_url, "http://iris:52773");
    assert_eq!(c.username, "_SYSTEM");
    assert_eq!(c.password, "secret");
    assert!(matches!(c.source, DiscoverySource::ExplicitFlag));
    assert_eq!(compile_cmd(None).target_text(), ".");
}

#[test]
fn mcp_flags_add_the_prefix() {
    let c = mcp_cmd("/irisaicore/").explicit_connection().unwrap();
    assert_eq!(c.base_url, "http://h:52773/irisaicore");
    assert_eq!(c.namespace, "APP");
    assert_eq!(c.username, "me");
    assert_eq!(c.password, "SYS");
    assert_eq!(mcp_cmd("").explicit_connection().unwrap().base_url, "http://h:52773");
}

#[test]
fn install_is_not_available() {
    assert_eq!(
        InstallCommand { locked: false, dry_run: true }.run(),
        Err("iris-dev install: not yet implemented".to_string())
    );
}

#[test]
fn targets_are_classified() {
    assert!(matches!(classify_target("."), CompileTarget::All));
    assert!(matches!(classify_target("src/A.cls"), CompileTarget::File(f) if f == "src/A.cls"));
    assert!(matches!(classify_target("MyApp.Foo"), CompileTarget::Name(n) if n == "MyApp.Foo"));
    assert_eq!(
        compile_all_code("cuk"),
        "Set sc=$SYSTEM.OBJ.CompileAll(\"cuk\") If $System.Status.IsOK(sc) {Write \"OK\"} Else {Write $System.Status.GetErrorText(sc)}"
    );
    assert_eq!(
        compile_one_code("A.B", "ck"),
        "Set sc=$SYSTEM.OBJ.Compile(\"A.B\",\"ck\") If $System.Status.IsOK(sc) {Write \"OK\"} Else {Write $System.Status.GetErrorText(sc)}"
    );
}

#[test]
fn class_name_prefers_declaration() {
    assert_eq!(class_name_for_file("Class Pkg.Sub.A Extends %RegisteredObject {}", "x/A.cls"), "Pkg.Sub.A");
    assert_eq!(class_name_for_file("// empty", "./src/Pkg/A.cls"), "src.Pkg.A");
    assert_eq!(class_name_for_file("", "Pkg\\B.cls.cls"), "Pkg.B");
}

#[test]
fn crlf_conversion() {
    assert_eq!(to_crlf("a\nb\r\nc\rd"), "a\r\nb\r\nc\r\nd");
    assert_eq!(to_crlf("x\r\r\n"), "x\r\n\r\n");
    assert_eq!(to_crlf(""), "");
}

#[test]
fn compile_outcomes_and_exit_codes() {
    assert!(matches!(compile_outcome_of(Ok(" OK\n")), CompileOutcome::Compiled));
    let f = compile_outcome_of(Ok("ERROR #5002 "));
    assert_eq!(f.exit_code(), 1);
    assert!(matches!(f, CompileOutcome::Failed { ref error } if error == "ERROR #5002"));
    let d = compile_outcome_of(Err("DOCKER_REQUIRED"));
    assert_eq!(d.exit_code(), 2);
    assert!(matches!(d, CompileOutcome::NotRun { ref error_code, .. } if error_code == "DOCKER_REQUIRED"));
    assert!(matches!(compile_outcome_of(Err("timeout")), CompileOutcome::NotRun { ref error_code, .. } if error_code == "IRIS_UNREACHABLE"));
    assert_eq!(CompileOutcome::Compiled.exit_code(), 0);
    assert!(use_docker_fallback(Some("iris")));
    assert!(!use_docker_fallback(Some("")));
    assert!(!use_docker_fallback(None));
    assert_eq!(compiled_line("A.cls"), "\u{2713} Compiled: A.cls");
    assert_eq!(error_line("X", "boom"), "\u{2717} Error [X]: boom");
}

#[test]
fn crlf_conversion_is_idempotent() {
    for s in ["a\nb\r\nc\rd", "\r\r\n\n", "plain", "x\r"] {
        let once = to_crlf(s);
        assert_eq!(to_crlf(&once), once);
    }
}
