use iris_dev_core::iris::connection::{DiscoverySource, IrisConnection};
use iris_dev_core::tools::containers::{
    container_info, docker_ps_containers, extract_port, find_container, sandbox_name,
    sandbox_running, score_container, select_container, select_suggestion, sort_containers,
};
use iris_dev_core::tools::debug::{
    capture_packet_query, error_logs_query, introspect_methods_query, introspect_properties_query,
    parse_iris_error_string, parse_source_line, source_line_code, source_map_python, symbols_like_param, symbols_query,
    test_methods_query,
};
use iris_dev_core::tools::doc::strip_storage_blocks;
use iris_dev_core::tools::elicitation::{answered_yes, put_resume, ElicitationAction, ElicitationStore, PutResume};
use iris_dev_core::tools::history::{CallHistory, ToolCallEntry};
use iris_dev_core::tools::scm::{
    checkout_from_output, execute_from_output, os_quote, parse_action_msg, parse_scm_action, scm_step,
    user_action_code, ScmOutcome, ScmParams, ScmStep,
};
use iris_dev_core::tools::skill_store::{
    parse_skill_count, skill_describe_code, skill_forget_code, skill_search_code,
};
use iris_dev_core::tools::{
    require_container, expand_compile_targets, http_status_message, iris_unreachable_message,
    parse_compile_console, parse_test_output, wildcard_pattern, Severity,
};

#[test]
fn listing_score_keeps_dashes() {
    assert_eq!(score_container("MyApp-IRIS", "myapp"), 90);
    assert_eq!(score_container("myapp-test", "MyApp"), 85);
    assert_eq!(score_container("my-app", "my_app"), 0);
    assert_eq!(score_container("x", ""), 0);
}

#[test]
fn published_ports_are_read() {
    let ports = "0.0.0.0:32782->1972/tcp, 0.0.0.0:32783->52773/tcp";
    assert_eq!(extract_port(ports, "1972"), Some(32782));
    assert_eq!(extract_port(ports, "52773"), Some(32783));
    assert_eq!(extract_port(ports, "8080"), None);
    assert_eq!(extract_port("0.0.0.0:99999->1972/tcp", "1972"), None);
}

#[test]
fn docker_ps_lines_become_containers() {
    let out = "myapp-iris\tintersystemsdc/iris-community:latest\t0.0.0.0:1972->1972/tcp\tUp 2 hours\t2 hours ago\npg\tpostgres\t5432/tcp\tUp\t1 day\nshort\tiris\n";
    let cs = docker_ps_containers(out, "myapp");
    assert_eq!(cs.len(), 1);
    assert_eq!(cs[0].name, "myapp-iris");
    assert_eq!(cs[0].port_superserver, Some(1972));
    assert_eq!(cs[0].port_web, None);
    assert_eq!(cs[0].status, "running");
    assert_eq!(cs[0].age, "2 hours ago");
    assert_eq!(cs[0].score, 90);
}

#[test]
fn containers_sorted_by_score_then_name() {
    let v = vec![
        container_info("b", "", "img", "running", "", "zzz"),
        container_info("zzz-iris", "", "img", "running", "", "zzz"),
        container_info("a", "", "img", "running", "", "zzz"),
        container_info("zzz", "", "img", "running", "", "zzz"),
    ];
    let names: Vec<String> = sort_containers(v).into_iter().map(|c| c.name).collect();
    assert_eq!(names, vec!["zzz", "zzz-iris", "a", "b"]);
}

#[test]
fn select_and_sandbox_decisions() {
    let cs = vec![
        container_info("one", "0.0.0.0:4001->52773/tcp", "iris", "running", "", ""),
        container_info("two", "0.0.0.0:5001->1972/tcp", "iris", "running", "", ""),
    ];
    assert_eq!(select_suggestion(&cs), Some("iris_select_container(name='one')".to_string()));
    assert_eq!(select_suggestion(&vec![]), None);
    let (c, web): (IrisConnection, u16) = select_container(&cs, "one", "USER", "_SYSTEM", "SYS").ok().unwrap();
    assert_eq!(web, 4001);
    assert_eq!(c.base_url, "http://localhost:4001");
    assert_eq!(c.port_superserver, Some(1972));
    assert!(matches!(c.source, DiscoverySource::Docker { ref container_name } if container_name == "one"));
    match select_container(&cs, "three", "USER", "u", "p") {
        Err(names) => assert_eq!(names, vec!["one", "two"]),
        Ok(_) => panic!("no such container"),
    }
    assert_eq!(find_container(&cs, "two"), Some(1));
    assert_eq!(sandbox_name("", "proj"), "proj-iris");
    assert_eq!(sandbox_name("mine", "proj"), "mine");
    assert_eq!(sandbox_running(&cs, "two"), Some(1));
    assert_eq!(sandbox_running(&cs, "one"), None);
}

#[test]
fn error_strings_name_routine_and_offset() {
    assert_eq!(parse_iris_error_string("<UNDEFINED>x+3^Foo.1"), Some(("Foo.1".to_string(), 3)));
    assert_eq!(
        parse_iris_error_string("ERROR <SUBSCRIPT> zMain+12^MyApp.Util.1 *x"),
        Some(("MyApp.Util.1".to_string(), 12))
    );
    assert_eq!(parse_iris_error_string("no error here"), None);
    assert_eq!(
        source_line_code("My\"R", -5),
        "Write ##class(%Studio.Debugger).SourceLine(\"My\\\"R\",-5)"
    );
    assert_eq!(source_line_code("R", 42), "Write ##class(%Studio.Debugger).SourceLine(\"R\",42)");
}

#[test]
fn source_line_replies_are_read() {
    assert_eq!(parse_source_line(""), (None, None));
    assert_eq!(parse_source_line("no colon"), (None, None));
    assert_eq!(parse_source_line("MyApp.Foo.cls: 17 "), (Some("MyApp.Foo".to_string()), Some(17)));
    assert_eq!(parse_source_line("A.cls.cls:x"), (Some("A".to_string()), None));
}

#[test]
fn symbol_and_log_queries() {
    assert_eq!(
        symbols_query(20),
        "SELECT TOP 20 Name FROM %Dictionary.ClassDefinition WHERE Name LIKE ? ORDER BY Name"
    );
    assert_eq!(symbols_like_param("Ens"), "%Ens%");
    assert_eq!(
        introspect_methods_query("O'Brien.X"),
        "SELECT Name,FormalSpec,ReturnType FROM %Dictionary.CompiledMethod WHERE parent='O''Brien.X'"
    );
    assert_eq!(
        introspect_properties_query("A"),
        "SELECT Name,Type FROM %Dictionary.CompiledProperty WHERE parent='A'"
    );
    assert_eq!(
        test_methods_query("A"),
        "SELECT Name,FormalSpec,ReturnType FROM %Dictionary.CompiledMethod WHERE parent='A' ORDER BY Name"
    );
    assert_eq!(
        error_logs_query(50),
        "SELECT TOP 50 ErrorCode,ErrorText,TimeStamp FROM %SYSTEM.Error ORDER BY TimeStamp DESC"
    );
    assert!(capture_packet_query().starts_with("SELECT TOP 20 "));
}

#[test]
fn skill_snippets_escape_names() {
    assert_eq!(skill_describe_code("a\"b"), "Write $Get(^SKILLS(\"a\\\"b\"))");
    assert_eq!(skill_forget_code("x"), "Kill ^SKILLS(\"x\") Write \"OK\"");
    let s = skill_search_code("Fo\"O");
    assert!(s.contains("[\"foo\")||($ZConvert(key,\"L\")[\"foo\")"));
    assert_eq!(parse_skill_count(Some(" 7\n")), Some(7));
    assert_eq!(parse_skill_count(Some("x")), None);
    assert_eq!(parse_skill_count(None), None);
}

#[test]
fn history_keeps_the_last_fifty() {
    let mut h = CallHistory::new();
    for i in 0..60 {
        h.record(ToolCallEntry { tool: format!("t{}", i), success: i % 2 == 0, timestamp: std::time::Instant::now() });
    }
    assert_eq!(h.len(), 50);
}

#[test]
fn compile_console_is_split_into_errors_and_warnings() {
    let console = vec![
        "Compiling class A".to_string(),
        "  ERROR #5002: 12 : ObjectScript error ".to_string(),
        "WARNING #100:x:careful".to_string(),
        "ERROR no colons".to_string(),
    ];
    let (errors, warnings) = parse_compile_console(&console);
    assert_eq!(errors.len(), 2);
    assert_eq!(errors[0].code, "#5002");
    assert_eq!(errors[0].line, 12);
    assert_eq!(errors[0].text, "ObjectScript error");
    assert!(errors[0].severity == Severity::Error);
    assert_eq!(errors[1].code, "");
    assert_eq!(errors[1].line, 0);
    assert_eq!(errors[1].text, "no colons");
    assert_eq!(warnings.len(), 1);
    assert_eq!(warnings[0].line, 0);
    assert_eq!(warnings[0].text, "careful");
}

#[test]
fn test_output_counts() {
    let s = parse_test_output("Run...\nTests Passed: 5 of 6\nFAILED: 1 (see log)\n");
    assert_eq!(s.passed, 5);
    assert_eq!(s.failed, 1);
    assert_eq!(s.total, 6);
    assert!(!s.success);
    let ok = parse_test_output("passed: 3\n");
    assert_eq!((ok.passed, ok.failed, ok.total, ok.success), (3, 0, 3, true));
    let none = parse_test_output("nothing ran");
    assert!(!none.success);
    assert!(none.no_tests_found);
    assert!(!s.no_tests_found);
    assert!(!ok.no_tests_found);
}

#[test]
fn counted_console_lines_are_parsed() {
    let console = vec!["  1 ERROR #5475:12: Invalid command".to_string(), "  2 WARNING #100:3: careful".to_string()];
    let (errors, warnings) = parse_compile_console(&console);
    assert_eq!(errors.len(), 1);
    assert_eq!(errors[0].code, "#5475");
    assert_eq!(errors[0].line, 12);
    assert_eq!(errors[0].column, 0);
    assert_eq!(errors[0].text, "Invalid command");
    assert_eq!(warnings.len(), 1);
    assert_eq!(warnings[0].code, "#100");
    assert_eq!(warnings[0].line, 3);
    let (none, _) = parse_compile_console(&vec!["12 errors found".to_string()]);
    assert!(none.is_empty());
}

#[test]
fn docker_needed_without_container() {
    assert_eq!(
        require_container("iris_test", None),
        Some("iris_test requires docker exec. Set IRIS_CONTAINER=<container_name>.".to_string())
    );
    assert!(require_container("iris_test", Some("")).is_some());
    assert_eq!(require_container("iris_test", Some("iris")), None);
    assert!(parse_scm_action("checkout").needs_container());
    assert!(parse_scm_action("execute").needs_container());
    assert!(!parse_scm_action("status").needs_container());
    assert!(!parse_scm_action("menu").needs_container());
}

#[test]
fn hook_replies_map_to_outcomes() {
    assert!(matches!(checkout_from_output("A.cls", ""), ScmOutcome::Done));
    assert!(matches!(checkout_from_output("A.cls", "0|"), ScmOutcome::Done));
    assert!(matches!(execute_from_output("X", "A.cls", ""), ScmOutcome::Done));
    assert!(matches!(execute_from_output("X", "A.cls", "9|"), ScmOutcome::Unexpected { code: 9 }));
    match checkout_from_output("A.cls", "1|") {
        ScmOutcome::Confirm { message } => assert_eq!(message, "Check out A.cls ?"),
        _ => panic!("expected a question"),
    }
}

#[test]
fn wildcard_targets_expand() {
    assert_eq!(wildcard_pattern("MyApp.*.cls"), "(?i)^MyApp\\..*\\.cls$");
    let listed = vec!["MyApp.A.cls".to_string(), "myapp.b.CLS".to_string(), "Other.C.cls".to_string()];
    assert_eq!(
        expand_compile_targets("MyApp.*.cls", Some(listed)),
        vec!["MyApp.A.cls".to_string(), "myapp.b.CLS".to_string()]
    );
    assert_eq!(expand_compile_targets("MyApp.*.cls", None), vec!["MyApp.*.cls".to_string()]);
    assert_eq!(expand_compile_targets("MyApp.A.cls", Some(vec![])), vec!["MyApp.A.cls".to_string()]);
}

#[test]
fn storage_blocks_are_removed() {
    let src = "Class A {\nProperty P;\n\nStorage Default {\n<Data/>\n}\n}";
    let (out, stripped) = strip_storage_blocks(src);
    assert!(stripped);
    assert_eq!(out, "Class A {\nProperty P;\n\n}\n");
    let clean = "Class B {\n}\n";
    assert_eq!(strip_storage_blocks(clean), (clean.to_string(), false));
}

#[test]
fn storage_block_with_brace_on_next_line_is_removed() {
    let src = "Class A {\nProperty N;\nStorage Default\n{\n<Type>%Storage.Persistent</Type>\n}\n}";
    assert_eq!(strip_storage_blocks(src), ("Class A {\nProperty N;\n}\n".to_string(), true));
    let (once, _) = strip_storage_blocks(src);
    assert_eq!(strip_storage_blocks(&once), (once.clone(), false));
}

#[test]
fn scm_helpers() {
    assert_eq!(os_quote("a\"b"), "a\"\"b");
    assert_eq!(os_quote("say \"hi\" now"), "say \"\"hi\"\" now");
    assert_eq!(parse_action_msg(" 1 | Check out? "), (1, "Check out?".to_string()));
    assert_eq!(parse_action_msg("oops"), (0, String::new()));
    assert!(user_action_code("0", "A.cls").contains("UserAction(0,\"%SourceMenu,0\",\"A.cls\""));
}

#[test]
fn shared_messages() {
    assert_eq!(http_status_message(503), "HTTP 503");
    assert!(iris_unreachable_message().starts_with("IRIS_UNREACHABLE: no IRIS connection."));
}

#[test]
fn elicitation_store_keeps_and_forgets_questions() {
    let mut store = ElicitationStore::new();
    let a = store.insert("A.cls", ElicitationAction::Put, Some("Class A {}".to_string()), None, "USER".to_string());
    let b = store.insert("B.cls", ElicitationAction::ScmExecute, None, Some("CheckOut".to_string()), "APP".to_string());
    assert_eq!(a, "elicit-0");
    assert_eq!(b, "elicit-1");
    let pa = store.lookup(&a).unwrap();
    assert_eq!(pa.document, "A.cls");
    assert_eq!(pa.content.as_deref(), Some("Class A {}"));
    assert_eq!(pa.action, ElicitationAction::Put);
    store.clear(&a);
    assert!(store.lookup(&a).is_none());
    assert_eq!(store.lookup(&b).unwrap().scm_action_id.as_deref(), Some("CheckOut"));
    assert!(store.lookup("elicit-9").is_none());
    assert!(answered_yes("YES"));
    assert!(!answered_yes("no"));
}

#[test]
fn source_map_program_carries_connection_and_literals() {
    let code = source_map_python(None, "_SYSTEM", "SYS", "Class A {}", "A", &None);
    assert!(code.contains("os.environ.setdefault('IRIS_PORT', '1972')"));
    assert!(code.contains("os.environ.setdefault('IRIS_USERNAME', '_SYSTEM')"));
    assert!(code.contains("os.environ.setdefault('IRIS_PASSWORD', 'SYS')"));
    assert!(code.contains("build_source_map(cls_text=\"Class A {}\", cls_name=\"A\", conn=conn, workspace_path=null)"));
    let with_path = source_map_python(Some(51773), "u", "p", "say \"hi\"", "B", &Some("/ws".to_string()));
    assert!(with_path.contains("'IRIS_PORT', '51773'"));
    assert!(with_path.contains("cls_text=\"say \\\"hi\\\"\""));
    assert!(with_path.contains("workspace_path=\"/ws\")"));
    let control = source_map_python(None, "u", "p", "a\nb\u{1}\\", "C", &None);
    assert!(control.contains("cls_text=\"a\\nb\\u0001\\\\\""));
}

#[test]
fn write_resume_decisions() {
    let mut store = ElicitationStore::new();
    let id = store.insert("A.cls", ElicitationAction::Put, Some("Class A {}".to_string()), None, "USER".to_string());
    assert_eq!(put_resume(&store, &id, "YES"), PutResume::Write);
    assert_eq!(put_resume(&store, &id, "no"), PutResume::Declined);
    assert_eq!(put_resume(&store, "elicit-99", "yes"), PutResume::Expired);
    store.clear(&id);
    assert_eq!(put_resume(&store, &id, "yes"), PutResume::Expired);
}

fn scm_params(action: &str, action_id: Option<&str>, eid: Option<&str>, answer: Option<&str>) -> ScmParams {
    ScmParams {
        action: action.to_string(),
        document: Some("A.cls".to_string()),
        action_id: action_id.map(|s| s.to_string()),
        answer: answer.map(|s| s.to_string()),
        elicitation_id: eid.map(|s| s.to_string()),
        namespace: "USER".to_string(),
    }
}

#[test]
fn source_control_first_steps() {
    let mut store = ElicitationStore::new();
    match scm_step(&scm_params("checkout", None, None, None), &store, None) {
        ScmStep::DockerRequired { message } => {
            assert_eq!(message, "iris_source_control requires docker exec. Set IRIS_CONTAINER=<container_name>.")
        }
        _ => panic!("expected DOCKER_REQUIRED"),
    }
    match scm_step(&scm_params("checkout", None, None, None), &store, Some("iris")) {
        ScmStep::UserAction { action_id, code } => {
            assert_eq!(action_id, "CheckOut");
            assert_eq!(code, user_action_code("CheckOut", "A.cls"));
        }
        _ => panic!("expected the CheckOut user action"),
    }
    match scm_step(&scm_params("execute", Some("Undo"), None, None), &store, Some("iris")) {
        ScmStep::UserAction { action_id, .. } => assert_eq!(action_id, "Undo"),
        _ => panic!("expected a user action"),
    }
    assert!(matches!(scm_step(&scm_params("status", None, None, None), &store, None), ScmStep::Status { .. }));
    assert!(matches!(scm_step(&scm_params("menu", None, None, None), &store, None), ScmStep::Menu));
    match scm_step(&scm_params("bogus", None, None, None), &store, None) {
        ScmStep::Unknown { message } => assert_eq!(message, "Unknown action='bogus'. Use: status, menu, checkout, execute"),
        _ => panic!("expected an unknown action"),
    }
    assert!(matches!(scm_step(&scm_params("checkout", None, Some("elicit-7"), Some("yes")), &store, None), ScmStep::Expired));
    let id = store.insert("B.cls", ElicitationAction::ScmExecute, None, Some("CheckOut".to_string()), "APP".to_string());
    match scm_step(&scm_params("checkout", None, Some(&id), Some("yes")), &store, None) {
        ScmStep::Resume { document, action_id, namespace, code } => {
            assert_eq!(document, "B.cls");
            assert_eq!(action_id, "CheckOut");
            assert_eq!(namespace, "APP");
            assert!(code.contains("AfterUserAction(0,\"CheckOut\",\"B.cls\",1,\"yes\")"));
        }
        _ => panic!("expected a resume"),
    }
}
