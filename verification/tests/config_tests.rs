use iris_dev_core::iris::connection::{DiscoverySource, IrisConnection};
use iris_dev_core::iris::discovery::IrisEnv;
use iris_dev_core::iris::vscode_config::{
    strip_line_comments, IntersystemsServer, ObjectScriptConn, SuperServerSpec, VsCodeSettings,
    WebServerSpec,
};
use iris_dev_core::iris::workspace_config::{
    apply_workspace_config, explicit_workspace_root, generate_toml_content,
    workspace_config_to_connection, ConfigPlan, WorkspaceConfig,
};

fn no_env() -> IrisEnv {
    IrisEnv {
        host: None,
        web_port: None,
        username: None,
        password: None,
        namespace: None,
        scheme: None,
        web_prefix: None,
        container: None,
    }
}

fn empty_config() -> WorkspaceConfig {
    WorkspaceConfig {
        container: None,
        namespace: None,
        host: None,
        web_port: None,
        web_prefix: None,
        scheme: None,
        username: None,
        password: None,
    }
}

fn conn(host: Option<&str>, port: Option<u16>, server: Option<&str>) -> ObjectScriptConn {
    ObjectScriptConn {
        active: None,
        host: host.map(|s| s.to_string()),
        port,
        username: None,
        password: None,
        ns: Some("APP".to_string()),
        server: server.map(|s| s.to_string()),
    }
}

fn server(scheme: Option<&str>, host: &str, port: u16) -> IntersystemsServer {
    IntersystemsServer {
        web_server: WebServerSpec {
            host: Some(host.to_string()),
            port: Some(port),
            scheme: scheme.map(|s| s.to_string()),
            path_prefix: None,
        },
        super_server: Some(SuperServerSpec { host: None, port: Some(1972) }),
        username: Some("dev".to_string()),
        password: Some("pw".to_string()),
        description: None,
    }
}

#[test]
fn vscode_direct_connection_defaults() {
    let s = VsCodeSettings { objectscript_conn: Some(conn(None, None, None)), intersystems_servers: None };
    let c = s.to_iris_connection().unwrap();
    assert_eq!(c.base_url, "http://localhost:52773");
    assert_eq!(c.namespace, "APP");
    assert_eq!(c.username, "_SYSTEM");
    assert_eq!(c.password, "SYS");
    assert!(matches!(c.source, DiscoverySource::VsCodeSettings));
}

#[test]
fn vscode_named_server_is_resolved() {
    let s = VsCodeSettings {
        objectscript_conn: Some(conn(Some("ignored"), Some(1), Some("prod"))),
        intersystems_servers: Some(vec![
            ("dev".to_string(), server(None, "devhost", 52773)),
            ("prod".to_string(), server(Some("https"), "prodhost", 443)),
        ]),
    };
    let c = s.to_iris_connection().unwrap();
    assert_eq!(c.base_url, "https://prodhost:443");
    assert_eq!(c.username, "dev");
    assert_eq!(c.password, "pw");
    assert_eq!(server(None, "h", 1).super_server_port(), Some(1972));
}

#[test]
fn vscode_missing_or_inactive_gives_none() {
    let mut inactive = conn(None, None, None);
    inactive.active = Some(false);
    assert!(VsCodeSettings { objectscript_conn: Some(inactive), intersystems_servers: None }
        .to_iris_connection()
        .is_none());
    assert!(VsCodeSettings { objectscript_conn: None, intersystems_servers: None }.to_iris_connection().is_none());
    let unknown = VsCodeSettings {
        objectscript_conn: Some(conn(None, None, Some("nope"))),
        intersystems_servers: Some(vec![]),
    };
    assert!(unknown.to_iris_connection().is_none());
}

#[test]
fn comment_lines_are_dropped() {
    assert_eq!(strip_line_comments("{\n  // note\n  \"a\": 1\n}\n"), "{\n  \"a\": 1\n}");
    assert_eq!(strip_line_comments("\"x\": \"http://y\""), "\"x\": \"http://y\"");
}

#[test]
fn workspace_host_builds_connection() {
    let mut cfg = empty_config();
    cfg.host = Some("iris.example.com".to_string());
    cfg.web_prefix = Some("/gw/".to_string());
    let mut env = no_env();
    env.scheme = Some("https".to_string());
    env.username = Some("envuser".to_string());
    match workspace_config_to_connection(&cfg, "DEFNS", &env) {
        ConfigPlan::Connect(c) => {
            assert_eq!(c.base_url, "https://iris.example.com:52773/gw");
            assert_eq!(c.namespace, "DEFNS");
            assert_eq!(c.username, "envuser");
            assert_eq!(c.password, "SYS");
            assert!(matches!(c.source, DiscoverySource::EnvVar));
        }
        _ => panic!("expected a connection"),
    }
}

#[test]
fn workspace_container_sets_env() {
    let mut cfg = empty_config();
    cfg.container = Some("myapp-iris".to_string());
    cfg.namespace = Some("APP".to_string());
    match workspace_config_to_connection(&cfg, "USER", &no_env()) {
        ConfigPlan::UseContainer { container, namespace, username, password } => {
            assert_eq!(container, "myapp-iris");
            assert_eq!(namespace.as_deref(), Some("APP"));
            assert!(username.is_none());
            assert!(password.is_none());
        }
        _ => panic!("expected the container"),
    }
    assert!(matches!(workspace_config_to_connection(&empty_config(), "USER", &no_env()), ConfigPlan::Nothing));
}

#[test]
fn explicit_connection_wins_over_config() {
    let explicit = IrisConnection::new("http://cli:1", "USER", "u", "p", DiscoverySource::ExplicitFlag);
    let mut cfg = empty_config();
    cfg.host = Some("other".to_string());
    match apply_workspace_config(Some(explicit), Some(cfg), "USER", &no_env()) {
        ConfigPlan::Connect(c) => assert_eq!(c.base_url, "http://cli:1"),
        _ => panic!("explicit connection must be kept"),
    }
    assert!(matches!(apply_workspace_config(None, None, "USER", &no_env()), ConfigPlan::Nothing));
}

#[test]
fn workspace_root_priority() {
    assert_eq!(explicit_workspace_root(Some("/env/ws"), Some("/arg")), Some("/env/ws".to_string()));
    assert_eq!(explicit_workspace_root(Some(""), Some("/arg")), Some("/arg".to_string()));
    assert_eq!(explicit_workspace_root(None, Some(".")), None);
    assert_eq!(explicit_workspace_root(None, None), None);
}

#[test]
fn starter_toml_names_container_and_namespace() {
    let t = generate_toml_content("myapp-iris", "APP");
    assert!(t.starts_with("# iris-dev workspace configuration\n"));
    assert!(t.contains("container = \"myapp-iris\"\n"));
    assert!(t.contains("namespace = \"APP\"\n"));
    assert!(t.ends_with("# password = \"...\"  # not recommended in committed files\n"));
}

#[test]
fn file_settings_override_environment() {
    let mut cfg = empty_config();
    cfg.host = Some("h".to_string());
    cfg.scheme = Some("http".to_string());
    cfg.web_prefix = Some("".to_string());
    cfg.namespace = Some("FILE".to_string());
    cfg.username = Some("fileuser".to_string());
    cfg.password = Some("filepw".to_string());
    let mut env = no_env();
    env.scheme = Some("https".to_string());
    env.web_prefix = Some("gw".to_string());
    env.namespace = Some("ENV".to_string());
    env.username = Some("envuser".to_string());
    env.password = Some("envpw".to_string());
    match (
        workspace_config_to_connection(&cfg, "USER", &env),
        workspace_config_to_connection(&cfg, "USER", &no_env()),
    ) {
        (ConfigPlan::Connect(a), ConfigPlan::Connect(b)) => {
            assert_eq!(a.base_url, "http://h:52773");
            assert_eq!(a.base_url, b.base_url);
            assert_eq!(a.namespace, "FILE");
            assert_eq!(a.username, b.username);
            assert_eq!(a.password, "filepw");
        }
        _ => panic!("expected connections"),
    }
}

#[test]
fn vscode_named_server_keeps_path_prefix() {
    let mut dev = server(Some("https"), "iris.example.com", 443);
    dev.web_server.path_prefix = Some("/irisaicore/".to_string());
    let s = VsCodeSettings {
        objectscript_conn: Some(conn(None, None, Some("dev"))),
        intersystems_servers: Some(vec![("dev".to_string(), dev)]),
    };
    let c = s.to_iris_connection().unwrap();
    assert_eq!(c.base_url, "https://iris.example.com:443/irisaicore");
    assert_eq!(c.namespace, "APP");
}

#[test]
fn starter_toml_parses_to_container_and_namespace_only() {
    let t = generate_toml_content("myapp-iris", "APP");
    let table: toml::Table = toml::from_str(&t).unwrap();
    assert_eq!(table.len(), 2);
    assert_eq!(table["container"].as_str(), Some("myapp-iris"));
    assert_eq!(table["namespace"].as_str(), Some("APP"));
}
