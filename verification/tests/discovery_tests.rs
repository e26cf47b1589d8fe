use iris_dev_core::iris::connection::{AtelierVersion, DiscoverySource, IrisConnection};
use iris_dev_core::iris::discovery::{
    connection_from_probe, discovery_steps, env_connection_plan, named_container_targets,
    rank_docker_candidates, scan_ports, score_container_name, with_docker_origin, AtelierRoot,
    DiscoveryStep, DockerContainer, DockerPort, DockerTarget, EnvPlan, IrisEnv,
};

fn env() -> IrisEnv {
    IrisEnv {
        host: None,
        web_port: None,
        username: None,
        password: None,
        namespace: None,
        scheme: None,
        web_prefix: None,
        container: None,
    }
}

fn container(name: &str, image: &str, ports: Vec<(u16, Option<u16>)>) -> DockerContainer {
    DockerContainer {
        names: Some(vec![format!("/{}", name)]),
        image: Some(image.to_string()),
        ports: Some(
            ports
                .into_iter()
                .map(|(private_port, public_port)| DockerPort { private_port, public_port })
                .collect(),
        ),
    }
}

#[test]
fn score_exact_prefix_and_part() {
    assert_eq!(score_container_name("myapp", "myapp"), 100);
    assert_eq!(score_container_name("MyApp-IRIS", "myapp"), 90);
    assert_eq!(score_container_name("myapp_test", "myapp"), 85);
    assert_eq!(score_container_name("x-myapp", "myapp"), 60);
    assert_eq!(score_container_name("other", "myapp"), 0);
    assert_eq!(score_container_name("myapp", ""), 0);
    assert_eq!(score_container_name("my-app", "my_app"), 100);
}

#[test]
fn steps_follow_the_cascade() {
    assert_eq!(discovery_steps(true, true, &Some("c".to_string())), vec![DiscoveryStep::Explicit]);
    assert_eq!(
        discovery_steps(false, true, &Some("c".to_string())),
        vec![
            DiscoveryStep::NamedContainer,
            DiscoveryStep::EnvVars,
            DiscoveryStep::VsCodeSettings,
            DiscoveryStep::Docker,
            DiscoveryStep::LocalhostScan,
        ]
    );
    assert_eq!(
        discovery_steps(false, false, &Some(String::new())),
        vec![DiscoveryStep::VsCodeSettings, DiscoveryStep::Docker, DiscoveryStep::LocalhostScan]
    );
    assert_eq!(scan_ports(), vec![52773, 41773, 51773, 8080]);
}

#[test]
fn env_without_host_has_no_plan() {
    assert!(env_connection_plan(&env()).is_none());
}

#[test]
fn env_plain_host_is_probed_with_defaults() {
    let mut e = env();
    e.host = Some("iris.local".to_string());
    e.web_port = Some("not-a-port".to_string());
    match env_connection_plan(&e) {
        Some(EnvPlan::Probe { host, port, username, password, namespace }) => {
            assert_eq!(host, "iris.local");
            assert_eq!(port, 52773);
            assert_eq!(username, "_SYSTEM");
            assert_eq!(password, "SYS");
            assert_eq!(namespace, "USER");
        }
        _ => panic!("expected a probe plan"),
    }
}

#[test]
fn env_scheme_and_prefix_build_the_url() {
    let mut e = env();
    e.host = Some("gw".to_string());
    e.web_port = Some("443".to_string());
    e.scheme = Some("https/".to_string());
    e.web_prefix = Some("/irisaicore/".to_string());
    e.namespace = Some("APP".to_string());
    match env_connection_plan(&e) {
        Some(EnvPlan::Direct(c)) => {
            assert_eq!(c.base_url, "https://gw:443/irisaicore");
            assert_eq!(c.namespace, "APP");
            assert!(matches!(c.source, DiscoverySource::EnvVar));
        }
        _ => panic!("expected a direct plan"),
    }
    let mut e2 = env();
    e2.host = Some("h".to_string());
    e2.web_prefix = Some("//".to_string());
    assert!(matches!(env_connection_plan(&e2), Some(EnvPlan::Probe { .. })));
}

#[test]
fn probe_reply_must_name_iris() {
    let reply = Some(AtelierRoot { version: Some("IRIS for UNIX 2024.1".to_string()), api: Some(8) });
    let c = connection_from_probe("localhost", 52773, "_SYSTEM", "SYS", "USER", 200, &reply).unwrap();
    assert_eq!(c.base_url, "http://localhost:52773");
    assert_eq!(c.version.as_deref(), Some("IRIS for UNIX 2024.1"));
    assert_eq!(c.atelier_version, AtelierVersion::V8);
    assert!(matches!(c.source, DiscoverySource::LocalhostScan { port: 52773 }));
    let cache = Some(AtelierRoot { version: Some("Cache 2018".to_string()), api: Some(8) });
    assert!(connection_from_probe("localhost", 1, "u", "p", "USER", 200, &cache).is_none());
    assert!(connection_from_probe("localhost", 1, "u", "p", "USER", 401, &reply).is_none());
    assert!(connection_from_probe("localhost", 1, "u", "p", "USER", 200, &None).is_none());
}

#[test]
fn probe_updates_version_on_success_only() {
    let mut c = IrisConnection::new("http://h:1", "USER", "u", "p", DiscoverySource::EnvVar);
    c.apply_probe(500, &Some(AtelierRoot { version: Some("IRIS".to_string()), api: Some(8) }));
    assert!(c.version.is_none());
    c.apply_probe(200, &Some(AtelierRoot { version: Some("IRIS 2025".to_string()), api: Some(3) }));
    assert_eq!(c.version.as_deref(), Some("IRIS 2025"));
    assert_eq!(c.atelier_version, AtelierVersion::V2);
}

#[test]
fn docker_candidates_ranked_by_name_match() {
    let cs = vec![
        container("other-iris", "intersystems/iris-community", vec![(52773, Some(1001)), (1972, Some(2001))]),
        container("postgres", "postgres:16", vec![(52773, Some(1002))]),
        container("myapp-iris", "intersystemsdc/iris", vec![(52773, Some(1003))]),
        container("noweb", "iris", vec![(1972, Some(2004))]),
        container("myapp", "iris", vec![(52773, Some(1005))]),
    ];
    let ranked = rank_docker_candidates(&cs, "myapp");
    let got: Vec<(u32, String, u16)> = ranked.iter().map(|(s, t)| (*s, t.name.clone(), t.web_port)).collect();
    assert_eq!(
        got,
        vec![
            (100, "myapp".to_string(), 1005),
            (90, "myapp-iris".to_string(), 1003),
            (0, "other-iris".to_string(), 1001),
        ]
    );
    assert_eq!(ranked[2].1.superserver_port, Some(2001));
}

#[test]
fn named_container_targets_match_exactly() {
    let cs = vec![
        container("a", "x", vec![(52773, Some(1))]),
        container("b", "x", vec![(52773, Some(2))]),
        container("b", "x", vec![(1972, Some(3))]),
    ];
    let t = named_container_targets(&cs, "b");
    assert_eq!(t.len(), 1);
    assert_eq!(t[0].web_port, 2);
}

#[test]
fn docker_origin_marks_the_connection() {
    let c = IrisConnection::new("http://localhost:1", "USER", "u", "p", DiscoverySource::EnvVar);
    let t = DockerTarget { name: "box".to_string(), web_port: 1, superserver_port: Some(7) };
    let d = with_docker_origin(c, &t);
    assert_eq!(d.port_superserver, Some(7));
    assert!(matches!(d.source, DiscoverySource::Docker { ref container_name } if container_name == "box"));
}
