//! The Service of a sandbox, and resizing over it.

use msb_operator::controller::config::{ControllerConfig, SANDBOX_NAME_LABEL};
use msb_operator::controller::resize::{
    control_url, cpu_target_request, cpus_have_headroom, memory_has_headroom,
    memory_target_request, read_answer, ResizeError,
};
use msb_operator::controller::service::{build, reserved_port_conflict, service_name};
use msb_operator::k8s::ObjectMeta;
use msb_operator::sandbox::{PortProtocol, PublishedPort, Sandbox, SandboxSpec};

fn spec() -> SandboxSpec {
    SandboxSpec {
        image: "python:3.12".to_string(),
        desired_state: Default::default(),
        cpus: 2,
        memory: 1024,
        max_cpus: None,
        max_memory: None,
        cmd: vec!["python".to_string(), "script.py".to_string()],
        entrypoint: Vec::new(),
        env: Vec::new(),
        workdir: None,
        shell: None,
        user: None,
        hostname: None,
        ephemeral: true,
        lifecycle: Default::default(),
        max_duration_secs: None,
        idle_timeout_secs: None,
        run_policy: Default::default(),
        secrets: Vec::new(),
        network: Default::default(),
        upper: Default::default(),
        security_profile: Default::default(),
        rlimits: Vec::new(),
        logging: Default::default(),
    }
}

fn sandbox() -> Sandbox {
    Sandbox {
        metadata: ObjectMeta {
            name: Some("my-sandbox".to_string()),
            namespace: Some("team-a".to_string()),
            uid: Some("d1e2f3a4-0000-0000-0000-000000000000".to_string()),
            ..Default::default()
        },
        spec: spec(),
        status: None,
    }
}

fn config() -> ControllerConfig {
    ControllerConfig::new(
        "/msb".to_string(),
        "ghcr.io/msb/runtime:dev".to_string(),
        "ghcr.io/msb/bridge:dev".to_string(),
        7000,
    )
    .expect("valid test config")
    .with_kvm_gid(104)
}

fn sandbox_with_ports(ports: &[u16]) -> Sandbox {
    let mut sb = sandbox();
    sb.spec.network.published_ports = ports
        .iter()
        .map(|p| PublishedPort {
            guest_port: *p,
            host_port: None,
            protocol: PortProtocol::Tcp,
            host_bind: "0.0.0.0".to_string(),
        })
        .collect();
    sb
}

#[test]
fn service_name_is_rfc1035_safe() {
    let long = "z".repeat(80);
    for raw in ["1-x", "My_Sandbox!", long.as_str()] {
        let n = service_name(raw);
        assert!(n.starts_with("msb-"));
        assert!(n.len() <= 63);
        assert!(n.chars().next().unwrap().is_ascii_alphabetic());
        assert!(n.chars().all(|c| c.is_ascii_alphanumeric() || c == '-'));
        assert!(!n.chars().any(|c| c.is_ascii_uppercase()));
    }
    assert!(service_name("My_Sandbox!").starts_with("msb-my-sandbox-"));
    // Names that read alike still differ.
    assert_ne!(service_name("My_Sandbox!"), service_name("my-sandbox"));
}

#[test]
fn service_name_carries_the_readable_sandbox_name() {
    assert!(service_name("e2e-ports").starts_with("msb-e2e-ports-"));
}

#[test]
fn reserved_port_conflict_catches_bridge_ports_only() {
    let cfg = config();
    assert_eq!(reserved_port_conflict(&sandbox_with_ports(&[8080]), &cfg), Some(8080));
    assert_eq!(reserved_port_conflict(&sandbox_with_ports(&[7000]), &cfg), Some(7000));
    assert_eq!(reserved_port_conflict(&sandbox_with_ports(&[9090]), &cfg), None);
    assert_eq!(reserved_port_conflict(&sandbox_with_ports(&[]), &cfg), None);
}

#[test]
fn the_first_conflict_is_reported() {
    let cfg = config().with_bridge_control_port(9999);
    assert_eq!(reserved_port_conflict(&sandbox_with_ports(&[8080, 9999, 7000]), &cfg), Some(9999));
}

#[test]
fn service_name_is_deterministic_and_distinct() {
    assert_eq!(service_name("a"), service_name("a"));
    assert_ne!(service_name("a"), service_name("b"));
    assert_ne!(service_name("a.b"), service_name("a-b"));
}

#[test]
fn service_targets_the_bridge_port_and_selects_the_pod() {
    let svc = build(&sandbox(), &config(), "my-sandbox", "team-a");
    assert_eq!(svc.spec.type_.as_deref(), Some("ClusterIP"));
    assert_eq!(svc.spec.selector.get(SANDBOX_NAME_LABEL), Some(&"my-sandbox".to_string()));
    assert_eq!(svc.metadata.labels.get(SANDBOX_NAME_LABEL), Some(&"my-sandbox".to_string()));
    assert_eq!(svc.spec.ports[0].port, 7000);
    let owners = &svc.metadata.owner_references;
    assert_eq!(owners[0].kind, "Sandbox");
    assert_eq!(owners[0].controller, Some(true));
}

#[test]
fn published_ports_are_added_alongside_the_bridge_port() {
    let svc = build(&sandbox_with_ports(&[8000]), &config(), "my-sandbox", "team-a");
    let ports = &svc.spec.ports;
    assert_eq!(ports.len(), 3, "bridge + control + one published");
    assert_eq!(ports[0].name.as_deref(), Some("agent"));
    assert_eq!(ports[1].name.as_deref(), Some("control"));
    assert_eq!(ports[2].name.as_deref(), Some("port-8000"));
    assert_eq!(ports[2].port, 8000);
    assert_eq!(ports[2].target_port, Some(8000));
}

#[test]
fn service_exposes_the_bridge_control_port() {
    let svc = build(&sandbox(), &config(), "my-sandbox", "team-a");
    let control = svc.spec.ports.iter().find(|p| p.name.as_deref() == Some("control")).unwrap();
    assert_eq!(control.port, 8080);
    assert_eq!(control.target_port, Some(8080));
}

fn spec_of(cpus: u32, memory: u32, max_cpus: Option<u32>, max_memory: Option<u32>) -> SandboxSpec {
    let mut s = spec();
    s.cpus = cpus;
    s.memory = memory;
    s.max_cpus = max_cpus;
    s.max_memory = max_memory;
    s
}

#[test]
fn headroom_present_when_max_is_set() {
    let s = spec_of(2, 1024, Some(4), Some(2048));
    assert!(cpus_have_headroom(&s));
    assert!(memory_has_headroom(&s));
}

#[test]
fn no_headroom_when_max_is_unset() {
    let s = spec_of(1, 512, None, None);
    assert!(!cpus_have_headroom(&s));
    assert!(!memory_has_headroom(&s));
}

#[test]
fn headroom_is_per_dimension() {
    let s = spec_of(1, 512, Some(4), None);
    assert!(cpus_have_headroom(&s));
    assert!(!memory_has_headroom(&s));
}

#[test]
fn control_url_targets_the_service_dns_and_control_port() {
    assert_eq!(
        control_url("msb-abc123", "team-a", 8080),
        "http://msb-abc123.team-a.svc:8080/control"
    );
}

fn json(text: &str) -> serde_json::Value {
    serde_json::from_str(text).unwrap()
}

#[test]
fn cpu_target_request_shape() {
    assert_eq!(json(&cpu_target_request(2)), json(r#"{"op": "cpu_target", "online": 2}"#));
}

#[test]
fn memory_target_request_shape() {
    assert_eq!(
        json(&memory_target_request(1024)),
        json(r#"{"op": "memory_target", "total_mib": 1024}"#)
    );
}

fn answer(success: bool, body: &str) -> Result<(), ResizeError> {
    read_answer("http://x/control", success, "502 Bad Gateway".to_string(), body.to_string())
}

#[test]
fn the_control_endpoint_is_believed_only_where_it_says_ok() {
    assert_eq!(answer(true, r#"{"ok":true}"#), Ok(()));
    assert!(matches!(answer(true, r#"{"ok":false,"error":"busy"}"#),
        Err(ResizeError::ControlRejected(e)) if e.contains("busy")));
    assert!(answer(true, r#"{"ok":"yes"}"#).is_err());
    assert!(answer(true, "[]").is_err());
    assert!(matches!(answer(true, "not json"), Err(ResizeError::InvalidReply(_))));
    let e = answer(false, "down").unwrap_err();
    assert!(matches!(&e, ResizeError::BridgeStatus { body, .. } if body == "down"));
    assert!(e.message().contains("502"));
}
