//! The pod of a sandbox.

use msb_operator::controller::config::{
    memory_overhead_mib, ControllerConfig, KVM_RESOURCE, SANDBOX_LABEL, SANDBOX_NAME_LABEL,
};
use msb_operator::controller::pod::{
    build, msb_sandbox_name, pod_name, port_name, referenced_keys, referenced_secret_names,
    secret_vol_name, PodBuildError, VOL_HOME,
};
use msb_operator::daemon::watch::{label_selector, pod_image};
use msb_operator::k8s::{Container, ObjectMeta, Pod, SecretVolumeSource, Volume, VolumeSource};
use msb_operator::sandbox::{
    PortProtocol, PublishedPort, Sandbox, SandboxSpec, SecretEntry, SecretKeyRef, SecretValueFrom,
};

fn spec() -> SandboxSpec {
    SandboxSpec {
        image: "python:3.12".to_string(),
        desired_state: Default::default(),
        cpus: 2,
        memory: 1024,
        max_cpus: None,
        max_memory: None,
        cmd: vec!["python".to_string(), "script.py".to_string()],
        entrypoint: Vec::new(),
        env: Vec::new(),
        workdir: None,
        shell: None,
        user: None,
        hostname: None,
        ephemeral: true,
        lifecycle: Default::default(),
        max_duration_secs: None,
        idle_timeout_secs: None,
        run_policy: Default::default(),
        secrets: Vec::new(),
        network: Default::default(),
        upper: Default::default(),
        security_profile: Default::default(),
        rlimits: Vec::new(),
        logging: Default::default(),
    }
}

fn sandbox() -> Sandbox {
    Sandbox {
        metadata: ObjectMeta {
            name: Some("my-sandbox".to_string()),
            namespace: Some("team-a".to_string()),
            uid: Some("d1e2f3a4-0000-0000-0000-000000000000".to_string()),
            ..Default::default()
        },
        spec: spec(),
        status: None,
    }
}

fn config() -> ControllerConfig {
    ControllerConfig::new(
        "/msb".to_string(),
        "ghcr.io/msb/runtime:dev".to_string(),
        "ghcr.io/msb/bridge:dev".to_string(),
        7000,
    )
    .expect("valid test config")
    .with_kvm_gid(104)
}

fn sandbox_with_ports(ports: &[u16]) -> Sandbox {
    let mut sb = sandbox();
    sb.spec.network.published_ports = ports
        .iter()
        .map(|p| PublishedPort {
            guest_port: *p,
            host_port: None,
            protocol: PortProtocol::Tcp,
            host_bind: "0.0.0.0".to_string(),
        })
        .collect();
    sb
}

/// A sandbox with two secrets: two keys from `creds`, one from `db`.
fn sandbox_with_secrets() -> Sandbox {
    let entry = |env: &str, name: &str, key: &str| SecretEntry {
        env: env.to_string(),
        value_from: SecretValueFrom {
            secret_key_ref: SecretKeyRef { name: name.to_string(), key: key.to_string() },
        },
        allowed_hosts: vec!["api.example.com".to_string()],
    };
    let mut sb = sandbox();
    sb.spec.secrets = vec![
        entry("API_KEY", "creds", "api"),
        entry("ORG_ID", "creds", "org"),
        entry("DB_PASS", "db", "password"),
    ];
    sb
}

const SPEC_JSON: &str = r#"{"image":"python:3.12","cpus":2}"#;

fn built(sb: &Sandbox) -> Pod {
    build(sb, &config(), Ok(SPEC_JSON.to_string())).unwrap()
}

fn container<'a>(pod: &'a Pod, name: &str) -> &'a Container {
    pod.spec.as_ref().unwrap().containers.iter().find(|c| c.name == name).expect("container")
}

fn all_containers(pod: &Pod) -> Vec<&Container> {
    let spec = pod.spec.as_ref().unwrap();
    spec.containers.iter().chain(spec.init_containers.iter()).collect()
}

fn container_or_init<'a>(pod: &'a Pod, name: &str) -> &'a Container {
    all_containers(pod).into_iter().find(|c| c.name == name).expect("container")
}

fn env_of(c: &Container, key: &str) -> Option<String> {
    c.env.iter().find(|e| e.name == key).and_then(|e| e.value.clone())
}

fn limit(pod: &Pod, key: &str) -> Option<String> {
    container(pod, "msb-runtime").resources.as_ref().unwrap().limits.get(key).cloned()
}

fn request(pod: &Pod, key: &str) -> Option<String> {
    container(pod, "msb-runtime").resources.as_ref().unwrap().requests.get(key).cloned()
}

fn secret_source(v: &Volume) -> Option<&SecretVolumeSource> {
    match &v.source {
        VolumeSource::Secret(s) => Some(s),
        _ => None,
    }
}

#[test]
fn names_the_pod_after_the_sandbox() {
    let pod = built(&sandbox());
    assert_eq!(pod.metadata.name.as_deref(), Some("sandbox-my-sandbox"));
    assert_eq!(pod.metadata.namespace.as_deref(), Some("team-a"));
}

#[test]
fn sets_controller_owner_ref_to_the_sandbox() {
    let pod = built(&sandbox());
    let owners = &pod.metadata.owner_references;
    assert_eq!(owners.len(), 1);
    assert_eq!(owners[0].kind, "Sandbox");
    assert_eq!(owners[0].name, "my-sandbox");
    assert_eq!(owners[0].controller, Some(true));
    assert_eq!(owners[0].uid, "d1e2f3a4-0000-0000-0000-000000000000");
}

#[test]
fn fails_without_uid_rather_than_emitting_an_unowned_pod() {
    let mut sb = sandbox();
    sb.metadata.uid = None;
    assert!(matches!(
        build(&sb, &config(), Ok(SPEC_JSON.to_string())),
        Err(PodBuildError::MissingObjectKey { key: "uid", .. })
    ));
}

#[test]
fn labels_the_pod_for_the_daemon_selector() {
    let pod = built(&sandbox());
    assert_eq!(pod.metadata.labels.get(SANDBOX_LABEL).map(String::as_str), Some("true"));
    assert_eq!(pod.metadata.labels.get(SANDBOX_NAME_LABEL).map(String::as_str), Some("my-sandbox"));
}

#[test]
fn never_restarts_containers_itself() {
    let pod = built(&sandbox());
    assert_eq!(pod.spec.as_ref().unwrap().restart_policy.as_deref(), Some("Never"));
}

#[test]
fn requests_exactly_one_kvm_device_on_the_runtime() {
    let pod = built(&sandbox());
    assert_eq!(limit(&pod, KVM_RESOURCE), Some("1".to_string()));
}

#[test]
fn only_the_runtime_requests_kvm() {
    let pod = built(&sandbox());
    for c in all_containers(&pod).into_iter().filter(|c| c.name != "msb-runtime") {
        let has_kvm = c.resources.as_ref().is_some_and(|r| r.limits.get(KVM_RESOURCE).is_some());
        assert!(!has_kvm, "{} should not request KVM", c.name);
    }
}

#[test]
fn runtime_memory_request_equals_limit_at_guest_plus_overhead() {
    // 2 vCPU, 1024Mi guest. overhead = 96 + 1024/512 + 8*2 = 114.
    let pod = built(&sandbox());
    assert_eq!(request(&pod, "memory"), Some("1138Mi".to_string()));
    assert_eq!(limit(&pod, "memory"), Some("1138Mi".to_string()));
    assert_eq!(memory_overhead_mib(1024, 2), 114);
}

#[test]
fn runtime_cpu_requests_a_fraction_and_limits_to_vcpus() {
    let pod = built(&sandbox());
    assert_eq!(request(&pod, "cpu"), Some("200m".to_string()));
    assert_eq!(limit(&pod, "cpu"), Some("2".to_string()));
}

#[test]
fn runtime_requests_ephemeral_storage() {
    let pod = built(&sandbox());
    assert_eq!(request(&pod, "ephemeral-storage"), Some("50Mi".to_string()));
}

#[test]
fn pod_sets_runtime_default_seccomp() {
    let pod = built(&sandbox());
    let sc = pod.spec.as_ref().unwrap().security_context.as_ref().unwrap();
    assert_eq!(sc.seccomp_profile.as_deref(), Some("RuntimeDefault"));
}

#[test]
fn bridge_uses_a_read_only_root_filesystem() {
    let pod = built(&sandbox());
    let c = container_or_init(&pod, "msb-bridge");
    assert_eq!(c.security_context.as_ref().unwrap().read_only_root_filesystem, Some(true));
}

#[test]
fn runs_non_root_in_the_kvm_group() {
    let pod = built(&sandbox());
    let sc = pod.spec.as_ref().unwrap().security_context.as_ref().unwrap();
    assert_eq!(sc.run_as_non_root, Some(true));
    assert_eq!(sc.run_as_user, Some(1000));
    assert_eq!(sc.supplemental_groups, vec![104]);
}

#[test]
fn runtime_drops_all_caps_and_adds_none() {
    let pod = built(&sandbox());
    let sc = container(&pod, "msb-runtime").security_context.as_ref().unwrap();
    let caps = sc.capabilities.as_ref().unwrap();
    assert_eq!(caps.drop, vec!["ALL".to_string()]);
    assert!(caps.add.is_empty());
}

#[test]
fn no_container_allows_privilege_escalation() {
    let pod = built(&sandbox());
    for c in all_containers(&pod) {
        assert_eq!(
            c.security_context.as_ref().unwrap().allow_privilege_escalation,
            Some(false),
            "{} allows privilege escalation",
            c.name
        );
    }
}

#[test]
fn no_container_adds_any_capability() {
    let pod = built(&sandbox());
    for c in all_containers(&pod) {
        let caps = c.security_context.as_ref().unwrap().capabilities.as_ref().unwrap();
        assert!(caps.add.is_empty(), "{} should add no capabilities", c.name);
    }
}

#[test]
fn sets_msb_home_env_on_the_runtime() {
    let pod = built(&sandbox());
    assert_eq!(env_of(container(&pod, "msb-runtime"), "MSB_HOME"), Some("/msb".to_string()));
}

#[test]
fn passes_the_spec_and_flat_name_to_the_runtime() {
    let pod = built(&sandbox());
    let rt = container(&pod, "msb-runtime");

    let encoded = env_of(rt, "MSB_SANDBOX_SPEC").expect("spec env var");
    let decoded: serde_json::Value = serde_json::from_str(&encoded).expect("round-trips as JSON");
    assert_eq!(decoded["image"], "python:3.12");
    assert_eq!(decoded["cpus"], 2);

    assert_eq!(env_of(rt, "MSB_SANDBOX_NAME"), Some("team-a__my-sandbox".to_string()));
}

#[test]
fn stamps_rust_log_on_the_runtime() {
    let cfg = config().with_runtime_log("debug".to_string());
    let pod = build(&sandbox(), &cfg, Ok(SPEC_JSON.to_string())).unwrap();
    assert_eq!(env_of(container(&pod, "msb-runtime"), "RUST_LOG"), Some("debug".to_string()));
}

#[test]
fn passes_the_spec_to_the_runtime() {
    let pod = built(&sandbox());
    let encoded = env_of(container(&pod, "msb-runtime"), "MSB_SANDBOX_SPEC").expect("spec env var");
    let decoded: serde_json::Value = serde_json::from_str(&encoded).expect("round-trips as JSON");
    assert_eq!(decoded["image"], "python:3.12");
    assert_eq!(decoded["cpus"], 2);
}

#[test]
fn pod_uses_the_default_service_account() {
    let pod = built(&sandbox());
    assert_eq!(pod.spec.as_ref().unwrap().service_account_name, None);
}

#[test]
fn mounts_one_volume_per_referenced_secret() {
    let pod = built(&sandbox_with_secrets());
    let vols = &pod.spec.as_ref().unwrap().volumes;
    let secret_vols: Vec<_> = vols.iter().filter(|v| secret_source(v).is_some()).collect();
    assert_eq!(secret_vols.len(), 2);

    let creds = secret_vols.iter().find(|v| v.name == "secret-creds").expect("creds volume");
    let src = secret_source(creds).unwrap();
    assert_eq!(src.secret_name, "creds");
    let mut paths: Vec<_> = src.items.iter().map(|i| (i.key.as_str(), i.path.as_str())).collect();
    paths.sort();
    assert_eq!(paths, vec![("api", "api"), ("org", "org")]);
    assert_eq!(src.default_mode, Some(0o444));
}

#[test]
fn runtime_mounts_each_secret_read_only_under_msb_secrets() {
    let pod = built(&sandbox_with_secrets());
    let mounts = &container(&pod, "msb-runtime").volume_mounts;
    for (name, path) in
        [("secret-creds", "/msb-secrets/creds"), ("secret-db", "/msb-secrets/db")]
    {
        let m = mounts.iter().find(|m| m.name == name).expect(name);
        assert_eq!(m.mount_path, path);
        assert_eq!(m.read_only, Some(true));
    }
}

#[test]
fn no_secret_volumes_when_no_secrets() {
    let pod = built(&sandbox());
    let vols = &pod.spec.as_ref().unwrap().volumes;
    assert!(vols.iter().all(|v| secret_source(v).is_none()));
}

#[test]
fn runtime_gets_no_rootfs_vmdk_env() {
    let pod = built(&sandbox());
    assert_eq!(env_of(container(&pod, "msb-runtime"), "MSB_ROOTFS_VMDK"), None);
}

#[test]
fn declares_only_the_home_volume() {
    let pod = built(&sandbox());
    let names: Vec<_> =
        pod.spec.as_ref().unwrap().volumes.iter().map(|v| v.name.as_str()).collect();
    assert_eq!(names, vec![VOL_HOME]);
}

#[test]
fn home_is_a_per_pod_emptydir() {
    let pod = built(&sandbox());
    let vols = &pod.spec.as_ref().unwrap().volumes;
    let home = vols.iter().find(|v| v.name == VOL_HOME).unwrap();
    assert!(matches!(home.source, VolumeSource::EmptyDir));
}

#[test]
fn runtime_declares_no_cache_mount() {
    let pod = built(&sandbox());
    let mounts = &container(&pod, "msb-runtime").volume_mounts;
    assert!(mounts.iter().all(|m| m.mount_path != "/msb/cache"));
}

#[test]
fn bridge_exposes_the_configured_port() {
    let pod = built(&sandbox());
    let ports = &container_or_init(&pod, "msb-bridge").ports;
    assert_eq!(ports.len(), 1);
    assert_eq!(ports[0].container_port, 7000);
    assert_eq!(ports[0].name.as_deref(), Some("agent"));
}

#[test]
fn bridge_gets_the_sandbox_name_to_find_the_socket() {
    let pod = built(&sandbox());
    let bridge = container_or_init(&pod, "msb-bridge");
    assert_eq!(env_of(bridge, "MSB_SANDBOX_NAME").as_deref(), Some("team-a__my-sandbox"));
    assert_eq!(env_of(bridge, "MSB_HOME").as_deref(), Some("/msb"));
}

#[test]
fn bridge_gets_the_home_read_only() {
    let pod = built(&sandbox());
    let mounts = &container_or_init(&pod, "msb-bridge").volume_mounts;
    assert_eq!(mounts.len(), 1);
    assert_eq!(mounts[0].name, VOL_HOME);
    assert_eq!(mounts[0].read_only, Some(true));
}

#[test]
fn runtime_gets_the_home_writable() {
    let pod = built(&sandbox());
    let mounts = &container(&pod, "msb-runtime").volume_mounts;
    let home = mounts.iter().find(|m| m.name == VOL_HOME).unwrap();
    assert_ne!(home.read_only, Some(true), "runtime must write to MSB_HOME");
}

#[test]
fn bridge_is_a_native_sidecar() {
    let pod = built(&sandbox());
    let spec = pod.spec.as_ref().unwrap();
    assert_eq!(spec.init_containers.len(), 1, "only the bridge sidecar");
    assert_eq!(spec.init_containers[0].name, "msb-bridge");
    assert_eq!(spec.init_containers[0].restart_policy.as_deref(), Some("Always"));
    let names: Vec<_> = spec.containers.iter().map(|c| c.name.as_str()).collect();
    assert_eq!(names, vec!["msb-runtime"]);
}

#[test]
fn a_captured_console_has_a_sidecar_of_its_own() {
    let mut sb = sandbox();
    sb.spec.logging.guest_console = true;
    let pod = built(&sb);
    let spec = pod.spec.as_ref().unwrap();
    let names: Vec<_> = spec.init_containers.iter().map(|c| c.name.as_str()).collect();
    assert_eq!(names, vec!["msb-bridge", "msb-console-log"]);
    let console = &spec.init_containers[1];
    assert_eq!(console.image.as_deref(), Some("ghcr.io/msb/runtime:dev"));
    assert_eq!(console.args, vec!["console-log"]);
    assert_eq!(env_of(console, "MSB_SANDBOX_NAME").as_deref(), Some("team-a__my-sandbox"));
    assert_eq!(console.restart_policy.as_deref(), Some("Always"));
    assert_eq!(console.volume_mounts[0].read_only, Some(true));
    assert_eq!(spec.containers.len(), 1);
}

#[test]
fn a_pod_needs_a_name_and_a_namespace_too() {
    let mut sb = sandbox();
    sb.metadata.namespace = None;
    let e = build(&sb, &config(), Ok(SPEC_JSON.to_string())).unwrap_err();
    assert!(matches!(e, PodBuildError::MissingObjectKey { key: "namespace", .. }));
    let mut sb = sandbox();
    sb.metadata.name = None;
    assert!(matches!(
        build(&sb, &config(), Ok(SPEC_JSON.to_string())),
        Err(PodBuildError::MissingObjectKey { .. })
    ));
}

#[test]
fn a_specification_that_cannot_be_written_is_an_error() {
    let e = build(&sandbox(), &config(), Err("too deep".to_string())).unwrap_err();
    assert!(matches!(&e, PodBuildError::SpecEncode { source, .. } if source == "too deep"));
    assert!(e.message().contains("my-sandbox"));
}

#[test]
fn resources_follow_the_guest_and_not_its_ceilings() {
    let mut sb = sandbox();
    sb.spec.cpus = 4;
    sb.spec.memory = 2048;
    sb.spec.max_cpus = Some(8);
    sb.spec.max_memory = Some(8192);
    let pod = built(&sb);
    // overhead = 96 + 2048/512 + 8*4 = 132.
    assert_eq!(limit(&pod, "memory"), Some("2180Mi".to_string()));
    assert_eq!(limit(&pod, "cpu"), Some("4".to_string()));
    assert_eq!(request(&pod, "cpu"), Some("400m".to_string()));
}

#[test]
fn names_are_derived_from_the_sandbox() {
    assert_eq!(pod_name("a"), "sandbox-a");
    assert_eq!(port_name(8000), "port-8000");
    assert_eq!(msb_sandbox_name("team-a", "hello"), "team-a__hello");
}

#[test]
fn a_secret_volume_is_named_by_a_label() {
    let is_label = |s: &str| {
        let end = |c: char| c.is_ascii_lowercase() || c.is_ascii_digit();
        (1..=63).contains(&s.len())
            && s.chars().all(|c| end(c) || c == '-')
            && s.starts_with(end)
            && s.ends_with(end)
    };
    let long = "a".repeat(253);
    let edge = "b".repeat(56);
    let past = "b".repeat(57);
    for name in ["creds", "db.creds", "x-1", &long, &edge, &past, "Odd_Name!", "..."] {
        let vol = secret_vol_name(name);
        assert!(is_label(&vol), "{name}: {vol}");
        assert!(vol.starts_with("secret-"));
    }
    assert_eq!(secret_vol_name("creds"), "secret-creds");
    assert_eq!(secret_vol_name(&edge), format!("secret-{edge}"));
    assert_eq!(secret_vol_name("my.secret"), "secret-my-secret");
    assert_eq!(secret_vol_name("-.a_b.-"), "secret-a-b");
    assert!(secret_vol_name("A.b").starts_with("secret--a-b-"));
    assert_ne!(secret_vol_name("a-b"), secret_vol_name("ab"));
    assert_ne!(secret_vol_name("a-b"), secret_vol_name("A-b"));
    assert_ne!(secret_vol_name(&past), secret_vol_name(&"b".repeat(58)));
}

#[test]
fn secrets_are_referenced_once_and_in_order() {
    let sb = sandbox_with_secrets();
    assert_eq!(referenced_secret_names(&sb.spec), vec!["creds", "db"]);
    assert_eq!(referenced_keys(&sb.spec, "creds"), vec!["api", "org"]);
    assert_eq!(referenced_keys(&sb.spec, "none"), Vec::<String>::new());
}

#[test]
fn published_ports_leave_the_runtime_container_alone_in_its_privileges() {
    let pod = built(&sandbox_with_ports(&[8000, 9000]));
    for c in all_containers(&pod) {
        assert_eq!(c.security_context.as_ref().unwrap().allow_privilege_escalation, Some(false));
    }
}

#[test]
fn the_daemon_finds_the_image_of_a_built_pod() {
    let json = r#"{"cpus":2,"image":"python:3.12"}"#;
    let pod = build(&sandbox(), &config(), Ok(json.to_string())).unwrap();
    assert_eq!(pod_image(&pod).as_deref(), Some("python:3.12"));
    let label = pod.metadata.labels.get(SANDBOX_LABEL).unwrap();
    assert_eq!(label_selector(), format!("{SANDBOX_LABEL}={label}"));
}
