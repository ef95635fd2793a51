//! The sandbox resource, the cache markers, the manifests.

use msb_operator::cache::{failed_marker, marker_key, ready_marker};
use msb_operator::manifests::{
    controller_policy_rules, seal, SpecSchema, CONDITIONS_KEY, CONDITIONS_LIST_TYPE,
};
use msb_operator::sandbox::{
    default_cpus, default_memory_mib, NetworkSpec, PortProtocol, PublishedPort, ResolvedSecret,
    RunPolicy, SandboxSpec, SecurityProfile, TerminationReason, UpperSpec,
};

#[test]
fn clean_termination_reasons() {
    assert!(TerminationReason::Completed.is_clean());
    assert!(TerminationReason::MaxDurationExceeded.is_clean());
    assert!(TerminationReason::IdleTimeout.is_clean());
    assert!(TerminationReason::ShutdownRequested.is_clean());
}

#[test]
fn unclean_termination_reasons() {
    assert!(!TerminationReason::Failed.is_clean());
    assert!(!TerminationReason::OomKilled.is_clean());
    assert!(!TerminationReason::Evicted.is_clean());
    assert!(!TerminationReason::NodeLost.is_clean());
}

fn default_spec() -> SandboxSpec {
    SandboxSpec {
        image: "python:3.12".to_string(),
        cpus: default_cpus(),
        memory: default_memory_mib(),
        max_cpus: None,
        max_memory: None,
        cmd: vec![],
        entrypoint: vec![],
        env: vec![],
        workdir: None,
        shell: None,
        user: None,
        hostname: None,
        ephemeral: false,
        lifecycle: Default::default(),
        max_duration_secs: None,
        idle_timeout_secs: None,
        run_policy: RunPolicy::Once,
        secrets: vec![],
        network: NetworkSpec::default(),
        upper: UpperSpec::default(),
        security_profile: SecurityProfile::default(),
        rlimits: vec![],
        logging: Default::default(),
        desired_state: Default::default(),
    }
}

#[test]
fn default_spec_values() {
    let spec = default_spec();
    assert_eq!(spec.cpus, 1);
    assert_eq!(spec.memory, 512);
    assert_eq!(spec.network.max_connections, 256);
    assert!(spec.network.enabled);
    assert_eq!(spec.upper.size.0, "4Gi");
}

#[test]
fn effective_max_defaults_to_the_effective_value() {
    let mut spec = default_spec();
    spec.cpus = 2;
    spec.memory = 1024;
    assert_eq!(spec.effective_max_cpus(), 2);
    assert_eq!(spec.effective_max_memory(), 1024);
}

#[test]
fn effective_max_uses_the_set_ceiling() {
    let mut spec = default_spec();
    spec.cpus = 1;
    spec.max_cpus = Some(4);
    spec.memory = 512;
    spec.max_memory = Some(2048);
    assert_eq!(spec.effective_max_cpus(), 4);
    assert_eq!(spec.effective_max_memory(), 2048);
}

#[test]
fn a_set_ceiling_counts_even_below_the_value() {
    let mut spec = default_spec();
    spec.cpus = 2;
    spec.max_cpus = Some(1);
    spec.memory = 1024;
    spec.max_memory = Some(512);
    assert_eq!(spec.effective_max_cpus(), 1);
    assert_eq!(spec.effective_max_memory(), 512);
}

#[test]
fn a_host_port_defaults_to_the_guest_port() {
    let mut p = PublishedPort {
        guest_port: 80,
        host_port: None,
        protocol: PortProtocol::Udp,
        host_bind: String::new(),
    };
    assert_eq!(p.host_port(), 80);
    p.host_port = Some(8000);
    assert_eq!(p.host_port(), 8000);
}

#[test]
fn a_resolved_secret_is_shown_without_its_value() {
    let s = ResolvedSecret {
        env: "API_KEY".to_string(),
        value: "hunter2".to_string(),
        placeholder: "msb_secret_API_KEY".to_string(),
        allowed_hosts: vec!["a.com".to_string(), "*.b.com".to_string()],
    };
    assert_eq!(
        s.redacted(),
        "ResolvedSecret { env: \"API_KEY\", value: \"<redacted>\", \
         placeholder: \"msb_secret_API_KEY\", allowed_hosts: [\"a.com\", \"*.b.com\"] }"
    );
}

#[test]
fn key_is_stable_hex_sha256() {
    let k = marker_key("python:3.12");
    assert_eq!(k.len(), 64);
    assert!(k.chars().all(|c| c.is_ascii_hexdigit()));
    assert_eq!(k, marker_key("python:3.12"));
    assert_ne!(k, marker_key("python:3.13"));
}

#[test]
fn the_key_is_the_digest_of_the_reference() {
    assert_eq!(
        marker_key("abc"),
        "ba7816bf8f01cfea414140de5dae2223b00361a396177a9cb410ff61f20015ad"
    );
}

#[test]
fn markers_sit_under_the_ready_dir() {
    let ready = ready_marker("/msb/cache", "alpine:3.20");
    let failed = failed_marker("/msb/cache", "alpine:3.20");
    assert!(ready.starts_with("/msb/cache/ready/"));
    assert_eq!(
        failed.rsplit('/').next().unwrap(),
        format!("{}.failed", marker_key("alpine:3.20"))
    );
}

#[test]
fn the_controller_may_not_read_secrets() {
    let rules = controller_policy_rules();
    assert_eq!(rules.len(), 6);
    assert!(rules.iter().all(|r| r.resources.iter().all(|x| x != "secrets" && x != "*")));
    assert_eq!(rules[0].api_groups, vec!["sandbox.microsandbox.dev"]);
    assert_eq!(rules[0].resources, vec!["sandboxes"]);
    assert_eq!(rules[0].verbs, vec!["get", "list", "watch", "delete"]);
    assert_eq!(rules[1].verbs, vec!["patch"]);
    assert_eq!(rules[2].api_groups, vec![""]);
    assert_eq!(rules[3].verbs, vec!["get", "create", "patch", "delete"]);
    assert_eq!(rules[4].api_groups, vec!["coordination.k8s.io"]);
    assert_eq!(rules[5].verbs, vec!["create", "patch"]);
}

#[test]
fn all_fields_are_sealed_but_the_mutable_ones() {
    let fields = ["image", "cpus", "memory", "desiredState", "lifecycle", "network"];
    let shape = SpecSchema::Fields(fields.iter().map(|f| f.to_string()).collect());
    let s = seal("v1alpha1", &shape);
    let sealed: Vec<_> = s.field_rules.iter().map(|r| r.field.as_str()).collect();
    assert_eq!(sealed, vec!["image", "network"]);
    assert_eq!(s.field_rules[0].rule.rule, "self == oldSelf");
    assert_eq!(s.field_rules[0].rule.message, "spec.image is immutable after creation");
    assert_eq!(s.spec_rules.len(), 2);
    assert_eq!(s.spec_rules[0].message, "spec.cpus must not exceed spec.maxCpus");
    assert!(s.merge_conditions);
    assert_eq!((CONDITIONS_LIST_TYPE, CONDITIONS_KEY), ("map", "type"));
}

#[test]
fn another_version_and_a_schema_without_fields_are_left_alone() {
    let fields = SpecSchema::Fields(vec!["image".to_string()]);
    let other = seal("v1", &fields);
    assert!(other.spec_rules.is_empty() && other.field_rules.is_empty() && !other.merge_conditions);
    let absent = seal("v1alpha1", &SpecSchema::Absent);
    assert!(absent.spec_rules.is_empty() && !absent.merge_conditions);
    let opaque = seal("v1alpha1", &SpecSchema::Opaque);
    assert_eq!(opaque.spec_rules.len(), 2);
    assert!(opaque.field_rules.is_empty() && !opaque.merge_conditions);
}
