//! Launch configurations and secrets.

use msb_operator::bridge::socket::socket_path;
use msb_operator::json::Json;
use msb_operator::launch::config::{agent_socket_hash, build, LaunchConfig};
use msb_operator::launch::network::{HostPattern, SecretEntry};
use msb_operator::launch::secrets::{
    placeholder_for, required_keys, resolve, secret_path, secret_value, to_resolved, Plaintext,
    SecretError,
};
use msb_operator::launch::wire::to_json;
use msb_operator::sandbox::{
    self, PolicyPreset, PortProtocol, PublishedPort, SandboxSpec, SecretKeyRef, SecretValueFrom,
};
use serde_json::Value;

fn spec() -> SandboxSpec {
    SandboxSpec {
        image: "registry.example.com/py:latest".to_string(),
        desired_state: Default::default(),
        cpus: 2,
        memory: 1024,
        max_cpus: None,
        max_memory: None,
        cmd: vec!["python".to_string(), "app.py".to_string()],
        entrypoint: Vec::new(),
        env: Vec::new(),
        workdir: None,
        shell: None,
        user: None,
        hostname: None,
        ephemeral: true,
        lifecycle: Default::default(),
        max_duration_secs: None,
        idle_timeout_secs: None,
        run_policy: Default::default(),
        secrets: Vec::new(),
        network: Default::default(),
        upper: Default::default(),
        security_profile: Default::default(),
        rlimits: Vec::new(),
        logging: Default::default(),
    }
}

fn value(j: Json) -> Value {
    match j {
        Json::Null => Value::Null,
        Json::Bool(b) => Value::Bool(b),
        Json::Number(n) => Value::from(n),
        Json::Text(s) => Value::String(s),
        Json::Array(a) => Value::Array(a.into_iter().map(value).collect()),
        Json::Object(m) => Value::Object(m.into_iter().map(|(k, v)| (k, value(v))).collect()),
    }
}

fn launched(s: &SandboxSpec, secrets: Vec<SecretEntry>) -> Value {
    value(to_json(&config_of(s, secrets)))
}

fn config_of(s: &SandboxSpec, secrets: Vec<SecretEntry>) -> LaunchConfig {
    build(
        s,
        "/msb",
        "team-a__hello",
        "/msb/cache/vmdk/img.vmdk".to_string(),
        "/msb-bin/libkrunfw.so".to_string(),
        secrets,
    )
}

fn built() -> Value {
    launched(&spec(), Vec::new())
}

fn json(text: &str) -> Value {
    serde_json::from_str(text).unwrap()
}

#[test]
fn emits_all_twenty_top_level_keys() {
    let v = built();
    let obj = v.as_object().expect("object");
    let expected = [
        "db_path",
        "db_connect_timeout_secs",
        "log_dir",
        "runtime_dir",
        "sandboxes_dir",
        "agent_sock",
        "libkrunfw_path",
        "startup",
        "lifecycle",
        "metrics",
        "rootfs",
        "mounts",
        "disks",
        "init_path",
        "env",
        "workdir",
        "exec_path",
        "exec_args",
        "network",
        "sandbox_slot",
    ];
    for key in expected {
        assert!(obj.contains_key(key), "missing top-level key {key}");
    }
    assert_eq!(obj.len(), expected.len(), "unexpected extra top-level keys");
}

#[test]
fn none_options_serialize_as_explicit_null() {
    let v = built();
    assert_eq!(v["startup"], Value::Null);
    assert_eq!(v["init_path"], Value::Null);
    assert_eq!(v["workdir"], Value::Null);
    assert!(v.as_object().unwrap().contains_key("workdir"));
}

#[test]
fn cmd_splits_into_exec_path_and_args() {
    let v = built();
    assert_eq!(v["exec_path"], "python");
    assert_eq!(v["exec_args"], json(r#"["app.py"]"#));
}

#[test]
fn no_command_means_no_program() {
    let mut s = spec();
    s.cmd = Vec::new();
    let v = launched(&s, Vec::new());
    assert_eq!(v["exec_path"], Value::Null);
    assert_eq!(v["exec_args"], json("[]"));
}

#[test]
fn rootfs_points_at_vmdk_with_upper() {
    let v = built();
    assert_eq!(v["rootfs"]["disk"], "/msb/cache/vmdk/img.vmdk");
    assert_eq!(v["rootfs"]["disk_format"], "vmdk");
    assert_eq!(v["rootfs"]["upper"], "/msb/sandboxes/team-a__hello/upper.ext4");
}

#[test]
fn paths_derive_from_msb_home() {
    let v = built();
    assert_eq!(v["db_path"], "/msb/db/msb.db");
    assert_eq!(v["sandboxes_dir"], "/msb/sandboxes");
}

#[test]
fn agent_socket_is_the_hashed_path() {
    let v = built();
    let sock = v["agent_sock"].as_str().unwrap();
    assert!(sock.starts_with("/msb/run/agent/"), "{sock}");
    assert!(sock.ends_with(".sock"), "{sock}");
    let hash = agent_socket_hash("team-a__hello");
    assert_eq!(hash.len(), 32, "16 bytes hex");
    assert_eq!(sock, format!("/msb/run/agent/{hash}.sock"));
    // The bridge dials the same socket.
    assert_eq!(sock, socket_path("/msb", "team-a__hello"));
}

#[test]
fn public_only_preset_mirrors_msb_semantics() {
    let v = built();
    let policy = &v["network"]["policy"];
    assert_eq!(policy["default_egress"], "deny");
    assert_eq!(policy["default_ingress"], "allow");

    let rules = policy["rules"].as_array().unwrap();
    assert_eq!(rules[0]["destination"], json(r#"{ "group": "host" }"#));
    assert_eq!(rules[0]["protocols"], json(r#"["udp", "tcp"]"#));
    assert_eq!(rules[0]["ports"], json(r#"[{ "start": 53, "end": 53 }]"#));
    assert_eq!(rules[0]["action"], "allow");
    assert_eq!(rules[1]["destination"], json(r#"{ "group": "public" }"#));
    assert_eq!(rules.len(), 2);
}

#[test]
fn non_local_preset_is_default_deny_not_deny_list() {
    let mut s = spec();
    s.network.policy.preset = PolicyPreset::NonLocal;
    let v = launched(&s, Vec::new());
    let policy = &v["network"]["policy"];
    assert_eq!(policy["default_egress"], "deny", "must be fail-closed");
    assert_eq!(policy["default_ingress"], "allow");
    let groups: Vec<_> = policy["rules"]
        .as_array()
        .unwrap()
        .iter()
        .filter_map(|r| r["destination"]["group"].as_str())
        .collect();
    assert_eq!(groups, vec!["host", "public", "private"]);
}

#[test]
fn the_other_presets_have_no_rules() {
    for (preset, action) in [(PolicyPreset::DenyAll, "deny"), (PolicyPreset::AllowAll, "allow")] {
        let mut s = spec();
        s.network.policy.preset = preset;
        let v = launched(&s, Vec::new());
        assert_eq!(v["network"]["policy"]["default_egress"], action);
        assert_eq!(v["network"]["policy"]["default_ingress"], action);
        assert_eq!(v["network"]["policy"]["rules"], json("[]"));
    }
}

#[test]
fn published_ports_bind_all_interfaces() {
    let mut s = spec();
    s.network.published_ports = vec![PublishedPort {
        guest_port: 8080,
        host_port: None,
        protocol: PortProtocol::Tcp,
        host_bind: "127.0.0.1".to_string(),
    }];
    let v = launched(&s, Vec::new());
    let port = &v["network"]["ports"][0];
    assert_eq!(port["host_port"], 8080);
    assert_eq!(port["guest_port"], 8080);
    assert_eq!(port["protocol"], "tcp");
    assert_eq!(port["host_bind"], "0.0.0.0");
}

#[test]
fn dns_tls_and_limits_are_written() {
    let mut s = spec();
    s.network.dns.nameservers = vec!["1.1.1.1:53".to_string(), "dns.google:53".to_string()];
    s.network.tls.intercept = true;
    s.network.tls.intercepted_ports = vec![sandbox::InterceptedPort { port: 443 }];
    let net = &launched(&s, Vec::new())["network"];
    assert_eq!(net["dns"]["nameservers"], json(r#"["1.1.1.1:53", "dns.google:53"]"#));
    assert_eq!(net["tls"], json(r#"{"enabled": true, "intercepted_ports": [443]}"#));
    assert_eq!(net["max_connections"], 256);
}

fn spec_secret(env: &str, secret: &str, key: &str, hosts: &[&str]) -> sandbox::SecretEntry {
    sandbox::SecretEntry {
        env: env.to_string(),
        value_from: SecretValueFrom {
            secret_key_ref: SecretKeyRef { name: secret.to_string(), key: key.to_string() },
        },
        allowed_hosts: hosts.iter().map(|h| h.to_string()).collect(),
    }
}

fn plain(secret: &str, key: &str, value: &str) -> Plaintext {
    Plaintext { secret: secret.to_string(), key: key.to_string(), value: value.to_string() }
}

fn error_of(specs: &Vec<sandbox::SecretEntry>, resolved: &Vec<Plaintext>) -> SecretError {
    match resolve(specs, resolved) {
        Err(e) => e,
        Ok(_) => panic!("resolved"),
    }
}

fn entries(specs: &Vec<sandbox::SecretEntry>, resolved: &Vec<Plaintext>) -> Vec<SecretEntry> {
    match resolve(specs, resolved) {
        Ok(v) => v,
        Err(e) => panic!("{}", e.message()),
    }
}

#[test]
fn resolves_value_and_derives_placeholder() {
    let specs = vec![spec_secret("API_KEY", "creds", "api", &["api.openai.com"])];
    let out = entries(&specs, &vec![plain("creds", "api", "sk-live-xyz")]);
    assert_eq!(out.len(), 1);
    assert_eq!(out[0].env_var, "API_KEY");
    assert_eq!(out[0].value, "sk-live-xyz");
    assert_eq!(out[0].placeholder, "msb_secret_API_KEY");
    assert!(out[0].require_tls_identity);
}

#[test]
fn missing_secret_is_an_error_not_an_empty_value() {
    let specs = vec![spec_secret("API_KEY", "creds", "api", &[])];
    let err = error_of(&specs, &Vec::new());
    assert!(matches!(&err, SecretError::Missing { .. }));
    assert_eq!(
        err.message(),
        "secret for env API_KEY: Secret creds/api not found or key missing"
    );
}

#[test]
fn wildcard_and_exact_hosts() {
    let specs = vec![spec_secret("K", "s", "k", &["*.openai.com", "exact.com"])];
    let out = entries(&specs, &vec![plain("s", "k", "v")]);
    assert!(matches!(&out[0].allowed_hosts[0], HostPattern::Wildcard(h) if h == "openai.com"));
    assert!(matches!(&out[0].allowed_hosts[1], HostPattern::Exact(h) if h == "exact.com"));
}

#[test]
fn duplicate_env_var_is_rejected() {
    let specs = vec![
        spec_secret("API_KEY", "a", "k", &[]),
        spec_secret("API_KEY", "b", "k", &[]),
    ];
    let resolved = vec![plain("a", "k", "v1"), plain("b", "k", "v2")];
    let e = error_of(&specs, &resolved);
    assert!(matches!(&e, SecretError::DuplicateEnv { .. }));
    assert_eq!(e.message(), "secret env var API_KEY is used by more than one entry");
}

#[test]
fn garbage_hosts_are_rejected() {
    let resolved = vec![plain("s", "k", "v")];
    for bad in ["*", "", "*.", "a*b"] {
        let specs = vec![spec_secret("K", "s", "k", &[bad])];
        assert!(
            matches!(error_of(&specs, &resolved), SecretError::InvalidHost { .. }),
            "host {bad:?} should be rejected"
        );
    }
}

#[test]
fn an_invalid_host_is_named() {
    let specs = vec![spec_secret("K", "s", "k", &["ok.com", "*"])];
    let e = error_of(&specs, &vec![plain("s", "k", "v")]);
    assert_eq!(e.message(), "secret for env K: invalid allowed_host \"*\"");
}

#[test]
fn required_keys_dedupes() {
    let specs = vec![
        spec_secret("A", "creds", "shared", &[]),
        spec_secret("B", "creds", "shared", &[]),
        spec_secret("C", "creds", "other", &[]),
    ];
    let keys = required_keys(&specs);
    assert_eq!(keys.len(), 2);
}

#[test]
fn placeholder_is_valid_per_msb_rules() {
    let p = placeholder_for("SOME_VAR");
    assert!(!p.is_empty());
    assert!(p.len() <= 1024);
    assert!(!p.contains(['\0', '\r', '\n']));
}

#[test]
fn a_placeholder_escapes_what_it_may_not_hold() {
    assert_eq!(placeholder_for("SOME_VAR"), "msb_secret_SOME_VAR");
    assert_eq!(placeholder_for("%"), "msb_secret_%");
    assert_eq!(placeholder_for("100% A\t=b"), "msb_secret_100% A\t=b");
    assert_eq!(placeholder_for(""), "msb_secret_");
    assert_eq!(placeholder_for("A\nB"), "msb_secret%A%00000aB");
    assert_eq!(placeholder_for("%\n"), "msb_secret%%000025%00000a");
    assert_eq!(placeholder_for("\u{10ffff}"), "msb_secret%%10ffff");
    let odd = ["\0", "\r", "\n", "\u{e9}", "%", "%00000a", "%\n", "%%00000a", ""];
    for (i, a) in odd.iter().enumerate() {
        let p = placeholder_for(a);
        assert!(!p.is_empty() && p.is_ascii());
        assert!(!p.contains(['\0', '\r', '\n']));
        assert!(odd.iter().skip(i + 1).all(|b| placeholder_for(b) != p));
    }
}

#[test]
fn a_secret_is_read_from_its_own_file() {
    assert_eq!(secret_path("/msb-secrets", "creds", "api"), "/msb-secrets/creds/api");
    assert_eq!(secret_value("s3cret\n\n"), "s3cret");
    assert_eq!(secret_value("a\nb "), "a\nb ");
}

#[test]
fn resolved_hosts_are_written_as_they_were() {
    let specs = vec![spec_secret("K", "s", "k", &["*.a.com", "b.com"])];
    let out = entries(&specs, &vec![plain("s", "k", "v")]);
    let r = to_resolved(&out[0]);
    assert_eq!(r.allowed_hosts, vec!["*.a.com", "b.com"]);
    assert_eq!((r.env.as_str(), r.value.as_str()), ("K", "v"));
    assert_eq!(
        out[0].redacted(),
        "SecretEntry { env_var: \"K\", value: \"<redacted>\", placeholder: \"msb_secret_K\", \
         allowed_hosts: [Wildcard(\"a.com\"), Exact(\"b.com\")], .. }"
    );
}

#[test]
fn secrets_reach_the_launch_configuration() {
    let specs = vec![spec_secret("K", "s", "k", &["*.a.com", "b.com"])];
    let out = entries(&specs, &vec![plain("s", "k", "v")]);
    let v = launched(&spec(), out);
    let s = &v["network"]["secrets"]["secrets"][0];
    assert_eq!(s["env_var"], "K");
    assert_eq!(s["value"], "v");
    assert_eq!(s["allowed_hosts"], json(r#"[{"wildcard": "a.com"}, {"exact": "b.com"}]"#));
    assert_eq!(s["require_tls_identity"], true);
}
