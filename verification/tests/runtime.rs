//! The runtime container.

use msb_operator::runtime::boot::{boot_plan, exit_code, BootError};
use msb_operator::runtime::cache_wait::{wait, WaitStep};
use msb_operator::runtime::console_log::{format_line, LogEntry, LogSource};
use msb_operator::runtime::net::{apply, HostRule, NetworkPolicy, NetworkProfile};
use msb_operator::runtime::quantity::{quantity_to_mib, Quantity, QuantityError};
use msb_operator::sandbox::{
    EnvVar, InterceptedPort, PolicyPreset, PortProtocol, PublishedPort, ResolvedSecret, Rlimit,
    RlimitResource, SandboxSpec, SecurityProfile,
};
use msb_operator::time::WireTime;

fn spec() -> SandboxSpec {
    SandboxSpec {
        image: "python:3.12".to_string(),
        desired_state: Default::default(),
        cpus: 2,
        memory: 1024,
        max_cpus: None,
        max_memory: None,
        cmd: vec!["python".to_string(), "script.py".to_string()],
        entrypoint: Vec::new(),
        env: vec![EnvVar { name: "A".to_string(), value: "1".to_string() }],
        workdir: Some("/app".to_string()),
        shell: None,
        user: Some("me".to_string()),
        hostname: None,
        ephemeral: true,
        lifecycle: Default::default(),
        max_duration_secs: Some(60),
        idle_timeout_secs: None,
        run_policy: Default::default(),
        secrets: Vec::new(),
        network: Default::default(),
        upper: Default::default(),
        security_profile: Default::default(),
        rlimits: Vec::new(),
        logging: Default::default(),
    }
}

fn mib(q: &str) -> u32 {
    match quantity_to_mib(q).unwrap() {
        Quantity::Mib(n) => n,
        other => panic!("not whole: {other:?}"),
    }
}

#[test]
fn parses_quantities_to_mib() {
    assert_eq!(mib("4Gi"), 4096);
    assert_eq!(mib("8Gi"), 8192);
    assert_eq!(mib("512Mi"), 512);
    assert_eq!(mib("1Ki"), 1); // rounds up
    assert_eq!(mib("1G"), 954); // 1e9 bytes -> 953.7 MiB, ceil
    assert_eq!(mib("1024"), 1); // bare bytes
    assert!(quantity_to_mib("garbage").is_err());
    assert!(quantity_to_mib("-1Gi").is_err());
}

#[test]
fn whole_numbers_are_capped_signed_and_trimmed() {
    assert_eq!(mib(" 2 Mi "), 2);
    assert_eq!(mib("+3Mi"), 3);
    assert_eq!(mib("-0"), 0);
    assert_eq!(mib("2M"), 2);
    assert_eq!(mib("99999999999999999999999999Gi"), u32::MAX);
    assert_eq!(mib("4294967295Mi"), u32::MAX);
    assert_eq!(mib("4294967294Mi"), u32::MAX - 1);
    assert_eq!(mib("inf"), u32::MAX);
}

#[test]
fn what_is_no_number_is_refused() {
    for q in ["", "Gi", "1.2.3", "e5", "1e", ".", "--1", "0x10"] {
        let e = quantity_to_mib(q).unwrap_err();
        assert!(matches!(e, QuantityError::Invalid(_)), "{q}");
    }
    for q in ["-5", "nan", "-inf", "-infinityMi"] {
        let e = quantity_to_mib(q).unwrap_err();
        assert!(matches!(e, QuantityError::Negative(_)), "{q}");
    }
    assert_eq!(quantity_to_mib(" x ").unwrap_err().message(), "invalid quantity \"x\"");
    assert_eq!(
        quantity_to_mib("-5").unwrap_err().message(),
        "quantity \"-5\" must be non-negative"
    );
}

#[test]
fn a_fraction_is_handed_on() {
    for (q, number, unit) in
        [("1.5Gi", "1.5", 1_073_741_824), (".5M", ".5", 1_000_000), ("1E3", "1E3", 1), ("2.", "2.", 1)]
    {
        assert_eq!(
            quantity_to_mib(q),
            Ok(Quantity::Decimal { number: number.to_string(), unit_bytes: unit })
        );
    }
    // A negative one is refused, unless it is zero.
    for q in ["-0.5Gi", "-1e3", "-.1M", "-1e-400"] {
        assert_eq!(quantity_to_mib(q), Err(QuantityError::Negative(q.to_string())));
    }
    assert!(matches!(quantity_to_mib("-0.0Gi"), Ok(Quantity::Decimal { .. })));
    assert!(matches!(quantity_to_mib("-0e9"), Ok(Quantity::Decimal { .. })));
}

fn entry(source: LogSource, text: &str) -> LogEntry {
    LogEntry {
        timestamp: WireTime::parse("2026-01-01T00:00:00Z").unwrap(),
        source,
        data: text.as_bytes().to_vec(),
    }
}

fn json(text: &str) -> serde_json::Value {
    serde_json::from_str(text).unwrap()
}

#[test]
fn formats_stdout_line_as_json() {
    let v = json(&format_line(&entry(LogSource::Stdout, "hello world\n")));
    assert_eq!(v["source"], "stdout");
    assert_eq!(v["text"], "hello world");
    assert_eq!(v["ts"], "2026-01-01T00:00:00Z");
}

#[test]
fn formats_stderr_line() {
    let v = json(&format_line(&entry(LogSource::Stderr, "oops")));
    assert_eq!(v["source"], "stderr");
    assert_eq!(v["text"], "oops");
}

#[test]
fn strips_trailing_newline_but_keeps_interior_content() {
    let v = json(&format_line(&entry(LogSource::Stdout, "a\nb\n")));
    assert_eq!(v["text"], "a\nb");
}

#[test]
fn lossily_decodes_non_utf8_bytes() {
    let mut e = entry(LogSource::Stdout, "");
    e.data = vec![0xff, 0xfe, b'h', b'i'];
    let v = json(&format_line(&e));
    assert_eq!(v["text"], "\u{fffd}\u{fffd}hi");
}

#[test]
fn one_json_object_per_line_no_embedded_newlines() {
    let line = format_line(&entry(LogSource::System, "x"));
    assert_eq!(line.matches('\n').count(), 0);
}

#[test]
fn control_characters_are_escaped() {
    let text = "q\" b\\ t\t r\r f\u{c} b\u{8} z\u{0} e\u{1f} \u{e9}\u{1f600}";
    let line = format_line(&entry(LogSource::Output, text));
    assert!(line.chars().all(|c| c >= ' '));
    assert!(line.contains("\\u0000") && line.contains("\\u001f"));
    assert_eq!(json(&line)["text"], text);
    assert_eq!(json(&line)["source"], "output");
}

#[test]
fn the_wait_ends_with_the_cache_a_failure_or_the_deadline() {
    let failed = || Some("auth denied".to_string());
    assert_eq!(wait(true, failed(), 400_000, "a:1"), WaitStep::Boot);
    assert_eq!(
        wait(false, failed(), 0, "a:1"),
        WaitStep::Fail("daemon failed to pull a:1: auth denied".to_string())
    );
    assert_eq!(wait(false, None, 299_999, "a:1"), WaitStep::Poll);
    assert_eq!(
        wait(false, None, 300_000, "a:1"),
        WaitStep::Fail("cache for a:1 not ready after 300s".to_string())
    );
}

#[test]
fn the_exit_code_reflects_the_sandbox() {
    assert_eq!(exit_code(Some(3), None), 3);
    assert_eq!(exit_code(None, None), 0);
    assert_eq!(exit_code(Some(3), Some(9)), 137);
}

#[test]
fn the_boot_plan_follows_the_specification() {
    let mut s = spec();
    s.cpus = 2;
    s.max_cpus = Some(8);
    s.security_profile = SecurityProfile::Restricted;
    s.rlimits = vec![Rlimit { resource: RlimitResource::Nofile, soft: 1024, hard: 4096 }];
    let p = boot_plan(&s, &Vec::new()).unwrap();
    assert_eq!(p.image, "python:3.12");
    assert_eq!(p.cpus, 2);
    assert_eq!(p.memory, 1024);
    assert_eq!((p.max_cpus, p.max_memory), (8, 1024));
    assert_eq!(p.security_profile, SecurityProfile::Restricted);
    assert_eq!(p.rlimits, s.rlimits);
    assert!(p.root_disk == Quantity::Mib(4096));
    assert_eq!(p.entrypoint, None);
    assert_eq!(p.background_command, Some(vec!["python".to_string(), "script.py".to_string()]));
    assert_eq!(p.env.len(), 1);
    assert_eq!(p.workdir.as_deref(), Some("/app"));
    assert_eq!(p.shell, None);
    assert_eq!(p.max_duration_secs, Some(60));
    assert_eq!(p.idle_timeout_secs, None);
    s.upper.size.0 = "much".to_string();
    assert!(matches!(
        boot_plan(&s, &Vec::new()),
        Err(BootError::Disk(QuantityError::Invalid(q))) if q == "much"
    ));
}

#[test]
fn too_many_cpus_are_refused() {
    let mut s = spec();
    s.cpus = 255;
    assert_eq!(boot_plan(&s, &Vec::new()).ok().unwrap().cpus, 255);
    s.max_cpus = Some(256);
    assert!(matches!(boot_plan(&s, &Vec::new()), Err(BootError::TooManyCpus(256))));
    s.cpus = 258;
    let e = boot_plan(&s, &Vec::new()).err().unwrap();
    assert_eq!(e, BootError::TooManyCpus(258));
    assert_eq!(e.message(), "258 vCPUs are more than a microVM can have (255)");
}

#[test]
fn the_network_is_set_up_as_asked() {
    let mut s = spec();
    s.network.enabled = false;
    s.network.policy.preset = PolicyPreset::NonLocal;
    s.network.tls.intercept = true;
    s.network.tls.intercepted_ports = vec![InterceptedPort { port: 443 }];
    s.network.published_ports = vec![PublishedPort {
        guest_port: 80,
        host_port: Some(8000),
        protocol: PortProtocol::Udp,
        host_bind: "127.0.0.1".to_string(),
    }];
    let secrets = vec![ResolvedSecret {
        env: "K".to_string(),
        value: "v".to_string(),
        placeholder: "p".to_string(),
        allowed_hosts: vec!["*.a.com".to_string(), "b.com".to_string()],
    }];
    let plan = apply(&s, &secrets);
    assert!(!plan.enabled);
    assert_eq!(
        plan.policy,
        NetworkPolicy::Profiles(vec![NetworkProfile::Public, NetworkProfile::Private])
    );
    assert_eq!(plan.intercepted_ports, Some(vec![443]));
    assert_eq!(plan.ports[0].host_bind, "127.0.0.1");
    assert_eq!((plan.ports[0].host, plan.ports[0].guest), (8000, 80));
    assert_eq!(plan.ports[0].protocol, PortProtocol::Udp);
    assert_eq!(plan.max_connections, 256);
    assert_eq!(
        plan.secrets[0].hosts,
        vec![HostRule::Pattern("*.a.com".to_string()), HostRule::Host("b.com".to_string())]
    );
    s.network.tls.intercept = false;
    s.network.policy.preset = PolicyPreset::DenyAll;
    let plan = apply(&s, &Vec::new());
    assert_eq!(plan.intercepted_ports, None);
    assert_eq!(plan.policy, NetworkPolicy::Nothing);
    assert!(plan.secrets.is_empty());
}
